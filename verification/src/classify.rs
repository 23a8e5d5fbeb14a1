//! Sorting an imported file into a part of the project by the words found
//! in its text and its name.

use vstd::prelude::*;
use crate::text::{contains_seq, ends_with_seq, spec_to_lowercase, str_contains, str_ends_with, to_lowercase};

verus! {

/// Whether a word occurs in the lower-cased text or in the lower-cased
/// file name.
pub open spec fn mentions(content: Seq<char>, filename: Seq<char>, word: Seq<char>) -> bool {
    contains_seq(spec_to_lowercase(content), word) || contains_seq(spec_to_lowercase(filename), word)
}

/// The part of the project a file belongs to: the first of chapter,
/// scene, character, object, location, time, summary, outline, plot, note,
/// research and analysis that the file mentions (only the name counts for
/// summaries), then images by extension, and the manuscript otherwise.
pub open spec fn spec_classification(content: Seq<char>, filename: Seq<char>) -> Seq<char> {
    let lc = spec_to_lowercase(content);
    let lf = spec_to_lowercase(filename);
    if mentions(content, filename, "chapter"@) {
        "Chapter"@
    } else if mentions(content, filename, "scene"@) {
        "Scene"@
    } else if mentions(content, filename, "character"@) {
        "Codex/Character"@
    } else if mentions(content, filename, "object"@) {
        "Codex/Objects"@
    } else if mentions(content, filename, "location"@) {
        "Codex/Location"@
    } else if mentions(content, filename, "time"@) {
        "Codex/Time"@
    } else if contains_seq(lc, "story summary"@) || contains_seq(lf, "summary"@) {
        "Codex/Story Summary"@
    } else if mentions(content, filename, "outline"@) {
        "Hierarchy"@
    } else if mentions(content, filename, "plot"@) {
        "Plot"@
    } else if mentions(content, filename, "note"@) {
        "Notes"@
    } else if mentions(content, filename, "research"@) {
        "Research"@
    } else if mentions(content, filename, "analysis"@) {
        "Analysis"@
    } else if ends_with_seq(lf, ".jpg"@) || ends_with_seq(lf, ".png"@) || ends_with_seq(lf, ".gif"@) {
        "Images"@
    } else {
        "Manuscript"@
    }
}

fn mentioned(lc: &str, lf: &str, word: &str) -> (r: bool)
    ensures
        r == (contains_seq(lc@, word@) || contains_seq(lf@, word@)),
{
    str_contains(lc, word) || str_contains(lf, word)
}

/// The part of the project a file belongs to.
pub fn classify_content(content: &str, filename: &str) -> (r: String)
    ensures
        r@ == spec_classification(content@, filename@),
{
    let lower_content = to_lowercase(content);
    let lower_filename = to_lowercase(filename);
    let lc = lower_content.as_str();
    let lf = lower_filename.as_str();
    let c: &str = if mentioned(lc, lf, "chapter") {
        "Chapter"
    } else if mentioned(lc, lf, "scene") {
        "Scene"
    } else if mentioned(lc, lf, "character") {
        "Codex/Character"
    } else if mentioned(lc, lf, "object") {
        "Codex/Objects"
    } else if mentioned(lc, lf, "location") {
        "Codex/Location"
    } else if mentioned(lc, lf, "time") {
        "Codex/Time"
    } else if str_contains(lc, "story summary") || str_contains(lf, "summary") {
        "Codex/Story Summary"
    } else if mentioned(lc, lf, "outline") {
        "Hierarchy"
    } else if mentioned(lc, lf, "plot") {
        "Plot"
    } else if mentioned(lc, lf, "note") {
        "Notes"
    } else if mentioned(lc, lf, "research") {
        "Research"
    } else if mentioned(lc, lf, "analysis") {
        "Analysis"
    } else if str_ends_with(lf, ".jpg") || str_ends_with(lf, ".png") || str_ends_with(lf, ".gif") {
        "Images"
    } else {
        "Manuscript"
    };
    c.to_string()
}

/// A file is sorted by the first of the words chapter, scene, character,
/// object, location and time that its lower-cased text or lower-cased name
/// contains: a file that mentions `character` but neither `chapter` nor
/// `scene` is a character sheet, and so on. Failing those, a story summary
/// in the text or a summary in the name makes a story summary; then outline,
/// plot, note, research and analysis, in that order; then an image extension
/// on the name. A file that mentions none of the sorting words and whose
/// name ends in none of the image extensions is part of the manuscript.
pub proof fn law_classification_by_words(content: Seq<char>, filename: Seq<char>)
    ensures
        ({
            let lc = spec_to_lowercase(content);
            let lf = spec_to_lowercase(filename);
            &&&
            (contains_seq(lc, "chapter"@) || contains_seq(lf, "chapter"@))
                ==> spec_classification(content, filename) == "Chapter"@
            &&&
            !(contains_seq(lc, "chapter"@) || contains_seq(lf, "chapter"@)) && (contains_seq(lc, "scene"@) || contains_seq(lf, "scene"@))
                ==> spec_classification(content, filename) == "Scene"@
            &&&
            !(contains_seq(lc, "chapter"@) || contains_seq(lf, "chapter"@)) && !(contains_seq(lc, "scene"@) || contains_seq(lf, "scene"@)) && (contains_seq(lc, "character"@) || contains_seq(lf, "character"@))
                ==> spec_classification(content, filename) == "Codex/Character"@
            &&&
            !(contains_seq(lc, "chapter"@) || contains_seq(lf, "chapter"@)) && !(contains_seq(lc, "scene"@) || contains_seq(lf, "scene"@)) && !(contains_seq(lc, "character"@) || contains_seq(lf, "character"@)) && (contains_seq(lc, "object"@) || contains_seq(lf, "object"@))
                ==> spec_classification(content, filename) == "Codex/Objects"@
            &&&
            !(contains_seq(lc, "chapter"@) || contains_seq(lf, "chapter"@)) && !(contains_seq(lc, "scene"@) || contains_seq(lf, "scene"@)) && !(contains_seq(lc, "character"@) || contains_seq(lf, "character"@)) && !(contains_seq(lc, "object"@) || contains_seq(lf, "object"@)) && (contains_seq(lc, "location"@) || contains_seq(lf, "location"@))
                ==> spec_classification(content, filename) == "Codex/Location"@
            &&&
            !(contains_seq(lc, "chapter"@) || contains_seq(lf, "chapter"@)) && !(contains_seq(lc, "scene"@) || contains_seq(lf, "scene"@)) && !(contains_seq(lc, "character"@) || contains_seq(lf, "character"@)) && !(contains_seq(lc, "object"@) || contains_seq(lf, "object"@)) && !(contains_seq(lc, "location"@) || contains_seq(lf, "location"@)) && (contains_seq(lc, "time"@) || contains_seq(lf, "time"@))
                ==> spec_classification(content, filename) == "Codex/Time"@
        }),
        ({
            let lc = spec_to_lowercase(content);
            let lf = spec_to_lowercase(filename);
            &&&
            !(contains_seq(lc, "chapter"@) || contains_seq(lf, "chapter"@)) && !(contains_seq(lc, "scene"@) || contains_seq(lf, "scene"@)) && !(contains_seq(lc, "character"@) || contains_seq(lf, "character"@)) && !(contains_seq(lc, "object"@) || contains_seq(lf, "object"@)) && !(contains_seq(lc, "location"@) || contains_seq(lf, "location"@)) && !(contains_seq(lc, "time"@) || contains_seq(lf, "time"@))
                && (contains_seq(lc, "story summary"@) || contains_seq(lf, "summary"@))
                ==> spec_classification(content, filename) == "Codex/Story Summary"@
            &&&
            !(contains_seq(lc, "chapter"@) || contains_seq(lf, "chapter"@)) && !(contains_seq(lc, "scene"@) || contains_seq(lf, "scene"@)) && !(contains_seq(lc, "character"@) || contains_seq(lf, "character"@)) && !(contains_seq(lc, "object"@) || contains_seq(lf, "object"@)) && !(contains_seq(lc, "location"@) || contains_seq(lf, "location"@)) && !(contains_seq(lc, "time"@) || contains_seq(lf, "time"@)) && !(contains_seq(lc, "story summary"@) || contains_seq(lf, "summary"@)) && (contains_seq(lc, "outline"@) || contains_seq(lf, "outline"@))
                ==> spec_classification(content, filename) == "Hierarchy"@
            &&&
            !(contains_seq(lc, "chapter"@) || contains_seq(lf, "chapter"@)) && !(contains_seq(lc, "scene"@) || contains_seq(lf, "scene"@)) && !(contains_seq(lc, "character"@) || contains_seq(lf, "character"@)) && !(contains_seq(lc, "object"@) || contains_seq(lf, "object"@)) && !(contains_seq(lc, "location"@) || contains_seq(lf, "location"@)) && !(contains_seq(lc, "time"@) || contains_seq(lf, "time"@)) && !(contains_seq(lc, "story summary"@) || contains_seq(lf, "summary"@)) && !(contains_seq(lc, "outline"@) || contains_seq(lf, "outline"@)) && (contains_seq(lc, "plot"@) || contains_seq(lf, "plot"@))
                ==> spec_classification(content, filename) == "Plot"@
            &&&
            !(contains_seq(lc, "chapter"@) || contains_seq(lf, "chapter"@)) && !(contains_seq(lc, "scene"@) || contains_seq(lf, "scene"@)) && !(contains_seq(lc, "character"@) || contains_seq(lf, "character"@)) && !(contains_seq(lc, "object"@) || contains_seq(lf, "object"@)) && !(contains_seq(lc, "location"@) || contains_seq(lf, "location"@)) && !(contains_seq(lc, "time"@) || contains_seq(lf, "time"@)) && !(contains_seq(lc, "story summary"@) || contains_seq(lf, "summary"@)) && !(contains_seq(lc, "outline"@) || contains_seq(lf, "outline"@)) && !(contains_seq(lc, "plot"@) || contains_seq(lf, "plot"@)) && (contains_seq(lc, "note"@) || contains_seq(lf, "note"@))
                ==> spec_classification(content, filename) == "Notes"@
            &&&
            !(contains_seq(lc, "chapter"@) || contains_seq(lf, "chapter"@)) && !(contains_seq(lc, "scene"@) || contains_seq(lf, "scene"@)) && !(contains_seq(lc, "character"@) || contains_seq(lf, "character"@)) && !(contains_seq(lc, "object"@) || contains_seq(lf, "object"@)) && !(contains_seq(lc, "location"@) || contains_seq(lf, "location"@)) && !(contains_seq(lc, "time"@) || contains_seq(lf, "time"@)) && !(contains_seq(lc, "story summary"@) || contains_seq(lf, "summary"@)) && !(contains_seq(lc, "outline"@) || contains_seq(lf, "outline"@)) && !(contains_seq(lc, "plot"@) || contains_seq(lf, "plot"@)) && !(contains_seq(lc, "note"@) || contains_seq(lf, "note"@)) && (contains_seq(lc, "research"@) || contains_seq(lf, "research"@))
                ==> spec_classification(content, filename) == "Research"@
            &&&
            !(contains_seq(lc, "chapter"@) || contains_seq(lf, "chapter"@)) && !(contains_seq(lc, "scene"@) || contains_seq(lf, "scene"@)) && !(contains_seq(lc, "character"@) || contains_seq(lf, "character"@)) && !(contains_seq(lc, "object"@) || contains_seq(lf, "object"@)) && !(contains_seq(lc, "location"@) || contains_seq(lf, "location"@)) && !(contains_seq(lc, "time"@) || contains_seq(lf, "time"@)) && !(contains_seq(lc, "story summary"@) || contains_seq(lf, "summary"@)) && !(contains_seq(lc, "outline"@) || contains_seq(lf, "outline"@)) && !(contains_seq(lc, "plot"@) || contains_seq(lf, "plot"@)) && !(contains_seq(lc, "note"@) || contains_seq(lf, "note"@)) && !(contains_seq(lc, "research"@) || contains_seq(lf, "research"@)) && (contains_seq(lc, "analysis"@) || contains_seq(lf, "analysis"@))
                ==> spec_classification(content, filename) == "Analysis"@
            &&&
            !(contains_seq(lc, "chapter"@) || contains_seq(lf, "chapter"@)) && !(contains_seq(lc, "scene"@) || contains_seq(lf, "scene"@)) && !(contains_seq(lc, "character"@) || contains_seq(lf, "character"@)) && !(contains_seq(lc, "object"@) || contains_seq(lf, "object"@)) && !(contains_seq(lc, "location"@) || contains_seq(lf, "location"@)) && !(contains_seq(lc, "time"@) || contains_seq(lf, "time"@)) && !(contains_seq(lc, "story summary"@) || contains_seq(lf, "summary"@)) && !(contains_seq(lc, "outline"@) || contains_seq(lf, "outline"@)) && !(contains_seq(lc, "plot"@) || contains_seq(lf, "plot"@)) && !(contains_seq(lc, "note"@) || contains_seq(lf, "note"@)) && !(contains_seq(lc, "research"@) || contains_seq(lf, "research"@)) && !(contains_seq(lc, "analysis"@) || contains_seq(lf, "analysis"@)) && (ends_with_seq(lf, ".jpg"@) || ends_with_seq(lf, ".png"@) || ends_with_seq(lf, ".gif"@))
                ==> spec_classification(content, filename) == "Images"@
        }),
        ({
            let lc = spec_to_lowercase(content);
            let lf = spec_to_lowercase(filename);
            !(contains_seq(lc, "chapter"@) || contains_seq(lf, "chapter"@))
            && !(contains_seq(lc, "scene"@) || contains_seq(lf, "scene"@))
            && !(contains_seq(lc, "character"@) || contains_seq(lf, "character"@))
            && !(contains_seq(lc, "object"@) || contains_seq(lf, "object"@))
            && !(contains_seq(lc, "location"@) || contains_seq(lf, "location"@))
            && !(contains_seq(lc, "time"@) || contains_seq(lf, "time"@))
            && !(contains_seq(lc, "outline"@) || contains_seq(lf, "outline"@))
            && !(contains_seq(lc, "plot"@) || contains_seq(lf, "plot"@))
            && !(contains_seq(lc, "note"@) || contains_seq(lf, "note"@))
            && !(contains_seq(lc, "research"@) || contains_seq(lf, "research"@))
            && !(contains_seq(lc, "analysis"@) || contains_seq(lf, "analysis"@))
            && !contains_seq(lc, "story summary"@) && !contains_seq(lf, "summary"@)
            && !ends_with_seq(lf, ".jpg"@) && !ends_with_seq(lf, ".png"@) && !ends_with_seq(lf, ".gif"@)
            ==> spec_classification(content, filename) == "Manuscript"@
        }),
{
}

} // verus!
