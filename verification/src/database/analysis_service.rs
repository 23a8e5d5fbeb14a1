//! The decisions of the analysis service: the records it stores, the field
//! kind of an entry brought over from the codex, the insights it draws from
//! an analysis's fields and the summary it exports.

use vstd::prelude::*;
use crate::database::DatabaseError;
use crate::database::models::analysis::{
    Analysis, AnalysisField, AnalysisFieldType, AnalysisWithFields, WritingType,
};
use crate::text::{push_str, string_from_chars, str_eq};
use crate::timeutil::{DateTimeUtc, format_datetime, new_uuid, spec_datetime_format, utc_now};

verus! {

/// A new analysis of a project, with a fresh identifier, made now.
pub fn new_analysis(project_id: u128, title: String, description: String, writing_type: WritingType) -> (a: Analysis)
    ensures
        a.project_id == project_id,
        a.title == title,
        a.description == description,
        a.writing_type == writing_type,
{
    Analysis {
        id: new_uuid(),
        project_id,
        title,
        description,
        writing_type,
        created_at: utc_now(),
        updated_at: utc_now(),
    }
}

/// The record an update of an analysis reports: the given values, stamped
/// with the update time (the creation time is not read back).
pub fn updated_analysis(
    analysis_id: u128,
    project_id: u128,
    title: String,
    description: String,
    writing_type: WritingType,
    updated_at: DateTimeUtc,
) -> (a: Analysis)
    ensures
        a.id == analysis_id,
        a.project_id == project_id,
        a.title == title,
        a.description == description,
        a.writing_type == writing_type,
        a.updated_at == updated_at,
{
    Analysis { id: analysis_id, project_id, title, description, writing_type, created_at: utc_now(), updated_at }
}

/// A new field of an analysis, with a fresh identifier, made now.
pub fn new_analysis_field(analysis_id: u128, field_type: AnalysisFieldType, content: String) -> (f: AnalysisField)
    ensures
        f.analysis_id == analysis_id,
        f.field_type == field_type,
        f.content == content,
{
    AnalysisField { id: new_uuid(), analysis_id, field_type, content, created_at: utc_now(), updated_at: utc_now() }
}

/// The kind of field a codex entry of the given type becomes.
pub open spec fn spec_codex_field_type(entry_type: Seq<char>) -> AnalysisFieldType {
    if entry_type == "CharacterSheet"@ {
        AnalysisFieldType::Character
    } else if entry_type == "Place"@ {
        AnalysisFieldType::Setting
    } else if entry_type == "StorySummary"@ {
        AnalysisFieldType::Theme
    } else {
        AnalysisFieldType::Body
    }
}

/// The kind of field a codex entry of the given type becomes when it is
/// dragged into an analysis.
pub fn codex_field_type(entry_type: &str) -> (r: AnalysisFieldType)
    ensures
        r == spec_codex_field_type(entry_type@),
{
    if str_eq(entry_type, "CharacterSheet") {
        AnalysisFieldType::Character
    } else if str_eq(entry_type, "Place") {
        AnalysisFieldType::Setting
    } else if str_eq(entry_type, "StorySummary") {
        AnalysisFieldType::Theme
    } else {
        AnalysisFieldType::Body
    }
}

/// The fields to create for entries brought over from the codex, in order.
pub fn fields_from_codex(analysis_id: u128, codex_entries: Vec<(String, String)>) -> (r: Vec<AnalysisField>)
    ensures
        r@.len() == codex_entries@.len(),
        forall|i: int| 0 <= i < r@.len() ==> {
            &&& (#[trigger] r@[i]).analysis_id == analysis_id
            &&& r@[i].field_type == spec_codex_field_type(codex_entries@[i].0@)
            &&& r@[i].content == codex_entries@[i].1
        },
{
    let mut out: Vec<AnalysisField> = Vec::new();
    let mut i: usize = 0;
    while i < codex_entries.len()
        invariant
            i <= codex_entries@.len(),
            out@.len() == i,
            forall|j: int| 0 <= j < i ==> {
                &&& (#[trigger] out@[j]).analysis_id == analysis_id
                &&& out@[j].field_type == spec_codex_field_type(codex_entries@[j].0@)
                &&& out@[j].content == codex_entries@[j].1
            },
        decreases codex_entries@.len() - i,
    {
        let kind = codex_field_type(codex_entries[i].0.as_str());
        let content = codex_entries[i].1.clone();
        out.push(new_analysis_field(analysis_id, kind, content));
        i += 1;
    }
    out
}

/// How many of the fields are of the given kind.
pub open spec fn count_kind(fields: Seq<AnalysisField>, t: AnalysisFieldType) -> nat
    decreases fields.len(),
{
    if fields.len() == 0 {
        0
    } else {
        count_kind(fields.drop_last(), t) + if fields.last().field_type == t { 1nat } else { 0nat }
    }
}

/// The insights drawn from the numbers of characters, settings, plot
/// points, themes, thesis statements and pieces of evidence, in this order.
pub open spec fn insights_for(
    characters: nat,
    settings: nat,
    plots: nat,
    themes: nat,
    theses: nat,
    evidence: nat,
) -> Seq<Seq<char>> {
    let a = if characters < 2 {
        seq!["Consider adding more characters to create richer interactions"@]
    } else if characters > 10 {
        seq!["You have many characters - consider consolidating to avoid confusion"@]
    } else {
        Seq::empty()
    };
    let b = if settings == 0 { seq!["Consider adding setting details to ground your story"@] } else { Seq::empty() };
    let c = if plots < 3 { seq!["Consider adding more plot points for better story structure"@] } else { Seq::empty() };
    let d = if themes == 0 { seq!["Consider identifying central themes to give your work focus"@] } else { Seq::empty() };
    let e = if theses == 0 { seq!["Make sure to clearly state your thesis statement"@] } else { Seq::empty() };
    let f = if evidence < 3 { seq!["Consider adding more evidence to support your argument"@] } else { Seq::empty() };
    a + b + c + d + e + f
}

/// The insights drawn from an analysis's fields.
pub open spec fn spec_insights(fields: Seq<AnalysisField>) -> Seq<Seq<char>> {
    insights_for(
        count_kind(fields, AnalysisFieldType::Character),
        count_kind(fields, AnalysisFieldType::Setting),
        count_kind(fields, AnalysisFieldType::PlotPoint),
        count_kind(fields, AnalysisFieldType::Theme),
        count_kind(fields, AnalysisFieldType::ThesisStatement),
        count_kind(fields, AnalysisFieldType::Evidence),
    )
}

/// How many of the fields are of the given kind.
fn count_fields(fields: &Vec<AnalysisField>, t: AnalysisFieldType) -> (n: usize)
    ensures
        n == count_kind(fields@, t),
{
    let mut n: usize = 0;
    let mut i: usize = 0;
    while i < fields.len()
        invariant
            i <= fields@.len(),
            n == count_kind(fields@.subrange(0, i as int), t),
            n <= i,
        decreases fields@.len() - i,
    {
        proof {
            assert(fields@.subrange(0, i as int + 1).drop_last() =~= fields@.subrange(0, i as int));
        }
        if fields[i].field_type == t {
            n += 1;
        }
        i += 1;
    }
    proof {
        assert(fields@.subrange(0, fields@.len() as int) =~= fields@);
    }
    n
}

/// The advice drawn from an analysis's fields: too few or too many
/// characters, no setting, under three plot points, no theme, no thesis
/// statement, under three pieces of evidence.
pub fn generate_insights(fields: &Vec<AnalysisField>) -> (r: Vec<String>)
    ensures
        r@.map_values(|s: String| s@) == spec_insights(fields@),
{
    let characters = count_fields(fields, AnalysisFieldType::Character);
    let settings = count_fields(fields, AnalysisFieldType::Setting);
    let plots = count_fields(fields, AnalysisFieldType::PlotPoint);
    let themes = count_fields(fields, AnalysisFieldType::Theme);
    let theses = count_fields(fields, AnalysisFieldType::ThesisStatement);
    let evidence = count_fields(fields, AnalysisFieldType::Evidence);
    let mut insights: Vec<String> = Vec::new();
    if characters < 2 {
        insights.push("Consider adding more characters to create richer interactions".to_string());
    } else if characters > 10 {
        insights.push("You have many characters - consider consolidating to avoid confusion".to_string());
    }
    if settings == 0 {
        insights.push("Consider adding setting details to ground your story".to_string());
    }
    if plots < 3 {
        insights.push("Consider adding more plot points for better story structure".to_string());
    }
    if themes == 0 {
        insights.push("Consider identifying central themes to give your work focus".to_string());
    }
    if theses == 0 {
        insights.push("Make sure to clearly state your thesis statement".to_string());
    }
    if evidence < 3 {
        insights.push("Consider adding more evidence to support your argument".to_string());
    }
    assert(insights@.map_values(|s: String| s@) =~= spec_insights(fields@));
    insights
}

/// The lines listing the fields of an analysis.
pub open spec fn fields_text(fields: Seq<AnalysisField>) -> Seq<char>
    decreases fields.len(),
{
    if fields.len() == 0 {
        Seq::empty()
    } else {
        fields_text(fields.drop_last()) + "### "@ + fields.last().field_type.spec_display_name() + " - "@
            + fields.last().content@ + "\n"@
    }
}

/// The bulleted lines of the insights.
pub open spec fn insights_text(insights: Seq<String>) -> Seq<char>
    decreases insights.len(),
{
    if insights.len() == 0 {
        Seq::empty()
    } else {
        insights_text(insights.drop_last()) + "- "@ + insights.last()@ + "\n"@
    }
}

/// The Markdown summary of an analysis with its fields and insights.
pub open spec fn summary_text(awf: AnalysisWithFields) -> Seq<char> {
    "# Analysis Summary: "@ + awf.analysis.title@ + "\n\n"@
        + "**Description:** "@ + awf.analysis.description@ + "\n"@
        + "**Writing Type:** "@ + awf.analysis.writing_type.spec_display_name() + "\n"@
        + "**Created:** "@ + spec_datetime_format(awf.analysis.created_at.secs, awf.analysis.created_at.nanos, "%Y-%m-%d %H:%M:%S"@) + "\n\n"@
        + "## Analysis Fields\n\n"@
        + fields_text(awf.fields@)
        + if awf.insights@.len() == 0 { Seq::empty() } else { "\n## Generated Insights\n\n"@ + insights_text(awf.insights@) }
}

fn push_fields(out: &mut Vec<char>, fields: &Vec<AnalysisField>)
    ensures
        final(out)@ == old(out)@ + fields_text(fields@),
{
    let mut i: usize = 0;
    while i < fields.len()
        invariant
            i <= fields@.len(),
            out@ == old(out)@ + fields_text(fields@.subrange(0, i as int)),
        decreases fields@.len() - i,
    {
        proof {
            assert(fields@.subrange(0, i as int + 1).drop_last() =~= fields@.subrange(0, i as int));
        }
        push_str(out, "### ");
        push_str(out, fields[i].field_type.display_name());
        push_str(out, " - ");
        push_str(out, fields[i].content.as_str());
        push_str(out, "\n");
        i += 1;
        proof {
            let s = fields@.subrange(0, i as int);
            assert(s.last() == fields@[i - 1]);
            assert(out@ =~= old(out)@ + fields_text(s));
        }
    }
    proof {
        assert(fields@.subrange(0, fields@.len() as int) =~= fields@);
    }
}

fn push_insights(out: &mut Vec<char>, insights: &Vec<String>)
    ensures
        final(out)@ == old(out)@ + insights_text(insights@),
{
    let mut i: usize = 0;
    while i < insights.len()
        invariant
            i <= insights@.len(),
            out@ == old(out)@ + insights_text(insights@.subrange(0, i as int)),
        decreases insights@.len() - i,
    {
        proof {
            assert(insights@.subrange(0, i as int + 1).drop_last() =~= insights@.subrange(0, i as int));
        }
        push_str(out, "- ");
        push_str(out, insights[i].as_str());
        push_str(out, "\n");
        i += 1;
        proof {
            let s = insights@.subrange(0, i as int);
            assert(s.last() == insights@[i - 1]);
            assert(out@ =~= old(out)@ + insights_text(s));
        }
    }
    proof {
        assert(insights@.subrange(0, insights@.len() as int) =~= insights@);
    }
}

/// The exported summary of an analysis; an analysis that was not found is
/// reported as such.
pub fn analysis_summary(found: Option<AnalysisWithFields>) -> (r: Result<String, DatabaseError>)
    ensures
        match found {
            Some(awf) => r matches Ok(s) && s@ == summary_text(awf),
            None => r matches Err(e) && e matches DatabaseError::NotFound(m) && m@ == "Analysis not found"@,
        },
{
    let awf = match found {
        Some(a) => a,
        None => return Err(DatabaseError::NotFound("Analysis not found".to_string())),
    };
    let mut out: Vec<char> = Vec::new();
    push_str(&mut out, "# Analysis Summary: ");
    push_str(&mut out, awf.analysis.title.as_str());
    push_str(&mut out, "\n\n");
    push_str(&mut out, "**Description:** ");
    push_str(&mut out, awf.analysis.description.as_str());
    push_str(&mut out, "\n");
    push_str(&mut out, "**Writing Type:** ");
    push_str(&mut out, awf.analysis.writing_type.display_name());
    push_str(&mut out, "\n");
    push_str(&mut out, "**Created:** ");
    proof {
        reveal_strlit("%Y-%m-%d %H:%M:%S");
    }
    let created = format_datetime(awf.analysis.created_at, "%Y-%m-%d %H:%M:%S");
    push_str(&mut out, created.as_str());
    push_str(&mut out, "\n\n");
    push_str(&mut out, "## Analysis Fields\n\n");
    let ghost head = out@;
    push_fields(&mut out, &awf.fields);
    if awf.insights.len() > 0 {
        push_str(&mut out, "\n## Generated Insights\n\n");
        push_insights(&mut out, &awf.insights);
    }
    assert(out@ =~= summary_text(awf));
    Ok(string_from_chars(&out))
}

} // verus!
