//! The decisions of importing a folder of files into a project: which files
//! are read, where each goes, and the counts kept of the work.

use vstd::prelude::*;
use crate::text::{spec_to_lowercase, str_eq, to_lowercase};

verus! {

/// Counts kept while importing.
#[derive(Debug, Clone, Copy, PartialEq, Eq, Structural)]
pub struct ImportStats {
    pub files_processed: usize,
    pub items_created: usize,
    pub errors: usize,
}

impl Default for ImportStats {
    fn default() -> (s: Self)
        ensures
            s.files_processed == 0,
            s.items_created == 0,
            s.errors == 0,
    {
        ImportStats { files_processed: 0, items_created: 0, errors: 0 }
    }
}

/// The extensions of text files that are imported.
pub open spec fn is_text_extension(lower: Seq<char>) -> bool {
    lower == "txt"@ || lower == "md"@ || lower == "markdown"@ || lower == "rst"@
}

/// Whether a file with the given extension is imported (the extension is
/// compared lower-cased).
pub fn is_importable_extension(extension: &str) -> (r: bool)
    ensures
        r == is_text_extension(spec_to_lowercase(extension@)),
{
    let lower = to_lowercase(extension);
    let l = lower.as_str();
    str_eq(l, "txt") || str_eq(l, "md") || str_eq(l, "markdown") || str_eq(l, "rst")
}

/// Where an imported file is placed in the project's hierarchy.
#[derive(Debug, Clone, Copy, PartialEq, Eq, Structural)]
pub enum ImportPlacement {
    /// A chapter under the import's root.
    Chapter,
    /// A manuscript at the top level.
    Manuscript,
    /// An unassigned item under the import's root.
    Unassigned,
}

/// Where a file of the given classification goes: chapters stay chapters,
/// manuscripts go to the top level, everything else (scenes too) waits
/// unassigned under the import's root.
pub open spec fn spec_placement(classification: Seq<char>) -> ImportPlacement {
    if classification == "Chapter"@ {
        ImportPlacement::Chapter
    } else if classification == "Manuscript"@ {
        ImportPlacement::Manuscript
    } else {
        ImportPlacement::Unassigned
    }
}

/// Where a file of the given classification goes.
pub fn placement_for(classification: &str) -> (r: ImportPlacement)
    ensures
        r == spec_placement(classification@),
{
    if str_eq(classification, "Chapter") {
        ImportPlacement::Chapter
    } else if str_eq(classification, "Manuscript") {
        ImportPlacement::Manuscript
    } else {
        ImportPlacement::Unassigned
    }
}

impl ImportPlacement {
    /// Whether the item hangs under the import's root.
    pub fn under_root(&self) -> (r: bool)
        ensures
            r == (*self != ImportPlacement::Manuscript),
    {
        !matches!(self, ImportPlacement::Manuscript)
    }
}

/// What became of one file.
#[derive(Debug, Clone, Copy, PartialEq, Eq, Structural)]
pub enum FileOutcome {
    /// The file was read and its item created.
    Created,
    /// The file was read but its item could not be created.
    CreateFailed,
    /// The file could not be read.
    ReadFailed,
}

impl ImportStats {
    /// Counts one imported file.
    pub fn record(&mut self, outcome: FileOutcome)
        requires
            old(self).files_processed < usize::MAX,
            old(self).items_created < usize::MAX,
            old(self).errors < usize::MAX,
        ensures
            final(self).files_processed == old(self).files_processed + 1,
            final(self).items_created == old(self).items_created + if outcome == FileOutcome::Created { 1int } else { 0 },
            final(self).errors == old(self).errors + if outcome == FileOutcome::Created { 0int } else { 1 },
    {
        self.files_processed = self.files_processed + 1;
        match outcome {
            FileOutcome::Created => self.items_created = self.items_created + 1,
            _ => self.errors = self.errors + 1,
        }
    }
}

/// A file is imported when it has an extension that names a text file.
pub open spec fn is_imported(extension: Option<String>) -> bool {
    extension matches Some(e) && is_text_extension(spec_to_lowercase(e@))
}

/// The counts that importing the files gives: each file with an imported
/// extension is processed, and counts as created or as an error by what
/// became of it; the other files are passed over.
pub open spec fn import_counts(files: Seq<(Option<String>, FileOutcome)>) -> (nat, nat, nat)
    decreases files.len(),
{
    if files.len() == 0 {
        (0, 0, 0)
    } else {
        let c = import_counts(files.drop_last());
        let f = files.last();
        if !is_imported(f.0) {
            c
        } else if f.1 == FileOutcome::Created {
            (c.0 + 1, c.1 + 1, c.2)
        } else {
            (c.0 + 1, c.1, c.2 + 1)
        }
    }
}

proof fn lemma_import_counts_bound(files: Seq<(Option<String>, FileOutcome)>)
    ensures
        import_counts(files).0 <= files.len(),
        import_counts(files).1 <= import_counts(files).0,
        import_counts(files).2 <= import_counts(files).0,
    decreases files.len(),
{
    if files.len() > 0 {
        lemma_import_counts_bound(files.drop_last());
    }
}

/// The counts of importing a folder's files, given each file's extension
/// (none where it has none) and what became of it when it was read and its
/// item created: files whose extension is not a text file's are passed over,
/// the others are counted with `ImportStats::record`.
pub fn import_stats(files: &Vec<(Option<String>, FileOutcome)>) -> (s: ImportStats)
    ensures
        s.files_processed == import_counts(files@).0,
        s.items_created == import_counts(files@).1,
        s.errors == import_counts(files@).2,
{
    let mut stats = ImportStats::default();
    let mut i: usize = 0;
    assert(files@.take(0) =~= Seq::<(Option<String>, FileOutcome)>::empty());
    while i < files.len()
        invariant
            i <= files@.len(),
            stats.files_processed == import_counts(files@.take(i as int)).0,
            stats.items_created == import_counts(files@.take(i as int)).1,
            stats.errors == import_counts(files@.take(i as int)).2,
        decreases files@.len() - i,
    {
        proof {
            assert(files@.take(i + 1).drop_last() =~= files@.take(i as int));
            assert(files@.take(i + 1).last() == files@[i as int]);
            lemma_import_counts_bound(files@.take(i as int));
        }
        let imported = match &files[i].0 {
            Some(ext) => is_importable_extension(ext.as_str()),
            None => false,
        };
        if imported {
            stats.record(files[i].1);
        }
        i += 1;
    }
    assert(files@.take(i as int) =~= files@);
    stats
}

} // verus!
