//! The decisions of the backup service: where backups go and what they are
//! called, the records kept of them, how those records are stored and read
//! back, and the statistics over them. Copying files is left to the caller.

use vstd::prelude::*;
use crate::database::DatabaseError;
use crate::database::enhanced_database_sqlx::{DatabaseRow, QueryResult};
use crate::font_manager::{path_join, spec_path_join};
use crate::text::{copy_opt_string, decimal_seq, parse_u64, parse_usize, push_str, spec_parse_u64,
    spec_parse_usize, str_eq, string_from_chars, u64_to_string};
use crate::timeutil::{spec_uuid_text, uuid_text};

verus! {

/// Why a backup was made.
#[derive(Debug, Clone, Copy, PartialEq, Eq, Structural)]
pub enum BackupType {
    Manual,
    Automatic,
    Emergency,
}

impl BackupType {
    pub open spec fn spec_name(self) -> Seq<char> {
        match self {
            BackupType::Manual => "Manual"@,
            BackupType::Automatic => "Automatic"@,
            BackupType::Emergency => "Emergency"@,
        }
    }

    /// The variant's name.
    pub fn name(&self) -> (r: &'static str)
        ensures
            r@ == self.spec_name(),
    {
        match self {
            BackupType::Manual => "Manual",
            BackupType::Automatic => "Automatic",
            BackupType::Emergency => "Emergency",
        }
    }
}

/// The JSON text a backup type is stored as: its name as a JSON string.
pub open spec fn backup_type_json(t: BackupType) -> Seq<char> {
    "\""@ + t.spec_name() + "\""@
}

/// The JSON text of a backup type.
pub fn backup_type_to_json(t: BackupType) -> (r: String)
    ensures
        r@ == backup_type_json(t),
{
    let mut v: Vec<char> = Vec::new();
    push_str(&mut v, "\"");
    push_str(&mut v, t.name());
    push_str(&mut v, "\"");
    string_from_chars(&v)
}

/// A name for the string `serde_json` reads from a JSON text that holds a
/// single string, or `None` where the text is not one.
pub uninterp spec fn spec_json_string_value(text: Seq<char>) -> Option<Seq<char>>;

/// A JSON string literal without escapes: quotes around characters that
/// are neither quotes, backslashes nor control characters.
pub open spec fn is_plain_json_string(text: Seq<char>) -> bool {
    &&& text.len() >= 2
    &&& text[0] == '"'
    &&& text[text.len() - 1] == '"'
    &&& forall|i: int| 1 <= i < text.len() - 1 ==> {
        let c = #[trigger] text[i];
        c != '"' && c != '\\' && (c as u32) >= 0x20
    }
}

/// Reads a text as one JSON string with `serde_json::from_str::<String>`.
/// JSON's grammar and escapes are the crate's and are not restated beyond
/// the plain case: a literal without escapes reads as the characters between
/// its quotes. The result is named by `spec_json_string_value`.
#[verifier::external_body]
fn json_string_value(text: &str) -> (r: Option<String>)
    ensures
        match r {
            Some(s) => spec_json_string_value(text@) == Some(s@),
            None => spec_json_string_value(text@) is None,
        },
        is_plain_json_string(text@) ==> r is Some,
        r matches Some(s) ==> (is_plain_json_string(text@) ==> s@ == text@.subrange(1, text@.len() - 1)),
{
    serde_json::from_str::<String>(text).ok()
}

/// The backup type of a name; any other name is a manual backup.
pub open spec fn type_named(n: Seq<char>) -> BackupType {
    if n == "Automatic"@ {
        BackupType::Automatic
    } else if n == "Emergency"@ {
        BackupType::Emergency
    } else {
        BackupType::Manual
    }
}

/// The backup type a stored JSON text names; anything else reads as a
/// manual backup.
pub open spec fn backup_type_from_text(text: Seq<char>) -> BackupType {
    match spec_json_string_value(text) {
        Some(n) => type_named(n),
        None => BackupType::Manual,
    }
}

/// Reads a stored backup type.
pub fn backup_type_from_json(text: &str) -> (r: BackupType)
    ensures
        r == backup_type_from_text(text@),
        is_plain_json_string(text@) ==> r == type_named(text@.subrange(1, text@.len() - 1)),
{
    match json_string_value(text) {
        Some(n) => if str_eq(n.as_str(), "Automatic") {
            BackupType::Automatic
        } else if str_eq(n.as_str(), "Emergency") {
            BackupType::Emergency
        } else {
            BackupType::Manual
        },
        None => BackupType::Manual,
    }
}

/// The record kept of a backup.
#[derive(Debug, Clone)]
pub struct BackupMetadata {
    pub id: String,
    pub backup_type: BackupType,
    pub file_path: String,
    pub file_size: u64,
    pub checksum: String,
    /// Seconds since the Unix epoch.
    pub created_at: u64,
    pub project_id: Option<String>,
    pub description: Option<String>,
    pub success: bool,
    pub error_message: Option<String>,
}

/// Counts over the backup records.
#[derive(Debug, Clone, Copy, PartialEq, Eq, Structural)]
pub struct BackupStatistics {
    pub total_backups: usize,
    pub total_size: u64,
    pub last_backup: Option<u64>,
    pub successful_backups: usize,
    pub failed_backups: usize,
}

/// A name for the parent directory `std::path::Path::parent` gives for a
/// path, or `None` for a root or an empty path. Path syntax is the target
/// platform's, so the name is fixed for one build.
pub uninterp spec fn spec_path_parent(path: Seq<char>) -> Option<Seq<char>>;

/// The parent directory of a path, with `Path::parent`; the path syntax is
/// std's and is not restated, the result is named by `spec_path_parent`.
#[verifier::external_body]
fn path_parent(path: &str) -> (r: Option<String>)
    ensures
        match r {
            Some(p) => spec_path_parent(path@) == Some(p@),
            None => spec_path_parent(path@) is None,
        },
{
    std::path::Path::new(path).parent().map(|p| p.to_string_lossy().to_string())
}

/// Where backups of a database go: `backups` beside the database file, or
/// under `data` where the file has no parent.
pub open spec fn spec_backup_directory(database_path: Seq<char>) -> Seq<char> {
    let parent = match spec_path_parent(database_path) {
        Some(p) => p,
        None => "data"@,
    };
    spec_path_join(parent, "backups"@)
}

/// The directory that holds the backups of a database.
pub fn backup_directory(database_path: &str) -> (r: String)
    ensures
        r@ == spec_backup_directory(database_path@),
{
    let parent = match path_parent(database_path) {
        Some(p) => p,
        None => "data".to_string(),
    };
    path_join(parent.as_str(), "backups")
}

/// The file name of a backup: the time it was made, an underscore, its
/// identifier and the `.db` extension.
pub open spec fn spec_backup_filename(timestamp: u64, id: u128) -> Seq<char> {
    decimal_seq(timestamp as nat) + "_"@ + spec_uuid_text(id) + ".db"@
}

/// The file name of a backup.
pub fn backup_filename(timestamp: u64, id: u128) -> (r: String)
    ensures
        r@ == spec_backup_filename(timestamp, id),
{
    let mut v: Vec<char> = Vec::new();
    push_str(&mut v, u64_to_string(timestamp).as_str());
    push_str(&mut v, "_");
    push_str(&mut v, uuid_text(id).as_str());
    push_str(&mut v, ".db");
    string_from_chars(&v)
}

fn opt_str_to_string(o: Option<&str>) -> (r: Option<String>)
    ensures
        match o {
            Some(s) => r matches Some(t) && t@ == s@,
            None => r is None,
        },
{
    match o {
        Some(s) => Some(s.to_string()),
        None => None,
    }
}

/// The record of a backup that was copied: its size and checksum as
/// measured.
pub fn succeeded_backup(
    id: u128,
    backup_type: BackupType,
    file_path: String,
    file_size: u64,
    checksum: String,
    timestamp: u64,
    project_id: Option<&str>,
    description: Option<&str>,
) -> (m: BackupMetadata)
    ensures
        m.id@ == spec_uuid_text(id),
        m.backup_type == backup_type,
        m.file_path == file_path,
        m.file_size == file_size,
        m.checksum == checksum,
        m.created_at == timestamp,
        m.project_id.is_some() == project_id.is_some(),
        m.project_id matches Some(p) ==> p@ == project_id->0@,
        m.description.is_some() == description.is_some(),
        m.description matches Some(d) ==> d@ == description->0@,
        m.success,
        m.error_message is None,
{
    BackupMetadata {
        id: uuid_text(id),
        backup_type,
        file_path,
        file_size,
        checksum,
        created_at: timestamp,
        project_id: opt_str_to_string(project_id),
        description: opt_str_to_string(description),
        success: true,
        error_message: None,
    }
}

/// The record of a backup whose copy failed: no size, no checksum, the
/// copy's error message.
pub fn failed_backup(
    id: u128,
    backup_type: BackupType,
    file_path: String,
    timestamp: u64,
    project_id: Option<&str>,
    description: Option<&str>,
    error: String,
) -> (m: BackupMetadata)
    ensures
        m.id@ == spec_uuid_text(id),
        m.backup_type == backup_type,
        m.file_path == file_path,
        m.file_size == 0,
        m.checksum@.len() == 0,
        m.created_at == timestamp,
        m.project_id.is_some() == project_id.is_some(),
        m.project_id matches Some(p) ==> p@ == project_id->0@,
        m.description.is_some() == description.is_some(),
        m.description matches Some(d) ==> d@ == description->0@,
        !m.success,
        m.error_message == Some(error),
{
    BackupMetadata {
        id: uuid_text(id),
        backup_type,
        file_path,
        file_size: 0,
        checksum: String::new(),
        created_at: timestamp,
        project_id: opt_str_to_string(project_id),
        description: opt_str_to_string(description),
        success: false,
        error_message: Some(error),
    }
}

/// The error reported for a failed copy.
pub fn backup_failure_error(error: &str) -> (e: DatabaseError)
    ensures
        e matches DatabaseError::Service(m) && m@ == "Backup creation failed: "@ + error@,
{
    DatabaseError::Service(crate::text::str_concat("Backup creation failed: ", error))
}

/// The text of an optional string, empty where there is none.
pub open spec fn text_or_empty(o: Option<String>) -> Seq<char> {
    match o {
        Some(s) => s@,
        None => Seq::empty(),
    }
}

/// The values stored for a backup record, in column order.
pub open spec fn metadata_texts(m: BackupMetadata) -> Seq<Seq<char>> {
    seq![
        m.id@,
        backup_type_json(m.backup_type),
        m.file_path@,
        decimal_seq(m.file_size as nat),
        m.checksum@,
        decimal_seq(m.created_at as nat),
        text_or_empty(m.project_id),
        text_or_empty(m.description),
        if m.success { "true"@ } else { "false"@ },
        text_or_empty(m.error_message),
    ]
}

fn opt_text(o: &Option<String>) -> (r: String)
    ensures
        r@ == text_or_empty(*o),
{
    match o {
        Some(s) => s.clone(),
        None => String::new(),
    }
}

/// The values to store for a backup record.
pub fn metadata_params(m: &BackupMetadata) -> (p: Vec<String>)
    ensures
        p@.map_values(|s: String| s@) == metadata_texts(*m),
{
    let mut p: Vec<String> = Vec::new();
    p.push(m.id.clone());
    p.push(backup_type_to_json(m.backup_type));
    p.push(m.file_path.clone());
    p.push(u64_to_string(m.file_size));
    p.push(m.checksum.clone());
    p.push(u64_to_string(m.created_at));
    p.push(opt_text(&m.project_id));
    p.push(opt_text(&m.description));
    p.push(if m.success { "true".to_string() } else { "false".to_string() });
    p.push(opt_text(&m.error_message));
    assert(p@.map_values(|s: String| s@) =~= metadata_texts(*m));
    p
}

/// A cell's text, or the given default where the cell is missing.
pub open spec fn cell_or(c: Option<Seq<char>>, d: Seq<char>) -> Seq<char> {
    match c {
        Some(t) => t,
        None => d,
    }
}

/// A cell read as a number, zero where missing or unreadable.
pub open spec fn u64_cell(c: Option<Seq<char>>) -> u64 {
    match c {
        Some(t) => match spec_parse_u64(t) {
            Some(n) => n,
            None => 0,
        },
        None => 0,
    }
}

/// Whether a backup record read from a row describes the row.
pub open spec fn metadata_matches_row(m: BackupMetadata, row: DatabaseRow) -> bool {
    &&& m.id@ == cell_or(row.cell(0), Seq::empty())
    &&& m.backup_type == backup_type_from_text(cell_or(row.cell(1), "\"Manual\""@))
    &&& m.file_path@ == cell_or(row.cell(2), Seq::empty())
    &&& m.file_size == u64_cell(row.cell(3))
    &&& m.checksum@ == cell_or(row.cell(4), Seq::empty())
    &&& m.created_at == u64_cell(row.cell(5))
    &&& m.project_id.is_some() == row.cell(6).is_some()
    &&& (m.project_id matches Some(p) ==> p@ == row.cell(6)->0)
    &&& m.description.is_some() == row.cell(7).is_some()
    &&& (m.description matches Some(d) ==> d@ == row.cell(7)->0)
    &&& m.success == (row.cell(8) matches Some(s) && (s == "true"@ || s == "1"@))
    &&& m.error_message.is_some() == row.cell(9).is_some()
    &&& (m.error_message matches Some(e) ==> e@ == row.cell(9)->0)
}

fn u64_from_cell(c: Option<&str>) -> (r: u64)
    ensures
        r == u64_cell(match c { Some(s) => Some(s@), None => None }),
{
    match c {
        Some(s) => match parse_u64(s) {
            Some(n) => n,
            None => 0,
        },
        None => 0,
    }
}

/// The backup record a stored row holds; missing values take defaults.
pub fn metadata_from_row(row: &DatabaseRow) -> (m: BackupMetadata)
    ensures
        metadata_matches_row(m, *row),
{
    let type_text: &str = match row.get(1) {
        Some(t) => t,
        None => "\"Manual\"",
    };
    let success = match row.get(8) {
        Some(s) => str_eq(s, "true") || str_eq(s, "1"),
        None => false,
    };
    BackupMetadata {
        id: match row.get(0) { Some(s) => s.to_string(), None => String::new() },
        backup_type: backup_type_from_json(type_text),
        file_path: match row.get(2) { Some(s) => s.to_string(), None => String::new() },
        file_size: u64_from_cell(row.get(3)),
        checksum: match row.get(4) { Some(s) => s.to_string(), None => String::new() },
        created_at: u64_from_cell(row.get(5)),
        project_id: opt_str_to_string(row.get(6)),
        description: opt_str_to_string(row.get(7)),
        success,
        error_message: opt_str_to_string(row.get(9)),
    }
}

/// The backup records of a query's rows, in order.
pub fn metadata_from_rows(rows: &QueryResult) -> (r: Vec<BackupMetadata>)
    ensures
        r@.len() == rows.rows@.len(),
        forall|i: int| 0 <= i < r@.len() ==> metadata_matches_row(#[trigger] r@[i], rows.rows@[i]),
{
    let mut out: Vec<BackupMetadata> = Vec::new();
    let mut i: usize = 0;
    while i < rows.rows.len()
        invariant
            i <= rows.rows@.len(),
            out@.len() == i,
            forall|j: int| 0 <= j < i ==> metadata_matches_row(#[trigger] out@[j], rows.rows@[j]),
        decreases rows.rows@.len() - i,
    {
        out.push(metadata_from_row(&rows.rows[i]));
        i += 1;
    }
    out
}

/// The query listing backup records, newest first, of one project or of
/// all, and its parameters; fifty records where no limit is given.
pub fn list_backups_query(project_id: Option<&str>, limit: Option<usize>) -> (r: (&'static str, Vec<String>))
    ensures
        r.1@.map_values(|s: String| s@) == match project_id {
            Some(p) => seq![p@, decimal_seq(match limit { Some(l) => l as nat, None => 50 })],
            None => seq![decimal_seq(match limit { Some(l) => l as nat, None => 50 })],
        },
{
    let limit: usize = match limit { Some(l) => l, None => 50 };
    let mut params: Vec<String> = Vec::new();
    let query = match project_id {
        Some(p) => {
            params.push(p.to_string());
            "SELECT id, backup_type, file_path, file_size, checksum, created_at,
                    project_id, description, success, error_message
             FROM backup_metadata
             WHERE project_id = ?
             ORDER BY created_at DESC
             LIMIT ?"
        },
        None => {
            "SELECT id, backup_type, file_path, file_size, checksum, created_at,
                    project_id, description, success, error_message
             FROM backup_metadata
             ORDER BY created_at DESC
             LIMIT ?"
        },
    };
    params.push(u64_to_string(limit as u64));
    assert(params@.map_values(|s: String| s@) =~= match project_id {
        Some(p) => seq![p@, decimal_seq(limit as nat)],
        None => seq![decimal_seq(limit as nat)],
    });
    (query, params)
}

/// A cell read as a count, zero where missing or unreadable.
pub open spec fn usize_cell(c: Option<Seq<char>>) -> usize {
    match c {
        Some(t) => match spec_parse_usize(t) {
            Some(n) => n,
            None => 0,
        },
        None => 0,
    }
}

/// The statistics the first row of the statistics query holds; all zero
/// without a row.
pub open spec fn statistics_of(rows: Seq<DatabaseRow>) -> BackupStatistics {
    if rows.len() == 0 {
        BackupStatistics { total_backups: 0, total_size: 0, last_backup: None, successful_backups: 0, failed_backups: 0 }
    } else {
        let row = rows[0];
        BackupStatistics {
            total_backups: usize_cell(row.cell(0)),
            total_size: u64_cell(row.cell(1)),
            last_backup: match row.cell(2) {
                Some(t) => spec_parse_u64(t),
                None => None,
            },
            successful_backups: usize_cell(row.cell(3)),
            failed_backups: usize_cell(row.cell(4)),
        }
    }
}

fn usize_from_cell(c: Option<&str>) -> (r: usize)
    ensures
        r == usize_cell(match c { Some(s) => Some(s@), None => None }),
{
    match c {
        Some(s) => match parse_usize(s) {
            Some(n) => n,
            None => 0,
        },
        None => 0,
    }
}

/// The backup statistics from the statistics query's result.
pub fn statistics_from_result(q: &QueryResult) -> (s: BackupStatistics)
    ensures
        s == statistics_of(q.rows@),
{
    match q.first() {
        Some(row) => BackupStatistics {
            total_backups: usize_from_cell(row.get(0)),
            total_size: u64_from_cell(row.get(1)),
            last_backup: match row.get(2) {
                Some(t) => parse_u64(t),
                None => None,
            },
            successful_backups: usize_from_cell(row.get(3)),
            failed_backups: usize_from_cell(row.get(4)),
        },
        None => BackupStatistics {
            total_backups: 0,
            total_size: 0,
            last_backup: None,
            successful_backups: 0,
            failed_backups: 0,
        },
    }
}

/// The file to restore from, as the lookup of a successful backup found
/// it; a missing record is reported as a missing file.
pub fn restore_source(q: &QueryResult) -> (r: Result<String, DatabaseError>)
    ensures
        q.rows@.len() == 0 <==> r is Err,
        r matches Ok(p) ==> p@ == cell_or(q.rows@[0].cell(0), Seq::empty()),
        r matches Err(e) ==> e matches DatabaseError::Service(m) && m@ == "Backup file not found"@,
{
    match q.first() {
        Some(row) => Ok(match row.get(0) { Some(s) => s.to_string(), None => String::new() }),
        None => Err(DatabaseError::Service("Backup file not found".to_string())),
    }
}

} // verus!

verus! {

/// A backup type written with `backup_type_to_json` reads back with
/// `backup_type_from_json` as the same type: its JSON text is a plain string
/// literal holding the type's name.
pub proof fn law_backup_type_round_trip(t: BackupType)
    ensures
        is_plain_json_string(backup_type_json(t)),
        type_named(backup_type_json(t).subrange(1, backup_type_json(t).len() - 1)) == t,
{
    reveal_strlit("\"");
    reveal_strlit("Manual");
    reveal_strlit("Automatic");
    reveal_strlit("Emergency");
    let j = backup_type_json(t);
    assert(j.subrange(1, j.len() - 1) =~= t.spec_name());
    assert("Manual"@[0] == 'M' && "Automatic"@[0] == 'A' && "Emergency"@[0] == 'E');
}

} // verus!
