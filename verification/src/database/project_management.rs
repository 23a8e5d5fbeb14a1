//! The decisions of the project management service: project records read
//! from rows, the settings of a project as stored key by key, and the
//! statistics assembled from the counts the database reports.

use vstd::prelude::*;
use crate::database::DatabaseError;
use crate::database::models::project::Project;
use crate::text::{copy_opt_string, decimal_seq, parse_u32, spec_parse_u32, str_concat, str_eq, u64_to_string};
use crate::timeutil::{DateTimeUtc, parse_rfc3339, parse_uuid_text, spec_parse_rfc3339, spec_parse_uuid,
    spec_uuid_error_text};

verus! {

/// Editor settings of a project.
#[derive(Debug, Clone)]
pub struct ProjectSettings {
    pub auto_save_enabled: bool,
    /// Seconds between automatic saves.
    pub auto_save_interval: u32,
    pub backup_enabled: bool,
    pub search_enabled: bool,
    pub theme: String,
    pub font_size: u32,
}

/// What `str::parse::<bool>` gives: only the exact words `true` and `false`.
pub open spec fn spec_parse_bool(s: Seq<char>) -> Option<bool> {
    if s == "true"@ {
        Some(true)
    } else if s == "false"@ {
        Some(false)
    } else {
        None
    }
}

/// Parses a boolean as `str::parse::<bool>` does.
pub fn parse_bool(s: &str) -> (r: Option<bool>)
    ensures
        r == spec_parse_bool(s@),
{
    if str_eq(s, "true") {
        Some(true)
    } else if str_eq(s, "false") {
        Some(false)
    } else {
        None
    }
}

/// The text of a boolean (`bool::to_string`).
pub open spec fn bool_text(b: bool) -> Seq<char> {
    if b { "true"@ } else { "false"@ }
}

/// The value of the last stored setting with the given key.
pub open spec fn last_setting(rows: Seq<(String, String, String)>, key: Seq<char>) -> Option<Seq<char>>
    decreases rows.len(),
{
    if rows.len() == 0 {
        None
    } else if rows.last().0@ == key {
        Some(rows.last().1@)
    } else {
        last_setting(rows.drop_last(), key)
    }
}

fn find_setting<'a>(rows: &'a Vec<(String, String, String)>, key: &str) -> (r: Option<&'a String>)
    ensures
        match r {
            Some(v) => last_setting(rows@, key@) == Some(v@),
            None => last_setting(rows@, key@) is None,
        },
{
    let mut i: usize = rows.len();
    assert(rows@.subrange(0, i as int) =~= rows@);
    while i > 0
        invariant
            i <= rows@.len(),
            last_setting(rows@, key@) == last_setting(rows@.subrange(0, i as int), key@),
        decreases i,
    {
        let j = i - 1;
        proof {
            assert(rows@.subrange(0, i as int).drop_last() =~= rows@.subrange(0, j as int));
        }
        if str_eq(rows[j].0.as_str(), key) {
            return Some(&rows[j].1);
        }
        i = j;
    }
    None
}

/// A boolean setting read from its stored text, with a default where it is
/// missing or unreadable.
pub open spec fn bool_setting(v: Option<Seq<char>>, default: bool) -> bool {
    match v {
        Some(t) => match spec_parse_bool(t) {
            Some(b) => b,
            None => default,
        },
        None => default,
    }
}

/// A number setting read from its stored text, with a default where it is
/// missing or unreadable.
pub open spec fn u32_setting(v: Option<Seq<char>>, default: u32) -> u32 {
    match v {
        Some(t) => match spec_parse_u32(t) {
            Some(n) => n,
            None => default,
        },
        None => default,
    }
}

/// The settings a project's stored rows (key, value, type) describe; a
/// later row wins over an earlier one with the same key, and a missing or
/// unreadable value takes its default: automatic saves every 300 s, backups
/// and search on, the `default` theme, 14-point type.
pub open spec fn settings_match_rows(s: ProjectSettings, rows: Seq<(String, String, String)>) -> bool {
    &&& s.auto_save_enabled == bool_setting(last_setting(rows, "auto_save_enabled"@), true)
    &&& s.auto_save_interval == u32_setting(last_setting(rows, "auto_save_interval"@), 300)
    &&& s.backup_enabled == bool_setting(last_setting(rows, "backup_enabled"@), true)
    &&& s.search_enabled == bool_setting(last_setting(rows, "search_enabled"@), true)
    &&& s.theme@ == match last_setting(rows, "theme"@) {
        Some(t) => t,
        None => "default"@,
    }
    &&& s.font_size == u32_setting(last_setting(rows, "font_size"@), 14)
}

fn read_bool(rows: &Vec<(String, String, String)>, key: &str, default: bool) -> (r: bool)
    ensures
        r == bool_setting(last_setting(rows@, key@), default),
{
    match find_setting(rows, key) {
        Some(v) => match parse_bool(v.as_str()) {
            Some(b) => b,
            None => default,
        },
        None => default,
    }
}

fn read_u32(rows: &Vec<(String, String, String)>, key: &str, default: u32) -> (r: u32)
    ensures
        r == u32_setting(last_setting(rows@, key@), default),
{
    match find_setting(rows, key) {
        Some(v) => match parse_u32(v.as_str()) {
            Some(n) => n,
            None => default,
        },
        None => default,
    }
}

/// The settings of a project from its stored rows; `None` where it has
/// none.
pub fn settings_from_rows(rows: &Vec<(String, String, String)>) -> (r: Option<ProjectSettings>)
    ensures
        rows@.len() == 0 <==> r is None,
        r matches Some(s) ==> settings_match_rows(s, rows@),
{
    if rows.len() == 0 {
        return None;
    }
    let theme = match find_setting(rows, "theme") {
        Some(t) => t.clone(),
        None => "default".to_string(),
    };
    Some(ProjectSettings {
        auto_save_enabled: read_bool(rows, "auto_save_enabled", true),
        auto_save_interval: read_u32(rows, "auto_save_interval", 300),
        backup_enabled: read_bool(rows, "backup_enabled", true),
        search_enabled: read_bool(rows, "search_enabled", true),
        theme,
        font_size: read_u32(rows, "font_size", 14),
    })
}

/// The key and text stored for each setting, in the order they are written.
pub open spec fn settings_texts(s: ProjectSettings) -> Seq<(Seq<char>, Seq<char>)> {
    seq![
        ("auto_save_enabled"@, bool_text(s.auto_save_enabled)),
        ("auto_save_interval"@, decimal_seq(s.auto_save_interval as nat)),
        ("backup_enabled"@, bool_text(s.backup_enabled)),
        ("search_enabled"@, bool_text(s.search_enabled)),
        ("theme"@, s.theme@),
        ("font_size"@, decimal_seq(s.font_size as nat)),
    ]
}

fn bool_string(b: bool) -> (r: String)
    ensures
        r@ == bool_text(b),
{
    if b { "true".to_string() } else { "false".to_string() }
}

/// The key and value to store for each setting.
pub fn settings_entries(s: &ProjectSettings) -> (r: Vec<(String, String)>)
    ensures
        r@.map_values(|e: (String, String)| (e.0@, e.1@)) == settings_texts(*s),
{
    let mut r: Vec<(String, String)> = Vec::new();
    r.push(("auto_save_enabled".to_string(), bool_string(s.auto_save_enabled)));
    r.push(("auto_save_interval".to_string(), u64_to_string(s.auto_save_interval as u64)));
    r.push(("backup_enabled".to_string(), bool_string(s.backup_enabled)));
    r.push(("search_enabled".to_string(), bool_string(s.search_enabled)));
    r.push(("theme".to_string(), s.theme.clone()));
    r.push(("font_size".to_string(), u64_to_string(s.font_size as u64)));
    assert(r@.map_values(|e: (String, String)| (e.0@, e.1@)) =~= settings_texts(*s));
    r
}

/// A stored time, or `now` where it cannot be read.
pub open spec fn time_or(text: Seq<char>, now: DateTimeUtc) -> DateTimeUtc {
    match spec_parse_rfc3339(text) {
        Some(p) => DateTimeUtc { secs: p.0, nanos: p.1 },
        None => now,
    }
}

/// A row of the projects table: identifier, name, description, creation
/// and update times, archived and active flags, settings.
pub type ProjectRow = (String, String, Option<String>, String, String, bool, bool, Option<String>);

/// The project a row holds; unreadable times become `now`, an unreadable
/// identifier is an error.
pub fn project_from_row(row: ProjectRow, now: DateTimeUtc) -> (r: Result<Project, DatabaseError>)
    ensures
        match spec_parse_uuid(row.0@) {
            Some(id) => r matches Ok(p) && {
                &&& p.id == id
                &&& p.name == row.1
                &&& p.description == row.2
                &&& p.created_at == time_or(row.3@, now)
                &&& p.updated_at == time_or(row.4@, now)
                &&& p.is_archived == row.5
                &&& p.is_active == row.6
                &&& p.settings == row.7
            },
            None => r matches Err(e) && e matches DatabaseError::Service(m)
                && m@ == "Invalid UUID: "@ + spec_uuid_error_text(row.0@),
        },
{
    let (id_text, name, description, created_text, updated_text, is_archived, is_active, settings) = row;
    let created_at = match parse_rfc3339(created_text.as_str()) {
        Some(t) => t,
        None => now,
    };
    let updated_at = match parse_rfc3339(updated_text.as_str()) {
        Some(t) => t,
        None => now,
    };
    let id = match parse_uuid_text(id_text.as_str()) {
        Ok(u) => u,
        Err(e) => return Err(DatabaseError::Service(str_concat("Invalid UUID: ", e.as_str()))),
    };
    Ok(Project { id, name, description, created_at, updated_at, is_archived, is_active, settings })
}

/// The projects of several rows, in order; the first unreadable identifier
/// stops the reading with its error.
pub fn projects_from_rows(rows: Vec<ProjectRow>, now: DateTimeUtc) -> (r: Result<Vec<Project>, DatabaseError>)
    ensures
        (forall|i: int| 0 <= i < rows@.len() ==> #[trigger] spec_parse_uuid(rows@[i].0@) is Some) <==> r is Ok,
        r matches Ok(ps) ==> ps@.len() == rows@.len() && forall|i: int| 0 <= i < rows@.len() ==> {
            &&& (#[trigger] ps@[i]).id == spec_parse_uuid(rows@[i].0@)->0
            &&& ps@[i].name == rows@[i].1
            &&& ps@[i].description == rows@[i].2
            &&& ps@[i].created_at == time_or(rows@[i].3@, now)
            &&& ps@[i].updated_at == time_or(rows@[i].4@, now)
            &&& ps@[i].is_archived == rows@[i].5
            &&& ps@[i].is_active == rows@[i].6
            &&& ps@[i].settings == rows@[i].7
        },
        r matches Err(e) ==> exists|k: int| 0 <= k < rows@.len() && {
            &&& #[trigger] spec_parse_uuid(rows@[k].0@) is None
            &&& (forall|j: int| 0 <= j < k ==> spec_parse_uuid(rows@[j].0@) is Some)
            &&& e matches DatabaseError::Service(m) && m@ == "Invalid UUID: "@ + spec_uuid_error_text(rows@[k].0@)
        },
{
    let mut out: Vec<Project> = Vec::new();
    let mut i: usize = 0;
    while i < rows.len()
        invariant
            i <= rows@.len(),
            out@.len() == i,
            forall|j: int| 0 <= j < i ==> #[trigger] spec_parse_uuid(rows@[j].0@) is Some,
            forall|j: int| 0 <= j < i ==> {
                &&& (#[trigger] out@[j]).id == spec_parse_uuid(rows@[j].0@)->0
                &&& out@[j].name == rows@[j].1
                &&& out@[j].description == rows@[j].2
                &&& out@[j].created_at == time_or(rows@[j].3@, now)
                &&& out@[j].updated_at == time_or(rows@[j].4@, now)
                &&& out@[j].is_archived == rows@[j].5
                &&& out@[j].is_active == rows@[j].6
                &&& out@[j].settings == rows@[j].7
            },
        decreases rows@.len() - i,
    {
        let row: ProjectRow = (
            rows[i].0.clone(),
            rows[i].1.clone(),
            copy_opt_string(&rows[i].2),
            rows[i].3.clone(),
            rows[i].4.clone(),
            rows[i].5,
            rows[i].6,
            copy_opt_string(&rows[i].7),
        );
        assert(row == rows@[i as int]);
        match project_from_row(row, now) {
            Ok(p) => out.push(p),
            Err(e) => {
                assert(spec_parse_uuid(rows@[i as int].0@) is None);
                return Err(e);
            },
        }
        i += 1;
    }
    Ok(out)
}

/// Counts about a project as the project service reports them.
#[derive(Debug, Clone, Copy, PartialEq, Eq, Structural)]
pub struct ProjectStatistics {
    pub document_count: usize,
    pub total_words: usize,
    pub storage_size: usize,
    pub last_document_update: Option<DateTimeUtc>,
    pub active_embeddings: usize,
    pub total_backups: usize,
}

impl Default for ProjectStatistics {
    fn default() -> (s: Self)
        ensures
            s.document_count == 0,
            s.total_words == 0,
            s.storage_size == 0,
            s.last_document_update is None,
            s.active_embeddings == 0,
            s.total_backups == 0,
    {
        ProjectStatistics {
            document_count: 0,
            total_words: 0,
            storage_size: 0,
            last_document_update: None,
            active_embeddings: 0,
            total_backups: 0,
        }
    }
}

/// The statistics from the counts the database reports: a missing sum is
/// zero, a latest update that cannot be read is none. Counts are taken as
/// they are converted by `as usize`.
pub fn project_statistics(
    document_count: i64,
    total_words: Option<i64>,
    storage_size: Option<i64>,
    last_update: Option<String>,
    active_embeddings: i64,
    total_backups: i64,
) -> (s: ProjectStatistics)
    ensures
        s.document_count == document_count as usize,
        s.total_words == (match total_words { Some(w) => w, None => 0 }) as usize,
        s.storage_size == (match storage_size { Some(w) => w, None => 0 }) as usize,
        s.last_document_update == match last_update {
            Some(t) => match spec_parse_rfc3339(t@) {
                Some(p) => Some(DateTimeUtc { secs: p.0, nanos: p.1 }),
                None => None,
            },
            None => None,
        },
        s.active_embeddings == active_embeddings as usize,
        s.total_backups == total_backups as usize,
{
    let words: i64 = match total_words { Some(w) => w, None => 0 };
    let size: i64 = match storage_size { Some(w) => w, None => 0 };
    let last = match &last_update {
        Some(t) => parse_rfc3339(t.as_str()),
        None => None,
    };
    ProjectStatistics {
        document_count: document_count as usize,
        total_words: words as usize,
        storage_size: size as usize,
        last_document_update: last,
        active_embeddings: active_embeddings as usize,
        total_backups: total_backups as usize,
    }
}

} // verus!

verus! {

/// Settings written with `settings_entries` and read back with
/// `settings_from_rows` are the settings written: each stored row holds a
/// setting's key and text (whatever its type column says), in the order
/// they are written.
pub proof fn law_settings_round_trip(s: ProjectSettings, rows: Seq<(String, String, String)>, r: ProjectSettings)
    requires
        rows.len() == 6,
        forall|i: int| 0 <= i < 6 ==> (#[trigger] rows[i]).0@ == settings_texts(s)[i].0 && rows[i].1@ == settings_texts(s)[i].1,
        settings_match_rows(r, rows),
    ensures
        r.auto_save_enabled == s.auto_save_enabled,
        r.auto_save_interval == s.auto_save_interval,
        r.backup_enabled == s.backup_enabled,
        r.search_enabled == s.search_enabled,
        r.theme@ == s.theme@,
        r.font_size == s.font_size,
{
    reveal_strlit("auto_save_enabled");
    reveal_strlit("auto_save_interval");
    reveal_strlit("backup_enabled");
    reveal_strlit("search_enabled");
    reveal_strlit("theme");
    reveal_strlit("font_size");
    reveal_strlit("true");
    reveal_strlit("false");
    let t = settings_texts(s);
    assert(rows[0].0@ == t[0].0 && rows[1].0@ == t[1].0 && rows[2].0@ == t[2].0);
    assert(rows[3].0@ == t[3].0 && rows[4].0@ == t[4].0 && rows[5].0@ == t[5].0);
    let r5 = rows;
    let r4 = r5.drop_last();
    let r3 = r4.drop_last();
    let r2 = r3.drop_last();
    let r1 = r2.drop_last();
    let r0 = r1.drop_last();
    assert(r0.drop_last().len() == 0);
    assert(r5.last() == rows[5] && r4.last() == rows[4] && r3.last() == rows[3]);
    assert(r2.last() == rows[2] && r1.last() == rows[1] && r0.last() == rows[0]);
    assert("font_size"@.len() == 9 && "theme"@.len() == 5);
    assert("backup_enabled"@[0] != "search_enabled"@[0]);
    assert(last_setting(r5, "auto_save_enabled"@) == last_setting(r4, "auto_save_enabled"@));
    assert(last_setting(r4, "auto_save_enabled"@) == last_setting(r3, "auto_save_enabled"@));
    assert(last_setting(r3, "auto_save_enabled"@) == last_setting(r2, "auto_save_enabled"@));
    assert(last_setting(r2, "auto_save_enabled"@) == last_setting(r1, "auto_save_enabled"@));
    assert(last_setting(r1, "auto_save_enabled"@) == last_setting(r0, "auto_save_enabled"@));
    assert(last_setting(r0, "auto_save_enabled"@) == Some(r0.last().1@));
    assert(last_setting(r5, "auto_save_interval"@) == last_setting(r4, "auto_save_interval"@));
    assert(last_setting(r4, "auto_save_interval"@) == last_setting(r3, "auto_save_interval"@));
    assert(last_setting(r3, "auto_save_interval"@) == last_setting(r2, "auto_save_interval"@));
    assert(last_setting(r2, "auto_save_interval"@) == last_setting(r1, "auto_save_interval"@));
    assert(last_setting(r1, "auto_save_interval"@) == Some(r1.last().1@));
    assert(last_setting(r5, "backup_enabled"@) == last_setting(r4, "backup_enabled"@));
    assert(last_setting(r4, "backup_enabled"@) == last_setting(r3, "backup_enabled"@));
    assert(last_setting(r3, "backup_enabled"@) == last_setting(r2, "backup_enabled"@));
    assert(last_setting(r2, "backup_enabled"@) == Some(r2.last().1@));
    assert(last_setting(r5, "search_enabled"@) == last_setting(r4, "search_enabled"@));
    assert(last_setting(r4, "search_enabled"@) == last_setting(r3, "search_enabled"@));
    assert(last_setting(r3, "search_enabled"@) == Some(r3.last().1@));
    assert(last_setting(r5, "theme"@) == last_setting(r4, "theme"@));
    assert(last_setting(r4, "theme"@) == Some(r4.last().1@));
    assert(last_setting(r5, "font_size"@) == Some(r5.last().1@));
    crate::text::lemma_u32_round_trip(s.auto_save_interval);
    crate::text::lemma_u32_round_trip(s.font_size);
    assert("true"@.len() == 4 && "false"@.len() == 5);
    assert(spec_parse_bool(bool_text(s.auto_save_enabled)) == Some(s.auto_save_enabled));
    assert(spec_parse_bool(bool_text(s.backup_enabled)) == Some(s.backup_enabled));
    assert(spec_parse_bool(bool_text(s.search_enabled)) == Some(s.search_enabled));
}

} // verus!
