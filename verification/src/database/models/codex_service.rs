//! The rules of the codex store: the SQL text and parameters of its queries,
//! and how stored rows become codex entries and statistics.

use vstd::prelude::*;
use crate::text::{chars_of, push_str, push_all, string_from_chars, to_owned_string, push_signed_decimal, signed_decimal_seq, str_eq, ends_with_seq, starts_with_seq};
use crate::timeutil::{DateTimeUtc, uuid_text, spec_uuid_text, rfc3339_text, spec_rfc3339_text};
use crate::strmap::StrMap;
use crate::database::DatabaseError;
use crate::database::models::codex::{
    CodexEntry, CodexEntryType, CodexStatus, CodexQuery, CodexSortField, CodexStatistics,
    entry_type_storage, entry_type_from_storage, status_storage, status_from_storage,
};

verus! {

/// The `SELECT` that lists active codex entries, before any filter.
pub open spec fn list_base_sql() -> Seq<char> {
    "\n        SELECT id, project_id, entry_type, title, content, status,\n               created_at, updated_at, is_active, metadata, sort_order\n        FROM codex_entries\n        WHERE is_active = 1\n        "@
}

/// The `SELECT` that counts active codex entries, before any filter.
pub open spec fn count_base_sql() -> Seq<char> {
    "SELECT COUNT(*) FROM codex_entries WHERE is_active = 1"@
}

/// The `LIKE` pattern for a search term.
pub open spec fn like_pattern(term: Seq<char>) -> Seq<char> {
    "%"@ + term + "%"@
}

/// The filter clauses of a query, in order: project, entry type, status, search.
pub open spec fn filter_sql(q: CodexQuery) -> Seq<char> {
    (if q.project_id is Some { " AND project_id = ?"@ } else { Seq::empty() })
    + (if q.entry_type is Some { " AND entry_type = ?"@ } else { Seq::empty() })
    + (if q.status is Some { " AND status = ?"@ } else { Seq::empty() })
    + (if q.search_term is Some { " AND (title LIKE ? OR content LIKE ?)"@ } else { Seq::empty() })
}

/// The parameters the filter clauses bind, in order.
pub open spec fn filter_params(q: CodexQuery) -> Seq<Seq<char>> {
    (match q.project_id { Some(p) => seq![spec_uuid_text(p)], None => Seq::empty() })
    + (match q.entry_type { Some(t) => seq![entry_type_storage(t)], None => Seq::empty() })
    + (match q.status { Some(s) => seq![status_storage(s)], None => Seq::empty() })
    + (match q.search_term {
        Some(t) => seq![like_pattern(t@), like_pattern(t@)],
        None => Seq::empty(),
    })
}

/// The column a sort field orders by.
pub open spec fn sort_column(f: CodexSortField) -> Seq<char> {
    match f {
        CodexSortField::Title => "title"@,
        CodexSortField::CreatedAt => "created_at"@,
        CodexSortField::UpdatedAt => "updated_at"@,
        CodexSortField::SortOrder => "sort_order"@,
        CodexSortField::Status => "status"@,
        CodexSortField::EntryType => "entry_type"@,
    }
}

/// The ordering clause of a query.
pub open spec fn sort_sql(q: CodexQuery) -> Seq<char> {
    match q.sort_by {
        Some(f) => " ORDER BY "@ + sort_column(f) + (if q.sort_desc { " DESC"@ } else { Seq::empty() }),
        None => Seq::empty(),
    }
}

/// The SQL text of a listing query.
pub open spec fn list_sql(q: CodexQuery) -> Seq<char> {
    list_base_sql() + filter_sql(q) + sort_sql(q)
        + (if q.limit is Some { " LIMIT ?"@ + " OFFSET ?"@ } else { Seq::empty() })
}

/// The parameters of a listing query.
pub open spec fn list_params(q: CodexQuery) -> Seq<Seq<char>> {
    filter_params(q) + match q.limit {
        Some(l) => seq![signed_decimal_seq(l as int), signed_decimal_seq(q.offset as int)],
        None => Seq::empty(),
    }
}

/// A query with a search term selects the entries whose title or content
/// contains the term anywhere: its filter ends with the title-or-content
/// `LIKE` clause, and the two parameters that clause binds (the last of the
/// filter's, followed only by the page's limit and offset in a listing) are
/// the term between two `%` wildcards.
pub proof fn law_search_term_matches_anywhere(q: CodexQuery)
    requires
        q.search_term is Some,
    ensures
        ({
            let pattern = "%"@ + q.search_term->0@ + "%"@;
            let fp = filter_params(q);
            let lp = list_params(q);
            let n = fp.len() as int;
            &&& n >= 2
            &&& fp[n - 2] == pattern && fp[n - 1] == pattern
            &&& lp[n - 2] == pattern && lp[n - 1] == pattern
            &&& lp.len() == n + (if q.limit is Some { 2int } else { 0int })
            &&& ends_with_seq(filter_sql(q), " AND (title LIKE ? OR content LIKE ?)"@)
        }),
        q.project_id matches Some(p) ==> filter_params(q)[0] == spec_uuid_text(p)
            && starts_with_seq(filter_sql(q), " AND project_id = ?"@),
{
    let fp = filter_params(q);
    let lp = list_params(q);
    let n = fp.len() as int;
    assert(lp[n - 2] == fp[n - 2]);
    assert(lp[n - 1] == fp[n - 1]);
    let f = filter_sql(q);
    let c = " AND (title LIKE ? OR content LIKE ?)"@;
    assert(f.subrange(f.len() - c.len(), f.len() as int) =~= c);
    let d = " AND project_id = ?"@;
    if q.project_id is Some {
        assert(f.subrange(0, d.len() as int) =~= d);
    }
}

/// Appends the filter clauses and parameters of a query.
fn push_filters(sql: &mut Vec<char>, params: &mut Vec<String>, q: &CodexQuery)
    ensures
        final(sql)@ == old(sql)@ + filter_sql(*q),
        final(params)@.map_values(|t: String| t@) == old(params)@.map_values(|t: String| t@) + filter_params(*q),
{
    let ghost p0 = params@.map_values(|t: String| t@);
    let ghost s0 = sql@;
    match q.project_id {
        Some(p) => {
            push_str(sql, " AND project_id = ?");
            params.push(uuid_text(p));
        },
        None => {},
    }
    match q.entry_type {
        Some(t) => {
            push_str(sql, " AND entry_type = ?");
            params.push(to_owned_string(t.storage_name()));
        },
        None => {},
    }
    match q.status {
        Some(st) => {
            push_str(sql, " AND status = ?");
            params.push(to_owned_string(st.storage_name()));
        },
        None => {},
    }
    match &q.search_term {
        Some(term) => {
            push_str(sql, " AND (title LIKE ? OR content LIKE ?)");
            let mut pat = chars_of("%");
            push_str(&mut pat, term.as_str());
            push_str(&mut pat, "%");
            let pattern = string_from_chars(&pat);
            params.push(pattern.clone());
            params.push(pattern);
        },
        None => {},
    }
    assert(sql@ =~= s0 + filter_sql(*q));
    assert(params@.map_values(|t: String| t@) =~= p0 + filter_params(*q));
}

/// The SQL text and parameters that list the entries a query selects.
pub fn build_list_query(q: &CodexQuery) -> (r: (String, Vec<String>))
    ensures
        r.0@ == list_sql(*q),
        r.1@.map_values(|t: String| t@) == list_params(*q),
{
    let mut sql = chars_of("\n        SELECT id, project_id, entry_type, title, content, status,\n               created_at, updated_at, is_active, metadata, sort_order\n        FROM codex_entries\n        WHERE is_active = 1\n        ");
    let mut params: Vec<String> = Vec::new();
    assert(params@.map_values(|t: String| t@) =~= Seq::<Seq<char>>::empty());
    push_filters(&mut sql, &mut params, q);
    let ghost after_filters = sql@;
    match q.sort_by {
        Some(f) => {
            push_str(&mut sql, " ORDER BY ");
            match f {
                CodexSortField::Title => push_str(&mut sql, "title"),
                CodexSortField::CreatedAt => push_str(&mut sql, "created_at"),
                CodexSortField::UpdatedAt => push_str(&mut sql, "updated_at"),
                CodexSortField::SortOrder => push_str(&mut sql, "sort_order"),
                CodexSortField::Status => push_str(&mut sql, "status"),
                CodexSortField::EntryType => push_str(&mut sql, "entry_type"),
            }
            if q.sort_desc {
                push_str(&mut sql, " DESC");
            }
        },
        None => {},
    }
    assert(sql@ =~= after_filters + sort_sql(*q));
    let ghost p1 = params@.map_values(|t: String| t@);
    match q.limit {
        Some(l) => {
            push_str(&mut sql, " LIMIT ?");
            let mut a: Vec<char> = Vec::new();
            push_signed_decimal(&mut a, l);
            params.push(string_from_chars(&a));
            push_str(&mut sql, " OFFSET ?");
            let mut b: Vec<char> = Vec::new();
            push_signed_decimal(&mut b, q.offset);
            params.push(string_from_chars(&b));
        },
        None => {},
    }
    assert(sql@ =~= list_sql(*q));
    assert(params@.map_values(|t: String| t@) =~= list_params(*q));
    (string_from_chars(&sql), params)
}

/// The SQL text and parameters that count the entries a query selects
/// (its sorting and pagination do not apply).
pub fn build_count_query(q: &CodexQuery) -> (r: (String, Vec<String>))
    ensures
        r.0@ == count_base_sql() + filter_sql(*q),
        r.1@.map_values(|t: String| t@) == filter_params(*q),
{
    let mut sql = chars_of("SELECT COUNT(*) FROM codex_entries WHERE is_active = 1");
    let mut params: Vec<String> = Vec::new();
    assert(params@.map_values(|t: String| t@) =~= Seq::<Seq<char>>::empty());
    push_filters(&mut sql, &mut params, q);
    assert(params@.map_values(|t: String| t@) =~= filter_params(*q));
    (string_from_chars(&sql), params)
}

/// The query with which entries of a project are searched: active entries of
/// the project whose title or content contains the term, by title ascending.
pub fn search_query(project_id: u128, search_term: &str) -> (q: CodexQuery)
    ensures
        q.project_id == Some(project_id),
        q.search_term matches Some(t) && t@ == search_term@,
        q.sort_by == Some(CodexSortField::Title),
        !q.sort_desc,
        q.entry_type is None && q.status is None && q.is_active is None,
        q.limit is None && q.offset == 0,
{
    let mut q = CodexQuery::new();
    q.project_id = Some(project_id);
    q.search_term = Some(to_owned_string(search_term));
    q.sort_by = Some(CodexSortField::Title);
    q.sort_desc = false;
    q
}

/// The values with which an entry is inserted, in column order: id, project,
/// type, title, content, status, creation and update times, active flag
/// (as given), metadata (or the empty text) and sort order.
pub open spec fn insert_texts(e: CodexEntry) -> Seq<Seq<char>> {
    seq![
        spec_uuid_text(e.id),
        spec_uuid_text(e.project_id),
        entry_type_storage(e.entry_type),
        e.title@,
        e.content@,
        status_storage(e.status),
        spec_rfc3339_text(e.created_at.secs, e.created_at.nanos),
        spec_rfc3339_text(e.updated_at.secs, e.updated_at.nanos),
        match e.metadata { Some(m) => m@, None => Seq::empty() },
    ]
}

/// The text values an entry is stored with (its active flag and sort order are
/// bound as they are).
pub fn entry_insert_texts(e: &CodexEntry) -> (p: Vec<String>)
    ensures
        p@.map_values(|t: String| t@) == insert_texts(*e),
{
    let mut p: Vec<String> = Vec::new();
    p.push(uuid_text(e.id));
    p.push(uuid_text(e.project_id));
    p.push(to_owned_string(e.entry_type.storage_name()));
    p.push(e.title.clone());
    p.push(e.content.clone());
    p.push(to_owned_string(e.status.storage_name()));
    p.push(rfc3339_text(e.created_at));
    p.push(rfc3339_text(e.updated_at));
    p.push(match &e.metadata {
        Some(m) => m.clone(),
        None => String::new(),
    });
    assert(p@.map_values(|t: String| t@) =~= insert_texts(*e));
    p
}

/// The columns of a stored codex entry, as the database returns them.
#[derive(Debug, Clone)]
pub struct CodexRowValues {
    pub id: String,
    pub project_id: String,
    pub entry_type: String,
    pub title: String,
    pub content: String,
    pub status: String,
    pub created_at: String,
    pub updated_at: String,
    pub is_active: bool,
    pub metadata: String,
    pub sort_order: i32,
}

/// A name for what `str::parse::<chrono::DateTime<Utc>>()` gives for a text
/// (as UTC seconds and nanoseconds), or `None` where chrono rejects it.
pub uninterp spec fn spec_parse_utc_datetime(text: Seq<char>) -> Option<(i64, u32)>;

/// A name for the text of the error chrono reports when that parse fails.
pub uninterp spec fn spec_utc_datetime_error(text: Seq<char>) -> Seq<char>;

/// Parses a UTC date-time with `chrono`'s `FromStr` for `DateTime<Utc>`,
/// reporting chrono's error text when it is rejected.
#[verifier::external_body]
pub(crate) fn parse_utc_datetime(text: &str) -> (r: Result<DateTimeUtc, String>)
    ensures
        match r {
            Ok(t) => spec_parse_utc_datetime(text@) == Some((t.secs, t.nanos)),
            Err(e) => spec_parse_utc_datetime(text@) is None && e@ == spec_utc_datetime_error(text@),
        },
{
    match text.parse::<chrono::DateTime<chrono::Utc>>() {
        Ok(dt) => Ok(DateTimeUtc { secs: dt.timestamp(), nanos: dt.timestamp_subsec_nanos() }),
        Err(e) => Err(e.to_string()),
    }
}

/// The first reason, if any, why stored values are not a valid codex entry:
/// the detail of the validation error it raises.
pub open spec fn entry_row_failure(v: CodexRowValues) -> Option<Seq<char>> {
    if crate::timeutil::spec_parse_uuid(v.id@) is None {
        Some("Invalid UUID: "@ + crate::timeutil::spec_uuid_error_text(v.id@))
    } else if crate::timeutil::spec_parse_uuid(v.project_id@) is None {
        Some("Invalid project UUID: "@ + crate::timeutil::spec_uuid_error_text(v.project_id@))
    } else if entry_type_from_storage(v.entry_type@) is None {
        Some("Unknown entry type: "@ + v.entry_type@)
    } else if status_from_storage(v.status@) is None {
        Some("Unknown status: "@ + v.status@)
    } else if spec_parse_utc_datetime(v.created_at@) is None {
        Some("Invalid datetime: "@ + spec_utc_datetime_error(v.created_at@))
    } else if spec_parse_utc_datetime(v.updated_at@) is None {
        Some("Invalid datetime: "@ + spec_utc_datetime_error(v.updated_at@))
    } else {
        None
    }
}

fn validation_error(prefix: &str, detail: &str) -> (e: DatabaseError)
    ensures
        e is ValidationError && e->ValidationError_0@ == prefix@ + detail@,
{
    let mut v = chars_of(prefix);
    push_str(&mut v, detail);
    DatabaseError::ValidationError(string_from_chars(&v))
}

fn parse_entry_type(s: &str) -> (r: Option<CodexEntryType>)
    ensures
        r == entry_type_from_storage(s@),
{
    if str_eq(s, "story_summary") {
        Some(CodexEntryType::StorySummary)
    } else if str_eq(s, "character_sheet") {
        Some(CodexEntryType::CharacterSheet)
    } else if str_eq(s, "object") {
        Some(CodexEntryType::Object)
    } else if str_eq(s, "time") {
        Some(CodexEntryType::Time)
    } else if str_eq(s, "place") {
        Some(CodexEntryType::Place)
    } else {
        None
    }
}

fn parse_status(s: &str) -> (r: Option<CodexStatus>)
    ensures
        r == status_from_storage(s@),
{
    if str_eq(s, "draft") {
        Some(CodexStatus::Draft)
    } else if str_eq(s, "in_review") {
        Some(CodexStatus::InReview)
    } else if str_eq(s, "final") {
        Some(CodexStatus::Final)
    } else if str_eq(s, "archived") {
        Some(CodexStatus::Archived)
    } else {
        None
    }
}

/// Reads a stored codex entry; an empty metadata text means no metadata.
pub fn entry_from_row(v: CodexRowValues) -> (r: Result<CodexEntry, DatabaseError>)
    ensures
        match r {
            Ok(e) => entry_row_failure(v) is None
                && crate::timeutil::spec_parse_uuid(v.id@) == Some(e.id)
                && crate::timeutil::spec_parse_uuid(v.project_id@) == Some(e.project_id)
                && entry_type_from_storage(v.entry_type@) == Some(e.entry_type)
                && status_from_storage(v.status@) == Some(e.status)
                && e.title == v.title && e.content == v.content
                && spec_parse_utc_datetime(v.created_at@) == Some((e.created_at.secs, e.created_at.nanos))
                && spec_parse_utc_datetime(v.updated_at@) == Some((e.updated_at.secs, e.updated_at.nanos))
                && e.is_active == v.is_active
                && (if v.metadata@.len() == 0 { e.metadata is None } else { e.metadata == Some(v.metadata) })
                && e.sort_order == v.sort_order,
            Err(e) => entry_row_failure(v) matches Some(d) && e is ValidationError
                && e->ValidationError_0@ == d,
        },
{
    let id = match crate::timeutil::parse_uuid_text(v.id.as_str()) {
        Ok(u) => u,
        Err(msg) => return Err(validation_error("Invalid UUID: ", msg.as_str())),
    };
    let project_id = match crate::timeutil::parse_uuid_text(v.project_id.as_str()) {
        Ok(u) => u,
        Err(msg) => return Err(validation_error("Invalid project UUID: ", msg.as_str())),
    };
    let entry_type = match parse_entry_type(v.entry_type.as_str()) {
        Some(t) => t,
        None => return Err(validation_error("Unknown entry type: ", v.entry_type.as_str())),
    };
    let status = match parse_status(v.status.as_str()) {
        Some(s) => s,
        None => return Err(validation_error("Unknown status: ", v.status.as_str())),
    };
    let created_at = match parse_utc_datetime(v.created_at.as_str()) {
        Ok(t) => t,
        Err(msg) => return Err(validation_error("Invalid datetime: ", msg.as_str())),
    };
    let updated_at = match parse_utc_datetime(v.updated_at.as_str()) {
        Ok(t) => t,
        Err(msg) => return Err(validation_error("Invalid datetime: ", msg.as_str())),
    };
    let metadata = if v.metadata.as_str().unicode_len() == 0 {
        None
    } else {
        Some(v.metadata)
    };
    Ok(CodexEntry {
        id,
        project_id,
        entry_type,
        title: v.title,
        content: v.content,
        status,
        created_at,
        updated_at,
        is_active: v.is_active,
        metadata,
        sort_order: v.sort_order,
    })
}

/// Collects `(name, count)` rows of a grouped count into a map (a later row
/// for a name replaces an earlier one).
pub fn counts_map(rows: Vec<(String, i64)>) -> (m: StrMap<i64>)
    ensures
        m.wf(),
        m.map() == grouped_counts(rows@),
{
    let mut m: StrMap<i64> = StrMap::new();
    let mut i: usize = 0;
    while i < rows.len()
        invariant
            i <= rows@.len(),
            m.wf(),
            m.map() == grouped_counts(rows@.subrange(0, i as int)),
        decreases rows@.len() - i,
    {
        let k = rows[i].0.clone();
        let c = rows[i].1;
        assert(rows@.subrange(0, i + 1).drop_last() =~= rows@.subrange(0, i as int));
        m.insert(k, c);
        i += 1;
    }
    assert(rows@.subrange(0, rows@.len() as int) =~= rows@);
    m
}

/// The map of grouped counts, later rows winning.
pub open spec fn grouped_counts(rows: Seq<(String, i64)>) -> Map<Seq<char>, i64>
    decreases rows.len(),
{
    if rows.len() == 0 {
        Map::empty()
    } else {
        grouped_counts(rows.drop_last()).insert(rows.last().0@, rows.last().1)
    }
}

/// The statistics of a project's codex from its query results: the number of
/// active entries, counts by type and by status, the word-count estimate
/// (zero when the sum is `NULL`) and the latest update time (when chrono reads it).
pub fn statistics_from(
    total_entries: i64,
    type_rows: Vec<(String, i64)>,
    status_rows: Vec<(String, i64)>,
    word_count: Option<i64>,
    last_updated: Option<String>,
) -> (s: CodexStatistics)
    ensures
        s.total_entries == total_entries,
        s.entries_by_type.wf() && s.entries_by_type.map() == grouped_counts(type_rows@),
        s.entries_by_status.wf() && s.entries_by_status.map() == grouped_counts(status_rows@),
        s.total_word_count == (match word_count { Some(w) => w, None => 0 }),
        s.last_updated == (match last_updated {
            Some(t) => match spec_parse_utc_datetime(t@) {
                Some(p) => Some(DateTimeUtc { secs: p.0, nanos: p.1 }),
                None => None,
            },
            None => None,
        }),
        s.projects_breakdown@.len() == 0,
{
    let last = match &last_updated {
        Some(t) => match parse_utc_datetime(t.as_str()) {
            Ok(d) => Some(d),
            Err(_) => None,
        },
        None => None,
    };
    CodexStatistics {
        total_entries,
        entries_by_type: counts_map(type_rows),
        entries_by_status: counts_map(status_rows),
        total_word_count: match word_count {
            Some(w) => w,
            None => 0,
        },
        last_updated: last,
        projects_breakdown: Vec::new(),
    }
}

} // verus!
