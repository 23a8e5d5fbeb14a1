//! Full-text search over a project's documents: the query text handed to the
//! database, the results read back from its rows, their ordering, the result
//! cache and the search statistics. The database query itself is made by the
//! caller, which hands the rows to `SearchService::complete_search`.

use vstd::prelude::*;
use crate::text::{
    chars_of, push_str, push_all, string_from_chars, trim, trim_seq, replace_all, replace_seq,
    is_blank, all_whitespace, lemma_trim_empty_iff_blank, text_lt, lex_lt, lemma_lex_irreflexive,
    lemma_lex_transitive, lemma_lex_total, to_owned_string, decimal_seq, push_decimal,
    spec_is_whitespace, is_whitespace,
};
use crate::timeutil::{
    parse_uuid_text, spec_parse_uuid, spec_uuid_error_text, uuid_text, spec_uuid_text, DateTimeUtc,
};
use crate::strmap::StrMap;
use crate::text::{to_lowercase, spec_to_lowercase};
use std::collections::HashMap;
use crate::sorting::{
    is_stable_sort, stably_sorted_by, strict_weak_order, lemma_stable_insert, lemma_stable_empty,
};
use crate::database::DatabaseError;

verus! {

/// Field by which search results are ordered.
#[derive(Debug, Clone, Copy, PartialEq, Eq, Structural)]
pub enum SortField {
    Relevance,
    Title,
    CreatedAt,
    UpdatedAt,
    WordCount,
}

/// Direction of the ordering.
#[derive(Debug, Clone, Copy, PartialEq, Eq, Structural)]
pub enum SortOrder {
    Asc,
    Desc,
}

/// A document found by a search.
#[derive(Debug, Clone)]
pub struct SearchResult {
    pub document_id: u128,
    pub title: String,
    pub snippet: String,
    /// One-based position in the final ordering.
    pub rank_position: usize,
    pub project_id: u128,
    pub created_at: String,
    pub updated_at: String,
    pub document_type: String,
    pub word_count: usize,
    pub metadata: Option<String>,
}

/// One row of the document query: the stored identifiers as text, the title,
/// the first part of the content, the time stamps, type, word count and metadata.
#[derive(Debug, Clone)]
pub struct SearchRow {
    pub id: String,
    pub title: String,
    pub snippet: String,
    pub project_id: String,
    pub created_at: String,
    pub updated_at: String,
    pub document_type: String,
    pub word_count: i32,
    pub metadata: Option<String>,
}

/// The text handed to the database for a user's query: trimmed, the boolean
/// words `AND ` and `OR ` removed and `NOT ` turned into a leading minus.
pub open spec fn fts_query_text(query: Seq<char>) -> Seq<char> {
    replace_seq(
        replace_seq(
            replace_seq(replace_seq(trim_seq(query), "AND "@, ""@), "OR "@, ""@),
            "NOT "@,
            "-"@,
        ),
        "\""@,
        "\""@,
    )
}

/// Builds the database query text. A query that is empty or only white space
/// is refused with the service error `Empty query`.
pub fn build_fts_query(query: &str) -> (r: Result<String, DatabaseError>)
    ensures
        match r {
            Ok(s) => !all_whitespace(query@) && s@ == fts_query_text(query@),
            Err(e) => all_whitespace(query@) && e is Service && e->Service_0@ == "Empty query"@,
        },
{
    let q = chars_of(query);
    if is_blank(&q) {
        return Err(DatabaseError::Service("Empty query".to_string()));
    }
    let t = trim(&q);
    let and_word = chars_of("AND ");
    let or_word = chars_of("OR ");
    let not_word = chars_of("NOT ");
    let quote = chars_of("\"");
    let nothing: Vec<char> = Vec::new();
    let minus = chars_of("-");
    proof {
        reveal_strlit("AND ");
        reveal_strlit("OR ");
        reveal_strlit("NOT ");
        reveal_strlit("\"");
        reveal_strlit("");
    }
    assert(nothing@ =~= ""@);
    let a = replace_all(&t, &and_word, &nothing);
    let b = replace_all(&a, &or_word, &nothing);
    let c = replace_all(&b, &not_word, &minus);
    let d = replace_all(&c, &quote, &quote);
    Ok(string_from_chars(&d))
}

/// Why a row cannot be read as a search result: an identifier that is not a UUID.
pub open spec fn search_row_error(row: SearchRow) -> Option<Seq<char>> {
    if spec_parse_uuid(row.id@) is None {
        Some("Invalid UUID: "@ + spec_uuid_error_text(row.id@))
    } else if spec_parse_uuid(row.project_id@) is None {
        Some("Invalid UUID: "@ + spec_uuid_error_text(row.project_id@))
    } else {
        None
    }
}

/// The search result that a readable row gives, at rank one.
pub open spec fn search_result_of_row(row: SearchRow) -> SearchResult {
    SearchResult {
        document_id: spec_parse_uuid(row.id@)->0,
        title: row.title,
        snippet: row.snippet,
        rank_position: 1,
        project_id: spec_parse_uuid(row.project_id@)->0,
        created_at: row.created_at,
        updated_at: row.updated_at,
        document_type: row.document_type,
        word_count: row.word_count as usize,
        metadata: row.metadata,
    }
}

/// Reads one row as a search result.
pub fn result_from_row(row: SearchRow) -> (r: Result<SearchResult, DatabaseError>)
    ensures
        match r {
            Ok(res) => search_row_error(row) is None && res == search_result_of_row(row),
            Err(e) => search_row_error(row) == Some(e->Service_0@) && e is Service,
        },
{
    let document_id = match parse_uuid_text(row.id.as_str()) {
        Ok(u) => u,
        Err(msg) => {
            let mut v = chars_of("Invalid UUID: ");
            push_str(&mut v, msg.as_str());
            return Err(DatabaseError::Service(string_from_chars(&v)));
        },
    };
    let project_id = match parse_uuid_text(row.project_id.as_str()) {
        Ok(u) => u,
        Err(msg) => {
            let mut v = chars_of("Invalid UUID: ");
            push_str(&mut v, msg.as_str());
            return Err(DatabaseError::Service(string_from_chars(&v)));
        },
    };
    Ok(SearchResult {
        document_id,
        title: row.title,
        snippet: row.snippet,
        rank_position: 1,
        project_id,
        created_at: row.created_at,
        updated_at: row.updated_at,
        document_type: row.document_type,
        word_count: row.word_count as usize,
        metadata: row.metadata,
    })
}

/// Reads the rows in order; the first row that cannot be read decides the error.
pub fn results_from_rows(rows: Vec<SearchRow>) -> (r: Result<Vec<SearchResult>, DatabaseError>)
    ensures
        match r {
            Ok(v) => (forall|i: int| 0 <= i < rows@.len() ==> #[trigger] search_row_error(rows@[i]) is None)
                && v@ == rows@.map_values(|row: SearchRow| search_result_of_row(row)),
            Err(e) => e is Service && exists|i: int| 0 <= i < rows@.len()
                && #[trigger] search_row_error(rows@[i]) == Some(e->Service_0@)
                && forall|j: int| 0 <= j < i ==> #[trigger] search_row_error(rows@[j]) is None,
        },
{
    let ghost all = rows@;
    let n = rows.len();
    let mut rest = rows;
    let mut out: Vec<SearchResult> = Vec::new();
    let mut k: usize = 0;
    while rest.len() > 0
        invariant
            k <= all.len(),
            all == rows@,
            all.len() == n,
            rest@ == all.subrange(k as int, all.len() as int),
            out@ == all.subrange(0, k as int).map_values(|row: SearchRow| search_result_of_row(row)),
            forall|j: int| 0 <= j < k ==> #[trigger] search_row_error(all[j]) is None,
        decreases rest@.len(),
    {
        let row = rest.remove(0);
        assert(row == all[k as int]);
        match result_from_row(row) {
            Ok(res) => {
                out.push(res);
                assert(out@ =~= all.subrange(0, k + 1).map_values(|row: SearchRow| search_result_of_row(row)));
            },
            Err(e) => {
                return Err(e);
            },
        }
        k += 1;
        assert(rest@ =~= all.subrange(k as int, all.len() as int));
    }
    assert(all.subrange(0, k as int) =~= all);
    Ok(out)
}

/// The key of `a` is below that of `b` for a sort field (texts by `str`'s
/// order); by relevance no result is below another.
pub open spec fn key_below(field: SortField, a: SearchResult, b: SearchResult) -> bool {
    match field {
        SortField::Relevance => false,
        SortField::Title => lex_lt(a.title@, b.title@),
        SortField::CreatedAt => lex_lt(a.created_at@, b.created_at@),
        SortField::UpdatedAt => lex_lt(a.updated_at@, b.updated_at@),
        SortField::WordCount => a.word_count < b.word_count,
    }
}

/// `a` is placed before `b` when sorting by the field in the given direction.
pub open spec fn result_before(field: SortField, order: SortOrder) -> spec_fn(SearchResult, SearchResult) -> bool {
    |a: SearchResult, b: SearchResult|
        match order {
            SortOrder::Asc => key_below(field, a, b),
            SortOrder::Desc => key_below(field, b, a),
        }
}

/// Placing results by a field is a strict weak order.
pub proof fn lemma_result_order(field: SortField, order: SortOrder)
    ensures
        strict_weak_order(result_before(field, order)),
{
    let before = result_before(field, order);
    assert forall|a: SearchResult| !#[trigger] before(a, a) by {
        lemma_lex_irreflexive(a.title@);
        lemma_lex_irreflexive(a.created_at@);
        lemma_lex_irreflexive(a.updated_at@);
    }
    assert forall|a: SearchResult, b: SearchResult, c: SearchResult|
        #![trigger before(a, b), before(b, c)]
        before(a, b) && before(b, c) implies before(a, c) by {
        match order {
            SortOrder::Asc => {
                if field == SortField::Title { lemma_lex_transitive(a.title@, b.title@, c.title@); }
                if field == SortField::CreatedAt { lemma_lex_transitive(a.created_at@, b.created_at@, c.created_at@); }
                if field == SortField::UpdatedAt { lemma_lex_transitive(a.updated_at@, b.updated_at@, c.updated_at@); }
            },
            SortOrder::Desc => {
                if field == SortField::Title { lemma_lex_transitive(c.title@, b.title@, a.title@); }
                if field == SortField::CreatedAt { lemma_lex_transitive(c.created_at@, b.created_at@, a.created_at@); }
                if field == SortField::UpdatedAt { lemma_lex_transitive(c.updated_at@, b.updated_at@, a.updated_at@); }
            },
        }
    }
    assert forall|a: SearchResult, b: SearchResult, c: SearchResult|
        #![trigger before(a, b), before(c, b)]
        before(a, b) && !before(c, b) implies before(a, c) by {
        match order {
            SortOrder::Asc => {
                if field == SortField::Title {
                    lemma_lex_total(b.title@, c.title@);
                    if lex_lt(b.title@, c.title@) { lemma_lex_transitive(a.title@, b.title@, c.title@); }
                }
                if field == SortField::CreatedAt {
                    lemma_lex_total(b.created_at@, c.created_at@);
                    if lex_lt(b.created_at@, c.created_at@) { lemma_lex_transitive(a.created_at@, b.created_at@, c.created_at@); }
                }
                if field == SortField::UpdatedAt {
                    lemma_lex_total(b.updated_at@, c.updated_at@);
                    if lex_lt(b.updated_at@, c.updated_at@) { lemma_lex_transitive(a.updated_at@, b.updated_at@, c.updated_at@); }
                }
            },
            SortOrder::Desc => {
                if field == SortField::Title {
                    lemma_lex_total(b.title@, c.title@);
                    if lex_lt(c.title@, b.title@) { lemma_lex_transitive(c.title@, b.title@, a.title@); }
                }
                if field == SortField::CreatedAt {
                    lemma_lex_total(b.created_at@, c.created_at@);
                    if lex_lt(c.created_at@, b.created_at@) { lemma_lex_transitive(c.created_at@, b.created_at@, a.created_at@); }
                }
                if field == SortField::UpdatedAt {
                    lemma_lex_total(b.updated_at@, c.updated_at@);
                    if lex_lt(c.updated_at@, b.updated_at@) { lemma_lex_transitive(c.updated_at@, b.updated_at@, a.updated_at@); }
                }
            },
        }
    }
}

/// Whether `a` is placed before `b` when sorting by the field in the given direction.
pub fn result_precedes(a: &SearchResult, b: &SearchResult, field: SortField, order: SortOrder) -> (r: bool)
    ensures
        r == (result_before(field, order))(*a, *b),
{
    let (x, y) = match order {
        SortOrder::Asc => (a, b),
        SortOrder::Desc => (b, a),
    };
    match field {
        SortField::Relevance => false,
        SortField::Title => text_lt(x.title.as_str(), y.title.as_str()),
        SortField::CreatedAt => text_lt(x.created_at.as_str(), y.created_at.as_str()),
        SortField::UpdatedAt => text_lt(x.updated_at.as_str(), y.updated_at.as_str()),
        SortField::WordCount => x.word_count < y.word_count,
    }
}

/// Orders results by the field in the given direction, keeping the incoming
/// order among results with equal keys (`slice::sort_by` is stable); by
/// relevance the order is left as it is.
pub fn apply_sorting(results: Vec<SearchResult>, field: SortField, order: SortOrder) -> (r: Vec<SearchResult>)
    ensures
        is_stable_sort(r@, results@, result_before(field, order)),
        field == SortField::Relevance ==> r@ == results@,
{
    if field == SortField::Relevance {
        proof {
            let p = Seq::new(results@.len(), |i: int| i);
            assert(stably_sorted_by(results@, results@, p, result_before(field, order)));
        }
        return results;
    }
    let ghost before = result_before(field, order);
    let ghost all = results@;
    let n = results.len();
    proof {
        lemma_result_order(field, order);
        lemma_stable_empty(before);
        assert(all.subrange(0, 0) =~= Seq::<SearchResult>::empty());
    }
    let mut rest = results;
    let mut out: Vec<SearchResult> = Vec::new();
    let ghost mut p: Seq<int> = Seq::empty();
    let mut k: usize = 0;
    while rest.len() > 0
        invariant
            k <= all.len(),
            all == results@,
            all.len() == n,
            before == result_before(field, order),
            strict_weak_order(before),
            rest@ == all.subrange(k as int, all.len() as int),
            stably_sorted_by(out@, all.subrange(0, k as int), p, before),
        decreases rest@.len(),
    {
        let x = rest.remove(0);
        assert(x == all[k as int]);
        let mut pos: usize = 0;
        while pos < out.len() && !result_precedes(&x, &out[pos], field, order)
            invariant
                pos <= out@.len(),
                before == result_before(field, order),
                forall|i: int| 0 <= i < pos ==> !before(x, #[trigger] out@[i]),
            decreases out@.len() - pos,
        {
            pos += 1;
        }
        proof {
            lemma_stable_insert(out@, all.subrange(0, k as int), p, before, x, pos as int);
            assert(all.subrange(0, k as int).push(x) =~= all.subrange(0, k + 1));
            p = p.insert(pos as int, k as int);
        }
        out.insert(pos, x);
        k += 1;
        assert(rest@ =~= all.subrange(k as int, all.len() as int));
    }
    assert(all.subrange(0, k as int) =~= all);
    out
}

/// What sorting results gives, read on the fields themselves: for each sort
/// field, its values along the sorted results are non-decreasing for an
/// ascending sort and non-increasing for a descending one (texts in `str`
/// order).
pub proof fn law_sorted_by_field(out: Seq<SearchResult>, inp: Seq<SearchResult>, field: SortField, order: SortOrder)
    requires
        is_stable_sort(out, inp, result_before(field, order)),
    ensures
        forall|i: int, j: int| 0 <= i < j < out.len() ==> {
            &&& (field == SortField::Title && order == SortOrder::Asc) ==> !lex_lt(out[j].title@, out[i].title@)
            &&& (field == SortField::Title && order == SortOrder::Desc) ==> !lex_lt(out[i].title@, out[j].title@)
            &&& (field == SortField::CreatedAt && order == SortOrder::Asc)
                ==> !lex_lt(out[j].created_at@, out[i].created_at@)
            &&& (field == SortField::CreatedAt && order == SortOrder::Desc)
                ==> !lex_lt(out[i].created_at@, out[j].created_at@)
            &&& (field == SortField::UpdatedAt && order == SortOrder::Asc)
                ==> !lex_lt(out[j].updated_at@, out[i].updated_at@)
            &&& (field == SortField::UpdatedAt && order == SortOrder::Desc)
                ==> !lex_lt(out[i].updated_at@, out[j].updated_at@)
            &&& (field == SortField::WordCount && order == SortOrder::Asc) ==> out[i].word_count <= out[j].word_count
            &&& (field == SortField::WordCount && order == SortOrder::Desc) ==> out[j].word_count <= out[i].word_count
        },
{
    let before = result_before(field, order);
    let p = choose|p: Seq<int>| stably_sorted_by(out, inp, p, before);
    assert forall|i: int, j: int| 0 <= i < j < out.len() implies !before(#[trigger] out[j], #[trigger] out[i]) by {}
    assert forall|i: int, j: int| 0 <= i < j < out.len() implies {
            &&& (field == SortField::Title && order == SortOrder::Asc) ==> !lex_lt(out[j].title@, out[i].title@)
            &&& (field == SortField::Title && order == SortOrder::Desc) ==> !lex_lt(out[i].title@, out[j].title@)
            &&& (field == SortField::CreatedAt && order == SortOrder::Asc)
                ==> !lex_lt(out[j].created_at@, out[i].created_at@)
            &&& (field == SortField::CreatedAt && order == SortOrder::Desc)
                ==> !lex_lt(out[i].created_at@, out[j].created_at@)
            &&& (field == SortField::UpdatedAt && order == SortOrder::Asc)
                ==> !lex_lt(out[j].updated_at@, out[i].updated_at@)
            &&& (field == SortField::UpdatedAt && order == SortOrder::Desc)
                ==> !lex_lt(out[i].updated_at@, out[j].updated_at@)
            &&& (field == SortField::WordCount && order == SortOrder::Asc) ==> out[i].word_count <= out[j].word_count
            &&& (field == SortField::WordCount && order == SortOrder::Desc) ==> out[j].word_count <= out[i].word_count
        } by {
        assert(!before(out[j], out[i]));
    }
}

/// Numbers the results one, two, ... in their order.
pub fn assign_rank_positions(results: &mut Vec<SearchResult>)
    ensures
        final(results)@.len() == old(results)@.len(),
        forall|i: int| 0 <= i < final(results)@.len() ==> #[trigger] final(results)@[i]
            == (SearchResult { rank_position: (i + 1) as usize, ..old(results)@[i] }),
        forall|i: int| 0 <= i < final(results)@.len() ==> #[trigger] final(results)@[i].rank_position == i + 1,
{
    let ghost orig = results@;
    let mut i: usize = 0;
    while i < results.len()
        invariant
            i <= results@.len(),
            results@.len() == orig.len(),
            forall|j: int| 0 <= j < i ==> #[trigger] results@[j]
                == (SearchResult { rank_position: (j + 1) as usize, ..orig[j] }),
            forall|j: int| 0 <= j < i ==> #[trigger] results@[j].rank_position == j + 1,
            forall|j: int| i <= j < results@.len() ==> #[trigger] results@[j] == orig[j],
        decreases results@.len() - i,
    {
        let mut r = results.remove(i);
        r.rank_position = i + 1;
        results.insert(i, r);
        i += 1;
    }
}

/// A date interval for filtering.
#[derive(Debug, Clone, Copy)]
pub struct DateRange {
    pub start_date: DateTimeUtc,
    pub end_date: DateTimeUtc,
}

/// Options of one search.
#[derive(Debug, Clone)]
pub struct SearchOptions {
    pub limit: usize,
    pub offset: usize,
    pub sort_by: SortField,
    pub sort_order: SortOrder,
    pub project_filter: Option<u128>,
    pub document_type_filter: Option<String>,
    pub date_range: Option<DateRange>,
    pub use_bm25: bool,
    pub highlight_matches: bool,
    pub include_metadata: bool,
}

impl Default for SearchOptions {
    /// Ten results from the start, by relevance, best first, ranked, with no
    /// filters, highlighting or metadata.
    fn default() -> (o: Self)
        ensures
            o.limit == 10,
            o.offset == 0,
            o.sort_by == SortField::Relevance,
            o.sort_order == SortOrder::Desc,
            o.project_filter is None,
            o.document_type_filter is None,
            o.date_range is None,
            o.use_bm25,
            !o.highlight_matches,
            !o.include_metadata,
    {
        SearchOptions {
            limit: 10,
            offset: 0,
            sort_by: SortField::Relevance,
            sort_order: SortOrder::Desc,
            project_filter: None,
            document_type_filter: None,
            date_range: None,
            use_bm25: true,
            highlight_matches: false,
            include_metadata: false,
        }
    }
}

/// Configuration of the search service. The time for which cached results
/// are meant to stay valid is given in seconds.
#[derive(Debug, Clone, Copy)]
pub struct SearchConfig {
    pub max_results: usize,
    pub cache_ttl_secs: u64,
    pub cache_max_size: usize,
    pub enable_caching: bool,
    pub enable_analytics: bool,
}

impl Default for SearchConfig {
    /// At most a hundred results, five minutes of caching for up to a
    /// thousand queries, caching and statistics on.
    fn default() -> (c: Self)
        ensures
            c.max_results == 100,
            c.cache_ttl_secs == 300,
            c.cache_max_size == 1000,
            c.enable_caching,
            c.enable_analytics,
    {
        SearchConfig {
            max_results: 100,
            cache_ttl_secs: 300,
            cache_max_size: 1000,
            enable_caching: true,
            enable_analytics: true,
        }
    }
}

/// The `Debug` name of a sort field.
pub open spec fn sort_field_name(f: SortField) -> Seq<char> {
    match f {
        SortField::Relevance => "Relevance"@,
        SortField::Title => "Title"@,
        SortField::CreatedAt => "CreatedAt"@,
        SortField::UpdatedAt => "UpdatedAt"@,
        SortField::WordCount => "WordCount"@,
    }
}

/// The `Debug` name of a sort direction.
pub open spec fn sort_order_name(o: SortOrder) -> Seq<char> {
    match o {
        SortOrder::Asc => "Asc"@,
        SortOrder::Desc => "Desc"@,
    }
}

/// `true` or `false`, as `bool` prints.
pub open spec fn bool_text(b: bool) -> Seq<char> {
    if b { "true"@ } else { "false"@ }
}

/// The cache key of a query under given options: the query, limit, offset,
/// sort field and direction, project filter, type filter and ranking switch,
/// joined by `|` (an absent filter is empty).
pub open spec fn cache_key_text(query: Seq<char>, o: SearchOptions) -> Seq<char> {
    query + "|"@ + decimal_seq(o.limit as nat) + "|"@ + decimal_seq(o.offset as nat) + "|"@
        + sort_field_name(o.sort_by) + "|"@ + sort_order_name(o.sort_order) + "|"@
        + (match o.project_filter {
        Some(id) => spec_uuid_text(id),
        None => Seq::empty(),
    }) + "|"@ + (match o.document_type_filter {
        Some(t) => t@,
        None => Seq::empty(),
    }) + "|"@ + bool_text(o.use_bm25)
}

/// The cache key of a query, or `None` where caching is off.
pub fn generate_cache_key(enable_caching: bool, query: &str, options: &SearchOptions) -> (r: Option<String>)
    ensures
        match r {
            Some(k) => enable_caching && k@ == cache_key_text(query@, *options),
            None => !enable_caching,
        },
{
    if !enable_caching {
        return None;
    }
    let mut v = chars_of(query);
    push_str(&mut v, "|");
    push_decimal(&mut v, options.limit as u64);
    push_str(&mut v, "|");
    push_decimal(&mut v, options.offset as u64);
    push_str(&mut v, "|");
    match options.sort_by {
        SortField::Relevance => push_str(&mut v, "Relevance"),
        SortField::Title => push_str(&mut v, "Title"),
        SortField::CreatedAt => push_str(&mut v, "CreatedAt"),
        SortField::UpdatedAt => push_str(&mut v, "UpdatedAt"),
        SortField::WordCount => push_str(&mut v, "WordCount"),
    }
    push_str(&mut v, "|");
    match options.sort_order {
        SortOrder::Asc => push_str(&mut v, "Asc"),
        SortOrder::Desc => push_str(&mut v, "Desc"),
    }
    push_str(&mut v, "|");
    match options.project_filter {
        Some(id) => {
            let t = uuid_text(id);
            push_str(&mut v, t.as_str());
        },
        None => {},
    }
    push_str(&mut v, "|");
    match &options.document_type_filter {
        Some(t) => push_str(&mut v, t.as_str()),
        None => {},
    }
    push_str(&mut v, "|");
    if options.use_bm25 {
        push_str(&mut v, "true");
    } else {
        push_str(&mut v, "false");
    }
    assert(v@ =~= cache_key_text(query@, *options));
    Some(string_from_chars(&v))
}

/// The results that belong to the filtered project, in order (all of them
/// where there is no project filter).
pub open spec fn in_project(v: Seq<SearchResult>, filter: Option<u128>) -> Seq<SearchResult>
    decreases v.len(),
{
    if v.len() == 0 {
        Seq::empty()
    } else {
        let rest = in_project(v.drop_last(), filter);
        if filter is Some && v.last().project_id != filter->0 {
            rest
        } else {
            rest.push(v.last())
        }
    }
}

proof fn lemma_in_project(v: Seq<SearchResult>, filter: Option<u128>)
    requires
        forall|i: int| 0 <= i < v.len() ==> #[trigger] v[i].rank_position == 1,
    ensures
        forall|i: int| 0 <= i < in_project(v, filter).len() ==> {
            &&& (#[trigger] in_project(v, filter)[i]).rank_position == 1
            &&& filter is Some ==> in_project(v, filter)[i].project_id == filter->0
        },
    decreases v.len(),
{
    if v.len() > 0 {
        let d = v.drop_last();
        assert forall|i: int| 0 <= i < d.len() implies #[trigger] d[i].rank_position == 1 by {
            assert(d[i] == v[i]);
        }
        lemma_in_project(d, filter);
    }
}

/// The results of the filtered project, in order.
pub fn keep_project(results: Vec<SearchResult>, filter: Option<u128>) -> (r: Vec<SearchResult>)
    ensures
        r@ == in_project(results@, filter),
{
    let mut kept: Vec<SearchResult> = Vec::new();
    let mut i: usize = 0;
    assert(results@.take(0) =~= Seq::<SearchResult>::empty());
    while i < results.len()
        invariant
            i <= results@.len(),
            kept@ == in_project(results@.take(i as int), filter),
        decreases results@.len() - i,
    {
        proof {
            assert(results@.take(i + 1).drop_last() =~= results@.take(i as int));
            assert(results@.take(i + 1).last() == results@[i as int]);
        }
        let keep = match filter {
            Some(p) => results[i].project_id == p,
            None => true,
        };
        if keep {
            kept.push(copy_result(&results[i]));
        }
        i += 1;
    }
    assert(results@.take(i as int) =~= results@);
    kept
}

/// A copy of a search result.
pub fn copy_result(r: &SearchResult) -> (c: SearchResult)
    ensures
        c == *r,
{
    SearchResult {
        document_id: r.document_id,
        title: r.title.clone(),
        snippet: r.snippet.clone(),
        rank_position: r.rank_position,
        project_id: r.project_id,
        created_at: r.created_at.clone(),
        updated_at: r.updated_at.clone(),
        document_type: r.document_type.clone(),
        word_count: r.word_count,
        metadata: match &r.metadata {
            Some(m) => Some(m.clone()),
            None => None,
        },
    }
}

/// A copy of a list of search results.
pub fn copy_results(v: &Vec<SearchResult>) -> (c: Vec<SearchResult>)
    ensures
        c@ == v@,
{
    let mut c: Vec<SearchResult> = Vec::new();
    let mut i: usize = 0;
    while i < v.len()
        invariant
            i <= v@.len(),
            c@ == v@.subrange(0, i as int),
        decreases v@.len() - i,
    {
        c.push(copy_result(&v[i]));
        i += 1;
        assert(c@ =~= v@.subrange(0, i as int));
    }
    assert(v@.subrange(0, v@.len() as int) =~= v@);
    c
}

/// Results of earlier searches by cache key, holding at most `max_size`
/// queries (at least one); storing a new query in a full cache drops the
/// query stored first.
#[derive(Debug, Clone)]
pub struct SearchCache {
    pub cache: StrMap<Vec<SearchResult>>,
    pub max_size: usize,
}

impl SearchCache {
    /// Well formed: each key stored once.
    pub open spec fn wf(&self) -> bool {
        self.cache.wf()
    }

    /// The stored results by key.
    pub open spec fn stored(&self) -> Map<Seq<char>, Seq<SearchResult>> {
        self.cache.map().map_values(|v: Vec<SearchResult>| v@)
    }

    /// The stored results by key after storing `results` for `key`.
    pub open spec fn stored_after(&self, key: Seq<char>, results: Seq<SearchResult>) -> Map<Seq<char>, Seq<SearchResult>> {
        (if self.cache.entries@.len() >= self.max_size && self.cache.entries@.len() > 0 {
            self.stored().remove(self.cache.keys()[0])
        } else {
            self.stored()
        }).insert(key, results)
    }

    /// An empty cache.
    pub fn new(max_size: usize) -> (c: Self)
        ensures
            c.wf(),
            c.max_size == max_size,
            c.cache.entries@.len() == 0,
    {
        SearchCache { cache: StrMap::new(), max_size }
    }

    /// The results stored for a key.
    pub fn get(&self, key: &str) -> (r: Option<&Vec<SearchResult>>)
        requires
            self.wf(),
        ensures
            match r {
                Some(v) => self.cache.map().contains_key(key@) && *v == self.cache.map()[key@],
                None => !self.cache.map().contains_key(key@),
            },
    {
        self.cache.get(key)
    }

    /// Stores results for a key, first dropping the query stored first when
    /// the cache already holds `max_size` queries.
    pub fn insert(&mut self, key: String, results: Vec<SearchResult>)
        requires
            old(self).wf(),
        ensures
            final(self).wf(),
            final(self).max_size == old(self).max_size,
            final(self).stored() == old(self).stored_after(key@, results@),
    {
        let ghost k = key@;
        let ghost rv = results@;
        if self.cache.len() >= self.max_size && self.cache.len() > 0 {
            self.cache.remove_first();
        }
        self.cache.insert(key, results);
        assert(self.stored() =~= old(self).stored_after(k, rv));
    }

    /// Drops every stored query.
    pub fn clear(&mut self)
        ensures
            final(self).wf(),
            final(self).max_size == old(self).max_size,
            final(self).cache.entries@.len() == 0,
    {
        self.cache = StrMap::new();
    }
}

/// The words of a text as `str::split_whitespace` gives them: the maximal
/// runs of characters that are not white space, in order.
pub open spec fn words_of(s: Seq<char>) -> Seq<Seq<char>>
    decreases s.len(),
{
    if s.len() == 0 {
        Seq::empty()
    } else {
        let p = s.drop_last();
        let c = s.last();
        let w = words_of(p);
        if spec_is_whitespace(c) {
            w
        } else if p.len() == 0 || spec_is_whitespace(p.last()) {
            w.push(seq![c])
        } else {
            w.drop_last().push(w.last().push(c))
        }
    }
}

/// Splits a text into its words.
pub fn split_words(s: &str) -> (r: Vec<String>)
    ensures
        r@.map_values(|t: String| t@) == words_of(s@),
{
    let cs = chars_of(s);
    let mut done: Vec<String> = Vec::new();
    let mut cur: Vec<char> = Vec::new();
    let mut i: usize = 0;
    while i < cs.len()
        invariant
            i <= cs@.len(),
            cs@ == s@,
            cur@.len() == 0 ==> words_of(cs@.subrange(0, i as int)) == done@.map_values(|t: String| t@),
            cur@.len() == 0 ==> (i == 0 || spec_is_whitespace(cs@[i - 1])),
            cur@.len() > 0 ==> words_of(cs@.subrange(0, i as int)) == done@.map_values(|t: String| t@).push(cur@),
            cur@.len() > 0 ==> (i > 0 && !spec_is_whitespace(cs@[i - 1])),
        decreases cs@.len() - i,
    {
        let c = cs[i];
        let ghost p = cs@.subrange(0, i as int);
        let ghost q = cs@.subrange(0, i + 1);
        assert(q.drop_last() =~= p);
        assert(q.last() == c);
        let ghost before = done@.map_values(|t: String| t@);
        if is_whitespace(c) {
            if cur.len() > 0 {
                let w = string_from_chars(&cur);
                done.push(w);
                assert(done@.map_values(|t: String| t@) =~= before.push(cur@));
                cur = Vec::new();
            }
        } else {
            if cur.len() == 0 {
                proof {
                    if i > 0 {
                        assert(p.last() == cs@[i - 1]);
                    }
                }
                cur.push(c);
                assert(cur@ =~= seq![c]);
            } else {
                assert(p.last() == cs@[i - 1]);
                let ghost prev = cur@;
                cur.push(c);
                assert(words_of(p).drop_last() =~= before);
                assert(words_of(p).last() == prev);
            }
        }
        i += 1;
    }
    assert(cs@.subrange(0, cs@.len() as int) =~= cs@);
    if cur.len() > 0 {
        let ghost before = done@.map_values(|t: String| t@);
        let w = string_from_chars(&cur);
        done.push(w);
        assert(done@.map_values(|t: String| t@) =~= before.push(cur@));
    }
    done
}

/// The terms of a query that the statistics count: its words longer than two
/// bytes in UTF-8, lower-cased.
pub open spec fn counted_terms(words: Seq<Seq<char>>) -> Seq<Seq<char>>
    decreases words.len(),
{
    if words.len() == 0 {
        Seq::empty()
    } else {
        let r = counted_terms(words.drop_last());
        let w = words.last();
        if vstd::utf8::encode_utf8(w).len() > 2 {
            r.push(spec_to_lowercase(w))
        } else {
            r
        }
    }
}

/// Counts after adding one for each term, in order.
pub open spec fn tally(m: Map<Seq<char>, u32>, terms: Seq<Seq<char>>) -> Map<Seq<char>, u32>
    decreases terms.len(),
{
    if terms.len() == 0 {
        m
    } else {
        let m2 = tally(m, terms.drop_last());
        let t = terms.last();
        m2.insert(t, if m2.contains_key(t) { (m2[t] + 1) as u32 } else { 1 })
    }
}

/// The counted keys in order after adding the terms: a term not yet counted
/// is appended.
pub open spec fn tally_keys(ks: Seq<Seq<char>>, terms: Seq<Seq<char>>) -> Seq<Seq<char>>
    decreases terms.len(),
{
    if terms.len() == 0 {
        ks
    } else {
        let k2 = tally_keys(ks, terms.drop_last());
        if k2.contains(terms.last()) {
            k2
        } else {
            k2.push(terms.last())
        }
    }
}

/// No count passes `u32::MAX` while adding the terms.
pub open spec fn tally_fits(m: Map<Seq<char>, u32>, terms: Seq<Seq<char>>) -> bool
    decreases terms.len(),
{
    if terms.len() == 0 {
        true
    } else {
        let m2 = tally(m, terms.drop_last());
        tally_fits(m, terms.drop_last()) && (m2.contains_key(terms.last()) ==> m2[terms.last()] < u32::MAX)
    }
}

proof fn lemma_tally_fits_prefix(m: Map<Seq<char>, u32>, terms: Seq<Seq<char>>, k: int)
    requires
        tally_fits(m, terms),
        0 <= k <= terms.len(),
    ensures
        tally_fits(m, terms.take(k)),
    decreases terms.len(),
{
    if k == terms.len() {
        assert(terms.take(k) =~= terms);
    } else {
        assert(terms.drop_last().take(k) =~= terms.take(k));
        lemma_tally_fits_prefix(m, terms.drop_last(), k);
    }
}

proof fn lemma_counted_prefix(words: Seq<Seq<char>>, i: int)
    requires
        0 <= i <= words.len(),
    ensures
        counted_terms(words.take(i)).len() <= counted_terms(words).len(),
        counted_terms(words.take(i)) == counted_terms(words).take(counted_terms(words.take(i)).len() as int),
    decreases words.len(),
{
    if i == words.len() {
        assert(words.take(i) =~= words);
        assert(counted_terms(words).take(counted_terms(words).len() as int) =~= counted_terms(words));
    } else {
        assert(words.drop_last().take(i) =~= words.take(i));
        lemma_counted_prefix(words.drop_last(), i);
        let a = counted_terms(words.take(i));
        let b = counted_terms(words.drop_last());
        assert(b.take(a.len() as int) =~= counted_terms(words).take(a.len() as int));
    }
}

/// What the statistics keep of the searches made.
#[derive(Debug)]
pub struct SearchStatistics {
    pub total_queries: u64,
    /// Queries answered from the cache (a count that stops at `u64::MAX`).
    pub cache_hits: u64,
    /// How often each counted term was searched for, by term.
    pub popular_terms: StrMap<u32>,
    /// How often each result was opened, by document identifier.
    pub result_click_counts: HashMap<u128, u32>,
    pub index_size_bytes: usize,
    pub last_index_optimization: Option<String>,
}

impl SearchStatistics {
    /// Nothing counted yet.
    pub fn new() -> (s: Self)
        ensures
            s.total_queries == 0,
            s.cache_hits == 0,
            s.popular_terms.wf(),
            s.popular_terms.entries@.len() == 0,
            s.result_click_counts@ == Map::<u128, u32>::empty(),
            s.index_size_bytes == 0,
            s.last_index_optimization is None,
    {
        SearchStatistics {
            total_queries: 0,
            cache_hits: 0,
            popular_terms: StrMap::new(),
            result_click_counts: HashMap::new(),
            index_size_bytes: 0,
            last_index_optimization: None,
        }
    }

    /// Counts one query and each of its counted terms.
    pub fn record_query(&mut self, query: &str)
        requires
            old(self).popular_terms.wf(),
            old(self).total_queries < u64::MAX,
            tally_fits(old(self).popular_terms.map(), counted_terms(words_of(query@))),
        ensures
            final(self).popular_terms.wf(),
            final(self).total_queries == old(self).total_queries + 1,
            final(self).popular_terms.map() == tally(old(self).popular_terms.map(), counted_terms(words_of(query@))),
            final(self).popular_terms.keys() == tally_keys(old(self).popular_terms.keys(), counted_terms(words_of(query@))),
            final(self).cache_hits == old(self).cache_hits,
            final(self).result_click_counts@ == old(self).result_click_counts@,
            final(self).index_size_bytes == old(self).index_size_bytes,
            final(self).last_index_optimization == old(self).last_index_optimization,
    {
        self.total_queries = self.total_queries + 1;
        let words = split_words(query);
        let ghost wv = words@.map_values(|t: String| t@);
        let ghost m0 = self.popular_terms.map();
        let ghost k0 = self.popular_terms.keys();
        let ghost all = counted_terms(wv);
        let mut i: usize = 0;
        assert(wv.take(0) =~= Seq::<Seq<char>>::empty());
        assert forall|k: Seq<char>| #[trigger] self.popular_terms.keys().contains(k)
            <==> self.popular_terms.map().contains_key(k) by {
            crate::strmap::lemma_entries_map_domain(self.popular_terms.entries@, k);
        }
        while i < words.len()
            invariant
                i <= words@.len(),
                wv == words@.map_values(|t: String| t@),
                wv == words_of(query@),
                all == counted_terms(wv),
                tally_fits(m0, all),
                self.popular_terms.wf(),
                self.popular_terms.map() == tally(m0, counted_terms(wv.take(i as int))),
                self.popular_terms.keys() == tally_keys(k0, counted_terms(wv.take(i as int))),
                forall|k: Seq<char>| #[trigger] self.popular_terms.keys().contains(k) <==> self.popular_terms.map().contains_key(k),
                self.total_queries == old(self).total_queries + 1,
                self.cache_hits == old(self).cache_hits,
                self.result_click_counts@ == old(self).result_click_counts@,
                self.index_size_bytes == old(self).index_size_bytes,
                self.last_index_optimization == old(self).last_index_optimization,
            decreases words@.len() - i,
        {
            let w = words[i].as_str();
            let ghost prev = counted_terms(wv.take(i as int));
            assert(wv.take(i + 1).drop_last() =~= wv.take(i as int));
            assert(wv.take(i + 1).last() == w@);
            if w.as_bytes().len() > 2 {
                let lw = to_lowercase(w);
                let ghost terms = counted_terms(wv.take(i + 1));
                assert(terms == prev.push(lw@));
                assert(terms.drop_last() =~= prev);
                proof {
                    lemma_counted_prefix(wv, i + 1);
                    lemma_tally_fits_prefix(m0, all, terms.len() as int);
                }
                let c: u32 = match self.popular_terms.get(lw.as_str()) {
                    Some(v) => *v + 1,
                    None => 1,
                };
                let ghost before_keys = self.popular_terms.keys();
                proof {
                    crate::strmap::lemma_entries_map_domain(self.popular_terms.entries@, lw@);
                }
                self.popular_terms.insert(lw, c);
                proof {
                    assert forall|k: Seq<char>| #[trigger] self.popular_terms.keys().contains(k)
                        <==> self.popular_terms.map().contains_key(k) by {
                        crate::strmap::lemma_entries_map_domain(self.popular_terms.entries@, k);
                    }
                }
            } else {
                assert(counted_terms(wv.take(i + 1)) == prev);
            }
            i += 1;
        }
        assert(wv.take(words@.len() as int) =~= wv);
    }

    /// Counts one opening of a result.
    pub fn track_click(&mut self, document_id: u128)
        requires
            old(self).result_click_counts@.contains_key(document_id) ==> old(self).result_click_counts@[document_id] < u32::MAX,
        ensures
            final(self).result_click_counts@ == old(self).result_click_counts@.insert(document_id,
                if old(self).result_click_counts@.contains_key(document_id) {
                    (old(self).result_click_counts@[document_id] + 1) as u32
                } else {
                    1
                }),
            final(self).total_queries == old(self).total_queries,
            final(self).cache_hits == old(self).cache_hits,
            final(self).popular_terms == old(self).popular_terms,
            final(self).index_size_bytes == old(self).index_size_bytes,
            final(self).last_index_optimization == old(self).last_index_optimization,
    {
        broadcast use vstd::std_specs::hash::group_hash_axioms;
        let c: u32 = match self.result_click_counts.get(&document_id) {
            Some(v) => *v + 1,
            None => 1,
        };
        self.result_click_counts.insert(document_id, c);
    }
}

/// The results in order with their ranks reset to one.
pub open spec fn unranked(v: Seq<SearchResult>) -> Seq<SearchResult> {
    v.map_values(|r: SearchResult| SearchResult { rank_position: 1, ..r })
}

/// A popular term is placed before another with a lower count.
pub open spec fn term_before() -> spec_fn((Seq<char>, u32), (Seq<char>, u32)) -> bool {
    |a: (Seq<char>, u32), b: (Seq<char>, u32)| a.1 > b.1
}

/// The search state of the application: configuration, result cache and
/// statistics. The caller runs the database query between `cached_results`
/// and `complete_search`.
#[derive(Debug)]
pub struct SearchService {
    pub config: SearchConfig,
    pub cache: SearchCache,
    pub statistics: SearchStatistics,
}

impl SearchService {
    /// Cache and term counts are well formed.
    pub open spec fn wf(&self) -> bool {
        self.cache.wf() && self.statistics.popular_terms.wf()
    }

    /// A service with the default configuration.
    pub fn new() -> (s: Self)
        ensures
            s.wf(),
            s.config.max_results == 100,
            s.config.cache_ttl_secs == 300,
            s.config.cache_max_size == 1000,
            s.config.enable_caching,
            s.config.enable_analytics,
            s.cache.max_size == 1000,
            s.cache.cache.entries@.len() == 0,
            s.statistics.total_queries == 0,
            s.statistics.popular_terms.entries@.len() == 0,
    {
        Self::with_config(SearchConfig::default())
    }

    /// A service with the given configuration, an empty cache of its size and
    /// no statistics.
    pub fn with_config(config: SearchConfig) -> (s: Self)
        ensures
            s.wf(),
            s.config == config,
            s.cache.max_size == config.cache_max_size,
            s.cache.cache.entries@.len() == 0,
            s.statistics.total_queries == 0,
            s.statistics.cache_hits == 0,
            s.statistics.popular_terms.entries@.len() == 0,
            s.statistics.result_click_counts@ == Map::<u128, u32>::empty(),
    {
        SearchService {
            config,
            cache: SearchCache::new(config.cache_max_size),
            statistics: SearchStatistics::new(),
        }
    }

    /// The cached results of the same query with the same options, where
    /// caching is on and they are cached; a hit is counted.
    pub fn cached_results(&mut self, query: &str, options: &SearchOptions) -> (r: Option<Vec<SearchResult>>)
        requires
            old(self).wf(),
        ensures
            final(self).wf(),
            final(self).config == old(self).config,
            final(self).cache == old(self).cache,
            match r {
                Some(v) => old(self).config.enable_caching
                    && old(self).cache.stored().contains_key(cache_key_text(query@, *options))
                    && v@ == old(self).cache.stored()[cache_key_text(query@, *options)]
                    && final(self).statistics.cache_hits == (if old(self).statistics.cache_hits < u64::MAX {
                        old(self).statistics.cache_hits + 1
                    } else {
                        old(self).statistics.cache_hits as int
                    }),
                None => !(old(self).config.enable_caching
                    && old(self).cache.stored().contains_key(cache_key_text(query@, *options)))
                    && final(self).statistics.cache_hits == old(self).statistics.cache_hits,
            },
            final(self).statistics.total_queries == old(self).statistics.total_queries,
            final(self).statistics.popular_terms == old(self).statistics.popular_terms,
            final(self).statistics.result_click_counts@ == old(self).statistics.result_click_counts@,
    {
        match generate_cache_key(self.config.enable_caching, query, options) {
            Some(key) => {
                match self.cache.get(key.as_str()) {
                    Some(v) => {
                        let found = copy_results(v);
                        self.statistics.cache_hits = self.statistics.cache_hits.saturating_add(1);
                        Some(found)
                    },
                    None => None,
                }
            },
            None => None,
        }
    }

    /// Turns the rows that the database returned for a query into the answer:
    /// read in order (the first unreadable row fails the search and nothing
    /// changes), kept only where they belong to the options' project filter,
    /// ordered by the options' field and direction (stably),
    /// numbered from one, stored in the cache where caching is on, and counted
    /// where statistics are on.
    pub fn complete_search(&mut self, query: &str, options: &SearchOptions, rows: Vec<SearchRow>) -> (r: Result<Vec<SearchResult>, DatabaseError>)
        requires
            old(self).wf(),
            old(self).config.enable_analytics ==> old(self).statistics.total_queries < u64::MAX,
            old(self).config.enable_analytics ==> tally_fits(
                old(self).statistics.popular_terms.map(),
                counted_terms(words_of(query@)),
            ),
        ensures
            final(self).wf(),
            final(self).config == old(self).config,
            match r {
                Ok(v) => (forall|i: int| 0 <= i < rows@.len() ==> #[trigger] search_row_error(rows@[i]) is None)
                    && is_stable_sort(
                        unranked(v@),
                        in_project(rows@.map_values(|row: SearchRow| search_result_of_row(row)), options.project_filter),
                        result_before(options.sort_by, options.sort_order),
                    )
                    && (forall|i: int| 0 <= i < v@.len() ==> #[trigger] v@[i].rank_position == i + 1)
                    && (forall|i: int| 0 <= i < v@.len() && options.project_filter is Some
                        ==> #[trigger] v@[i].project_id == options.project_filter->0)
                    && (if old(self).config.enable_caching {
                        final(self).cache.stored() == old(self).cache.stored_after(
                            cache_key_text(query@, *options),
                            v@,
                        )
                    } else {
                        final(self).cache == old(self).cache
                    })
                    && (if old(self).config.enable_analytics {
                        &&& final(self).statistics.total_queries == old(self).statistics.total_queries + 1
                        &&& final(self).statistics.popular_terms.map() == tally(
                            old(self).statistics.popular_terms.map(),
                            counted_terms(words_of(query@)),
                        )
                        &&& final(self).statistics.popular_terms.keys() == tally_keys(
                            old(self).statistics.popular_terms.keys(),
                            counted_terms(words_of(query@)),
                        )
                    } else {
                        &&& final(self).statistics.total_queries == old(self).statistics.total_queries
                        &&& final(self).statistics.popular_terms == old(self).statistics.popular_terms
                    }),
                Err(e) => e is Service && (exists|i: int| 0 <= i < rows@.len()
                    && #[trigger] search_row_error(rows@[i]) == Some(e->Service_0@)
                    && forall|j: int| 0 <= j < i ==> #[trigger] search_row_error(rows@[j]) is None)
                    && final(self).cache == old(self).cache
                    && final(self).statistics.total_queries == old(self).statistics.total_queries
                    && final(self).statistics.popular_terms == old(self).statistics.popular_terms,
            },
            final(self).statistics.cache_hits == old(self).statistics.cache_hits,
            final(self).statistics.result_click_counts@ == old(self).statistics.result_click_counts@,
    {
        let ghost all = rows@.map_values(|row: SearchRow| search_result_of_row(row));
        let results = results_from_rows(rows)?;
        let results = keep_project(results, options.project_filter);
        let ghost base = results@;
        let mut sorted = apply_sorting(results, options.sort_by, options.sort_order);
        let ghost s = sorted@;
        assign_rank_positions(&mut sorted);
        proof {
            assert forall|i: int| 0 <= i < all.len() implies #[trigger] all[i].rank_position == 1 by {}
            lemma_in_project(all, options.project_filter);
            assert forall|i: int| 0 <= i < s.len() implies #[trigger] s[i].rank_position == 1
                && (options.project_filter is Some ==> s[i].project_id == options.project_filter->0) by {
                let p = choose|p: Seq<int>| stably_sorted_by(s, base, p, result_before(options.sort_by, options.sort_order));
                assert(s[i] == base[p[i]]);
            }
            assert(unranked(sorted@) =~= s);
        }
        if self.config.enable_caching {
            match generate_cache_key(self.config.enable_caching, query, options) {
                Some(key) => {
                    let stored = copy_results(&sorted);
                    self.cache.insert(key, stored);
                },
                None => {},
            }
        }
        if self.config.enable_analytics {
            self.statistics.record_query(query);
        }
        Ok(sorted)
    }

    /// Forgets every cached query.
    pub fn clear_cache(&mut self)
        requires
            old(self).wf(),
        ensures
            final(self).wf(),
            final(self).config == old(self).config,
            final(self).cache.max_size == old(self).cache.max_size,
            final(self).cache.cache.entries@.len() == 0,
            final(self).statistics.total_queries == old(self).statistics.total_queries,
            final(self).statistics.popular_terms == old(self).statistics.popular_terms,
    {
        self.cache.clear();
    }

    /// Counts one opening of a result where statistics are on.
    pub fn track_click(&mut self, document_id: u128)
        requires
            old(self).wf(),
            old(self).statistics.result_click_counts@.contains_key(document_id)
                ==> old(self).statistics.result_click_counts@[document_id] < u32::MAX,
        ensures
            final(self).wf(),
            final(self).config == old(self).config,
            final(self).cache == old(self).cache,
            final(self).statistics.result_click_counts@ == (if old(self).config.enable_analytics {
                old(self).statistics.result_click_counts@.insert(document_id,
                    if old(self).statistics.result_click_counts@.contains_key(document_id) {
                        (old(self).statistics.result_click_counts@[document_id] + 1) as u32
                    } else {
                        1
                    })
            } else {
                old(self).statistics.result_click_counts@
            }),
            final(self).statistics.total_queries == old(self).statistics.total_queries,
            final(self).statistics.popular_terms == old(self).statistics.popular_terms,
    {
        if self.config.enable_analytics {
            self.statistics.track_click(document_id);
        }
    }

    /// The counted terms with their counts, most searched first: the first
    /// `limit` counted terms (in the order they were first counted), ordered
    /// by count from high to low, terms with equal counts in that order.
    pub fn get_popular_terms(&self, limit: usize) -> (r: Vec<(String, u32)>)
        requires
            self.wf(),
        ensures
            is_stable_sort(
                r@.map_values(|e: (String, u32)| (e.0@, e.1)),
                self.statistics.popular_terms.entries@.take(
                    if limit < self.statistics.popular_terms.entries@.len() { limit as int }
                    else { self.statistics.popular_terms.entries@.len() as int }
                ).map_values(|e: (String, u32)| (e.0@, e.1)),
                term_before(),
            ),
    {
        let entries = &self.statistics.popular_terms.entries;
        let n: usize = if limit < entries.len() { limit } else { entries.len() };
        let ghost inp = entries@.take(n as int).map_values(|e: (String, u32)| (e.0@, e.1));
        let ghost before = term_before();
        proof {
            assert(strict_weak_order(before));
            lemma_stable_empty(before);
            assert(inp.take(0) =~= Seq::<(Seq<char>, u32)>::empty());
        }
        let mut out: Vec<(String, u32)> = Vec::new();
        let ghost mut p: Seq<int> = Seq::empty();
        let mut k: usize = 0;
        while k < n
            invariant
                k <= n,
                n <= entries@.len(),
                inp == entries@.take(n as int).map_values(|e: (String, u32)| (e.0@, e.1)),
                before == term_before(),
                strict_weak_order(before),
                stably_sorted_by(out@.map_values(|e: (String, u32)| (e.0@, e.1)), inp.take(k as int), p, before),
            decreases n - k,
        {
            let key = entries[k].0.clone();
            let count = entries[k].1;
            let ghost x = (key@, count);
            assert(x == inp[k as int]);
            let ghost ov = out@.map_values(|e: (String, u32)| (e.0@, e.1));
            let mut pos: usize = 0;
            while pos < out.len() && !(count > out[pos].1)
                invariant
                    pos <= out@.len(),
                    ov == out@.map_values(|e: (String, u32)| (e.0@, e.1)),
                    before == term_before(),
                    x.1 == count,
                    forall|i: int| 0 <= i < pos ==> !before(x, #[trigger] ov[i]),
                decreases out@.len() - pos,
            {
                pos += 1;
            }
            proof {
                lemma_stable_insert(ov, inp.take(k as int), p, before, x, pos as int);
                assert(inp.take(k as int).push(x) =~= inp.take(k + 1));
                p = p.insert(pos as int, k as int);
            }
            out.insert(pos, (key, count));
            assert(out@.map_values(|e: (String, u32)| (e.0@, e.1)) =~= ov.insert(pos as int, x));
            k += 1;
        }
        assert(inp.take(n as int) =~= inp);
        out
    }
}

} // verus!

verus! {

/// Results just stored under a key are what the cache holds for it, and a
/// cache that was not full keeps everything it held under other keys.
pub proof fn law_search_cache_insert(c: SearchCache, key: Seq<char>, results: Seq<SearchResult>)
    requires
        c.wf(),
    ensures
        c.stored_after(key, results).contains_key(key),
        c.stored_after(key, results)[key] == results,
        c.cache.entries@.len() < c.max_size ==> forall|k: Seq<char>| k != key && #[trigger] c.stored().contains_key(k)
            ==> c.stored_after(key, results).contains_key(k) && c.stored_after(key, results)[k] == c.stored()[k],
{
}

/// The active documents whose title or content contains the search text,
/// by title, one page of them, with a snippet of their first 200 characters.
pub const SEARCH_DOCUMENTS_SQL: &'static str = "SELECT d.id, d.title, substr(d.content, 1, 200) || CASE WHEN length(d.content) > 200 THEN '...' ELSE '' END as snippet,\n                    1.0 as relevance_score, 1 as rank_position, 1.0 as search_rank, d.project_id, d.created_at, d.updated_at, d.document_type, d.word_count, d.metadata\n             FROM documents d\n             WHERE (d.title LIKE '%' || ?1 || '%' OR d.content LIKE '%' || ?1 || '%')\n             AND d.is_active = 1\n             ORDER BY d.title ASC LIMIT ?2 OFFSET ?3";

/// Titles in the search index that match a prefix query, at most a number of them.
pub const SEARCH_SUGGESTIONS_SQL: &'static str = "SELECT title FROM document_fts WHERE document_fts MATCH ?1 LIMIT ?2";

/// Empties the search index.
pub const CLEAR_SEARCH_INDEX_SQL: &'static str = "DELETE FROM document_fts";

/// Fills the search index from the active documents.
pub const FILL_SEARCH_INDEX_SQL: &'static str = "INSERT INTO document_fts(id, title, content, project_id)\n             SELECT id, title, COALESCE(content, ''), project_id\n             FROM documents WHERE is_active = 1";

/// Optimizes the search index.
pub const OPTIMIZE_SEARCH_INDEX_SQL: &'static str = "INSERT INTO document_fts(document_fts) VALUES('optimize')";

} // verus!
