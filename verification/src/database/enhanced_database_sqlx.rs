//! Rows and results of database queries, as owned text values, and the
//! content checksum that documents carry.

use vstd::prelude::*;
use crate::text::{spec_to_lowercase, str_eq, string_from_chars, to_lowercase};
use crate::timeutil::TimeSpan;
use crate::database::search_service::words_of;

verus! {

/// One row of a query result: column names and the text of each value
/// (`None` for SQL `NULL`).
#[derive(Debug, Clone)]
pub struct DatabaseRow {
    columns: Vec<String>,
    values: Vec<Option<String>>,
}

/// The text of the value at `index`, if there is one and it is not `NULL`.
pub open spec fn cell_of(values: Seq<Option<String>>, index: int) -> Option<Seq<char>> {
    if 0 <= index < values.len() {
        match values[index] {
            Some(s) => Some(s@),
            None => None,
        }
    } else {
        None
    }
}

impl DatabaseRow {
    /// The column names.
    pub closed spec fn column_names(&self) -> Seq<Seq<char>> {
        self.columns@.map_values(|c: String| c@)
    }

    /// The value texts.
    pub closed spec fn value_cells(&self) -> Seq<Option<String>> {
        self.values@
    }

    /// The text of the value at `index`.
    pub open spec fn cell(&self, index: int) -> Option<Seq<char>> {
        cell_of(self.value_cells(), index)
    }

    /// A row from its column names and values.
    pub fn new(columns: Vec<String>, values: Vec<Option<String>>) -> (row: Self)
        ensures
            row.column_names() == columns@.map_values(|c: String| c@),
            row.value_cells() == values@,
    {
        Self { columns, values }
    }

    /// The column names of the row.
    pub fn columns(&self) -> (r: &Vec<String>)
        ensures
            r@.map_values(|c: String| c@) == self.column_names(),
    {
        &self.columns
    }

    /// The values of the row, `None` for SQL `NULL`.
    pub fn values(&self) -> (r: &Vec<Option<String>>)
        ensures
            r@ == self.value_cells(),
    {
        &self.values
    }

    /// The value at `index`, unless it is absent or `NULL`.
    pub fn get(&self, index: usize) -> (r: Option<&str>)
        ensures
            match r {
                Some(s) => self.cell(index as int) == Some(s@),
                None => self.cell(index as int) is None,
            },
    {
        if index < self.values.len() {
            match &self.values[index] {
                Some(s) => Some(s.as_str()),
                None => None,
            }
        } else {
            None
        }
    }

    /// The value in the first column with the given name.
    pub fn get_by_name(&self, name: &str) -> (r: Option<&str>)
        ensures
            match r {
                Some(s) => exists|i: int|
                    0 <= i < self.column_names().len() && self.column_names()[i] == name@ && (
                    forall|j: int| 0 <= j < i ==> self.column_names()[j] != name@) && self.cell(i)
                        == Some(s@),
                None => forall|i: int|
                    0 <= i < self.column_names().len() && self.column_names()[i] == name@ && (
                    forall|j: int| 0 <= j < i ==> self.column_names()[j] != name@) ==> self.cell(
                        i,
                    ) is None,
            },
    {
        let mut i: usize = 0;
        while i < self.columns.len()
            invariant
                i <= self.columns@.len(),
                forall|j: int| 0 <= j < i ==> self.columns@[j]@ != name@,
            decreases self.columns@.len() - i,
        {
            if str_eq(self.columns[i].as_str(), name) {
                assert(self.column_names()[i as int] == name@);
                let r = self.get(i);
                assert forall|j: int| 0 <= j < i implies self.column_names()[j] != name@ by {
                    assert(self.column_names()[j] == self.columns@[j]@);
                }
                return r;
            }
            i += 1;
        }
        assert forall|k: int| 0 <= k < self.column_names().len() implies self.column_names()[k]
            != name@ by {
            assert(self.column_names()[k] == self.columns@[k]@);
        }
        None
    }

    /// Number of values.
    pub fn len(&self) -> (n: usize)
        ensures
            n == self.value_cells().len(),
    {
        self.values.len()
    }

    /// Whether the row has no values.
    pub fn is_empty(&self) -> (r: bool)
        ensures
            r == (self.value_cells().len() == 0),
    {
        self.values.len() == 0
    }
}

/// The rows a query returned, and how many columns it had.
#[derive(Debug, Clone)]
pub struct QueryResult {
    pub rows: Vec<DatabaseRow>,
    pub column_count: usize,
}

impl QueryResult {
    /// The first row, if any.
    pub fn first(&self) -> (r: Option<&DatabaseRow>)
        ensures
            match r {
                Some(row) => self.rows@.len() > 0 && *row == self.rows@[0],
                None => self.rows@.len() == 0,
            },
    {
        if self.rows.len() > 0 {
            Some(&self.rows[0])
        } else {
            None
        }
    }

    /// Number of rows.
    pub fn len(&self) -> (n: usize)
        ensures
            n == self.rows@.len(),
    {
        self.rows.len()
    }

    /// Whether there are no rows.
    pub fn is_empty(&self) -> (r: bool)
        ensures
            r == (self.rows@.len() == 0),
    {
        self.rows.len() == 0
    }
}

/// A name for the SHA-256 digest of a byte string.
pub uninterp spec fn spec_sha256(data: Seq<u8>) -> Seq<u8>;

/// SHA-256 of the UTF-8 bytes of a text, with the `sha2` crate; the digest
/// is named by `spec_sha256`.
#[verifier::external_body]
fn sha256_of_text(text: &str) -> (d: Vec<u8>)
    ensures
        d@ == spec_sha256(vstd::utf8::encode_utf8(text@)),
{
    sha2::Digest::finalize(sha2::Digest::chain_update(<sha2::Sha256 as sha2::Digest>::new(), text.as_bytes())).to_vec()
}

/// The lower-case hexadecimal digit for a value below sixteen.
pub open spec fn hex_digit(d: nat) -> char {
    if d < 10 {
        crate::text::digit_char(d)
    } else if d == 10 { 'a' }
    else if d == 11 { 'b' }
    else if d == 12 { 'c' }
    else if d == 13 { 'd' }
    else if d == 14 { 'e' }
    else { 'f' }
}

/// Two lower-case hexadecimal digits per byte, as `{:x}` prints a digest.
pub open spec fn hex_lower_seq(data: Seq<u8>) -> Seq<char>
    decreases data.len(),
{
    if data.len() == 0 {
        Seq::empty()
    } else {
        hex_lower_seq(data.drop_last()).push(hex_digit((data.last() / 16) as nat)).push(hex_digit((data.last() % 16) as nat))
    }
}

pub fn hex_digit_of(d: u8) -> (c: char)
    requires
        d < 16,
    ensures
        c == hex_digit(d as nat),
{
    if d < 10 {
        if d == 0 { '0' } else if d == 1 { '1' } else if d == 2 { '2' } else if d == 3 { '3' }
        else if d == 4 { '4' } else if d == 5 { '5' } else if d == 6 { '6' } else if d == 7 { '7' }
        else if d == 8 { '8' } else { '9' }
    } else if d == 10 { 'a' } else if d == 11 { 'b' } else if d == 12 { 'c' } else if d == 13 { 'd' }
    else if d == 14 { 'e' } else { 'f' }
}

/// Lower-case hexadecimal text of a byte string.
pub fn hex_lower(data: &Vec<u8>) -> (s: String)
    ensures
        s@ == hex_lower_seq(data@),
{
    let mut v: Vec<char> = Vec::new();
    let mut i: usize = 0;
    while i < data.len()
        invariant
            i <= data.len(),
            v@ == hex_lower_seq(data@.subrange(0, i as int)),
        decreases data.len() - i,
    {
        let b = data[i];
        v.push(hex_digit_of(b / 16));
        v.push(hex_digit_of(b % 16));
        i += 1;
        assert(data@.subrange(0, i as int).drop_last() =~= data@.subrange(0, i - 1));
    }
    assert(data@.subrange(0, data@.len() as int) =~= data@);
    string_from_chars(&v)
}

/// SHA-256 checksum of a document's content, as lower-case hexadecimal.
pub fn calculate_checksum(content: &str) -> (s: String)
    ensures
        s@ == hex_lower_seq(spec_sha256(vstd::utf8::encode_utf8(content@))),
{
    let d = sha256_of_text(content);
    hex_lower(&d)
}

} // verus!

verus! {

/// Limits of the connection pool.
#[derive(Debug, Clone, Copy, PartialEq, Eq, Structural)]
pub struct DatabaseConfig {
    pub max_connections: u32,
    pub min_connections: u32,
    pub acquire_timeout: TimeSpan,
    pub idle_timeout: Option<TimeSpan>,
    pub max_lifetime: Option<TimeSpan>,
}

impl Default for DatabaseConfig {
    /// Ten connections at most, one at least, 30 s to acquire one, idle
    /// ones closed after ten minutes, every one after an hour.
    fn default() -> (c: Self)
        ensures
            c.max_connections == 10,
            c.min_connections == 1,
            c.acquire_timeout == (TimeSpan { secs: 30, nanos: 0 }),
            c.idle_timeout == Some(TimeSpan { secs: 600, nanos: 0 }),
            c.max_lifetime == Some(TimeSpan { secs: 3600, nanos: 0 }),
    {
        DatabaseConfig {
            max_connections: 10,
            min_connections: 1,
            acquire_timeout: TimeSpan::from_secs(30),
            idle_timeout: Some(TimeSpan::from_secs(600)),
            max_lifetime: Some(TimeSpan::from_secs(3600)),
        }
    }
}

/// The checksum and word count stored with a document's content.
pub fn document_fields(content: &str) -> (r: (String, i32))
    ensures
        r.0@ == hex_lower_seq(spec_sha256(vstd::utf8::encode_utf8(content@))),
        r.1 == words_of(content@).len() as i32,
{
    let checksum = calculate_checksum(content);
    let n = crate::database::models::project::word_count_of(content);
    (checksum, n as i32)
}

/// Whether SQLite's integrity check reported no problem.
pub fn integrity_passed(report: &str) -> (r: bool)
    ensures
        r == (report@ == "ok"@),
{
    crate::text::str_eq(report, "ok")
}

/// Whether the journal mode SQLite reports is write-ahead logging.
pub fn wal_mode_enabled(journal_mode: &str) -> (r: bool)
    ensures
        r == (spec_to_lowercase(journal_mode@) == "wal"@),
{
    let lower = to_lowercase(journal_mode);
    crate::text::str_eq(lower.as_str(), "wal")
}

/// Whether SQLite reports foreign keys as enforced.
pub fn foreign_keys_enabled(flag: i64) -> (r: bool)
    ensures
        r == (flag == 1),
{
    flag == 1
}

} // verus!
