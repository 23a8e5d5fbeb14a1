//! The fonts known to the user interface: the font database of the `fontdb`
//! crate, and the font data that the application loaded itself.

use vstd::prelude::*;
use crate::text::{
    chars_of, push_str, string_from_chars, str_eq, to_lowercase, spec_to_lowercase, contains,
    contains_seq, text_lt, string_views, lex_lt, lemma_lex_irreflexive, lemma_lex_transitive, lemma_lex_total,
};
use crate::strmap::StrMap;

verus! {

#[verifier::external_type_specification]
#[verifier::external_body]
pub struct ExFontDatabase(fontdb::Database);

/// A name for what a font database holds: for each face, in the order in
/// which `Database::faces` gives them, the first of its family names.
pub uninterp spec fn spec_face_families(db: fontdb::Database) -> Seq<Option<Seq<char>>>;

/// `fontdb::Database::new`: a database without faces.
#[verifier::external_body]
pub(crate) fn new_font_database() -> (db: fontdb::Database)
    ensures
        spec_face_families(db) == Seq::<Option<Seq<char>>>::empty(),
{
    fontdb::Database::new()
}

/// A name for the faces that `fontdb` parses from font data (each face's
/// first family name, in the order of the faces in the data; none for data
/// it cannot parse). The parse depends on the data alone.
pub uninterp spec fn spec_data_face_families(data: Seq<u8>) -> Seq<Option<Seq<char>>>;

/// `fontdb::Database::load_font_data`: the faces that the crate parses from
/// the data are added to those held before, which all stay. Where the new
/// faces stand among the old ones is not stated (the crate reuses the slots
/// of removed faces), so the faces are stated as a multiset.
#[verifier::external_body]
fn load_font_data(db: &mut fontdb::Database, data: Vec<u8>)
    ensures
        spec_face_families(*final(db)).to_multiset()
            == spec_face_families(*old(db)).to_multiset().add(spec_data_face_families(data@).to_multiset()),
{
    db.load_font_data(data)
}

/// The first family name of each face, by `fontdb::Database::faces`.
#[verifier::external_body]
fn face_families(db: &fontdb::Database) -> (r: Vec<Option<String>>)
    ensures
        r@.map_values(|o: Option<String>| match o {
            Some(s) => Some(s@),
            None => None,
        }) == spec_face_families(*db),
{
    let mut r = Vec::new();
    for face in db.faces() {
        r.push(face.families.first().map(|f| f.0.clone()));
    }
    r
}

/// A family name is listed for a query: every name for the empty query,
/// else the names whose lower-case form contains the lower-cased query.
pub open spec fn family_matches(name: Seq<char>, query: Seq<char>) -> bool {
    query.len() == 0 || contains_seq(spec_to_lowercase(name), spec_to_lowercase(query))
}

/// The family names among the faces.
pub open spec fn family_names(fams: Seq<Option<Seq<char>>>) -> Set<Seq<char>> {
    Set::new(|n: Seq<char>| exists|i: int| 0 <= i < fams.len() && fams[i] == Some(n))
}

/// The texts are in strictly increasing order.
pub open spec fn strictly_sorted(v: Seq<Seq<char>>) -> bool {
    forall|i: int, j: int| 0 <= i < j < v.len() ==> lex_lt(#[trigger] v[i], #[trigger] v[j])
}

/// The views of optional strings.
pub open spec fn option_views(v: Seq<Option<String>>) -> Seq<Option<Seq<char>>> {
    v.map_values(|o: Option<String>| match o {
        Some(s) => Some(s@),
        None => None,
    })
}

/// Adds a text to a strictly increasing list unless it is there already.
pub fn insert_sorted_unique(out: &mut Vec<String>, name: String)
    requires
        strictly_sorted(string_views(old(out)@)),
    ensures
        strictly_sorted(string_views(final(out)@)),
        forall|n: Seq<char>| #[trigger] string_views(final(out)@).contains(n)
            <==> (string_views(old(out)@).contains(n) || n == name@),
{
    let ghost v = string_views(out@);
    let ghost x = name@;
    let mut pos: usize = 0;
    while pos < out.len() && text_lt(out[pos].as_str(), name.as_str())
        invariant
            pos <= out@.len(),
            v == string_views(out@),
            x == name@,
            forall|i: int| 0 <= i < pos ==> lex_lt(#[trigger] v[i], x),
        decreases out@.len() - pos,
    {
        pos += 1;
    }
    if pos < out.len() && str_eq(out[pos].as_str(), name.as_str()) {
        assert forall|n: Seq<char>| #[trigger] v.contains(n) <==> (v.contains(n) || n == x) by {
            if n == x {
                assert(v[pos as int] == x);
            }
        }
        return;
    }
    proof {
        if pos < v.len() {
            lemma_lex_total(v[pos as int], x);
        }
        assert forall|m: int| pos <= m < v.len() implies lex_lt(x, #[trigger] v[m]) by {
            if m > pos {
                lemma_lex_transitive(x, v[pos as int], v[m]);
            }
        }
    }
    out.insert(pos, name);
    let ghost w = string_views(out@);
    assert(w =~= v.insert(pos as int, x));
    assert forall|i: int, j: int| 0 <= i < j < w.len() implies lex_lt(#[trigger] w[i], #[trigger] w[j]) by {
        if j < pos {
        } else if i > pos {
            assert(w[i] == v[i - 1] && w[j] == v[j - 1]);
        } else if i == pos {
            assert(w[j] == v[j - 1]);
        } else if j == pos {
            assert(w[i] == v[i]);
        } else {
            assert(w[i] == v[i] && w[j] == v[j - 1]);
            lemma_lex_transitive(v[i], x, v[j - 1]);
        }
    }
    assert forall|n: Seq<char>| #[trigger] w.contains(n) <==> (v.contains(n) || n == x) by {
        if w.contains(n) {
            let k = choose|k: int| 0 <= k < w.len() && w[k] == n;
            if k < pos {
                assert(v[k] == n);
            } else if k > pos {
                assert(v[k - 1] == n);
            }
        }
        if v.contains(n) {
            let k = choose|k: int| 0 <= k < v.len() && v[k] == n;
            if k < pos {
                assert(w[k] == n);
            } else {
                assert(w[k + 1] == n);
            }
        }
        if n == x {
            assert(w[pos as int] == x);
        }
    }
}

/// The family names that a query lists, each once, in increasing order
/// (`str` order).
pub fn matching_families(fams: &Vec<Option<String>>, query: &str) -> (r: Vec<String>)
    ensures
        strictly_sorted(string_views(r@)),
        forall|n: Seq<char>| #[trigger] string_views(r@).contains(n) <==> (
            family_names(option_views(fams@)).contains(n) && family_matches(n, query@)),
{
    let ghost fv = option_views(fams@);
    let q = to_lowercase(query);
    let qv = chars_of(q.as_str());
    let mut out: Vec<String> = Vec::new();
    let mut i: usize = 0;
    while i < fams.len()
        invariant
            i <= fams@.len(),
            fv == option_views(fams@),
            qv@ == spec_to_lowercase(query@),
            strictly_sorted(string_views(out@)),
            forall|n: Seq<char>| #[trigger] string_views(out@).contains(n) <==> (
                (exists|k: int| 0 <= k < i && fv[k] == Some(n)) && family_matches(n, query@)),
        decreases fams@.len() - i,
    {
        let ghost before = string_views(out@);
        match &fams[i] {
            Some(name) => {
                let lower = to_lowercase(name.as_str());
                let lv = chars_of(lower.as_str());
                if query.unicode_len() == 0 || contains(&lv, &qv) {
                    insert_sorted_unique(&mut out, name.clone());
                    assert forall|n: Seq<char>| #[trigger] string_views(out@).contains(n) <==> (
                        (exists|k: int| 0 <= k < i + 1 && fv[k] == Some(n)) && family_matches(n, query@)) by {
                        if n == name@ {
                            assert(fv[i as int] == Some(n));
                        }
                        if exists|k: int| 0 <= k < i + 1 && fv[k] == Some(n) {
                            let k = choose|k: int| 0 <= k < i + 1 && fv[k] == Some(n);
                            if k == i {
                                assert(n == name@);
                            }
                        }
                    }
                } else {
                    assert forall|n: Seq<char>| #[trigger] string_views(out@).contains(n) <==> (
                        (exists|k: int| 0 <= k < i + 1 && fv[k] == Some(n)) && family_matches(n, query@)) by {
                        if exists|k: int| 0 <= k < i + 1 && fv[k] == Some(n) {
                            let k = choose|k: int| 0 <= k < i + 1 && fv[k] == Some(n);
                            if k == i {
                                assert(n == name@);
                            }
                        }
                    }
                }
            },
            None => {
                assert forall|n: Seq<char>| #[trigger] string_views(out@).contains(n) <==> (
                    (exists|k: int| 0 <= k < i + 1 && fv[k] == Some(n)) && family_matches(n, query@)) by {
                    if exists|k: int| 0 <= k < i + 1 && fv[k] == Some(n) {
                        let k = choose|k: int| 0 <= k < i + 1 && fv[k] == Some(n);
                        assert(k < i);
                    }
                }
            },
        }
        i += 1;
    }
    out
}

/// The font database of the user interface and the font data that the
/// application loaded into it, by family name.
pub struct FontLoader {
    pub db: fontdb::Database,
    pub loaded: StrMap<Vec<u8>>,
}

impl FontLoader {
    /// The loaded data is kept once per family.
    pub open spec fn wf(&self) -> bool {
        self.loaded.wf()
    }

    /// A loader over a font database, with nothing loaded by the application.
    pub fn with_database(db: fontdb::Database) -> (l: Self)
        ensures
            l.wf(),
            spec_face_families(l.db) == spec_face_families(db),
            l.loaded.entries@.len() == 0,
    {
        FontLoader { db, loaded: StrMap::new() }
    }

    /// Loads font data into the database, making the faces parsed from it
    /// available beside those held before (in an order the crate chooses),
    /// and keeps the data under a family name (replacing data kept under that
    /// name before).
    pub fn load_font_from_memory(&mut self, font_data: Vec<u8>, family_name: &str)
        requires
            old(self).wf(),
        ensures
            final(self).wf(),
            spec_face_families(final(self).db).to_multiset()
                == spec_face_families(old(self).db).to_multiset().add(spec_data_face_families(font_data@).to_multiset()),
            final(self).loaded.map().dom() == old(self).loaded.map().dom().insert(family_name@),
            final(self).loaded.map()[family_name@]@ == font_data@,
            forall|k: Seq<char>| k != family_name@ && #[trigger] old(self).loaded.map().contains_key(k)
                ==> final(self).loaded.map()[k] == old(self).loaded.map()[k],
    {
        load_font_data(&mut self.db, font_data.clone());
        self.loaded.insert(family_name.to_string(), font_data);
    }

    /// Whether data was loaded under a family name.
    pub fn is_font_loaded(&self, family_name: &str) -> (r: bool)
        ensures
            r == self.loaded.map().contains_key(family_name@),
    {
        self.loaded.contains_key(family_name)
    }

    /// The family names under which data was loaded, in loading order.
    pub fn get_loaded_fonts(&self) -> (r: Vec<String>)
        ensures
            string_views(r@) == self.loaded.keys(),
    {
        let mut r: Vec<String> = Vec::new();
        let mut i: usize = 0;
        while i < self.loaded.entries.len()
            invariant
                i <= self.loaded.entries@.len(),
                string_views(r@) == self.loaded.keys().take(i as int),
            decreases self.loaded.entries@.len() - i,
        {
            let ghost before = string_views(r@);
            r.push(self.loaded.entries[i].0.clone());
            assert(string_views(r@) =~= before.push(self.loaded.entries@[i as int].0@));
            assert(self.loaded.keys()[i as int] == self.loaded.entries@[i as int].0@);
            assert(self.loaded.keys().take(i + 1) =~= self.loaded.keys().take(i as int).push(self.loaded.keys()[i as int]));
            i += 1;
        }
        assert(self.loaded.keys().take(i as int) =~= self.loaded.keys());
        r
    }

    /// The family names of the database that a query lists, each once, in
    /// increasing order.
    pub fn query_font_database(&self, query: &str) -> (r: Vec<String>)
        ensures
            strictly_sorted(string_views(r@)),
            forall|n: Seq<char>| #[trigger] string_views(r@).contains(n) <==> (
                family_names(spec_face_families(self.db)).contains(n) && family_matches(n, query@)),
    {
        let fams = face_families(&self.db);
        matching_families(&fams, query)
    }

    /// How many faces the database holds, how many family names they have
    /// and under how many names the application loaded data.
    pub fn get_font_stats(&self) -> (r: (usize, usize, usize))
        ensures
            r.0 == spec_face_families(self.db).len(),
            r.1 == family_names(spec_face_families(self.db)).len(),
            r.2 == self.loaded.entries@.len(),
    {
        let fams = face_families(&self.db);
        let ghost fv = option_views(fams@);
        let mut distinct: Vec<String> = Vec::new();
        let mut i: usize = 0;
        while i < fams.len()
            invariant
                i <= fams@.len(),
                fv == option_views(fams@),
                string_views(distinct@).no_duplicates(),
                forall|n: Seq<char>| #[trigger] string_views(distinct@).contains(n) <==> (
                    exists|k: int| 0 <= k < i && fv[k] == Some(n)),
            decreases fams@.len() - i,
        {
            let ghost before = string_views(distinct@);
            match &fams[i] {
                Some(name) => {
                    if !crate::text::list_contains(&distinct, name.as_str()) {
                        distinct.push(name.clone());
                        assert(string_views(distinct@) =~= before.push(name@));
                    }
                    assert forall|n: Seq<char>| #[trigger] string_views(distinct@).contains(n) <==> (
                        exists|k: int| 0 <= k < i + 1 && fv[k] == Some(n)) by {
                        if n == name@ {
                            assert(fv[i as int] == Some(n));
                            if before.contains(n) {
                                assert(string_views(distinct@) == before);
                            } else {
                                assert(string_views(distinct@)[before.len() as int] == n);
                            }
                        }
                        if before.contains(n) && string_views(distinct@) != before {
                            let j = choose|j: int| 0 <= j < before.len() && before[j] == n;
                            assert(string_views(distinct@)[j] == n);
                        }
                        if string_views(distinct@).contains(n) && n != name@ {
                            let j = choose|j: int| 0 <= j < string_views(distinct@).len() && string_views(distinct@)[j] == n;
                            if string_views(distinct@) != before {
                                assert(j < before.len());
                                assert(before[j] == n);
                            }
                        }
                        if exists|k: int| 0 <= k < i + 1 && fv[k] == Some(n) {
                            let k = choose|k: int| 0 <= k < i + 1 && fv[k] == Some(n);
                            if k == i {
                                assert(n == name@);
                            }
                        }
                    }
                },
                None => {
                    assert forall|n: Seq<char>| #[trigger] string_views(distinct@).contains(n) <==> (
                        exists|k: int| 0 <= k < i + 1 && fv[k] == Some(n)) by {
                        if exists|k: int| 0 <= k < i + 1 && fv[k] == Some(n) {
                            let k = choose|k: int| 0 <= k < i + 1 && fv[k] == Some(n);
                            assert(k < i);
                        }
                    }
                },
            }
            i += 1;
        }
        proof {
            let dv = string_views(distinct@);
            dv.unique_seq_to_set();
            assert(dv.to_set() =~= family_names(fv));
        }
        (fams.len(), distinct.len(), self.loaded.len())
    }

    /// Forgets the data loaded under a family name; an error where there is none.
    pub fn unload_font(&mut self, family_name: &str) -> (r: Result<(), String>)
        requires
            old(self).wf(),
        ensures
            final(self).wf(),
            final(self).loaded.map() == old(self).loaded.map().remove(family_name@),
            spec_face_families(final(self).db) == spec_face_families(old(self).db),
            match r {
                Ok(()) => old(self).loaded.map().contains_key(family_name@),
                Err(e) => !old(self).loaded.map().contains_key(family_name@)
                    && e@ == "Font '"@ + family_name@ + "' was not loaded"@,
            },
    {
        if self.loaded.remove(family_name) {
            Ok(())
        } else {
            let mut v = chars_of("Font '");
            push_str(&mut v, family_name);
            push_str(&mut v, "' was not loaded");
            Err(string_from_chars(&v))
        }
    }
}

} // verus!
