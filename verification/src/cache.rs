//! A small in-memory cache whose entries expire a fixed time after they were
//! stored.

use vstd::prelude::*;
use crate::strmap::StrMap;
use crate::timeutil::{TimeSpan, instant_now};

verus! {

/// The time since an instant (`Instant::elapsed`). Only that the
/// nanoseconds are below one second is stated of the reading.
#[verifier::external_body]
fn instant_elapsed(i: &std::time::Instant) -> (t: TimeSpan)
    ensures
        t.wf(),
{
    let d = i.elapsed();
    TimeSpan { secs: d.as_secs(), nanos: d.subsec_nanos() }
}

/// Whether one span is shorter than another.
pub fn span_lt(a: TimeSpan, b: TimeSpan) -> (r: bool)
    requires
        a.wf(),
        b.wf(),
    ensures
        r == (a.total_nanos() < b.total_nanos()),
{
    a.secs < b.secs || (a.secs == b.secs && a.nanos < b.nanos)
}

/// Simple in-memory cache with a time to live: each value with the instant
/// it was stored.
#[derive(Debug)]
pub struct Cache<T> {
    pub data: StrMap<(T, std::time::Instant)>,
    pub ttl: TimeSpan,
}

impl<T: Clone> Cache<T> {
    /// Each key is stored once.
    pub open spec fn wf(&self) -> bool {
        self.data.wf() && self.ttl.wf()
    }

    /// An empty cache whose entries live for a number of seconds.
    pub fn new(ttl_seconds: u64) -> (c: Self)
        ensures
            c.wf(),
            c.data.entries@.len() == 0,
            c.ttl == (TimeSpan { secs: ttl_seconds, nanos: 0 }),
    {
        Cache { data: StrMap::new(), ttl: TimeSpan::from_secs(ttl_seconds) }
    }

    /// What a lookup of `key` does once the age of its entry is known to be
    /// `elapsed`: a missing key gives nothing and changes nothing; an entry
    /// younger than the time to live gives (a clone of) its value and is kept;
    /// an older one gives nothing and is removed.
    pub open spec fn lookup_step(before: Self, after: Self, key: Seq<char>, elapsed: TimeSpan, r: Option<T>) -> bool {
        &&& after.wf()
        &&& after.ttl == before.ttl
        &&& if !before.data.map().contains_key(key) {
            &&& r is None
            &&& after.data.map() == before.data.map()
            &&& after.data.entries@.len() == before.data.entries@.len()
        } else if elapsed.total_nanos() < before.ttl.total_nanos() {
            &&& r is Some
            &&& vstd::pervasive::cloned::<T>(before.data.map()[key].0, r->0)
            &&& after.data.map() == before.data.map()
            &&& after.data.entries@.len() == before.data.entries@.len()
        } else {
            &&& r is None
            &&& after.data.map() == before.data.map().remove(key)
            &&& after.data.entries@.len() == before.data.entries@.len() - 1
        }
    }

    /// The value stored under a key whose entry is `elapsed` old: given back
    /// while that is less than the time to live; an expired entry is removed.
    pub fn get_at(&mut self, key: &str, elapsed: TimeSpan) -> (r: Option<T>)
        requires
            old(self).wf(),
            elapsed.wf(),
        ensures
            Self::lookup_step(*old(self), *final(self), key@, elapsed, r),
    {
        let fresh = match self.data.get(key) {
            Some(entry) => {
                if span_lt(elapsed, self.ttl) {
                    Some(entry.0.clone())
                } else {
                    None
                }
            },
            None => {
                return None;
            },
        };
        match fresh {
            Some(v) => Some(v),
            None => {
                self.data.remove(key);
                None
            },
        }
    }

    /// The value stored under a key while it is fresh (stored less than the
    /// time to live ago); an expired entry is removed. The age of the entry is
    /// read from the clock (`Instant::elapsed` of the instant it was stored
    /// at), and the rest is `get_at` with that age.
    pub fn get(&mut self, key: &str) -> (r: Option<T>)
        requires
            old(self).wf(),
        ensures
            exists|elapsed: TimeSpan| elapsed.wf() && Self::lookup_step(*old(self), *final(self), key@, elapsed, r),
    {
        let elapsed = match self.data.get(key) {
            Some(entry) => instant_elapsed(&entry.1),
            None => TimeSpan { secs: 0, nanos: 0 },
        };
        let r = self.get_at(key, elapsed);
        assert(elapsed.wf() && Self::lookup_step(*old(self), *self, key@, elapsed, r));
        r
    }

    /// Stores a value under a key, as of now.
    pub fn set(&mut self, key: String, value: T)
        requires
            old(self).wf(),
        ensures
            final(self).wf(),
            final(self).ttl == old(self).ttl,
            final(self).data.map().dom() == old(self).data.map().dom().insert(key@),
            final(self).data.map()[key@].0 == value,
            final(self).data.entries@.len() == old(self).data.entries@.len()
                + (if old(self).data.map().contains_key(key@) { 0int } else { 1int }),
            forall|k: Seq<char>| k != key@ && #[trigger] old(self).data.map().contains_key(k)
                ==> final(self).data.map()[k] == old(self).data.map()[k],
    {
        let now = instant_now();
        self.data.insert(key, (value, now));
    }

    /// Drops every entry.
    pub fn clear(&mut self)
        ensures
            final(self).data.wf(),
            final(self).data.entries@.len() == 0,
            final(self).ttl == old(self).ttl,
    {
        self.data = StrMap::new();
    }

    /// How many entries are stored (fresh or not).
    pub fn size(&self) -> (n: usize)
        ensures
            n == self.data.entries@.len(),
    {
        self.data.len()
    }
}

/// A value just stored is what a lookup gives back while the entry is
/// younger than the time to live, leaving as many entries as `set` left;
/// once it is as old as that, the lookup gives nothing and removes it, so the
/// cache holds as many entries as before the key was stored, less one if the
/// key was stored before.
pub proof fn law_set_then_lookup<T: Clone>(
    c0: Cache<T>,
    c1: Cache<T>,
    c2: Cache<T>,
    key: Seq<char>,
    value: T,
    elapsed: TimeSpan,
    r: Option<T>,
)
    requires
        c1.ttl == c0.ttl,
        c1.data.map().dom() == c0.data.map().dom().insert(key),
        c1.data.map()[key].0 == value,
        c1.data.entries@.len() == c0.data.entries@.len() + (if c0.data.map().contains_key(key) { 0int } else { 1int }),
        Cache::<T>::lookup_step(c1, c2, key, elapsed, r),
    ensures
        elapsed.total_nanos() < c0.ttl.total_nanos() ==> r is Some && vstd::pervasive::cloned::<T>(value, r->0)
            && c2.data.entries@.len() == c1.data.entries@.len(),
        elapsed.total_nanos() >= c0.ttl.total_nanos() ==> r is None && !c2.data.map().contains_key(key)
            && c2.data.entries@.len() == c0.data.entries@.len() - (if c0.data.map().contains_key(key) { 1int } else { 0int }),
{
    assert(c1.data.map().contains_key(key));
}

} // verus!
