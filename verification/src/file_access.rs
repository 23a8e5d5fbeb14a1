//! Access control for file operations: the operations allowed, a rate limit
//! per user and operation, a size limit, and the audit lines of operations.

use vstd::prelude::*;
use crate::strmap::StrMap;
use crate::text::{chars_of, push_str, push_decimal, string_from_chars, str_eq, list_contains, string_views, decimal_seq};
use crate::error::AppError;
use crate::timeutil::unix_millis_now;

verus! {

/// The request times kept by a cleanup at `now`: those less than the window
/// before it (a time after `now` counts as no time ago).
pub open spec fn recent_times(times: Seq<u64>, now: u64, window: u64) -> Seq<u64> {
    times.filter(|t: u64| (if now >= t { now - t } else { 0 }) < window)
}

/// One request under `key` at `now`, as `check_rate_limit_at` takes it:
/// the key's times outside the window are dropped; the request is accepted
/// (`ok`) exactly when fewer than `max_requests` remain, and then its time
/// is added; the other keys keep their times.
pub open spec fn rate_limit_step(before: RateLimiter, after: RateLimiter, key: Seq<char>, now: u64, ok: bool) -> bool {
    &&& after.wf()
    &&& after.max_requests == before.max_requests
    &&& after.window_ms == before.window_ms
    &&& {
        let kept = if before.requests.map().contains_key(key) {
            recent_times(before.requests.map()[key]@, now, before.window_ms)
        } else {
            Seq::empty()
        };
        &&& ok == (kept.len() < before.max_requests)
        &&& after.requests.map().dom() == (if ok || before.requests.map().contains_key(key) {
                before.requests.map().dom().insert(key)
            } else {
                before.requests.map().dom()
            })
        &&& (ok || before.requests.map().contains_key(key)) ==> after.requests.map()[key]@
                == (if ok { kept.push(now) } else { kept })
        &&& forall|k: Seq<char>| k != key && #[trigger] before.requests.map().contains_key(k)
                ==> after.requests.map()[k] == before.requests.map()[k]
    }
}

/// Rate limiter: the times of the requests under each key, in milliseconds
/// of the system clock, and how many a window may hold.
#[derive(Debug, Clone)]
pub struct RateLimiter {
    pub requests: StrMap<Vec<u64>>,
    pub max_requests: u32,
    pub window_ms: u64,
}

impl RateLimiter {
    /// Each key is stored once.
    pub open spec fn wf(&self) -> bool {
        self.requests.wf()
    }

    /// A limiter of `max_requests` per window of `window_seconds`.
    pub fn new(max_requests: u32, window_seconds: u64) -> (r: Self)
        requires
            window_seconds <= u64::MAX / 1000,
        ensures
            r.wf(),
            r.requests.entries@.len() == 0,
            r.max_requests == max_requests,
            r.window_ms == window_seconds * 1000,
    {
        RateLimiter { requests: StrMap::new(), max_requests, window_ms: window_seconds * 1000 }
    }

    /// Takes a request under a key at `now`: the key's times outside the
    /// window are dropped; if the window still holds `max_requests` the
    /// request is refused, else its time is added and it is accepted.
    pub fn check_rate_limit_at(&mut self, key: &str, now: u64) -> (ok: bool)
        requires
            old(self).wf(),
        ensures
            final(self).wf(),
            final(self).max_requests == old(self).max_requests,
            final(self).window_ms == old(self).window_ms,
            rate_limit_step(*old(self), *final(self), key@, now, ok),
    {
        let existing = match self.requests.get(key) {
            Some(times) => {
                let mut kept: Vec<u64> = Vec::new();
                let mut i: usize = 0;
                while i < times.len()
                    invariant
                        i <= times@.len(),
                        kept@ == recent_times(times@.take(i as int), now, self.window_ms),
                    decreases times@.len() - i,
                {
                    proof {
                        reveal(Seq::filter);
                        assert(times@.take(i + 1).drop_last() =~= times@.take(i as int));
                    }
                    let t = times[i];
                    if now.saturating_sub(t) < self.window_ms {
                        kept.push(t);
                    }
                    i += 1;
                }
                assert(times@.take(i as int) =~= times@);
                Some(kept)
            },
            None => None,
        };
        match existing {
            Some(mut kept) => {
                let ok = kept.len() < self.max_requests as usize;
                if ok {
                    kept.push(now);
                }
                self.requests.insert(key.to_string(), kept);
                ok
            },
            None => {
                let ok = 0 < self.max_requests;
                if ok {
                    let mut times: Vec<u64> = Vec::new();
                    times.push(now);
                    assert(times@ =~= Seq::<u64>::empty().push(now));
                    self.requests.insert(key.to_string(), times);
                }
                ok
            },
        }
    }

    /// Takes a request under a key now: it is `check_rate_limit_at` at the
    /// time the system clock reads (in milliseconds since the epoch).
    pub fn check_rate_limit(&mut self, key: &str) -> (ok: bool)
        requires
            old(self).wf(),
        ensures
            final(self).wf(),
            final(self).max_requests == old(self).max_requests,
            final(self).window_ms == old(self).window_ms,
            exists|now: u64| rate_limit_step(*old(self), *final(self), key@, now, ok),
    {
        let now = unix_millis_now();
        let ok = self.check_rate_limit_at(key, now);
        assert(rate_limit_step(*old(self), *self, key@, now, ok));
        ok
    }
}

/// One check of `operation` by `user_id` on a file of size `file_size` at
/// `now`, as `check_access_at` makes it: an operation that is not allowed is
/// refused and counts no request; an allowed one is taken by the rate limiter
/// under the user's key for it (`rate_limit_step`), and is refused when the
/// limiter refuses it, or when the file exceeds the size limit; otherwise
/// access is granted. The allowed operations and the limits do not change.
pub open spec fn access_step(
    before: FileAccessControl,
    after: FileAccessControl,
    operation: Seq<char>,
    user_id: Seq<char>,
    file_size: Option<u64>,
    now: u64,
    r: Result<(), AppError>,
) -> bool {
    &&& after.wf()
    &&& after.allowed_operations@ == before.allowed_operations@
    &&& after.max_file_size == before.max_file_size
    &&& after.max_total_operations == before.max_total_operations
    &&& if !string_views(before.allowed_operations@).contains(operation) {
        &&& r matches Err(AppError::FileError(m)) && m@ == "Operation '"@ + operation + "' is not allowed"@
        &&& after.rate_limiter == before.rate_limiter
    } else {
        let key = rate_key(user_id, operation);
        let kept = if before.rate_limiter.requests.map().contains_key(key) {
            recent_times(before.rate_limiter.requests.map()[key]@, now, before.rate_limiter.window_ms)
        } else {
            Seq::empty()
        };
        let accepted = kept.len() < before.rate_limiter.max_requests;
        &&& rate_limit_step(before.rate_limiter, after.rate_limiter, key, now, accepted)
        &&& if !accepted {
            r matches Err(AppError::FileError(m)) && m@ == "Rate limit exceeded for operation '"@ + operation + "'"@
        } else if file_size matches Some(s) && s > before.max_file_size {
            r matches Err(AppError::FileError(m)) && m@ == "File size "@ + decimal_seq(file_size->0 as nat) + " exceeds maximum allowed size"@
        } else {
            r is Ok
        }
    }
}

/// File access control and rate limiting.
#[derive(Debug, Clone)]
pub struct FileAccessControl {
    pub rate_limiter: RateLimiter,
    pub allowed_operations: Vec<String>,
    pub max_file_size: u64,
    pub max_total_operations: u32,
}

/// The operations allowed on files.
pub open spec fn allowed_operation_names() -> Seq<Seq<char>> {
    seq!["read"@, "write"@, "save"@, "load"@, "import"@, "export"@]
}

/// The key under which the requests of a user for an operation are counted.
pub open spec fn rate_key(user_id: Seq<char>, operation: Seq<char>) -> Seq<char> {
    user_id + "_"@ + operation
}

impl FileAccessControl {
    /// Well formed: the rate limiter keeps each key once.
    pub open spec fn wf(&self) -> bool {
        self.rate_limiter.wf()
    }

    /// Reading, writing, saving, loading, importing and exporting allowed, a
    /// hundred requests a minute per user and operation, files up to fifty
    /// mebibytes, a thousand operations in all.
    pub fn new() -> (c: Self)
        ensures
            c.wf(),
            c.rate_limiter.requests.entries@.len() == 0,
            c.rate_limiter.max_requests == 100,
            c.rate_limiter.window_ms == 60000,
            string_views(c.allowed_operations@) == allowed_operation_names(),
            c.max_file_size == 52428800,
            c.max_total_operations == 1000,
    {
        let mut ops: Vec<String> = Vec::new();
        ops.push("read".to_string());
        ops.push("write".to_string());
        ops.push("save".to_string());
        ops.push("load".to_string());
        ops.push("import".to_string());
        ops.push("export".to_string());
        assert(string_views(ops@) =~= allowed_operation_names());
        FileAccessControl {
            rate_limiter: RateLimiter::new(100, 60),
            allowed_operations: ops,
            max_file_size: 50 * 1024 * 1024,
            max_total_operations: 1000,
        }
    }

    /// Checks an operation of a user on a file of a known size (if it could
    /// be read) at `now`: the operation must be allowed, the request within
    /// the user's rate for it (the request is counted), and the file within
    /// the size limit. Each failure is a file error.
    pub fn check_access_at(&mut self, operation: &str, user_id: &str, file_size: Option<u64>, now: u64) -> (r: Result<(), AppError>)
        requires
            old(self).wf(),
        ensures
            access_step(*old(self), *final(self), operation@, user_id@, file_size, now, r),
    {
        if !list_contains(&self.allowed_operations, operation) {
            let mut v = chars_of("Operation '");
            push_str(&mut v, operation);
            push_str(&mut v, "' is not allowed");
            return Err(AppError::FileError(string_from_chars(&v)));
        }
        let mut k = chars_of(user_id);
        push_str(&mut k, "_");
        push_str(&mut k, operation);
        let key = string_from_chars(&k);
        if !self.rate_limiter.check_rate_limit_at(key.as_str(), now) {
            let mut v = chars_of("Rate limit exceeded for operation '");
            push_str(&mut v, operation);
            push_str(&mut v, "'");
            return Err(AppError::FileError(string_from_chars(&v)));
        }
        match file_size {
            Some(s) => {
                if s > self.max_file_size {
                    let mut v = chars_of("File size ");
                    push_decimal(&mut v, s);
                    push_str(&mut v, " exceeds maximum allowed size");
                    return Err(AppError::FileError(string_from_chars(&v)));
                }
            },
            None => {},
        }
        Ok(())
    }

    /// The audit line of an operation on a file (given as displayed): its
    /// outcome, operation, user, path and details.
    pub fn audit_log(&self, operation: &str, user_id: &str, path_display: &str, success: bool, details: Option<&str>) -> (r: String)
        ensures
            r@ == audit_line(operation@, user_id@, path_display@, success, match details {
                Some(d) => d@,
                None => Seq::empty(),
            }),
    {
        let mut v = chars_of("AUDIT: [");
        if success {
            push_str(&mut v, "SUCCESS");
        } else {
            push_str(&mut v, "FAILED");
        }
        push_str(&mut v, "] operation=");
        push_str(&mut v, operation);
        push_str(&mut v, ", user=");
        push_str(&mut v, user_id);
        push_str(&mut v, ", path=");
        push_str(&mut v, path_display);
        push_str(&mut v, ", details=");
        match details {
            Some(d) => push_str(&mut v, d),
            None => {},
        }
        assert(v@ =~= audit_line(operation@, user_id@, path_display@, success, match details {
            Some(d) => d@,
            None => Seq::empty(),
        }));
        string_from_chars(&v)
    }
}

/// The audit line of a file operation.
pub open spec fn audit_line(operation: Seq<char>, user_id: Seq<char>, path: Seq<char>, success: bool, details: Seq<char>) -> Seq<char> {
    "AUDIT: ["@ + (if success { "SUCCESS"@ } else { "FAILED"@ }) + "] operation="@ + operation + ", user="@ + user_id
        + ", path="@ + path + ", details="@ + details
}

/// Checks an operation of a user on a file of a known size, now, against an
/// access control: `check_access_at` at the time the system clock reads (in
/// milliseconds since the epoch).
pub fn check_file_access(control: &mut FileAccessControl, operation: &str, user_id: &str, file_size: Option<u64>) -> (r: Result<(), AppError>)
    requires
        old(control).wf(),
    ensures
        exists|now: u64| access_step(*old(control), *final(control), operation@, user_id@, file_size, now, r),
{
    let now = unix_millis_now();
    let r = control.check_access_at(operation, user_id, file_size, now);
    assert(access_step(*old(control), *control, operation@, user_id@, file_size, now, r));
    r
}

/// The audit line of a file operation (the caller writes it out).
pub fn log_file_operation(control: &FileAccessControl, operation: &str, user_id: &str, path_display: &str, success: bool, details: Option<&str>) -> (r: String)
    ensures
        r@ == audit_line(operation@, user_id@, path_display@, success, match details {
            Some(d) => d@,
            None => Seq::empty(),
        }),
{
    control.audit_log(operation, user_id, path_display, success, details)
}

} // verus!

verus! {

proof fn lemma_filter_again(s: Seq<u64>, p: spec_fn(u64) -> bool)
    ensures
        s.filter(p).filter(p) == s.filter(p),
    decreases s.len(),
{
    reveal(Seq::filter);
    if s.len() > 0 {
        lemma_filter_again(s.drop_last(), p);
        let sub = s.drop_last().filter(p);
        if p(s.last()) {
            assert(sub.push(s.last()).drop_last() =~= sub);
        }
    }
}

/// A request accepted at `now` stays in the window for later requests at
/// the same instant: cleaning the key's times again keeps every time kept
/// before and the new one.
pub proof fn law_accepted_request_counts(times: Seq<u64>, now: u64, window: u64)
    requires
        window > 0,
    ensures
        recent_times(recent_times(times, now, window).push(now), now, window)
            == recent_times(times, now, window).push(now),
        recent_times(recent_times(times, now, window), now, window) == recent_times(times, now, window),
{
    reveal(Seq::filter);
    let p = |t: u64| (if now >= t { now - t } else { 0 }) < window;
    let kept = times.filter(p);
    lemma_filter_again(times, p);
    assert(kept.push(now).drop_last() =~= kept);
    assert(kept.push(now).filter(p) == kept.filter(p).push(now));
}

} // verus!
