//! Rewriting the tracing target of a JSON log record so logs name the app.
//!
//! Tracing's `target:` is a compile-time callsite string, so a library cannot name the app at
//! the macro; a record written by the app's crate, or by this crate's own modules, is rewritten
//! to the app name before it reaches the log file.

use crate::text::{append_decimal, decimal};
use vstd::prelude::*;
use vstd::string::StringSliceAdditionalSpecFns;

verus! {

/// `"target":"`, the key that opens a record's target value.
pub open spec fn target_key() -> Seq<u8> {
    seq![34u8, 116u8, 97u8, 114u8, 103u8, 101u8, 116u8, 34u8, 58u8, 34u8]
}

/// `freddie_cli`, this crate's module prefix.
pub open spec fn freddie_cli() -> Seq<u8> {
    seq![102u8, 114u8, 101u8, 100u8, 100u8, 105u8, 101u8, 95u8, 99u8, 108u8, 105u8]
}

fn target_key_bytes() -> (r: Vec<u8>)
    ensures
        r@ == target_key(),
{
    let r = vec![34u8, 116u8, 97u8, 114u8, 103u8, 101u8, 116u8, 34u8, 58u8, 34u8];
    proof {
        assert(r@ =~= target_key());
    }
    r
}

fn freddie_cli_bytes() -> (r: Vec<u8>)
    ensures
        r@ == freddie_cli(),
{
    let r = vec![102u8, 114u8, 101u8, 100u8, 100u8, 105u8, 101u8, 95u8, 99u8, 108u8, 105u8];
    proof {
        assert(r@ =~= freddie_cli());
    }
    r
}


/// `pat` occurs in `line` at `i`.
pub open spec fn occurs_at(line: Seq<u8>, pat: Seq<u8>, i: int) -> bool {
    0 <= i && i + pat.len() <= line.len() && line.subrange(i, i + pat.len()) == pat
}

/// The first position at or after `from` where `pat` occurs.
pub open spec fn find_from(line: Seq<u8>, pat: Seq<u8>, from: int) -> Option<int>
    decreases line.len() + 1 - from,
{
    if from < 0 || from + pat.len() > line.len() {
        None
    } else if occurs_at(line, pat, from) {
        Some(from)
    } else {
        find_from(line, pat, from + 1)
    }
}

/// The first position at or after `from` holding `b`.
pub open spec fn find_byte(line: Seq<u8>, b: u8, from: int) -> Option<int>
    decreases line.len() - from,
{
    if from < 0 || from >= line.len() {
        None
    } else if line[from] == b {
        Some(from)
    } else {
        find_byte(line, b, from + 1)
    }
}

pub open spec fn starts_with(s: Seq<u8>, prefix: Seq<u8>) -> bool {
    prefix.len() <= s.len() && s.subrange(0, prefix.len() as int) == prefix
}

/// What may follow the app name in a target written by the app's crate: nothing, a module
/// path, or the rest of a crate name such as `_cli`.
pub open spec fn app_rest(rest: Seq<u8>) -> bool {
    rest.len() == 0 || (rest.len() >= 2 && rest[0] == 58u8 && rest[1] == 58u8) || (rest.len() >= 1 && rest[0] == 95u8)
}

/// What may follow `freddie_cli` in a target written by this crate: nothing, or a module path.
pub open spec fn cli_rest(rest: Seq<u8>) -> bool {
    rest.len() == 0 || (rest.len() >= 2 && rest[0] == 58u8 && rest[1] == 58u8)
}

/// How [`put_target`] rewrites a record's tracing target.
#[derive(Clone, Copy, PartialEq, Eq, Structural, Debug)]
pub enum RecordTarget {
    /// App crate module path (`isograph_cli`, `figaro::daemon`): the whole value becomes the app name.
    AppCrate,
    /// This crate's module path (`freddie_cli::client`): `freddie_cli` becomes the app name and the module stays.
    FreddieCli,
    /// An explicit `target:` or a foreign crate.
    Other,
}

pub open spec fn classify(current: Seq<u8>, app: Seq<u8>) -> RecordTarget {
    if starts_with(current, app) && app_rest(current.subrange(app.len() as int, current.len() as int)) {
        RecordTarget::AppCrate
    } else if starts_with(current, freddie_cli()) && cli_rest(current.subrange(11, current.len() as int)) {
        RecordTarget::FreddieCli
    } else {
        RecordTarget::Other
    }
}

/// The record `line` with its target rewritten for `app`. A record with no target key, or
/// whose target value is not closed, is left as it is.
pub open spec fn retarget(line: Seq<u8>, app: Seq<u8>) -> Seq<u8> {
    match find_from(line, target_key(), 0) {
        None => line,
        Some(key_at) => {
            let n = line.len();
    let value_at = key_at + 10;
            match find_byte(line, 34u8, value_at) {
                None => line,
                Some(end) => match classify(line.subrange(value_at, end), app) {
                    RecordTarget::AppCrate => line.subrange(0, value_at) + app + line.subrange(end, line.len() as int),
                    RecordTarget::FreddieCli => line.subrange(0, value_at) + app + line.subrange(value_at + 11, line.len() as int),
                    RecordTarget::Other => line,
                },
            }
        },
    }
}

fn occurs(line: &[u8], pat: &[u8], at: usize) -> (r: bool)
    requires
        at + pat@.len() <= line@.len(),
    ensures
        r == occurs_at(line@, pat@, at as int),
{
    let plen = pat.len();
    let llen = line.len();
    let mut j: usize = 0;
    while j < plen
        invariant
            plen == pat@.len(),
            llen == line@.len(),
            at + pat@.len() <= line@.len(),
            j <= pat@.len(),
            forall|k: int| 0 <= k < j ==> line@[at + k] == pat@[k],
        decreases pat@.len() - j,
    {
        if line[at + j] != pat[j] {
            proof {
                assert(line@.subrange(at as int, at + pat@.len())[j as int] != pat@[j as int]);
            }
            return false;
        }
        j = j + 1;
    }
    proof {
        assert(line@.subrange(at as int, at + pat@.len()) =~= pat@);
    }
    true
}

fn find_pattern(line: &[u8], pat: &[u8]) -> (r: Option<usize>)
    ensures
        r matches Some(i) ==> find_from(line@, pat@, 0) == Some(i as int) && i + pat@.len() <= line@.len(),
        r is None ==> find_from(line@, pat@, 0) is None,
{
    let mut i: usize = 0;
    let plen = pat.len();
    let llen = line.len();
    if plen > llen {
        return None;
    }
    let last = llen - plen;
    loop
        invariant
            plen == pat@.len(),
            llen == line@.len(),
            last + plen == llen,
            i <= last,
            find_from(line@, pat@, 0) == find_from(line@, pat@, i as int),
        decreases last - i,
    {
        if occurs(line, pat, i) {
            return Some(i);
        }
        if i == last {
            return None;
        }
        i = i + 1;
    }
}

fn find_quote(line: &[u8], from: usize) -> (r: Option<usize>)
    ensures
        r matches Some(i) ==> find_byte(line@, 34u8, from as int) == Some(i as int) && from <= i < line@.len(),
        r is None ==> find_byte(line@, 34u8, from as int) is None,
{
    let mut i = from;
    while i < line.len()
        invariant
            from <= i,
            find_byte(line@, 34u8, from as int) == find_byte(line@, 34u8, i as int),
        decreases line@.len() - i,
    {
        if line[i] == 34u8 {
            return Some(i);
        }
        i = i + 1;
    }
    None
}

fn has_prefix(s: &[u8], prefix: &[u8]) -> (r: bool)
    ensures
        r == starts_with(s@, prefix@),
{
    if prefix.len() > s.len() {
        return false;
    }
    let r = occurs(s, prefix, 0);
    proof {
        assert(s@.subrange(0, prefix@.len() as int) =~= s@.subrange(0, 0 + prefix@.len() as int));
    }
    r
}

/// Which rewrite a target value `current` calls for.
pub fn record_target(current: &[u8], app: &str) -> (r: RecordTarget)
    ensures
        r == classify(current@, app.spec_bytes()),
{
    let a = app.as_bytes();
    if has_prefix(current, a) {
        let n = a.len();
        let rest_len = current.len() - n;
        let rest_ok = rest_len == 0 || (rest_len >= 2 && current[n] == 58u8 && current[n + 1] == 58u8)
            || (rest_len >= 1 && current[n] == 95u8);
        proof {
            let rest = current@.subrange(n as int, current@.len() as int);
            assert(rest.len() == rest_len);
            if rest_len >= 1 {
                assert(rest[0] == current@[n as int]);
            }
            if rest_len >= 2 {
                assert(rest[1] == current@[n + 1]);
            }
        }
        if rest_ok {
            return RecordTarget::AppCrate;
        }
    }
    let cli = freddie_cli_bytes();
    if has_prefix(current, cli.as_slice()) {
        let rest_len = current.len() - 11;
        let rest_ok = rest_len == 0 || (rest_len >= 2 && current[11] == 58u8 && current[12] == 58u8);
        proof {
            let rest = current@.subrange(11, current@.len() as int);
            if rest_len >= 2 {
                assert(rest[0] == current@[11]);
                assert(rest[1] == current@[12]);
            }
        }
        if rest_ok {
            return RecordTarget::FreddieCli;
        }
    }
    RecordTarget::Other
}

/// `line[start..end]` followed by `more`.
fn extend_from(out: &mut Vec<u8>, line: &[u8], start: usize, end: usize)
    requires
        start <= end <= line@.len(),
    ensures
        final(out)@ == old(out)@ + line@.subrange(start as int, end as int),
{
    let mut i = start;
    while i < end
        invariant
            start <= i <= end <= line@.len(),
            out@ == old(out)@ + line@.subrange(start as int, i as int),
        decreases end - i,
    {
        out.push(line[i]);
        i = i + 1;
        proof {
            assert(out@ =~= old(out)@ + line@.subrange(start as int, i as int));
        }
    }
}

/// Rewrite a crate module path in a JSON record's `target` so logs and filters name the app.
pub fn put_target(line: &mut Vec<u8>, app: &str)
    ensures
        final(line)@ == retarget(old(line)@, app.spec_bytes()),
{
    let key = target_key_bytes();
    let key_at = match find_pattern(line.as_slice(), key.as_slice()) {
        Some(k) => k,
        None => return,
    };
    let n = line.len();
    let value_at = key_at + 10;
    let end = match find_quote(line.as_slice(), value_at) {
        Some(q) => q,
        None => return,
    };
    let mut current: Vec<u8> = Vec::new();
    extend_from(&mut current, line.as_slice(), value_at, end);
    let a = app.as_bytes();
    match record_target(current.as_slice(), app) {
        RecordTarget::AppCrate => {
            let mut out: Vec<u8> = Vec::new();
            extend_from(&mut out, line.as_slice(), 0, value_at);
            extend_from(&mut out, a, 0, a.len());
            extend_from(&mut out, line.as_slice(), end, line.len());
            proof {
                assert(a@.subrange(0, a@.len() as int) =~= a@);
            }
            *line = out;
        },
        RecordTarget::FreddieCli => {
            let mut out: Vec<u8> = Vec::new();
            extend_from(&mut out, line.as_slice(), 0, value_at);
            extend_from(&mut out, a, 0, a.len());
            extend_from(&mut out, line.as_slice(), value_at + 11, line.len());
            proof {
                assert(a@.subrange(0, a@.len() as int) =~= a@);
            }
            *line = out;
        },
        RecordTarget::Other => {},
    }
}

/// `{"pid":N,`: the stamp spliced in front of a record whose own opening brace is stripped.
pub open spec fn pid_stamp_text(pid: u32) -> Seq<char> {
    "{\"pid\":"@ + decimal(pid as nat) + ","@
}

pub fn pid_stamp(pid: u32) -> (r: String)
    ensures
        r@ == pid_stamp_text(pid),
{
    let mut out = String::from_str("{\"pid\":");
    append_decimal(&mut out, pid as u64);
    out.append(",");
    out
}

/// What is written for `record`: a JSON object gets `stamp` in place of its opening brace and
/// its target rewritten for `app`; anything else is written through untouched.
pub open spec fn stamped(record: Seq<u8>, stamp: Seq<u8>, app: Seq<u8>) -> Seq<u8> {
    if record.len() > 0 && record[0] == 123u8 {
        retarget(stamp + record.subrange(1, record.len() as int), app)
    } else {
        record
    }
}

/// The line one record becomes, written with a single write so no other process can land
/// between the stamp and the record.
pub fn stamp_record(record: &[u8], stamp: &str, app: &str) -> (r: Vec<u8>)
    ensures
        r@ == stamped(record@, stamp.spec_bytes(), app.spec_bytes()),
{
    let mut line: Vec<u8> = Vec::new();
    if record.len() > 0 && record[0] == 123u8 {
        let s = stamp.as_bytes();
        extend_from(&mut line, s, 0, s.len());
        extend_from(&mut line, record, 1, record.len());
        proof {
            assert(s@.subrange(0, s@.len() as int) =~= s@);
            assert(line@ =~= stamp.spec_bytes() + record@.subrange(1, record@.len() as int));
        }
        put_target(&mut line, app);
    } else {
        extend_from(&mut line, record, 0, record.len());
        proof {
            assert(line@ =~= record@);
        }
    }
    line
}

} // verus!
