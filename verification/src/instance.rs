//! One process at a time, per app: who holds the lock, and what went wrong taking it.

use crate::text::decimal;
use std::path::PathBuf;
use vstd::prelude::*;
use vstd::std_specs::iter::IteratorSpec;

verus! {

#[verifier::external_type_specification]
#[verifier::external_body]
pub struct ExPathBuf(PathBuf);

#[verifier::external_type_specification]
#[verifier::external_body]
pub struct ExIoError(std::io::Error);

/// How `Path::display` writes `path`: a function of the path alone, by the rules of the platform
/// the library is built for.
pub uninterp spec fn displayed(path: PathBuf) -> Seq<char>;

/// Calls `Path::display` through `format!`: the path as text, as [`displayed`] names it.
#[verifier::external_body]
fn path_text(path: &PathBuf) -> (r: String)
    ensures
        r@ == displayed(*path),
{
    format!("{}", path.display())
}

/// Calls `<std::io::Error as Display>::fmt` through `format!`: the OS's description. Nothing
/// is claimed of it: the text comes from the OS.
#[verifier::external_body]
pub(crate) fn io_error_text(e: &std::io::Error) -> (r: String) {
    format!("{e}")
}

/// A process id.
#[derive(Debug, Clone, Copy, PartialEq, Eq, Structural)]
pub struct Pid(pub u32);

/// Who holds a lock, at the moment of asking.
#[derive(Debug, Clone, Copy, PartialEq, Eq, Structural)]
pub enum Held {
    /// Nobody. Whatever the file contains belongs to a run that has ended.
    Free,
    /// A live process, which recorded which one it is.
    By(Pid),
    /// A live process that has taken the lock and not yet written its pid.
    Unnamed,
}

/// The lock could not be taken.
#[derive(Debug)]
pub enum LockError {
    /// Another instance holds it.
    AlreadyRunning(PathBuf),
    /// The environment names no per-user directory to keep the lock file in.
    NoStateDir,
    /// The lock file could not be created, opened, or locked.
    Unavailable(std::io::Error),
}

impl LockError {
    /// What the error says to a person. The path and the OS error are the platform's own text.
    pub fn message(&self) -> (r: String)
        ensures
            self is NoStateDir ==> r@ == "no per-user directory to keep the lock file in; is HOME set?"@,
            self matches LockError::AlreadyRunning(path) ==> r@ == "another instance is already running (it holds "@
                + displayed(*path) + ")"@,
            self is Unavailable ==> "could not take the single-instance lock: "@.is_prefix_of(r@),
    {
        match self {
            LockError::AlreadyRunning(path) => {
                let mut out = String::from_str("another instance is already running (it holds ");
                out.append(&path_text(path));
                out.append(")");
                out
            },
            LockError::NoStateDir => String::from_str(
                "no per-user directory to keep the lock file in; is HOME set?",
            ),
            LockError::Unavailable(e) => {
                let mut out = String::from_str("could not take the single-instance lock: ");
                out.append(&io_error_text(e));
                proof {
                    assert(("could not take the single-instance lock: "@).is_prefix_of(out@));
                }
                out
            },
        }
    }
}

impl Pid {
    /// The pid in decimal, as it is recorded in the pid file.
    pub open spec fn readable(self) -> Seq<char> {
        decimal(self.0 as nat)
    }

    pub fn to_text(self) -> (r: String)
        ensures
            r@ == self.readable(),
    {
        let mut out = String::new();
        crate::text::append_decimal(&mut out, self.0 as u64);
        proof {
            assert(out@ =~= self.readable());
        }
        out
    }
}

/// The name of `app`'s lock file inside its state directory: the app's name with `.lock`.
pub fn lock_file_name(app: &str) -> (r: String)
    ensures
        r@ == app@ + ".lock"@,
{
    let mut out = String::from_str(app);
    out.append(".lock");
    out
}

/// Who holds a lock, from the answer of a shared probe and, when the probe was refused, the pid
/// that the holder recorded. A granted probe proves nobody holds it; a refusal is a live holder,
/// named when it recorded its pid; any other failure passes through.
pub fn held_after_probe(probe: Result<(), LockError>, recorded: Option<Pid>) -> (r: Result<Held, LockError>)
    ensures
        match probe {
            Ok(()) => r == Ok::<Held, LockError>(Held::Free),
            Err(LockError::AlreadyRunning(_)) => r == Ok::<Held, LockError>(
                match recorded {
                    Some(pid) => Held::By(pid),
                    None => Held::Unnamed,
                },
            ),
            Err(e) => r == Err::<Held, LockError>(e),
        },
{
    match probe {
        Ok(()) => Ok(Held::Free),
        Err(LockError::AlreadyRunning(_)) => match recorded {
            Some(pid) => Ok(Held::By(pid)),
            None => Ok(Held::Unnamed),
        },
        Err(e) => Err(e),
    }
}

/// What a daemon's [`Instance`] records: the texts it was named with, and where its files go.
pub ghost struct InstanceView {
    pub slug: Seq<char>,
    pub display_name: Seq<char>,
    pub tracing_target: Seq<char>,
    pub log_file_name: Seq<char>,
    pub lock_file: PathBuf,
    pub log_dir: PathBuf,
}

/// The name of a daemon's log file: its slug with `.log`.
pub open spec fn log_file_name_for(slug: Seq<char>) -> Seq<char> {
    slug + ".log"@
}

/// One daemon: `slug` names its lock and log files; `display_name` is what the person typed.
#[derive(Debug)]
pub struct Instance {
    slug: String,
    display_name: String,
    tracing_target: String,
    lock_file: PathBuf,
    log_dir: PathBuf,
    log_file_name: String,
}

impl View for Instance {
    type V = InstanceView;

    closed spec fn view(&self) -> InstanceView {
        InstanceView {
            slug: self.slug@,
            display_name: self.display_name@,
            tracing_target: self.tracing_target@,
            log_file_name: self.log_file_name@,
            lock_file: self.lock_file,
            log_dir: self.log_dir,
        }
    }
}

/// What `Path::join` makes of `dir` and `name`: a function of the two alone, by the rules of the
/// platform the library is built for.
pub uninterp spec fn joined(dir: PathBuf, name: Seq<char>) -> PathBuf;

/// Calls `Path::join`: `dir` with `name` adjoined, as [`joined`] names it.
#[verifier::external_body]
fn path_join(dir: &PathBuf, name: &str) -> (r: PathBuf)
    ensures
        r == joined(*dir, name@),
{
    dir.join(name)
}

impl Instance {
    /// The daemon `slug` of `app`, shown as `display_name`, whose lock is `lock_file` and whose
    /// log goes in `log_dir`. Its log file is named for the slug, and its records carry the
    /// app's name as their target.
    pub fn with_paths(app: &str, slug: String, display_name: String, lock_file: PathBuf, log_dir: PathBuf) -> (r: Self)
        ensures
            r@ == (InstanceView {
                slug: slug@,
                display_name: display_name@,
                tracing_target: app@,
                log_file_name: log_file_name_for(slug@),
                lock_file,
                log_dir,
            }),
    {
        let mut log_file_name = slug.clone();
        log_file_name.append(".log");
        Instance {
            slug,
            display_name,
            tracing_target: String::from_str(app),
            lock_file,
            log_dir,
            log_file_name,
        }
    }

    /// The file whose exclusive lock is this daemon's claim to being the only one of itself.
    pub fn lock_file(&self) -> (r: &PathBuf)
        ensures
            *r == self@.lock_file,
    {
        &self.lock_file
    }

    /// The directory this daemon's log goes in, one per app.
    pub fn log_dir(&self) -> (r: &PathBuf)
        ensures
            *r == self@.log_dir,
    {
        &self.log_dir
    }

    /// The name of this daemon's log file, one per daemon.
    pub fn log_file_name(&self) -> (r: &str)
        ensures
            r@ == self@.log_file_name,
    {
        self.log_file_name.as_str()
    }

    /// `log_dir` joined with `log_file_name`.
    pub fn log_file(&self) -> (r: PathBuf)
        ensures
            r == joined(self@.log_dir, self@.log_file_name),
    {
        path_join(&self.log_dir, self.log_file_name.as_str())
    }

    /// What a verb calls this daemon when it says something about it.
    pub fn display_name(&self) -> (r: &str)
        ensures
            r@ == self@.display_name,
    {
        self.display_name.as_str()
    }

    /// The tracing target written into this daemon's log records.
    pub fn tracing_target(&self) -> (r: &str)
        ensures
            r@ == self@.tracing_target,
    {
        self.tracing_target.as_str()
    }

    /// Use `target` as the tracing target instead of the app name.
    pub fn with_tracing_target(self, target: String) -> (r: Self)
        ensures
            r@ == (InstanceView { tracing_target: target@, ..self@ }),
    {
        Instance { tracing_target: target, ..self }
    }

    /// What this daemon's files are keyed to.
    pub fn slug(&self) -> (r: &str)
        ensures
            r@ == self@.slug,
    {
        self.slug.as_str()
    }
}

/// Two daemons with different slugs keep different log files: the log file's name gives back
/// the slug it was made from.
pub proof fn law_distinct_slugs_name_distinct_logs(a: Seq<char>, b: Seq<char>)
    requires
        a != b,
    ensures
        log_file_name_for(a) != log_file_name_for(b),
{
    let suffix: Seq<char> = ".log"@;
    if a + suffix == b + suffix {
        assert((a + suffix).len() == a.len() + suffix.len());
        assert((b + suffix).len() == b.len() + suffix.len());
        assert(a =~= (a + suffix).subrange(0, a.len() as int));
        assert(b =~= (b + suffix).subrange(0, b.len() as int));
    }
}

/// The environment names no per-user directory for this daemon's lock and log.
#[derive(Debug)]
pub struct NoUserDir;

impl NoUserDir {
    pub fn message(&self) -> (r: &'static str)
        ensures
            r@ == "no per-user directory to keep the lock and the log in; is HOME set?"@,
    {
        "no per-user directory to keep the lock and the log in; is HOME set?"
    }
}

/// Empty command-line args: no id flags, or no extra daemon flags.
#[derive(Debug)]
pub struct NoArgs;

/// Foregrounding an app failed.
#[derive(Debug)]
pub enum NavError {
    /// `open` could not be spawned at all.
    Spawn(std::io::Error),
    /// `open` ran but reported failure (the app is missing, or activation was refused).
    Failed,
}

impl NavError {
    pub fn message(&self) -> (r: String)
        ensures
            self is Failed ==> r@ == "`open` reported failure (app missing or activation refused)"@,
            self is Spawn ==> "could not run `open`: "@.is_prefix_of(r@),
    {
        match self {
            NavError::Spawn(e) => {
                let mut out = String::from_str("could not run `open`: ");
                out.append(&io_error_text(e));
                proof {
                    assert(("could not run `open`: "@).is_prefix_of(out@));
                }
                out
            },
            NavError::Failed => String::from_str("`open` reported failure (app missing or activation refused)"),
        }
    }
}

/// What foregrounding an app reports once `open` has run: success iff `open` exited with
/// success.
pub fn open_outcome(succeeded: bool) -> (r: Result<(), NavError>)
    ensures
        succeeded ==> r is Ok,
        !succeeded ==> r matches Err(NavError::Failed),
{
    if succeeded {
        Ok(())
    } else {
        Err(NavError::Failed)
    }
}


/// Whether `c` has Unicode's `White_Space` property, the whitespace `str::trim` removes.
pub open spec fn is_white_space(c: char) -> bool {
    let n = c as u32;
    ||| 0x09 <= n <= 0x0d
    ||| n == 0x20
    ||| n == 0x85
    ||| n == 0xa0
    ||| n == 0x1680
    ||| 0x2000 <= n <= 0x200a
    ||| n == 0x2028
    ||| n == 0x2029
    ||| n == 0x202f
    ||| n == 0x205f
    ||| n == 0x3000
}

/// `s` without its leading whitespace.
pub open spec fn trim_start(s: Seq<char>) -> Seq<char>
    decreases s.len(),
{
    if s.len() > 0 && is_white_space(s[0]) {
        trim_start(s.drop_first())
    } else {
        s
    }
}

/// `s` without its trailing whitespace.
pub open spec fn trim_end(s: Seq<char>) -> Seq<char>
    decreases s.len(),
{
    if s.len() > 0 && is_white_space(s.last()) {
        trim_end(s.drop_last())
    } else {
        s
    }
}

/// `s` without whitespace at either end.
pub open spec fn trimmed(s: Seq<char>) -> Seq<char> {
    trim_end(trim_start(s))
}

/// Every character of `s` is an ASCII digit.
pub open spec fn all_digits(s: Seq<char>) -> bool {
    forall|i: int| 0 <= i < s.len() ==> '0' <= #[trigger] s[i] <= '9'
}

/// The number the ASCII digits `s` spell in decimal.
pub open spec fn digits_value(s: Seq<char>) -> nat
    decreases s.len(),
{
    if s.len() == 0 {
        0
    } else {
        digits_value(s.drop_last()) * 10 + ((s.last() as u32) - ('0' as u32)) as nat
    }
}

/// What parsing `s` as a `u32` gives: an optional `+`, then at least one decimal digit, and
/// nothing else, with a value that fits.
pub open spec fn parsed_u32(s: Seq<char>) -> Option<u32> {
    let digits = if s.len() > 0 && s[0] == '+' {
        s.drop_first()
    } else {
        s
    };
    if digits.len() > 0 && all_digits(digits) && digits_value(digits) <= u32::MAX {
        Some(digits_value(digits) as u32)
    } else {
        None
    }
}

/// The characters of `s`, in order.
fn chars_of(s: &str) -> (r: Vec<char>)
    ensures
        r@ == s@,
{
    broadcast use vstd::string::axiom_spec_iter, vstd::string::next_postcondition;

    let mut it = s.chars();
    let mut out: Vec<char> = Vec::new();
    loop
        invariant
            out@ + it.remaining() == s@,
            it.obeys_prophetic_iter_laws(),
        decreases s@.len() - out@.len(),
    {
        let ghost before = it.remaining();
        match it.next() {
            Some(c) => {
                out.push(c);
                assert(out@ + it.remaining() =~= s@) by {
                    assert(before =~= seq![c] + it.remaining());
                }
            },
            None => {
                assert(out@ =~= s@);
                return out;
            },
        }
    }
}

fn is_white_space_char(c: char) -> (r: bool)
    ensures
        r == is_white_space(c),
{
    let n: u32 = c as u32;
    (0x09 <= n && n <= 0x0d) || n == 0x20 || n == 0x85 || n == 0xa0 || n == 0x1680 || (0x2000 <= n
        && n <= 0x200a) || n == 0x2028 || n == 0x2029 || n == 0x202f || n == 0x205f || n == 0x3000
}

/// The pid a pid file records: its text with whitespace trimmed from both ends, read as a
/// decimal `u32`; `None` when that is not a number that fits.
pub fn recorded_pid(text: &str) -> (r: Option<Pid>)
    ensures
        r == (match parsed_u32(trimmed(text@)) {
            Some(n) => Some(Pid(n)),
            None => None::<Pid>,
        }),
{
    let v = chars_of(text);
    let n: usize = v.len();
    let mut start: usize = 0;
    assert(v@.subrange(0, n as int) =~= v@);
    while start < n && is_white_space_char(v[start])
        invariant
            n == v@.len(),
            start <= n,
            trim_start(v@) == trim_start(v@.subrange(start as int, n as int)),
        decreases n - start,
    {
        assert(v@.subrange(start as int, n as int).drop_first() =~= v@.subrange(start + 1, n as int));
        start = start + 1;
    }
    let ghost front = v@.subrange(start as int, n as int);
    assert(trim_start(v@) == front);
    let mut end: usize = n;
    while end > start && is_white_space_char(v[end - 1])
        invariant
            n == v@.len(),
            start <= end <= n,
            front == v@.subrange(start as int, n as int),
            trim_end(front) == trim_end(v@.subrange(start as int, end as int)),
        decreases end,
    {
        assert(v@.subrange(start as int, end as int).drop_last() =~= v@.subrange(start as int, end - 1));
        end = end - 1;
    }
    let ghost t = v@.subrange(start as int, end as int);
    assert(trimmed(text@) == t);
    let mut i: usize = start;
    if i < end && v[i] == '+' {
        i = i + 1;
    }
    let ghost digits = v@.subrange(i as int, end as int);
    assert(digits == (if t.len() > 0 && t[0] == '+' { t.drop_first() } else { t }));
    if i == end {
        assert(digits.len() == 0);
        return None;
    }
    let first: usize = i;
    let mut value: u64 = 0;
    let mut over: bool = false;
    while i < end
        invariant
            n == v@.len(),
            first <= i <= end <= n,
            digits == v@.subrange(first as int, end as int),
            trimmed(text@) == t,
            digits == (if t.len() > 0 && t[0] == '+' { t.drop_first() } else { t }),
            digits.len() > 0,
            all_digits(v@.subrange(first as int, i as int)),
            !over ==> value == digits_value(v@.subrange(first as int, i as int)) && value <= u32::MAX,
            over ==> digits_value(v@.subrange(first as int, i as int)) > u32::MAX,
        decreases end - i,
    {
        let c = v[i];
        if !('0' <= c && c <= '9') {
            assert(!all_digits(digits)) by {
                assert(digits[i - first] == c);
            }
            return None;
        }
        let d: u64 = (c as u32 - '0' as u32) as u64;
        let ghost before = v@.subrange(first as int, i as int);
        assert(v@.subrange(first as int, i + 1).drop_last() =~= before);
        if !over {
            let next: u64 = value * 10 + d;
            if next > u32::MAX as u64 {
                over = true;
            } else {
                value = next;
            }
        }
        i = i + 1;
    }
    assert(v@.subrange(first as int, end as int) =~= digits);
    if over {
        None
    } else {
        Some(Pid(value as u32))
    }
}

} // verus!
