//! Per-subdomain lock files that tell which tunnels run on this machine.
//!
//! `~/.dodev/tunnels/<subdomain>.lock` holds the process id of the tunnel as plain text. A lock
//! whose process is gone, or whose text is no process id, is removed and counts as free.

use crate::config::Location;
use crate::text::{
    decimal, decimal_reads_back, parse_i32, push_decimal, spelled_i32, texts, trim, trimmed,
};
use vstd::prelude::*;

verus! {

/// The directory of the lock files.
pub fn tunnels_dir<P>(home: Option<P>) -> (r: Option<Location<P>>)
    ensures
        r is Some == home is Some,
        home matches Some(h) ==> r->Some_0.base == h && texts(r->Some_0.names@)
            == seq![".dodev"@, "tunnels"@],
{
    match home {
        Some(base) => {
            let mut names: Vec<String> = Vec::new();
            names.push(".dodev".to_owned());
            names.push("tunnels".to_owned());
            assert(texts(names@) =~= seq![".dodev"@, "tunnels"@]);
            Some(Location { base, names })
        },
        None => None,
    }
}

/// The name of a subdomain's lock file.
pub open spec fn lock_name(subdomain: Seq<char>) -> Seq<char> {
    subdomain + ".lock"@
}

/// The lock file of a subdomain.
pub fn lock_path<P>(home: Option<P>, subdomain: &str) -> (r: Option<Location<P>>)
    ensures
        r is Some == home is Some,
        home matches Some(h) ==> r->Some_0.base == h && texts(r->Some_0.names@)
            == seq![".dodev"@, "tunnels"@, lock_name(subdomain@)],
{
    match tunnels_dir(home) {
        Some(dir) => {
            let mut names = dir.names;
            let ghost before = texts(names@);
            let mut file = subdomain.to_owned();
            file.append(".lock");
            names.push(file);
            assert(texts(names@) =~= before.push(subdomain@ + ".lock"@));
            assert(texts(names@) =~= seq![".dodev"@, "tunnels"@, subdomain@ + ".lock"@]);
            Some(Location { base: dir.base, names })
        },
        None => None,
    }
}

/// Lock files of different subdomains have different names.
pub proof fn lock_names_are_distinct(a: Seq<char>, b: Seq<char>)
    requires
        lock_name(a) == lock_name(b),
    ensures
        a == b,
{
    let n = ".lock"@.len();
    assert((a + ".lock"@).len() == a.len() + n);
    assert((b + ".lock"@).len() == b.len() + n);
    assert((a + ".lock"@).take(a.len() as int) =~= a);
    assert((b + ".lock"@).take(b.len() as int) =~= b);
}

/// What a tunnel writes into its lock file: its process id and a line feed.
pub open spec fn lock_text(pid: u32) -> Seq<char> {
    decimal(pid as nat) + "\n"@
}

/// What a tunnel writes into its lock file.
pub fn lock_content(pid: u32) -> (r: String)
    ensures
        r@ == lock_text(pid),
{
    let mut out = String::new();
    push_decimal(&mut out, pid as u64);
    out.append("\n");
    assert(out@ =~= lock_text(pid));
    out
}

/// What a look into a lock file tells.
#[derive(Debug, PartialEq, Eq, Structural)]
pub enum LockCheck {
    /// There is no lock.
    Free,
    /// The lock is garbled: remove it, the subdomain is free.
    Garbled,
    /// The lock names a process, which may be alive.
    Probe(i32),
}

/// What the content of a lock file tells.
pub open spec fn lock_check_of(content: Option<Seq<char>>) -> LockCheck {
    match content {
        None => LockCheck::Free,
        Some(text) => match spelled_i32(trimmed(text)) {
            Some(pid) => LockCheck::Probe(pid),
            None => LockCheck::Garbled,
        },
    }
}

/// Looks into a lock file. There is no content if the file could not be found or read.
pub fn check_lock(content: Option<&str>) -> (r: LockCheck)
    ensures
        r == lock_check_of(
            match content {
                Some(s) => Some(s@),
                None => None,
            },
        ),
{
    match content {
        None => LockCheck::Free,
        Some(text) => match parse_i32(trim(text)) {
            Some(pid) => LockCheck::Probe(pid),
            None => LockCheck::Garbled,
        },
    }
}

/// The error number for a process that does not exist.
pub const ESRCH: i32 = 3;

/// Whether a process exists, as a probe tells.
pub open spec fn exists_by_probe(result: i32, errno: i32) -> bool {
    result == 0 || errno != ESRCH
}

/// Whether a process exists, given what sending it the signal 0 returned and the error number that
/// it left. Only the error for a missing process tells that there is none: a process of another
/// user cannot be signalled, but it is alive.
pub fn process_exists(result: i32, errno: i32) -> (r: bool)
    ensures
        r == exists_by_probe(result, errno),
{
    result == 0 || errno != ESRCH
}

/// Whether a subdomain is in use, and whether its lock file has to be removed.
#[derive(Debug, PartialEq, Eq, Structural)]
pub struct LockVerdict {
    pub in_use: bool,
    pub remove: bool,
}

/// Whether a subdomain is in use, and whether its lock file has to be removed, given what the file
/// tells and whether its process is alive.
pub open spec fn verdict_of(check: LockCheck, alive: bool) -> LockVerdict {
    LockVerdict {
        in_use: check is Probe && alive,
        remove: check is Garbled || (check is Probe && !alive),
    }
}

/// Whether the subdomain has an active lock file owned by a live process. `alive` is the answer
/// to the probe, and counts only if there was one.
pub fn is_in_use(check: LockCheck, alive: bool) -> (r: LockVerdict)
    ensures
        r == verdict_of(check, alive),
{
    match check {
        LockCheck::Free => LockVerdict { in_use: false, remove: false },
        LockCheck::Garbled => LockVerdict { in_use: false, remove: true },
        LockCheck::Probe(_) => LockVerdict { in_use: alive, remove: !alive },
    }
}

/// A lock that a tunnel wrote leads to a probe of that tunnel's process.
pub proof fn lock_names_its_process(pid: u32)
    requires
        pid <= i32::MAX,
    ensures
        lock_check_of(Some(lock_text(pid))) == LockCheck::Probe(pid as i32),
{
    reveal_strlit("\n");
    let d = decimal(pid as nat);
    let text = lock_text(pid);
    decimal_reads_back(pid as nat);
    lemma_decimal_has_no_space(pid as nat);
    assert(!crate::text::is_space(d.first()));
    assert(text.first() == d.first());
    assert(text.last() == '\n');
    assert(text.drop_last() =~= d);
    assert(trimmed(d) == d);
}

proof fn lemma_decimal_has_no_space(n: nat)
    ensures
        decimal(n).len() > 0,
        forall|i: int|
            0 <= i < decimal(n).len() ==> !crate::text::is_space(#[trigger] decimal(n)[i]),
    decreases n,
{
    if n >= 10 {
        lemma_decimal_has_no_space(n / 10);
    }
}

/// The step of taking a lock that failed.
#[derive(Debug, PartialEq, Eq, Structural)]
pub enum LockStep {
    /// Creating the directory or the file.
    Create,
    /// Writing the process id.
    Write,
}

/// A subdomain that this process claims. Whoever holds it removes the file in the end.
#[derive(Debug)]
pub struct TunnelLock<P> {
    path: P,
}

impl<P> TunnelLock<P> {
    /// The lock file, as a spec.
    pub closed spec fn file(&self) -> P {
        self.path
    }

    /// The lock file.
    pub fn path(&self) -> (r: &P)
        ensures
            *r == self.file(),
    {
        &self.path
    }
}

/// What a lock that could not be taken is reported as.
pub open spec fn acquire_error(step: LockStep, path: Seq<char>, e: Seq<char>) -> Seq<char> {
    (match step {
        LockStep::Create => "create "@,
        LockStep::Write => "write "@,
    }) + path + ": "@ + e
}

/// Claim a subdomain, given its lock file, if there is a home directory for one, and the step of
/// writing it that failed, if one did, with the path and the error. Callers treat an error as a
/// soft one: the tunnel works without a lock, it just cannot be tracked.
pub fn acquire<P>(path: Option<P>, failed: Option<(LockStep, &str, &str)>) -> (r: Result<
    TunnelLock<P>,
    String,
>)
    ensures
        match (path, failed) {
            (None, _) => r matches Err(e) && e@ == "no home dir"@,
            (Some(_), Some((step, at, error))) => r matches Err(e) && e@ == acquire_error(
                step,
                at@,
                error@,
            ),
            (Some(p), None) => r matches Ok(lock) && lock.file() == p,
        },
{
    let path = match path {
        Some(p) => p,
        None => {
            return Err("no home dir".to_owned());
        },
    };
    match failed {
        None => Ok(TunnelLock { path }),
        Some((step, at, error)) => {
            let mut out = match step {
                LockStep::Create => "create ".to_owned(),
                LockStep::Write => "write ".to_owned(),
            };
            out.append(at);
            out.append(": ");
            out.append(error);
            Err(out)
        },
    }
}

} // verus!
