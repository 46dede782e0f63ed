//! When a lost tunnel is connected again, how long to wait, and when to give up.

use crate::display::is_narrated;
use crate::tunnel::{connect_error_of, TunnelError, TunnelErrorModel};
use vstd::arithmetic::power2::{lemma2_to64, lemma_pow2_strictly_increases, pow2};
use vstd::prelude::*;

verus! {

/// How many times in a row a connection is tried again.
pub const MAX_RECONNECT_ATTEMPTS: u32 = 20;

/// The longest wait between two tries, in seconds, before jitter.
pub const MAX_BACKOFF_SECS: u64 = 30;

/// How to tell the user that the tunnel is up.
#[derive(Debug, Clone, Copy, PartialEq, Eq, Structural)]
pub enum Banner {
    /// The full banner: on the first connection, and after sustained trouble.
    Full,
    /// One quiet line: after a routine reconnect.
    Quiet,
}

/// The banner after `attempts` failed tries in a row.
pub open spec fn banner_of(attempts: nat) -> Banner {
    if attempts == 0 || attempts >= 3 {
        Banner::Full
    } else {
        Banner::Quiet
    }
}

/// After lost connections, the full banner comes back exactly if the user was told about them.
pub proof fn banner_follows_narration(attempts: nat)
    requires
        attempts > 0,
    ensures
        banner_of(attempts) is Full <==> is_narrated(attempts),
{
}

/// What to do after a connection ended.
#[derive(Debug)]
pub enum Next {
    /// The server closed the tunnel: done.
    Finished,
    /// Trying again cannot help.
    Fail(TunnelError),
    /// Too many tries in a row failed.
    GaveUp(TunnelError),
    /// Wait, then connect again. `attempt` counts the tries in a row, `noisy` tells that there
    /// were so many that the log should warn, and `reason` is the error.
    Retry { attempt: u32, noisy: bool, reason: TunnelError },
}

/// Whether an error may go away by itself. Rejected credentials and exhausted quotas do not.
pub open spec fn is_retryable(e: TunnelErrorModel) -> bool {
    !(e is AuthFailed) && !(e is QuotaExceeded)
}

/// A connection that the relay refuses for its credentials or its quota is not tried again; one
/// that fails in any other way is.
pub proof fn refusals_are_final(status: Option<u16>, body: Option<Seq<char>>, text: Seq<char>)
    ensures
        is_retryable(connect_error_of(status, body, text)) <==> status != Some(401u16) && status
            != Some(429u16),
{
}

/// The seconds to wait before try number `attempt`: doubling from one second up to the limit.
pub open spec fn backoff_secs(attempt: nat) -> nat
    recommends
        attempt > 0,
{
    if pow2((attempt - 1) as nat) < MAX_BACKOFF_SECS {
        pow2((attempt - 1) as nat)
    } else {
        MAX_BACKOFF_SECS as nat
    }
}

/// The milliseconds to wait before try number `attempt`.
pub open spec fn delay_ms(attempt: nat, jitter_ms: nat) -> nat {
    backoff_secs(attempt) * 1000 + jitter_ms
}

/// The milliseconds to wait before a try, with up to a second of jitter.
pub fn retry_delay_ms(attempt: u32, jitter_ms: u64) -> (r: u64)
    requires
        attempt > 0,
        jitter_ms < 1000,
    ensures
        r == delay_ms(attempt as nat, jitter_ms as nat),
{
    proof {
        lemma2_to64();
        if attempt > 6 {
            lemma_pow2_strictly_increases(5, (attempt - 1) as nat);
        }
    }
    let secs: u64 = if attempt == 1 {
        1
    } else if attempt == 2 {
        2
    } else if attempt == 3 {
        4
    } else if attempt == 4 {
        8
    } else if attempt == 5 {
        16
    } else {
        MAX_BACKOFF_SECS
    };
    secs * 1000 + jitter_ms
}

/// The waits never get shorter from one try to the next, and stay between one second and the
/// limit.
pub proof fn waits_never_shrink(a: nat, b: nat)
    requires
        0 < a <= b,
    ensures
        1 <= backoff_secs(a) <= backoff_secs(b) <= MAX_BACKOFF_SECS,
{
    lemma2_to64();
    if a < b {
        lemma_pow2_strictly_increases((a - 1) as nat, (b - 1) as nat);
    }
    if a > 1 {
        lemma_pow2_strictly_increases(0, (a - 1) as nat);
    }
}

/// The number of failed tries in a row.
#[derive(Debug)]
pub struct Reconnect {
    attempts: u32,
}

impl View for Reconnect {
    type V = nat;

    closed spec fn view(&self) -> nat {
        self.attempts as nat
    }
}

/// The count after one more failed try, as long as another try is allowed.
pub open spec fn count_failure(attempts: nat) -> Option<nat> {
    if attempts < MAX_RECONNECT_ATTEMPTS {
        Some(attempts + 1)
    } else {
        None
    }
}

/// The count after `n` failed tries in a row, as long as each allowed another.
pub open spec fn count_failures(n: nat) -> Option<nat>
    decreases n,
{
    if n == 0 {
        Some(0)
    } else {
        match count_failures((n - 1) as nat) {
            Some(k) => count_failure(k),
            None => None,
        }
    }
}

/// From a fresh connection, exactly `MAX_RECONNECT_ATTEMPTS` failed tries in a row are followed
/// by another.
pub proof fn gives_up_after_the_limit(n: nat)
    ensures
        n <= MAX_RECONNECT_ATTEMPTS ==> count_failures(n) == Some(n),
        n > MAX_RECONNECT_ATTEMPTS ==> count_failures(n) is None,
    decreases n,
{
    if n > 0 {
        gives_up_after_the_limit((n - 1) as nat);
    }
}

/// Whether `next` is what to do after a connection ended, `before` and `after` being the failed
/// tries in a row.
pub open spec fn ends_with(
    before: nat,
    result: Result<(), TunnelError>,
    after: nat,
    next: Next,
) -> bool {
    match result {
        Ok(_) => next == Next::Finished && after == before,
        Err(e) => if !is_retryable(e@) {
            next == Next::Fail(e) && after == before
        } else {
            match count_failure(before) {
                None => next == Next::GaveUp(
                    TunnelError::MaxReconnectsExceeded(MAX_RECONNECT_ATTEMPTS),
                ) && after == before,
                Some(n) => after == n && next == (Next::Retry {
                    attempt: n as u32,
                    noisy: n > 3,
                    reason: e,
                }),
            }
        },
    }
}

impl Reconnect {
    #[verifier::type_invariant]
    spec fn within_limit(self) -> bool {
        self.attempts <= MAX_RECONNECT_ATTEMPTS
    }

    /// Before the first connection.
    pub fn new() -> (r: Self)
        ensures
            r@ == 0,
    {
        Reconnect { attempts: 0 }
    }

    /// The number of failed tries in a row.
    pub fn attempts(&self) -> (r: u32)
        ensures
            r == self@,
            r <= MAX_RECONNECT_ATTEMPTS,
    {
        proof {
            use_type_invariant(self);
        }
        self.attempts
    }

    /// A connection succeeded: the count starts afresh, so that a later loss starts with a short
    /// wait. Returns how to tell the user.
    pub fn connected(&mut self) -> (r: Banner)
        ensures
            final(self)@ == 0,
            r == banner_of(old(self)@),
    {
        let prior: u32 = self.attempts;
        self.attempts = 0;
        if prior == 0 {
            Banner::Full
        } else if prior < 3 {
            Banner::Quiet
        } else {
            Banner::Full
        }
    }

    /// A connection ended, or could not be made.
    pub fn ended(&mut self, result: Result<(), TunnelError>) -> (r: Next)
        ensures
            ends_with(old(self)@, result, final(self)@, r),
    {
        proof {
            use_type_invariant(&*self);
        }
        match result {
            Ok(_) => Next::Finished,
            Err(e) => match e {
                TunnelError::AuthFailed(reason) => Next::Fail(TunnelError::AuthFailed(reason)),
                TunnelError::QuotaExceeded(reason) => Next::Fail(
                    TunnelError::QuotaExceeded(reason),
                ),
                reason => {
                    if self.attempts >= MAX_RECONNECT_ATTEMPTS {
                        return Next::GaveUp(
                            TunnelError::MaxReconnectsExceeded(MAX_RECONNECT_ATTEMPTS),
                        );
                    }
                    let attempt: u32 = self.attempts + 1;
                    self.attempts = attempt;
                    Next::Retry { attempt, noisy: attempt > 3, reason }
                },
            },
        }
    }
}

} // verus!
