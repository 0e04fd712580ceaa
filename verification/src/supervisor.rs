//! Decisions of tunnel supervision: what to do when a supervised process
//! ends, and how long to back off before reconnecting.

use vstd::prelude::*;

use crate::model::{dec, lit};
use crate::text::decimal;

verus! {

/// Maximum reconnect attempts before marking as failed.
pub const MAX_RETRIES: u32 = 10;

/// Maximum backoff delay in seconds.
pub const MAX_BACKOFF_SECS: u64 = 60;

/// Base backoff delay in seconds.
pub const BASE_BACKOFF_SECS: u64 = 1;

/// A target for confirming that a tunnel is actually serving traffic: the
/// local address and port of its listener.
#[derive(Debug, Clone)]
pub struct ReadinessProbe {
    /// Local address the tunnel listens on (e.g. "127.0.0.1").
    pub address: String,
    /// Local port the tunnel listens on.
    pub port: u16,
}

impl ReadinessProbe {
    /// Create a new readiness probe for a local listener.
    pub fn new(address: String, port: u16) -> (r: Self)
        ensures
            r.address@ == address@,
            r.port == port,
    {
        ReadinessProbe { address, port }
    }
}

/// `2^n`.
pub open spec fn pow2(n: nat) -> nat
    decreases n,
{
    if n == 0 { 1 } else { 2 * pow2((n - 1) as nat) }
}

/// The backoff before reconnect attempt `attempt` (counted from 1):
/// `min(BASE * 2^(attempt - 1), MAX)`, where the power saturates.
pub open spec fn backoff_spec(attempt: u32) -> u64 {
    if pow2((attempt - 1) as nat) < MAX_BACKOFF_SECS {
        pow2((attempt - 1) as nat) as u64
    } else {
        MAX_BACKOFF_SECS
    }
}

/// Powers of two grow with the exponent.
pub proof fn lemma_pow2_monotone(a: nat, b: nat)
    requires
        a <= b,
    ensures
        pow2(a) <= pow2(b),
    decreases b,
{
    if a < b {
        lemma_pow2_monotone(a, (b - 1) as nat);
    }
}

/// Backoff delay, in seconds, before reconnect attempt `attempt` (from 1).
pub fn backoff_delay_secs(attempt: u32) -> (r: u64)
    requires
        attempt >= 1,
    ensures
        r == backoff_spec(attempt),
{
    let mut delay: u64 = BASE_BACKOFF_SECS;
    let mut k: u32 = 1;
    while k < attempt && delay < MAX_BACKOFF_SECS
        invariant
            1 <= k <= attempt,
            delay == pow2((k - 1) as nat),
            delay <= 2 * MAX_BACKOFF_SECS,
        decreases attempt - k,
    {
        delay = delay * 2;
        k = k + 1;
    }
    proof {
        if k < attempt {
            lemma_pow2_monotone((k - 1) as nat, (attempt - 1) as nat);
        }
    }
    if delay < MAX_BACKOFF_SECS {
        delay
    } else {
        MAX_BACKOFF_SECS
    }
}

/// Law: the backoff never shrinks from one attempt to the next, is at least
/// one second and never exceeds the maximum.
pub proof fn law_backoff_monotone_and_bounded(a: u32, b: u32)
    requires
        1 <= a <= b,
    ensures
        BASE_BACKOFF_SECS <= backoff_spec(a) <= backoff_spec(b) <= MAX_BACKOFF_SECS,
{
    lemma_pow2_monotone((a - 1) as nat, (b - 1) as nat);
    lemma_pow2_monotone(0, (a - 1) as nat);
}

/// Law: each reconnect waits twice as long as the one before, until the
/// cap: the delay before attempt `a + 1` is `min(2 * delay(a), MAX)`.
pub proof fn law_backoff_doubles(a: u32)
    requires
        1 <= a < u32::MAX,
    ensures
        backoff_spec((a + 1) as u32) == if 2 * backoff_spec(a) < MAX_BACKOFF_SECS {
            2 * backoff_spec(a)
        } else {
            MAX_BACKOFF_SECS as int
        },
{
    assert(pow2(a as nat) == 2 * pow2((a - 1) as nat));
}

/// What the supervisor does after a supervised process ended.
#[derive(Debug, Clone)]
pub enum RestartDecision {
    /// Stop supervising (suspended by the user, or no auto-restart).
    Stop,
    /// Report failure with the given reason and stop.
    GiveUp { reason: String },
    /// Wait `delay_secs`, then spawn again as attempt `attempt`.
    Retry { attempt: u32, delay_secs: u64 },
}

/// The reason reported when the retries are used up.
pub open spec fn retries_exhausted_reason() -> Seq<char> {
    "max retries ("@ + decimal(MAX_RETRIES as nat) + ") exhausted"@
}

/// The attempt counter after a session: a session that became ready resets
/// the count of failed attempts.
pub open spec fn next_attempt(attempt: u32, was_ready: bool) -> int {
    (if was_ready { 0 } else { attempt as int }) + 1
}

/// Decides what follows the end of a supervised session (the spawned
/// process exited, or never became ready).
///
/// `attempt` counts the reconnect attempts made since the last time the
/// tunnel was ready; `was_ready` says whether this session became ready.
pub fn after_session(attempt: u32, was_ready: bool, suspended: bool, auto_restart: bool) -> (r: (
    u32,
    RestartDecision,
))
    requires
        attempt <= MAX_RETRIES,
    ensures
        suspended || !auto_restart ==> r.1 is Stop,
        !suspended && auto_restart && next_attempt(attempt, was_ready) > MAX_RETRIES ==> (
        r.1 matches RestartDecision::GiveUp { reason } && reason@ == retries_exhausted_reason()),
        !suspended && auto_restart && next_attempt(attempt, was_ready) <= MAX_RETRIES ==> (
        r.1 matches RestartDecision::Retry { attempt: a, delay_secs } && a == next_attempt(
            attempt,
            was_ready,
        ) && delay_secs == backoff_spec(a) && r.0 == a),
        r.0 <= MAX_RETRIES,
{
    let base = if was_ready { 0 } else { attempt };
    if suspended || !auto_restart {
        return (base, RestartDecision::Stop);
    }
    let next = base + 1;
    if next > MAX_RETRIES {
        let mut reason = lit("max retries (");
        reason.append(dec(MAX_RETRIES as u64).as_str());
        reason.append(") exhausted");
        return (base, RestartDecision::GiveUp { reason });
    }
    (next, RestartDecision::Retry { attempt: next, delay_secs: backoff_delay_secs(next) })
}

/// Whether a supervisor that adopted a process from an earlier session
/// spawns a fresh one after that process ended.
pub fn respawn_after_adopted(suspended: bool, auto_restart: bool) -> (r: bool)
    ensures
        r == (!suspended && auto_restart),
{
    !suspended && auto_restart
}


/// Where a wait for readiness stands after one check.
#[derive(Debug, Clone, Copy, PartialEq, Eq, Structural)]
pub enum Readiness {
    /// The tunnel is serving: report it connected.
    Ready,
    /// The tunnel will not become ready (the process is gone, the wait was
    /// cancelled, or the probe timed out).
    Failed,
    /// Check again after the probe interval.
    Wait,
}

/// One check of a wait that probes the tunnel's local listener: a process
/// that is gone (exited, dead, or the wait cancelled) fails; a successful
/// probe is ready; past the deadline the wait fails; otherwise it goes on.
pub fn probe_check(gone: bool, probe_ok: bool, past_deadline: bool) -> (r: Readiness)
    ensures
        r == (if gone {
            Readiness::Failed
        } else if probe_ok {
            Readiness::Ready
        } else if past_deadline {
            Readiness::Failed
        } else {
            Readiness::Wait
        }),
{
    if gone {
        Readiness::Failed
    } else if probe_ok {
        Readiness::Ready
    } else if past_deadline {
        Readiness::Failed
    } else {
        Readiness::Wait
    }
}

/// One check of a wait that only watches an adopted process stay alive:
/// a cancelled wait or a dead process fails; once the stability threshold
/// has passed, a final liveness check decides; otherwise it goes on.
pub fn stability_check(cancelled: bool, alive: bool, past_deadline: bool, alive_at_deadline: bool) -> (r: Readiness)
    ensures
        r == (if cancelled || !alive {
            Readiness::Failed
        } else if past_deadline {
            if alive_at_deadline { Readiness::Ready } else { Readiness::Failed }
        } else {
            Readiness::Wait
        }),
{
    if cancelled || !alive {
        Readiness::Failed
    } else if past_deadline {
        if alive_at_deadline { Readiness::Ready } else { Readiness::Failed }
    } else {
        Readiness::Wait
    }
}

} // verus!
