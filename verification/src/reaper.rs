//! The reaper: observes the sandboxed init process's termination and decides
//! what single status to record in the instance's `ExitStatusSlot`.
//!
//! The blocking OS wait and the wall clock sit behind trusted wrappers; the
//! mapping from a wait outcome to the recorded status is verified, and the
//! final write goes through the write-once slot.

use vstd::prelude::*;
use crate::exit_status::{spec_record, ExitRecord, ExitStatusSlot};

verus! {

/// What the OS wait on the child reported, reduced to plain values.
#[derive(Clone, Copy, PartialEq, Eq, Structural, Debug)]
pub enum WaitOutcome {
    /// The child exited normally with this status code.
    Exited(u32),
    /// The child was terminated by this signal number.
    Signaled(u32),
    /// The child changed state some other way; treated as a zero status.
    OtherChange,
    /// There is no such child: someone else already reaped it, so the true
    /// status is permanently unknowable.
    NoChild,
    /// The wait itself failed for any other reason.
    WaitFailed,
}

/// The reaper's verdict on one wait outcome.
#[derive(Clone, Copy, PartialEq, Eq, Structural, Debug)]
pub enum ReapDecision {
    /// Record this status code.  `known` is false exactly when the child was
    /// already gone and zero stands in for an unknowable status.
    Record { code: u32, known: bool },
    /// The process-table invariant is broken; the supervisor must abort
    /// rather than record a silently wrong status.
    Fatal,
}

/// The decision taken for each possible wait outcome: a normal exit records
/// its status, a signalled death records the signal number, an already-reaped
/// child records a best-effort zero, and any other wait failure is fatal.
pub open spec fn spec_classify(ev: WaitOutcome) -> ReapDecision {
    match ev {
        WaitOutcome::Exited(code) => ReapDecision::Record { code, known: true },
        WaitOutcome::Signaled(sig) => ReapDecision::Record { code: sig, known: true },
        WaitOutcome::OtherChange => ReapDecision::Record { code: 0, known: true },
        WaitOutcome::NoChild => ReapDecision::Record { code: 0, known: false },
        WaitOutcome::WaitFailed => ReapDecision::Fatal,
    }
}

/// Maps one wait outcome to the reaper's decision, exactly as
/// [`spec_classify`] says.
pub fn classify_wait(ev: &WaitOutcome) -> (d: ReapDecision)
    ensures
        d == spec_classify(*ev),
{
    match *ev {
        WaitOutcome::Exited(code) => ReapDecision::Record { code, known: true },
        WaitOutcome::Signaled(sig) => ReapDecision::Record { code: sig, known: true },
        WaitOutcome::OtherChange => ReapDecision::Record { code: 0, known: true },
        WaitOutcome::NoChild => ReapDecision::Record { code: 0, known: false },
        WaitOutcome::WaitFailed => ReapDecision::Fatal,
    }
}

/// Relies on `nix::sys::wait::waitid` with `WEXITED`: blocks until the child
/// with the given process id terminates (exits or is killed by a signal) and
/// reports how, `Errno::ECHILD` when there is no such child, or another
/// errno on failure.  The outcome depends on the state of the process table,
/// so nothing is promised of which variant comes back.
#[verifier::external_body]
fn wait_for_process(pid: i32) -> WaitOutcome {
    match nix::sys::wait::waitid(
        nix::sys::wait::Id::Pid(nix::unistd::Pid::from_raw(pid)),
        nix::sys::wait::WaitPidFlag::WEXITED,
    ) {
        Ok(nix::sys::wait::WaitStatus::Exited(_, code)) => WaitOutcome::Exited(code as u32),
        Ok(nix::sys::wait::WaitStatus::Signaled(_, sig, _)) => WaitOutcome::Signaled(
            sig as i32 as u32,
        ),
        Ok(_) => WaitOutcome::OtherChange,
        Err(nix::errno::Errno::ECHILD) => WaitOutcome::NoChild,
        Err(_) => WaitOutcome::WaitFailed,
    }
}

/// Relies on `std::time::SystemTime::now` and chrono's `SystemTime`
/// conversion: the current wall-clock time, reduced to milliseconds since
/// the Unix epoch.  The conversion is total — a clock reading before the
/// epoch becomes a negative value rather than an abort.  The value depends
/// on the clock, so nothing is promised of it.
#[verifier::external_body]
fn now_unix_millis() -> i64 {
    chrono::DateTime::<chrono::Utc>::from(std::time::SystemTime::now()).timestamp_millis()
}

/// Blocks until the child with the given process id changes state, then
/// returns what the wait reported, the reaper's decision for exactly that
/// outcome, and the wall-clock timestamp of the observation.
pub fn observe_exit(pid: i32) -> (r: (WaitOutcome, ReapDecision, i64))
    ensures
        r.1 == spec_classify(r.0),
{
    let ev = wait_for_process(pid);
    let d = classify_wait(&ev);
    (ev, d, now_unix_millis())
}

/// Applies a reap decision to the instance's exit-status slot: a `Record`
/// decision goes through the write-once slot; a `Fatal` decision records
/// nothing and tells the caller to abort.
pub fn apply_decision(slot: &mut ExitStatusSlot, d: &ReapDecision, timestamp_ms: i64) -> (fatal:
    bool)
    ensures
        (match *d {
            ReapDecision::Record { code, known } => !fatal && final(slot).recorded() == spec_record(
                old(slot).recorded(),
                ExitRecord { code, timestamp_ms },
            ),
            ReapDecision::Fatal => fatal && final(slot).recorded() == old(slot).recorded(),
        }),
{
    match *d {
        ReapDecision::Record { code, known: _ } => {
            slot.record(code, timestamp_ms);
            false
        },
        ReapDecision::Fatal => true,
    }
}

} // verus!
