//! Single-slot, write-once exit-status cell and the reaper's decision logic.
//!
//! The slot carries the sandboxed process's `(exit code, timestamp)` pair.
//! The reaper is its sole writer and writes at most once per instance
//! lifetime; any number of readers may observe the same final value, and no
//! read consumes or clears it.  Callers that share the slot across threads
//! wrap it in their own lock; the logic here is what runs under that lock.

use vstd::prelude::*;

verus! {

/// The authoritative termination record of one sandboxed process.
#[derive(Clone, Copy, PartialEq, Eq, Structural, Debug)]
pub struct ExitRecord {
    /// Numeric exit status: the exit code of a normal exit, the signal
    /// number of a signalled death, or zero when the status is unknowable.
    pub code: u32,
    /// Wall-clock time the reaper observed the termination, in milliseconds
    /// since the Unix epoch.
    pub timestamp_ms: i64,
}

/// A single-slot cell holding at most one `ExitRecord`, ever.
pub struct ExitStatusSlot {
    value: Option<ExitRecord>,
}

/// What one write attempt does to the slot's contents: only the first
/// attempt lands; a set slot is never overwritten.
pub open spec fn spec_record(prev: Option<ExitRecord>, r: ExitRecord) -> Option<ExitRecord> {
    if prev is None {
        Some(r)
    } else {
        prev
    }
}

/// The slot's contents after a whole sequence of write attempts.
pub open spec fn spec_record_all(init: Option<ExitRecord>, attempts: Seq<ExitRecord>) -> Option<
    ExitRecord,
>
    decreases attempts.len(),
{
    if attempts.len() == 0 {
        init
    } else {
        spec_record_all(spec_record(init, attempts[0]), attempts.subrange(1, attempts.len() as int))
    }
}

impl ExitStatusSlot {
    /// The record currently held, if any.
    pub closed spec fn recorded(self) -> Option<ExitRecord> {
        self.value
    }

    /// A fresh, empty slot: no status has been observed yet.
    pub fn empty() -> (s: Self)
        ensures
            s.recorded() is None,
    {
        ExitStatusSlot { value: None }
    }

    /// Write-once recording: stores `(code, timestamp_ms)` if the slot is
    /// still empty and reports whether this call was the one that filled it.
    /// A slot that already holds a record is left exactly as it was.
    pub fn record(&mut self, code: u32, timestamp_ms: i64) -> (fresh: bool)
        ensures
            final(self).recorded() == spec_record(
                old(self).recorded(),
                ExitRecord { code, timestamp_ms },
            ),
            fresh <==> old(self).recorded() is None,
            !fresh ==> final(self).recorded() == old(self).recorded(),
    {
        match self.value {
            Some(_) => false,
            None => {
                self.value = Some(ExitRecord { code, timestamp_ms });
                true
            },
        }
    }

    /// Non-blocking, non-consuming read of the recorded status.
    pub fn read(&self) -> (r: Option<ExitRecord>)
        ensures
            r == self.recorded(),
    {
        self.value
    }
}

/// A slot that already holds a record keeps it through any further write
/// attempts.
pub proof fn lemma_set_slot_stable(r: ExitRecord, attempts: Seq<ExitRecord>)
    ensures
        spec_record_all(Some(r), attempts) == Some(r),
    decreases attempts.len(),
{
    if attempts.len() > 0 {
        lemma_set_slot_stable(r, attempts.subrange(1, attempts.len() as int));
    }
}

/// Write-once law: over any non-empty sequence of write attempts against an
/// initially empty slot, exactly the first attempt is recorded, and the
/// recorded value is stable under every later attempt.
pub proof fn lemma_write_once(attempts: Seq<ExitRecord>)
    requires
        attempts.len() > 0,
    ensures
        spec_record_all(None, attempts) == Some(attempts[0]),
{
    lemma_set_slot_stable(attempts[0], attempts.subrange(1, attempts.len() as int));
}

/// Single-value law: every reader of a filled slot observes the same record;
/// there is no second value a different waiter could have been handed.
pub proof fn lemma_readers_agree(slot: ExitStatusSlot, r1: ExitRecord, r2: ExitRecord)
    requires
        slot.recorded() == Some(r1),
        slot.recorded() == Some(r2),
    ensures
        r1 == r2,
{
}

} // verus!
