//! Lifecycle supervisor for a containerd shim that runs WebAssembly modules
//! inside isolated containers through the chibiwasm interpreter.
//!
//! The library holds the supervisor's decisions: resolving where an
//! instance's persistent state lives ([`rootdir`]), building the per-instance
//! state and the idempotent deletion of persisted state ([`instance`]), the
//! write-once exit-status handoff between the reaper and any number of
//! waiters ([`exit_status`], [`reaper`]), and the in-container entry-point
//! bridge's `module#entry` addressing and exit-code policy ([`entrypoint`]).
//! The surrounding process — the shim transport, the container-runtime
//! collaborator and the interpreter — performs the I/O and feeds its
//! outcomes to these functions as plain values.

pub mod entrypoint;
pub mod error;
pub mod exit_status;
pub mod instance;
pub mod reaper;
pub mod rootdir;

use vstd::prelude::*;

verus! {

/// Opaque engine handle carried in the instance configuration; the embedded
/// interpreter needs no per-instance state, so this is empty.
#[derive(Clone, Default)]
pub struct Engine {}

impl Engine {
    /// Builds the engine handle handed to new instances.
    pub fn new_engine() -> (e: Engine) {
        Engine {}
    }
}

} // verus!
