//! The per-instance lifecycle supervisor's own state and decisions:
//! construction from a caller-supplied configuration, and the best-effort,
//! idempotent deletion of persisted container state.
//!
//! The container-runtime collaborator performs the actual process and
//! filesystem work; the caller probes it and feeds each probe's outcome to
//! the transition function here, which decides the next step.

use vstd::prelude::*;
use crate::error::ShimError;
use crate::rootdir::{determine_rootdir, spec_resolved_root, ConfigSource};

verus! {

/// Plain view of the caller-supplied instance configuration.  An unset
/// stdio target means "inherit the current descriptor".
pub struct InstanceConfigView {
    pub bundle: Option<String>,
    pub namespace: String,
    pub stdin: Option<String>,
    pub stdout: Option<String>,
    pub stderr: Option<String>,
}

/// The stdio target recorded in the instance: the configured path as-is,
/// or the empty string for "inherit".
pub open spec fn spec_stdio_target(t: Option<String>) -> Seq<char> {
    match t {
        Some(s) => s@,
        None => Seq::empty(),
    }
}

fn stdio_target(t: &Option<String>) -> (r: String)
    ensures
        r@ == spec_stdio_target(*t),
{
    match t {
        Some(s) => s.clone(),
        None => String::new(),
    }
}

/// One supervised instance: its identity, its stdio targets (captured
/// as-is, not yet opened), the bundle location and the resolved root
/// directory.  The exit-status slot is created empty alongside it and
/// shared with the reaper by the caller.
#[derive(Debug)]
pub struct ChibiwasmInstance {
    pub id: String,
    pub stdin: String,
    pub stdout: String,
    pub stderr: String,
    pub bundle: String,
    pub rootdir: String,
}

impl ChibiwasmInstance {
    /// Builds the instance state from a configuration and the outcome of
    /// reading the bundle's config file: fails exactly when the bundle path
    /// is absent or the root cannot be resolved; otherwise captures the
    /// stdio targets as-is and records the resolved root.
    pub fn new(id: String, cfg: &InstanceConfigView, config_file: &ConfigSource) -> (r: Result<
        Self,
        ShimError,
    >)
        ensures
            cfg.bundle is None ==> r == Err::<Self, ShimError>(ShimError::MissingBundle),
            cfg.bundle matches Some(b) ==> (match spec_resolved_root(
                *config_file,
                cfg.namespace@,
            ) {
                Some(root) => r matches Ok(inst) && inst.id == id && inst.bundle == b
                    && inst.rootdir@ == root && inst.stdin@ == spec_stdio_target(cfg.stdin)
                    && inst.stdout@ == spec_stdio_target(cfg.stdout) && inst.stderr@
                    == spec_stdio_target(cfg.stderr),
                None => r == Err::<Self, ShimError>(ShimError::ConfigError),
            }),
    {
        let bundle = match &cfg.bundle {
            Some(b) => b.clone(),
            None => {
                return Err(ShimError::MissingBundle);
            },
        };
        let rootdir = determine_rootdir(config_file, cfg.namespace.as_str())?;
        Ok(
            ChibiwasmInstance {
                id,
                stdin: stdio_target(&cfg.stdin),
                stdout: stdio_target(&cfg.stdout),
                stderr: stdio_target(&cfg.stderr),
                bundle,
                rootdir,
            },
        )
    }
}

/// How a delete attempt ended when it did not propagate an error.
#[derive(Clone, Copy, PartialEq, Eq, Structural, Debug)]
pub enum DeleteOutcome {
    /// Persisted state was found, loaded and removed.
    Deleted,
    /// No persisted state exists for this id; nothing to do.
    AlreadyAbsent,
    /// State exists but could not be probed or loaded; cleanup is skipped
    /// with a diagnostic rather than failed.
    SkippedUnreadable,
}

/// What the caller's latest probe of the persisted state reported.
#[derive(Clone, Copy, PartialEq, Eq, Structural, Debug)]
pub enum DeleteEvent {
    /// Persisted state for this id exists under the root directory.
    FoundState,
    /// No persisted state exists for this id.
    StateMissing,
    /// The existence check itself failed.
    CheckFailed,
    /// State exists but the directory it sits in could not be resolved.
    RootUnresolvable,
    /// The persisted state loaded cleanly.
    StateLoaded,
    /// The persisted state exists but could not be loaded.
    LoadFailed,
    /// The loaded state's forced removal succeeded.
    Removed,
    /// The forced removal itself failed.
    RemoveFailed,
}

/// The supervisor's next step while deleting.
#[derive(Clone, Copy, PartialEq, Eq, Debug)]
pub enum DeleteStep {
    /// Deletion is over, with this result.
    Finished(Result<DeleteOutcome, ShimError>),
    /// Load the persisted state next.
    LoadState,
    /// Force removal of the loaded state next.
    RemoveState,
}

/// The deletion state machine: a missing instance or a failed existence
/// check ends at once with success (deletion is idempotent and
/// best-effort), existing state is loaded then removed, and only an
/// unresolvable state directory or a failed removal propagates an error.
pub open spec fn spec_delete_step(ev: DeleteEvent) -> DeleteStep {
    match ev {
        DeleteEvent::FoundState => DeleteStep::LoadState,
        DeleteEvent::StateMissing => DeleteStep::Finished(Ok(DeleteOutcome::AlreadyAbsent)),
        DeleteEvent::CheckFailed => DeleteStep::Finished(Ok(DeleteOutcome::SkippedUnreadable)),
        DeleteEvent::RootUnresolvable => DeleteStep::Finished(
            Err(ShimError::DeleteFailed),
        ),
        DeleteEvent::StateLoaded => DeleteStep::RemoveState,
        DeleteEvent::LoadFailed => DeleteStep::Finished(Ok(DeleteOutcome::SkippedUnreadable)),
        DeleteEvent::Removed => DeleteStep::Finished(Ok(DeleteOutcome::Deleted)),
        DeleteEvent::RemoveFailed => DeleteStep::Finished(
            Err(ShimError::DeleteFailed),
        ),
    }
}

/// Decides the next deletion step for one probe outcome, exactly as
/// [`spec_delete_step`] says.
pub fn delete_step(ev: &DeleteEvent) -> (s: DeleteStep)
    ensures
        s == spec_delete_step(*ev),
{
    match *ev {
        DeleteEvent::FoundState => DeleteStep::LoadState,
        DeleteEvent::StateMissing => DeleteStep::Finished(Ok(DeleteOutcome::AlreadyAbsent)),
        DeleteEvent::CheckFailed => DeleteStep::Finished(Ok(DeleteOutcome::SkippedUnreadable)),
        DeleteEvent::RootUnresolvable => DeleteStep::Finished(
            Err(ShimError::DeleteFailed),
        ),
        DeleteEvent::StateLoaded => DeleteStep::RemoveState,
        DeleteEvent::LoadFailed => DeleteStep::Finished(Ok(DeleteOutcome::SkippedUnreadable)),
        DeleteEvent::Removed => DeleteStep::Finished(Ok(DeleteOutcome::Deleted)),
        DeleteEvent::RemoveFailed => DeleteStep::Finished(
            Err(ShimError::DeleteFailed),
        ),
    }
}

/// Abstract view of the persisted state a delete runs against: whether
/// state is present, whether it would load, and whether removal would
/// succeed.
pub struct StoreView {
    pub present: bool,
    pub loadable: bool,
    pub removable: bool,
}

/// One whole delete run against that view, driven through
/// [`spec_delete_step`]: the store afterwards, and the result returned.
pub open spec fn spec_delete_run(s: StoreView) -> (StoreView, Result<DeleteOutcome, ShimError>) {
    if !s.present {
        (s, Ok(DeleteOutcome::AlreadyAbsent))
    } else if !s.loadable {
        (s, Ok(DeleteOutcome::SkippedUnreadable))
    } else if s.removable {
        (StoreView { present: false, ..s }, Ok(DeleteOutcome::Deleted))
    } else {
        (s, Err(ShimError::DeleteFailed))
    }
}

/// [`spec_delete_run`] is exactly what driving the per-probe transition
/// function over a truthful store yields, step by step.
pub proof fn lemma_delete_run_follows_steps(s: StoreView)
    ensures
        spec_delete_step(
            if s.present {
                DeleteEvent::FoundState
            } else {
                DeleteEvent::StateMissing
            },
        ) == (if s.present {
            DeleteStep::LoadState
        } else {
            DeleteStep::Finished(spec_delete_run(s).1)
        }),
        s.present ==> spec_delete_step(
            if s.loadable {
                DeleteEvent::StateLoaded
            } else {
                DeleteEvent::LoadFailed
            },
        ) == (if s.loadable {
            DeleteStep::RemoveState
        } else {
            DeleteStep::Finished(spec_delete_run(s).1)
        }),
        s.present && s.loadable ==> spec_delete_step(
            if s.removable {
                DeleteEvent::Removed
            } else {
                DeleteEvent::RemoveFailed
            },
        ) == DeleteStep::Finished(spec_delete_run(s).1),
{
}

/// Idempotence law: a delete of a never-started or already-deleted
/// instance succeeds with `AlreadyAbsent` and changes nothing, so a second
/// delete returns exactly the same success; and after any successful
/// delete, a further delete succeeds again.
pub proof fn lemma_delete_idempotent(s: StoreView)
    ensures
        !s.present ==> spec_delete_run(s) == (s, Ok::<DeleteOutcome, ShimError>(
            DeleteOutcome::AlreadyAbsent,
        )),
        spec_delete_run(s).1 is Ok ==> spec_delete_run(spec_delete_run(s).0).1 is Ok,
        !s.present ==> spec_delete_run(spec_delete_run(s).0) == spec_delete_run(s),
{
}

} // verus!
