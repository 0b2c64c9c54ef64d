//! Error taxonomy of the supervisor's transport-facing surface.

use vstd::prelude::*;

verus! {

/// Errors surfaced synchronously to the transport layer.
#[derive(Clone, Copy, PartialEq, Eq, Structural, Debug)]
pub enum ShimError {
    /// The instance configuration carries no bundle path.
    MissingBundle,
    /// The bundle's config file is present but unreadable or not of the
    /// expected `{root:{path}}` shape.
    ConfigError,
    /// The process argument list handed to the entry-point bridge is empty.
    InvalidArgument,
    /// The persisted container state could not be removed: the directory it
    /// sits in could not be resolved, or the removal itself failed.
    DeleteFailed,
}

} // verus!
