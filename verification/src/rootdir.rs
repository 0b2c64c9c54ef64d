//! Root directory resolution: where this instance's persistent container
//! state lives on disk.
//!
//! The bundle may carry a `config.json` whose `{root:{path}}` field names
//! the state root; otherwise a hard-coded default root is used.  Either way
//! the caller's namespace is joined onto it.  Reading the file is the
//! caller's to do; this module decides what the read outcome means.

use vstd::prelude::*;
use crate::error::ShimError;

verus! {

/// The default state root used when the bundle carries no config file.
pub open spec fn spec_default_root() -> Seq<char> {
    "/run/containerd/chibiwasm"@
}

/// Path join as used here: an absolute tail replaces the base, an empty
/// base yields the tail, and otherwise a single separator stands between
/// the two.
pub open spec fn spec_join_path(base: Seq<char>, tail: Seq<char>) -> Seq<char> {
    if tail.len() > 0 && tail[0] == '/' {
        tail
    } else if base.len() == 0 {
        tail
    } else if base[base.len() - 1] == '/' {
        base + tail
    } else {
        base + seq!['/'] + tail
    }
}

/// Joins a relative tail onto a base path, exactly as [`spec_join_path`]
/// says.
pub fn join_path(base: &str, tail: &str) -> (r: String)
    ensures
        r@ == spec_join_path(base@, tail@),
{
    let tn = tail.unicode_len();
    if tn > 0 && tail.get_char(0) == '/' {
        return tail.to_owned();
    }
    let bn = base.unicode_len();
    if bn == 0 {
        return tail.to_owned();
    }
    let mut r = base.to_owned();
    if base.get_char(bn - 1) != '/' {
        r.append("/");
        proof {
            reveal_strlit("/");
            assert(r@ =~= base@ + seq!['/']);
        }
    }
    r.append(tail);
    proof {
        assert(r@ =~= spec_join_path(base@, tail@));
    }
    r
}

/// The state root named by the bundle's config text: the `root.path` string
/// of the JSON object the text parses to, or nothing when the text is not
/// valid JSON or carries no such string.
pub uninterp spec fn config_root_of(s: Seq<char>) -> Option<Seq<char>>;

/// Relies on `serde_json::from_str` and `serde_json::Value::{get, as_str}`:
/// parses the config text as JSON and looks the `root.path` string up.  The
/// result is a function of the text alone.
#[verifier::external_body]
fn parse_config_root(data: &str) -> (r: Option<String>)
    ensures
        r is Some <==> config_root_of(data@) is Some,
        r matches Some(p) ==> config_root_of(data@) == Some(p@),
{
    let v: serde_json::Value = serde_json::from_str(data).ok()?;
    let path = v.get("root")?.get("path")?.as_str()?;
    Some(path.to_string())
}

/// The outcome of the caller's attempt to read the bundle's `config.json`.
pub enum ConfigSource {
    /// No config file is present in the bundle.  This is not an error.
    Absent,
    /// A config file is present but its bytes could not be read.
    Unreadable,
    /// The config file's full text.
    Found(String),
}

/// The resolved state root, if resolution succeeds: the default root joined
/// with the namespace when no config file is present, the configured root
/// joined with the namespace when the config parses, and nothing when the
/// config is unreadable or malformed.
pub open spec fn spec_resolved_root(cfg: ConfigSource, namespace: Seq<char>) -> Option<Seq<char>> {
    match cfg {
        ConfigSource::Absent => Some(spec_join_path(spec_default_root(), namespace)),
        ConfigSource::Unreadable => None,
        ConfigSource::Found(data) => match config_root_of(data@) {
            Some(root) => Some(spec_join_path(root, namespace)),
            None => None,
        },
    }
}

/// What resolution must return: the resolved root on success, and exactly
/// [`ShimError::ConfigError`] when the config is unreadable or malformed.
pub open spec fn spec_rootdir_post(
    cfg: ConfigSource,
    namespace: Seq<char>,
    r: Result<String, ShimError>,
) -> bool {
    match spec_resolved_root(cfg, namespace) {
        Some(root) => r matches Ok(p) && p@ == root,
        None => r == Err::<String, ShimError>(ShimError::ConfigError),
    }
}

/// Determinism law: any two resolutions of the same bundle contents and the
/// same namespace agree — either both succeed with the same path, or both
/// fail with the same error.
pub proof fn lemma_resolution_deterministic(
    cfg: ConfigSource,
    namespace: Seq<char>,
    r1: Result<String, ShimError>,
    r2: Result<String, ShimError>,
)
    requires
        spec_rootdir_post(cfg, namespace, r1),
        spec_rootdir_post(cfg, namespace, r2),
    ensures
        (r1 matches Ok(p1) && r2 matches Ok(p2) && p1@ == p2@) || (r1 is Err && r1 == r2),
{
}

/// Resolves the on-disk directory holding this instance's persistent
/// runtime state, exactly as [`spec_resolved_root`] says; an unreadable or
/// malformed config fails with [`ShimError::ConfigError`].
pub fn determine_rootdir(cfg: &ConfigSource, namespace: &str) -> (r: Result<String, ShimError>)
    ensures
        spec_rootdir_post(*cfg, namespace@, r),
{
    match cfg {
        ConfigSource::Absent => Ok(join_path("/run/containerd/chibiwasm", namespace)),
        ConfigSource::Unreadable => Err(ShimError::ConfigError),
        ConfigSource::Found(data) => match parse_config_root(data.as_str()) {
            Some(root) => Ok(join_path(root.as_str(), namespace)),
            None => Err(ShimError::ConfigError),
        },
    }
}

} // verus!
