//! The entry-point bridge's decision logic: the `module#entry` addressing
//! convention and the mapping from an invocation outcome to the sandboxed
//! process's exit code.
//!
//! The bridge itself runs inside the already-isolated child; the stdio
//! duplication, the interpreter invocation and the final process exit are
//! its caller's to perform.  Everything the bridge decides — which module
//! path, which entry point, which file descriptors, which exit code — is
//! computed here.

use vstd::prelude::*;
use crate::error::ShimError;

verus! {

/// Exit code reserved for interpreter-level failures (a trap, a missing
/// export, an argument mismatch), distinguishable from any normal exit.
pub const INTERPRETER_FAILURE_CODE: u32 = 137;

/// The canonical start symbol used when an argument names no entry point.
pub open spec fn spec_default_entry() -> Seq<char> {
    "_start"@
}

/// The position of the first `#` in `s`, or `s.len()` when there is none.
pub open spec fn is_first_sep(s: Seq<char>, i: int) -> bool {
    &&& 0 <= i <= s.len()
    &&& forall|j: int| 0 <= j < i ==> s[j] != '#'
    &&& i < s.len() ==> s[i] == '#'
}

/// The unique position satisfying [`is_first_sep`].
pub open spec fn sep_pos(s: Seq<char>) -> int {
    choose|i: int| is_first_sep(s, i)
}

/// [`is_first_sep`] pins the separator position down uniquely.
pub proof fn lemma_first_sep_unique(s: Seq<char>, i: int)
    requires
        is_first_sep(s, i),
    ensures
        sep_pos(s) == i,
{
    assert(is_first_sep(s, sep_pos(s)));
    let k = sep_pos(s);
    if k < i {
        assert(s[k] != '#');
        assert(false);
    } else if i < k {
        assert(s[i] != '#');
        assert(false);
    }
}

/// A single leading path separator is stripped from the raw module text, so
/// an absolute-looking path is normalized into a bundle-relative one.
pub open spec fn spec_strip_root(raw: Seq<char>) -> Seq<char> {
    if raw.len() > 0 && raw[0] == '/' {
        raw.subrange(1, raw.len() as int)
    } else {
        raw
    }
}

/// The module path named by an argument: everything before the first `#`,
/// with a single leading `/` stripped.
pub open spec fn spec_module_of(arg: Seq<char>) -> Seq<char> {
    spec_strip_root(arg.subrange(0, sep_pos(arg)))
}

/// The entry point named by an argument: everything after the first `#`,
/// or the canonical start symbol when the argument holds no `#` at all.
pub open spec fn spec_entry_of(arg: Seq<char>) -> Seq<char> {
    let i = sep_pos(arg);
    if i == arg.len() {
        spec_default_entry()
    } else {
        arg.subrange(i + 1, arg.len() as int)
    }
}

/// Parses one argument under the `module#entry` addressing convention and
/// returns `(module path, entry point)`.
pub fn parse_entry_point(arg: &str) -> (r: (String, String))
    ensures
        r.0@ == spec_module_of(arg@),
        r.1@ == spec_entry_of(arg@),
{
    let n = arg.unicode_len();
    let mut i: usize = 0;
    while i < n && arg.get_char(i) != '#'
        invariant
            0 <= i <= n,
            n == arg@.len(),
            forall|j: int| 0 <= j < i ==> arg@[j] != '#',
        decreases n - i,
    {
        i = i + 1;
    }
    proof {
        assert(is_first_sep(arg@, i as int));
        lemma_first_sep_unique(arg@, i as int);
    }
    let raw = arg.substring_char(0, i);
    let rn = i;
    let module: String = if rn > 0 && raw.get_char(0) == '/' {
        let stripped = raw.substring_char(1, rn);
        proof {
            assert(stripped@ =~= spec_strip_root(arg@.subrange(0, i as int)));
        }
        stripped.to_owned()
    } else {
        proof {
            assert(raw@ =~= spec_strip_root(arg@.subrange(0, i as int)));
        }
        raw.to_owned()
    };
    let entry: String = if i == n {
        "_start".to_owned()
    } else {
        arg.substring_char(i + 1, n).to_owned()
    };
    (module, entry)
}

/// The process exit code the bridge maps an invocation outcome to: zero for
/// a normal return, the reserved interpreter-failure code otherwise.
pub open spec fn spec_exit_code(invoke_ok: bool) -> u32 {
    if invoke_ok {
        0
    } else {
        INTERPRETER_FAILURE_CODE
    }
}

/// Maps the interpreter invocation's outcome to the sandboxed process's
/// exit code, exactly as [`spec_exit_code`] says.
pub fn invocation_exit_code(invoke_ok: bool) -> (c: u32)
    ensures
        c == spec_exit_code(invoke_ok),
{
    if invoke_ok {
        0
    } else {
        INTERPRETER_FAILURE_CODE
    }
}

/// The file descriptor a standard stream ends up on: the configured
/// descriptor when one is set, the inherited one otherwise.
pub open spec fn spec_fd_or(fd: Option<i32>, inherit: i32) -> i32 {
    match fd {
        Some(f) => f,
        None => inherit,
    }
}

/// The in-container executor's configuration: the three stdio descriptors
/// the container runtime opened for this instance, or `None` for "inherit
/// the current descriptor".
pub struct ChibiwasmExecutor {
    pub stdin: Option<i32>,
    pub stdout: Option<i32>,
    pub stderr: Option<i32>,
}

/// Everything the bridge decides before it touches the interpreter.
#[derive(Debug)]
pub struct ExecPlan {
    /// Bundle-relative path of the module to load.
    pub module: String,
    /// Name of the export to invoke, defaulted to the canonical start symbol.
    pub entry_point: String,
    /// Descriptors to bind the interpreter's standard streams to.
    pub stdin_fd: i32,
    pub stdout_fd: i32,
    pub stderr_fd: i32,
}

impl ChibiwasmExecutor {
    /// Decides the whole bridge invocation from the process argument list:
    /// rejects an empty list, parses argument 0 under the `module#entry`
    /// convention, and resolves each standard stream to its descriptor.
    pub fn plan(&self, args: &Vec<String>) -> (r: Result<ExecPlan, ShimError>)
        ensures
            args@.len() == 0 ==> r == Err::<ExecPlan, ShimError>(ShimError::InvalidArgument),
            args@.len() > 0 ==> (r matches Ok(p) && p.module@ == spec_module_of(args@[0]@)
                && p.entry_point@ == spec_entry_of(args@[0]@) && p.stdin_fd == spec_fd_or(
                self.stdin,
                0,
            ) && p.stdout_fd == spec_fd_or(self.stdout, 1) && p.stderr_fd == spec_fd_or(
                self.stderr,
                2,
            )),
    {
        if args.len() == 0 {
            return Err(ShimError::InvalidArgument);
        }
        let (module, entry_point) = parse_entry_point(args[0].as_str());
        let stdin_fd = match self.stdin {
            Some(f) => f,
            None => 0,
        };
        let stdout_fd = match self.stdout {
            Some(f) => f,
            None => 1,
        };
        let stderr_fd = match self.stderr {
            Some(f) => f,
            None => 2,
        };
        Ok(ExecPlan { module, entry_point, stdin_fd, stdout_fd, stderr_fd })
    }
}

} // verus!
