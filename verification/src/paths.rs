//! Resolution of the working directory and the fixed paths under it.
//!
//! The mirror works inside one working directory: an override read from the
//! environment when it is set, else the process's current directory. The
//! local clone always lives in the `rust` subdirectory, addressed through its
//! `.git` metadata directory so that no step has to change directory.

use vstd::prelude::*;
use vstd::string::StringExecFns;

verus! {

/// Name of the environment variable that overrides the working directory.
pub fn workdir_env_var() -> (r: &'static str)
    ensures
        r@ == "SEXXI_DIR"@,
{
    "SEXXI_DIR"
}

/// The working directory is the override when one was given, else the default
/// (the process's current directory).
pub fn resolve_workdir(override_dir: Option<String>, default_dir: String) -> (r: String)
    ensures
        override_dir matches Some(d) ==> r@ == d@,
        override_dir is None ==> r@ == default_dir@,
{
    match override_dir {
        Some(d) => d,
        None => default_dir,
    }
}

/// The local clone lives in the fixed `rust` subdirectory of the working
/// directory.
pub fn repo_dir(workdir: &str) -> (r: String)
    ensures
        r@ == workdir@ + "/rust"@,
{
    let base = workdir.to_owned();
    base.concat("/rust")
}

/// The metadata directory of the clone at `repo`, used to address the
/// repository without changing the process's current directory.
pub fn git_metadata_dir(repo: &str) -> (r: String)
    ensures
        r@ == repo@ + "/.git"@,
{
    let base = repo.to_owned();
    base.concat("/.git")
}

} // verus!
