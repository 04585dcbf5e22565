//! The fixed remotes and the argument lists handed to the version-control
//! tool.
//!
//! Every external operation of the workflow is one invocation of `git` with
//! an argument list built here. The builders pin each argument exactly, so
//! that the contracts of the workflow can speak of what each operation is
//! asked to do. Operations on an existing clone are addressed through a
//! `--git-dir`/`--work-tree` pair.

use vstd::prelude::*;
use vstd::string::StringExecFns;

verus! {

/// URL of the upstream repository that is mirrored.
pub open spec fn upstream_url_spec() -> Seq<char> {
    "git@github.com:rust-lang/rust.git"@
}

pub fn upstream_url() -> (r: &'static str)
    ensures
        r@ == upstream_url_spec(),
{
    "git@github.com:rust-lang/rust.git"
}

/// Name under which the upstream repository is registered in the clone.
pub open spec fn upstream_remote_spec() -> Seq<char> {
    "origin"@
}

pub fn upstream_remote() -> (r: &'static str)
    ensures
        r@ == upstream_remote_spec(),
{
    "origin"
}

/// URL of the mirror that receives the forced copy of the primary branch.
pub open spec fn mirror_url_spec() -> Seq<char> {
    "git@github.com:sexxi-goose/rust.git"@
}

pub fn mirror_url() -> (r: &'static str)
    ensures
        r@ == mirror_url_spec(),
{
    "git@github.com:sexxi-goose/rust.git"
}

/// Name under which the mirror is registered in the clone.
pub open spec fn mirror_remote_spec() -> Seq<char> {
    "sg"@
}

pub fn mirror_remote() -> (r: &'static str)
    ensures
        r@ == mirror_remote_spec(),
{
    "sg"
}

/// The primary branch mirrored between the two remotes.
pub open spec fn primary_branch_spec() -> Seq<char> {
    "master"@
}

pub fn primary_branch() -> (r: &'static str)
    ensures
        r@ == primary_branch_spec(),
{
    "master"
}

/// Refspec of the push: the upstream remote's primary branch is the source,
/// the primary branch on the mirror is the destination.
pub open spec fn push_refspec_spec() -> Seq<char> {
    upstream_remote_spec() + "/"@ + primary_branch_spec() + ":"@ + primary_branch_spec()
}

pub fn push_refspec() -> (r: String)
    ensures
        r@ == push_refspec_spec(),
{
    let source = upstream_remote().to_owned();
    source.concat("/").concat(primary_branch()).concat(":").concat(primary_branch())
}

/// The refspec written out in one piece.
pub proof fn lemma_push_refspec_literal()
    ensures
        push_refspec_spec() == "origin/master:master"@,
{
    reveal_strlit("origin");
    reveal_strlit("/");
    reveal_strlit("master");
    reveal_strlit(":");
    reveal_strlit("origin/master:master");
    assert(push_refspec_spec() =~= "origin/master:master"@);
}

/// The leading arguments that address an existing clone: its metadata
/// directory and its work tree.
fn addressed_prefix(git_dir: &str, work_tree: &str) -> (r: Vec<String>)
    ensures
        r@.len() == 4,
        r@[0]@ == "--git-dir"@,
        r@[1]@ == git_dir@,
        r@[2]@ == "--work-tree"@,
        r@[3]@ == work_tree@,
{
    let mut args: Vec<String> = Vec::new();
    args.push("--git-dir".to_owned());
    args.push(git_dir.to_owned());
    args.push("--work-tree".to_owned());
    args.push(work_tree.to_owned());
    args
}

/// Arguments of the probe that asks whether a valid repository stands at the
/// addressed pair: a top-level query that succeeds only inside a repository.
pub fn probe_args(git_dir: &str, work_tree: &str) -> (r: Vec<String>)
    ensures
        r@.len() == 6,
        r@[0]@ == "--git-dir"@,
        r@[1]@ == git_dir@,
        r@[2]@ == "--work-tree"@,
        r@[3]@ == work_tree@,
        r@[4]@ == "rev-parse"@,
        r@[5]@ == "--show-toplevel"@,
{
    let mut args = addressed_prefix(git_dir, work_tree);
    args.push("rev-parse".to_owned());
    args.push("--show-toplevel".to_owned());
    args
}

/// Arguments of the clone of the upstream repository into `work_tree`.
pub fn clone_args(work_tree: &str) -> (r: Vec<String>)
    ensures
        r@.len() == 3,
        r@[0]@ == "clone"@,
        r@[1]@ == upstream_url_spec(),
        r@[2]@ == work_tree@,
{
    let mut args: Vec<String> = Vec::new();
    args.push("clone".to_owned());
    args.push(upstream_url().to_owned());
    args.push(work_tree.to_owned());
    args
}

/// Arguments of the fetch of the upstream remote into the existing clone.
pub fn fetch_args(git_dir: &str, work_tree: &str) -> (r: Vec<String>)
    ensures
        r@.len() == 6,
        r@[0]@ == "--git-dir"@,
        r@[1]@ == git_dir@,
        r@[2]@ == "--work-tree"@,
        r@[3]@ == work_tree@,
        r@[4]@ == "fetch"@,
        r@[5]@ == upstream_remote_spec(),
{
    let mut args = addressed_prefix(git_dir, work_tree);
    args.push("fetch".to_owned());
    args.push(upstream_remote().to_owned());
    args
}

/// Arguments of the query that asks whether the mirror remote is configured.
pub fn check_remote_args(git_dir: &str, work_tree: &str) -> (r: Vec<String>)
    ensures
        r@.len() == 7,
        r@[0]@ == "--git-dir"@,
        r@[1]@ == git_dir@,
        r@[2]@ == "--work-tree"@,
        r@[3]@ == work_tree@,
        r@[4]@ == "remote"@,
        r@[5]@ == "show"@,
        r@[6]@ == mirror_remote_spec(),
{
    let mut args = addressed_prefix(git_dir, work_tree);
    args.push("remote".to_owned());
    args.push("show".to_owned());
    args.push(mirror_remote().to_owned());
    args
}

/// Arguments of the registration of the mirror remote, under its fixed name
/// and URL.
pub fn add_remote_args(git_dir: &str, work_tree: &str) -> (r: Vec<String>)
    ensures
        r@.len() == 8,
        r@[0]@ == "--git-dir"@,
        r@[1]@ == git_dir@,
        r@[2]@ == "--work-tree"@,
        r@[3]@ == work_tree@,
        r@[4]@ == "remote"@,
        r@[5]@ == "add"@,
        r@[6]@ == mirror_remote_spec(),
        r@[7]@ == mirror_url_spec(),
{
    let mut args = addressed_prefix(git_dir, work_tree);
    args.push("remote".to_owned());
    args.push("add".to_owned());
    args.push(mirror_remote().to_owned());
    args.push(mirror_url().to_owned());
    args
}

/// Arguments of the force-push: the upstream remote's primary branch onto the
/// mirror's primary branch, with the overwrite flag set. This holds for every
/// run: the argument list takes no branch.
pub fn push_args(git_dir: &str, work_tree: &str) -> (r: Vec<String>)
    ensures
        r@.len() == 8,
        r@[0]@ == "--git-dir"@,
        r@[1]@ == git_dir@,
        r@[2]@ == "--work-tree"@,
        r@[3]@ == work_tree@,
        r@[4]@ == "push"@,
        r@[5]@ == mirror_remote_spec(),
        r@[6]@ == push_refspec_spec(),
        r@[7]@ == "-f"@,
{
    let mut args = addressed_prefix(git_dir, work_tree);
    args.push("push".to_owned());
    args.push(mirror_remote().to_owned());
    args.push(push_refspec());
    args.push("-f".to_owned());
    args
}

} // verus!
