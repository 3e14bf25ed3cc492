//! The on-disk naming convention of a workspace.
//!
//! All paths are relative to the workspace root.
use vstd::prelude::*;

verus! {

/// `repos/<name>`: where a repository entry lives.
pub open spec fn repo_path_spec(name: Seq<char>) -> Seq<char> {
    "repos/"@ + name
}

/// `.devcontainer/<name>`: where a container definition lives.
pub open spec fn container_path_spec(name: Seq<char>) -> Seq<char> {
    ".devcontainer/"@ + name
}

/// The directory a container definition points into: the repository root when
/// `subdir` is empty, `repos/<repo>/<subdir>` otherwise.
pub open spec fn subdir_path_spec(repo: Seq<char>, subdir: Seq<char>) -> Seq<char> {
    if subdir.len() == 0 {
        repo_path_spec(repo)
    } else {
        repo_path_spec(repo) + "/"@ + subdir
    }
}

/// Builds `prefix + a` as an owned string.
fn join2(prefix: &str, a: &str) -> (r: String)
    ensures
        r@ == prefix@ + a@,
{
    let mut s = String::from_str(prefix);
    s.append(a);
    s
}

/// Returns `repos/<name>`.
pub fn repo_path(name: &str) -> (r: String)
    ensures
        r@ == repo_path_spec(name@),
{
    join2("repos/", name)
}

/// Returns `.devcontainer/<name>`.
pub fn container_path(name: &str) -> (r: String)
    ensures
        r@ == container_path_spec(name@),
{
    join2(".devcontainer/", name)
}

/// Returns the directory that must exist for a container definition over
/// `subdir` of repository `repo`.
pub fn subdir_path(repo: &str, subdir: &str) -> (r: String)
    ensures
        r@ == subdir_path_spec(repo@, subdir@),
{
    let mut s = repo_path(repo);
    if subdir.unicode_len() != 0 {
        s.append("/");
        s.append(subdir);
    }
    s
}

/// `.devcontainer/<name>/Dockerfile`: the container build file.
pub open spec fn dockerfile_path_spec(name: Seq<char>) -> Seq<char> {
    container_path_spec(name) + "/Dockerfile"@
}

/// `.devcontainer/<name>/prebuild`: the script that builds the repository's image.
pub open spec fn prebuild_path_spec(name: Seq<char>) -> Seq<char> {
    container_path_spec(name) + "/prebuild"@
}

/// `.devcontainer/<name>/devcontainer.json`: the container metadata descriptor.
pub open spec fn metadata_path_spec(name: Seq<char>) -> Seq<char> {
    container_path_spec(name) + "/devcontainer.json"@
}

/// `./<name>`: the launcher script of a container.
pub open spec fn launcher_path_spec(name: Seq<char>) -> Seq<char> {
    "./"@ + name
}

/// `repos/<name>/Dockerfile`: the build file of a repository that was not cloned.
pub open spec fn placeholder_path_spec(name: Seq<char>) -> Seq<char> {
    repo_path_spec(name) + "/Dockerfile"@
}

/// `<root>/repos`: the repositories area of a new workspace.
pub open spec fn repos_dir_spec(root: Seq<char>) -> Seq<char> {
    root + "/repos"@
}

/// `<root>/.devcontainer`: the container definitions area of a new workspace.
pub open spec fn containers_dir_spec(root: Seq<char>) -> Seq<char> {
    root + "/.devcontainer"@
}

/// `<root>/.devcontainer/common.sh`: the shell library the launchers source.
pub open spec fn common_library_path_spec(root: Seq<char>) -> Seq<char> {
    root + "/.devcontainer/common.sh"@
}

/// Returns `.devcontainer/<name>/Dockerfile`.
pub fn dockerfile_path(name: &str) -> (r: String)
    ensures
        r@ == dockerfile_path_spec(name@),
{
    let mut s = container_path(name);
    s.append("/Dockerfile");
    s
}

/// Returns `.devcontainer/<name>/prebuild`.
pub fn prebuild_path(name: &str) -> (r: String)
    ensures
        r@ == prebuild_path_spec(name@),
{
    let mut s = container_path(name);
    s.append("/prebuild");
    s
}

/// Returns `.devcontainer/<name>/devcontainer.json`.
pub fn metadata_path(name: &str) -> (r: String)
    ensures
        r@ == metadata_path_spec(name@),
{
    let mut s = container_path(name);
    s.append("/devcontainer.json");
    s
}

/// Returns `./<name>`.
pub fn launcher_path(name: &str) -> (r: String)
    ensures
        r@ == launcher_path_spec(name@),
{
    join2("./", name)
}

/// Returns `repos/<name>/Dockerfile`.
pub fn placeholder_path(name: &str) -> (r: String)
    ensures
        r@ == placeholder_path_spec(name@),
{
    let mut s = repo_path(name);
    s.append("/Dockerfile");
    s
}

/// Returns `<root>/repos`.
pub fn repos_dir(root: &str) -> (r: String)
    ensures
        r@ == repos_dir_spec(root@),
{
    join2(root, "/repos")
}

/// Returns `<root>/.devcontainer`.
pub fn containers_dir(root: &str) -> (r: String)
    ensures
        r@ == containers_dir_spec(root@),
{
    join2(root, "/.devcontainer")
}

/// Returns `<root>/.devcontainer/common.sh`.
pub fn common_library_path(root: &str) -> (r: String)
    ensures
        r@ == common_library_path_spec(root@),
{
    join2(root, "/.devcontainer/common.sh")
}

} // verus!
