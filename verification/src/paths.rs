//! Where the server keeps its files, as paths built by joining components
//! the way `std::path::Path::join` does on Unix: a component that starts
//! with `/` replaces the path, otherwise a `/` separates the two unless the
//! path is empty or already ends in one.

use vstd::prelude::*;
use crate::text::{chars_of, concat2, concat3, owned};

verus! {

/// `base` joined with `part`.
pub open spec fn path_join(base: Seq<char>, part: Seq<char>) -> Seq<char> {
    if part.len() > 0 && part[0] == '/' {
        part
    } else if base.len() == 0 || base.last() == '/' {
        base + part
    } else {
        base + seq!['/'] + part
    }
}

/// `base` joined with `part`.
pub fn join(base: &str, part: &str) -> (res: String)
    ensures
        res@ == path_join(base@, part@),
{
    let p = chars_of(part);
    if p.len() > 0 && p[0] == '/' {
        return owned(part);
    }
    let b = chars_of(base);
    if b.len() == 0 || b[b.len() - 1] == '/' {
        concat2(base, part)
    } else {
        proof {
            reveal_strlit("/");
        }
        concat3(base, "/", part)
    }
}

/// The clone of a project's repository: `<data>/repos/<project-id>`.
pub open spec fn repo_dir_spec(data_root: Seq<char>, project_id: Seq<char>) -> Seq<char> {
    path_join(path_join(data_root, "repos"@), project_id)
}

/// The clone of a project's repository: `<data>/repos/<project-id>`.
pub fn repo_dir(data_root: &str, project_id: &str) -> (res: String)
    ensures
        res@ == repo_dir_spec(data_root@, project_id@),
{
    let repos = join(data_root, "repos");
    join(repos.as_str(), project_id)
}

/// The directory of a project's artifacts: `<data>/artifacts/<project-id>`.
pub open spec fn artifacts_dir_spec(data_root: Seq<char>, project_id: Seq<char>) -> Seq<char> {
    path_join(path_join(data_root, "artifacts"@), project_id)
}

/// The directory of a project's artifacts: `<data>/artifacts/<project-id>`.
pub fn artifacts_dir(data_root: &str, project_id: &str) -> (res: String)
    ensures
        res@ == artifacts_dir_spec(data_root@, project_id@),
{
    let dir = join(data_root, "artifacts");
    join(dir.as_str(), project_id)
}

/// Where an artifact file is stored:
/// `<data>/artifacts/<project-id>/<filename>`.
pub open spec fn artifact_path_spec(
    data_root: Seq<char>,
    project_id: Seq<char>,
    filename: Seq<char>,
) -> Seq<char> {
    path_join(artifacts_dir_spec(data_root, project_id), filename)
}

/// Where an artifact file is stored:
/// `<data>/artifacts/<project-id>/<filename>`.
pub fn artifact_paths(data_root: &str, project_id: &str, filename: &str) -> (res: String)
    ensures
        res@ == artifact_path_spec(data_root@, project_id@, filename@),
{
    let dir = artifacts_dir(data_root, project_id);
    join(dir.as_str(), filename)
}

/// The name of the directory, at the root of a repository, that holds the
/// task scripts.
pub open spec fn scripts_dir_name() -> Seq<char> {
    ".mini-ci"@
}

/// The directory of a repository's task scripts: `<repo>/.mini-ci`.
pub fn scripts_dir(repo: &str) -> (res: String)
    ensures
        res@ == path_join(repo@, scripts_dir_name()),
{
    join(repo, ".mini-ci")
}

/// The file of a task: `<repo>/.mini-ci/<task>`.
pub fn script_path(repo: &str, task_name: &str) -> (res: String)
    ensures
        res@ == path_join(path_join(repo@, scripts_dir_name()), task_name@),
{
    let dir = scripts_dir(repo);
    join(dir.as_str(), task_name)
}

/// A `..` component starts at `i` of `rel`: two dots with a `/` or the
/// end of the path on each side.
pub open spec fn dotdot_at(rel: Seq<char>, i: int) -> bool {
    &&& 0 <= i
    &&& i + 2 <= rel.len()
    &&& rel[i] == '.'
    &&& rel[i + 1] == '.'
    &&& (i == 0 || rel[i - 1] == '/')
    &&& (i + 2 == rel.len() || rel[i + 2] == '/')
}

/// `rel`, joined to a directory, names something inside that directory: it
/// does not start with `/` and has no `..` component.
pub open spec fn stays_inside(rel: Seq<char>) -> bool {
    &&& !(rel.len() > 0 && rel[0] == '/')
    &&& forall|i: int| !#[trigger] dotdot_at(rel, i)
}

/// The path `dir` and a relative path inside it make: `dir`, a `/` unless
/// `dir` is empty or already ends in one, and the relative path.
pub open spec fn in_dir(dir: Seq<char>, rel: Seq<char>) -> Seq<char> {
    if dir.len() == 0 || dir.last() == '/' {
        dir + rel
    } else {
        dir + seq!['/'] + rel
    }
}

/// Whether `rel`, joined to a directory, stays inside it.
pub fn check_stays_inside(rel: &str) -> (res: bool)
    ensures
        res == stays_inside(rel@),
{
    let v = chars_of(rel);
    let n = v.len();
    if n > 0 && v[0] == '/' {
        return false;
    }
    let mut i: usize = 0;
    while n >= 2 && i <= n - 2
        invariant
            v@ == rel@,
            n == v.len(),
            i <= n,
            forall|j: int| 0 <= j < i ==> !#[trigger] dotdot_at(rel@, j),
        decreases n - i,
    {
        if v[i] == '.' && v[i + 1] == '.' && (i == 0 || v[i - 1] == '/') && (i + 2 == n || v[i
            + 2] == '/') {
            assert(dotdot_at(rel@, i as int));
            return false;
        }
        i = i + 1;
    }
    assert forall|j: int| !#[trigger] dotdot_at(rel@, j) by {
        if j >= i {
            assert(!(j + 2 <= rel@.len()));
        }
    }
    true
}

/// The build output of a project: its dist path under the repository root,
/// `None` for a dist path that would leave the repository (one that starts
/// with `/` or has a `..` component).
pub fn dist_dir(repo: &str, dist_path: &str) -> (res: Option<String>)
    ensures
        res is Some <==> stays_inside(dist_path@),
        res matches Some(d) ==> d@ == path_join(repo@, dist_path@) && d@ == in_dir(
            repo@,
            dist_path@,
        ),
{
    if check_stays_inside(dist_path) {
        Some(join(repo, dist_path))
    } else {
        None
    }
}

/// The directory whose presence marks a finished clone: `<repo>/.git`.
pub fn git_dir(repo: &str) -> (res: String)
    ensures
        res@ == path_join(repo@, ".git"@),
{
    join(repo, ".git")
}

/// The database file: `<data>/mini-ci.sqlite`.
pub fn db_path(data_root: &str) -> (res: String)
    ensures
        res@ == path_join(data_root@, "mini-ci.sqlite"@),
{
    join(data_root, "mini-ci.sqlite")
}

/// Joining one base with two relative parts gives the same path only for
/// the same part.
pub proof fn lemma_join_injective(base: Seq<char>, a: Seq<char>, b: Seq<char>)
    requires
        !(a.len() > 0 && a[0] == '/'),
        !(b.len() > 0 && b[0] == '/'),
        path_join(base, a) == path_join(base, b),
    ensures
        a == b,
{
    let pre = if base.len() == 0 || base.last() == '/' {
        base
    } else {
        base + seq!['/']
    };
    assert(path_join(base, a) =~= pre + a);
    assert(path_join(base, b) =~= pre + b);
    assert(a =~= (pre + a).skip(pre.len() as int));
    assert(b =~= (pre + b).skip(pre.len() as int));
}

/// Each project has a clone of its own: projects whose ids are relative
/// names (as generated ids are) never share a repository directory.
pub proof fn law_one_clone_per_project(data_root: Seq<char>, a: Seq<char>, b: Seq<char>)
    requires
        !(a.len() > 0 && a[0] == '/'),
        !(b.len() > 0 && b[0] == '/'),
        a != b,
    ensures
        repo_dir_spec(data_root, a) != repo_dir_spec(data_root, b),
{
    if repo_dir_spec(data_root, a) == repo_dir_spec(data_root, b) {
        lemma_join_injective(path_join(data_root, "repos"@), a, b);
    }
}

/// Each project keeps its artifacts in a directory of its own.
pub proof fn law_artifacts_apart_per_project(data_root: Seq<char>, a: Seq<char>, b: Seq<char>)
    requires
        !(a.len() > 0 && a[0] == '/'),
        !(b.len() > 0 && b[0] == '/'),
        a != b,
    ensures
        artifacts_dir_spec(data_root, a) != artifacts_dir_spec(data_root, b),
{
    if artifacts_dir_spec(data_root, a) == artifacts_dir_spec(data_root, b) {
        lemma_join_injective(path_join(data_root, "artifacts"@), a, b);
    }
}

} // verus!
