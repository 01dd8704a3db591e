//! Bringing a project's clone up to date with its branch: clone it when it
//! is missing (shallow, the one branch), fetch the branch, check it out
//! (falling back to a plain fetch and to the local branch), and report what
//! was fetched and which commit is checked out.
//!
//! The server runs each git command and reports what came of it; the
//! decisions and the text of the report and of each error are here.

use vstd::prelude::*;
use crate::text::{concat2, concat3, owned, trim, trimmed};

verus! {

/// Where bringing a clone up to date stands.
#[derive(Debug, Clone, PartialEq, Eq)]
pub enum SyncPhase {
    CheckingGitDir,
    CreatingParent,
    Cloning,
    Fetching,
    FetchingAll,
    CheckingOut,
    CheckingOutLocal,
    ReadingHead,
    /// Up to date; the report for the run log.
    Synced(String),
    /// Failed; the error text.
    Failed(String),
}

/// What a git command gave: whether it exited successfully, its exit
/// status as text, and its output decoded as UTF-8 (invalid sequences
/// replaced).
#[derive(Debug, Clone)]
pub struct GitOutput {
    pub success: bool,
    pub status: String,
    pub stdout: String,
    pub stderr: String,
}

/// What came of the last piece of work.
#[derive(Debug)]
pub enum SyncEvent {
    /// Whether `<repo>/.git` exists.
    GitDirChecked(bool),
    /// The parent directory of the clone was created, or the error text.
    ParentCreated(Result<(), String>),
    /// A git command ran, or the error text of starting it.
    GitRan(Result<GitOutput, String>),
}

/// The next piece of work.
#[derive(Debug)]
pub enum SyncWork {
    /// See whether `<repo>/.git` exists.
    CheckGitDir,
    /// Create the clone's parent directory.
    CreateParent,
    /// Run `git` with these arguments, in the clone when `in_repo`.
    RunGit { in_repo: bool, args: Vec<String> },
    /// Done: the report, or the error text.
    Finish(Result<String, String>),
}

/// Bringing one clone up to date.
#[derive(Debug, Clone)]
pub struct RepoSync {
    pub repo_url: String,
    pub branch: String,
    pub dest: String,
    pub phase: SyncPhase,
    /// What the fetch of the branch wrote, error output first.
    pub fetch_log: String,
}

/// The views of a list of strings.
pub open spec fn arg_views(args: Seq<String>) -> Seq<Seq<char>> {
    args.map_values(|s: String| s@)
}

pub open spec fn clone_args(url: Seq<char>, branch: Seq<char>, dest: Seq<char>) -> Seq<Seq<char>> {
    seq!["clone"@, "--depth"@, "1"@, "--branch"@, branch, url, dest]
}

pub open spec fn fetch_args(branch: Seq<char>) -> Seq<Seq<char>> {
    seq!["fetch"@, "origin"@, branch]
}

pub open spec fn fetch_all_args() -> Seq<Seq<char>> {
    seq!["fetch"@, "origin"@]
}

pub open spec fn checkout_args(branch: Seq<char>) -> Seq<Seq<char>> {
    seq!["checkout"@, "-B"@, branch, "origin/"@ + branch]
}

pub open spec fn checkout_local_args(branch: Seq<char>) -> Seq<Seq<char>> {
    seq!["checkout"@, branch]
}

pub open spec fn rev_parse_args() -> Seq<Seq<char>> {
    seq!["rev-parse"@, "HEAD"@]
}

/// The report of a finished update: what the fetch wrote, then the branch
/// and the commit it is at.
pub open spec fn sync_report(fetch_log: Seq<char>, branch: Seq<char>, head_out: Seq<char>) -> Seq<
    char,
> {
    fetch_log + "\nchecked out "@ + branch + " @ "@ + trimmed(head_out) + "\n"@
}

/// The phase after `e`, and the fetch log after it.
pub open spec fn sync_next(p: SyncPhase, fetch_log: Seq<char>, branch: Seq<char>, e: SyncEvent) -> (
    SyncPhase,
    Seq<char>,
) {
    match (p, e) {
        (SyncPhase::CheckingGitDir, SyncEvent::GitDirChecked(exists)) => if exists {
            (SyncPhase::Fetching, fetch_log)
        } else {
            (SyncPhase::CreatingParent, fetch_log)
        },
        (SyncPhase::CreatingParent, SyncEvent::ParentCreated(r)) => match r {
            Ok(_) => (SyncPhase::Cloning, fetch_log),
            Err(m) => (SyncPhase::Failed(m), fetch_log),
        },
        (SyncPhase::Cloning, SyncEvent::GitRan(r)) => match r {
            Ok(o) => if o.success {
                (SyncPhase::Fetching, fetch_log)
            } else {
                (SyncPhase::Failed(o.status), fetch_log)
            },
            Err(m) => (SyncPhase::Failed(m), fetch_log),
        },
        (SyncPhase::Fetching, SyncEvent::GitRan(r)) => match r {
            Ok(o) => if o.success {
                (SyncPhase::CheckingOut, o.stderr@ + o.stdout@)
            } else {
                (SyncPhase::FetchingAll, o.stderr@ + o.stdout@)
            },
            Err(m) => (SyncPhase::Failed(m), fetch_log),
        },
        (SyncPhase::FetchingAll, SyncEvent::GitRan(_)) => (SyncPhase::CheckingOut, fetch_log),
        (SyncPhase::CheckingOut, SyncEvent::GitRan(r)) => match r {
            Ok(o) => if o.success {
                (SyncPhase::ReadingHead, fetch_log)
            } else {
                (SyncPhase::CheckingOutLocal, fetch_log)
            },
            Err(m) => (SyncPhase::Failed(m), fetch_log),
        },
        (SyncPhase::CheckingOutLocal, SyncEvent::GitRan(r)) => match r {
            Ok(o) => if o.success {
                (SyncPhase::ReadingHead, fetch_log)
            } else {
                (SyncPhase::Failed(o.status), fetch_log)
            },
            Err(m) => (SyncPhase::Failed(m), fetch_log),
        },
        (SyncPhase::ReadingHead, SyncEvent::GitRan(r)) => match r {
            Ok(o) => (SyncPhase::Synced(o.stdout), fetch_log),
            Err(m) => (SyncPhase::Failed(m), fetch_log),
        },
        (p, _) => (p, fetch_log),
    }
}

/// The text of the report or error that a phase stands for, given the
/// text carried by the phase before it was entered.
pub open spec fn phase_text_ok(
    before: SyncPhase,
    fetch_log: Seq<char>,
    branch: Seq<char>,
    e: SyncEvent,
    after: SyncPhase,
) -> bool {
    match (before, e, after) {
        (SyncPhase::CreatingParent, SyncEvent::ParentCreated(Err(m)), SyncPhase::Failed(t)) => t@
            == "create repo parent: "@ + m@,
        (SyncPhase::Cloning, SyncEvent::GitRan(Err(m)), SyncPhase::Failed(t)) => t@
            == "spawn git clone: "@ + m@,
        (SyncPhase::Cloning, SyncEvent::GitRan(Ok(o)), SyncPhase::Failed(t)) => t@
            == "git clone failed with "@ + o.status@,
        (SyncPhase::Fetching, SyncEvent::GitRan(Err(m)), SyncPhase::Failed(t)) => t@ == "git fetch: "@
            + m@,
        (SyncPhase::CheckingOut, SyncEvent::GitRan(Err(m)), SyncPhase::Failed(t)) => t@
            == "git checkout: "@ + m@,
        (SyncPhase::CheckingOutLocal, SyncEvent::GitRan(Err(m)), SyncPhase::Failed(t)) => t@
            == "git checkout local: "@ + m@,
        (SyncPhase::CheckingOutLocal, SyncEvent::GitRan(Ok(_)), SyncPhase::Failed(t)) => t@
            == "git checkout failed"@,
        (SyncPhase::ReadingHead, SyncEvent::GitRan(Err(m)), SyncPhase::Failed(t)) => t@
            == "git rev-parse: "@ + m@,
        (SyncPhase::ReadingHead, SyncEvent::GitRan(Ok(o)), SyncPhase::Synced(t)) => t@
            == sync_report(fetch_log, branch, o.stdout@),
        _ => true,
    }
}

/// Phases of the same kind, whatever text they carry.
pub open spec fn same_kind(a: SyncPhase, b: SyncPhase) -> bool {
    match (a, b) {
        (SyncPhase::Synced(_), SyncPhase::Synced(_)) => true,
        (SyncPhase::Failed(_), SyncPhase::Failed(_)) => true,
        _ => a == b,
    }
}

/// The work a phase asks for.
pub open spec fn sync_work_ok(
    w: SyncWork,
    p: SyncPhase,
    url: Seq<char>,
    branch: Seq<char>,
    dest: Seq<char>,
) -> bool {
    match p {
        SyncPhase::CheckingGitDir => w is CheckGitDir,
        SyncPhase::CreatingParent => w is CreateParent,
        SyncPhase::Cloning => w matches SyncWork::RunGit { in_repo, args } && !in_repo
            && arg_views(args@) == clone_args(url, branch, dest),
        SyncPhase::Fetching => w matches SyncWork::RunGit { in_repo, args } && in_repo
            && arg_views(args@) == fetch_args(branch),
        SyncPhase::FetchingAll => w matches SyncWork::RunGit { in_repo, args } && in_repo
            && arg_views(args@) == fetch_all_args(),
        SyncPhase::CheckingOut => w matches SyncWork::RunGit { in_repo, args } && in_repo
            && arg_views(args@) == checkout_args(branch),
        SyncPhase::CheckingOutLocal => w matches SyncWork::RunGit { in_repo, args } && in_repo
            && arg_views(args@) == checkout_local_args(branch),
        SyncPhase::ReadingHead => w matches SyncWork::RunGit { in_repo, args } && in_repo
            && arg_views(args@) == rev_parse_args(),
        SyncPhase::Synced(t) => w matches SyncWork::Finish(Ok(r)) && r@ == t@,
        SyncPhase::Failed(t) => w matches SyncWork::Finish(Err(r)) && r@ == t@,
    }
}

/// A clone succeeds exactly when git exits successfully, whatever it
/// wrote; it fails only when git exits unsuccessfully or cannot be started.
pub proof fn law_clone_judged_by_exit_status(
    fetch_log: Seq<char>,
    branch: Seq<char>,
    e: SyncEvent,
)
    ensures
        e matches SyncEvent::GitRan(Ok(o)) ==> (o.success <==> sync_next(
            SyncPhase::Cloning,
            fetch_log,
            branch,
            e,
        ).0 == SyncPhase::Fetching),
        sync_next(SyncPhase::Cloning, fetch_log, branch, e).0 is Failed ==> (
        e matches SyncEvent::GitRan(r) && (r is Err || (r matches Ok(o) && !o.success))),
{
}

/// The phase after a sequence of events.
pub open spec fn sync_replay(p: SyncPhase, fetch_log: Seq<char>, branch: Seq<char>, evs: Seq<
    SyncEvent,
>) -> SyncPhase
    decreases evs.len(),
{
    if evs.len() == 0 {
        p
    } else {
        let (q, f) = sync_next(p, fetch_log, branch, evs[0]);
        sync_replay(q, f, branch, evs.drop_first())
    }
}

/// Whether a checkout command succeeded, the first one or the fallback to
/// the local branch, along a sequence of events.
pub open spec fn checked_out(p: SyncPhase, fetch_log: Seq<char>, branch: Seq<char>, evs: Seq<
    SyncEvent,
>) -> bool
    decreases evs.len(),
{
    if evs.len() == 0 {
        false
    } else {
        let (q, f) = sync_next(p, fetch_log, branch, evs[0]);
        ||| ((p == SyncPhase::CheckingOut || p == SyncPhase::CheckingOutLocal) && (
        evs[0] matches SyncEvent::GitRan(Ok(o)) && o.success))
        ||| checked_out(q, f, branch, evs.drop_first())
    }
}

/// Whether a phase comes after a checkout succeeded.
pub open spec fn after_checkout(p: SyncPhase) -> bool {
    p == SyncPhase::ReadingHead || p is Synced
}

proof fn lemma_synced_needs_checkout(
    p: SyncPhase,
    fetch_log: Seq<char>,
    branch: Seq<char>,
    evs: Seq<SyncEvent>,
)
    ensures
        sync_replay(p, fetch_log, branch, evs) is Synced ==> after_checkout(p) || checked_out(
            p,
            fetch_log,
            branch,
            evs,
        ),
    decreases evs.len(),
{
    if evs.len() > 0 {
        let (q, f) = sync_next(p, fetch_log, branch, evs[0]);
        lemma_synced_needs_checkout(q, f, branch, evs.drop_first());
    }
}

/// An update ends up to date only after a checkout of the branch succeeded.
pub proof fn law_up_to_date_only_after_checkout(branch: Seq<char>, evs: Seq<SyncEvent>)
    ensures
        sync_replay(SyncPhase::CheckingGitDir, Seq::empty(), branch, evs) is Synced
            ==> checked_out(SyncPhase::CheckingGitDir, Seq::empty(), branch, evs),
{
    lemma_synced_needs_checkout(SyncPhase::CheckingGitDir, Seq::empty(), branch, evs);
}

fn args_of(items: &[&str]) -> (res: Vec<String>)
    ensures
        res.len() == items@.len(),
        forall|i: int| 0 <= i < items@.len() ==> #[trigger] res@[i]@ == items@[i]@,
{
    let mut res: Vec<String> = Vec::new();
    let mut i: usize = 0;
    while i < items.len()
        invariant
            i <= items@.len(),
            res.len() == i,
            forall|j: int| 0 <= j < i ==> #[trigger] res@[j]@ == items@[j]@,
        decreases items@.len() - i,
    {
        res.push(owned(items[i]));
        i = i + 1;
    }
    res
}

impl RepoSync {
    /// Bringing the clone at `dest` of `repo_url` up to date with `branch`;
    /// the first work is to see whether the clone exists.
    pub fn new(repo_url: String, branch: String, dest: String) -> (res: (RepoSync, SyncWork))
        ensures
            res.0.repo_url == repo_url,
            res.0.branch == branch,
            res.0.dest == dest,
            res.0.phase == SyncPhase::CheckingGitDir,
            res.0.fetch_log@ == Seq::<char>::empty(),
            res.1 is CheckGitDir,
    {
        (
            RepoSync { repo_url, branch, dest, phase: SyncPhase::CheckingGitDir, fetch_log: String::new() },
            SyncWork::CheckGitDir,
        )
    }

    /// The work the current phase asks for.
    pub fn work(&self) -> (res: SyncWork)
        ensures
            sync_work_ok(res, self.phase, self.repo_url@, self.branch@, self.dest@),
    {
        let b = self.branch.as_str();
        match &self.phase {
            SyncPhase::CheckingGitDir => SyncWork::CheckGitDir,
            SyncPhase::CreatingParent => SyncWork::CreateParent,
            SyncPhase::Cloning => {
                let head = args_of(&["clone", "--depth", "1", "--branch"]);
                let mut args = head;
                args.push(self.branch.clone());
                args.push(self.repo_url.clone());
                args.push(self.dest.clone());
                proof {
                    reveal_strlit("clone");
                    reveal_strlit("--depth");
                    reveal_strlit("1");
                    reveal_strlit("--branch");
                    assert(arg_views(args@) =~= clone_args(self.repo_url@, self.branch@, self.dest@));
                }
                SyncWork::RunGit { in_repo: false, args }
            },
            SyncPhase::Fetching => {
                let mut args = args_of(&["fetch", "origin"]);
                args.push(self.branch.clone());
                assert(arg_views(args@) =~= fetch_args(self.branch@));
                SyncWork::RunGit { in_repo: true, args }
            },
            SyncPhase::FetchingAll => {
                let args = args_of(&["fetch", "origin"]);
                assert(arg_views(args@) =~= fetch_all_args());
                SyncWork::RunGit { in_repo: true, args }
            },
            SyncPhase::CheckingOut => {
                let mut args = args_of(&["checkout", "-B"]);
                args.push(self.branch.clone());
                args.push(concat2("origin/", b));
                assert(arg_views(args@) =~= checkout_args(self.branch@));
                SyncWork::RunGit { in_repo: true, args }
            },
            SyncPhase::CheckingOutLocal => {
                let mut args = args_of(&["checkout"]);
                args.push(self.branch.clone());
                assert(arg_views(args@) =~= checkout_local_args(self.branch@));
                SyncWork::RunGit { in_repo: true, args }
            },
            SyncPhase::ReadingHead => {
                let args = args_of(&["rev-parse", "HEAD"]);
                assert(arg_views(args@) =~= rev_parse_args());
                SyncWork::RunGit { in_repo: true, args }
            },
            SyncPhase::Synced(t) => SyncWork::Finish(Ok(t.clone())),
            SyncPhase::Failed(t) => SyncWork::Finish(Err(t.clone())),
        }
    }

    /// Takes in what came of the last work and says what to do next.
    pub fn step(&mut self, e: SyncEvent) -> (res: SyncWork)
        ensures
            final(self).repo_url == old(self).repo_url,
            final(self).branch == old(self).branch,
            final(self).dest == old(self).dest,
            same_kind(final(self).phase, sync_next(old(self).phase, old(self).fetch_log@, old(self).branch@, e).0),
            final(self).fetch_log@ == sync_next(old(self).phase, old(self).fetch_log@, old(self).branch@, e).1,
            phase_text_ok(old(self).phase, old(self).fetch_log@, old(self).branch@, e, final(self).phase),
            old(self).phase is Synced || old(self).phase is Failed ==> final(self).phase == old(
                self,
            ).phase,
            old(self).phase == SyncPhase::Cloning ==> (e matches SyncEvent::GitRan(Ok(o)) ==> (
            o.success <==> final(self).phase == SyncPhase::Fetching)),
            old(self).phase == SyncPhase::Cloning && final(self).phase is Failed ==> (
            e matches SyncEvent::GitRan(r) && (r is Err || (r matches Ok(o) && !o.success))),
            sync_work_ok(res, final(self).phase, final(self).repo_url@, final(self).branch@, final(self).dest@),
    {
        match (&self.phase, e) {
            (SyncPhase::CheckingGitDir, SyncEvent::GitDirChecked(exists)) => {
                self.phase = if exists { SyncPhase::Fetching } else { SyncPhase::CreatingParent };
            },
            (SyncPhase::CreatingParent, SyncEvent::ParentCreated(r)) => match r {
                Ok(_) => {
                    self.phase = SyncPhase::Cloning;
                },
                Err(m) => {
                    self.phase = SyncPhase::Failed(concat2("create repo parent: ", m.as_str()));
                },
            },
            (SyncPhase::Cloning, SyncEvent::GitRan(r)) => match r {
                Ok(o) => {
                    if o.success {
                        self.phase = SyncPhase::Fetching;
                    } else {
                        self.phase = SyncPhase::Failed(
                            concat2("git clone failed with ", o.status.as_str()),
                        );
                    }
                },
                Err(m) => {
                    self.phase = SyncPhase::Failed(concat2("spawn git clone: ", m.as_str()));
                },
            },
            (SyncPhase::Fetching, SyncEvent::GitRan(r)) => match r {
                Ok(o) => {
                    self.fetch_log = concat2(o.stderr.as_str(), o.stdout.as_str());
                    self.phase = if o.success {
                        SyncPhase::CheckingOut
                    } else {
                        SyncPhase::FetchingAll
                    };
                },
                Err(m) => {
                    self.phase = SyncPhase::Failed(concat2("git fetch: ", m.as_str()));
                },
            },
            (SyncPhase::FetchingAll, SyncEvent::GitRan(_)) => {
                self.phase = SyncPhase::CheckingOut;
            },
            (SyncPhase::CheckingOut, SyncEvent::GitRan(r)) => match r {
                Ok(o) => {
                    self.phase = if o.success {
                        SyncPhase::ReadingHead
                    } else {
                        SyncPhase::CheckingOutLocal
                    };
                },
                Err(m) => {
                    self.phase = SyncPhase::Failed(concat2("git checkout: ", m.as_str()));
                },
            },
            (SyncPhase::CheckingOutLocal, SyncEvent::GitRan(r)) => match r {
                Ok(o) => {
                    if o.success {
                        self.phase = SyncPhase::ReadingHead;
                    } else {
                        self.phase = SyncPhase::Failed(owned("git checkout failed"));
                    }
                },
                Err(m) => {
                    self.phase = SyncPhase::Failed(concat2("git checkout local: ", m.as_str()));
                },
            },
            (SyncPhase::ReadingHead, SyncEvent::GitRan(r)) => match r {
                Ok(o) => {
                    let hash = trim(o.stdout.as_str());
                    let a = concat3(self.fetch_log.as_str(), "\nchecked out ", self.branch.as_str());
                    let b = concat3(a.as_str(), " @ ", hash.as_str());
                    let report = concat2(b.as_str(), "\n");
                    assert(report@ =~= sync_report(self.fetch_log@, self.branch@, o.stdout@));
                    self.phase = SyncPhase::Synced(report);
                },
                Err(m) => {
                    self.phase = SyncPhase::Failed(concat2("git rev-parse: ", m.as_str()));
                },
            },
            (_, _) => {},
        }
        self.work()
    }
}

} // verus!
