//! What a run does, step by step: bring the repository up to date, check
//! that the task's script exists, run it, and after a zero exit package the
//! build output when it is a directory.
//!
//! The server performs each piece of work (git, the file system, the shell,
//! zipping) and reports what came of it as an event; `RunJob::step` decides
//! what is logged, which status the run gets and what work comes next.

use vstd::prelude::*;
use crate::models::{status_text, RunStatus};
use crate::text::{concat3, decimal, i64_to_decimal};

verus! {

/// Where a run stands.
#[derive(Debug, Clone, Copy, PartialEq, Eq, Structural)]
pub enum RunPhase {
    UpdatingRepo,
    CheckingScript,
    RunningScript,
    CheckingDist,
    Packaging,
    Done(RunStatus),
}

/// What came of the last piece of work.
#[derive(Debug)]
pub enum RunEvent {
    /// The clone or fetch finished; the error text when it failed.
    RepoUpdated(Result<(), String>),
    /// Whether `.mini-ci/<task>` is a file.
    ScriptChecked(bool),
    /// The script's exit code, or the text of the error that kept it from
    /// running to an exit code.
    ScriptFinished(Result<i32, String>),
    /// Whether the project's dist path is a directory.
    DistChecked(bool),
    /// Whether the build output was zipped and recorded.
    Packaged(bool),
}

/// The next piece of work.
#[derive(Debug, Clone, Copy, PartialEq, Eq, Structural)]
pub enum RunWork {
    UpdateRepo,
    CheckScript,
    RunScript,
    CheckDist,
    Package,
    Stop,
}

/// A run of one task.
#[derive(Debug, Clone)]
pub struct RunJob {
    pub task_name: String,
    pub phase: RunPhase,
}

/// What one step decided.
#[derive(Debug, Clone)]
pub struct RunStep {
    /// Text to append to the run's log.
    pub log: Option<String>,
    /// The final status to record for the run, with its finishing time.
    pub status: Option<RunStatus>,
    pub work: RunWork,
}

/// The phase after `e`, and the status it records, if any.
pub open spec fn next(p: RunPhase, e: RunEvent) -> (RunPhase, Option<RunStatus>) {
    match (p, e) {
        (RunPhase::UpdatingRepo, RunEvent::RepoUpdated(r)) => match r {
            Ok(_) => (RunPhase::CheckingScript, None),
            Err(_) => (RunPhase::Done(RunStatus::Failed), Some(RunStatus::Failed)),
        },
        (RunPhase::CheckingScript, RunEvent::ScriptChecked(exists)) => if exists {
            (RunPhase::RunningScript, None)
        } else {
            (RunPhase::Done(RunStatus::Failed), Some(RunStatus::Failed))
        },
        (RunPhase::RunningScript, RunEvent::ScriptFinished(r)) => match r {
            Ok(code) => if code == 0 {
                (RunPhase::CheckingDist, Some(RunStatus::Success))
            } else {
                (RunPhase::Done(RunStatus::Failed), Some(RunStatus::Failed))
            },
            Err(_) => (RunPhase::Done(RunStatus::Failed), Some(RunStatus::Failed)),
        },
        (RunPhase::CheckingDist, RunEvent::DistChecked(is_dir)) => if is_dir {
            (RunPhase::Packaging, None)
        } else {
            (RunPhase::Done(RunStatus::Success), None)
        },
        (RunPhase::Packaging, RunEvent::Packaged(_)) => (RunPhase::Done(RunStatus::Success), None),
        (p, _) => (p, None),
    }
}

/// The work that a phase waits for.
pub open spec fn work_of(p: RunPhase) -> RunWork {
    match p {
        RunPhase::UpdatingRepo => RunWork::UpdateRepo,
        RunPhase::CheckingScript => RunWork::CheckScript,
        RunPhase::RunningScript => RunWork::RunScript,
        RunPhase::CheckingDist => RunWork::CheckDist,
        RunPhase::Packaging => RunWork::Package,
        RunPhase::Done(_) => RunWork::Stop,
    }
}

/// The log line that ends a script's run.
pub open spec fn exit_message(r: Result<i32, String>) -> Seq<char> {
    match r {
        Ok(code) => "\n--- exit code: "@ + decimal(code as int) + " ---\n"@,
        Err(e) => "\n--- runner error: "@ + e@ + " ---\n"@,
    }
}

/// The text a step appends to the run's log.
pub open spec fn step_log(task: Seq<char>, p: RunPhase, e: RunEvent) -> Option<Seq<char>> {
    match (p, e) {
        (RunPhase::UpdatingRepo, RunEvent::RepoUpdated(Err(m))) => Some(
            "ERROR: repository update failed: "@ + m@ + "\n"@,
        ),
        (RunPhase::CheckingScript, RunEvent::ScriptChecked(false)) => Some(
            "ERROR: script not found: .mini-ci/"@ + task + "\n"@,
        ),
        (RunPhase::RunningScript, RunEvent::ScriptFinished(r)) => Some(exit_message(r)),
        _ => None,
    }
}

/// The log line that ends a script's run: its exit code or the error that
/// kept it from one.
pub fn exit_line(r: &Result<i32, String>) -> (res: String)
    ensures
        res@ == exit_message(*r),
{
    match r {
        Ok(code) => {
            let n = i64_to_decimal(*code as i64);
            concat3("\n--- exit code: ", n.as_str(), " ---\n")
        },
        Err(e) => concat3("\n--- runner error: ", e.as_str(), " ---\n"),
    }
}

impl RunJob {
    /// A run of `task_name` that has not started; its first work is to
    /// bring the repository up to date.
    pub fn new(task_name: String) -> (res: (RunJob, RunWork))
        ensures
            res.0.task_name == task_name,
            res.0.phase == RunPhase::UpdatingRepo,
            res.1 == RunWork::UpdateRepo,
    {
        (RunJob { task_name, phase: RunPhase::UpdatingRepo }, RunWork::UpdateRepo)
    }

    /// Takes in what came of the last work.
    pub fn step(&mut self, e: RunEvent) -> (res: RunStep)
        ensures
            final(self).task_name == old(self).task_name,
            final(self).phase == next(old(self).phase, e).0,
            res.status == next(old(self).phase, e).1,
            res.work == work_of(final(self).phase),
            match res.log {
                Some(l) => step_log(old(self).task_name@, old(self).phase, e) == Some(l@),
                None => step_log(old(self).task_name@, old(self).phase, e) is None,
            },
            old(self).phase == RunPhase::RunningScript ==> (e matches RunEvent::ScriptFinished(
                Ok(code),
            ) ==> if code == 0 {
                res.status == Some(RunStatus::Success) && final(self).phase == RunPhase::CheckingDist
                    && res.work == RunWork::CheckDist
            } else {
                res.status == Some(RunStatus::Failed) && final(self).phase == RunPhase::Done(
                    RunStatus::Failed,
                ) && res.work == RunWork::Stop
            }),
    {
        let mut log: Option<String> = None;
        let mut status: Option<RunStatus> = None;
        let phase = self.phase;
        match (phase, e) {
            (RunPhase::UpdatingRepo, RunEvent::RepoUpdated(r)) => match r {
                Ok(_) => {
                    self.phase = RunPhase::CheckingScript;
                },
                Err(m) => {
                    log = Some(concat3("ERROR: repository update failed: ", m.as_str(), "\n"));
                    status = Some(RunStatus::Failed);
                    self.phase = RunPhase::Done(RunStatus::Failed);
                },
            },
            (RunPhase::CheckingScript, RunEvent::ScriptChecked(exists)) => {
                if exists {
                    self.phase = RunPhase::RunningScript;
                } else {
                    log = Some(
                        concat3(
                            "ERROR: script not found: .mini-ci/",
                            self.task_name.as_str(),
                            "\n",
                        ),
                    );
                    status = Some(RunStatus::Failed);
                    self.phase = RunPhase::Done(RunStatus::Failed);
                }
            },
            (RunPhase::RunningScript, RunEvent::ScriptFinished(r)) => {
                log = Some(exit_line(&r));
                match r {
                    Ok(code) => {
                        if code == 0 {
                            status = Some(RunStatus::Success);
                            self.phase = RunPhase::CheckingDist;
                        } else {
                            status = Some(RunStatus::Failed);
                            self.phase = RunPhase::Done(RunStatus::Failed);
                        }
                    },
                    Err(_) => {
                        status = Some(RunStatus::Failed);
                        self.phase = RunPhase::Done(RunStatus::Failed);
                    },
                }
            },
            (RunPhase::CheckingDist, RunEvent::DistChecked(is_dir)) => {
                if is_dir {
                    self.phase = RunPhase::Packaging;
                } else {
                    self.phase = RunPhase::Done(RunStatus::Success);
                }
            },
            (RunPhase::Packaging, RunEvent::Packaged(_)) => {
                self.phase = RunPhase::Done(RunStatus::Success);
            },
            (_, _) => {},
        }
        let work = match &self.phase {
            RunPhase::UpdatingRepo => RunWork::UpdateRepo,
            RunPhase::CheckingScript => RunWork::CheckScript,
            RunPhase::RunningScript => RunWork::RunScript,
            RunPhase::CheckingDist => RunWork::CheckDist,
            RunPhase::Packaging => RunWork::Package,
            RunPhase::Done(_) => RunWork::Stop,
        };
        RunStep { log, status, work }
    }
}

/// The phase after a sequence of events.
pub open spec fn replay(p: RunPhase, evs: Seq<RunEvent>) -> RunPhase
    decreases evs.len(),
{
    if evs.len() == 0 {
        p
    } else {
        replay(next(p, evs[0]).0, evs.drop_first())
    }
}

/// The statuses recorded along a sequence of events, in order.
pub open spec fn recorded(p: RunPhase, evs: Seq<RunEvent>) -> Seq<RunStatus>
    decreases evs.len(),
{
    if evs.len() == 0 {
        Seq::empty()
    } else {
        let (q, s) = next(p, evs[0]);
        match s {
            Some(st) => seq![st] + recorded(q, evs.drop_first()),
            None => recorded(q, evs.drop_first()),
        }
    }
}

/// Whether, along a sequence of events, the script ran and exited with 0.
pub open spec fn exited_zero(p: RunPhase, evs: Seq<RunEvent>) -> bool
    decreases evs.len(),
{
    if evs.len() == 0 {
        false
    } else {
        ||| (p == RunPhase::RunningScript && evs[0] == RunEvent::ScriptFinished(Ok(0i32)))
        ||| exited_zero(next(p, evs[0]).0, evs.drop_first())
    }
}

/// Whether, along a sequence of events, packaging was asked for.
pub open spec fn packaging_asked(p: RunPhase, evs: Seq<RunEvent>) -> bool
    decreases evs.len(),
{
    if evs.len() == 0 {
        false
    } else {
        ||| work_of(next(p, evs[0]).0) == RunWork::Package && p != RunPhase::Packaging
        ||| packaging_asked(next(p, evs[0]).0, evs.drop_first())
    }
}

/// Whether the run's outcome is not known yet.
pub open spec fn before_outcome(p: RunPhase) -> bool {
    p == RunPhase::UpdatingRepo || p == RunPhase::CheckingScript || p == RunPhase::RunningScript
}

/// The status a phase implies: none before the outcome is known, success
/// while packaging, the recorded one when done.
pub open spec fn phase_status(p: RunPhase) -> Option<RunStatus> {
    match p {
        RunPhase::CheckingDist => Some(RunStatus::Success),
        RunPhase::Packaging => Some(RunStatus::Success),
        RunPhase::Done(s) => Some(s),
        _ => None,
    }
}

proof fn lemma_recorded(p: RunPhase, evs: Seq<RunEvent>)
    ensures
        before_outcome(p) ==> recorded(p, evs) == match phase_status(replay(p, evs)) {
            Some(s) => seq![s],
            None => Seq::<RunStatus>::empty(),
        },
        !before_outcome(p) ==> recorded(p, evs) == Seq::<RunStatus>::empty() && phase_status(
            replay(p, evs),
        ) == phase_status(p),
        before_outcome(p) ==> (phase_status(replay(p, evs)) == Some(RunStatus::Success)
            <==> exited_zero(p, evs)),
        !before_outcome(p) ==> !exited_zero(p, evs),
        packaging_asked(p, evs) ==> exited_zero(p, evs) || phase_status(p) == Some(
            RunStatus::Success,
        ),
        packaging_asked(p, evs) ==> evs.contains(RunEvent::DistChecked(true)),
    decreases evs.len(),
{
    if evs.len() > 0 {
        let (q, s) = next(p, evs[0]);
        lemma_recorded(q, evs.drop_first());
        if before_outcome(p) && s is Some {
            assert(seq![s->0] + Seq::<RunStatus>::empty() =~= seq![s->0]);
        }
        if packaging_asked(p, evs) {
            if work_of(q) == RunWork::Package && p != RunPhase::Packaging {
                assert(evs[0] == RunEvent::DistChecked(true));
            } else {
                let i = choose|i: int|
                    0 <= i < evs.drop_first().len() && evs.drop_first()[i] == RunEvent::DistChecked(
                        true,
                    );
                assert(evs[i + 1] == RunEvent::DistChecked(true));
            }
        }
    }
}

/// Every exit of the script ends the script phase: exit code 0 records
/// success and goes on to look at the build output; any other code records
/// failure, ends the run and asks for no more work.
pub proof fn law_every_exit_code_ends_the_script(code: i32)
    ensures
        code == 0 ==> next(RunPhase::RunningScript, RunEvent::ScriptFinished(Ok(code))) == (
            RunPhase::CheckingDist,
            Some(RunStatus::Success),
        ),
        code != 0 ==> next(RunPhase::RunningScript, RunEvent::ScriptFinished(Ok(code))) == (
            RunPhase::Done(RunStatus::Failed),
            Some(RunStatus::Failed),
        ),
        code != 0 ==> work_of(
            next(RunPhase::RunningScript, RunEvent::ScriptFinished(Ok(code))).0,
        ) == RunWork::Stop,
{
}

/// A run records at most one status; when it is done, it has recorded
/// exactly the status it ended with, and nothing before that.
pub proof fn law_one_status_per_run(evs: Seq<RunEvent>)
    ensures
        recorded(RunPhase::UpdatingRepo, evs).len() <= 1,
        replay(RunPhase::UpdatingRepo, evs) matches RunPhase::Done(s) ==> recorded(
            RunPhase::UpdatingRepo,
            evs,
        ) == seq![s],
{
    lemma_recorded(RunPhase::UpdatingRepo, evs);
}

/// A run succeeds exactly when its script ran and exited with code 0.
pub proof fn law_success_iff_exit_zero(evs: Seq<RunEvent>)
    ensures
        recorded(RunPhase::UpdatingRepo, evs).contains(RunStatus::Success) <==> exited_zero(
            RunPhase::UpdatingRepo,
            evs,
        ),
{
    lemma_recorded(RunPhase::UpdatingRepo, evs);
    let r = recorded(RunPhase::UpdatingRepo, evs);
    if phase_status(replay(RunPhase::UpdatingRepo, evs)) == Some(RunStatus::Success) {
        assert(r[0] == RunStatus::Success);
    }
    if r.contains(RunStatus::Success) {
        let i = choose|i: int| 0 <= i < r.len() && r[i] == RunStatus::Success;
    }
}

/// Build output is packaged only after the script exited with code 0 and
/// the dist path was found to be a directory.
pub proof fn law_package_only_after_success(evs: Seq<RunEvent>)
    ensures
        packaging_asked(RunPhase::UpdatingRepo, evs) ==> exited_zero(RunPhase::UpdatingRepo, evs),
        packaging_asked(RunPhase::UpdatingRepo, evs) ==> evs.contains(RunEvent::DistChecked(true)),
{
    lemma_recorded(RunPhase::UpdatingRepo, evs);
}

} // verus!
