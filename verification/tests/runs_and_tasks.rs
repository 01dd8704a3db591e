use mini_ci::models::{RunRow, RunStatus};
use mini_ci::pipeline::{exit_line, RunEvent, RunJob, RunPhase, RunWork};
use mini_ci::runlog::{log_char_len, log_since, run_meta, run_since};
use mini_ci::tasks::{select_task_scripts, task_infos, validate_task_name, DirEntryInfo, TaskNameError};

#[test]
fn reading_from_zero_gives_the_whole_log() {
    assert_eq!(log_since("héllo", 0), ("héllo".to_string(), 5));
}

#[test]
fn reading_counts_characters() {
    assert_eq!(log_since("héllo", 2), ("llo".to_string(), 5));
    assert_eq!(log_char_len("héllo"), 5);
}

#[test]
fn reading_past_the_end_gives_nothing() {
    assert_eq!(log_since("abc", 3), (String::new(), 3));
    assert_eq!(log_since("abc", 10), (String::new(), 3));
    assert_eq!(log_since("", usize::MAX), (String::new(), 0));
}

#[test]
fn reading_after_an_append_gives_the_chunk() {
    let (first, n) = log_since("[stdout] a\n", 0);
    let log = format!("{}{}", first, "[stdout] b\n");
    let (second, m) = log_since(&log, n);
    assert_eq!(second, "[stdout] b\n");
    assert_eq!(m, 22);
    assert_eq!(format!("{}{}", first, second), log);
}

#[test]
fn runs_served_from_an_offset() {
    let mut r = RunRow::started("r".to_string(), "p".to_string(), "t.sh".to_string(), 1);
    r.log = "one\ntwo\n".to_string();
    let meta = run_meta(&r);
    assert_eq!(meta.log_char_len, 8);
    assert_eq!(meta.status, "running");
    let (cut, total) = run_since(r, 4);
    assert_eq!(cut.log, "two\n");
    assert_eq!(total, 8);
    assert_eq!(cut.id, "r");
}

fn entry(name: &str, is_file: bool) -> DirEntryInfo {
    DirEntryInfo { name: name.to_string(), is_file }
}

#[test]
fn task_scripts_are_sh_files_sorted_by_name() {
    let entries = vec![
        entry("test.sh", true),
        entry("build.sh", true),
        entry("notes.txt", true),
        entry("dir.sh", false),
        entry("a.sh", true),
        entry("B.sh", true),
        entry("build.sh.bak", true),
    ];
    assert_eq!(select_task_scripts(&entries), vec!["B.sh", "a.sh", "build.sh", "test.sh"]);
    assert_eq!(select_task_scripts(&vec![]), Vec::<String>::new());
}

#[test]
fn task_scripts_prefix_sorts_first() {
    let entries = vec![entry("ab.sh.sh", true), entry("ab.sh", true), entry("é.sh", true)];
    assert_eq!(select_task_scripts(&entries), vec!["ab.sh", "ab.sh.sh", "é.sh"]);
}

#[test]
fn task_infos_keep_names() {
    let infos = task_infos(vec!["a.sh".to_string(), "b.sh".to_string()]);
    assert_eq!(infos.len(), 2);
    assert_eq!(infos[1].name, "b.sh");
}

#[test]
fn task_names_are_trimmed_bare_file_names() {
    assert_eq!(validate_task_name("  build.sh \n"), Ok("build.sh".to_string()));
    assert_eq!(validate_task_name("../evil.sh"), Err(TaskNameError::NotBareFilename));
    assert_eq!(validate_task_name("a\\b.sh"), Err(TaskNameError::NotBareFilename));
    assert_eq!(validate_task_name("   "), Err(TaskNameError::NotBareFilename));
    assert_eq!(validate_task_name(""), Err(TaskNameError::NotBareFilename));
    assert_eq!(
        TaskNameError::NotBareFilename.message(),
        "task_name must be a bare filename like build.sh"
    );
}

#[test]
fn exit_lines() {
    assert_eq!(exit_line(&Ok(0)), "\n--- exit code: 0 ---\n");
    assert_eq!(exit_line(&Ok(-1)), "\n--- exit code: -1 ---\n");
    assert_eq!(exit_line(&Err("spawn script: denied".to_string())), "\n--- runner error: spawn script: denied ---\n");
}

#[test]
fn a_successful_run_packages_its_output() {
    let (mut job, work) = RunJob::new("build.sh".to_string());
    assert_eq!(work, RunWork::UpdateRepo);
    let s = job.step(RunEvent::RepoUpdated(Ok(())));
    assert_eq!((s.log, s.status, s.work), (None, None, RunWork::CheckScript));
    let s = job.step(RunEvent::ScriptChecked(true));
    assert_eq!(s.work, RunWork::RunScript);
    let s = job.step(RunEvent::ScriptFinished(Ok(0)));
    assert_eq!(s.log, Some("\n--- exit code: 0 ---\n".to_string()));
    assert_eq!(s.status, Some(RunStatus::Success));
    assert_eq!(s.work, RunWork::CheckDist);
    let s = job.step(RunEvent::DistChecked(true));
    assert_eq!((s.status, s.work), (None, RunWork::Package));
    let s = job.step(RunEvent::Packaged(true));
    assert_eq!((s.log, s.status, s.work), (None, None, RunWork::Stop));
    assert_eq!(job.phase, RunPhase::Done(RunStatus::Success));
}

#[test]
fn a_successful_run_without_output_directory_is_done() {
    let (mut job, _) = RunJob::new("build.sh".to_string());
    job.step(RunEvent::RepoUpdated(Ok(())));
    job.step(RunEvent::ScriptChecked(true));
    job.step(RunEvent::ScriptFinished(Ok(0)));
    let s = job.step(RunEvent::DistChecked(false));
    assert_eq!((s.status, s.work), (None, RunWork::Stop));
    assert_eq!(job.phase, RunPhase::Done(RunStatus::Success));
}

#[test]
fn a_failed_update_fails_the_run() {
    let (mut job, _) = RunJob::new("build.sh".to_string());
    let s = job.step(RunEvent::RepoUpdated(Err("git fetch: no network".to_string())));
    assert_eq!(s.log, Some("ERROR: repository update failed: git fetch: no network\n".to_string()));
    assert_eq!(s.status, Some(RunStatus::Failed));
    assert_eq!(s.work, RunWork::Stop);
}

#[test]
fn a_missing_script_fails_the_run() {
    let (mut job, _) = RunJob::new("deploy.sh".to_string());
    job.step(RunEvent::RepoUpdated(Ok(())));
    let s = job.step(RunEvent::ScriptChecked(false));
    assert_eq!(s.log, Some("ERROR: script not found: .mini-ci/deploy.sh\n".to_string()));
    assert_eq!(s.status, Some(RunStatus::Failed));
}

#[test]
fn a_nonzero_exit_fails_the_run_and_skips_packaging() {
    let (mut job, _) = RunJob::new("test.sh".to_string());
    job.step(RunEvent::RepoUpdated(Ok(())));
    job.step(RunEvent::ScriptChecked(true));
    let s = job.step(RunEvent::ScriptFinished(Ok(2)));
    assert_eq!(s.log, Some("\n--- exit code: 2 ---\n".to_string()));
    assert_eq!((s.status, s.work), (Some(RunStatus::Failed), RunWork::Stop));
    let s = job.step(RunEvent::DistChecked(true));
    assert_eq!((s.log, s.status, s.work), (None, None, RunWork::Stop));
}

#[test]
fn a_runner_error_fails_the_run() {
    let (mut job, _) = RunJob::new("test.sh".to_string());
    job.step(RunEvent::RepoUpdated(Ok(())));
    job.step(RunEvent::ScriptChecked(true));
    let s = job.step(RunEvent::ScriptFinished(Err("wait script: gone".to_string())));
    assert_eq!(s.log, Some("\n--- runner error: wait script: gone ---\n".to_string()));
    assert_eq!(s.status, Some(RunStatus::Failed));
}

#[test]
fn events_out_of_turn_change_nothing() {
    let (mut job, _) = RunJob::new("test.sh".to_string());
    let s = job.step(RunEvent::ScriptFinished(Ok(0)));
    assert_eq!((s.log, s.status, s.work), (None, None, RunWork::UpdateRepo));
    assert_eq!(job.phase, RunPhase::UpdatingRepo);
}

#[test]
fn every_sh_file_without_surrounding_space_is_listed() {
    let entries = vec![
        entry(" build.sh", true),
        entry("a\\b.sh", true),
        entry("ok.sh", true),
    ];
    let listed = select_task_scripts(&entries);
    assert_eq!(listed, vec!["a\\b.sh", "ok.sh"]);
    assert_eq!(validate_task_name("ok.sh"), Ok("ok.sh".to_string()));
    assert_eq!(validate_task_name("a\\b.sh"), Err(TaskNameError::NotBareFilename));
}
