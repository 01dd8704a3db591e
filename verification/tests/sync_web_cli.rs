use mini_ci::artifacts::{
    artifact_file_name, dist_missing_message, dist_outside_message, ArtifactError, plan_artifact, timestamp_stamp, zip_entry_name,
};
use mini_ci::autorun::{auto_run_task, ls_remote_args, remote_head, watches_remote};
use mini_ci::cli::{listen_addr, parse_args, parse_port, resolve_data_root, CliError};
use mini_ci::gitsync::{GitOutput, RepoSync, SyncEvent, SyncWork};
use mini_ci::models::Project;
use mini_ci::web::{asset_path, attachment_disposition, static_plan, StaticPlan};

fn git_args(w: &SyncWork) -> (bool, Vec<String>) {
    match w {
        SyncWork::RunGit { in_repo, args } => (*in_repo, args.clone()),
        other => panic!("expected a git command, got {:?}", other),
    }
}

fn out(success: bool, status: &str, stdout: &str, stderr: &str) -> SyncEvent {
    SyncEvent::GitRan(Ok(GitOutput {
        success,
        status: status.to_string(),
        stdout: stdout.to_string(),
        stderr: stderr.to_string(),
    }))
}

#[test]
fn an_existing_clone_is_fetched_and_checked_out() {
    let (mut s, w) = RepoSync::new("u".to_string(), "main".to_string(), "/r".to_string());
    assert!(matches!(w, SyncWork::CheckGitDir));
    let w = s.step(SyncEvent::GitDirChecked(true));
    assert_eq!(git_args(&w), (true, vec!["fetch".to_string(), "origin".to_string(), "main".to_string()]));
    let w = s.step(out(true, "exit status: 0", "O", "E"));
    assert_eq!(
        git_args(&w).1,
        vec!["checkout", "-B", "main", "origin/main"].iter().map(|a| a.to_string()).collect::<Vec<_>>()
    );
    let w = s.step(out(true, "exit status: 0", "", ""));
    assert_eq!(git_args(&w).1, vec!["rev-parse".to_string(), "HEAD".to_string()]);
    let w = s.step(out(true, "exit status: 0", "abc123\n", ""));
    match w {
        SyncWork::Finish(Ok(report)) => assert_eq!(report, "EO\nchecked out main @ abc123\n"),
        other => panic!("unexpected {:?}", other),
    }
}

#[test]
fn a_missing_clone_is_cloned_shallow_on_its_branch() {
    let (mut s, _) = RepoSync::new("https://h/r.git".to_string(), "dev".to_string(), "/d/repos/p".to_string());
    let w = s.step(SyncEvent::GitDirChecked(false));
    assert!(matches!(w, SyncWork::CreateParent));
    let w = s.step(SyncEvent::ParentCreated(Ok(())));
    assert_eq!(
        git_args(&w),
        (
            false,
            vec!["clone", "--depth", "1", "--branch", "dev", "https://h/r.git", "/d/repos/p"]
                .iter()
                .map(|a| a.to_string())
                .collect::<Vec<_>>()
        )
    );
    let w = s.step(out(false, "exit status: 128", "", ""));
    match w {
        SyncWork::Finish(Err(e)) => assert_eq!(e, "git clone failed with exit status: 128"),
        other => panic!("unexpected {:?}", other),
    }
}

#[test]
fn fetch_and_checkout_fall_back() {
    let (mut s, _) = RepoSync::new("u".to_string(), "main".to_string(), "/r".to_string());
    s.step(SyncEvent::GitDirChecked(true));
    let w = s.step(out(false, "exit status: 1", "", "shallow"));
    assert_eq!(git_args(&w).1, vec!["fetch".to_string(), "origin".to_string()]);
    let w = s.step(out(false, "exit status: 1", "", ""));
    assert_eq!(git_args(&w).1.len(), 4);
    let w = s.step(out(false, "exit status: 1", "", ""));
    assert_eq!(git_args(&w).1, vec!["checkout".to_string(), "main".to_string()]);
    let w = s.step(out(false, "exit status: 1", "", ""));
    match w {
        SyncWork::Finish(Err(e)) => assert_eq!(e, "git checkout failed"),
        other => panic!("unexpected {:?}", other),
    }
    assert_eq!(s.fetch_log, "shallow");
}

#[test]
fn spawn_errors_are_reported() {
    let (mut s, _) = RepoSync::new("u".to_string(), "main".to_string(), "/r".to_string());
    s.step(SyncEvent::GitDirChecked(true));
    let w = s.step(SyncEvent::GitRan(Err("No such file or directory (os error 2)".to_string())));
    match w {
        SyncWork::Finish(Err(e)) => assert_eq!(e, "git fetch: No such file or directory (os error 2)"),
        other => panic!("unexpected {:?}", other),
    }
    let (mut s, _) = RepoSync::new("u".to_string(), "main".to_string(), "/r".to_string());
    s.step(SyncEvent::GitDirChecked(false));
    let w = s.step(SyncEvent::ParentCreated(Err("denied".to_string())));
    match w {
        SyncWork::Finish(Err(e)) => assert_eq!(e, "create repo parent: denied"),
        other => panic!("unexpected {:?}", other),
    }
}

#[test]
fn artifact_times_are_utc_stamps() {
    assert_eq!(timestamp_stamp(0), Some("19700101-000000".to_string()));
    assert_eq!(timestamp_stamp(1234567890), Some("20090213-233130".to_string()));
    assert_eq!(timestamp_stamp(253402300799), Some("99991231-235959".to_string()));
    assert_eq!(timestamp_stamp(68169600), Some("19720229-000000".to_string()));
    assert_eq!(timestamp_stamp(951782400), Some("20000229-000000".to_string()));
    assert_eq!(timestamp_stamp(1709164800), Some("20240229-000000".to_string()));
    assert_eq!(timestamp_stamp(4107542399), Some("21000228-235959".to_string()));
    assert_eq!(timestamp_stamp(i64::MAX), None);
}

#[test]
fn artifacts_are_named_after_project_and_time() {
    let p = plan_artifact("/data", "p1", "My App", 1234567890).unwrap();
    assert_eq!(p.filename, "My-App-20090213-233130.zip");
    assert_eq!(p.out_path, "/data/artifacts/p1/My-App-20090213-233130.zip");
    assert_eq!(artifact_file_name("a b  c", "X"), "a-b--c-X.zip");
    assert_eq!(artifact_file_name("a\\b", "X"), "a\\b-X.zip");
}

#[test]
fn artifacts_stay_in_the_project_directory() {
    let p = plan_artifact("/d", "p", "a\\b", 0).unwrap();
    assert_eq!(p.filename, "a\\b-19700101-000000.zip");
    let p = plan_artifact("/d", "p", "a/b", 0).unwrap();
    assert_eq!(p.out_path, "/d/artifacts/p/a/b-19700101-000000.zip");
    let p = plan_artifact("/d", "p", "..", 0).unwrap();
    assert_eq!(p.out_path, "/d/artifacts/p/..-19700101-000000.zip");
    assert_eq!(plan_artifact("/d", "p", "/x", 0).unwrap_err(), ArtifactError::NameLeavesDirectory);
    assert_eq!(plan_artifact("/d", "p", "../../x", 0).unwrap_err(), ArtifactError::NameLeavesDirectory);
    assert_eq!(plan_artifact("/d", "p", "x", i64::MAX).unwrap_err(), ArtifactError::TimeOutOfRange);
    assert_eq!(
        ArtifactError::NameLeavesDirectory.message(),
        "project name would place the artifact outside its directory"
    );
    assert_eq!(ArtifactError::TimeOutOfRange.message(), "time out of range");
}

#[test]
fn zip_entries_use_forward_slashes() {
    assert_eq!(zip_entry_name("a\\b.txt"), Some("a/b.txt".to_string()));
    assert_eq!(zip_entry_name("index.html"), Some("index.html".to_string()));
    assert_eq!(zip_entry_name(""), None);
    assert_eq!(dist_missing_message("/r/dist"), "Dist directory does not exist: /r/dist");
    assert_eq!(dist_outside_message("/etc"), "Dist path must stay inside the repository: /etc");
}

#[test]
fn interface_files() {
    assert_eq!(asset_path("/"), "index.html");
    assert_eq!(asset_path(""), "index.html");
    assert_eq!(asset_path("//assets/app.js"), "assets/app.js");
    match static_plan("assets/app.js", true) {
        StaticPlan::Serve { content_type } => assert_eq!(content_type, "text/javascript"),
        other => panic!("unexpected {:?}", other),
    }
    match static_plan("LICENSE", true) {
        StaticPlan::Serve { content_type } => assert_eq!(content_type, "application/octet-stream"),
        other => panic!("unexpected {:?}", other),
    }
    assert!(matches!(static_plan("projects/42", false), StaticPlan::Index));
    assert!(matches!(static_plan("missing.png", false), StaticPlan::NotFound));
    assert_eq!(attachment_disposition("x.zip"), "attachment; filename=\"x.zip\"");
}

fn strings(v: &[&str]) -> Vec<String> {
    v.iter().map(|s| s.to_string()).collect()
}

#[test]
fn command_line_defaults() {
    let o = parse_args(&vec![]).unwrap();
    assert_eq!(o.port, 8787);
    assert_eq!(o.dir, None);
    assert_eq!(listen_addr(o.port), "127.0.0.1:8787");
}

#[test]
fn command_line_options() {
    let o = parse_args(&strings(&["--port", "9000", "--dir", "/path/to/data"])).unwrap();
    assert_eq!(o.port, 9000);
    assert_eq!(o.dir, Some("/path/to/data".to_string()));
    let o = parse_args(&strings(&["--port", "1", "serve", "--port", "65535"])).unwrap();
    assert_eq!(o.port, 65535);
}

#[test]
fn command_line_errors() {
    assert!(matches!(parse_args(&strings(&["--port"])), Err(CliError::MissingValue(f)) if f == "--port"));
    assert!(matches!(parse_args(&strings(&["--dir"])), Err(CliError::MissingValue(f)) if f == "--dir"));
    assert!(matches!(parse_args(&strings(&["--port", "70000"])), Err(CliError::InvalidPort(v)) if v == "70000"));
    assert!(matches!(parse_args(&strings(&["--port", "80a"])), Err(CliError::InvalidPort(v)) if v == "80a"));
    assert_eq!(parse_port(""), None);
    assert_eq!(parse_port("0065535"), Some(65535));
    assert_eq!(parse_port("65536"), None);
    assert_eq!(parse_port("99999999999"), None);
}

#[test]
fn data_directory_choice() {
    assert_eq!(resolve_data_root(Some("/a".into()), Some("/b".into()), Some("/h".into())), "/a");
    assert_eq!(resolve_data_root(None, Some("/b".into()), Some("/h".into())), "/b");
    assert_eq!(resolve_data_root(None, None, Some("/home/u".into())), "/home/u/.mini-ci");
    assert_eq!(resolve_data_root(None, None, None), "./.mini-ci");
}

fn project(auto: bool, task: &str) -> Project {
    Project {
        id: "p".to_string(),
        name: "n".to_string(),
        repo_url: "u".to_string(),
        dist_path: "dist".to_string(),
        build_branch: "main".to_string(),
        auto_run_on_change: auto,
        auto_run_task: task.to_string(),
        created_at: 0,
    }
}

#[test]
fn remote_heads() {
    assert_eq!(remote_head("0123abc\trefs/heads/main\n"), Some("0123abc".to_string()));
    assert_eq!(remote_head(""), None);
    assert_eq!(ls_remote_args("u", "main"), strings(&["ls-remote", "u", "refs/heads/main"]));
}

#[test]
fn automatic_runs_start_on_new_commits() {
    let p = project(true, " build.sh ");
    assert_eq!(auto_run_task(&p, &None, "a"), None);
    assert_eq!(auto_run_task(&p, &Some("a".to_string()), "a"), None);
    assert_eq!(auto_run_task(&p, &Some("a".to_string()), "b"), Some("build.sh".to_string()));
    assert_eq!(auto_run_task(&project(false, "build.sh"), &Some("a".to_string()), "b"), None);
    assert_eq!(auto_run_task(&project(true, "../x.sh"), &Some("a".to_string()), "b"), None);
    assert!(watches_remote(&project(true, "build.sh")));
    assert!(!watches_remote(&project(false, "build.sh")));
    assert!(!watches_remote(&project(true, "")));
}
