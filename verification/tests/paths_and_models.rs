use mini_ci::models::{ArtifactRow, CreateProject, PatchProject, Project, RunRow, RunStatus};
use mini_ci::paths::{
    check_stays_inside, artifact_paths, artifacts_dir, db_path, dist_dir, git_dir, join, repo_dir, script_path,
    scripts_dir,
};

#[test]
fn join_follows_path_join() {
    assert_eq!(join("/a", "b"), "/a/b");
    assert_eq!(join("/a/", "b"), "/a/b");
    assert_eq!(join("", "b"), "b");
    assert_eq!(join("/a", "/abs"), "/abs");
    assert_eq!(join("a", ""), "a/");
}

#[test]
fn data_layout() {
    assert_eq!(repo_dir("/data", "abc"), "/data/repos/abc");
    assert_eq!(repo_dir("/data/", "abc"), "/data/repos/abc");
    assert_eq!(artifacts_dir("/d", "p"), "/d/artifacts/p");
    assert_eq!(artifact_paths("/d", "p", "f.zip"), "/d/artifacts/p/f.zip");
    assert_eq!(db_path("/home/u/.mini-ci"), "/home/u/.mini-ci/mini-ci.sqlite");
}

#[test]
fn repository_layout() {
    assert_eq!(scripts_dir("/r"), "/r/.mini-ci");
    assert_eq!(script_path("/r", "build.sh"), "/r/.mini-ci/build.sh");
    assert_eq!(dist_dir("/r", "frontend/dist"), Some("/r/frontend/dist".to_string()));
    assert_eq!(dist_dir("/r", "dist/..x"), Some("/r/dist/..x".to_string()));
    assert_eq!(dist_dir("/r", ""), Some("/r/".to_string()));
    assert_eq!(dist_dir("/r", "/etc"), None);
    assert_eq!(dist_dir("/r", "../other"), None);
    assert_eq!(dist_dir("/r", "a/../../b"), None);
    assert_eq!(dist_dir("/r", "a/.."), None);
    assert_eq!(git_dir("/r"), "/r/.git");
}

#[test]
fn statuses_have_their_text() {
    assert_eq!(RunStatus::Running.as_string(), "running");
    assert_eq!(RunStatus::Success.as_string(), "success");
    assert_eq!(RunStatus::Failed.as_string(), "failed");
}

#[test]
fn projects_come_from_requests_and_patches() {
    let body = CreateProject {
        name: "Site".to_string(),
        repo_url: "https://example.com/site.git".to_string(),
        dist_path: "dist".to_string(),
        build_branch: "main".to_string(),
        auto_run_on_change: false,
        auto_run_task: String::new(),
    };
    let mut p = Project::from_request("id-1".to_string(), 1700000000, body);
    assert_eq!(p.id, "id-1");
    assert_eq!(p.name, "Site");
    assert_eq!(p.build_branch, "main");
    assert_eq!(p.created_at, 1700000000);
    p.apply_patch(PatchProject { auto_run_on_change: true, auto_run_task: "build.sh".to_string() });
    assert!(p.auto_run_on_change);
    assert_eq!(p.auto_run_task, "build.sh");
    assert_eq!(p.repo_url, "https://example.com/site.git");
}

#[test]
fn a_started_run_is_running_with_an_empty_log() {
    let r = RunRow::started("r1".to_string(), "p1".to_string(), "build.sh".to_string(), 42);
    assert_eq!(r.status, "running");
    assert_eq!(r.log, "");
    assert_eq!(r.started_at, Some(42));
    assert_eq!(r.finished_at, None);
    assert!(r.in_project("p1"));
    assert!(!r.in_project("p2"));
}

#[test]
fn artifacts_record_their_relative_path() {
    let a = ArtifactRow::stored("a1".to_string(), "p1".to_string(), "x.zip".to_string(), 10, 5);
    assert_eq!(a.rel_path, "p1/x.zip");
    assert_eq!(a.bytes, 10);
    assert_eq!(a.created_at, 5);
}

#[test]
fn projects_keep_apart() {
    assert_ne!(repo_dir("/d", "p1"), repo_dir("/d", "p2"));
    assert_ne!(artifacts_dir("/d", "p1"), artifacts_dir("/d", "p2"));
}

#[test]
fn downloads_read_the_packaged_file() {
    let plan = mini_ci::artifacts::plan_artifact("/d", "p1", "App", 0).unwrap();
    let row = ArtifactRow::stored("a".to_string(), "p1".to_string(), plan.filename.clone(), 1, 0);
    assert_eq!(artifact_paths("/d", &row.project_id, &row.filename), plan.out_path);
}

#[test]
fn relative_paths_that_stay_inside() {
    assert!(check_stays_inside("a/b"));
    assert!(check_stays_inside("..."));
    assert!(check_stays_inside("a..b/.c"));
    assert!(!check_stays_inside(".."));
    assert!(!check_stays_inside("/a"));
    assert!(!check_stays_inside("x/../y"));
}
