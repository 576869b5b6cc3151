use build_relay::builds::{Build, BuildArtifact, BuildError, WorkflowRun, run_lookup_error};
use build_relay::catalog::{assemble_build, assemble_builds, latest_run};
use build_relay::config::Builds;
use build_relay::datetime::UtcDateTime;

fn builds_config(prefix: &str) -> Builds {
    Builds {
        owner: "octo".to_string(),
        repo: "tool".to_string(),
        branch: "main".to_string(),
        artifact_prefix: prefix.to_string(),
    }
}

fn date() -> UtcDateTime {
    UtcDateTime::new(2024, 3, 5, 10, 20, 30).unwrap()
}

fn artifact(name: &str, id: u64) -> BuildArtifact {
    BuildArtifact { name: name.to_string(), size: 100 + id, artifact_id: id }
}

fn run(id: u64, number: i64) -> WorkflowRun {
    WorkflowRun { run_id: id, run_number: number, commit: "abcdef1234567".to_string(), date: date() }
}

fn build(number: i64, commit: &str) -> Build {
    Build {
        run_id: 99,
        run_number: number,
        commit: commit.to_string(),
        date: date(),
        artifacts: vec![artifact("app-windows", 7)],
    }
}

#[test]
fn version_name_of_known_build() {
    let b = build(12, "abcdef1234567");
    assert_eq!(b.generate_version_name().unwrap(), "r12-abcdef1-20240305102030");
}

#[test]
fn version_name_is_deterministic() {
    let a = build(12, "abcdef1234567");
    let b = build(12, "abcdef1234567");
    assert_eq!(a.generate_version_name().unwrap(), b.generate_version_name().unwrap());
    assert_eq!(a.generate_version_name().unwrap(), a.generate_version_name().unwrap());
}

#[test]
fn version_name_shape() {
    let b = build(3, "0123456789abcdef0123456789abcdef01234567");
    let v = b.generate_version_name().unwrap();
    assert_eq!(v, "r3-0123456-20240305102030");
    let stamp = &v[v.len() - 14..];
    assert!(stamp.chars().all(|c| c.is_ascii_digit()));
}

#[test]
fn version_name_with_exactly_seven_characters() {
    let b = build(0, "1234567");
    assert_eq!(b.generate_version_name().unwrap(), "r0-1234567-20240305102030");
}

#[test]
fn version_name_of_negative_run_number() {
    let b = build(-40, "abcdef1234567");
    assert_eq!(b.generate_version_name().unwrap(), "r-40-abcdef1-20240305102030");
}

#[test]
fn version_name_pads_date_fields() {
    let mut b = build(1, "abcdef1234567");
    b.date = UtcDateTime::new(7, 1, 2, 3, 4, 5).unwrap();
    assert_eq!(b.generate_version_name().unwrap(), "r1-abcdef1-00070102030405");
}

#[test]
fn short_commit_is_invalid() {
    let b = build(12, "abc123");
    assert!(matches!(b.generate_version_name(), Err(BuildError::InvalidCommit)));
    let empty = build(12, "");
    assert!(matches!(empty.generate_version_name(), Err(BuildError::InvalidCommit)));
}

#[test]
fn assembled_build_keeps_prefixed_artifacts_in_order() {
    let config = builds_config("app-");
    let listing = vec![
        artifact("app-windows", 1),
        artifact("debug-symbols", 2),
        artifact("app-linux", 3),
        artifact("xapp-macos", 4),
        artifact("app-", 5),
    ];
    let b = assemble_build(&config, run(55, 12), &listing);
    assert_eq!(b.run_id, 55);
    assert_eq!(b.run_number, 12);
    assert_eq!(b.commit, "abcdef1234567");
    assert_eq!(b.date, date());
    let names: Vec<&str> = b.artifacts.iter().map(|a| a.name.as_str()).collect();
    assert_eq!(names, vec!["app-windows", "app-linux", "app-"]);
    let ids: Vec<u64> = b.artifacts.iter().map(|a| a.artifact_id).collect();
    assert_eq!(ids, vec![1, 3, 5]);
    assert_eq!(b.artifacts[1].size, 103);
    for a in &b.artifacts {
        assert!(a.name.starts_with("app-"));
    }
}

#[test]
fn assembled_build_with_no_matching_artifacts_is_empty() {
    let config = builds_config("app-");
    let listing = vec![artifact("logs", 1), artifact("ap", 2)];
    let b = assemble_build(&config, run(1, 1), &listing);
    assert!(b.artifacts.is_empty());
}

#[test]
fn empty_prefix_keeps_every_artifact() {
    let config = builds_config("");
    let listing = vec![artifact("logs", 1), artifact("app-x", 2)];
    let b = assemble_build(&config, run(1, 1), &listing);
    assert_eq!(b.artifacts.len(), 2);
}

#[test]
fn assembled_builds_keep_run_order() {
    let config = builds_config("app-");
    let runs = vec![
        (run(30, 3), vec![artifact("app-a", 1), artifact("other", 2)]),
        (run(20, 2), vec![]),
        (run(10, 1), vec![artifact("app-b", 3)]),
    ];
    let builds = assemble_builds(&config, &runs);
    let ids: Vec<u64> = builds.iter().map(|b| b.run_id).collect();
    assert_eq!(ids, vec![30, 20, 10]);
    assert_eq!(builds[0].artifacts.len(), 1);
    assert_eq!(builds[1].artifacts.len(), 0);
    assert_eq!(builds[2].artifacts[0].artifact_id, 3);
}

#[test]
fn assembled_builds_of_no_runs() {
    let config = builds_config("app-");
    assert!(assemble_builds(&config, &Vec::new()).is_empty());
}

#[test]
fn latest_run_of_empty_listing_fails() {
    assert!(matches!(latest_run(Vec::new()), Err(BuildError::NoSuccessfulRuns)));
}

#[test]
fn latest_run_is_first_listed() {
    let r = latest_run(vec![run(30, 3), run(20, 2)]).unwrap();
    assert_eq!(r.run_id, 30);
    assert_eq!(r.run_number, 3);
}

#[test]
fn missing_run_is_not_found() {
    assert!(matches!(run_lookup_error(Some(404), "x".to_string()), BuildError::NotFound));
}

#[test]
fn other_lookup_failures_are_upstream() {
    match run_lookup_error(Some(500), "server".to_string()) {
        BuildError::UpstreamError(m) => assert_eq!(m, "server"),
        other => panic!("unexpected {:?}", other),
    }
    assert!(matches!(run_lookup_error(None, "io".to_string()), BuildError::UpstreamError(_)));
}
