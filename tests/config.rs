use build_relay::config::{Config, ConfigError, ConfigKey, ConfigSettings};
use build_relay::datetime::UtcDateTime;

fn settings() -> ConfigSettings {
    ConfigSettings {
        github_token: Some("test-token".to_string()),
        builds_owner: Some("octo".to_string()),
        builds_repo: Some("tool".to_string()),
        builds_branch: Some("main".to_string()),
        builds_artifact_prefix: Some("app-".to_string()),
        http_port: Some(8080),
    }
}

#[test]
fn complete_settings_load() {
    let c = Config::load(settings()).unwrap();
    assert_eq!(c.github.token, "test-token");
    assert_eq!(c.builds.owner, "octo");
    assert_eq!(c.builds.repo, "tool");
    assert_eq!(c.builds.branch, "main");
    assert_eq!(c.builds.artifact_prefix, "app-");
    assert_eq!(c.http.port, 8080);
}

#[test]
fn missing_key_is_reported() {
    let mut s = settings();
    s.builds_repo = None;
    s.http_port = None;
    assert_eq!(Config::load(s).unwrap_err(), ConfigError::Missing(ConfigKey::BuildsRepo));
    let mut t = settings();
    t.http_port = None;
    assert_eq!(Config::load(t).unwrap_err(), ConfigError::Missing(ConfigKey::HttpPort));
}

#[test]
fn port_out_of_range_is_reported() {
    let mut s = settings();
    s.http_port = Some(65536);
    assert_eq!(Config::load(s).unwrap_err(), ConfigError::PortOutOfRange(65536));
    let mut t = settings();
    t.http_port = Some(-1);
    assert_eq!(Config::load(t).unwrap_err(), ConfigError::PortOutOfRange(-1));
    let mut u = settings();
    u.http_port = Some(65535);
    assert_eq!(Config::load(u).unwrap().http.port, 65535);
}

#[test]
fn key_paths() {
    assert_eq!(ConfigKey::GithubToken.path(), "github.token");
    assert_eq!(ConfigKey::BuildsArtifactPrefix.path(), "builds.artifact_prefix");
    assert_eq!(ConfigKey::HttpPort.path(), "http.port");
}

#[test]
fn source_files_for_environment() {
    assert_eq!(
        Config::source_files("prod"),
        vec!["config.yaml", "config.local.yaml", "config.prod.yaml", "config.prod.local.yaml"]
    );
}

#[test]
fn dates_are_checked() {
    assert!(UtcDateTime::new(2023, 2, 29, 0, 0, 0).is_none());
    assert!(UtcDateTime::new(2024, 2, 29, 0, 0, 0).is_some());
    assert!(UtcDateTime::new(1900, 2, 29, 0, 0, 0).is_none());
    assert!(UtcDateTime::new(2000, 2, 29, 0, 0, 0).is_some());
    assert!(UtcDateTime::new(2024, 4, 31, 0, 0, 0).is_none());
    assert!(UtcDateTime::new(2024, 13, 1, 0, 0, 0).is_none());
    assert!(UtcDateTime::new(2024, 1, 1, 24, 0, 0).is_none());
    assert!(UtcDateTime::new(10000, 1, 1, 0, 0, 0).is_none());
    let d = UtcDateTime::new(2024, 12, 31, 23, 59, 59).unwrap();
    assert_eq!((d.year(), d.month(), d.day(), d.hour(), d.minute(), d.second()), (2024, 12, 31, 23, 59, 59));
}
