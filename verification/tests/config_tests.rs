use repo_sync::config::{Config, ConfigError, Settings, DEFAULT_BRANCH};

fn full_settings() -> Settings {
    Settings {
        owner: Some(String::from("octo")),
        repo: Some(String::from("widgets")),
        target_branch: Some(String::from("release")),
        access_token: Some(String::from("t0k3n")),
        path: Some(String::from("/srv/widgets")),
        check_interval_seconds: Some(30),
    }
}

#[test]
fn settings_with_every_option_configure_a_run() {
    let config = Config::from_settings(full_settings()).unwrap();
    assert_eq!(config.github.owner, "octo");
    assert_eq!(config.github.repo, "widgets");
    assert_eq!(config.github.target_branch, "release");
    assert_eq!(config.github.access_token, Some(String::from("t0k3n")));
    assert_eq!(config.local_repo.path, "/srv/widgets");
    assert_eq!(config.local_repo.check_interval_seconds, 30);
}

#[test]
fn absent_branch_falls_back_to_the_default() {
    let mut settings = full_settings();
    settings.target_branch = None;
    let config = Config::from_settings(settings).unwrap();
    assert_eq!(config.github.target_branch, DEFAULT_BRANCH);
    assert_eq!(config.github.target_branch, "main");
}

#[test]
fn absent_token_is_accepted() {
    let mut settings = full_settings();
    settings.access_token = None;
    let config = Config::from_settings(settings).unwrap();
    assert_eq!(config.github.access_token, None);
}

#[test]
fn missing_owner_is_rejected() {
    let mut settings = full_settings();
    settings.owner = None;
    assert_eq!(Config::from_settings(settings).unwrap_err(), ConfigError::MissingOwner);
}

#[test]
fn missing_repo_is_rejected() {
    let mut settings = full_settings();
    settings.repo = None;
    assert_eq!(Config::from_settings(settings).unwrap_err(), ConfigError::MissingRepo);
}

#[test]
fn missing_path_is_rejected() {
    let mut settings = full_settings();
    settings.path = None;
    assert_eq!(Config::from_settings(settings).unwrap_err(), ConfigError::MissingPath);
}

#[test]
fn missing_interval_is_rejected() {
    let mut settings = full_settings();
    settings.check_interval_seconds = None;
    assert_eq!(Config::from_settings(settings).unwrap_err(), ConfigError::MissingInterval);
}

#[test]
fn zero_interval_is_rejected() {
    let mut settings = full_settings();
    settings.check_interval_seconds = Some(0);
    assert_eq!(Config::from_settings(settings).unwrap_err(), ConfigError::NonPositiveInterval);
}

#[test]
fn negative_interval_is_rejected() {
    let mut settings = full_settings();
    settings.check_interval_seconds = Some(-5);
    assert_eq!(Config::from_settings(settings).unwrap_err(), ConfigError::NonPositiveInterval);
}

#[test]
fn first_missing_option_is_the_one_reported() {
    let settings = Settings {
        owner: None,
        repo: None,
        target_branch: None,
        access_token: None,
        path: None,
        check_interval_seconds: Some(-1),
    };
    assert_eq!(Config::from_settings(settings).unwrap_err(), ConfigError::MissingOwner);
    let mut settings = full_settings();
    settings.path = None;
    settings.check_interval_seconds = Some(0);
    assert_eq!(Config::from_settings(settings).unwrap_err(), ConfigError::MissingPath);
}

#[test]
fn largest_interval_is_kept() {
    let mut settings = full_settings();
    settings.check_interval_seconds = Some(i64::MAX);
    let config = Config::from_settings(settings).unwrap();
    assert_eq!(config.local_repo.check_interval_seconds, i64::MAX as u64);
}
