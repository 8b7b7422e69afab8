use repo_sync::config::{Config, Settings};
use repo_sync::cycle::RemoteError;
use repo_sync::remote::{
    latest_commit_from_reply, latest_commit_request, RemoteReply, GITHUB_API_URL, USER_AGENT,
};

fn config_with(token: Option<&str>, branch: Option<&str>) -> Config {
    Config::from_settings(Settings {
        owner: Some(String::from("octo")),
        repo: Some(String::from("widgets")),
        target_branch: branch.map(String::from),
        access_token: token.map(String::from),
        path: Some(String::from("/srv/widgets")),
        check_interval_seconds: Some(30),
    })
    .unwrap()
}

#[test]
fn request_names_owner_repository_and_branch() {
    let request = latest_commit_request(&config_with(None, Some("release")));
    assert_eq!(request.url, "https://api.github.com/repos/octo/widgets/commits/release");
    assert!(request.url.starts_with(GITHUB_API_URL));
}

#[test]
fn request_uses_the_default_branch_when_none_is_set() {
    let request = latest_commit_request(&config_with(None, None));
    assert_eq!(request.url, "https://api.github.com/repos/octo/widgets/commits/main");
}

#[test]
fn request_always_identifies_the_client() {
    let request = latest_commit_request(&config_with(None, None));
    assert_eq!(request.user_agent, "rust-script");
    assert_eq!(request.user_agent, USER_AGENT);
    let request = latest_commit_request(&config_with(Some("s3cret"), None));
    assert_eq!(request.user_agent, "rust-script");
}

#[test]
fn request_carries_the_credential_only_when_configured() {
    let request = latest_commit_request(&config_with(None, None));
    assert_eq!(request.authorization, None);
    let request = latest_commit_request(&config_with(Some("s3cret"), None));
    assert_eq!(request.authorization, Some(String::from("token s3cret")));
}

#[test]
fn successful_reply_gives_the_identifier() {
    let reply = RemoteReply::Response { status: 200, sha: Some(String::from("abc123")) };
    assert_eq!(latest_commit_from_reply(reply), Ok(String::from("abc123")));
    let reply = RemoteReply::Response { status: 299, sha: Some(String::from("def456")) };
    assert_eq!(latest_commit_from_reply(reply), Ok(String::from("def456")));
}

#[test]
fn no_response_means_unavailable() {
    assert_eq!(latest_commit_from_reply(RemoteReply::NoResponse), Err(RemoteError::Unavailable));
}

#[test]
fn non_success_status_is_a_protocol_error() {
    for status in [100u16, 199, 300, 301, 404, 500, 0, u16::MAX] {
        let reply = RemoteReply::Response { status, sha: Some(String::from("abc123")) };
        assert_eq!(latest_commit_from_reply(reply), Err(RemoteError::Protocol));
    }
}

#[test]
fn missing_identifier_is_a_protocol_error() {
    let reply = RemoteReply::Response { status: 200, sha: None };
    assert_eq!(latest_commit_from_reply(reply), Err(RemoteError::Protocol));
    let reply = RemoteReply::Response { status: 500, sha: None };
    assert_eq!(latest_commit_from_reply(reply), Err(RemoteError::Protocol));
}
