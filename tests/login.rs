use rocketchat::auth::LoginStep;
use rocketchat::error::ApiError;
use rocketchat::room::Channel;
use rocketchat::session::RocketChat;

const CREDENTIALS_OK: &str = r#"{"status":"success","data":{"userId":"u1","authToken":"fresh"}}"#;
const RESUME_OK: &str = r#"{"status":"success","data":{"userId":"u7"}}"#;

#[test]
fn empty_token_logs_in_with_credentials() {
    let mut rc = RocketChat::new("https://chat.example", "");
    assert!(matches!(rc.start_login(true), LoginStep::SendCredentials));
    match rc.credential_reply(Some(CREDENTIALS_OK.to_string())) {
        LoginStep::LoggedIn(Some(t)) => assert_eq!(t, "fresh"),
        _ => panic!("expected a login with a token to save"),
    }
    assert!(rc.is_logged_in());
    assert_eq!(rc.get_user_id(), "u1");
    assert_eq!(rc.get_auth_token(), "fresh");
}

#[test]
fn saved_token_resumes_without_credentials() {
    let mut rc = RocketChat::new("https://chat.example", "saved");
    match rc.start_login(true) {
        LoginStep::SendResume(t) => assert_eq!(t, "saved"),
        _ => panic!("expected a resume request"),
    }
    let next = rc.resume_reply(true, Some(RESUME_OK.to_string()));
    assert!(matches!(next, LoginStep::LoggedIn(None)));
    assert!(rc.is_logged_in());
    assert_eq!(rc.get_user_id(), "u7");
    assert_eq!(rc.get_auth_token(), "saved");
}

#[test]
fn login_via_saved_token_scenario() {
    let mut rc = RocketChat::new("https://chat.example", "saved");
    assert!(matches!(rc.start_login(false), LoginStep::SendResume(_)));
    assert!(matches!(rc.resume_reply(false, Some(RESUME_OK.to_string())), LoginStep::LoggedIn(None)));
    assert!(!rc.get_user_id().is_empty());
}

#[test]
fn no_token_and_no_credentials_is_not_logged_in() {
    let mut rc = RocketChat::new("u", "");
    rc.set_user_id("stale".to_string());
    assert!(matches!(rc.start_login(false), LoginStep::NotLoggedIn));
    assert!(!rc.is_logged_in());
}

#[test]
fn refused_resume_turns_to_credentials_and_clears_token() {
    let mut rc = RocketChat::new("u", "old");
    rc.start_login(true);
    let next = rc.resume_reply(true, Some(r#"{"status":"error"}"#.to_string()));
    assert!(matches!(next, LoginStep::SendCredentials));
    assert_eq!(rc.get_auth_token(), "");
    assert!(!rc.is_logged_in());
}

#[test]
fn refused_resume_without_credentials_is_not_logged_in() {
    let mut rc = RocketChat::new("u", "old");
    rc.start_login(false);
    let next = rc.resume_reply(false, Some(r#"{"status":"error"}"#.to_string()));
    assert!(matches!(next, LoginStep::NotLoggedIn));
    assert_eq!(rc.get_auth_token(), "old");
}

#[test]
fn rejected_credentials_leave_session_logged_out() {
    let mut rc = RocketChat::new("u", "");
    rc.set_joined_channels(vec![Channel {
        id: "c".to_string(),
        name: "general".to_string(),
        num_msgs: 4,
        last_message_timestamp: None,
    }]);
    rc.start_login(true);
    let next = rc.credential_reply(Some(r#"{"status":"error"}"#.to_string()));
    assert!(matches!(next, LoginStep::Failed(ApiError::Rejected)));
    assert!(!rc.is_logged_in());
    let channels = rc.get_joined_channels();
    assert_eq!(channels.len(), 1);
    assert_eq!(channels[0].id, "c");
}

#[test]
fn transport_failure_is_reported() {
    let mut rc = RocketChat::new("u", "tok");
    rc.start_login(true);
    assert!(matches!(rc.resume_reply(true, None), LoginStep::Failed(ApiError::TransportFailure)));
    assert!(matches!(rc.credential_reply(None), LoginStep::Failed(ApiError::TransportFailure)));
    assert!(!rc.is_logged_in());
}

#[test]
fn malformed_replies_are_reported() {
    let mut rc = RocketChat::new("u", "tok");
    rc.start_login(true);
    for body in [
        "not json",
        r#"{"data":{"userId":"u"}}"#,
        r#"{"status":"success"}"#,
        r#"{"status":"success","data":{"userId":""}}"#,
    ] {
        let next = rc.resume_reply(true, Some(body.to_string()));
        assert!(matches!(next, LoginStep::Failed(ApiError::MalformedResponse)), "{}", body);
    }
    let next = rc.credential_reply(Some(r#"{"status":"success","data":{"userId":"u1"}}"#.to_string()));
    assert!(matches!(next, LoginStep::Failed(ApiError::MalformedResponse)));
    assert!(!rc.is_logged_in());
    assert_eq!(rc.get_auth_token(), "tok");
}
