use rocketchat::catalog::{JOINED_CHANNELS_ENDPOINT, LOGIN_ENDPOINT, ROOMS_ENDPOINT};
use rocketchat::error::ApiError;
use rocketchat::session::RocketChat;

fn logged_in() -> RocketChat {
    let mut rc = RocketChat::new("https://chat.example", "tok");
    rc.set_user_id("me".to_string());
    rc
}

#[test]
fn refresh_while_logged_out_violates_precondition() {
    let rc = RocketChat::new("https://chat.example", "tok");
    assert!(matches!(rc.joined_channels_request(), Err(ApiError::PreconditionViolation)));
    assert!(matches!(rc.rooms_request(), Err(ApiError::PreconditionViolation)));
}

#[test]
fn requests_carry_session_headers() {
    let rc = logged_in();
    let q = rc.joined_channels_request().unwrap();
    assert_eq!(q.url, "https://chat.example/api/v1/channels.list.joined");
    assert_eq!(q.auth_token, "tok");
    assert_eq!(q.user_id, "me");
    let q = rc.rooms_request().unwrap();
    assert_eq!(q.url, "https://chat.example/api/v1/rooms.get");
    assert_eq!(rc.endpoint_url(LOGIN_ENDPOINT), "https://chat.example/api/v1/login");
    assert_eq!(JOINED_CHANNELS_ENDPOINT, "api/v1/channels.list.joined");
    assert_eq!(ROOMS_ENDPOINT, "api/v1/rooms.get");
}

#[test]
fn joined_channels_refresh_replaces_snapshot() {
    let mut rc = logged_in();
    let body = r#"{"channels":[{"_id":"a","name":"general","msgs":2}]}"#;
    assert_eq!(rc.finish_joined_channels(Some(body.to_string())), Ok(()));
    assert_eq!(rc.get_joined_channels()[0].name, "general");
    let body = r#"{"channels":[{"_id":"b","name":"random","msgs":5}]}"#;
    assert_eq!(rc.finish_joined_channels(Some(body.to_string())), Ok(()));
    let got = rc.get_joined_channels();
    assert_eq!(got.len(), 1);
    assert_eq!(got[0].id, "b");
}

#[test]
fn failed_refresh_keeps_old_snapshot() {
    let mut rc = logged_in();
    let body = r#"{"channels":[{"_id":"a","name":"general","msgs":2}]}"#;
    rc.finish_joined_channels(Some(body.to_string())).unwrap();
    assert_eq!(rc.finish_joined_channels(None), Err(ApiError::TransportFailure));
    assert_eq!(rc.finish_joined_channels(Some("<html>".to_string())), Err(ApiError::MalformedResponse));
    assert_eq!(
        rc.finish_joined_channels(Some(r#"{"channels":[{"_id":"x"}]}"#.to_string())),
        Err(ApiError::MalformedResponse)
    );
    let got = rc.get_joined_channels();
    assert_eq!(got.len(), 1);
    assert_eq!(got[0].id, "a");
}

#[test]
fn rooms_refresh_replaces_both_listings() {
    let mut rc = logged_in();
    let body = r#"{"success":true,"update":[
        {"_id":"d1","t":"d","usernames":["ann"]},
        {"_id":"c1","t":"c","name":"general"},
        {"_id":"x1","t":"x"}
    ]}"#;
    assert_eq!(rc.finish_rooms(Some(body.to_string())), Ok(true));
    assert_eq!(rc.get_direct_rooms().len(), 1);
    assert_eq!(rc.get_channel_rooms().len(), 1);
    assert_eq!(rc.get_channel_rooms()[0].id, "c1");
    assert_eq!(rc.finish_rooms(Some(r#"{"success":false}"#.to_string())), Ok(false));
    assert_eq!(rc.get_direct_rooms()[0].id, "d1");
    assert_eq!(rc.finish_rooms(None), Err(ApiError::TransportFailure));
    assert_eq!(rc.get_channel_rooms().len(), 1);
}
