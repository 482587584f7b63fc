use rocketchat::error::ApiError;
use rocketchat::json::parse_json;
use rocketchat::room::{decode_joined_channels, decode_rooms, RoomType};

#[test]
fn room_types_from_letters() {
    assert_eq!(RoomType::from_str("d"), RoomType::Direct);
    assert_eq!(RoomType::from_str("c"), RoomType::Channel);
    assert_eq!(RoomType::from_str("p"), RoomType::Channel);
    assert_eq!(RoomType::from_str("x"), RoomType::Unknown);
    assert_eq!(RoomType::from_str(""), RoomType::Unknown);
    assert_eq!(RoomType::from_str("dd"), RoomType::Unknown);
}

#[test]
fn joined_channels_decode_in_order() {
    let body = parse_json(
        r#"{"channels":[
            {"_id":"a1","name":"general","msgs":12,"lm":"2022-05-17T14:55:23.276Z"},
            {"_id":"b2","name":"random","msgs":0}
        ]}"#,
    )
    .unwrap();
    let channels = decode_joined_channels(&body).unwrap();
    assert_eq!(channels.len(), 2);
    assert_eq!(channels[0].id, "a1");
    assert_eq!(channels[0].name, "general");
    assert_eq!(channels[0].num_msgs, 12);
    assert_eq!(channels[0].last_message_timestamp, Some(1652799323));
    assert_eq!(channels[1].id, "b2");
    assert_eq!(channels[1].last_message_timestamp, Some(-1));
}

#[test]
fn joined_channel_without_message_count_is_malformed() {
    let body = parse_json(r#"{"channels":[{"_id":"a1","name":"general"}]}"#).unwrap();
    assert!(matches!(decode_joined_channels(&body), Err(ApiError::MalformedResponse)));
    let body = parse_json(r#"{"nothing":[]}"#).unwrap();
    assert!(matches!(decode_joined_channels(&body), Err(ApiError::MalformedResponse)));
}

#[test]
fn unreadable_last_message_time_is_absent() {
    let body = parse_json(r#"{"channels":[{"_id":"a","name":"n","msgs":1,"lm":"yesterday"}]}"#).unwrap();
    let channels = decode_joined_channels(&body).unwrap();
    assert_eq!(channels[0].last_message_timestamp, None);
}

#[test]
fn rooms_are_partitioned_by_type() {
    let body = parse_json(
        r#"{"success":true,"update":[
            {"_id":"d1","t":"d","usernames":["ann","bob"],"msgs":3},
            {"_id":"c1","t":"c","name":"general","lm":"1970-01-01T00:00:10.000Z"},
            {"_id":"x1","t":"x","name":"odd"},
            {"_id":"p1","t":"p","name":"locked","msgs":9},
            {"_id":"n1","name":"no type"}
        ]}"#,
    )
    .unwrap();
    let (direct, channels) = decode_rooms(&body).unwrap().unwrap();
    assert_eq!(direct.len(), 1);
    assert_eq!(direct[0].id, "d1");
    assert_eq!(direct[0].usernames, vec!["ann".to_string(), "bob".to_string()]);
    assert_eq!(direct[0].num_msgs, 3);
    assert_eq!(direct[0].last_message_timestamp, Some(-1));
    let ids: Vec<&str> = channels.iter().map(|c| c.id.as_str()).collect();
    assert_eq!(ids, vec!["c1", "p1"]);
    assert_eq!(channels[0].num_msgs, 0);
    assert_eq!(channels[0].last_message_timestamp, Some(10));
    assert_eq!(channels[1].num_msgs, 9);
}

#[test]
fn unsuccessful_room_listing_changes_nothing() {
    let body = parse_json(r#"{"success":false,"update":[{"_id":"d1","t":"d","usernames":[]}]}"#).unwrap();
    assert!(matches!(decode_rooms(&body), Ok(None)));
    let body = parse_json(r#"{"update":[]}"#).unwrap();
    assert!(matches!(decode_rooms(&body), Ok(None)));
}

#[test]
fn direct_room_without_usernames_is_malformed() {
    let body = parse_json(r#"{"success":true,"update":[{"_id":"d1","t":"d"}]}"#).unwrap();
    assert!(matches!(decode_rooms(&body), Err(ApiError::MalformedResponse)));
    let body = parse_json(r#"{"success":true,"update":[{"_id":"d1","t":"d","usernames":[1]}]}"#).unwrap();
    assert!(matches!(decode_rooms(&body), Err(ApiError::MalformedResponse)));
    let body = parse_json(r#"{"success":true}"#).unwrap();
    assert!(matches!(decode_rooms(&body), Err(ApiError::MalformedResponse)));
}
