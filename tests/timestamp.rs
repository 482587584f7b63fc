use rocketchat::timestamp::{str_to_timestamp, TimestampError};

#[test]
fn parses_server_timestamp() {
    assert_eq!(str_to_timestamp(Some("2022-05-17T14:55:23.276Z")), Ok(1652799323));
}

#[test]
fn no_timestamp_is_minus_one() {
    assert_eq!(str_to_timestamp(None), Ok(-1));
}

#[test]
fn epoch_start_is_zero() {
    assert_eq!(str_to_timestamp(Some("1970-01-01T00:00:00.000Z")), Ok(0));
}

#[test]
fn leap_day_is_read() {
    assert_eq!(str_to_timestamp(Some("2024-02-29T23:59:59.999Z")), Ok(1709251199));
}

#[test]
fn before_epoch_is_negative() {
    assert_eq!(str_to_timestamp(Some("1969-12-31T23:59:59.000Z")), Ok(-1));
}

#[test]
fn day_that_does_not_exist_is_malformed() {
    assert_eq!(
        str_to_timestamp(Some("2023-02-29T00:00:00.000Z")),
        Err(TimestampError::MalformedTimestamp)
    );
    assert_eq!(
        str_to_timestamp(Some("2022-13-01T00:00:00.000Z")),
        Err(TimestampError::MalformedTimestamp)
    );
    assert_eq!(
        str_to_timestamp(Some("2022-05-17T24:00:00.000Z")),
        Err(TimestampError::MalformedTimestamp)
    );
}

#[test]
fn wrong_shape_is_malformed() {
    for s in [
        "",
        "2022-05-17",
        "2022-05-17 14:55:23.276Z",
        "2022-05-17T14:55:23.276+01:00",
        "2022-05-17T14:55:23Z",
        "2022/05/17T14:55:23.276Z",
        "2022-05-1xT14:55:23.276Z",
    ] {
        assert_eq!(str_to_timestamp(Some(s)), Err(TimestampError::MalformedTimestamp), "{}", s);
    }
}
