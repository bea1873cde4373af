use simplefin_data::date::{
    deserialize_date, deserialize_date_option, serialize_date, serialize_date_option, DateError,
    MAX_TIMESTAMP_SECONDS, MIN_TIMESTAMP_SECONDS,
};

#[test]
fn date_round_trips_through_seconds() {
    let date = deserialize_date(978366153).unwrap();
    assert_eq!(serialize_date(&date), 978366153);
    let posted = deserialize_date(793090572).unwrap();
    assert_eq!(serialize_date(&posted), 793090572);
    assert_eq!(deserialize_date(serialize_date(&posted)), Ok(posted));
}

#[test]
fn date_epoch_and_negative_seconds() {
    assert_eq!(serialize_date(&deserialize_date(0).unwrap()), 0);
    assert_eq!(serialize_date(&deserialize_date(-1).unwrap()), -1);
}

#[test]
fn date_range_edges_are_accepted() {
    let earliest = deserialize_date(MIN_TIMESTAMP_SECONDS).unwrap();
    assert_eq!(serialize_date(&earliest), -8_334_601_228_800);
    let latest = deserialize_date(MAX_TIMESTAMP_SECONDS).unwrap();
    assert_eq!(serialize_date(&latest), 8_210_266_876_799);
}

#[test]
fn date_outside_range_is_refused() {
    assert_eq!(
        deserialize_date(MAX_TIMESTAMP_SECONDS + 1),
        Err(DateError::OutOfBounds { seconds: 8_210_266_876_800 })
    );
    assert_eq!(
        deserialize_date(MIN_TIMESTAMP_SECONDS - 1),
        Err(DateError::OutOfBounds { seconds: -8_334_601_228_801 })
    );
    assert_eq!(deserialize_date(i64::MAX), Err(DateError::OutOfBounds { seconds: i64::MAX }));
    assert_eq!(deserialize_date(i64::MIN), Err(DateError::OutOfBounds { seconds: i64::MIN }));
}

#[test]
fn date_error_message_names_the_seconds() {
    let err = deserialize_date(MAX_TIMESTAMP_SECONDS + 1).unwrap_err();
    assert_eq!(err.message(), "out of bounds number of seconds: 8210266876800");
    let err = deserialize_date(i64::MIN).unwrap_err();
    assert_eq!(err.message(), "out of bounds number of seconds: -9223372036854775808");
    let err = DateError::OutOfBounds { seconds: i64::MAX };
    assert_eq!(err.message(), "out of bounds number of seconds: 9223372036854775807");
}

#[test]
fn optional_date_reads_as_present() {
    let date = deserialize_date_option(978360153).unwrap();
    assert!(date.is_some());
    assert_eq!(serialize_date_option(&date), 978360153);
    assert_eq!(
        deserialize_date_option(i64::MAX),
        Err(DateError::OutOfBounds { seconds: i64::MAX })
    );
}

#[test]
fn optional_date_writes_present_value() {
    let date = Some(deserialize_date(1704067200).unwrap());
    assert_eq!(serialize_date_option(&date), 1704067200);
}
