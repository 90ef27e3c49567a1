use gemcore::config::{config_bool, config_datetime, config_i64, config_string_list, config_usize, datetime_config_value};
use gemcore::error::DatabaseError;
use gemcore::time::Timestamp;

#[test]
fn test_config_integers() {
    assert_eq!(config_i64("42"), Ok(42));
    assert_eq!(config_i64("-7"), Ok(-7));
    assert_eq!(config_i64("+7"), Ok(7));
    assert!(matches!(config_i64("4x"), Err(DatabaseError::Error(_))));
    assert!(matches!(config_i64(""), Err(DatabaseError::Error(_))));
    assert!(matches!(config_i64("9223372036854775808"), Err(DatabaseError::Error(_))));
    assert_eq!(config_usize("12"), Ok(12));
    assert!(matches!(config_usize("-1"), Err(DatabaseError::Error(_))));
}

#[test]
fn test_config_bool() {
    assert_eq!(config_bool("true"), Ok(true));
    assert_eq!(config_bool("false"), Ok(false));
    assert!(matches!(config_bool("True"), Err(DatabaseError::Error(_))));
    assert!(matches!(config_bool("1"), Err(DatabaseError::Error(_))));
}

#[test]
fn test_config_string_list() {
    assert_eq!(config_string_list("[\"a\",\"b\"]"), Ok(vec!["a".to_string(), "b".to_string()]));
    assert_eq!(config_string_list("[]"), Ok(vec![]));
    assert!(matches!(config_string_list("[1]"), Err(DatabaseError::Error(_))));
    assert!(matches!(config_string_list("a,b"), Err(DatabaseError::Error(_))));
}

#[test]
fn test_config_datetime_round_trip() {
    let time = Timestamp::from_seconds(1_700_000_000);
    let value = datetime_config_value(&time);
    assert_eq!(value, "1700000000");
    assert_eq!(config_datetime(&value), Ok(time));
    assert_eq!(config_datetime("0"), Ok(Timestamp::from_seconds(0)));
    assert!(matches!(config_datetime("soon"), Err(DatabaseError::Error(_))));
    assert!(matches!(config_datetime("9223372036854775807"), Err(DatabaseError::Error(_))));
}

#[test]
fn test_config_datetime_out_of_range_message() {
    assert_eq!(
        config_datetime("9223372036854775807"),
        Err(DatabaseError::Error("Invalid timestamp: 9223372036854775807".to_string()))
    );
    assert_eq!(
        config_datetime("-9223372036854775808"),
        Err(DatabaseError::Error("Invalid timestamp: -9223372036854775808".to_string()))
    );
    assert_eq!(datetime_config_value(&Timestamp::from_seconds(-42)), "-42");
}

#[test]
fn test_chrono_range_of_config_timestamps() {
    assert_eq!(config_datetime("-8334601228800"), Ok(Timestamp::from_seconds(-8_334_601_228_800)));
    assert!(matches!(config_datetime("-8334601228801"), Err(DatabaseError::Error(_))));
    assert_eq!(config_datetime("8210266876799"), Ok(Timestamp::from_seconds(8_210_266_876_799)));
    assert_eq!(
        config_datetime("8210266876800"),
        Err(DatabaseError::Error("Invalid timestamp: 8210266876800".to_string()))
    );
}

#[test]
fn test_the_clock_reads_after_the_epoch() {
    let now = gemcore::time::current_time().unwrap();
    assert!(now.seconds > 1_600_000_000);
    assert!(now.nanos < 1_000_000_000);
}
