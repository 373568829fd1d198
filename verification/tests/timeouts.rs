use adbc_flightsql::double::{seconds_to_duration, Duration};
use adbc_flightsql::error::Status;
use adbc_flightsql::options::{Double, OptionEffect, OptionValue};
use adbc_flightsql::timeouts::{
    is_settable, TimeoutOption, OPTION_TIMEOUT_CONNECT, OPTION_TIMEOUT_FETCH, OPTION_TIMEOUT_QUERY,
    OPTION_TIMEOUT_UPDATE,
};

fn double(x: f64) -> Double {
    Double { bits: x.to_bits(), display: x.to_string(), debug: format!("{x:?}") }
}

fn seconds(d: Duration) -> f64 {
    std::time::Duration::new(d.secs, d.nanos).as_secs_f64()
}

#[test]
fn test_set_timeout_valid_values() {
    let mut t = TimeoutOption::new();
    t.set_timeout_seconds(OPTION_TIMEOUT_FETCH, &double(30.0)).unwrap();
    assert_eq!(t.fetch_timeout, Some(Duration::from_secs(30)));

    t.set_timeout_seconds(OPTION_TIMEOUT_FETCH, &double(0.0)).unwrap();
    assert_eq!(t.fetch_timeout, None);

    t.set_timeout_seconds(OPTION_TIMEOUT_QUERY, &double(0.001)).unwrap();
    assert!(t.query_timeout.is_some());
    assert_eq!(t.query_timeout, Some(Duration { secs: 0, nanos: 1_000_000 }));
}

#[test]
fn test_set_timeout_nan_returns_error() {
    let mut t = TimeoutOption::new();
    let result = t.set_timeout_seconds(OPTION_TIMEOUT_FETCH, &double(f64::NAN));
    assert!(result.is_err());
    assert_eq!(result.unwrap_err().status, Status::InvalidArguments);
}

#[test]
fn test_set_timeout_inf_returns_error() {
    let mut t = TimeoutOption::new();
    let result = t.set_timeout_seconds(OPTION_TIMEOUT_FETCH, &double(f64::INFINITY));
    assert!(result.is_err());
    assert_eq!(result.unwrap_err().status, Status::InvalidArguments);
}

#[test]
fn test_set_timeout_negative_returns_error() {
    let mut t = TimeoutOption::new();
    let result = t.set_timeout_seconds(OPTION_TIMEOUT_FETCH, &double(-1.0));
    assert!(result.is_err());
    let error = result.unwrap_err();
    assert_eq!(error.status, Status::InvalidArguments);
    assert_eq!(
        error.message,
        "[adbc_flightsql] could not setting timeout: invalid timeout seconds: -1"
    );
}

#[test]
fn test_zero_timeout_removes_timeout() {
    let mut t = TimeoutOption::new();
    t.set_timeout_seconds(OPTION_TIMEOUT_QUERY, &double(30.0)).unwrap();
    assert!(t.query_timeout.is_some());
    t.set_timeout_seconds(OPTION_TIMEOUT_QUERY, &double(0.0)).unwrap();
    assert!(t.query_timeout.is_none());
}

#[test]
fn test_timeout_for_method_do_get() {
    let mut t = TimeoutOption::new();
    t.set_timeout_seconds(OPTION_TIMEOUT_FETCH, &double(10.0)).unwrap();
    let d = t.timeout_for_method("/arrow.flight.protocol.FlightService/DoGet");
    assert_eq!(d, Some(Duration::from_secs(10)));
}

#[test]
fn test_timeout_for_method_get_flight_info() {
    let mut t = TimeoutOption::new();
    t.set_timeout_seconds(OPTION_TIMEOUT_QUERY, &double(20.0)).unwrap();
    let d = t.timeout_for_method("/arrow.flight.protocol.FlightService/GetFlightInfo");
    assert_eq!(d, Some(Duration::from_secs(20)));
}

#[test]
fn test_timeout_for_method_do_put() {
    let mut t = TimeoutOption::new();
    t.set_timeout_seconds(OPTION_TIMEOUT_UPDATE, &double(15.0)).unwrap();
    let d = t.timeout_for_method("/arrow.flight.protocol.FlightService/DoPut");
    assert_eq!(d, Some(Duration::from_secs(15)));
}

#[test]
fn test_timeout_for_method_do_action() {
    let mut t = TimeoutOption::new();
    t.set_timeout_seconds(OPTION_TIMEOUT_UPDATE, &double(15.0)).unwrap();
    let d = t.timeout_for_method("/arrow.flight.protocol.FlightService/DoAction");
    assert_eq!(d, Some(Duration::from_secs(15)));
}

#[test]
fn test_timeout_for_method_unknown() {
    let t = TimeoutOption::new();
    let d = t.timeout_for_method("/some/OtherService/OtherMethod");
    assert_eq!(d, None);
}

#[test]
fn test_clone_preserves_timeouts() {
    let mut t = TimeoutOption::new();
    t.set_timeout_seconds(OPTION_TIMEOUT_QUERY, &double(5.0)).unwrap();
    let cloned = t.clone();
    assert_eq!(cloned.query_timeout, Some(Duration::from_secs(5)));
}

#[test]
fn test_default_all_none() {
    let t = TimeoutOption::default();
    assert_eq!(t.fetch_timeout, None);
    assert_eq!(t.query_timeout, None);
    assert_eq!(t.update_timeout, None);
    assert_eq!(t.connect_timeout, None);
}

#[test]
fn test_get_timeout_seconds() {
    let mut t = TimeoutOption::new();
    t.set_timeout_seconds(OPTION_TIMEOUT_FETCH, &double(30.5)).unwrap();
    assert_eq!(seconds(t.get_timeout_seconds(OPTION_TIMEOUT_FETCH).unwrap()), 30.5);
}

#[test]
fn test_set_timeout_invalid_key() {
    let mut t = TimeoutOption::new();
    let result = t.set_timeout_seconds("adbc.bogus.key", &double(10.0));
    assert!(result.is_err());
}

#[test]
fn unknown_keys_are_named_in_errors() {
    let mut t = TimeoutOption::new();
    let set = t.set_timeout_seconds("adbc.bogus.key", &double(10.0)).unwrap_err();
    assert_eq!(set.status, Status::InvalidArguments);
    assert_eq!(set.message, "[adbc_flightsql] unknown timeout key: adbc.bogus.key");
    let get = t.get_timeout_seconds("adbc.bogus.key").unwrap_err();
    assert_eq!(get.status, Status::NotFound);
    assert_eq!(get.message, "[adbc_flightsql] unknown timeout key: adbc.bogus.key");
}

#[test]
fn an_unset_timeout_reads_as_zero() {
    let t = TimeoutOption::new();
    assert_eq!(seconds(t.get_timeout_seconds(OPTION_TIMEOUT_CONNECT).unwrap()), 0.0);
}

#[test]
fn a_timeout_changes_no_other_timeout() {
    let keys = [
        OPTION_TIMEOUT_FETCH,
        OPTION_TIMEOUT_QUERY,
        OPTION_TIMEOUT_UPDATE,
        OPTION_TIMEOUT_CONNECT,
    ];
    for key in keys {
        let mut t = TimeoutOption::new();
        t.set_timeout_seconds(key, &double(7.25)).unwrap();
        for other in keys {
            let expected = if other == key { 7.25 } else { 0.0 };
            assert_eq!(seconds(t.get_timeout_seconds(other).unwrap()), expected);
        }
    }
}

#[test]
fn seconds_round_as_in_the_standard_library() {
    let values = [
        1.0,
        0.1,
        0.3,
        2.5,
        30.5,
        1e-9,
        0.5e-9,
        1.5e-9,
        2.5e-9,
        4.9e-10,
        5.0e-10,
        5.1e-10,
        1e-10,
        f64::MIN_POSITIVE,
        5e-324,
        0.999_999_999,
        0.999_999_999_4,
        0.999_999_999_5,
        0.999_999_999_9,
        1.000_000_000_1,
        123_456_789.123_456_78,
        4_503_599_627_370_495.5,
        9_007_199_254_740_993.0,
        1e15,
        1e18,
        18_446_744_073_709_549_568.0,
        1.0 / 3.0,
        2.0 / 3.0,
        1.0 / 1024.0,
        1.0 / 1_073_741_824.0,
        3.0 / 2_147_483_648.0,
    ];
    for value in values {
        let expected = std::time::Duration::from_secs_f64(value);
        let actual = seconds_to_duration(value.to_bits());
        assert_eq!((actual.secs, actual.nanos), (expected.as_secs(), expected.subsec_nanos()));
    }
    let mut state: u64 = 0x9e37_79b9_7f4a_7c15;
    for _ in 0..2000 {
        state = state.wrapping_mul(6364136223846793005).wrapping_add(1442695040888963407);
        let exponent = 960 + (state >> 40) % 127;
        let bits = (exponent << 52) | (state & 0xf_ffff_ffff_ffff);
        let expected = std::time::Duration::from_secs_f64(f64::from_bits(bits));
        let actual = seconds_to_duration(bits);
        assert_eq!((actual.secs, actual.nanos), (expected.as_secs(), expected.subsec_nanos()));
    }
}

#[test]
fn seconds_beyond_the_range_are_told_apart() {
    assert!(is_settable(18_446_744_073_709_549_568.0f64.to_bits()));
    assert!(!is_settable(18_446_744_073_709_551_616.0f64.to_bits()));
    assert!(!is_settable(f64::MAX.to_bits()));
    assert!(is_settable(f64::NAN.to_bits()));
    assert!(is_settable(f64::INFINITY.to_bits()));
    assert!(is_settable((-1e300f64).to_bits()));
    assert!(is_settable(0.0f64.to_bits()));
    assert!(is_settable((-0.0f64).to_bits()));
}

#[test]
fn a_negative_zero_removes_a_timeout() {
    let mut t = TimeoutOption::new();
    t.set_timeout_seconds(OPTION_TIMEOUT_FETCH, &double(3.0)).unwrap();
    t.set_timeout_seconds(OPTION_TIMEOUT_FETCH, &double(-0.0)).unwrap();
    assert_eq!(t.fetch_timeout, None);
}

#[test]
fn other_numbers_are_to_be_converted() {
    let mut t = TimeoutOption::new();
    let key = OPTION_TIMEOUT_QUERY;
    let done = t.set_timeout_value(key, &OptionValue::Double(double(2.0))).unwrap();
    assert!(matches!(done, OptionEffect::Done));
    assert_eq!(t.query_timeout, Some(Duration::from_secs(2)));
    assert!(matches!(
        t.set_timeout_value(key, &OptionValue::Int(4)).unwrap(),
        OptionEffect::ConvertSeconds(_)
    ));
    assert!(matches!(
        t.set_timeout_value(key, &OptionValue::String("4".to_string())).unwrap(),
        OptionEffect::ConvertSeconds(_)
    ));
    assert_eq!(t.query_timeout, Some(Duration::from_secs(2)));
    t.set_converted_seconds(key, Some(double(4.0))).unwrap();
    assert_eq!(t.query_timeout, Some(Duration::from_secs(4)));
    let refused = t.set_timeout_value(key, &OptionValue::Bytes(vec![1])).unwrap_err();
    assert_eq!(refused.message, "[adbc_flightsql] timeout must be a number");
    let none = t.set_converted_seconds(key, None).unwrap_err();
    assert_eq!(none.message, "[adbc_flightsql] timeout value must be a number");
}
