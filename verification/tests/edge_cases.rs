use nmea_0183::parse;
use nmea_0183::fields::cardinality::parse_maybe_east_west_indicator;
use nmea_0183::fields::identity::parse_talker;
use nmea_0183::fields::parameter::{
    parse_computation_method, parse_message_type, parse_pos_mode_vec, parse_quality,
};
use nmea_0183::fields::time::parse_time;
use nmea_0183::parser_utils::parse_float;
use nmea_0183::{
    ComputationMethod, Decimal, Error, Fix, Message, MessageLevel, Talker, Time,
};

fn dec(negative: bool, digits: u64, scale: u32) -> Decimal {
    Decimal::from_parts(negative, digits, scale)
}

#[test]
fn test_parse_float_leading_plus() {
    assert_eq!(Ok(("", Some(dec(false, 5, 0)))), parse_float("+5,"));
}

#[test]
fn test_parse_float_negative() {
    assert_eq!(Ok(("", Some(dec(true, 214, 1)))), parse_float("-21.4,"));
}

#[test]
fn test_parse_float_negative_zero_reads_as_zero() {
    assert_eq!(Ok(("", Some(Decimal::from_int(0)))), parse_float("-0.0,"));
}

#[test]
fn test_parse_float_bare_fraction() {
    assert_eq!(Ok(("", Some(dec(false, 5, 1)))), parse_float(".5,"));
}

#[test]
fn test_parse_float_trailing_point() {
    assert_eq!(Ok(("", Some(dec(false, 4, 0)))), parse_float("4.,"));
}

#[test]
fn test_parse_float_lone_point_is_invalid() {
    assert_eq!(Err(Error::InvalidNumericField), parse_float(".,"));
}

#[test]
fn test_parse_float_lone_sign_is_invalid() {
    assert_eq!(Err(Error::InvalidNumericField), parse_float("-,"));
}

#[test]
fn test_parse_float_exponent_is_invalid() {
    assert_eq!(Err(Error::InvalidNumericField), parse_float("1e3,"));
}

#[test]
fn test_parse_float_two_points_is_invalid() {
    assert_eq!(Err(Error::InvalidNumericField), parse_float("1.2.3,"));
}

#[test]
fn test_time_single_fraction_digit_is_hundredths() {
    let res = parse_time("092725.5,").unwrap();
    assert_eq!(
        Some(Time { hour: 9, minute: 27, second: 25, millisecond: 50 }),
        res.1,
    );
}

#[test]
fn test_maybe_indicator_consumes_one_comma_only() {
    // An empty optional code takes its own terminating comma and
    // nothing more, so the next empty field stays in the buffer.
    assert_eq!(Ok((",", None)), parse_maybe_east_west_indicator(",,"));
}

#[test]
fn test_quality_codes() {
    assert_eq!(Ok(("", Fix::NoFix)), parse_quality("0,"));
    assert_eq!(Ok(("", Fix::RTKFloat)), parse_quality("5,"));
    assert_eq!(Err(Error::InvalidEnumField), parse_quality("3,"));
}

#[test]
fn test_computation_method_codes() {
    assert_eq!(Ok(("", Some(ComputationMethod::InGGA))), parse_computation_method("0,"));
    assert_eq!(Ok(("", None)), parse_computation_method(","));
    assert_eq!(Err(Error::InvalidEnumField), parse_computation_method("9,"));
}

#[test]
fn test_message_level_codes() {
    assert_eq!(Ok(("", MessageLevel::Error)), parse_message_type("00,"));
    assert_eq!(Ok(("", MessageLevel::User)), parse_message_type("07,"));
    assert_eq!(Err(Error::InvalidEnumField), parse_message_type("03,"));
    assert_eq!(Err(Error::MissingField), parse_message_type("02"));
}

#[test]
fn test_pos_mode_list_rejects_unknown_letter() {
    assert_eq!(Err(Error::InvalidEnumField), parse_pos_mode_vec("ANXN,"));
}

#[test]
fn test_pos_mode_list_needs_terminating_comma() {
    assert_eq!(Err(Error::MissingField), parse_pos_mode_vec("ANNN"));
}

#[test]
fn test_constellation_talkers() {
    assert_eq!(Ok(("", Talker::Galileo)), parse_talker("GA"));
    assert_eq!(Ok(("", Talker::BeiDou)), parse_talker("GB"));
    assert_eq!(Ok(("", Talker::BeiDou)), parse_talker("BD"));
    assert_eq!(Ok(("", Talker::GLONASS)), parse_talker("GL"));
    assert_eq!(Ok(("", Talker::QZSS)), parse_talker("QZ"));
}

#[test]
fn test_lowercase_checksum_digits_accepted() {
    let input = "$GPGGA,092725.00,4717.11399,N,00833.91590,E,1,08,1.01,499.6,M,48.0,M,,*5b\r\n";
    let decoded = parse(input).unwrap();
    assert!(matches!(decoded.message, Message::GGA(_)));
}

#[test]
fn test_satellite_list_cut_mid_entry() {
    // The last satellite group breaks off after two of its four
    // numeric fields: the whole sentence fails.
    let input = "$GPGSV,3,1,11,03,03*7B\r\n";
    assert_eq!(Err(Error::MissingField), parse(input));
}
