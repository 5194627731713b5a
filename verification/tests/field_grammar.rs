use nmea_0183::parser_utils::{parse_float, parse_last_string, parse_string};
use nmea_0183::fields::cardinality::{
    parse_east_west_indicator, parse_north_south_indicator,
};
use nmea_0183::fields::distance::{parse_meter, parse_minute};
use nmea_0183::fields::parameter::parse_status;
use nmea_0183::{Decimal, EastWest, Error, Meter, Minute, NorthSouth, Status};

fn dec(negative: bool, digits: u64, scale: u32) -> Decimal {
    Decimal::from_parts(negative, digits, scale)
}

#[test]
fn cardinality_test_parse_north_indicator() {
    let input = "N,";
    let expected_output = Ok(("", NorthSouth::North));
    assert_eq!(expected_output, parse_north_south_indicator(input));
}

#[test]
fn cardinality_test_parse_south_indicator() {
    let input = "S,";
    let expected_output = Ok(("", NorthSouth::South));
    assert_eq!(expected_output, parse_north_south_indicator(input));
}

#[test]
fn cardinality_test_parse_empty_indicator() {
    let input = ",";
    let expected_output = Err(Error::MissingField);
    assert_eq!(expected_output, parse_north_south_indicator(input));
}

#[test]
fn cardinality_test_parse_east_indicator() {
    let input = "E,";
    let expected_output = Ok(("", EastWest::East));
    assert_eq!(expected_output, parse_east_west_indicator(input));
}

#[test]
fn cardinality_test_parse_west_indicator() {
    let input = "W,";
    let expected_output = Ok(("", EastWest::West));
    assert_eq!(expected_output, parse_east_west_indicator(input));
}

#[test]
fn cardinality_test_parse_empty_indicators() {
    let input = ",";
    let expected_output = Err(Error::MissingField);
    let expected_output2 = Err(Error::MissingField);
    assert_eq!(expected_output, parse_east_west_indicator(input));
    assert_eq!(expected_output2, parse_north_south_indicator(input));
}

#[test]
fn cardinality_test_parse_wrong_indicators() {
    let input = "K,";
    let expected_output = Err(Error::InvalidEnumField);
    let expected_output2 = Err(Error::InvalidEnumField);
    assert_eq!(expected_output, parse_east_west_indicator(input));
    assert_eq!(expected_output2, parse_north_south_indicator(input));
}

#[test]
fn mod_test_parse_north_indicator() {
    let input = "N,";
    let expected_output = Ok(("", NorthSouth::North));
    assert_eq!(expected_output, parse_north_south_indicator(input));
}

#[test]
fn mod_test_parse_south_indicator() {
    let input = "S,";
    let expected_output = Ok(("", NorthSouth::South));
    assert_eq!(expected_output, parse_north_south_indicator(input));
}

#[test]
fn mod_test_parse_empty_indicator() {
    let input = ",";
    let expected_output = Err(Error::MissingField);
    assert_eq!(expected_output, parse_north_south_indicator(input));
}

#[test]
fn mod_test_parse_east_indicator() {
    let input = "E,";
    let expected_output = Ok(("", EastWest::East));
    assert_eq!(expected_output, parse_east_west_indicator(input));
}

#[test]
fn mod_test_parse_west_indicator() {
    let input = "W,";
    let expected_output = Ok(("", EastWest::West));
    assert_eq!(expected_output, parse_east_west_indicator(input));
}

#[test]
fn mod_test_parse_empty_indicators() {
    let input = ",";
    let expected_output = Err(Error::MissingField);
    let expected_output2 = Err(Error::MissingField);
    assert_eq!(expected_output, parse_east_west_indicator(input));
    assert_eq!(expected_output2, parse_north_south_indicator(input));
}

#[test]
fn mod_test_parse_wrong_indicators() {
    let input = "K,";
    let expected_output = Err(Error::InvalidEnumField);
    let expected_output2 = Err(Error::InvalidEnumField);
    assert_eq!(expected_output, parse_east_west_indicator(input));
    assert_eq!(expected_output2, parse_north_south_indicator(input));
}

#[test]
fn mod_test_parse_minutes() {
    let lat = "12.34,";
    let expected_value = Some(Minute(dec(false, 1234, 2)));
    let expected_remaining_input = "";
    let res = parse_minute(lat).unwrap();
    assert_eq!(expected_value, res.1);
    assert_eq!(expected_remaining_input, res.0);
}

#[test]
fn mod_test_parse_0_minutes() {
    let lat = "0.0,";
    let expected_value = Some(Minute(dec(false, 0, 0)));
    let expected_remaining_input = "";
    let res = parse_minute(lat).unwrap();
    assert_eq!(expected_value, res.1);
    assert_eq!(expected_remaining_input, res.0);
}

#[test]
fn mod_test_parse_invalid_minutes() {
    let lat = "12.34this field is definitely invalid,";
    assert!(parse_minute(lat).is_err());
}

#[test]
fn mod_test_parse_meter() {
    let alt = "12.34,";
    let expected_value = Some(Meter(dec(false, 1234, 2)));
    let expected_remaining_input = "";
    let res = parse_meter(alt).unwrap();
    assert_eq!(expected_value, res.1);
    assert_eq!(expected_remaining_input, res.0);
}

#[test]
fn mod_test_parse_0_meter() {
    let alt = "0.0,";
    let expected_value = Some(Meter(dec(false, 0, 0)));
    let expected_remaining_input = "";
    let res = parse_meter(alt).unwrap();
    assert_eq!(expected_value, res.1);
    assert_eq!(expected_remaining_input, res.0);
}

#[test]
fn mod_test_parse_invalid_meter() {
    let lat = "12.34this field is definitely invalid,";
    assert!(parse_meter(lat).is_err());
}

#[test]
fn units_test_parse_minutes() {
    let lat = "12.34,";
    let expected_value = Some(Minute(dec(false, 1234, 2)));
    let expected_remaining_input = "";
    let res = parse_minute(lat).unwrap();
    assert_eq!(expected_value, res.1);
    assert_eq!(expected_remaining_input, res.0);
}

#[test]
fn units_test_parse_0_minutes() {
    let lat = "0.0,";
    let expected_value = Some(Minute(dec(false, 0, 0)));
    let expected_remaining_input = "";
    let res = parse_minute(lat).unwrap();
    assert_eq!(expected_value, res.1);
    assert_eq!(expected_remaining_input, res.0);
}

#[test]
fn units_test_parse_invalid_minutes() {
    let lat = "12.34this field is definitely invalid,";
    assert!(parse_minute(lat).is_err());
}

#[test]
fn units_test_parse_meter() {
    let alt = "12.34,";
    let expected_value = Some(Meter(dec(false, 1234, 2)));
    let expected_remaining_input = "";
    let res = parse_meter(alt).unwrap();
    assert_eq!(expected_value, res.1);
    assert_eq!(expected_remaining_input, res.0);
}

#[test]
fn units_test_parse_0_meter() {
    let alt = "0.0,";
    let expected_value = Some(Meter(dec(false, 0, 0)));
    let expected_remaining_input = "";
    let res = parse_meter(alt).unwrap();
    assert_eq!(expected_value, res.1);
    assert_eq!(expected_remaining_input, res.0);
}

#[test]
fn units_test_parse_invalid_meter() {
    let lat = "12.34this field is definitely invalid,";
    assert!(parse_meter(lat).is_err());
}

#[test]
fn mod_test_parse_float() {
    let lat = "12.34,";
    let expected_value = Some(dec(false, 1234, 2));
    let expected_remaining_input = "";
    let res = parse_float(lat).unwrap();
    assert_eq!(expected_value, res.1);
    assert_eq!(expected_remaining_input, res.0);
}

#[test]
fn mod_test_parse_0_float() {
    let lat = "0.0,";
    let expected_value = Some(dec(false, 0, 0));
    let expected_remaining_input = "";
    let res = parse_float(lat).unwrap();
    assert_eq!(expected_value, res.1);
    assert_eq!(expected_remaining_input, res.0);
}

#[test]
fn mod_test_parse_invalid_float() {
    let lat = "12.34this field is definitely invalid,";
    assert!(parse_float(lat).is_err());
}

#[test]
fn mod_test_parse_empty_float() {
    let lat = ",";
    let expected_value = None;
    let expected_remaining_input = "";
    let res = parse_float(lat).unwrap();
    assert_eq!(expected_value, res.1);
    assert_eq!(expected_remaining_input, res.0);
}

#[test]
fn parser_utils_test_parse_float() {
    let lat = "12.34,";
    let expected_value = Some(dec(false, 1234, 2));
    let expected_remaining_input = "";
    let res = parse_float(lat).unwrap();
    assert_eq!(expected_value, res.1);
    assert_eq!(expected_remaining_input, res.0);
}

#[test]
fn parser_utils_test_parse_0_float() {
    let lat = "0.0,";
    let expected_value = Some(dec(false, 0, 0));
    let expected_remaining_input = "";
    let res = parse_float(lat).unwrap();
    assert_eq!(expected_value, res.1);
    assert_eq!(expected_remaining_input, res.0);
}

#[test]
fn parser_utils_test_parse_invalid_float() {
    let lat = "12.34this field is definitely invalid,";
    assert!(parse_float(lat).is_err());
}

#[test]
fn parser_utils_test_parse_empty_float() {
    let lat = ",";
    let expected_value = None;
    let expected_remaining_input = "";
    let res = parse_float(lat).unwrap();
    assert_eq!(expected_value, res.1);
    assert_eq!(expected_remaining_input, res.0);
}

#[test]
fn mod_test_parse_string() {
    let input = "foo_bar,";
    let expected = Ok(("", "foo_bar"));
    assert_eq!(expected, parse_string(input));
}

#[test]
fn mod_test_parse_empty_string() {
    let input = ",";
    let expected = Ok(("", ""));
    assert_eq!(expected, parse_string(input));
}

#[test]
fn mod_test_parse_last_string() {
    let input = "foo_bar*";
    let expected = Ok(("", "foo_bar*"));
    assert_eq!(expected, parse_last_string(input));
}

#[test]
fn mod_test_parse_empty_last_string() {
    let input = "";
    let expected = Ok(("", ""));
    assert_eq!(expected, parse_last_string(input));
}

#[test]
fn mod_test_parse_string_sequence() {
    let input = "and one,and two,and three,and four,and five";
    let expected_one = Ok(("and two,and three,and four,and five", "and one"));
    let expected_two = Ok(("and three,and four,and five", "and two"));
    let expected_three = Ok(("and four,and five", "and three"));
    let expected_four = Ok(("and five", "and four"));
    let expected_five = Ok(("", "and five"));
    assert_eq!(expected_one, parse_string(input));
    assert_eq!(expected_two, parse_string(expected_one.unwrap().0));
    assert_eq!(expected_three, parse_string(expected_two.unwrap().0));
    assert_eq!(expected_four, parse_string(expected_three.unwrap().0));
    assert_eq!(expected_five, parse_last_string(expected_four.unwrap().0));
}

#[test]
fn parser_utils_test_parse_string() {
    let input = "foo_bar,";
    let expected = Ok(("", "foo_bar"));
    assert_eq!(expected, parse_string(input));
}

#[test]
fn parser_utils_test_parse_empty_string() {
    let input = ",";
    let expected = Ok(("", ""));
    assert_eq!(expected, parse_string(input));
}

#[test]
fn parser_utils_test_parse_last_string() {
    let input = "foo_bar*";
    let expected = Ok(("", "foo_bar*"));
    assert_eq!(expected, parse_string(input));
}

#[test]
fn parser_utils_test_parse_empty_last_string() {
    let input = "";
    assert!(parse_string(input).is_err());
}

#[test]
fn parser_utils_test_parse_string_sequence() {
    let input = "and one,and two,and three,and four,and five";
    let expected_one = Ok(("and two,and three,and four,and five", "and one"));
    let expected_two = Ok(("and three,and four,and five", "and two"));
    let expected_three = Ok(("and four,and five", "and three"));
    let expected_four = Ok(("and five", "and four"));
    let expected_five = Ok(("", "and five"));
    assert_eq!(expected_one, parse_string(input));
    assert_eq!(expected_two, parse_string(expected_one.unwrap().0));
    assert_eq!(expected_three, parse_string(expected_two.unwrap().0));
    assert_eq!(expected_four, parse_string(expected_three.unwrap().0));
    assert_eq!(expected_five, parse_string(expected_four.unwrap().0));
}

#[test]
fn mod_test_parse_status_data_invalid() {
    let status = "V,";
    let expected_value = Status::DataInvalid;
    let expected_remaining_input = "";
    let res = parse_status(status).unwrap();
    assert_eq!(expected_value, res.1);
    assert_eq!(expected_remaining_input, res.0);
}

#[test]
fn mod_test_parse_status_data_valid() {
    let status = "A,";
    let expected_value = Status::DataValid;
    let expected_remaining_input = "";
    let res = parse_status(status).unwrap();
    assert_eq!(expected_value, res.1);
    assert_eq!(expected_remaining_input, res.0);
}

#[test]
fn mod_test_parse_status_missing_comma() {
    let status = "V";
    let expected_value = Status::DataInvalid;
    let expected_remaining_input = "";
    let res = parse_status(status).unwrap();
    assert_eq!(expected_value, res.1);
    assert_eq!(expected_remaining_input, res.0);
}

#[test]
fn mod_test_parse_status_garbage_data() {
    let status = "foo,";
    assert!(parse_status(status).is_err());
}

#[test]
fn units_test_parse_status_data_invalid() {
    let status = "V,";
    let expected_value = Status::DataInvalid;
    let expected_remaining_input = "";
    let res = parse_status(status).unwrap();
    assert_eq!(expected_value, res.1);
    assert_eq!(expected_remaining_input, res.0);
}

#[test]
fn units_test_parse_status_data_valid() {
    let status = "A,";
    let expected_value = Status::DataValid;
    let expected_remaining_input = "";
    let res = parse_status(status).unwrap();
    assert_eq!(expected_value, res.1);
    assert_eq!(expected_remaining_input, res.0);
}

#[test]
fn units_test_parse_status_missing_comma() {
    let status = "V";
    let expected_value = Status::DataInvalid;
    let expected_remaining_input = "";
    let res = parse_status(status).unwrap();
    assert_eq!(expected_value, res.1);
    assert_eq!(expected_remaining_input, res.0);
}

#[test]
fn units_test_parse_status_garbage_data() {
    let status = "foo,";
    assert!(parse_status(status).is_err());
}
