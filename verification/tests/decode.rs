use nmea_0183::parse;
use nmea_0183::messages::gga::GGAMessage;
use nmea_0183::messages::vtg::VTGMessage;
use nmea_0183::{
    CourseOverGroundUnit, Decimal, Degree, EastWest, Error, Fix, GBQMessage, Message, Meter,
    NorthSouth, Sentence, SentenceType, SpeedOverGroundUnit, Talker, Time,
};

fn dec(negative: bool, digits: u64, scale: u32) -> Decimal {
    Decimal::from_parts(negative, digits, scale)
}

fn d(v: u64) -> Decimal {
    Decimal::from_int(v)
}

fn hms(hour: u8, minute: u8, second: u8, millisecond: u16) -> Time {
    Time { hour, minute, second, millisecond }
}

#[test]
fn test_parse_valid() {
    let input = "$GPVTG,77.52,T,,M,0.004,N,0.008,K,A*06\r\n";
    let expected_sentence = Sentence {
        sentence_type: SentenceType::Parametric,
        talker: Talker::GPS,
        message: Message::VTG(VTGMessage {
            cogt: Some(dec(false, 7752, 2)),
            cogt_unit: Some(CourseOverGroundUnit::DegreesTrue),
            cogm: None,
            cogm_unit: Some(CourseOverGroundUnit::DegreesMagnetic),
            sogn: Some(dec(false, 4, 3)),
            sogn_unit: Some(SpeedOverGroundUnit::Knots),
            sogk: Some(dec(false, 8, 3)),
            sogk_unit: Some(SpeedOverGroundUnit::KilometersPerHour),
            pos_mode: Fix::AutonomousGNSSFix,
        }),
    };

    assert_eq!(Ok(expected_sentence), parse(input));
}

#[test]
fn test_parse_missing_crlf() {
    let input = "$GPVTG,77.52,T,,M,0.004,N,0.008,K,A*06";
    let expected_error = Err(Error::MalformedTerminator);
    assert_eq!(expected_error, parse(input));
}

#[test]
fn test_position_fix_end_to_end() {
    // The worked position-fix example: talker, time, coordinates, fix
    // quality, satellite count, dilution, altitude and geoid
    // separation all land in the record; the empty differential
    // fields stay absent.
    let input = "$GPGGA,092725.00,4717.11399,N,00833.91590,E,1,08,1.01,499.6,M,48.0,M,,*5B\r\n";
    let expected_sentence = Sentence {
        sentence_type: SentenceType::Parametric,
        talker: Talker::GPS,
        message: Message::GGA(GGAMessage {
            time: Some(hms(9, 27, 25, 0)),
            lat: Some(Degree(dec(false, 471711399, 7))),
            ns: NorthSouth::North,
            lon: Some(Degree(dec(false, 8339159, 6))),
            ew: EastWest::East,
            quality: Fix::AutonomousGNSSFix,
            num_sv: Some(8),
            hdop: Some(dec(false, 101, 2)),
            alt: Some(Meter(dec(false, 4996, 1))),
            sep: Some(Meter(d(48))),
            diff_age: None,
            diff_station: None,
        }),
    };

    assert_eq!(Ok(expected_sentence), parse(input));
}

#[test]
fn test_poll_request_end_to_end() {
    // A bare polling request: user-configured talker and the
    // identifier of the message being polled, nothing more.
    let input = "$UPGBQ,RMC*21\r\n";
    let expected_sentence = Sentence {
        sentence_type: SentenceType::Parametric,
        talker: Talker::MicroprocessorController,
        message: Message::GBQ(GBQMessage { msg_id: String::from("RMC") }),
    };

    assert_eq!(Ok(expected_sentence), parse(input));
}

#[test]
fn test_unknown_message_code_is_an_error() {
    // A syntactically clean sentence with a code outside the dispatch
    // table fails with the unknown-code error, never with a panic.
    let input = "$GPZZZ,RMC*3D\r\n";
    assert_eq!(Err(Error::UnknownMessageCode), parse(input));
}

#[test]
fn test_decoding_is_pure() {
    let input = "$GPGGA,092725.00,4717.11399,N,00833.91590,E,1,08,1.01,499.6,M,48.0,M,,*5B\r\n";
    let first = parse(input);
    let second = parse(input);
    assert_eq!(first, second);
    assert!(first.is_ok());
}

#[test]
fn test_mutated_payload_fails_with_checksum_mismatch() {
    // One corrupted byte in the latitude, checksum left as
    // transmitted: the checksum gate rejects the sentence.
    let input = "$GPGGA,092725.00,5717.11399,N,00833.91590,E,1,08,1.01,499.6,M,48.0,M,,*5B\r\n";
    assert_eq!(Err(Error::ChecksumMismatch), parse(input));
}

#[test]
fn test_wrong_checksum_fails_with_checksum_mismatch() {
    let input = "$GPGGA,092725.00,4717.11399,N,00833.91590,E,1,08,1.01,499.6,M,48.0,M,,*5C\r\n";
    assert_eq!(Err(Error::ChecksumMismatch), parse(input));
}

#[test]
fn test_unparseable_checksum_field() {
    let input = "$GPGGA,1*ZZ\r\n";
    assert_eq!(Err(Error::InvalidChecksum), parse(input));
}

#[test]
fn test_no_checksum_delimiter() {
    let input = "$GPGGA,092725.00";
    assert_eq!(Err(Error::UnterminatedSentence), parse(input));
}

#[test]
fn test_empty_input_is_incomplete() {
    assert_eq!(Err(Error::Incomplete), parse(""));
}

#[test]
fn test_wrong_frame_marker() {
    assert_eq!(Err(Error::UnknownFrameMarker), parse("#GPGGA,1*00\r\n"));
}

#[test]
fn test_payload_too_short_for_code() {
    let input = "$GP*17\r\n";
    assert_eq!(Err(Error::Incomplete), parse(input));
}

#[test]
fn test_unknown_talker_is_an_error() {
    let input = "$XXGBQ,RMC*24\r\n";
    assert_eq!(Err(Error::UnknownTalker), parse(input));
}

#[test]
fn test_extra_field_is_trailing_data() {
    let input = "$UPGBQ,RMC,X*55\r\n";
    assert_eq!(Err(Error::TrailingData), parse(input));
}

#[test]
fn test_exhausted_fields_is_missing_field() {
    // A position-fix sentence cut short: the decoder wants a latitude
    // but the buffer is done.
    let input = "$GPGGA,092725.00*5F\r\n";
    assert_eq!(Err(Error::MissingField), parse(input));
}

#[test]
fn test_empty_optional_fields_stay_absent() {
    // Empty tokens decode to absent, never to zero: the differential
    // fields of the worked example are None, not zero values.
    let input = "$GPGGA,092725.00,4717.11399,N,00833.91590,E,1,08,1.01,499.6,M,48.0,M,,*5B\r\n";
    match parse(input) {
        Ok(Sentence { message: Message::GGA(m), .. }) => {
            assert_eq!(None, m.diff_age);
            assert_eq!(None, m.diff_station);
        },
        other => panic!("expected a position fix, got {:?}", other),
    }
}

#[test]
fn test_encapsulated_frame_marker() {
    let input = "!GPGBQ,GGA*2E\r\n";
    let expected_sentence = Sentence {
        sentence_type: SentenceType::Encapsulation,
        talker: Talker::GPS,
        message: Message::GBQ(GBQMessage { msg_id: String::from("GGA") }),
    };
    assert_eq!(Ok(expected_sentence), parse(input));
}
