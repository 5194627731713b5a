use nmea_0183::messages::dtm::DTMMessage;
use nmea_0183::messages::gbs::GBSMessage;
use nmea_0183::messages::gga::GGAMessage;
use nmea_0183::messages::gll::GLLMessage;
use nmea_0183::messages::gns::GNSMessage;
use nmea_0183::messages::grs::GRSMessage;
use nmea_0183::messages::gsa::GSAMessage;
use nmea_0183::messages::gst::GSTMessage;
use nmea_0183::messages::gsv::GSVMessage;
use nmea_0183::messages::rmc::RMCMessage;
use nmea_0183::messages::txt::TXTMessage;
use nmea_0183::messages::vlw::VLWMessage;
use nmea_0183::messages::vtg::VTGMessage;
use nmea_0183::messages::zda::ZDAMessage;
use nmea_0183::sentence::parse_sentence;
use nmea_0183::{
    ComputationMethod, CourseOverGroundUnit, Date, Decimal, Degree, EastWest, Fix, GBQMessage,
    GLQMessage, GNQMessage, GPQMessage, Knot, Message, MessageLevel, Meter, Minute,
    NavigationMode, NavigationalStatus, NorthSouth, OperationMode, SatelliteInView, Sentence,
    SentenceType, SpeedOverGroundUnit, Status, Talker, Time, WaterDistanceUnit, DBHZ,
};

fn dec(negative: bool, digits: u64, scale: u32) -> Decimal {
    Decimal::from_parts(negative, digits, scale)
}

fn d(v: u64) -> Decimal {
    Decimal::from_int(v)
}

fn hms(hour: u8, minute: u8, second: u8, millisecond: u16) -> Time {
    Time { hour, minute, second, millisecond }
}

#[test]
fn sentence_test_parse_dtm_0_lat_lon_alt() {
    let input = "$GPDTM,W84,,0.0,N,0.0,E,0.0,W84*6F\r\n";
    let expected_sentence = Sentence {
        sentence_type: SentenceType::Parametric,
        talker: Talker::GPS,
        message: Message::DTM(
            DTMMessage {
                datum: String::from("W84"),
                sub_datum: String::from(""),
                lat: Some(Minute(d(0))),
                ns: NorthSouth::North,
                lon: Some(Minute(d(0))),
                ew: EastWest::East,
                alt: Some(Meter(d(0))),
                ref_datum: String::from("W84"),
            },
        ),
    };

    let expected_output = Ok(("", expected_sentence));
    assert_eq!(expected_output, parse_sentence(input));
}

#[test]
fn sentence_test_parse_dtm_lat_lon_alt() {
    let input = "$GPDTM,999,,0.08,N,0.07,E,-47.7,W84*1B\r\n";
    let expected_sentence = Sentence {
        sentence_type: SentenceType::Parametric,
        talker: Talker::GPS,
        message: Message::DTM(
            DTMMessage {
                datum: String::from("999"),
                sub_datum: String::from(""),
                lat: Some(Minute(dec(false, 8, 2))),
                ns: NorthSouth::North,
                lon: Some(Minute(dec(false, 7, 2))),
                ew: EastWest::East,
                alt: Some(Meter(dec(true, 477, 1))),
                ref_datum: String::from("W84"),
            },
        ),
    };

    let expected_output = Ok(("", expected_sentence));
    assert_eq!(expected_output, parse_sentence(input));
}

#[test]
fn sentence_test_parse_dtm_no_lat_lon_alt() {
    let input = "$GPDTM,999,,,N,,E,,W84*23\r\n";
    let expected_sentence = Sentence {
        sentence_type: SentenceType::Parametric,
        talker: Talker::GPS,
        message: Message::DTM(
            DTMMessage {
                datum: String::from("999"),
                sub_datum: String::from(""),
                lat: None,
                ns: NorthSouth::North,
                lon: None,
                ew: EastWest::East,
                alt: None,
                ref_datum: String::from("W84"),
            },
        ),
    };

    let expected_output = Ok(("", expected_sentence));
    assert_eq!(expected_output, parse_sentence(input));
}

#[test]
fn sentence_test_parse_gbq() {
    let input = "$UPGBQ,RMC*21\r\n";
    let expected_sentence = Sentence {
        sentence_type: SentenceType::Parametric,
        talker: Talker::MicroprocessorController,
        message: Message::GBQ(
            GBQMessage { msg_id: String::from("RMC") },
        ),
    };

    let expected_output = Ok(("", expected_sentence));
    assert_eq!(expected_output, parse_sentence(input));
}

#[test]
fn sentence_test_parse_gga() {
    let input = "$GPGGA,092725.00,4717.11399,N,00833.91590,E,1,08,1.01,499.6,M,48.0,M,,*5B\r\n";
    let expected_sentence = Sentence {
        sentence_type: SentenceType::Parametric,
        talker: Talker::GPS,
        message: Message::GGA(
            GGAMessage {
                time: Some(hms(9, 27, 25, 0)),
                lat: Some(Degree(dec(false, 471711399, 7))),
                ns: NorthSouth::North,
                lon: Some(Degree(dec(false, 8339159, 6))),
                ew: EastWest::East,
                quality: Fix::AutonomousGNSSFix,
                num_sv: Some(8),
                hdop: Some(dec(false, 101, 2)),
                alt: Some(Meter(dec(false, 4996, 1))),
                sep: Some(Meter(d(48))),
                diff_age: None,
                diff_station: None,
            },
        ),
    };

    let expected_output = Ok(("", expected_sentence));
    assert_eq!(expected_output, parse_sentence(input));
}

#[test]
fn sentence_test_parse_gsa() {
    let input = "$GNGSA,A,3,80,71,73,79,69,,,,,,,,1.83,1.09,1.47*17\r\n";
    let expected_sentence = Sentence {
        sentence_type: SentenceType::Parametric,
        talker: Talker::GPSGLONASS,
        message: Message::GSA(
            GSAMessage {
                op_mode: OperationMode::Automatic,
                nav_mode: NavigationMode::Fix3D,
                sattelite_ids: vec![
                    Some(80),
                    Some(71),
                    Some(73),
                    Some(79),
                    Some(69),
                    None,
                    None,
                    None,
                    None,
                    None,
                    None,
                    None,
                ],
                pdop: Some(Meter(dec(false, 183, 2))),
                hdop: Some(Meter(dec(false, 109, 2))),
                vdop: Some(Meter(dec(false, 147, 2))),
            },
        ),
    };

    let expected_output = Ok(("", expected_sentence));
    assert_eq!(expected_output, parse_sentence(input));
}

#[test]
fn sentence_test_parse_gsv() {
    let input = "$GPGSV,3,1,11,03,03,111,00,04,15,270,00,06,01,010,00,13,06,292,00*74\r\n";
    let expected_sentence = Sentence {
        sentence_type: SentenceType::Parametric,
        talker: Talker::GPS,
        message: Message::GSV(
            GSVMessage {
                total_msgs: 3,
                msg_num: 1,
                satellite_num: 11,
                satellites: vec![
                    SatelliteInView {
                        id: Some(3),
                        elv: Some(Degree(d(3))),
                        az: Some(Degree(d(111))),
                        cno: Some(DBHZ(d(0))),
                    },
                    SatelliteInView {
                        id: Some(4),
                        elv: Some(Degree(d(15))),
                        az: Some(Degree(d(270))),
                        cno: Some(DBHZ(d(0))),
                    },
                    SatelliteInView {
                        id: Some(6),
                        elv: Some(Degree(d(1))),
                        az: Some(Degree(d(10))),
                        cno: Some(DBHZ(d(0))),
                    },
                    SatelliteInView {
                        id: Some(13),
                        elv: Some(Degree(d(6))),
                        az: Some(Degree(d(292))),
                        cno: Some(DBHZ(d(0))),
                    },
                ],
            },
        ),
    };

    let expected_output = Ok(("", expected_sentence));
    assert_eq!(expected_output, parse_sentence(input));
}

#[test]
fn sentence_test_parse_gll() {
    let input = "$GPGLL,4717.11364,N,00833.91565,E,092321.00,A,A*60\r\n";
    let expected_sentence = Sentence {
        sentence_type: SentenceType::Parametric,
        talker: Talker::GPS,
        message: Message::GLL(
            GLLMessage {
                lat: Some(Degree(dec(false, 471711364, 7))),
                ns: NorthSouth::North,
                lon: Some(Degree(dec(false, 83391565, 7))),
                ew: EastWest::East,
                time: Some(hms(9, 23, 21, 0)),
                status: Status::DataValid,
                pos_mode: Fix::AutonomousGNSSFix,
            },
        ),
    };

    let expected_output = Ok(("", expected_sentence));
    assert_eq!(expected_output, parse_sentence(input));
}

#[test]
fn sentence_test_parse_zda() {
    let input = "$GPZDA,082710.00,16,09,2002,00,00*64\r\n";
    let expected_sentence = Sentence {
        sentence_type: SentenceType::Parametric,
        talker: Talker::GPS,
        message: Message::ZDA(
            ZDAMessage {
                time: Some(hms(8, 27, 10, 0)),
                day: Some(16),
                month: Some(9),
                year: Some(2002),
                ltzh: Some(0),
                ltzn: Some(0),
            },
        ),
    };

    let expected_output = Ok(("", expected_sentence));
    assert_eq!(expected_output, parse_sentence(input));
}

#[test]
fn sentence_test_parse_rmc() {
    let input = "$GPRMC,083559.00,A,4717.11437,N,00833.91522,E,0.004,77.52,091202,,,A,V*2D\r\n";
    let expected_sentence = Sentence {
        sentence_type: SentenceType::Parametric,
        talker: Talker::GPS,
        message: Message::RMC(
            RMCMessage {
                time: Some(hms(8, 35, 59, 0)),
                status: Status::DataValid,
                lat: Some(Degree(dec(false, 471711437, 7))),
                ns: NorthSouth::North,
                lon: Some(Degree(dec(false, 83391522, 7))),
                ew: EastWest::East,
                spd: Some(Knot(dec(false, 4, 3))),
                cog: Some(Degree(dec(false, 7752, 2))),
                date: Some(Date { year: 2002, month: 12, day: 9 }),
                mv: None,
                mv_ew: None,
                pos_mode: Fix::AutonomousGNSSFix,
                nav_status: NavigationalStatus::NotValid,
            },
        ),
    };

    let expected_output = Ok(("", expected_sentence));
    assert_eq!(expected_output, parse_sentence(input));
}

#[test]
fn sentence_test_parse_glq() {
    let input = "$UPGLQ,RMC*2F\r\n";
    let expected_sentence = Sentence {
        sentence_type: SentenceType::Parametric,
        talker: Talker::MicroprocessorController,
        message: Message::GLQ(
            GLQMessage { msg_id: String::from("RMC") },
        ),
    };

    let expected_output = Ok(("", expected_sentence));
    assert_eq!(expected_output, parse_sentence(input));
}

#[test]
fn sentence_test_parse_gnq() {
    let input = "$UPGNQ,RMC*2D\r\n";
    let expected_sentence = Sentence {
        sentence_type: SentenceType::Parametric,
        talker: Talker::MicroprocessorController,
        message: Message::GNQ(
            GNQMessage { msg_id: String::from("RMC") },
        ),
    };

    let expected_output = Ok(("", expected_sentence));
    assert_eq!(expected_output, parse_sentence(input));
}

#[test]
fn sentence_test_parse_gpq() {
    let input = "$GPGPQ,RMC*21\r\n";
    let expected_sentence = Sentence {
        sentence_type: SentenceType::Parametric,
        talker: Talker::GPS,
        message: Message::GPQ(
            GPQMessage { msg_id: String::from("RMC") },
        ),
    };

    let expected_output = Ok(("", expected_sentence));
    assert_eq!(expected_output, parse_sentence(input));
}

#[test]
fn sentence_test_parse_gbs() {
    let input = "$GPGBS,235458.00,1.4,1.3,3.1,03,,-21.4,3.8,1,0*5A\r\n";
    let expected_sentence = Sentence {
        sentence_type: SentenceType::Parametric,
        talker: Talker::GPS,
        message: Message::GBS(
            GBSMessage {
                time: Some(hms(23, 54, 58, 0)),
                lat_err: Some(Meter(dec(false, 14, 1))),
                lon_err: Some(Meter(dec(false, 13, 1))),
                alt_err: Some(Meter(dec(false, 31, 1))),
                sat_prn: Some(3),
                prob: None,
                res: Some(dec(true, 214, 1)),
                std_dev: Some(dec(false, 38, 1)),
                system_id: Some(1),
                signal_id: Some(0),
            },
        ),
    };

    let expected_output = Ok(("", expected_sentence));
    assert_eq!(expected_output, parse_sentence(input));
}

#[test]
fn sentence_test_parse_gns() {
    let input = "$GNGNS,103600.01,5114.51176,N,00012.29380,W,ANNN,07,1.18,111.5,45.6,,,V*00\r\n";
    let expected_sentence = Sentence {
        sentence_type: SentenceType::Parametric,
        talker: Talker::GPSGLONASS,
        message: Message::GNS(
            GNSMessage {
                time: Some(hms(10, 36, 0, 10)),
                lat: Some(Degree(dec(false, 511451176, 7))),
                ns: Some(NorthSouth::North),
                lon: Some(Degree(dec(false, 122938, 6))),
                ew: Some(EastWest::West),
                pos_mode: vec![Fix::AutonomousGNSSFix, Fix::NoFix, Fix::NoFix, Fix::NoFix],
                num_sv: Some(7),
                hdop: Some(dec(false, 118, 2)),
                alt: Some(Meter(dec(false, 1115, 1))),
                sep: Some(Meter(dec(false, 456, 1))),
                diff_age: None,
                diff_station: None,
                nav_status: Status::DataInvalid,
            },
        ),
    };

    let expected_output = Ok(("", expected_sentence));
    assert_eq!(expected_output, parse_sentence(input));
}

#[test]
fn sentence_test_parse_grs() {
    let input = "$GNGRS,104148.00,1,2.6,2.2,-1.6,-1.1,-1.7,-1.5,5.8,1.7,,,,,1,1*52\r\n";
    let expected_sentence = Sentence {
        sentence_type: SentenceType::Parametric,
        talker: Talker::GPSGLONASS,
        message: Message::GRS(
            GRSMessage {
                time: Some(hms(10, 41, 48, 0)),
                mode: Some(ComputationMethod::AfterGGA),
                residuals: vec![
                    Some(Meter(dec(false, 26, 1))),
                    Some(Meter(dec(false, 22, 1))),
                    Some(Meter(dec(true, 16, 1))),
                    Some(Meter(dec(true, 11, 1))),
                    Some(Meter(dec(true, 17, 1))),
                    Some(Meter(dec(true, 15, 1))),
                    Some(Meter(dec(false, 58, 1))),
                    Some(Meter(dec(false, 17, 1))),
                    None,
                    None,
                    None,
                    None,
                ],
                system_id: Some(1),
                signal_id: Some(1),
            },
        ),
    };

    let expected_output = Ok(("", expected_sentence));
    assert_eq!(expected_output, parse_sentence(input));
}

#[test]
fn sentence_test_parse_gst() {
    let input = "$GPGST,082356.00,1.8,,,,1.7,1.3,2.2*7E\r\n";
    let expected_sentence = Sentence {
        sentence_type: SentenceType::Parametric,
        talker: Talker::GPS,
        message: Message::GST(
            GSTMessage {
                time: Some(hms(8, 23, 56, 0)),
                range_rms: Some(Meter(dec(false, 18, 1))),
                std_major: None,
                std_minor: None,
                orient: None,
                std_lat: Some(Meter(dec(false, 17, 1))),
                std_lon: Some(Meter(dec(false, 13, 1))),
                std_alt: Some(Meter(dec(false, 22, 1))),
            },
        ),
    };

    let expected_output = Ok(("", expected_sentence));
    assert_eq!(expected_output, parse_sentence(input));
}

