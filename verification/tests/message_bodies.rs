use nmea_0183::messages::dtm::{parse_dtm, DTMMessage};
use nmea_0183::messages::gbq::parse_gbq;
use nmea_0183::messages::gbs::{parse_gbs, GBSMessage};
use nmea_0183::messages::gga::{parse_gga, GGAMessage};
use nmea_0183::messages::gll::{parse_gll, GLLMessage};
use nmea_0183::messages::glq::parse_glq;
use nmea_0183::messages::gnq::parse_gnq;
use nmea_0183::messages::gns::{parse_gns, GNSMessage};
use nmea_0183::messages::gpq::parse_gpq;
use nmea_0183::messages::grs::{parse_grs, GRSMessage};
use nmea_0183::messages::gsa::{parse_gsa, GSAMessage};
use nmea_0183::messages::gst::{parse_gst, GSTMessage};
use nmea_0183::messages::gsv::{parse_gsv, GSVMessage};
use nmea_0183::messages::rmc::{parse_rmc, RMCMessage};
use nmea_0183::messages::txt::{parse_txt, TXTMessage};
use nmea_0183::messages::vlw::{parse_vlw, VLWMessage};
use nmea_0183::messages::vtg::{parse_vtg, VTGMessage};
use nmea_0183::messages::zda::{parse_zda, ZDAMessage};
use nmea_0183::{
    ComputationMethod, CourseOverGroundUnit, Date, Decimal, Degree, EastWest, Fix, GBQMessage,
    GLQMessage, GNQMessage, GPQMessage, Knot, MessageLevel, Meter, Minute, NavigationMode,
    NavigationalStatus, NorthSouth, OperationMode, SatelliteInView, Second, SpeedOverGroundUnit,
    Status, Time, WaterDistanceUnit, DBHZ,
};

fn dec(negative: bool, digits: u64, scale: u32) -> Decimal {
    Decimal::from_parts(negative, digits, scale)
}

fn d(v: u64) -> Decimal {
    Decimal::from_int(v)
}

fn hms(hour: u8, minute: u8, second: u8, millisecond: u16) -> Time {
    Time { hour, minute, second, millisecond }
}

#[test]
fn test_parse_dtm() {
    let input = "W84,,0.0,N,0.0,E,0.0,W84";
    let expected = Ok((
        "",
        DTMMessage {
            datum: String::from("W84"),
            sub_datum: String::from(""),
            lat: Some(Minute(d(0))),
            ns: NorthSouth::North,
            lon: Some(Minute(d(0))),
            ew: EastWest::East,
            alt: Some(Meter(d(0))),
            ref_datum: String::from("W84"),
        },
    ));

    assert_eq!(expected, parse_dtm(input));
}

#[test]
fn gbq_test_parse_gbq() {
    let input = "RMC";
    let expected = Ok(("", GBQMessage { msg_id: String::from("RMC") }));

    assert_eq!(expected, parse_gbq(input));
}

#[test]
fn glq_test_parse_glq() {
    let input = "RMC";
    let expected = Ok(("", GLQMessage { msg_id: String::from("RMC") }));

    assert_eq!(expected, parse_glq(input));
}

#[test]
fn gnq_test_parse_gnq() {
    let input = "RMC";
    let expected = Ok(("", GNQMessage { msg_id: String::from("RMC") }));

    assert_eq!(expected, parse_gnq(input));
}

#[test]
fn gpq_test_parse_gpq() {
    let input = "RMC";
    let expected = Ok(("", GPQMessage { msg_id: String::from("RMC") }));

    assert_eq!(expected, parse_gpq(input));
}

#[test]
fn gbs_test_parse_gbs() {
    let input = "235458.00,1.4,1.3,3.1,03,,-21.4,3.8,1,0";
    let expected = Ok((
        "",
        GBSMessage {
            time: Some(hms(23, 54, 58, 0)),
            lat_err: Some(Meter(dec(false, 14, 1))),
            lon_err: Some(Meter(dec(false, 13, 1))),
            alt_err: Some(Meter(dec(false, 31, 1))),
            sat_prn: Some(3),
            prob: None,
            res: Some(dec(true, 214, 1)),
            std_dev: Some(dec(false, 38, 1)),
            system_id: Some(1),
            signal_id: Some(0),
        },
    ));

    assert_eq!(expected, parse_gbs(input));
}

#[test]
fn gga_test_parse_gga() {
    let input = "092725.00,4717.11399,N,00833.91590,E,1,08,1.01,499.6,M,48.0,M,,";
    let expected = Ok((
        "",
        GGAMessage {
            time: Some(hms(9, 27, 25, 0)),
            lat: Some(Degree(dec(false, 471711399, 7))),
            ns: NorthSouth::North,
            lon: Some(Degree(dec(false, 8339159, 6))),
            ew: EastWest::East,
            quality: Fix::AutonomousGNSSFix,
            num_sv: Some(8),
            hdop: Some(dec(false, 101, 2)),
            alt: Some(Meter(dec(false, 4996, 1))),
            sep: Some(Meter(d(48))),
            diff_age: None,
            diff_station: None,
        },
    ));

    assert_eq!(expected, parse_gga(input));
}

#[test]
fn gll_test_parse_gll() {
    let input = "4717.11364,N,00833.91565,E,092321.00,A,A";
    let expected = Ok((
        "",
        GLLMessage {
            lat: Some(Degree(dec(false, 471711364, 7))),
            ns: NorthSouth::North,
            lon: Some(Degree(dec(false, 83391565, 7))),
            ew: EastWest::East,
            time: Some(hms(9, 23, 21, 0)),
            status: Status::DataValid,
            pos_mode: Fix::AutonomousGNSSFix,
        },
    ));

    assert_eq!(expected, parse_gll(input));
}

#[test]
fn gns_test_parse_gns() {
    let input = "103600.01,5114.51176,N,00012.29380,W,ANNN,07,1.18,111.5,45.6,,,V";
    let expected = Ok((
        "",
        GNSMessage {
            time: Some(hms(10, 36, 0, 10)),
            lat: Some(Degree(dec(false, 511451176, 7))),
            ns: Some(NorthSouth::North),
            lon: Some(Degree(dec(false, 122938, 6))),
            ew: Some(EastWest::West),
            pos_mode: vec![Fix::AutonomousGNSSFix, Fix::NoFix, Fix::NoFix, Fix::NoFix],
            num_sv: Some(7),
            hdop: Some(dec(false, 118, 2)),
            alt: Some(Meter(dec(false, 1115, 1))),
            sep: Some(Meter(dec(false, 456, 1))),
            diff_age: None,
            diff_station: None,
            nav_status: Status::DataInvalid,
        },
    ));

    assert_eq!(expected, parse_gns(input));
}

#[test]
fn grs_test_parse_grs() {
    let input = "104148.00,1,2.6,2.2,-1.6,-1.1,-1.7,-1.5,5.8,1.7,,,,,1,1";
    let expected = Ok((
        "",
        GRSMessage {
            time: Some(hms(10, 41, 48, 0)),
            mode: Some(ComputationMethod::AfterGGA),
            residuals: vec![
                Some(Meter(dec(false, 26, 1))),
                Some(Meter(dec(false, 22, 1))),
                Some(Meter(dec(true, 16, 1))),
                Some(Meter(dec(true, 11, 1))),
                Some(Meter(dec(true, 17, 1))),
                Some(Meter(dec(true, 15, 1))),
                Some(Meter(dec(false, 58, 1))),
                Some(Meter(dec(false, 17, 1))),
                None,
                None,
                None,
                None,
            ],
            system_id: Some(1),
            signal_id: Some(1),
        },
    ));

    assert_eq!(expected, parse_grs(input));
}

#[test]
fn gsa_test_parse_gsa() {
    let input = "A,3,80,71,73,79,69,,,,,,,,1.83,1.09,1.47";
    let expected = Ok((
        "",
        GSAMessage {
            op_mode: OperationMode::Automatic,
            nav_mode: NavigationMode::Fix3D,
            sattelite_ids: vec![
                Some(80),
                Some(71),
                Some(73),
                Some(79),
                Some(69),
                None,
                None,
                None,
                None,
                None,
                None,
                None,
            ],
            pdop: Some(Meter(dec(false, 183, 2))),
            hdop: Some(Meter(dec(false, 109, 2))),
            vdop: Some(Meter(dec(false, 147, 2))),
        },
    ));

    assert_eq!(expected, parse_gsa(input));
}

#[test]
fn gst_test_parse_gst() {
    let input = "082356.00,1.8,,,,1.7,1.3,2.2";
    let expected = Ok((
        "",
        GSTMessage {
            time: Some(hms(8, 23, 56, 0)),
            range_rms: Some(Meter(dec(false, 18, 1))),
            std_major: None,
            std_minor: None,
            orient: None,
            std_lat: Some(Meter(dec(false, 17, 1))),
            std_lon: Some(Meter(dec(false, 13, 1))),
            std_alt: Some(Meter(dec(false, 22, 1))),
        },
    ));

    assert_eq!(expected, parse_gst(input));
}

#[test]
fn gsv_test_parse_gsv() {
    let input = "3,1,11,03,03,111,00,04,15,270,00,06,01,010,00,13,06,292,00";
    let expected = Ok((
        "",
        GSVMessage {
            total_msgs: 3,
            msg_num: 1,
            satellite_num: 11,
            satellites: vec![
                SatelliteInView {
                    id: Some(3),
                    elv: Some(Degree(d(3))),
                    az: Some(Degree(d(111))),
                    cno: Some(DBHZ(d(0))),
                },
                SatelliteInView {
                    id: Some(4),
                    elv: Some(Degree(d(15))),
                    az: Some(Degree(d(270))),
                    cno: Some(DBHZ(d(0))),
                },
                SatelliteInView {
                    id: Some(6),
                    elv: Some(Degree(d(1))),
                    az: Some(Degree(d(10))),
                    cno: Some(DBHZ(d(0))),
                },
                SatelliteInView {
                    id: Some(13),
                    elv: Some(Degree(d(6))),
                    az: Some(Degree(d(292))),
                    cno: Some(DBHZ(d(0))),
                },
            ],
        },
    ));

    assert_eq!(expected, parse_gsv(input));
}

#[test]
fn rmc_test_parse_rmc() {
    let input = "083559.00,A,4717.11437,N,00833.91522,E,0.004,77.52,091202,,,A,V";
    let expected = Ok((
        "",
        RMCMessage {
            time: Some(hms(8, 35, 59, 0)),
            status: Status::DataValid,
            lat: Some(Degree(dec(false, 471711437, 7))),
            ns: NorthSouth::North,
            lon: Some(Degree(dec(false, 83391522, 7))),
            ew: EastWest::East,
            spd: Some(Knot(dec(false, 4, 3))),
            cog: Some(Degree(dec(false, 7752, 2))),
            date: Some(Date { year: 2002, month: 12, day: 9 }),
            mv: None,
            mv_ew: None,
            pos_mode: Fix::AutonomousGNSSFix,
            nav_status: NavigationalStatus::NotValid,
        },
    ));

    assert_eq!(expected, parse_rmc(input));
}

#[test]
fn txt_test_parse_txt() {
    let input = "01,01,02,ANTARIS ATR0620 HW 00000040";
    let expected = Ok((
        "",
        TXTMessage {
            num_msg: Some(1),
            msg_num: Some(1),
            msg_type: MessageLevel::Notice,
            text: String::from("ANTARIS ATR0620 HW 00000040"),
        },
    ));

    assert_eq!(expected, parse_txt(input));
}

#[test]
fn vlw_test_parse_vlw() {
    let input = ",N,,N,15.8,N,1.2,N";
    let expected = Ok((
        "",
        VLWMessage {
            twd: None,
            twd_unit: Some(WaterDistanceUnit::NauticalMile),
            wd: None,
            wd_unit: Some(WaterDistanceUnit::NauticalMile),
            tgd: Some(dec(false, 158, 1)),
            tgd_unit: Some(WaterDistanceUnit::NauticalMile),
            gd: Some(dec(false, 12, 1)),
            gd_unit: Some(WaterDistanceUnit::NauticalMile),
        },
    ));

    assert_eq!(expected, parse_vlw(input));
}

#[test]
fn vtg_test_parse_vtg() {
    let input = "77.52,T,,M,0.004,N,0.008,K,A";
    let expected = Ok((
        "",
        VTGMessage {
            cogt: Some(dec(false, 7752, 2)),
            cogt_unit: Some(CourseOverGroundUnit::DegreesTrue),
            cogm: None,
            cogm_unit: Some(CourseOverGroundUnit::DegreesMagnetic),
            sogn: Some(dec(false, 4, 3)),
            sogn_unit: Some(SpeedOverGroundUnit::Knots),
            sogk: Some(dec(false, 8, 3)),
            sogk_unit: Some(SpeedOverGroundUnit::KilometersPerHour),
            pos_mode: Fix::AutonomousGNSSFix,
        },
    ));

    assert_eq!(expected, parse_vtg(input));
}

#[test]
fn zda_test_parse_zda() {
    let input = "082710.00,16,09,2002,00,00";
    let expected = Ok((
        "",
        ZDAMessage {
            time: Some(hms(8, 27, 10, 0)),
            day: Some(16),
            month: Some(9),
            year: Some(2002),
            ltzh: Some(0),
            ltzn: Some(0),
        },
    ));

    assert_eq!(expected, parse_zda(input));
}
