use vstd::prelude::*;

use crate::error::Error;
use crate::fields::cardinality::{
    parse_maybe_east_west_indicator, parse_maybe_north_south_indicator,
    spec_parse_maybe_east_west_indicator, spec_parse_maybe_north_south_indicator, EastWest,
    NorthSouth,
};
use crate::fields::distance::{
    parse_degree, parse_meter, parse_second, spec_parse_degree, spec_parse_meter,
    spec_parse_second, Degree, Meter, Second,
};
use crate::fields::parameter::{
    parse_pos_mode_vec, parse_status, spec_parse_pos_mode_vec, spec_parse_status, Fix, Status,
};
use crate::fields::time::{parse_time, spec_parse_time, Time};
use crate::number::Decimal;
use crate::parser_utils::{parse_float, parse_u8, spec_parse_float, spec_parse_u8, step_view};

verus! {

/// GNSS fix data
#[derive(Debug, PartialEq, Eq)]
pub struct GNSMessage {
    /// UTC time
    pub time: Option<Time>,
    /// Latitude
    pub lat: Option<Degree>,
    /// North/South indicator
    pub ns: Option<NorthSouth>,
    /// Longitude
    pub lon: Option<Degree>,
    /// East/West indicator
    pub ew: Option<EastWest>,
    /// Positioning mode per navigation system
    pub pos_mode: Vec<Fix>,
    /// Number of satellites used
    pub num_sv: Option<u8>,
    /// Horizontal Dilution of Precision
    pub hdop: Option<Decimal>,
    /// Altitude above mean sea level
    pub alt: Option<Meter>,
    /// Geoid separation
    pub sep: Option<Meter>,
    /// Age of differential corrections
    pub diff_age: Option<Second>,
    /// ID of station providing differential corrections
    pub diff_station: Option<u8>,
    /// Navigational status
    pub nav_status: Status,
}

/// The GNSS-fix record with its mode list as a sequence.
pub struct GNSMessageView {
    pub time: Option<Time>,
    pub lat: Option<Degree>,
    pub ns: Option<NorthSouth>,
    pub lon: Option<Degree>,
    pub ew: Option<EastWest>,
    pub pos_mode: Seq<Fix>,
    pub num_sv: Option<u8>,
    pub hdop: Option<Decimal>,
    pub alt: Option<Meter>,
    pub sep: Option<Meter>,
    pub diff_age: Option<Second>,
    pub diff_station: Option<u8>,
    pub nav_status: Status,
}

impl View for GNSMessage {
    type V = GNSMessageView;

    open spec fn view(&self) -> GNSMessageView {
        GNSMessageView {
            time: self.time,
            lat: self.lat,
            ns: self.ns,
            lon: self.lon,
            ew: self.ew,
            pos_mode: self.pos_mode@,
            num_sv: self.num_sv,
            hdop: self.hdop,
            alt: self.alt,
            sep: self.sep,
            diff_age: self.diff_age,
            diff_station: self.diff_station,
            nav_status: self.nav_status,
        }
    }
}

/// Meaning of the GNSS-fix message body.
#[verifier::opaque]
pub open spec fn spec_parse_gns(s: Seq<char>) -> Result<(Seq<char>, GNSMessageView), Error> {
    match spec_parse_time(s) {
        Err(e) => Err(e),
        Ok((s1, time)) => match spec_parse_degree(s1) {
            Err(e) => Err(e),
            Ok((s2, lat)) => match spec_parse_maybe_north_south_indicator(s2) {
                Err(e) => Err(e),
                Ok((s3, ns)) => match spec_parse_degree(s3) {
                    Err(e) => Err(e),
                    Ok((s4, lon)) => match spec_parse_maybe_east_west_indicator(s4) {
                        Err(e) => Err(e),
                        Ok((s5, ew)) => match spec_parse_pos_mode_vec(s5) {
                            Err(e) => Err(e),
                            Ok((s6, pos_mode)) => match spec_parse_u8(s6) {
                                Err(e) => Err(e),
                                Ok((s7, num_sv)) => match spec_parse_float(s7) {
                                    Err(e) => Err(e),
                                    Ok((s8, hdop)) => match spec_parse_meter(s8) {
                                        Err(e) => Err(e),
                                        Ok((s9, alt)) => match spec_parse_meter(s9) {
                                            Err(e) => Err(e),
                                            Ok((s10, sep)) => match spec_parse_second(s10) {
                                                Err(e) => Err(e),
                                                Ok((s11, diff_age)) => match spec_parse_u8(s11) {
                                                    Err(e) => Err(e),
                                                    Ok((s12, diff_station)) => match spec_parse_status(s12) {
                                                        Err(e) => Err(e),
                                                        Ok((s13, nav_status)) => Ok(
                                                            (
                                                                s13,
                                                                GNSMessageView {
                                                                    time,
                                                                    lat,
                                                                    ns,
                                                                    lon,
                                                                    ew,
                                                                    pos_mode,
                                                                    num_sv,
                                                                    hdop,
                                                                    alt,
                                                                    sep,
                                                                    diff_age,
                                                                    diff_station,
                                                                    nav_status,
                                                                },
                                                            ),
                                                        ),
                                                    },
                                                },
                                            },
                                        },
                                    },
                                },
                            },
                        },
                    },
                },
            },
        },
    }
}

/// Decodes the GNSS-fix message body.
pub fn parse_gns(input: &str) -> (r: Result<(&str, GNSMessage), Error>)
    ensures
        step_view(r, spec_parse_gns(input@)),
{
    proof {
        reveal(spec_parse_gns);
    }
    let (s1, time) = match parse_time(input) {
        Ok(p) => p,
        Err(e) => { return Err(e); },
    };
    let (s2, lat) = match parse_degree(s1) {
        Ok(p) => p,
        Err(e) => { return Err(e); },
    };
    let (s3, ns) = match parse_maybe_north_south_indicator(s2) {
        Ok(p) => p,
        Err(e) => { return Err(e); },
    };
    let (s4, lon) = match parse_degree(s3) {
        Ok(p) => p,
        Err(e) => { return Err(e); },
    };
    let (s5, ew) = match parse_maybe_east_west_indicator(s4) {
        Ok(p) => p,
        Err(e) => { return Err(e); },
    };
    let (s6, pos_mode) = match parse_pos_mode_vec(s5) {
        Ok(p) => p,
        Err(e) => { return Err(e); },
    };
    let (s7, num_sv) = match parse_u8(s6) {
        Ok(p) => p,
        Err(e) => { return Err(e); },
    };
    let (s8, hdop) = match parse_float(s7) {
        Ok(p) => p,
        Err(e) => { return Err(e); },
    };
    let (s9, alt) = match parse_meter(s8) {
        Ok(p) => p,
        Err(e) => { return Err(e); },
    };
    let (s10, sep) = match parse_meter(s9) {
        Ok(p) => p,
        Err(e) => { return Err(e); },
    };
    let (s11, diff_age) = match parse_second(s10) {
        Ok(p) => p,
        Err(e) => { return Err(e); },
    };
    let (s12, diff_station) = match parse_u8(s11) {
        Ok(p) => p,
        Err(e) => { return Err(e); },
    };
    let (s13, nav_status) = match parse_status(s12) {
        Ok(p) => p,
        Err(e) => { return Err(e); },
    };
    Ok(
        (
            s13,
            GNSMessage {
                time,
                lat,
                ns,
                lon,
                ew,
                pos_mode,
                num_sv,
                hdop,
                alt,
                sep,
                diff_age,
                diff_station,
                nav_status,
            },
        ),
    )
}

} // verus!
