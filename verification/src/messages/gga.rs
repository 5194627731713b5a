use vstd::prelude::*;

use crate::error::Error;
use crate::fields::cardinality::{
    parse_east_west_indicator, parse_north_south_indicator, spec_parse_east_west_indicator,
    spec_parse_north_south_indicator, EastWest, NorthSouth,
};
use crate::fields::distance::{
    ensure_meter, parse_degree, parse_meter, parse_second, spec_ensure_meter, spec_parse_degree,
    spec_parse_meter, spec_parse_second, Degree, Meter, Second,
};
use crate::fields::identity::{parse_num_satellites, parse_station, spec_parse_station};
use crate::fields::parameter::{
    parse_dilution_of_precision, parse_quality, spec_parse_dilution_of_precision,
    spec_parse_quality, Fix,
};
use crate::fields::time::{parse_time, spec_parse_time, Time};
use crate::number::Decimal;
use crate::parser_utils::{spec_parse_u8, step_eq};

verus! {

/// Global positioning system fix data
#[derive(Debug, Clone, Copy, PartialEq, Eq)]
pub struct GGAMessage {
    /// UTC time
    pub time: Option<Time>,
    /// Latitude
    pub lat: Option<Degree>,
    /// North/South indicator
    pub ns: NorthSouth,
    /// Longitude
    pub lon: Option<Degree>,
    /// East/West indicator
    pub ew: EastWest,
    /// Quality indicator for position fix
    pub quality: Fix,
    /// Number of satellites used
    pub num_sv: Option<u8>,
    /// Horizontal Dilution of Precision
    pub hdop: Option<Decimal>,
    /// Altitude above mean sea level
    pub alt: Option<Meter>,
    /// Geoid separation
    pub sep: Option<Meter>,
    /// Age of differential corrections
    pub diff_age: Option<Second>,
    /// ID of station providing differential corrections
    pub diff_station: Option<u8>,
}

/// Meaning of the position-fix message body: its fields in the order
/// the protocol fixes, including the two `M` unit markers.
#[verifier::opaque]
pub open spec fn spec_parse_gga(s: Seq<char>) -> Result<(Seq<char>, GGAMessage), Error> {
    match spec_parse_time(s) {
        Err(e) => Err(e),
        Ok((s1, time)) => match spec_parse_degree(s1) {
            Err(e) => Err(e),
            Ok((s2, lat)) => match spec_parse_north_south_indicator(s2) {
                Err(e) => Err(e),
                Ok((s3, ns)) => match spec_parse_degree(s3) {
                    Err(e) => Err(e),
                    Ok((s4, lon)) => match spec_parse_east_west_indicator(s4) {
                        Err(e) => Err(e),
                        Ok((s5, ew)) => match spec_parse_quality(s5) {
                            Err(e) => Err(e),
                            Ok((s6, quality)) => match spec_parse_u8(s6) {
                                Err(e) => Err(e),
                                Ok((s7, num_sv)) => match spec_parse_dilution_of_precision(s7) {
                                    Err(e) => Err(e),
                                    Ok((s8, hdop)) => match spec_parse_meter(s8) {
                                        Err(e) => Err(e),
                                        Ok((s9, alt)) => match spec_ensure_meter(s9) {
                                            Err(e) => Err(e),
                                            Ok((s10, _)) => match spec_parse_meter(s10) {
                                                Err(e) => Err(e),
                                                Ok((s11, sep)) => match spec_ensure_meter(s11) {
                                                    Err(e) => Err(e),
                                                    Ok((s12, _)) => match spec_parse_second(s12) {
                                                        Err(e) => Err(e),
                                                        Ok((s13, diff_age)) => match spec_parse_station(s13) {
                                                            Err(e) => Err(e),
                                                            Ok((s14, diff_station)) => Ok(
                                                                (
                                                                    s14,
                                                                    GGAMessage {
                                                                        time,
                                                                        lat,
                                                                        ns,
                                                                        lon,
                                                                        ew,
                                                                        quality,
                                                                        num_sv,
                                                                        hdop,
                                                                        alt,
                                                                        sep,
                                                                        diff_age,
                                                                        diff_station,
                                                                    },
                                                                ),
                                                            ),
                                                        },
                                                    },
                                                },
                                            },
                                        },
                                    },
                                },
                            },
                        },
                    },
                },
            },
        },
    }
}

/// Decodes the position-fix message body.
pub fn parse_gga(input: &str) -> (r: Result<(&str, GGAMessage), Error>)
    ensures
        step_eq(r, spec_parse_gga(input@)),
{
    proof {
        reveal(spec_parse_gga);
    }
    let (s1, time) = match parse_time(input) {
        Ok(p) => p,
        Err(e) => { return Err(e); },
    };
    let (s2, lat) = match parse_degree(s1) {
        Ok(p) => p,
        Err(e) => { return Err(e); },
    };
    let (s3, ns) = match parse_north_south_indicator(s2) {
        Ok(p) => p,
        Err(e) => { return Err(e); },
    };
    let (s4, lon) = match parse_degree(s3) {
        Ok(p) => p,
        Err(e) => { return Err(e); },
    };
    let (s5, ew) = match parse_east_west_indicator(s4) {
        Ok(p) => p,
        Err(e) => { return Err(e); },
    };
    let (s6, quality) = match parse_quality(s5) {
        Ok(p) => p,
        Err(e) => { return Err(e); },
    };
    let (s7, num_sv) = match parse_num_satellites(s6) {
        Ok(p) => p,
        Err(e) => { return Err(e); },
    };
    let (s8, hdop) = match parse_dilution_of_precision(s7) {
        Ok(p) => p,
        Err(e) => { return Err(e); },
    };
    let (s9, alt) = match parse_meter(s8) {
        Ok(p) => p,
        Err(e) => { return Err(e); },
    };
    let (s10, _) = match ensure_meter(s9) {
        Ok(p) => p,
        Err(e) => { return Err(e); },
    };
    let (s11, sep) = match parse_meter(s10) {
        Ok(p) => p,
        Err(e) => { return Err(e); },
    };
    let (s12, _) = match ensure_meter(s11) {
        Ok(p) => p,
        Err(e) => { return Err(e); },
    };
    let (s13, diff_age) = match parse_second(s12) {
        Ok(p) => p,
        Err(e) => { return Err(e); },
    };
    let (s14, diff_station) = match parse_station(s13) {
        Ok(p) => p,
        Err(e) => { return Err(e); },
    };
    Ok(
        (
            s14,
            GGAMessage {
                time,
                lat,
                ns,
                lon,
                ew,
                quality,
                num_sv,
                hdop,
                alt,
                sep,
                diff_age,
                diff_station,
            },
        ),
    )
}

} // verus!
