use vstd::prelude::*;

use crate::error::Error;
use crate::fields::cardinality::{
    parse_east_west_indicator, parse_maybe_east_west_indicator, parse_north_south_indicator,
    spec_parse_east_west_indicator, spec_parse_maybe_east_west_indicator,
    spec_parse_north_south_indicator, EastWest, NorthSouth,
};
use crate::fields::distance::{
    parse_degree, parse_raw_degree, spec_parse_degree, spec_parse_raw_degree, Degree,
};
use crate::fields::parameter::{
    parse_navigational_status, parse_pos_mode, parse_status, spec_parse_navigational_status,
    spec_parse_pos_mode, spec_parse_status, Fix, NavigationalStatus, Status,
};
use crate::fields::speed::{parse_knot, spec_parse_knot, Knot};
use crate::fields::time::{parse_date, parse_time, spec_parse_date, spec_parse_time, Date, Time};
use crate::parser_utils::step_eq;

verus! {

/// Recommended minimum data
#[derive(Debug, Clone, Copy, PartialEq, Eq)]
pub struct RMCMessage {
    /// UTC time
    pub time: Option<Time>,
    /// Data validity status
    pub status: Status,
    /// Latitude
    pub lat: Option<Degree>,
    /// North/South indicator
    pub ns: NorthSouth,
    /// Longitude
    pub lon: Option<Degree>,
    /// East/West indicator
    pub ew: EastWest,
    /// Speed over ground
    pub spd: Option<Knot>,
    /// Course over ground
    pub cog: Option<Degree>,
    /// UTC date
    pub date: Option<Date>,
    /// Magnetic variation value
    pub mv: Option<Degree>,
    /// Magnetic variation direction
    pub mv_ew: Option<EastWest>,
    /// Positioning mode
    pub pos_mode: Fix,
    /// Navigational status
    pub nav_status: NavigationalStatus,
}

/// Meaning of the recommended-minimum-data message body.
#[verifier::opaque]
pub open spec fn spec_parse_rmc(s: Seq<char>) -> Result<(Seq<char>, RMCMessage), Error> {
    match spec_parse_time(s) {
        Err(e) => Err(e),
        Ok((s1, time)) => match spec_parse_status(s1) {
            Err(e) => Err(e),
            Ok((s2, status)) => match spec_parse_degree(s2) {
                Err(e) => Err(e),
                Ok((s3, lat)) => match spec_parse_north_south_indicator(s3) {
                    Err(e) => Err(e),
                    Ok((s4, ns)) => match spec_parse_degree(s4) {
                        Err(e) => Err(e),
                        Ok((s5, lon)) => match spec_parse_east_west_indicator(s5) {
                            Err(e) => Err(e),
                            Ok((s6, ew)) => match spec_parse_knot(s6) {
                                Err(e) => Err(e),
                                Ok((s7, spd)) => match spec_parse_raw_degree(s7) {
                                    Err(e) => Err(e),
                                    Ok((s8, cog)) => match spec_parse_date(s8) {
                                        Err(e) => Err(e),
                                        Ok((s9, date)) => match spec_parse_degree(s9) {
                                            Err(e) => Err(e),
                                            Ok((s10, mv)) => match spec_parse_maybe_east_west_indicator(s10) {
                                                Err(e) => Err(e),
                                                Ok((s11, mv_ew)) => match spec_parse_pos_mode(s11) {
                                                    Err(e) => Err(e),
                                                    Ok((s12, pos_mode)) => match spec_parse_navigational_status(s12) {
                                                        Err(e) => Err(e),
                                                        Ok((s13, nav_status)) => Ok(
                                                            (
                                                                s13,
                                                                RMCMessage {
                                                                    time,
                                                                    status,
                                                                    lat,
                                                                    ns,
                                                                    lon,
                                                                    ew,
                                                                    spd,
                                                                    cog,
                                                                    date,
                                                                    mv,
                                                                    mv_ew,
                                                                    pos_mode,
                                                                    nav_status,
                                                                },
                                                            ),
                                                        ),
                                                    },
                                                },
                                            },
                                        },
                                    },
                                },
                            },
                        },
                    },
                },
            },
        },
    }
}

/// Decodes the recommended-minimum-data message body.
pub fn parse_rmc(input: &str) -> (r: Result<(&str, RMCMessage), Error>)
    ensures
        step_eq(r, spec_parse_rmc(input@)),
{
    proof {
        reveal(spec_parse_rmc);
    }
    let (s1, time) = match parse_time(input) {
        Ok(p) => p,
        Err(e) => { return Err(e); },
    };
    let (s2, status) = match parse_status(s1) {
        Ok(p) => p,
        Err(e) => { return Err(e); },
    };
    let (s3, lat) = match parse_degree(s2) {
        Ok(p) => p,
        Err(e) => { return Err(e); },
    };
    let (s4, ns) = match parse_north_south_indicator(s3) {
        Ok(p) => p,
        Err(e) => { return Err(e); },
    };
    let (s5, lon) = match parse_degree(s4) {
        Ok(p) => p,
        Err(e) => { return Err(e); },
    };
    let (s6, ew) = match parse_east_west_indicator(s5) {
        Ok(p) => p,
        Err(e) => { return Err(e); },
    };
    let (s7, spd) = match parse_knot(s6) {
        Ok(p) => p,
        Err(e) => { return Err(e); },
    };
    let (s8, cog) = match parse_raw_degree(s7) {
        Ok(p) => p,
        Err(e) => { return Err(e); },
    };
    let (s9, date) = match parse_date(s8) {
        Ok(p) => p,
        Err(e) => { return Err(e); },
    };
    let (s10, mv) = match parse_degree(s9) {
        Ok(p) => p,
        Err(e) => { return Err(e); },
    };
    let (s11, mv_ew) = match parse_maybe_east_west_indicator(s10) {
        Ok(p) => p,
        Err(e) => { return Err(e); },
    };
    let (s12, pos_mode) = match parse_pos_mode(s11) {
        Ok(p) => p,
        Err(e) => { return Err(e); },
    };
    let (s13, nav_status) = match parse_navigational_status(s12) {
        Ok(p) => p,
        Err(e) => { return Err(e); },
    };
    Ok(
        (
            s13,
            RMCMessage {
                time,
                status,
                lat,
                ns,
                lon,
                ew,
                spd,
                cog,
                date,
                mv,
                mv_ew,
                pos_mode,
                nav_status,
            },
        ),
    )
}

} // verus!
