use vstd::prelude::*;

use crate::error::Error;
use crate::fields::cardinality::{
    parse_east_west_indicator, parse_north_south_indicator, spec_parse_east_west_indicator,
    spec_parse_north_south_indicator, EastWest, NorthSouth,
};
use crate::fields::distance::{parse_degree, spec_parse_degree, Degree};
use crate::fields::parameter::{
    parse_pos_mode, parse_status, spec_parse_pos_mode, spec_parse_status, Fix, Status,
};
use crate::fields::time::{parse_time, spec_parse_time, Time};
use crate::parser_utils::step_eq;

verus! {

/// Latitude and longitude, with time of position fix and status
#[derive(Debug, Clone, Copy, PartialEq, Eq)]
pub struct GLLMessage {
    /// Latitude
    pub lat: Option<Degree>,
    /// North/South indicator
    pub ns: NorthSouth,
    /// Longitude
    pub lon: Option<Degree>,
    /// East/West indicator
    pub ew: EastWest,
    /// UTC time
    pub time: Option<Time>,
    /// Data validity status
    pub status: Status,
    /// Positioning mode
    pub pos_mode: Fix,
}

/// Meaning of the latitude/longitude message body.
#[verifier::opaque]
pub open spec fn spec_parse_gll(s: Seq<char>) -> Result<(Seq<char>, GLLMessage), Error> {
    match spec_parse_degree(s) {
        Err(e) => Err(e),
        Ok((s1, lat)) => match spec_parse_north_south_indicator(s1) {
            Err(e) => Err(e),
            Ok((s2, ns)) => match spec_parse_degree(s2) {
                Err(e) => Err(e),
                Ok((s3, lon)) => match spec_parse_east_west_indicator(s3) {
                    Err(e) => Err(e),
                    Ok((s4, ew)) => match spec_parse_time(s4) {
                        Err(e) => Err(e),
                        Ok((s5, time)) => match spec_parse_status(s5) {
                            Err(e) => Err(e),
                            Ok((s6, status)) => match spec_parse_pos_mode(s6) {
                                Err(e) => Err(e),
                                Ok((s7, pos_mode)) => Ok(
                                    (s7, GLLMessage { lat, ns, lon, ew, time, status, pos_mode }),
                                ),
                            },
                        },
                    },
                },
            },
        },
    }
}

/// Decodes the latitude/longitude message body.
pub fn parse_gll(input: &str) -> (r: Result<(&str, GLLMessage), Error>)
    ensures
        step_eq(r, spec_parse_gll(input@)),
{
    proof {
        reveal(spec_parse_gll);
    }
    let (s1, lat) = match parse_degree(input) {
        Ok(p) => p,
        Err(e) => { return Err(e); },
    };
    let (s2, ns) = match parse_north_south_indicator(s1) {
        Ok(p) => p,
        Err(e) => { return Err(e); },
    };
    let (s3, lon) = match parse_degree(s2) {
        Ok(p) => p,
        Err(e) => { return Err(e); },
    };
    let (s4, ew) = match parse_east_west_indicator(s3) {
        Ok(p) => p,
        Err(e) => { return Err(e); },
    };
    let (s5, time) = match parse_time(s4) {
        Ok(p) => p,
        Err(e) => { return Err(e); },
    };
    let (s6, status) = match parse_status(s5) {
        Ok(p) => p,
        Err(e) => { return Err(e); },
    };
    let (s7, pos_mode) = match parse_pos_mode(s6) {
        Ok(p) => p,
        Err(e) => { return Err(e); },
    };
    Ok((s7, GLLMessage { lat, ns, lon, ew, time, status, pos_mode }))
}

} // verus!
