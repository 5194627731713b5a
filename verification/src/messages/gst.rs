use vstd::prelude::*;

use crate::error::Error;
use crate::fields::distance::{
    parse_degree, parse_meter, spec_parse_degree, spec_parse_meter, Degree, Meter,
};
use crate::fields::time::{parse_time, spec_parse_time, Time};
use crate::parser_utils::step_eq;

verus! {

/// GNSS pseudorange error statistics
#[derive(Debug, Clone, Copy, PartialEq, Eq)]
pub struct GSTMessage {
    /// UTC time of the position fix the statistics belong to
    pub time: Option<Time>,
    /// RMS value of the standard deviation of the ranges
    pub range_rms: Option<Meter>,
    /// Standard deviation of semi-major axis of error ellipse
    pub std_major: Option<Meter>,
    /// Standard deviation of semi-minor axis of error ellipse
    pub std_minor: Option<Meter>,
    /// Orientation of semi-major axis of error ellipse
    pub orient: Option<Degree>,
    /// Standard deviation of latitude error
    pub std_lat: Option<Meter>,
    /// Standard deviation of longitude error
    pub std_lon: Option<Meter>,
    /// Standard deviation of altitude error
    pub std_alt: Option<Meter>,
}

/// Meaning of the pseudorange-error-statistics message body.
#[verifier::opaque]
pub open spec fn spec_parse_gst(s: Seq<char>) -> Result<(Seq<char>, GSTMessage), Error> {
    match spec_parse_time(s) {
        Err(e) => Err(e),
        Ok((s1, time)) => match spec_parse_meter(s1) {
            Err(e) => Err(e),
            Ok((s2, range_rms)) => match spec_parse_meter(s2) {
                Err(e) => Err(e),
                Ok((s3, std_major)) => match spec_parse_meter(s3) {
                    Err(e) => Err(e),
                    Ok((s4, std_minor)) => match spec_parse_degree(s4) {
                        Err(e) => Err(e),
                        Ok((s5, orient)) => match spec_parse_meter(s5) {
                            Err(e) => Err(e),
                            Ok((s6, std_lat)) => match spec_parse_meter(s6) {
                                Err(e) => Err(e),
                                Ok((s7, std_lon)) => match spec_parse_meter(s7) {
                                    Err(e) => Err(e),
                                    Ok((s8, std_alt)) => Ok(
                                        (
                                            s8,
                                            GSTMessage {
                                                time,
                                                range_rms,
                                                std_major,
                                                std_minor,
                                                orient,
                                                std_lat,
                                                std_lon,
                                                std_alt,
                                            },
                                        ),
                                    ),
                                },
                            },
                        },
                    },
                },
            },
        },
    }
}

/// Decodes the pseudorange-error-statistics message body.
pub fn parse_gst(input: &str) -> (r: Result<(&str, GSTMessage), Error>)
    ensures
        step_eq(r, spec_parse_gst(input@)),
{
    proof {
        reveal(spec_parse_gst);
    }
    let (s1, time) = match parse_time(input) {
        Ok(p) => p,
        Err(e) => { return Err(e); },
    };
    let (s2, range_rms) = match parse_meter(s1) {
        Ok(p) => p,
        Err(e) => { return Err(e); },
    };
    let (s3, std_major) = match parse_meter(s2) {
        Ok(p) => p,
        Err(e) => { return Err(e); },
    };
    let (s4, std_minor) = match parse_meter(s3) {
        Ok(p) => p,
        Err(e) => { return Err(e); },
    };
    let (s5, orient) = match parse_degree(s4) {
        Ok(p) => p,
        Err(e) => { return Err(e); },
    };
    let (s6, std_lat) = match parse_meter(s5) {
        Ok(p) => p,
        Err(e) => { return Err(e); },
    };
    let (s7, std_lon) = match parse_meter(s6) {
        Ok(p) => p,
        Err(e) => { return Err(e); },
    };
    let (s8, std_alt) = match parse_meter(s7) {
        Ok(p) => p,
        Err(e) => { return Err(e); },
    };
    Ok(
        (
            s8,
            GSTMessage {
                time,
                range_rms,
                std_major,
                std_minor,
                orient,
                std_lat,
                std_lon,
                std_alt,
            },
        ),
    )
}

} // verus!
