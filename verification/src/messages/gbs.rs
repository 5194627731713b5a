use vstd::prelude::*;

use crate::error::Error;
use crate::fields::distance::{parse_meter, spec_parse_meter, Meter};
use crate::fields::time::{parse_time, spec_parse_time, Time};
use crate::number::Decimal;
use crate::parser_utils::{parse_float, parse_u8, spec_parse_float, spec_parse_u8, step_eq};

verus! {

/// GNSS Satellite Fault Detection
#[derive(Debug, Clone, Copy, PartialEq, Eq)]
pub struct GBSMessage {
    /// UTC time to which this fault-detection sentence belongs
    pub time: Option<Time>,
    /// Expected error in latitude
    pub lat_err: Option<Meter>,
    /// Expected error in longitude
    pub lon_err: Option<Meter>,
    /// Expected error in altitude
    pub alt_err: Option<Meter>,
    /// Satellite ID of most likely failed satellite
    pub sat_prn: Option<u8>,
    /// Probability of missed detection
    pub prob: Option<u8>,
    /// Estimated bias of most likely failed satellite
    pub res: Option<Decimal>,
    /// Standard deviation of estimated bias
    pub std_dev: Option<Decimal>,
    /// GNSS System ID
    pub system_id: Option<u8>,
    /// GNSS Signal ID
    pub signal_id: Option<u8>,
}

/// Meaning of the satellite-fault-detection message body.
#[verifier::opaque]
pub open spec fn spec_parse_gbs(s: Seq<char>) -> Result<(Seq<char>, GBSMessage), Error> {
    match spec_parse_time(s) {
        Err(e) => Err(e),
        Ok((s1, time)) => match spec_parse_meter(s1) {
            Err(e) => Err(e),
            Ok((s2, lat_err)) => match spec_parse_meter(s2) {
                Err(e) => Err(e),
                Ok((s3, lon_err)) => match spec_parse_meter(s3) {
                    Err(e) => Err(e),
                    Ok((s4, alt_err)) => match spec_parse_u8(s4) {
                        Err(e) => Err(e),
                        Ok((s5, sat_prn)) => match spec_parse_u8(s5) {
                            Err(e) => Err(e),
                            Ok((s6, prob)) => match spec_parse_float(s6) {
                                Err(e) => Err(e),
                                Ok((s7, res)) => match spec_parse_float(s7) {
                                    Err(e) => Err(e),
                                    Ok((s8, std_dev)) => match spec_parse_u8(s8) {
                                        Err(e) => Err(e),
                                        Ok((s9, system_id)) => match spec_parse_u8(s9) {
                                            Err(e) => Err(e),
                                            Ok((s10, signal_id)) => Ok(
                                                (
                                                    s10,
                                                    GBSMessage {
                                                        time,
                                                        lat_err,
                                                        lon_err,
                                                        alt_err,
                                                        sat_prn,
                                                        prob,
                                                        res,
                                                        std_dev,
                                                        system_id,
                                                        signal_id,
                                                    },
                                                ),
                                            ),
                                        },
                                    },
                                },
                            },
                        },
                    },
                },
            },
        },
    }
}

/// Decodes the satellite-fault-detection message body.
pub fn parse_gbs(input: &str) -> (r: Result<(&str, GBSMessage), Error>)
    ensures
        step_eq(r, spec_parse_gbs(input@)),
{
    proof {
        reveal(spec_parse_gbs);
    }
    let (s1, time) = match parse_time(input) {
        Ok(p) => p,
        Err(e) => { return Err(e); },
    };
    let (s2, lat_err) = match parse_meter(s1) {
        Ok(p) => p,
        Err(e) => { return Err(e); },
    };
    let (s3, lon_err) = match parse_meter(s2) {
        Ok(p) => p,
        Err(e) => { return Err(e); },
    };
    let (s4, alt_err) = match parse_meter(s3) {
        Ok(p) => p,
        Err(e) => { return Err(e); },
    };
    let (s5, sat_prn) = match parse_u8(s4) {
        Ok(p) => p,
        Err(e) => { return Err(e); },
    };
    let (s6, prob) = match parse_u8(s5) {
        Ok(p) => p,
        Err(e) => { return Err(e); },
    };
    let (s7, res) = match parse_float(s6) {
        Ok(p) => p,
        Err(e) => { return Err(e); },
    };
    let (s8, std_dev) = match parse_float(s7) {
        Ok(p) => p,
        Err(e) => { return Err(e); },
    };
    let (s9, system_id) = match parse_u8(s8) {
        Ok(p) => p,
        Err(e) => { return Err(e); },
    };
    let (s10, signal_id) = match parse_u8(s9) {
        Ok(p) => p,
        Err(e) => { return Err(e); },
    };
    Ok(
        (
            s10,
            GBSMessage {
                time,
                lat_err,
                lon_err,
                alt_err,
                sat_prn,
                prob,
                res,
                std_dev,
                system_id,
                signal_id,
            },
        ),
    )
}

} // verus!
