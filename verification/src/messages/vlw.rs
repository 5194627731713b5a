use vstd::prelude::*;

use crate::error::Error;
use crate::fields::speed::{
    parse_water_distance_unit, spec_parse_water_distance_unit, WaterDistanceUnit,
};
use crate::number::Decimal;
use crate::parser_utils::{parse_float, spec_parse_float, step_eq};

verus! {

/// Dual ground/water distance
#[derive(Debug, Clone, Copy, PartialEq, Eq)]
pub struct VLWMessage {
    /// Total cumulative water distance
    pub twd: Option<Decimal>,
    /// Total cumulative water distance units
    pub twd_unit: Option<WaterDistanceUnit>,
    /// Water distance since reset
    pub wd: Option<Decimal>,
    /// Water distance since reset units
    pub wd_unit: Option<WaterDistanceUnit>,
    /// Total cumulative ground distance
    pub tgd: Option<Decimal>,
    /// Total cumulative ground distance units
    pub tgd_unit: Option<WaterDistanceUnit>,
    /// Ground distance since reset
    pub gd: Option<Decimal>,
    /// Ground distance since reset units
    pub gd_unit: Option<WaterDistanceUnit>,
}

/// Meaning of the ground/water-distance message body.
#[verifier::opaque]
pub open spec fn spec_parse_vlw(s: Seq<char>) -> Result<(Seq<char>, VLWMessage), Error> {
    match spec_parse_float(s) {
        Err(e) => Err(e),
        Ok((s1, twd)) => match spec_parse_water_distance_unit(s1) {
            Err(e) => Err(e),
            Ok((s2, twd_unit)) => match spec_parse_float(s2) {
                Err(e) => Err(e),
                Ok((s3, wd)) => match spec_parse_water_distance_unit(s3) {
                    Err(e) => Err(e),
                    Ok((s4, wd_unit)) => match spec_parse_float(s4) {
                        Err(e) => Err(e),
                        Ok((s5, tgd)) => match spec_parse_water_distance_unit(s5) {
                            Err(e) => Err(e),
                            Ok((s6, tgd_unit)) => match spec_parse_float(s6) {
                                Err(e) => Err(e),
                                Ok((s7, gd)) => match spec_parse_water_distance_unit(s7) {
                                    Err(e) => Err(e),
                                    Ok((s8, gd_unit)) => Ok(
                                        (
                                            s8,
                                            VLWMessage {
                                                twd,
                                                twd_unit,
                                                wd,
                                                wd_unit,
                                                tgd,
                                                tgd_unit,
                                                gd,
                                                gd_unit,
                                            },
                                        ),
                                    ),
                                },
                            },
                        },
                    },
                },
            },
        },
    }
}

/// Decodes the ground/water-distance message body.
pub fn parse_vlw(input: &str) -> (r: Result<(&str, VLWMessage), Error>)
    ensures
        step_eq(r, spec_parse_vlw(input@)),
{
    proof {
        reveal(spec_parse_vlw);
    }
    let (s1, twd) = match parse_float(input) {
        Ok(p) => p,
        Err(e) => { return Err(e); },
    };
    let (s2, twd_unit) = match parse_water_distance_unit(s1) {
        Ok(p) => p,
        Err(e) => { return Err(e); },
    };
    let (s3, wd) = match parse_float(s2) {
        Ok(p) => p,
        Err(e) => { return Err(e); },
    };
    let (s4, wd_unit) = match parse_water_distance_unit(s3) {
        Ok(p) => p,
        Err(e) => { return Err(e); },
    };
    let (s5, tgd) = match parse_float(s4) {
        Ok(p) => p,
        Err(e) => { return Err(e); },
    };
    let (s6, tgd_unit) = match parse_water_distance_unit(s5) {
        Ok(p) => p,
        Err(e) => { return Err(e); },
    };
    let (s7, gd) = match parse_float(s6) {
        Ok(p) => p,
        Err(e) => { return Err(e); },
    };
    let (s8, gd_unit) = match parse_water_distance_unit(s7) {
        Ok(p) => p,
        Err(e) => { return Err(e); },
    };
    Ok((s8, VLWMessage { twd, twd_unit, wd, wd_unit, tgd, tgd_unit, gd, gd_unit }))
}

} // verus!
