use vstd::prelude::*;

use crate::error::Error;
use crate::fields::parameter::{parse_pos_mode, spec_parse_pos_mode, Fix};
use crate::fields::speed::{
    parse_course_over_ground_unit, parse_speed_over_ground_unit,
    spec_parse_course_over_ground_unit, spec_parse_speed_over_ground_unit, CourseOverGroundUnit,
    SpeedOverGroundUnit,
};
use crate::number::Decimal;
use crate::parser_utils::{parse_float, spec_parse_float, step_eq};

verus! {

/// Course over ground and Ground speed
#[derive(Debug, Clone, Copy, PartialEq, Eq)]
pub struct VTGMessage {
    /// Course over ground (true)
    pub cogt: Option<Decimal>,
    /// Course over ground units
    pub cogt_unit: Option<CourseOverGroundUnit>,
    /// Course over ground (magnetic)
    pub cogm: Option<Decimal>,
    /// Course over ground units
    pub cogm_unit: Option<CourseOverGroundUnit>,
    /// Speed over ground
    pub sogn: Option<Decimal>,
    /// Speed over ground units
    pub sogn_unit: Option<SpeedOverGroundUnit>,
    /// Speed over ground
    pub sogk: Option<Decimal>,
    /// Speed over ground units
    pub sogk_unit: Option<SpeedOverGroundUnit>,
    /// Mode Indicator
    pub pos_mode: Fix,
}

/// Meaning of the course-and-speed-over-ground message body.
#[verifier::opaque]
pub open spec fn spec_parse_vtg(s: Seq<char>) -> Result<(Seq<char>, VTGMessage), Error> {
    match spec_parse_float(s) {
        Err(e) => Err(e),
        Ok((s1, cogt)) => match spec_parse_course_over_ground_unit(s1) {
            Err(e) => Err(e),
            Ok((s2, cogt_unit)) => match spec_parse_float(s2) {
                Err(e) => Err(e),
                Ok((s3, cogm)) => match spec_parse_course_over_ground_unit(s3) {
                    Err(e) => Err(e),
                    Ok((s4, cogm_unit)) => match spec_parse_float(s4) {
                        Err(e) => Err(e),
                        Ok((s5, sogn)) => match spec_parse_speed_over_ground_unit(s5) {
                            Err(e) => Err(e),
                            Ok((s6, sogn_unit)) => match spec_parse_float(s6) {
                                Err(e) => Err(e),
                                Ok((s7, sogk)) => match spec_parse_speed_over_ground_unit(s7) {
                                    Err(e) => Err(e),
                                    Ok((s8, sogk_unit)) => match spec_parse_pos_mode(s8) {
                                        Err(e) => Err(e),
                                        Ok((s9, pos_mode)) => Ok(
                                            (
                                                s9,
                                                VTGMessage {
                                                    cogt,
                                                    cogt_unit,
                                                    cogm,
                                                    cogm_unit,
                                                    sogn,
                                                    sogn_unit,
                                                    sogk,
                                                    sogk_unit,
                                                    pos_mode,
                                                },
                                            ),
                                        ),
                                    },
                                },
                            },
                        },
                    },
                },
            },
        },
    }
}

/// Decodes the course-and-speed-over-ground message body.
pub fn parse_vtg(input: &str) -> (r: Result<(&str, VTGMessage), Error>)
    ensures
        step_eq(r, spec_parse_vtg(input@)),
{
    proof {
        reveal(spec_parse_vtg);
    }
    let (s1, cogt) = match parse_float(input) {
        Ok(p) => p,
        Err(e) => { return Err(e); },
    };
    let (s2, cogt_unit) = match parse_course_over_ground_unit(s1) {
        Ok(p) => p,
        Err(e) => { return Err(e); },
    };
    let (s3, cogm) = match parse_float(s2) {
        Ok(p) => p,
        Err(e) => { return Err(e); },
    };
    let (s4, cogm_unit) = match parse_course_over_ground_unit(s3) {
        Ok(p) => p,
        Err(e) => { return Err(e); },
    };
    let (s5, sogn) = match parse_float(s4) {
        Ok(p) => p,
        Err(e) => { return Err(e); },
    };
    let (s6, sogn_unit) = match parse_speed_over_ground_unit(s5) {
        Ok(p) => p,
        Err(e) => { return Err(e); },
    };
    let (s7, sogk) = match parse_float(s6) {
        Ok(p) => p,
        Err(e) => { return Err(e); },
    };
    let (s8, sogk_unit) = match parse_speed_over_ground_unit(s7) {
        Ok(p) => p,
        Err(e) => { return Err(e); },
    };
    let (s9, pos_mode) = match parse_pos_mode(s8) {
        Ok(p) => p,
        Err(e) => { return Err(e); },
    };
    Ok(
        (
            s9,
            VTGMessage {
                cogt,
                cogt_unit,
                cogm,
                cogm_unit,
                sogn,
                sogn_unit,
                sogk,
                sogk_unit,
                pos_mode,
            },
        ),
    )
}

} // verus!
