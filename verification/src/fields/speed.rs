use vstd::prelude::*;

use crate::error::Error;
use crate::number::Decimal;
use crate::parser_utils::{
    maybe_code_char, parse_float, spec_maybe_code_char, spec_parse_float, step_eq,
};

verus! {

/// Nautical mile per hour
#[derive(Debug, Clone, Copy, PartialEq, Eq)]
pub struct Knot(pub Decimal);

/// The unit used to display the distance over water
#[derive(Debug, Clone, Copy, PartialEq, Eq)]
pub enum WaterDistanceUnit {
    NauticalMile,
}

/// The unit used to display the Course over Ground
#[derive(Debug, Clone, Copy, PartialEq, Eq)]
pub enum CourseOverGroundUnit {
    /// Degrees using the true North
    DegreesTrue,
    /// Degrees using the magnetic North
    DegreesMagnetic,
}

/// The unit used to display the speed over Ground
#[derive(Debug, Clone, Copy, PartialEq, Eq)]
pub enum SpeedOverGroundUnit {
    Knots,
    KilometersPerHour,
}

/// Meaning of an optional course-over-ground unit field.
pub open spec fn spec_parse_course_over_ground_unit(s: Seq<char>) -> Result<
    (Seq<char>, Option<CourseOverGroundUnit>),
    Error,
> {
    match spec_maybe_code_char(s) {
        Err(e) => Err(e),
        Ok((rest, None)) => Ok((rest, None)),
        Ok((rest, Some(c))) => if c == 'T' {
            Ok((rest, Some(CourseOverGroundUnit::DegreesTrue)))
        } else if c == 'M' {
            Ok((rest, Some(CourseOverGroundUnit::DegreesMagnetic)))
        } else {
            Err(Error::InvalidEnumField)
        },
    }
}

/// Reads an optional course-over-ground unit field (`T` or `M`).
pub fn parse_course_over_ground_unit(input: &str) -> (r: Result<
    (&str, Option<CourseOverGroundUnit>),
    Error,
>)
    ensures
        step_eq(r, spec_parse_course_over_ground_unit(input@)),
{
    let (rest, c) = match maybe_code_char(input) {
        Ok(p) => p,
        Err(e) => { return Err(e); },
    };
    match c {
        None => Ok((rest, None)),
        Some(c) => if c == 'T' {
            Ok((rest, Some(CourseOverGroundUnit::DegreesTrue)))
        } else if c == 'M' {
            Ok((rest, Some(CourseOverGroundUnit::DegreesMagnetic)))
        } else {
            Err(Error::InvalidEnumField)
        },
    }
}

/// Meaning of an optional speed-over-ground unit field.
pub open spec fn spec_parse_speed_over_ground_unit(s: Seq<char>) -> Result<
    (Seq<char>, Option<SpeedOverGroundUnit>),
    Error,
> {
    match spec_maybe_code_char(s) {
        Err(e) => Err(e),
        Ok((rest, None)) => Ok((rest, None)),
        Ok((rest, Some(c))) => if c == 'N' {
            Ok((rest, Some(SpeedOverGroundUnit::Knots)))
        } else if c == 'K' {
            Ok((rest, Some(SpeedOverGroundUnit::KilometersPerHour)))
        } else {
            Err(Error::InvalidEnumField)
        },
    }
}

/// Reads an optional speed-over-ground unit field (`N` or `K`).
pub fn parse_speed_over_ground_unit(input: &str) -> (r: Result<
    (&str, Option<SpeedOverGroundUnit>),
    Error,
>)
    ensures
        step_eq(r, spec_parse_speed_over_ground_unit(input@)),
{
    let (rest, c) = match maybe_code_char(input) {
        Ok(p) => p,
        Err(e) => { return Err(e); },
    };
    match c {
        None => Ok((rest, None)),
        Some(c) => if c == 'N' {
            Ok((rest, Some(SpeedOverGroundUnit::Knots)))
        } else if c == 'K' {
            Ok((rest, Some(SpeedOverGroundUnit::KilometersPerHour)))
        } else {
            Err(Error::InvalidEnumField)
        },
    }
}

/// Meaning of an optional water-distance unit field.
pub open spec fn spec_parse_water_distance_unit(s: Seq<char>) -> Result<
    (Seq<char>, Option<WaterDistanceUnit>),
    Error,
> {
    match spec_maybe_code_char(s) {
        Err(e) => Err(e),
        Ok((rest, None)) => Ok((rest, None)),
        Ok((rest, Some(c))) => if c == 'N' {
            Ok((rest, Some(WaterDistanceUnit::NauticalMile)))
        } else {
            Err(Error::InvalidEnumField)
        },
    }
}

/// Reads an optional water-distance unit field (`N`).
pub fn parse_water_distance_unit(input: &str) -> (r: Result<
    (&str, Option<WaterDistanceUnit>),
    Error,
>)
    ensures
        step_eq(r, spec_parse_water_distance_unit(input@)),
{
    let (rest, c) = match maybe_code_char(input) {
        Ok(p) => p,
        Err(e) => { return Err(e); },
    };
    match c {
        None => Ok((rest, None)),
        Some(c) => if c == 'N' {
            Ok((rest, Some(WaterDistanceUnit::NauticalMile)))
        } else {
            Err(Error::InvalidEnumField)
        },
    }
}

/// Meaning of an optional speed field, in knots.
pub open spec fn spec_parse_knot(s: Seq<char>) -> Result<(Seq<char>, Option<Knot>), Error> {
    match spec_parse_float(s) {
        Ok((rest, Some(d))) => Ok((rest, Some(Knot(d)))),
        Ok((rest, None)) => Ok((rest, None)),
        Err(e) => Err(e),
    }
}

/// Reads an optional speed field, in knots.
pub fn parse_knot(input: &str) -> (r: Result<(&str, Option<Knot>), Error>)
    ensures
        step_eq(r, spec_parse_knot(input@)),
{
    match parse_float(input) {
        Ok((rest, Some(d))) => Ok((rest, Some(Knot(d)))),
        Ok((rest, None)) => Ok((rest, None)),
        Err(e) => Err(e),
    }
}

} // verus!
