use vstd::prelude::*;

use crate::error::Error;
use crate::parser_utils::{
    code_char, maybe_code_char, spec_code_char, spec_maybe_code_char, step_eq,
};

verus! {

/// Latitudes are provided unsigned.
/// NorthSouth defines the direction for the latitude.
#[derive(Debug, Clone, Copy, PartialEq, Eq)]
pub enum NorthSouth {
    North,
    South,
}

/// Longitudes are provided unsigned.
/// EastWest defines the direction for the longitude.
#[derive(Debug, Clone, Copy, PartialEq, Eq)]
pub enum EastWest {
    East,
    West,
}

/// Meaning of a mandatory latitude direction field.
pub open spec fn spec_parse_north_south_indicator(s: Seq<char>) -> Result<
    (Seq<char>, NorthSouth),
    Error,
> {
    match spec_code_char(s) {
        Err(e) => Err(e),
        Ok((rest, c)) => if c == 'N' {
            Ok((rest, NorthSouth::North))
        } else if c == 'S' {
            Ok((rest, NorthSouth::South))
        } else {
            Err(Error::InvalidEnumField)
        },
    }
}

/// Reads a mandatory latitude direction field (`N` or `S`).
pub fn parse_north_south_indicator(input: &str) -> (r: Result<(&str, NorthSouth), Error>)
    ensures
        step_eq(r, spec_parse_north_south_indicator(input@)),
{
    let (rest, c) = match code_char(input) {
        Ok(p) => p,
        Err(e) => { return Err(e); },
    };
    if c == 'N' {
        Ok((rest, NorthSouth::North))
    } else if c == 'S' {
        Ok((rest, NorthSouth::South))
    } else {
        Err(Error::InvalidEnumField)
    }
}

/// Meaning of an optional latitude direction field.
pub open spec fn spec_parse_maybe_north_south_indicator(s: Seq<char>) -> Result<
    (Seq<char>, Option<NorthSouth>),
    Error,
> {
    match spec_maybe_code_char(s) {
        Err(e) => Err(e),
        Ok((rest, None)) => Ok((rest, None)),
        Ok((rest, Some(c))) => if c == 'N' {
            Ok((rest, Some(NorthSouth::North)))
        } else if c == 'S' {
            Ok((rest, Some(NorthSouth::South)))
        } else {
            Err(Error::InvalidEnumField)
        },
    }
}

/// Reads an optional latitude direction field (`N`, `S`, or empty).
pub fn parse_maybe_north_south_indicator(input: &str) -> (r: Result<
    (&str, Option<NorthSouth>),
    Error,
>)
    ensures
        step_eq(r, spec_parse_maybe_north_south_indicator(input@)),
{
    let (rest, c) = match maybe_code_char(input) {
        Ok(p) => p,
        Err(e) => { return Err(e); },
    };
    match c {
        None => Ok((rest, None)),
        Some(c) => if c == 'N' {
            Ok((rest, Some(NorthSouth::North)))
        } else if c == 'S' {
            Ok((rest, Some(NorthSouth::South)))
        } else {
            Err(Error::InvalidEnumField)
        },
    }
}

/// Meaning of a mandatory longitude direction field.
pub open spec fn spec_parse_east_west_indicator(s: Seq<char>) -> Result<
    (Seq<char>, EastWest),
    Error,
> {
    match spec_code_char(s) {
        Err(e) => Err(e),
        Ok((rest, c)) => if c == 'E' {
            Ok((rest, EastWest::East))
        } else if c == 'W' {
            Ok((rest, EastWest::West))
        } else {
            Err(Error::InvalidEnumField)
        },
    }
}

/// Reads a mandatory longitude direction field (`E` or `W`).
pub fn parse_east_west_indicator(input: &str) -> (r: Result<(&str, EastWest), Error>)
    ensures
        step_eq(r, spec_parse_east_west_indicator(input@)),
{
    let (rest, c) = match code_char(input) {
        Ok(p) => p,
        Err(e) => { return Err(e); },
    };
    if c == 'E' {
        Ok((rest, EastWest::East))
    } else if c == 'W' {
        Ok((rest, EastWest::West))
    } else {
        Err(Error::InvalidEnumField)
    }
}

/// Meaning of an optional longitude direction field.
pub open spec fn spec_parse_maybe_east_west_indicator(s: Seq<char>) -> Result<
    (Seq<char>, Option<EastWest>),
    Error,
> {
    match spec_maybe_code_char(s) {
        Err(e) => Err(e),
        Ok((rest, None)) => Ok((rest, None)),
        Ok((rest, Some(c))) => if c == 'E' {
            Ok((rest, Some(EastWest::East)))
        } else if c == 'W' {
            Ok((rest, Some(EastWest::West)))
        } else {
            Err(Error::InvalidEnumField)
        },
    }
}

/// Reads an optional longitude direction field (`E`, `W`, or empty).
pub fn parse_maybe_east_west_indicator(input: &str) -> (r: Result<(&str, Option<EastWest>), Error>)
    ensures
        step_eq(r, spec_parse_maybe_east_west_indicator(input@)),
{
    let (rest, c) = match maybe_code_char(input) {
        Ok(p) => p,
        Err(e) => { return Err(e); },
    };
    match c {
        None => Ok((rest, None)),
        Some(c) => if c == 'E' {
            Ok((rest, Some(EastWest::East)))
        } else if c == 'W' {
            Ok((rest, Some(EastWest::West)))
        } else {
            Err(Error::InvalidEnumField)
        },
    }
}

} // verus!
