use vstd::prelude::*;

use crate::error::Error;
use crate::fields::time::{parse_time, spec_parse_time, Time};
use crate::parser_utils::{parse_u16, parse_u8, spec_parse_u16, spec_parse_u8, step_eq};

verus! {

/// Time and Date
#[derive(Debug, Clone, Copy, PartialEq, Eq)]
pub struct ZDAMessage {
    /// UTC Time
    pub time: Option<Time>,
    /// UTC day
    pub day: Option<u8>,
    /// UTC month
    pub month: Option<u8>,
    /// UTC year
    pub year: Option<u16>,
    /// Local time zone hours
    pub ltzh: Option<u8>,
    /// Local time zone minutes
    pub ltzn: Option<u8>,
}

/// Meaning of the time-and-date message body.
#[verifier::opaque]
pub open spec fn spec_parse_zda(s: Seq<char>) -> Result<(Seq<char>, ZDAMessage), Error> {
    match spec_parse_time(s) {
        Err(e) => Err(e),
        Ok((s1, time)) => match spec_parse_u8(s1) {
            Err(e) => Err(e),
            Ok((s2, day)) => match spec_parse_u8(s2) {
                Err(e) => Err(e),
                Ok((s3, month)) => match spec_parse_u16(s3) {
                    Err(e) => Err(e),
                    Ok((s4, year)) => match spec_parse_u8(s4) {
                        Err(e) => Err(e),
                        Ok((s5, ltzh)) => match spec_parse_u8(s5) {
                            Err(e) => Err(e),
                            Ok((s6, ltzn)) => Ok(
                                (s6, ZDAMessage { time, day, month, year, ltzh, ltzn }),
                            ),
                        },
                    },
                },
            },
        },
    }
}

/// Decodes the time-and-date message body.
pub fn parse_zda(input: &str) -> (r: Result<(&str, ZDAMessage), Error>)
    ensures
        step_eq(r, spec_parse_zda(input@)),
{
    proof {
        reveal(spec_parse_zda);
    }
    let (s1, time) = match parse_time(input) {
        Ok(p) => p,
        Err(e) => { return Err(e); },
    };
    let (s2, day) = match parse_u8(s1) {
        Ok(p) => p,
        Err(e) => { return Err(e); },
    };
    let (s3, month) = match parse_u8(s2) {
        Ok(p) => p,
        Err(e) => { return Err(e); },
    };
    let (s4, year) = match parse_u16(s3) {
        Ok(p) => p,
        Err(e) => { return Err(e); },
    };
    let (s5, ltzh) = match parse_u8(s4) {
        Ok(p) => p,
        Err(e) => { return Err(e); },
    };
    let (s6, ltzn) = match parse_u8(s5) {
        Ok(p) => p,
        Err(e) => { return Err(e); },
    };
    Ok((s6, ZDAMessage { time, day, month, year, ltzh, ltzn }))
}

} // verus!
