use vstd::prelude::*;
use vstd::string::StringExecFns;

use crate::error::Error;
use crate::fields::cardinality::{
    parse_east_west_indicator, parse_north_south_indicator, spec_parse_east_west_indicator,
    spec_parse_north_south_indicator, EastWest, NorthSouth,
};
use crate::fields::distance::{
    parse_meter, parse_minute, spec_parse_meter, spec_parse_minute, Meter, Minute,
};
use crate::parser_utils::{parse_string, spec_parse_string, step_view};

verus! {

/// Datum Reference
///
/// This message gives the difference between the current datum and the
/// reference datum.
#[derive(Debug, PartialEq, Eq)]
pub struct DTMMessage {
    /// Local datum code
    pub datum: String,
    /// A null field
    pub sub_datum: String,
    /// Offset in Latitude
    pub lat: Option<Minute>,
    /// North/South indicator
    pub ns: NorthSouth,
    /// Offset in Longitude
    pub lon: Option<Minute>,
    /// East/West indicator
    pub ew: EastWest,
    /// Offset in altitude
    pub alt: Option<Meter>,
    /// Reference datum code
    pub ref_datum: String,
}

/// The datum-reference record with its text fields as sequences.
pub struct DTMMessageView {
    pub datum: Seq<char>,
    pub sub_datum: Seq<char>,
    pub lat: Option<Minute>,
    pub ns: NorthSouth,
    pub lon: Option<Minute>,
    pub ew: EastWest,
    pub alt: Option<Meter>,
    pub ref_datum: Seq<char>,
}

impl View for DTMMessage {
    type V = DTMMessageView;

    open spec fn view(&self) -> DTMMessageView {
        DTMMessageView {
            datum: self.datum@,
            sub_datum: self.sub_datum@,
            lat: self.lat,
            ns: self.ns,
            lon: self.lon,
            ew: self.ew,
            alt: self.alt,
            ref_datum: self.ref_datum@,
        }
    }
}

/// Meaning of the datum-reference message body.
#[verifier::opaque]
pub open spec fn spec_parse_dtm(s: Seq<char>) -> Result<(Seq<char>, DTMMessageView), Error> {
    match spec_parse_string(s) {
        Err(e) => Err(e),
        Ok((s1, datum)) => match spec_parse_string(s1) {
            Err(e) => Err(e),
            Ok((s2, sub_datum)) => match spec_parse_minute(s2) {
                Err(e) => Err(e),
                Ok((s3, lat)) => match spec_parse_north_south_indicator(s3) {
                    Err(e) => Err(e),
                    Ok((s4, ns)) => match spec_parse_minute(s4) {
                        Err(e) => Err(e),
                        Ok((s5, lon)) => match spec_parse_east_west_indicator(s5) {
                            Err(e) => Err(e),
                            Ok((s6, ew)) => match spec_parse_meter(s6) {
                                Err(e) => Err(e),
                                Ok((s7, alt)) => match spec_parse_string(s7) {
                                    Err(e) => Err(e),
                                    Ok((s8, ref_datum)) => Ok(
                                        (
                                            s8,
                                            DTMMessageView {
                                                datum,
                                                sub_datum,
                                                lat,
                                                ns,
                                                lon,
                                                ew,
                                                alt,
                                                ref_datum,
                                            },
                                        ),
                                    ),
                                },
                            },
                        },
                    },
                },
            },
        },
    }
}

/// Decodes the datum-reference message body.
pub fn parse_dtm(input: &str) -> (r: Result<(&str, DTMMessage), Error>)
    ensures
        step_view(r, spec_parse_dtm(input@)),
{
    proof {
        reveal(spec_parse_dtm);
    }
    let (s1, datum) = match parse_string(input) {
        Ok(p) => p,
        Err(e) => { return Err(e); },
    };
    let (s2, sub_datum) = match parse_string(s1) {
        Ok(p) => p,
        Err(e) => { return Err(e); },
    };
    let (s3, lat) = match parse_minute(s2) {
        Ok(p) => p,
        Err(e) => { return Err(e); },
    };
    let (s4, ns) = match parse_north_south_indicator(s3) {
        Ok(p) => p,
        Err(e) => { return Err(e); },
    };
    let (s5, lon) = match parse_minute(s4) {
        Ok(p) => p,
        Err(e) => { return Err(e); },
    };
    let (s6, ew) = match parse_east_west_indicator(s5) {
        Ok(p) => p,
        Err(e) => { return Err(e); },
    };
    let (s7, alt) = match parse_meter(s6) {
        Ok(p) => p,
        Err(e) => { return Err(e); },
    };
    let (s8, ref_datum) = match parse_string(s7) {
        Ok(p) => p,
        Err(e) => { return Err(e); },
    };
    Ok(
        (
            s8,
            DTMMessage {
                datum: String::from_str(datum),
                sub_datum: String::from_str(sub_datum),
                lat,
                ns,
                lon,
                ew,
                alt,
                ref_datum: String::from_str(ref_datum),
            },
        ),
    )
}

} // verus!
