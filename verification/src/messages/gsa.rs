use vstd::prelude::*;

use crate::error::Error;
use crate::fields::distance::{parse_last_meter, parse_meter, spec_parse_meter, Meter};
use crate::fields::identity::{parse_satellite_ids, spec_parse_satellite_ids};
use crate::fields::parameter::{
    parse_navigation_mode, parse_operation_mode, spec_parse_navigation_mode,
    spec_parse_operation_mode, NavigationMode, OperationMode,
};
use crate::parser_utils::step_view;

verus! {

/// GNSS DOP and Active Satellites
#[derive(Debug, PartialEq, Eq)]
pub struct GSAMessage {
    /// Operation mode
    pub op_mode: OperationMode,
    /// Navigation mode
    pub nav_mode: NavigationMode,
    /// The twelve satellite-identifier slots, trailing ones empty
    pub sattelite_ids: Vec<Option<u8>>,
    /// Position Dilution of Precision
    pub pdop: Option<Meter>,
    /// Horizontal Dilution of Precision
    pub hdop: Option<Meter>,
    /// Vertical Dilution of Precision
    pub vdop: Option<Meter>,
}

/// The active-satellites record with its slots as a sequence.
pub struct GSAMessageView {
    pub op_mode: OperationMode,
    pub nav_mode: NavigationMode,
    pub sattelite_ids: Seq<Option<u8>>,
    pub pdop: Option<Meter>,
    pub hdop: Option<Meter>,
    pub vdop: Option<Meter>,
}

impl View for GSAMessage {
    type V = GSAMessageView;

    open spec fn view(&self) -> GSAMessageView {
        GSAMessageView {
            op_mode: self.op_mode,
            nav_mode: self.nav_mode,
            sattelite_ids: self.sattelite_ids@,
            pdop: self.pdop,
            hdop: self.hdop,
            vdop: self.vdop,
        }
    }
}

/// Meaning of the active-satellites message body.
#[verifier::opaque]
pub open spec fn spec_parse_gsa(s: Seq<char>) -> Result<(Seq<char>, GSAMessageView), Error> {
    match spec_parse_operation_mode(s) {
        Err(e) => Err(e),
        Ok((s1, op_mode)) => match spec_parse_navigation_mode(s1) {
            Err(e) => Err(e),
            Ok((s2, nav_mode)) => match spec_parse_satellite_ids(s2) {
                Err(e) => Err(e),
                Ok((s3, sattelite_ids)) => match spec_parse_meter(s3) {
                    Err(e) => Err(e),
                    Ok((s4, pdop)) => match spec_parse_meter(s4) {
                        Err(e) => Err(e),
                        Ok((s5, hdop)) => match spec_parse_meter(s5) {
                            Err(e) => Err(e),
                            Ok((s6, vdop)) => Ok(
                                (
                                    s6,
                                    GSAMessageView {
                                        op_mode,
                                        nav_mode,
                                        sattelite_ids,
                                        pdop,
                                        hdop,
                                        vdop,
                                    },
                                ),
                            ),
                        },
                    },
                },
            },
        },
    }
}

/// Decodes the active-satellites message body.
pub fn parse_gsa(input: &str) -> (r: Result<(&str, GSAMessage), Error>)
    ensures
        step_view(r, spec_parse_gsa(input@)),
{
    proof {
        reveal(spec_parse_gsa);
    }
    let (s1, op_mode) = match parse_operation_mode(input) {
        Ok(p) => p,
        Err(e) => { return Err(e); },
    };
    let (s2, nav_mode) = match parse_navigation_mode(s1) {
        Ok(p) => p,
        Err(e) => { return Err(e); },
    };
    let (s3, sattelite_ids) = match parse_satellite_ids(s2) {
        Ok(p) => p,
        Err(e) => { return Err(e); },
    };
    let (s4, pdop) = match parse_meter(s3) {
        Ok(p) => p,
        Err(e) => { return Err(e); },
    };
    let (s5, hdop) = match parse_meter(s4) {
        Ok(p) => p,
        Err(e) => { return Err(e); },
    };
    let (s6, vdop) = match parse_last_meter(s5) {
        Ok(p) => p,
        Err(e) => { return Err(e); },
    };
    Ok((s6, GSAMessage { op_mode, nav_mode, sattelite_ids, pdop, hdop, vdop }))
}

} // verus!
