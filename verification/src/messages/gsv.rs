use vstd::prelude::*;

use crate::error::Error;
use crate::fields::identity::{
    parse_satellites_in_view, spec_parse_satellites_in_view, SatelliteInView,
};
use crate::parser_utils::{parse_u8, spec_parse_u8, step_view};

verus! {

/// GNSS Satellites in View
#[derive(Debug, PartialEq, Eq)]
pub struct GSVMessage {
    /// Number of messages, total number of GSV messages being output
    pub total_msgs: u8,
    /// Number of this message
    pub msg_num: u8,
    /// Number of known satellites in view regarding both the talker ID
    /// and the signal ID
    pub satellite_num: u8,
    /// Satellites in view
    pub satellites: Vec<SatelliteInView>,
}

/// The satellites-in-view record with its list as a sequence.
pub struct GSVMessageView {
    pub total_msgs: u8,
    pub msg_num: u8,
    pub satellite_num: u8,
    pub satellites: Seq<SatelliteInView>,
}

impl View for GSVMessage {
    type V = GSVMessageView;

    open spec fn view(&self) -> GSVMessageView {
        GSVMessageView {
            total_msgs: self.total_msgs,
            msg_num: self.msg_num,
            satellite_num: self.satellite_num,
            satellites: self.satellites@,
        }
    }
}

/// Meaning of the satellites-in-view message body: three sequencing
/// counters, all mandatory, then the satellite entries.
#[verifier::opaque]
pub open spec fn spec_parse_gsv(s: Seq<char>) -> Result<(Seq<char>, GSVMessageView), Error> {
    match spec_parse_u8(s) {
        Err(e) => Err(e),
        Ok((s1, total)) => match spec_parse_u8(s1) {
            Err(e) => Err(e),
            Ok((s2, num)) => match spec_parse_u8(s2) {
                Err(e) => Err(e),
                Ok((s3, count)) => match spec_parse_satellites_in_view(s3) {
                    Err(e) => Err(e),
                    Ok((s4, satellites)) => match (total, num, count) {
                        (Some(total_msgs), Some(msg_num), Some(satellite_num)) => Ok(
                            (
                                s4,
                                GSVMessageView { total_msgs, msg_num, satellite_num, satellites },
                            ),
                        ),
                        _ => Err(Error::MissingField),
                    },
                },
            },
        },
    }
}

/// Decodes the satellites-in-view message body.
pub fn parse_gsv(input: &str) -> (r: Result<(&str, GSVMessage), Error>)
    ensures
        step_view(r, spec_parse_gsv(input@)),
{
    proof {
        reveal(spec_parse_gsv);
    }
    let (s1, total) = match parse_u8(input) {
        Ok(p) => p,
        Err(e) => { return Err(e); },
    };
    let (s2, num) = match parse_u8(s1) {
        Ok(p) => p,
        Err(e) => { return Err(e); },
    };
    let (s3, count) = match parse_u8(s2) {
        Ok(p) => p,
        Err(e) => { return Err(e); },
    };
    let (s4, satellites) = match parse_satellites_in_view(s3) {
        Ok(p) => p,
        Err(e) => { return Err(e); },
    };
    match (total, num, count) {
        (Some(total_msgs), Some(msg_num), Some(satellite_num)) => Ok(
            (s4, GSVMessage { total_msgs, msg_num, satellite_num, satellites }),
        ),
        _ => Err(Error::MissingField),
    }
}

} // verus!
