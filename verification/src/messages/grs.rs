use vstd::prelude::*;

use crate::error::Error;
use crate::fields::distance::{parse_residuals, spec_parse_residuals, Meter};
use crate::fields::identity::{parse_signal, parse_system};
use crate::fields::parameter::{
    parse_computation_method, spec_parse_computation_method, ComputationMethod,
};
use crate::fields::time::{parse_time, spec_parse_time, Time};
use crate::parser_utils::{spec_parse_u8, step_view};

verus! {

/// GNSS Range Residuals
#[derive(Debug, PartialEq, Eq)]
pub struct GRSMessage {
    /// UTC time of the fix the residuals belong to
    pub time: Option<Time>,
    /// How the residuals were computed
    pub mode: Option<ComputationMethod>,
    /// The twelve residual slots, trailing ones empty
    pub residuals: Vec<Option<Meter>>,
    /// GNSS System ID
    pub system_id: Option<u8>,
    /// GNSS Signal ID
    pub signal_id: Option<u8>,
}

/// The range-residuals record with its slots as a sequence.
pub struct GRSMessageView {
    pub time: Option<Time>,
    pub mode: Option<ComputationMethod>,
    pub residuals: Seq<Option<Meter>>,
    pub system_id: Option<u8>,
    pub signal_id: Option<u8>,
}

impl View for GRSMessage {
    type V = GRSMessageView;

    open spec fn view(&self) -> GRSMessageView {
        GRSMessageView {
            time: self.time,
            mode: self.mode,
            residuals: self.residuals@,
            system_id: self.system_id,
            signal_id: self.signal_id,
        }
    }
}

/// Meaning of the range-residuals message body.
#[verifier::opaque]
pub open spec fn spec_parse_grs(s: Seq<char>) -> Result<(Seq<char>, GRSMessageView), Error> {
    match spec_parse_time(s) {
        Err(e) => Err(e),
        Ok((s1, time)) => match spec_parse_computation_method(s1) {
            Err(e) => Err(e),
            Ok((s2, mode)) => match spec_parse_residuals(s2) {
                Err(e) => Err(e),
                Ok((s3, residuals)) => match spec_parse_u8(s3) {
                    Err(e) => Err(e),
                    Ok((s4, system_id)) => match spec_parse_u8(s4) {
                        Err(e) => Err(e),
                        Ok((s5, signal_id)) => Ok(
                            (s5, GRSMessageView { time, mode, residuals, system_id, signal_id }),
                        ),
                    },
                },
            },
        },
    }
}

/// Decodes the range-residuals message body.
pub fn parse_grs(input: &str) -> (r: Result<(&str, GRSMessage), Error>)
    ensures
        step_view(r, spec_parse_grs(input@)),
{
    proof {
        reveal(spec_parse_grs);
    }
    let (s1, time) = match parse_time(input) {
        Ok(p) => p,
        Err(e) => { return Err(e); },
    };
    let (s2, mode) = match parse_computation_method(s1) {
        Ok(p) => p,
        Err(e) => { return Err(e); },
    };
    let (s3, residuals) = match parse_residuals(s2) {
        Ok(p) => p,
        Err(e) => { return Err(e); },
    };
    let (s4, system_id) = match parse_system(s3) {
        Ok(p) => p,
        Err(e) => { return Err(e); },
    };
    let (s5, signal_id) = match parse_signal(s4) {
        Ok(p) => p,
        Err(e) => { return Err(e); },
    };
    Ok((s5, GRSMessage { time, mode, residuals, system_id, signal_id }))
}

} // verus!
