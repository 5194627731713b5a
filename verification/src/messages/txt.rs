use vstd::prelude::*;
use vstd::string::StringExecFns;

use crate::error::Error;
use crate::fields::parameter::{parse_message_type, spec_parse_message_type, MessageLevel};
use crate::parser_utils::{parse_string, parse_u8, spec_parse_string, spec_parse_u8, step_view};

verus! {

/// Text Transmission
#[derive(Debug, PartialEq, Eq)]
pub struct TXTMessage {
    /// Total number of messages in this transmission
    pub num_msg: Option<u8>,
    /// Message number in this transmission
    pub msg_num: Option<u8>,
    /// Text identifier
    pub msg_type: MessageLevel,
    /// The payload
    pub text: String,
}

/// The text-transmission record with its payload as a sequence.
pub struct TXTMessageView {
    pub num_msg: Option<u8>,
    pub msg_num: Option<u8>,
    pub msg_type: MessageLevel,
    pub text: Seq<char>,
}

impl View for TXTMessage {
    type V = TXTMessageView;

    open spec fn view(&self) -> TXTMessageView {
        TXTMessageView {
            num_msg: self.num_msg,
            msg_num: self.msg_num,
            msg_type: self.msg_type,
            text: self.text@,
        }
    }
}

/// Meaning of the text-transmission message body.
#[verifier::opaque]
pub open spec fn spec_parse_txt(s: Seq<char>) -> Result<(Seq<char>, TXTMessageView), Error> {
    match spec_parse_u8(s) {
        Err(e) => Err(e),
        Ok((s1, num_msg)) => match spec_parse_u8(s1) {
            Err(e) => Err(e),
            Ok((s2, msg_num)) => match spec_parse_message_type(s2) {
                Err(e) => Err(e),
                Ok((s3, msg_type)) => match spec_parse_string(s3) {
                    Err(e) => Err(e),
                    Ok((s4, text)) => Ok((s4, TXTMessageView { num_msg, msg_num, msg_type, text })),
                },
            },
        },
    }
}

/// Decodes the text-transmission message body.
pub fn parse_txt(input: &str) -> (r: Result<(&str, TXTMessage), Error>)
    ensures
        step_view(r, spec_parse_txt(input@)),
{
    proof {
        reveal(spec_parse_txt);
    }
    let (s1, num_msg) = match parse_u8(input) {
        Ok(p) => p,
        Err(e) => { return Err(e); },
    };
    let (s2, msg_num) = match parse_u8(s1) {
        Ok(p) => p,
        Err(e) => { return Err(e); },
    };
    let (s3, msg_type) = match parse_message_type(s2) {
        Ok(p) => p,
        Err(e) => { return Err(e); },
    };
    let (s4, text) = match parse_string(s3) {
        Ok(p) => p,
        Err(e) => { return Err(e); },
    };
    Ok((s4, TXTMessage { num_msg, msg_num, msg_type, text: String::from_str(text) }))
}

} // verus!
