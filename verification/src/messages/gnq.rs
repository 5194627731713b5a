use vstd::prelude::*;
use vstd::string::StringExecFns;

use crate::error::Error;
use crate::parser_utils::{parse_string, spec_parse_string, step_view};

verus! {

/// Poll a standard message if the current Talker ID is GN
#[derive(Debug, PartialEq, Eq)]
pub struct GNQMessage {
    /// Message ID of the message to be polled
    pub msg_id: String,
}

/// The poll request as its text: the requested message identifier.
pub struct GNQMessageView {
    pub msg_id: Seq<char>,
}

impl View for GNQMessage {
    type V = GNQMessageView;

    open spec fn view(&self) -> GNQMessageView {
        GNQMessageView { msg_id: self.msg_id@ }
    }
}

/// Meaning of the poll-request message body: one field, the identifier
/// of the message being polled.
#[verifier::opaque]
pub open spec fn spec_parse_gnq(s: Seq<char>) -> Result<(Seq<char>, GNQMessageView), Error> {
    match spec_parse_string(s) {
        Err(e) => Err(e),
        Ok((s1, msg_id)) => Ok((s1, GNQMessageView { msg_id })),
    }
}

/// Decodes the poll-request message body.
pub fn parse_gnq(input: &str) -> (r: Result<(&str, GNQMessage), Error>)
    ensures
        step_view(r, spec_parse_gnq(input@)),
{
    proof {
        reveal(spec_parse_gnq);
    }
    let (s1, tok) = match parse_string(input) {
        Ok(p) => p,
        Err(e) => { return Err(e); },
    };
    Ok((s1, GNQMessage { msg_id: String::from_str(tok) }))
}

} // verus!
