use vstd::prelude::*;
use vstd::string::StringExecFns;

use crate::error::Error;
use crate::parser_utils::{parse_string, spec_parse_string, step_view};

verus! {

/// Poll a standard message if the current Talker ID is GB
#[derive(Debug, PartialEq, Eq)]
pub struct GBQMessage {
    /// Message ID of the message to be polled
    pub msg_id: String,
}

/// The poll request as its text: the requested message identifier.
pub struct GBQMessageView {
    pub msg_id: Seq<char>,
}

impl View for GBQMessage {
    type V = GBQMessageView;

    open spec fn view(&self) -> GBQMessageView {
        GBQMessageView { msg_id: self.msg_id@ }
    }
}

/// Meaning of the poll-request message body: one field, the identifier
/// of the message being polled.
#[verifier::opaque]
pub open spec fn spec_parse_gbq(s: Seq<char>) -> Result<(Seq<char>, GBQMessageView), Error> {
    match spec_parse_string(s) {
        Err(e) => Err(e),
        Ok((s1, msg_id)) => Ok((s1, GBQMessageView { msg_id })),
    }
}

/// Decodes the poll-request message body.
pub fn parse_gbq(input: &str) -> (r: Result<(&str, GBQMessage), Error>)
    ensures
        step_view(r, spec_parse_gbq(input@)),
{
    proof {
        reveal(spec_parse_gbq);
    }
    let (s1, tok) = match parse_string(input) {
        Ok(p) => p,
        Err(e) => { return Err(e); },
    };
    Ok((s1, GBQMessage { msg_id: String::from_str(tok) }))
}

} // verus!
