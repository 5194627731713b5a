use vstd::prelude::*;
use vstd::string::StringExecFns;

use crate::error::Error;
use crate::parser_utils::{parse_string, spec_parse_string, step_view};

verus! {

/// Poll a standard message if the current Talker ID is GP
#[derive(Debug, PartialEq, Eq)]
pub struct GPQMessage {
    /// Message ID of the message to be polled
    pub msg_id: String,
}

/// The poll request as its text: the requested message identifier.
pub struct GPQMessageView {
    pub msg_id: Seq<char>,
}

impl View for GPQMessage {
    type V = GPQMessageView;

    open spec fn view(&self) -> GPQMessageView {
        GPQMessageView { msg_id: self.msg_id@ }
    }
}

/// Meaning of the poll-request message body: one field, the identifier
/// of the message being polled.
#[verifier::opaque]
pub open spec fn spec_parse_gpq(s: Seq<char>) -> Result<(Seq<char>, GPQMessageView), Error> {
    match spec_parse_string(s) {
        Err(e) => Err(e),
        Ok((s1, msg_id)) => Ok((s1, GPQMessageView { msg_id })),
    }
}

/// Decodes the poll-request message body.
pub fn parse_gpq(input: &str) -> (r: Result<(&str, GPQMessage), Error>)
    ensures
        step_view(r, spec_parse_gpq(input@)),
{
    proof {
        reveal(spec_parse_gpq);
    }
    let (s1, tok) = match parse_string(input) {
        Ok(p) => p,
        Err(e) => { return Err(e); },
    };
    Ok((s1, GPQMessage { msg_id: String::from_str(tok) }))
}

} // verus!
