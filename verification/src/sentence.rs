use vstd::prelude::*;
use vstd::string::StrSliceExecFns;

use crate::error::Error;
use crate::fields::identity::{parse_talker, spec_parse_talker, Talker};
use crate::fields::parameter::SentenceType;
use crate::messages::dtm::{parse_dtm, spec_parse_dtm, DTMMessage, DTMMessageView};
use crate::messages::gbq::{parse_gbq, spec_parse_gbq, GBQMessage, GBQMessageView};
use crate::messages::gbs::{parse_gbs, spec_parse_gbs, GBSMessage};
use crate::messages::gga::{parse_gga, spec_parse_gga, GGAMessage};
use crate::messages::gll::{parse_gll, spec_parse_gll, GLLMessage};
use crate::messages::glq::{parse_glq, spec_parse_glq, GLQMessage, GLQMessageView};
use crate::messages::gnq::{parse_gnq, spec_parse_gnq, GNQMessage, GNQMessageView};
use crate::messages::gns::{parse_gns, spec_parse_gns, GNSMessage, GNSMessageView};
use crate::messages::gpq::{parse_gpq, spec_parse_gpq, GPQMessage, GPQMessageView};
use crate::messages::grs::{parse_grs, spec_parse_grs, GRSMessage, GRSMessageView};
use crate::messages::gsa::{parse_gsa, spec_parse_gsa, GSAMessage, GSAMessageView};
use crate::messages::gst::{parse_gst, spec_parse_gst, GSTMessage};
use crate::messages::gsv::{parse_gsv, spec_parse_gsv, GSVMessage, GSVMessageView};
use crate::messages::rmc::{parse_rmc, spec_parse_rmc, RMCMessage};
use crate::messages::txt::{parse_txt, spec_parse_txt, TXTMessage, TXTMessageView};
use crate::messages::vlw::{parse_vlw, spec_parse_vlw, VLWMessage};
use crate::messages::vtg::{parse_vtg, spec_parse_vtg, VTGMessage};
use crate::messages::zda::{parse_zda, spec_parse_zda, ZDAMessage};
use crate::number::{find_char, lemma_scan_to, scan_to};
use crate::parser_utils::step_eq;

verus! {

/// One decoded sentence: its frame kind, the transmitter that sent it,
/// and the typed message payload. Built only as the outcome of a
/// successful decode, so the checksum, the talker and the message code
/// of the input it came from were all valid.
#[derive(Debug, PartialEq, Eq)]
pub struct Sentence {
    pub sentence_type: SentenceType,
    pub talker: Talker,
    pub message: Message,
}

/// The message payload: one variant per supported three-letter code.
#[derive(Debug, PartialEq, Eq)]
pub enum Message {
    DTM(DTMMessage),
    GBQ(GBQMessage),
    GBS(GBSMessage),
    GGA(GGAMessage),
    GLL(GLLMessage),
    GLQ(GLQMessage),
    GNQ(GNQMessage),
    GNS(GNSMessage),
    GPQ(GPQMessage),
    GRS(GRSMessage),
    GSA(GSAMessage),
    GST(GSTMessage),
    GSV(GSVMessage),
    RMC(RMCMessage),
    TXT(TXTMessage),
    VLW(VLWMessage),
    VTG(VTGMessage),
    ZDA(ZDAMessage),
}

/// The three-letter message codes the dispatch table knows.
#[derive(Debug, Clone, Copy, PartialEq, Eq)]
pub enum MessageType {
    DTM,
    GBQ,
    GBS,
    GGA,
    GLL,
    GLQ,
    GNQ,
    GNS,
    GPQ,
    GRS,
    GSA,
    GST,
    GSV,
    RMC,
    TXT,
    VLW,
    VTG,
    ZDA,
}

/// The message payload through the views of its records.
pub enum MessageView {
    DTM(DTMMessageView),
    GBQ(GBQMessageView),
    GBS(GBSMessage),
    GGA(GGAMessage),
    GLL(GLLMessage),
    GLQ(GLQMessageView),
    GNQ(GNQMessageView),
    GNS(GNSMessageView),
    GPQ(GPQMessageView),
    GRS(GRSMessageView),
    GSA(GSAMessageView),
    GST(GSTMessage),
    GSV(GSVMessageView),
    RMC(RMCMessage),
    TXT(TXTMessageView),
    VLW(VLWMessage),
    VTG(VTGMessage),
    ZDA(ZDAMessage),
}

impl View for Message {
    type V = MessageView;

    open spec fn view(&self) -> MessageView {
        match self {
            Message::DTM(m) => MessageView::DTM(m@),
            Message::GBQ(m) => MessageView::GBQ(m@),
            Message::GBS(m) => MessageView::GBS(*m),
            Message::GGA(m) => MessageView::GGA(*m),
            Message::GLL(m) => MessageView::GLL(*m),
            Message::GLQ(m) => MessageView::GLQ(m@),
            Message::GNQ(m) => MessageView::GNQ(m@),
            Message::GNS(m) => MessageView::GNS(m@),
            Message::GPQ(m) => MessageView::GPQ(m@),
            Message::GRS(m) => MessageView::GRS(m@),
            Message::GSA(m) => MessageView::GSA(m@),
            Message::GST(m) => MessageView::GST(*m),
            Message::GSV(m) => MessageView::GSV(m@),
            Message::RMC(m) => MessageView::RMC(*m),
            Message::TXT(m) => MessageView::TXT(m@),
            Message::VLW(m) => MessageView::VLW(*m),
            Message::VTG(m) => MessageView::VTG(*m),
            Message::ZDA(m) => MessageView::ZDA(*m),
        }
    }
}

/// The decoded sentence through the view of its payload.
pub struct SentenceView {
    pub sentence_type: SentenceType,
    pub talker: Talker,
    pub message: MessageView,
}

impl View for Sentence {
    type V = SentenceView;

    open spec fn view(&self) -> SentenceView {
        SentenceView {
            sentence_type: self.sentence_type,
            talker: self.talker,
            message: self.message@,
        }
    }
}

/// The byte a character contributes to the checksum: its code point,
/// truncated to one byte.
pub open spec fn char_byte(c: char) -> u8 {
    ((c as u32) % 256) as u8
}

/// The sentence checksum: the XOR of the bytes of every character
/// between the frame marker and the `*` delimiter.
pub open spec fn spec_checksum(s: Seq<char>) -> u8
    decreases s.len(),
{
    if s.len() == 0 {
        0
    } else {
        spec_checksum(s.drop_last()) ^ char_byte(s.last())
    }
}

/// Tells whether the transmitted checksum matches the XOR of the
/// checksummed payload.
pub fn sentence_is_valid(data: &str, checksum: u8) -> (r: bool)
    ensures
        r == (spec_checksum(data@) == checksum),
{
    let n = data.unicode_len();
    let mut acc: u8 = 0;
    let mut i: usize = 0;
    while i < n
        invariant
            0 <= i <= n,
            n == data@.len(),
            acc == spec_checksum(data@.subrange(0, i as int)),
        decreases n - i,
    {
        let c = data.get_char(i);
        let b = ((c as u32) % 256) as u8;
        proof {
            assert(data@.subrange(0, i as int + 1).drop_last() =~= data@.subrange(0, i as int));
            assert(data@.subrange(0, i as int + 1).last() == c);
        }
        acc = acc ^ b;
        i = i + 1;
    }
    proof {
        assert(data@.subrange(0, n as int) =~= data@);
    }
    acc == checksum
}

/// The value of one hexadecimal digit, upper or lower case.
pub open spec fn hex_digit_val(c: char) -> Option<u8> {
    let u = c as u32;
    if 48 <= u <= 57 {
        Some((u - 48) as u8)
    } else if 65 <= u <= 70 {
        Some((u - 55) as u8)
    } else if 97 <= u <= 102 {
        Some((u - 87) as u8)
    } else {
        None
    }
}

/// Reads one hexadecimal digit, upper or lower case.
fn hex_val(c: char) -> (r: Option<u8>)
    ensures
        r == hex_digit_val(c),
        r is Some ==> r->0 <= 15,
{
    let u = c as u32;
    if u >= 48 && u <= 57 {
        Some((u - 48) as u8)
    } else if u >= 65 && u <= 70 {
        Some((u - 55) as u8)
    } else if u >= 97 && u <= 102 {
        Some((u - 87) as u8)
    } else {
        None
    }
}

/// Meaning of the frame marker: `$` opens a conventional sentence and
/// `!` an encapsulated one; anything else, or no input, is a failure.
pub open spec fn spec_parse_sentence_type(s: Seq<char>) -> Result<(Seq<char>, SentenceType), Error> {
    if s.len() == 0 {
        Err(Error::Incomplete)
    } else if s[0] == '$' {
        Ok((s.subrange(1, s.len() as int), SentenceType::Parametric))
    } else if s[0] == '!' {
        Ok((s.subrange(1, s.len() as int), SentenceType::Encapsulation))
    } else {
        Err(Error::UnknownFrameMarker)
    }
}

/// Reads the frame marker.
pub fn parse_sentence_type(input: &str) -> (r: Result<(&str, SentenceType), Error>)
    ensures
        step_eq(r, spec_parse_sentence_type(input@)),
{
    let n = input.unicode_len();
    if n == 0 {
        return Err(Error::Incomplete);
    }
    let c = input.get_char(0);
    let rest = input.substring_char(1, n);
    proof {
        assert(rest@ =~= input@.subrange(1, input@.len() as int));
    }
    if c == '$' {
        Ok((rest, SentenceType::Parametric))
    } else if c == '!' {
        Ok((rest, SentenceType::Encapsulation))
    } else {
        Err(Error::UnknownFrameMarker)
    }
}

/// The message type a three-letter code stands for; `None` when the
/// code is not in the dispatch table.
pub open spec fn spec_message_code(a: char, b: char, c: char) -> Option<MessageType> {
    match (a, b, c) {
        ('D', 'T', 'M') => Some(MessageType::DTM),
        ('G', 'B', 'Q') => Some(MessageType::GBQ),
        ('G', 'B', 'S') => Some(MessageType::GBS),
        ('G', 'G', 'A') => Some(MessageType::GGA),
        ('G', 'L', 'L') => Some(MessageType::GLL),
        ('G', 'L', 'Q') => Some(MessageType::GLQ),
        ('G', 'N', 'Q') => Some(MessageType::GNQ),
        ('G', 'N', 'S') => Some(MessageType::GNS),
        ('G', 'P', 'Q') => Some(MessageType::GPQ),
        ('G', 'R', 'S') => Some(MessageType::GRS),
        ('G', 'S', 'A') => Some(MessageType::GSA),
        ('G', 'S', 'T') => Some(MessageType::GST),
        ('G', 'S', 'V') => Some(MessageType::GSV),
        ('R', 'M', 'C') => Some(MessageType::RMC),
        ('T', 'X', 'T') => Some(MessageType::TXT),
        ('V', 'L', 'W') => Some(MessageType::VLW),
        ('V', 'T', 'G') => Some(MessageType::VTG),
        ('Z', 'D', 'A') => Some(MessageType::ZDA),
        _ => None,
    }
}

/// Meaning of the message-code field: three letters and their
/// terminating comma, looked up in the dispatch table.
pub open spec fn spec_parse_message_type(s: Seq<char>) -> Result<(Seq<char>, MessageType), Error> {
    if s.len() < 4 {
        Err(Error::Incomplete)
    } else {
        match spec_message_code(s[0], s[1], s[2]) {
            Some(mt) => if s[3] == ',' {
                Ok((s.subrange(4, s.len() as int), mt))
            } else {
                Err(Error::UnknownMessageCode)
            },
            None => Err(Error::UnknownMessageCode),
        }
    }
}

/// Looks the three-letter message code up in the dispatch table.
pub fn parse_message_type(input: &str) -> (r: Result<(&str, MessageType), Error>)
    ensures
        step_eq(r, spec_parse_message_type(input@)),
{
    let n = input.unicode_len();
    if n < 4 {
        return Err(Error::Incomplete);
    }
    let a = input.get_char(0);
    let b = input.get_char(1);
    let c = input.get_char(2);
    let mt = match (a, b, c) {
        ('D', 'T', 'M') => MessageType::DTM,
        ('G', 'B', 'Q') => MessageType::GBQ,
        ('G', 'B', 'S') => MessageType::GBS,
        ('G', 'G', 'A') => MessageType::GGA,
        ('G', 'L', 'L') => MessageType::GLL,
        ('G', 'L', 'Q') => MessageType::GLQ,
        ('G', 'N', 'Q') => MessageType::GNQ,
        ('G', 'N', 'S') => MessageType::GNS,
        ('G', 'P', 'Q') => MessageType::GPQ,
        ('G', 'R', 'S') => MessageType::GRS,
        ('G', 'S', 'A') => MessageType::GSA,
        ('G', 'S', 'T') => MessageType::GST,
        ('G', 'S', 'V') => MessageType::GSV,
        ('R', 'M', 'C') => MessageType::RMC,
        ('T', 'X', 'T') => MessageType::TXT,
        ('V', 'L', 'W') => MessageType::VLW,
        ('V', 'T', 'G') => MessageType::VTG,
        ('Z', 'D', 'A') => MessageType::ZDA,
        _ => { return Err(Error::UnknownMessageCode); },
    };
    if input.get_char(3) != ',' {
        return Err(Error::UnknownMessageCode);
    }
    let rest = input.substring_char(4, n);
    proof {
        assert(rest@ =~= input@.subrange(4, input@.len() as int));
    }
    Ok((rest, mt))
}

/// One row of the dispatch table: the DTM decoder on the field
/// buffer, which it must consume whole.
pub open spec fn spec_dispatch_dtm(
    sentence_type: SentenceType,
    talker: Talker,
    fields: Seq<char>,
) -> Result<SentenceView, Error> {
    match spec_parse_dtm(fields) {
        Err(e) => Err(e),
        Ok((rest, m)) => if rest.len() == 0 {
            Ok(SentenceView { sentence_type, talker, message: MessageView::DTM(m) })
        } else {
            Err(Error::TrailingData)
        },
    }
}

/// One row of the dispatch table: the GBQ decoder on the field
/// buffer, which it must consume whole.
pub open spec fn spec_dispatch_gbq(
    sentence_type: SentenceType,
    talker: Talker,
    fields: Seq<char>,
) -> Result<SentenceView, Error> {
    match spec_parse_gbq(fields) {
        Err(e) => Err(e),
        Ok((rest, m)) => if rest.len() == 0 {
            Ok(SentenceView { sentence_type, talker, message: MessageView::GBQ(m) })
        } else {
            Err(Error::TrailingData)
        },
    }
}

/// One row of the dispatch table: the GBS decoder on the field
/// buffer, which it must consume whole.
pub open spec fn spec_dispatch_gbs(
    sentence_type: SentenceType,
    talker: Talker,
    fields: Seq<char>,
) -> Result<SentenceView, Error> {
    match spec_parse_gbs(fields) {
        Err(e) => Err(e),
        Ok((rest, m)) => if rest.len() == 0 {
            Ok(SentenceView { sentence_type, talker, message: MessageView::GBS(m) })
        } else {
            Err(Error::TrailingData)
        },
    }
}

/// One row of the dispatch table: the GGA decoder on the field
/// buffer, which it must consume whole.
pub open spec fn spec_dispatch_gga(
    sentence_type: SentenceType,
    talker: Talker,
    fields: Seq<char>,
) -> Result<SentenceView, Error> {
    match spec_parse_gga(fields) {
        Err(e) => Err(e),
        Ok((rest, m)) => if rest.len() == 0 {
            Ok(SentenceView { sentence_type, talker, message: MessageView::GGA(m) })
        } else {
            Err(Error::TrailingData)
        },
    }
}

/// One row of the dispatch table: the GLL decoder on the field
/// buffer, which it must consume whole.
pub open spec fn spec_dispatch_gll(
    sentence_type: SentenceType,
    talker: Talker,
    fields: Seq<char>,
) -> Result<SentenceView, Error> {
    match spec_parse_gll(fields) {
        Err(e) => Err(e),
        Ok((rest, m)) => if rest.len() == 0 {
            Ok(SentenceView { sentence_type, talker, message: MessageView::GLL(m) })
        } else {
            Err(Error::TrailingData)
        },
    }
}

/// One row of the dispatch table: the GLQ decoder on the field
/// buffer, which it must consume whole.
pub open spec fn spec_dispatch_glq(
    sentence_type: SentenceType,
    talker: Talker,
    fields: Seq<char>,
) -> Result<SentenceView, Error> {
    match spec_parse_glq(fields) {
        Err(e) => Err(e),
        Ok((rest, m)) => if rest.len() == 0 {
            Ok(SentenceView { sentence_type, talker, message: MessageView::GLQ(m) })
        } else {
            Err(Error::TrailingData)
        },
    }
}

/// One row of the dispatch table: the GNQ decoder on the field
/// buffer, which it must consume whole.
pub open spec fn spec_dispatch_gnq(
    sentence_type: SentenceType,
    talker: Talker,
    fields: Seq<char>,
) -> Result<SentenceView, Error> {
    match spec_parse_gnq(fields) {
        Err(e) => Err(e),
        Ok((rest, m)) => if rest.len() == 0 {
            Ok(SentenceView { sentence_type, talker, message: MessageView::GNQ(m) })
        } else {
            Err(Error::TrailingData)
        },
    }
}

/// One row of the dispatch table: the GNS decoder on the field
/// buffer, which it must consume whole.
pub open spec fn spec_dispatch_gns(
    sentence_type: SentenceType,
    talker: Talker,
    fields: Seq<char>,
) -> Result<SentenceView, Error> {
    match spec_parse_gns(fields) {
        Err(e) => Err(e),
        Ok((rest, m)) => if rest.len() == 0 {
            Ok(SentenceView { sentence_type, talker, message: MessageView::GNS(m) })
        } else {
            Err(Error::TrailingData)
        },
    }
}

/// One row of the dispatch table: the GPQ decoder on the field
/// buffer, which it must consume whole.
pub open spec fn spec_dispatch_gpq(
    sentence_type: SentenceType,
    talker: Talker,
    fields: Seq<char>,
) -> Result<SentenceView, Error> {
    match spec_parse_gpq(fields) {
        Err(e) => Err(e),
        Ok((rest, m)) => if rest.len() == 0 {
            Ok(SentenceView { sentence_type, talker, message: MessageView::GPQ(m) })
        } else {
            Err(Error::TrailingData)
        },
    }
}

/// One row of the dispatch table: the GRS decoder on the field
/// buffer, which it must consume whole.
pub open spec fn spec_dispatch_grs(
    sentence_type: SentenceType,
    talker: Talker,
    fields: Seq<char>,
) -> Result<SentenceView, Error> {
    match spec_parse_grs(fields) {
        Err(e) => Err(e),
        Ok((rest, m)) => if rest.len() == 0 {
            Ok(SentenceView { sentence_type, talker, message: MessageView::GRS(m) })
        } else {
            Err(Error::TrailingData)
        },
    }
}

/// One row of the dispatch table: the GSA decoder on the field
/// buffer, which it must consume whole.
pub open spec fn spec_dispatch_gsa(
    sentence_type: SentenceType,
    talker: Talker,
    fields: Seq<char>,
) -> Result<SentenceView, Error> {
    match spec_parse_gsa(fields) {
        Err(e) => Err(e),
        Ok((rest, m)) => if rest.len() == 0 {
            Ok(SentenceView { sentence_type, talker, message: MessageView::GSA(m) })
        } else {
            Err(Error::TrailingData)
        },
    }
}

/// One row of the dispatch table: the GST decoder on the field
/// buffer, which it must consume whole.
pub open spec fn spec_dispatch_gst(
    sentence_type: SentenceType,
    talker: Talker,
    fields: Seq<char>,
) -> Result<SentenceView, Error> {
    match spec_parse_gst(fields) {
        Err(e) => Err(e),
        Ok((rest, m)) => if rest.len() == 0 {
            Ok(SentenceView { sentence_type, talker, message: MessageView::GST(m) })
        } else {
            Err(Error::TrailingData)
        },
    }
}

/// One row of the dispatch table: the GSV decoder on the field
/// buffer, which it must consume whole.
pub open spec fn spec_dispatch_gsv(
    sentence_type: SentenceType,
    talker: Talker,
    fields: Seq<char>,
) -> Result<SentenceView, Error> {
    match spec_parse_gsv(fields) {
        Err(e) => Err(e),
        Ok((rest, m)) => if rest.len() == 0 {
            Ok(SentenceView { sentence_type, talker, message: MessageView::GSV(m) })
        } else {
            Err(Error::TrailingData)
        },
    }
}

/// One row of the dispatch table: the RMC decoder on the field
/// buffer, which it must consume whole.
pub open spec fn spec_dispatch_rmc(
    sentence_type: SentenceType,
    talker: Talker,
    fields: Seq<char>,
) -> Result<SentenceView, Error> {
    match spec_parse_rmc(fields) {
        Err(e) => Err(e),
        Ok((rest, m)) => if rest.len() == 0 {
            Ok(SentenceView { sentence_type, talker, message: MessageView::RMC(m) })
        } else {
            Err(Error::TrailingData)
        },
    }
}

/// One row of the dispatch table: the TXT decoder on the field
/// buffer, which it must consume whole.
pub open spec fn spec_dispatch_txt(
    sentence_type: SentenceType,
    talker: Talker,
    fields: Seq<char>,
) -> Result<SentenceView, Error> {
    match spec_parse_txt(fields) {
        Err(e) => Err(e),
        Ok((rest, m)) => if rest.len() == 0 {
            Ok(SentenceView { sentence_type, talker, message: MessageView::TXT(m) })
        } else {
            Err(Error::TrailingData)
        },
    }
}

/// One row of the dispatch table: the VLW decoder on the field
/// buffer, which it must consume whole.
pub open spec fn spec_dispatch_vlw(
    sentence_type: SentenceType,
    talker: Talker,
    fields: Seq<char>,
) -> Result<SentenceView, Error> {
    match spec_parse_vlw(fields) {
        Err(e) => Err(e),
        Ok((rest, m)) => if rest.len() == 0 {
            Ok(SentenceView { sentence_type, talker, message: MessageView::VLW(m) })
        } else {
            Err(Error::TrailingData)
        },
    }
}

/// One row of the dispatch table: the VTG decoder on the field
/// buffer, which it must consume whole.
pub open spec fn spec_dispatch_vtg(
    sentence_type: SentenceType,
    talker: Talker,
    fields: Seq<char>,
) -> Result<SentenceView, Error> {
    match spec_parse_vtg(fields) {
        Err(e) => Err(e),
        Ok((rest, m)) => if rest.len() == 0 {
            Ok(SentenceView { sentence_type, talker, message: MessageView::VTG(m) })
        } else {
            Err(Error::TrailingData)
        },
    }
}

/// One row of the dispatch table: the ZDA decoder on the field
/// buffer, which it must consume whole.
pub open spec fn spec_dispatch_zda(
    sentence_type: SentenceType,
    talker: Talker,
    fields: Seq<char>,
) -> Result<SentenceView, Error> {
    match spec_parse_zda(fields) {
        Err(e) => Err(e),
        Ok((rest, m)) => if rest.len() == 0 {
            Ok(SentenceView { sentence_type, talker, message: MessageView::ZDA(m) })
        } else {
            Err(Error::TrailingData)
        },
    }
}

/// Meaning of the dispatch: the decoder the code selects, run on the
/// field buffer.
pub open spec fn spec_dispatch(
    sentence_type: SentenceType,
    talker: Talker,
    mt: MessageType,
    fields: Seq<char>,
) -> Result<SentenceView, Error> {
    match mt {
        MessageType::DTM => spec_dispatch_dtm(sentence_type, talker, fields),
        MessageType::GBQ => spec_dispatch_gbq(sentence_type, talker, fields),
        MessageType::GBS => spec_dispatch_gbs(sentence_type, talker, fields),
        MessageType::GGA => spec_dispatch_gga(sentence_type, talker, fields),
        MessageType::GLL => spec_dispatch_gll(sentence_type, talker, fields),
        MessageType::GLQ => spec_dispatch_glq(sentence_type, talker, fields),
        MessageType::GNQ => spec_dispatch_gnq(sentence_type, talker, fields),
        MessageType::GNS => spec_dispatch_gns(sentence_type, talker, fields),
        MessageType::GPQ => spec_dispatch_gpq(sentence_type, talker, fields),
        MessageType::GRS => spec_dispatch_grs(sentence_type, talker, fields),
        MessageType::GSA => spec_dispatch_gsa(sentence_type, talker, fields),
        MessageType::GST => spec_dispatch_gst(sentence_type, talker, fields),
        MessageType::GSV => spec_dispatch_gsv(sentence_type, talker, fields),
        MessageType::RMC => spec_dispatch_rmc(sentence_type, talker, fields),
        MessageType::TXT => spec_dispatch_txt(sentence_type, talker, fields),
        MessageType::VLW => spec_dispatch_vlw(sentence_type, talker, fields),
        MessageType::VTG => spec_dispatch_vtg(sentence_type, talker, fields),
        MessageType::ZDA => spec_dispatch_zda(sentence_type, talker, fields),
    }
}

/// Meaning of the whole decode: frame marker, checksum delimiter, the
/// two hexadecimal checksum characters, the XOR gate, the CR LF
/// terminator, then talker, message code and the selected decoder.
/// The checksum gate runs before any field is interpreted.
pub open spec fn spec_parse_sentence(s: Seq<char>) -> Result<SentenceView, Error> {
    match spec_parse_sentence_type(s) {
        Err(e) => Err(e),
        Ok((body, sentence_type)) => {
            let star = scan_to(body, 0, '*');
            if star >= body.len() {
                Err(Error::UnterminatedSentence)
            } else {
                let payload = body.subrange(0, star);
                let after = body.subrange(star + 1, body.len() as int);
                if after.len() < 2 {
                    Err(Error::InvalidChecksum)
                } else {
                    match (hex_digit_val(after[0]), hex_digit_val(after[1])) {
                        (Some(hi), Some(lo)) => if spec_checksum(payload) != hi * 16 + lo {
                            Err(Error::ChecksumMismatch)
                        } else if !(after.len() == 4 && after[2] == '\r' && after[3] == '\n') {
                            Err(Error::MalformedTerminator)
                        } else {
                            match spec_parse_talker(payload) {
                                Err(e) => Err(e),
                                Ok((p1, talker)) => match spec_parse_message_type(p1) {
                                    Err(e) => Err(e),
                                    Ok((fields, mt)) => spec_dispatch(
                                        sentence_type,
                                        talker,
                                        mt,
                                        fields,
                                    ),
                                },
                            }
                        },
                        _ => Err(Error::InvalidChecksum),
                    }
                }
            }
        },
    }
}

/// Runs the decoder the dispatch table selects on the field buffer,
/// which the decoder must consume whole.
#[verifier::rlimit(30)]
fn dispatch(sentence_type: SentenceType, talker: Talker, mt: MessageType, fields: &str) -> (r:
    Result<Sentence, Error>)
    ensures
        match r {
            Ok(snt) => spec_dispatch(sentence_type, talker, mt, fields@) == Ok::<
                SentenceView,
                Error,
            >(snt@),
            Err(e) => spec_dispatch(sentence_type, talker, mt, fields@) == Err::<
                SentenceView,
                _,
            >(e),
        },
{
    match mt {
        MessageType::DTM => match parse_dtm(fields) {
            Ok((rest, m)) => if rest.unicode_len() == 0 {
                Ok(Sentence { sentence_type, talker, message: Message::DTM(m) })
            } else {
                Err(Error::TrailingData)
            },
            Err(e) => Err(e),
        },
        MessageType::GBQ => match parse_gbq(fields) {
            Ok((rest, m)) => if rest.unicode_len() == 0 {
                Ok(Sentence { sentence_type, talker, message: Message::GBQ(m) })
            } else {
                Err(Error::TrailingData)
            },
            Err(e) => Err(e),
        },
        MessageType::GBS => match parse_gbs(fields) {
            Ok((rest, m)) => if rest.unicode_len() == 0 {
                Ok(Sentence { sentence_type, talker, message: Message::GBS(m) })
            } else {
                Err(Error::TrailingData)
            },
            Err(e) => Err(e),
        },
        MessageType::GGA => match parse_gga(fields) {
            Ok((rest, m)) => if rest.unicode_len() == 0 {
                Ok(Sentence { sentence_type, talker, message: Message::GGA(m) })
            } else {
                Err(Error::TrailingData)
            },
            Err(e) => Err(e),
        },
        MessageType::GLL => match parse_gll(fields) {
            Ok((rest, m)) => if rest.unicode_len() == 0 {
                Ok(Sentence { sentence_type, talker, message: Message::GLL(m) })
            } else {
                Err(Error::TrailingData)
            },
            Err(e) => Err(e),
        },
        MessageType::GLQ => match parse_glq(fields) {
            Ok((rest, m)) => if rest.unicode_len() == 0 {
                Ok(Sentence { sentence_type, talker, message: Message::GLQ(m) })
            } else {
                Err(Error::TrailingData)
            },
            Err(e) => Err(e),
        },
        MessageType::GNQ => match parse_gnq(fields) {
            Ok((rest, m)) => if rest.unicode_len() == 0 {
                Ok(Sentence { sentence_type, talker, message: Message::GNQ(m) })
            } else {
                Err(Error::TrailingData)
            },
            Err(e) => Err(e),
        },
        MessageType::GNS => match parse_gns(fields) {
            Ok((rest, m)) => if rest.unicode_len() == 0 {
                Ok(Sentence { sentence_type, talker, message: Message::GNS(m) })
            } else {
                Err(Error::TrailingData)
            },
            Err(e) => Err(e),
        },
        MessageType::GPQ => match parse_gpq(fields) {
            Ok((rest, m)) => if rest.unicode_len() == 0 {
                Ok(Sentence { sentence_type, talker, message: Message::GPQ(m) })
            } else {
                Err(Error::TrailingData)
            },
            Err(e) => Err(e),
        },
        MessageType::GRS => match parse_grs(fields) {
            Ok((rest, m)) => if rest.unicode_len() == 0 {
                Ok(Sentence { sentence_type, talker, message: Message::GRS(m) })
            } else {
                Err(Error::TrailingData)
            },
            Err(e) => Err(e),
        },
        MessageType::GSA => match parse_gsa(fields) {
            Ok((rest, m)) => if rest.unicode_len() == 0 {
                Ok(Sentence { sentence_type, talker, message: Message::GSA(m) })
            } else {
                Err(Error::TrailingData)
            },
            Err(e) => Err(e),
        },
        MessageType::GST => match parse_gst(fields) {
            Ok((rest, m)) => if rest.unicode_len() == 0 {
                Ok(Sentence { sentence_type, talker, message: Message::GST(m) })
            } else {
                Err(Error::TrailingData)
            },
            Err(e) => Err(e),
        },
        MessageType::GSV => match parse_gsv(fields) {
            Ok((rest, m)) => if rest.unicode_len() == 0 {
                Ok(Sentence { sentence_type, talker, message: Message::GSV(m) })
            } else {
                Err(Error::TrailingData)
            },
            Err(e) => Err(e),
        },
        MessageType::RMC => match parse_rmc(fields) {
            Ok((rest, m)) => if rest.unicode_len() == 0 {
                Ok(Sentence { sentence_type, talker, message: Message::RMC(m) })
            } else {
                Err(Error::TrailingData)
            },
            Err(e) => Err(e),
        },
        MessageType::TXT => match parse_txt(fields) {
            Ok((rest, m)) => if rest.unicode_len() == 0 {
                Ok(Sentence { sentence_type, talker, message: Message::TXT(m) })
            } else {
                Err(Error::TrailingData)
            },
            Err(e) => Err(e),
        },
        MessageType::VLW => match parse_vlw(fields) {
            Ok((rest, m)) => if rest.unicode_len() == 0 {
                Ok(Sentence { sentence_type, talker, message: Message::VLW(m) })
            } else {
                Err(Error::TrailingData)
            },
            Err(e) => Err(e),
        },
        MessageType::VTG => match parse_vtg(fields) {
            Ok((rest, m)) => if rest.unicode_len() == 0 {
                Ok(Sentence { sentence_type, talker, message: Message::VTG(m) })
            } else {
                Err(Error::TrailingData)
            },
            Err(e) => Err(e),
        },
        MessageType::ZDA => match parse_zda(fields) {
            Ok((rest, m)) => if rest.unicode_len() == 0 {
                Ok(Sentence { sentence_type, talker, message: Message::ZDA(m) })
            } else {
                Err(Error::TrailingData)
            },
            Err(e) => Err(e),
        },
    }
}

/// Decodes one full sentence; on success the returned buffer is empty.
pub fn parse_sentence(input: &str) -> (r: Result<(&str, Sentence), Error>)
    ensures
        match r {
            Ok((rem, snt)) => spec_parse_sentence(input@) == Ok::<SentenceView, Error>(snt@)
                && rem@ == Seq::<char>::empty(),
            Err(e) => spec_parse_sentence(input@) == Err::<SentenceView, _>(e),
        },
{
    let (body, sentence_type) = match parse_sentence_type(input) {
        Ok(p) => p,
        Err(e) => { return Err(e); },
    };
    let bn = body.unicode_len();
    let star = find_char(body, '*');
    proof {
        lemma_scan_to(body@, 0, '*');
    }
    if star >= bn {
        return Err(Error::UnterminatedSentence);
    }
    let payload = body.substring_char(0, star);
    let after = body.substring_char(star + 1, bn);
    proof {
        assert(payload@ =~= body@.subrange(0, star as int));
        assert(after@ =~= body@.subrange(star as int + 1, body@.len() as int));
    }
    let an = bn - star - 1;
    if an < 2 {
        return Err(Error::InvalidChecksum);
    }
    let hi = match hex_val(after.get_char(0)) {
        Some(v) => v,
        None => { return Err(Error::InvalidChecksum); },
    };
    let lo = match hex_val(after.get_char(1)) {
        Some(v) => v,
        None => { return Err(Error::InvalidChecksum); },
    };
    let cs = hi * 16 + lo;
    if !sentence_is_valid(payload, cs) {
        return Err(Error::ChecksumMismatch);
    }
    if !(an == 4 && after.get_char(2) == '\r' && after.get_char(3) == '\n') {
        return Err(Error::MalformedTerminator);
    }
    let (p1, talker) = match parse_talker(payload) {
        Ok(p) => p,
        Err(e) => { return Err(e); },
    };
    let (fields, mt) = match parse_message_type(p1) {
        Ok(p) => p,
        Err(e) => { return Err(e); },
    };
    match dispatch(sentence_type, talker, mt, fields) {
        Ok(snt) => {
            proof {
                reveal_strlit("");
                assert(""@ =~= Seq::<char>::empty());
            }
            Ok(("", snt))
        },
        Err(e) => Err(e),
    }
}

} // verus!
