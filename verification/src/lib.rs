//! Decoder for NMEA-0183 navigation sentences.
//!
//! One complete sentence — marker, talker, message code, fields, checksum
//! and terminator — goes in as a string; a typed [`Sentence`] record or a
//! classified [`Error`] comes out. Decoding is a pure function of the
//! input: nothing is read from anywhere else and no state is kept.
use vstd::prelude::*;

pub mod error;
pub mod fields;
pub mod laws;
pub mod messages;
pub mod number;
pub mod parser_utils;
pub mod sentence;

pub use error::Error;
pub use fields::cardinality::EastWest;
pub use fields::cardinality::NorthSouth;
pub use fields::distance::Degree;
pub use fields::distance::Meter;
pub use fields::distance::Minute;
pub use fields::distance::Second;
pub use fields::identity::SatelliteInView;
pub use fields::identity::SatelliteInViewList;
pub use fields::identity::Talker;
pub use fields::parameter::ComputationMethod;
pub use fields::parameter::Fix;
pub use fields::parameter::MessageLevel;
pub use fields::parameter::NavigationMode;
pub use fields::parameter::NavigationalStatus;
pub use fields::parameter::OperationMode;
pub use fields::parameter::SentenceType;
pub use fields::parameter::Status;
pub use fields::parameter::DBHZ;
pub use fields::speed::CourseOverGroundUnit;
pub use fields::speed::Knot;
pub use fields::speed::SpeedOverGroundUnit;
pub use fields::speed::WaterDistanceUnit;
pub use fields::time::Date;
pub use fields::time::Time;
pub use messages::dtm::DTMMessage;
pub use messages::gbq::GBQMessage;
pub use messages::gbs::GBSMessage;
pub use messages::gga::GGAMessage;
pub use messages::gll::GLLMessage;
pub use messages::glq::GLQMessage;
pub use messages::gnq::GNQMessage;
pub use messages::gns::GNSMessage;
pub use messages::gpq::GPQMessage;
pub use messages::grs::GRSMessage;
pub use messages::gsa::GSAMessage;
pub use messages::gst::GSTMessage;
pub use messages::gsv::GSVMessage;
pub use messages::rmc::RMCMessage;
pub use messages::txt::TXTMessage;
pub use messages::vlw::VLWMessage;
pub use messages::vtg::VTGMessage;
pub use messages::zda::ZDAMessage;
pub use number::Decimal;
pub use sentence::Message;
pub use sentence::MessageType;
pub use sentence::MessageView;
pub use sentence::Sentence;
pub use sentence::SentenceView;

verus! {

/// Decodes one sentence of the NMEA-0183 wire format.
///
/// The input must be the full sentence, marker through CR LF. The
/// result is exactly what [`sentence::spec_parse_sentence`] gives for
/// the input text: the typed record on success, and the classified
/// error otherwise.
pub fn parse(input: &str) -> (r: Result<Sentence, Error>)
    ensures
        match r {
            Ok(snt) => sentence::spec_parse_sentence(input@) == Ok::<SentenceView, Error>(snt@),
            Err(e) => sentence::spec_parse_sentence(input@) == Err::<SentenceView, _>(e),
        },
{
    match sentence::parse_sentence(input) {
        Ok((_, snt)) => Ok(snt),
        Err(e) => Err(e),
    }
}

} // verus!
