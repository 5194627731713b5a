use vstd::prelude::*;

verus! {

/// Classified decode failure.
///
/// Any failure aborts the whole sentence decode: there is no partial result.
/// The variant says which stage of the decode rejected the input.
#[derive(Debug, Clone, Copy, PartialEq, Eq)]
pub enum Error {
    /// The input ended before a required part of the frame could be read.
    Incomplete,
    /// The first character is neither `$` nor `!`.
    UnknownFrameMarker,
    /// No `*` checksum delimiter was found.
    UnterminatedSentence,
    /// The two characters after `*` are not a hexadecimal byte.
    InvalidChecksum,
    /// The XOR of the payload bytes differs from the transmitted checksum.
    ChecksumMismatch,
    /// The characters after the checksum are not exactly CR LF.
    MalformedTerminator,
    /// The two-letter talker code is not in the talker table.
    UnknownTalker,
    /// The three-letter message code is not in the dispatch table.
    UnknownMessageCode,
    /// The message decoder left unconsumed fields behind.
    TrailingData,
    /// A decoder needed another field but the buffer was exhausted.
    MissingField,
    /// A non-empty numeric token did not parse as a number.
    InvalidNumericField,
    /// A fixed-code field held an unrecognized character.
    InvalidEnumField,
    /// A time token was malformed or out of range.
    InvalidTimeField,
    /// A date token was malformed or out of range.
    InvalidDateField,
    /// A fixed unit marker was missing or wrong.
    InvalidUnitMarker,
}

} // verus!
