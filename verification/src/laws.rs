use vstd::prelude::*;

use crate::error::Error;
use crate::fields::distance::{spec_parse_degree, spec_parse_meter, Degree, Meter};
use crate::fields::identity::spec_parse_talker;
use crate::fields::parameter::SentenceType;
use crate::fields::time::{spec_parse_date, spec_parse_time, Date, Time};
use crate::number::{lemma_scan_to, scan_to, Decimal};
use crate::parser_utils::{spec_parse_float, spec_parse_u8};
use crate::sentence::{
    char_byte, hex_digit_val, spec_checksum, spec_dispatch, spec_parse_message_type,
    spec_parse_sentence, SentenceView,
};

verus! {

/// Everything after the frame marker.
pub open spec fn sentence_body(s: Seq<char>) -> Seq<char> {
    s.subrange(1, s.len() as int)
}

/// Where the first `*` checksum delimiter stands in the body.
pub open spec fn star_index(s: Seq<char>) -> int {
    scan_to(sentence_body(s), 0, '*')
}

/// The checksummed payload: between the frame marker and the `*`.
pub open spec fn checksummed_payload(s: Seq<char>) -> Seq<char> {
    sentence_body(s).subrange(0, star_index(s))
}

/// Everything after the `*`: the checksum characters and terminator.
pub open spec fn after_star(s: Seq<char>) -> Seq<char> {
    sentence_body(s).subrange(star_index(s) + 1, sentence_body(s).len() as int)
}

/// The sentence's frame is sound: a known marker, a `*` delimiter,
/// exactly two hexadecimal checksum characters whose byte equals the
/// XOR of the payload, and the CR LF terminator right behind them.
pub open spec fn frame_well_formed(s: Seq<char>) -> bool {
    &&& s.len() > 0
    &&& (s[0] == '$' || s[0] == '!')
    &&& star_index(s) < sentence_body(s).len()
    &&& after_star(s).len() == 4
    &&& hex_digit_val(after_star(s)[0]) is Some
    &&& hex_digit_val(after_star(s)[1]) is Some
    &&& spec_checksum(checksummed_payload(s)) == hex_digit_val(after_star(s)[0])->0 * 16
        + hex_digit_val(after_star(s)[1])->0
    &&& after_star(s)[2] == '\r'
    &&& after_star(s)[3] == '\n'
}

/// Decoding succeeds on exactly the valid sentences: a sound frame
/// with a correct checksum, a talker and a message code the tables
/// know, and a field buffer that the selected decoder consumes whole.
/// On every such sentence the decode returns a record, with each
/// mandatory field populated by construction — the record types hold
/// mandatory fields directly, not as options. On every other input it
/// returns a classified error, never a partial record: a decoded
/// record always comes from a sentence whose checksum, talker and
/// message code were all valid.
pub proof fn lemma_decode_succeeds_iff_valid(s: Seq<char>)
    ensures
        spec_parse_sentence(s) is Ok <==> ({
            &&& frame_well_formed(s)
            &&& spec_parse_talker(checksummed_payload(s)) is Ok
            &&& spec_parse_message_type(spec_parse_talker(checksummed_payload(s))->Ok_0.0) is Ok
            &&& spec_dispatch(
                if s[0] == '$' {
                    SentenceType::Parametric
                } else {
                    SentenceType::Encapsulation
                },
                spec_parse_talker(checksummed_payload(s))->Ok_0.1,
                spec_parse_message_type(spec_parse_talker(checksummed_payload(s))->Ok_0.0)->Ok_0.1,
                spec_parse_message_type(spec_parse_talker(checksummed_payload(s))->Ok_0.0)->Ok_0.0,
            ) is Ok
        }),
{
}

/// Where the first `c` sits is pinned by what stands around it: `e`
/// carries `c` and nothing before it does.
proof fn lemma_scan_to_exact(s: Seq<char>, i: int, c: char, e: int)
    requires
        0 <= i <= e <= s.len(),
        e < s.len() ==> s[e] == c,
        forall|k: int| i <= k < e ==> s[k] != c,
        e == s.len() ==> forall|k: int| i <= k < s.len() ==> s[k] != c,
    ensures
        scan_to(s, i, c) == e,
    decreases e - i,
{
    if i < e {
        lemma_scan_to_exact(s, i + 1, c, e);
    }
}

/// Two exclusive-or terms swap.
proof fn lemma_xor_swap(x: u8, a: u8, b: u8, d: u8)
    ensures
        ((x ^ a) ^ b) ^ d == ((x ^ d) ^ a) ^ b,
{
    assert(((x ^ a) ^ b) ^ d == ((x ^ d) ^ a) ^ b) by (bit_vector);
}

/// Folding in two different bytes always moves an exclusive-or sum.
proof fn lemma_xor_cancel(x: u8, a: u8, b: u8)
    requires
        a != b,
    ensures
        (x ^ a) ^ b != x,
{
    assert(a != b ==> (x ^ a) ^ b != x) by (bit_vector);
}

/// Replacing one character changes the checksum by the exclusive-or of
/// the old and new byte.
proof fn lemma_checksum_update(t: Seq<char>, k: int, c: char)
    requires
        0 <= k < t.len(),
    ensures
        spec_checksum(t.update(k, c)) == (spec_checksum(t) ^ char_byte(t[k])) ^ char_byte(c),
    decreases t.len(),
{
    let t2 = t.update(k, c);
    if k == t.len() - 1 {
        assert(t2.drop_last() =~= t.drop_last());
        assert(t2.last() == c);
        let x = spec_checksum(t.drop_last());
        let a = char_byte(t[k]);
        let b = char_byte(c);
        assert(((x ^ a) ^ a) ^ b == x ^ b) by (bit_vector);
    } else {
        lemma_checksum_update(t.drop_last(), k, c);
        assert(t2.drop_last() =~= t.drop_last().update(k, c));
        assert(t2.last() == t.last());
        lemma_xor_swap(
            spec_checksum(t.drop_last()),
            char_byte(t[k]),
            char_byte(c),
            char_byte(t.last()),
        );
    }
}

/// Corrupting one payload character without updating the transmitted
/// checksum is caught by the checksum gate: the decode of the mutated
/// sentence fails with the checksum-mismatch error, never with a
/// partially decoded record. The corrupted character must not become
/// the `*` delimiter and must change its checksum byte (for the ASCII
/// repertoire of the protocol, any different character does).
pub proof fn lemma_corrupted_payload_fails_checksum(s: Seq<char>, j: int, c: char)
    requires
        spec_parse_sentence(s) is Ok,
        1 <= j < 1 + star_index(s),
        char_byte(c) != char_byte(s[j]),
        c != '*',
    ensures
        spec_parse_sentence(s.update(j, c)) == Err::<SentenceView, Error>(Error::ChecksumMismatch),
{
    lemma_decode_succeeds_iff_valid(s);
    let s2 = s.update(j, c);
    let body = sentence_body(s);
    let star = star_index(s);
    lemma_scan_to(body, 0, '*');
    let body2 = sentence_body(s2);
    assert(body2 =~= body.update(j - 1, c));
    assert(body2[star] == '*');
    assert(forall|k: int| 0 <= k < star ==> body2[k] != '*');
    lemma_scan_to_exact(body2, 0, '*', star);
    let payload = checksummed_payload(s);
    let payload2 = body2.subrange(0, star);
    assert(payload2 =~= payload.update(j - 1, c));
    assert(after_star(s2) =~= after_star(s));
    lemma_checksum_update(payload, j - 1, c);
    assert(payload[j - 1] == s[j]);
    lemma_xor_cancel(spec_checksum(payload), char_byte(s[j]), char_byte(c));
    assert(s2[0] == s[0]);
}

/// Decoding is a pure function of the input text: any two successful
/// decodes of the same text carry equal records, deep equality taken
/// through the views.
pub proof fn lemma_decode_deterministic(s: Seq<char>, v1: SentenceView, v2: SentenceView)
    requires
        spec_parse_sentence(s) == Ok::<SentenceView, Error>(v1),
        spec_parse_sentence(s) == Ok::<SentenceView, Error>(v2),
    ensures
        v1 == v2,
{
}

/// An empty optional token reads as "absent", never as zero, nor as
/// any other default value, whichever optional field grammar reads it.
pub proof fn lemma_empty_token_absent(s: Seq<char>)
    requires
        s.len() > 0,
        s[0] == ',',
    ensures
        spec_parse_float(s) == Ok::<_, Error>((s.subrange(1, s.len() as int), None::<Decimal>)),
        spec_parse_u8(s) == Ok::<_, Error>((s.subrange(1, s.len() as int), None::<u8>)),
        spec_parse_time(s) == Ok::<_, Error>((s.subrange(1, s.len() as int), None::<Time>)),
        spec_parse_date(s) == Ok::<_, Error>((s.subrange(1, s.len() as int), None::<Date>)),
        spec_parse_degree(s) == Ok::<_, Error>((s.subrange(1, s.len() as int), None::<Degree>)),
        spec_parse_meter(s) == Ok::<_, Error>((s.subrange(1, s.len() as int), None::<Meter>)),
{
    assert(scan_to(s, 0, ',') == 0);
    assert(s.subrange(0, 0) =~= Seq::<char>::empty());
}

} // verus!
