use vstd::prelude::*;
use vstd::string::StrSliceExecFns;

use crate::error::Error;
use crate::number::{
    find_char, lemma_scan_to, parse_number_token, parse_uint_token, scan_to, spec_number_token,
    spec_uint_token, Decimal,
};

verus! {

/// Splits `s` at its first comma: the token before it, and the rest
/// after it. With no comma the whole of `s` is the token (only the
/// last field of a sentence may omit its terminator).
pub open spec fn spec_token(s: Seq<char>) -> (Seq<char>, Seq<char>) {
    let e = scan_to(s, 0, ',');
    (
        s.subrange(0, e),
        if e < s.len() {
            s.subrange(e + 1, s.len() as int)
        } else {
            Seq::empty()
        },
    )
}

/// `s` without its first character when that character is `c`.
pub open spec fn spec_skip_sep(c: char, s: Seq<char>) -> Seq<char> {
    if s.len() > 0 && s[0] == c {
        s.subrange(1, s.len() as int)
    } else {
        s
    }
}

/// The step result `r` (rest of the input, then the value) is the one
/// the grammar gives, value compared directly.
pub open spec fn step_eq<T>(r: Result<(&str, T), Error>, s: Result<(Seq<char>, T), Error>) -> bool {
    match r {
        Ok((rem, v)) => s is Ok && s->Ok_0.0 == rem@ && s->Ok_0.1 == v,
        Err(e) => s is Err && s->Err_0 == e,
    }
}

/// The step result `r` is the one the grammar gives, value compared
/// through its view.
pub open spec fn step_view<T: View>(
    r: Result<(&str, T), Error>,
    s: Result<(Seq<char>, <T as View>::V), Error>,
) -> bool {
    match r {
        Ok((rem, v)) => s is Ok && s->Ok_0.0 == rem@ && s->Ok_0.1 == v@,
        Err(e) => s is Err && s->Err_0 == e,
    }
}

/// Meaning of reading one raw field: the token up to the next comma.
/// An empty buffer has no field left.
pub open spec fn spec_parse_string(s: Seq<char>) -> Result<(Seq<char>, Seq<char>), Error> {
    if s.len() == 0 {
        Err(Error::MissingField)
    } else {
        let (tok, rest) = spec_token(s);
        Ok((rest, tok))
    }
}

/// Reads one raw field up to (and past) the next comma; with no comma
/// left, the rest of the buffer is the field.
pub fn parse_string(input: &str) -> (r: Result<(&str, &str), Error>)
    ensures
        step_view(r, spec_parse_string(input@)),
{
    let n = input.unicode_len();
    if n == 0 {
        return Err(Error::MissingField);
    }
    proof {
        lemma_scan_to(input@, 0, ',');
    }
    let e = find_char(input, ',');
    let tok = input.substring_char(0, e);
    let rest = if e < n {
        input.substring_char(e + 1, n)
    } else {
        input.substring_char(n, n)
    };
    proof {
        assert(tok@ =~= spec_token(input@).0);
        assert(rest@ =~= spec_token(input@).1);
    }
    Ok((rest, tok))
}

/// Meaning of reading the closing field: the whole remaining buffer.
pub open spec fn spec_parse_last_string(s: Seq<char>) -> Result<(Seq<char>, Seq<char>), Error> {
    Ok((Seq::empty(), s))
}

/// Takes the whole remaining buffer as the closing field.
pub fn parse_last_string(input: &str) -> (r: Result<(&str, &str), Error>)
    ensures
        step_view(r, spec_parse_last_string(input@)),
{
    let n = input.unicode_len();
    let rest = input.substring_char(n, n);
    proof {
        assert(rest@ =~= Seq::<char>::empty());
    }
    Ok((rest, input))
}

/// Hands `result` through, consuming a leading `separator` if one is next.
pub fn remove_separator_if_next<T>(separator: char, input: &str, result: T) -> (r: (&str, T))
    ensures
        r.1 == result,
        r.0@ == spec_skip_sep(separator, input@),
{
    let n = input.unicode_len();
    if n > 0 && input.get_char(0) == separator {
        let rest = input.substring_char(1, n);
        proof {
            assert(rest@ =~= spec_skip_sep(separator, input@));
        }
        (rest, result)
    } else {
        (input, result)
    }
}

/// Reading a field off a non-empty buffer always consumes something.
pub proof fn lemma_token_rest_shorter(s: Seq<char>)
    requires
        s.len() > 0,
    ensures
        spec_token(s).1.len() < s.len(),
{
    lemma_scan_to(s, 0, ',');
}

/// A number field read with success came off a non-empty buffer and
/// left a strictly shorter one.
pub proof fn lemma_parse_u8_consumes(s: Seq<char>)
    ensures
        spec_parse_u8(s) matches Ok((rest, _)) ==> s.len() > 0 && rest.len() < s.len(),
{
    if s.len() > 0 {
        lemma_token_rest_shorter(s);
    }
}

/// As for one-byte fields: success leaves a strictly shorter buffer.
pub proof fn lemma_parse_u16_consumes(s: Seq<char>)
    ensures
        spec_parse_u16(s) matches Ok((rest, _)) ==> s.len() > 0 && rest.len() < s.len(),
{
    if s.len() > 0 {
        lemma_token_rest_shorter(s);
    }
}

/// Meaning of one mandatory fixed-code field: exactly one leading
/// character, with its trailing comma consumed when one is present.
/// An empty buffer or an empty field is a missing code.
pub open spec fn spec_code_char(s: Seq<char>) -> Result<(Seq<char>, char), Error> {
    if s.len() == 0 || s[0] == ',' {
        Err(Error::MissingField)
    } else {
        Ok((spec_skip_sep(',', s.subrange(1, s.len() as int)), s[0]))
    }
}

/// Reads the single character of a mandatory fixed-code field.
pub fn code_char(input: &str) -> (r: Result<(&str, char), Error>)
    ensures
        step_eq(r, spec_code_char(input@)),
{
    let n = input.unicode_len();
    if n == 0 {
        return Err(Error::MissingField);
    }
    let c = input.get_char(0);
    if c == ',' {
        return Err(Error::MissingField);
    }
    let tail = input.substring_char(1, n);
    proof {
        assert(tail@ =~= input@.subrange(1, input@.len() as int));
    }
    let (rest, v) = remove_separator_if_next(',', tail, c);
    Ok((rest, v))
}

/// Meaning of one optional fixed-code field: an empty field (its comma
/// alone) is absent; otherwise as the mandatory form.
pub open spec fn spec_maybe_code_char(s: Seq<char>) -> Result<(Seq<char>, Option<char>), Error> {
    if s.len() == 0 {
        Err(Error::MissingField)
    } else if s[0] == ',' {
        Ok((s.subrange(1, s.len() as int), None))
    } else {
        Ok((spec_skip_sep(',', s.subrange(1, s.len() as int)), Some(s[0])))
    }
}

/// Reads the single character of an optional fixed-code field.
pub fn maybe_code_char(input: &str) -> (r: Result<(&str, Option<char>), Error>)
    ensures
        step_eq(r, spec_maybe_code_char(input@)),
{
    let n = input.unicode_len();
    if n == 0 {
        return Err(Error::MissingField);
    }
    let c = input.get_char(0);
    let tail = input.substring_char(1, n);
    proof {
        assert(tail@ =~= input@.subrange(1, input@.len() as int));
    }
    if c == ',' {
        return Ok((tail, None));
    }
    let (rest, v) = remove_separator_if_next(',', tail, Some(c));
    Ok((rest, v))
}

/// Meaning of one optional numeric field: an empty token is absent,
/// a well-formed number is its exact decimal value, and anything else
/// is a hard failure.
pub open spec fn spec_parse_float(s: Seq<char>) -> Result<(Seq<char>, Option<Decimal>), Error> {
    if s.len() == 0 {
        Err(Error::MissingField)
    } else {
        let (tok, rest) = spec_token(s);
        if tok.len() == 0 {
            Ok((rest, None))
        } else {
            match spec_number_token(tok) {
                Some(d) => Ok((rest, Some(d))),
                None => Err(Error::InvalidNumericField),
            }
        }
    }
}

/// Reads one optional numeric field as an exact decimal.
pub fn parse_float(input: &str) -> (r: Result<(&str, Option<Decimal>), Error>)
    ensures
        step_eq(r, spec_parse_float(input@)),
        r matches Ok((_, Some(d))) ==> crate::number::decimal_is_normal(d) && d.scale
            <= crate::number::MAX_FRACTION_DIGITS,
{
    let (rest, tok) = match parse_string(input) {
        Ok(p) => p,
        Err(e) => { return Err(e); },
    };
    if tok.unicode_len() == 0 {
        return Ok((rest, None));
    }
    match parse_number_token(tok) {
        Some(d) => Ok((rest, Some(d))),
        None => Err(Error::InvalidNumericField),
    }
}

/// Meaning of one optional unsigned integer field with ceiling `max`.
pub open spec fn spec_parse_uint(s: Seq<char>, max: nat) -> Result<(Seq<char>, Option<nat>), Error> {
    if s.len() == 0 {
        Err(Error::MissingField)
    } else {
        let (tok, rest) = spec_token(s);
        if tok.len() == 0 {
            Ok((rest, None))
        } else {
            match spec_uint_token(tok) {
                Some(v) => if v <= max {
                    Ok((rest, Some(v)))
                } else {
                    Err(Error::InvalidNumericField)
                },
                None => Err(Error::InvalidNumericField),
            }
        }
    }
}

/// Meaning of one optional one-byte integer field.
pub open spec fn spec_parse_u8(s: Seq<char>) -> Result<(Seq<char>, Option<u8>), Error> {
    match spec_parse_uint(s, u8::MAX as nat) {
        Ok((rest, Some(v))) => Ok((rest, Some(v as u8))),
        Ok((rest, None)) => Ok((rest, None)),
        Err(e) => Err(e),
    }
}

/// Reads one optional one-byte integer field.
pub fn parse_u8(input: &str) -> (r: Result<(&str, Option<u8>), Error>)
    ensures
        step_eq(r, spec_parse_u8(input@)),
{
    let (rest, tok) = match parse_string(input) {
        Ok(p) => p,
        Err(e) => { return Err(e); },
    };
    if tok.unicode_len() == 0 {
        return Ok((rest, None));
    }
    match parse_uint_token(tok, u8::MAX as u64) {
        Some(v) => Ok((rest, Some(v as u8))),
        None => Err(Error::InvalidNumericField),
    }
}

/// Meaning of one optional two-byte integer field.
pub open spec fn spec_parse_u16(s: Seq<char>) -> Result<(Seq<char>, Option<u16>), Error> {
    match spec_parse_uint(s, u16::MAX as nat) {
        Ok((rest, Some(v))) => Ok((rest, Some(v as u16))),
        Ok((rest, None)) => Ok((rest, None)),
        Err(e) => Err(e),
    }
}

/// Reads one optional two-byte integer field.
pub fn parse_u16(input: &str) -> (r: Result<(&str, Option<u16>), Error>)
    ensures
        step_eq(r, spec_parse_u16(input@)),
{
    let (rest, tok) = match parse_string(input) {
        Ok(p) => p,
        Err(e) => { return Err(e); },
    };
    if tok.unicode_len() == 0 {
        return Ok((rest, None));
    }
    match parse_uint_token(tok, u16::MAX as u64) {
        Some(v) => Ok((rest, Some(v as u16))),
        None => Err(Error::InvalidNumericField),
    }
}

} // verus!
