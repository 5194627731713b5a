use vstd::prelude::*;

use crate::error::Error;
use crate::number::{
    lemma_norm_preserves_value, lemma_pow10_pos, pow10, spec_decimal, Decimal,
    MAX_FRACTION_DIGITS,
};
use crate::parser_utils::{
    code_char, parse_float, spec_code_char, spec_parse_float, step_eq,
};

verus! {

/// Angle
#[derive(Debug, Clone, Copy, PartialEq, Eq)]
pub struct Degree(pub Decimal);

/// 1/60th of a Degree
#[derive(Debug, Clone, Copy, PartialEq, Eq)]
pub struct Minute(pub Decimal);

/// 1/60th of a Minute
#[derive(Debug, Clone, Copy, PartialEq, Eq)]
pub struct Second(pub Decimal);

/// The base unit of length in the International System of Units (SI)
#[derive(Debug, Clone, Copy, PartialEq, Eq)]
pub struct Meter(pub Decimal);

/// The decimal shifted two places right: its value divided by one
/// hundred, back in lowest form.
pub open spec fn spec_div100(d: Decimal) -> Decimal {
    spec_decimal(d.negative, d.digits as nat, d.scale as nat + 2)
}

/// The shift is exact division by one hundred: the shifted decimal's
/// digits, scaled back up by the ten-powers its scale lost against the
/// original scale plus two, give the original digits unchanged. So
/// `4717.11399` and its hundredth `47.1711399` carry the same digit
/// string, and only the point moved.
pub proof fn lemma_div100_exact(d: Decimal)
    requires
        d.scale <= u32::MAX - 2,
    ensures
        spec_div100(d).scale <= d.scale + 2,
        spec_div100(d).digits * pow10(
            (d.scale + 2 - spec_div100(d).scale) as nat,
        ) == d.digits,
{
    let m = d.digits as nat;
    let s2 = d.scale as nat + 2;
    lemma_norm_preserves_value(m, s2);
    let n = crate::number::spec_norm(m, s2);
    let k = (s2 - n.1) as nat;
    lemma_pow10_pos(k);
    assert(n.0 * pow10(k) >= n.0 * 1) by (nonlinear_arith)
        requires
            pow10(k) >= 1,
    ;
}

/// Meaning of an optional packed-angle field: the numeric token with
/// its decimal point moved two places left, so `4717.11399` reads as
/// `47.1711399` whole degrees.
pub open spec fn spec_parse_degree(s: Seq<char>) -> Result<(Seq<char>, Option<Degree>), Error> {
    match spec_parse_float(s) {
        Ok((rest, Some(d))) => Ok((rest, Some(Degree(spec_div100(d))))),
        Ok((rest, None)) => Ok((rest, None)),
        Err(e) => Err(e),
    }
}

/// Reads an optional packed-angle field into whole decimal degrees.
pub fn parse_degree(input: &str) -> (r: Result<(&str, Option<Degree>), Error>)
    ensures
        step_eq(r, spec_parse_degree(input@)),
{
    match parse_float(input) {
        Ok((rest, Some(d))) => {
            assert(d.scale + 2 <= MAX_FRACTION_DIGITS + 2);
            let shifted = Decimal::from_parts(d.negative, d.digits, d.scale + 2);
            Ok((rest, Some(Degree(shifted))))
        },
        Ok((rest, None)) => Ok((rest, None)),
        Err(e) => Err(e),
    }
}

/// Meaning of an optional plain-angle field, in degrees as written.
pub open spec fn spec_parse_raw_degree(s: Seq<char>) -> Result<(Seq<char>, Option<Degree>), Error> {
    match spec_parse_float(s) {
        Ok((rest, Some(d))) => Ok((rest, Some(Degree(d)))),
        Ok((rest, None)) => Ok((rest, None)),
        Err(e) => Err(e),
    }
}

/// Reads an optional plain-angle field, in degrees as written.
pub fn parse_raw_degree(input: &str) -> (r: Result<(&str, Option<Degree>), Error>)
    ensures
        step_eq(r, spec_parse_raw_degree(input@)),
{
    match parse_float(input) {
        Ok((rest, Some(d))) => Ok((rest, Some(Degree(d)))),
        Ok((rest, None)) => Ok((rest, None)),
        Err(e) => Err(e),
    }
}

/// Meaning of an optional angle-minutes field.
pub open spec fn spec_parse_minute(s: Seq<char>) -> Result<(Seq<char>, Option<Minute>), Error> {
    match spec_parse_float(s) {
        Ok((rest, Some(d))) => Ok((rest, Some(Minute(d)))),
        Ok((rest, None)) => Ok((rest, None)),
        Err(e) => Err(e),
    }
}

/// Reads an optional angle-minutes field.
pub fn parse_minute(input: &str) -> (r: Result<(&str, Option<Minute>), Error>)
    ensures
        step_eq(r, spec_parse_minute(input@)),
{
    match parse_float(input) {
        Ok((rest, Some(d))) => Ok((rest, Some(Minute(d)))),
        Ok((rest, None)) => Ok((rest, None)),
        Err(e) => Err(e),
    }
}

/// Meaning of an optional seconds field.
pub open spec fn spec_parse_second(s: Seq<char>) -> Result<(Seq<char>, Option<Second>), Error> {
    match spec_parse_float(s) {
        Ok((rest, Some(d))) => Ok((rest, Some(Second(d)))),
        Ok((rest, None)) => Ok((rest, None)),
        Err(e) => Err(e),
    }
}

/// Reads an optional seconds field.
pub fn parse_second(input: &str) -> (r: Result<(&str, Option<Second>), Error>)
    ensures
        step_eq(r, spec_parse_second(input@)),
{
    match parse_float(input) {
        Ok((rest, Some(d))) => Ok((rest, Some(Second(d)))),
        Ok((rest, None)) => Ok((rest, None)),
        Err(e) => Err(e),
    }
}

/// Meaning of an optional length field, in meters.
pub open spec fn spec_parse_meter(s: Seq<char>) -> Result<(Seq<char>, Option<Meter>), Error> {
    match spec_parse_float(s) {
        Ok((rest, Some(d))) => Ok((rest, Some(Meter(d)))),
        Ok((rest, None)) => Ok((rest, None)),
        Err(e) => Err(e),
    }
}

/// Reads an optional length field, in meters.
pub fn parse_meter(input: &str) -> (r: Result<(&str, Option<Meter>), Error>)
    ensures
        step_eq(r, spec_parse_meter(input@)),
{
    match parse_float(input) {
        Ok((rest, Some(d))) => Ok((rest, Some(Meter(d)))),
        Ok((rest, None)) => Ok((rest, None)),
        Err(e) => Err(e),
    }
}

/// Reads an optional length field standing last in its sentence.
pub fn parse_last_meter(input: &str) -> (r: Result<(&str, Option<Meter>), Error>)
    ensures
        step_eq(r, spec_parse_meter(input@)),
{
    parse_meter(input)
}

/// Meaning of the fixed meters unit marker: one `M`, with its trailing
/// comma consumed when one is present.
pub open spec fn spec_ensure_meter(s: Seq<char>) -> Result<(Seq<char>, ()), Error> {
    match spec_code_char(s) {
        Err(e) => Err(e),
        Ok((rest, c)) => if c == 'M' {
            Ok((rest, ()))
        } else {
            Err(Error::InvalidUnitMarker)
        },
    }
}

/// Consumes the fixed `M` meters unit marker.
pub fn ensure_meter(input: &str) -> (r: Result<(&str, ()), Error>)
    ensures
        step_eq(r, spec_ensure_meter(input@)),
{
    let (rest, c) = match code_char(input) {
        Ok(p) => p,
        Err(e) => { return Err(e); },
    };
    if c == 'M' {
        Ok((rest, ()))
    } else {
        Err(Error::InvalidUnitMarker)
    }
}

/// Meaning of reading `n` more residual fields in a row.
pub open spec fn spec_parse_residuals_n(s: Seq<char>, n: nat) -> Result<
    (Seq<char>, Seq<Option<Meter>>),
    Error,
>
    decreases n,
{
    if n == 0 {
        Ok((s, Seq::empty()))
    } else {
        match spec_parse_meter(s) {
            Err(e) => Err(e),
            Ok((r1, v)) => match spec_parse_residuals_n(r1, (n - 1) as nat) {
                Err(e) => Err(e),
                Ok((r2, vs)) => Ok((r2, seq![v] + vs)),
            },
        }
    }
}

/// Meaning of the residual list: exactly twelve length fields, the
/// trailing ones empty when fewer residuals are reported.
pub open spec fn spec_parse_residuals(s: Seq<char>) -> Result<
    (Seq<char>, Seq<Option<Meter>>),
    Error,
> {
    spec_parse_residuals_n(s, 12)
}

/// Reads the twelve-slot residual list.
#[verifier::loop_isolation(false)]
pub fn parse_residuals(input: &str) -> (r: Result<(&str, Vec<Option<Meter>>), Error>)
    ensures
        match r {
            Ok((rem, v)) => spec_parse_residuals(input@) == Ok::<_, Error>((rem@, v@)) && v@.len()
                == 12,
            Err(e) => spec_parse_residuals(input@) == Err::<(Seq<char>, Seq<Option<Meter>>), _>(e),
        },
{
    let mut out: Vec<Option<Meter>> = Vec::new();
    let mut rest: &str = input;
    let mut i: usize = 0;
    proof {
        if spec_parse_residuals_n(input@, 12) is Ok {
            assert(Seq::<Option<Meter>>::empty() + spec_parse_residuals_n(input@, 12)->Ok_0.1
                =~= spec_parse_residuals_n(input@, 12)->Ok_0.1);
        }
    }
    while i < 12
        invariant
            0 <= i <= 12,
            out@.len() == i,
            match spec_parse_residuals_n(rest@, (12 - i) as nat) {
                Ok((fr, fv)) => spec_parse_residuals_n(input@, 12) == Ok::<_, Error>(
                    (fr, out@ + fv),
                ),
                Err(e) => spec_parse_residuals_n(input@, 12) == Err::<
                    (Seq<char>, Seq<Option<Meter>>),
                    _,
                >(e),
            },
        decreases 12 - i,
    {
        let (r1, v) = match parse_meter(rest) {
            Ok(p) => p,
            Err(e) => { return Err(e); },
        };
        proof {
            let tail = spec_parse_residuals_n(r1@, (12 - i - 1) as nat);
            assert(spec_parse_residuals_n(rest@, (12 - i) as nat) == (match tail {
                Err(e) => Err::<(Seq<char>, Seq<Option<Meter>>), Error>(e),
                Ok((r2, vs)) => Ok::<(Seq<char>, Seq<Option<Meter>>), Error>((r2, seq![v] + vs)),
            }));
        }
        let ghost out_old = out@;
        out.push(v);
        proof {
            let tail = spec_parse_residuals_n(r1@, (12 - i - 1) as nat);
            if tail is Ok {
                assert(out@ =~= out_old + seq![v]);
                assert(out_old + (seq![v] + tail->Ok_0.1) =~= (out_old + seq![v])
                    + tail->Ok_0.1);
            }
        }
        rest = r1;
        i = i + 1;
    }
    proof {
        assert(out@ + Seq::<Option<Meter>>::empty() =~= out@);
    }
    Ok((rest, out))
}

} // verus!
