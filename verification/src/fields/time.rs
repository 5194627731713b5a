use vstd::prelude::*;
use vstd::arithmetic::div_mod::lemma_div_is_ordered;
use vstd::string::StrSliceExecFns;

use crate::error::Error;
use crate::number::{all_digits, digits_val, find_char, lemma_scan_to, scan_digits, scan_to};
use crate::parser_utils::{parse_string, spec_parse_string, spec_token, step_eq};

verus! {

/// A time of day, to the millisecond.
#[derive(Debug, Clone, Copy, PartialEq, Eq)]
pub struct Time {
    pub hour: u8,
    pub minute: u8,
    pub second: u8,
    pub millisecond: u16,
}

/// A calendar date. The wire format carries a two-digit year, read as
/// the years 2000 through 2099; the century is a policy choice the
/// format itself leaves open.
#[derive(Debug, Clone, Copy, PartialEq, Eq)]
pub struct Date {
    pub year: u16,
    pub month: u8,
    pub day: u8,
}

/// The time of day that the packed hour-minute-second value `v`
/// (digits HHMMSS read as one number) and millisecond count `ms`
/// stand for; `None` when a component is out of range.
pub open spec fn spec_time_of(v: nat, ms: nat) -> Option<Time> {
    let h = v / 10000;
    let mi = (v / 100) % 100;
    let sec = v % 100;
    if h <= 23 && mi <= 59 && sec <= 59 && ms <= 999 {
        Some(
            Time {
                hour: h as u8,
                minute: mi as u8,
                second: sec as u8,
                millisecond: ms as u16,
            },
        )
    } else {
        None
    }
}

/// Meaning of one time token: digits `HHMMSS`, with an optional point
/// and a fraction in hundredths of a second. `None` when malformed or
/// out of range.
pub open spec fn spec_time_token(tok: Seq<char>) -> Option<Time> {
    let dot = scan_to(tok, 0, '.');
    let hms = tok.subrange(0, dot);
    if hms.len() == 0 || !all_digits(hms) {
        None
    } else if dot < tok.len() {
        let frac = tok.subrange(dot + 1, tok.len() as int);
        if frac.len() == 0 || !all_digits(frac) || digits_val(frac) > 99 {
            None
        } else {
            spec_time_of(digits_val(hms), digits_val(frac) * 10)
        }
    } else {
        spec_time_of(digits_val(hms), 0)
    }
}

/// Meaning of an optional time-of-day field.
pub open spec fn spec_parse_time(s: Seq<char>) -> Result<(Seq<char>, Option<Time>), Error> {
    if s.len() == 0 {
        Err(Error::MissingField)
    } else {
        let (tok, rest) = spec_token(s);
        if tok.len() == 0 {
            Ok((rest, None))
        } else {
            match spec_time_token(tok) {
                Some(t) => Ok((rest, Some(t))),
                None => Err(Error::InvalidTimeField),
            }
        }
    }
}

/// Reads an optional `HHMMSS` or `HHMMSS.ss` time-of-day field.
pub fn parse_time(input: &str) -> (r: Result<(&str, Option<Time>), Error>)
    ensures
        step_eq(r, spec_parse_time(input@)),
{
    let (rest, tok) = match parse_string(input) {
        Ok(p) => p,
        Err(e) => { return Err(e); },
    };
    let tn = tok.unicode_len();
    if tn == 0 {
        return Ok((rest, None));
    }
    proof {
        lemma_scan_to(tok@, 0, '.');
    }
    let dot = find_char(tok, '.');
    if dot == 0 {
        return Err(Error::InvalidTimeField);
    }
    let ghost hms = tok@.subrange(0, dot as int);
    let hv = match scan_digits(tok, 0, dot, 0) {
        Some(v) => v,
        None => {
            proof {
                if all_digits(hms) {
                    // the digits outrun the machine word, so the hour
                    // is far out of range
                    lemma_div_is_ordered(240000, digits_val(hms) as int, 10000);
                }
            }
            return Err(Error::InvalidTimeField);
        },
    };
    let ms: u64 = if dot < tn {
        let fs = dot + 1;
        if fs == tn {
            return Err(Error::InvalidTimeField);
        }
        let ghost frac = tok@.subrange(fs as int, tn as int);
        let fv = match scan_digits(tok, fs, tn, 0) {
            Some(v) => v,
            None => { return Err(Error::InvalidTimeField); },
        };
        if fv > 99 {
            return Err(Error::InvalidTimeField);
        }
        fv * 10
    } else {
        0
    };
    let h = hv / 10000;
    let mi = (hv / 100) % 100;
    let sec = hv % 100;
    if h > 23 || mi > 59 || sec > 59 {
        return Err(Error::InvalidTimeField);
    }
    Ok(
        (
            rest,
            Some(
                Time {
                    hour: h as u8,
                    minute: mi as u8,
                    second: sec as u8,
                    millisecond: ms as u16,
                },
            ),
        ),
    )
}

/// The date that the packed day-month-year value `v` (digits DDMMYY
/// read as one number) stands for, in the years 2000 through 2099;
/// `None` when the day or month is out of range.
pub open spec fn spec_date_of(v: nat) -> Option<Date> {
    let day = v / 10000;
    let month = (v / 100) % 100;
    let year = v % 100;
    if 1 <= day <= 31 && 1 <= month <= 12 {
        Some(Date { year: (2000 + year) as u16, month: month as u8, day: day as u8 })
    } else {
        None
    }
}

/// Meaning of one date token: six digits `DDMMYY`. `None` when
/// malformed or out of range.
pub open spec fn spec_date_token(tok: Seq<char>) -> Option<Date> {
    if !all_digits(tok) {
        None
    } else {
        spec_date_of(digits_val(tok))
    }
}

/// Meaning of an optional date field.
pub open spec fn spec_parse_date(s: Seq<char>) -> Result<(Seq<char>, Option<Date>), Error> {
    if s.len() == 0 {
        Err(Error::MissingField)
    } else {
        let (tok, rest) = spec_token(s);
        if tok.len() == 0 {
            Ok((rest, None))
        } else {
            match spec_date_token(tok) {
                Some(d) => Ok((rest, Some(d))),
                None => Err(Error::InvalidDateField),
            }
        }
    }
}

/// Reads an optional `DDMMYY` date field.
pub fn parse_date(input: &str) -> (r: Result<(&str, Option<Date>), Error>)
    ensures
        step_eq(r, spec_parse_date(input@)),
{
    let (rest, tok) = match parse_string(input) {
        Ok(p) => p,
        Err(e) => { return Err(e); },
    };
    let tn = tok.unicode_len();
    if tn == 0 {
        return Ok((rest, None));
    }
    let ghost whole = tok@.subrange(0, tn as int);
    proof {
        assert(whole =~= tok@);
    }
    let v = match scan_digits(tok, 0, tn, 0) {
        Some(v) => v,
        None => {
            proof {
                if all_digits(tok@) {
                    // the digits outrun the machine word, so the day
                    // is far out of range
                    lemma_div_is_ordered(320000, digits_val(tok@) as int, 10000);
                }
            }
            return Err(Error::InvalidDateField);
        },
    };
    let day = v / 10000;
    let month = (v / 100) % 100;
    let year = v % 100;
    if day < 1 || day > 31 || month < 1 || month > 12 {
        return Err(Error::InvalidDateField);
    }
    Ok((rest, Some(Date { year: 2000 + year as u16, month: month as u8, day: day as u8 })))
}

} // verus!
