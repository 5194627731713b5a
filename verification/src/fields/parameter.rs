use vstd::prelude::*;
use vstd::string::StrSliceExecFns;

use crate::error::Error;
use crate::number::{find_char, lemma_scan_to, scan_to, Decimal};
use crate::parser_utils::{
    code_char, maybe_code_char, parse_float, spec_code_char, spec_maybe_code_char,
    spec_parse_float, step_eq,
};

verus! {

/// GPS quality indicator
#[derive(Debug, Clone, Copy, PartialEq, Eq)]
pub enum Fix {
    /// Fix not valid
    NoFix,
    /// GPS Fix
    AutonomousGNSSFix,
    /// Differential GPS fix
    DifferentialGNSSFix,
    /// Real-Time Kinematic, fixed integers
    RTKFixed,
    /// Real-Time Kinematic, float integers
    RTKFloat,
    /// Dead reckoning fix
    EstimatedOrDeadReckoningFix,
}

/// Defines if the provided data is valid or not.
#[derive(Debug, Clone, Copy, PartialEq, Eq)]
pub enum Status {
    DataInvalid,
    DataValid,
}

/// Defines if the device can switch 2D or 3D mode
#[derive(Debug, Clone, Copy, PartialEq, Eq)]
pub enum OperationMode {
    /// Manual: forced to operate in 2D or 3D mode
    Manual,
    /// Automatic: allowed to automatically switch 2D/3D
    Automatic,
}

/// How the range residuals of a satellite-fault message were computed.
#[derive(Debug, Clone, Copy, PartialEq, Eq)]
pub enum ComputationMethod {
    /// The residuals were used to compute the reported position
    InGGA,
    /// The residuals were recomputed after the position
    AfterGGA,
}

/// Defines if a Fix has been used
#[derive(Debug, Clone, Copy, PartialEq, Eq)]
pub enum NavigationMode {
    /// No fix available
    FixNo,
    /// Fix from fewer than four satellites, with an assumed altitude
    Fix2D,
    /// Fix from four or more satellites
    Fix3D,
}

/// How accurate the navigation data is, and whether it is safe to use.
#[derive(Debug, Clone, Copy, PartialEq, Eq)]
pub enum NavigationalStatus {
    Safe,
    Caution,
    Unsafe,
    NotValid,
}

/// The sentence type is defined in the first character of a sentence.
#[derive(Debug, Clone, Copy, PartialEq, Eq)]
pub enum SentenceType {
    /// Conventional field-delimited messages
    Parametric,
    /// Messages with special encapsulation in them
    Encapsulation,
}

/// Text transmission emergency level
#[derive(Debug, Clone, Copy, PartialEq, Eq)]
pub enum MessageLevel {
    Error,
    Warning,
    Notice,
    User,
}

/// Carrier-to-noise-density ratio, in dB-Hz.
#[derive(Debug, Clone, Copy, PartialEq, Eq)]
pub struct DBHZ(pub Decimal);

/// Meaning of a mandatory data-validity field.
pub open spec fn spec_parse_status(s: Seq<char>) -> Result<(Seq<char>, Status), Error> {
    match spec_code_char(s) {
        Err(e) => Err(e),
        Ok((rest, c)) => if c == 'V' {
            Ok((rest, Status::DataInvalid))
        } else if c == 'A' {
            Ok((rest, Status::DataValid))
        } else {
            Err(Error::InvalidEnumField)
        },
    }
}

/// Reads a mandatory data-validity field (`A` valid, `V` invalid).
pub fn parse_status(input: &str) -> (r: Result<(&str, Status), Error>)
    ensures
        step_eq(r, spec_parse_status(input@)),
{
    let (rest, c) = match code_char(input) {
        Ok(p) => p,
        Err(e) => { return Err(e); },
    };
    if c == 'V' {
        Ok((rest, Status::DataInvalid))
    } else if c == 'A' {
        Ok((rest, Status::DataValid))
    } else {
        Err(Error::InvalidEnumField)
    }
}

/// The fix quality a numeric quality code stands for.
pub open spec fn spec_quality_code(c: char) -> Option<Fix> {
    if c == '0' {
        Some(Fix::NoFix)
    } else if c == '1' {
        Some(Fix::AutonomousGNSSFix)
    } else if c == '2' {
        Some(Fix::DifferentialGNSSFix)
    } else if c == '4' {
        Some(Fix::RTKFixed)
    } else if c == '5' {
        Some(Fix::RTKFloat)
    } else if c == '6' {
        Some(Fix::EstimatedOrDeadReckoningFix)
    } else {
        None
    }
}

/// Meaning of a mandatory numeric fix-quality field.
pub open spec fn spec_parse_quality(s: Seq<char>) -> Result<(Seq<char>, Fix), Error> {
    match spec_code_char(s) {
        Err(e) => Err(e),
        Ok((rest, c)) => match spec_quality_code(c) {
            Some(q) => Ok((rest, q)),
            None => Err(Error::InvalidEnumField),
        },
    }
}

/// Reads a mandatory numeric fix-quality field (`0`-`2`, `4`-`6`).
pub fn parse_quality(input: &str) -> (r: Result<(&str, Fix), Error>)
    ensures
        step_eq(r, spec_parse_quality(input@)),
{
    let (rest, c) = match code_char(input) {
        Ok(p) => p,
        Err(e) => { return Err(e); },
    };
    let q = if c == '0' {
        Fix::NoFix
    } else if c == '1' {
        Fix::AutonomousGNSSFix
    } else if c == '2' {
        Fix::DifferentialGNSSFix
    } else if c == '4' {
        Fix::RTKFixed
    } else if c == '5' {
        Fix::RTKFloat
    } else if c == '6' {
        Fix::EstimatedOrDeadReckoningFix
    } else {
        return Err(Error::InvalidEnumField);
    };
    Ok((rest, q))
}

/// The fix quality a positioning-mode letter stands for.
pub open spec fn spec_pos_mode_code(c: char) -> Option<Fix> {
    if c == 'N' {
        Some(Fix::NoFix)
    } else if c == 'A' {
        Some(Fix::AutonomousGNSSFix)
    } else if c == 'D' {
        Some(Fix::DifferentialGNSSFix)
    } else if c == 'R' {
        Some(Fix::RTKFixed)
    } else if c == 'F' {
        Some(Fix::RTKFloat)
    } else if c == 'E' {
        Some(Fix::EstimatedOrDeadReckoningFix)
    } else {
        None
    }
}

/// Meaning of a mandatory positioning-mode letter field.
pub open spec fn spec_parse_pos_mode(s: Seq<char>) -> Result<(Seq<char>, Fix), Error> {
    match spec_code_char(s) {
        Err(e) => Err(e),
        Ok((rest, c)) => match spec_pos_mode_code(c) {
            Some(q) => Ok((rest, q)),
            None => Err(Error::InvalidEnumField),
        },
    }
}

/// Reads a mandatory positioning-mode letter field (`N A D R F E`).
pub fn parse_pos_mode(input: &str) -> (r: Result<(&str, Fix), Error>)
    ensures
        step_eq(r, spec_parse_pos_mode(input@)),
{
    let (rest, c) = match code_char(input) {
        Ok(p) => p,
        Err(e) => { return Err(e); },
    };
    let q = if c == 'N' {
        Fix::NoFix
    } else if c == 'A' {
        Fix::AutonomousGNSSFix
    } else if c == 'D' {
        Fix::DifferentialGNSSFix
    } else if c == 'R' {
        Fix::RTKFixed
    } else if c == 'F' {
        Fix::RTKFloat
    } else if c == 'E' {
        Fix::EstimatedOrDeadReckoningFix
    } else {
        return Err(Error::InvalidEnumField);
    };
    Ok((rest, q))
}

/// The positioning modes the letters of one field token stand for,
/// front to back; `None` when a letter is not a mode.
pub open spec fn spec_pos_modes_of(tok: Seq<char>) -> Option<Seq<Fix>>
    decreases tok.len(),
{
    if tok.len() == 0 {
        Some(Seq::empty())
    } else {
        match (spec_pos_mode_code(tok[0]), spec_pos_modes_of(tok.subrange(1, tok.len() as int))) {
            (Some(q), Some(qs)) => Some(seq![q] + qs),
            _ => None,
        }
    }
}

/// Meaning of the positioning-mode list field: one letter per
/// navigation system, terminated by a comma (which must be present).
pub open spec fn spec_parse_pos_mode_vec(s: Seq<char>) -> Result<(Seq<char>, Seq<Fix>), Error> {
    let e = scan_to(s, 0, ',');
    if e >= s.len() {
        Err(Error::MissingField)
    } else {
        let tok = s.subrange(0, e);
        let rest = s.subrange(e + 1, s.len() as int);
        match spec_pos_modes_of(tok) {
            Some(qs) => Ok((rest, qs)),
            None => Err(Error::InvalidEnumField),
        }
    }
}

/// Reads the positioning-mode list field, one letter per system.
#[verifier::loop_isolation(false)]
pub fn parse_pos_mode_vec(input: &str) -> (r: Result<(&str, Vec<Fix>), Error>)
    ensures
        match r {
            Ok((rem, v)) => spec_parse_pos_mode_vec(input@) == Ok::<_, Error>((rem@, v@)),
            Err(e) => spec_parse_pos_mode_vec(input@) == Err::<(Seq<char>, Seq<Fix>), _>(e),
        },
{
    let n = input.unicode_len();
    proof {
        lemma_scan_to(input@, 0, ',');
    }
    let e = find_char(input, ',');
    if e >= n {
        return Err(Error::MissingField);
    }
    let rest = input.substring_char(e + 1, n);
    proof {
        assert(rest@ =~= input@.subrange(e as int + 1, input@.len() as int));
    }
    let ghost tok = input@.subrange(0, e as int);
    let mut modes: Vec<Fix> = Vec::new();
    let mut i: usize = 0;
    proof {
        assert(tok.subrange(0, tok.len() as int) =~= tok);
        if spec_pos_modes_of(tok) is Some {
            assert(Seq::<Fix>::empty() + spec_pos_modes_of(tok)->0 =~= spec_pos_modes_of(tok)->0);
        }
    }
    while i < e
        invariant
            0 <= i <= e < n,
            n == input@.len(),
            tok == input@.subrange(0, e as int),
            spec_pos_modes_of(tok) matches Some(qs) ==> (
                spec_pos_modes_of(tok.subrange(i as int, tok.len() as int)) matches Some(ts)
                && qs == modes@ + ts),
            spec_pos_modes_of(tok) is Some <==> spec_pos_modes_of(
                tok.subrange(i as int, tok.len() as int),
            ) is Some,
        decreases e - i,
    {
        let c = input.get_char(i);
        proof {
            assert(tok.subrange(i as int, tok.len() as int)[0] == c);
        }
        let q = if c == 'N' {
            Fix::NoFix
        } else if c == 'A' {
            Fix::AutonomousGNSSFix
        } else if c == 'D' {
            Fix::DifferentialGNSSFix
        } else if c == 'R' {
            Fix::RTKFixed
        } else if c == 'F' {
            Fix::RTKFloat
        } else if c == 'E' {
            Fix::EstimatedOrDeadReckoningFix
        } else {
            return Err(Error::InvalidEnumField);
        };
        proof {
            assert(tok.subrange(i as int, tok.len() as int).subrange(
                1,
                tok.subrange(i as int, tok.len() as int).len() as int,
            ) =~= tok.subrange(i as int + 1, tok.len() as int));
        }
        modes.push(q);
        proof {
            let sub1 = spec_pos_modes_of(tok.subrange(i as int + 1, tok.len() as int));
            if sub1 is Some {
                let ts = sub1->0;
                assert(modes@ + ts =~= modes@.drop_last() + (seq![q] + ts));
            }
        }
        i = i + 1;
    }
    proof {
        assert(tok.subrange(e as int, tok.len() as int) =~= Seq::<char>::empty());
        assert(spec_pos_modes_of(Seq::<char>::empty()) == Some(Seq::<Fix>::empty()));
        if spec_pos_modes_of(tok) is Some {
            let qs = spec_pos_modes_of(tok)->0;
            assert(qs =~= modes@ + Seq::<Fix>::empty());
            assert(qs =~= modes@);
        }
    }
    Ok((rest, modes))
}

/// Meaning of a mandatory operation-mode field.
pub open spec fn spec_parse_operation_mode(s: Seq<char>) -> Result<(Seq<char>, OperationMode), Error> {
    match spec_code_char(s) {
        Err(e) => Err(e),
        Ok((rest, c)) => if c == 'M' {
            Ok((rest, OperationMode::Manual))
        } else if c == 'A' {
            Ok((rest, OperationMode::Automatic))
        } else {
            Err(Error::InvalidEnumField)
        },
    }
}

/// Reads a mandatory operation-mode field (`M` or `A`).
pub fn parse_operation_mode(input: &str) -> (r: Result<(&str, OperationMode), Error>)
    ensures
        step_eq(r, spec_parse_operation_mode(input@)),
{
    let (rest, c) = match code_char(input) {
        Ok(p) => p,
        Err(e) => { return Err(e); },
    };
    if c == 'M' {
        Ok((rest, OperationMode::Manual))
    } else if c == 'A' {
        Ok((rest, OperationMode::Automatic))
    } else {
        Err(Error::InvalidEnumField)
    }
}

/// Meaning of an optional residual computation-method field.
pub open spec fn spec_parse_computation_method(s: Seq<char>) -> Result<
    (Seq<char>, Option<ComputationMethod>),
    Error,
> {
    match spec_maybe_code_char(s) {
        Err(e) => Err(e),
        Ok((rest, None)) => Ok((rest, None)),
        Ok((rest, Some(c))) => if c == '0' {
            Ok((rest, Some(ComputationMethod::InGGA)))
        } else if c == '1' {
            Ok((rest, Some(ComputationMethod::AfterGGA)))
        } else {
            Err(Error::InvalidEnumField)
        },
    }
}

/// Reads an optional residual computation-method field (`0` or `1`).
pub fn parse_computation_method(input: &str) -> (r: Result<
    (&str, Option<ComputationMethod>),
    Error,
>)
    ensures
        step_eq(r, spec_parse_computation_method(input@)),
{
    let (rest, c) = match maybe_code_char(input) {
        Ok(p) => p,
        Err(e) => { return Err(e); },
    };
    match c {
        None => Ok((rest, None)),
        Some(c) => if c == '0' {
            Ok((rest, Some(ComputationMethod::InGGA)))
        } else if c == '1' {
            Ok((rest, Some(ComputationMethod::AfterGGA)))
        } else {
            Err(Error::InvalidEnumField)
        },
    }
}

/// Meaning of a mandatory navigation-mode field.
pub open spec fn spec_parse_navigation_mode(s: Seq<char>) -> Result<
    (Seq<char>, NavigationMode),
    Error,
> {
    match spec_code_char(s) {
        Err(e) => Err(e),
        Ok((rest, c)) => if c == '1' {
            Ok((rest, NavigationMode::FixNo))
        } else if c == '2' {
            Ok((rest, NavigationMode::Fix2D))
        } else if c == '3' {
            Ok((rest, NavigationMode::Fix3D))
        } else {
            Err(Error::InvalidEnumField)
        },
    }
}

/// Reads a mandatory navigation-mode field (`1`, `2` or `3`).
pub fn parse_navigation_mode(input: &str) -> (r: Result<(&str, NavigationMode), Error>)
    ensures
        step_eq(r, spec_parse_navigation_mode(input@)),
{
    let (rest, c) = match code_char(input) {
        Ok(p) => p,
        Err(e) => { return Err(e); },
    };
    if c == '1' {
        Ok((rest, NavigationMode::FixNo))
    } else if c == '2' {
        Ok((rest, NavigationMode::Fix2D))
    } else if c == '3' {
        Ok((rest, NavigationMode::Fix3D))
    } else {
        Err(Error::InvalidEnumField)
    }
}

/// Meaning of a mandatory navigational-status field.
pub open spec fn spec_parse_navigational_status(s: Seq<char>) -> Result<
    (Seq<char>, NavigationalStatus),
    Error,
> {
    match spec_code_char(s) {
        Err(e) => Err(e),
        Ok((rest, c)) => if c == 'S' {
            Ok((rest, NavigationalStatus::Safe))
        } else if c == 'C' {
            Ok((rest, NavigationalStatus::Caution))
        } else if c == 'U' {
            Ok((rest, NavigationalStatus::Unsafe))
        } else if c == 'V' {
            Ok((rest, NavigationalStatus::NotValid))
        } else {
            Err(Error::InvalidEnumField)
        },
    }
}

/// Reads a mandatory navigational-status field (`S C U V`).
pub fn parse_navigational_status(input: &str) -> (r: Result<(&str, NavigationalStatus), Error>)
    ensures
        step_eq(r, spec_parse_navigational_status(input@)),
{
    let (rest, c) = match code_char(input) {
        Ok(p) => p,
        Err(e) => { return Err(e); },
    };
    if c == 'S' {
        Ok((rest, NavigationalStatus::Safe))
    } else if c == 'C' {
        Ok((rest, NavigationalStatus::Caution))
    } else if c == 'U' {
        Ok((rest, NavigationalStatus::Unsafe))
    } else if c == 'V' {
        Ok((rest, NavigationalStatus::NotValid))
    } else {
        Err(Error::InvalidEnumField)
    }
}

/// Meaning of a text-severity field: a two-digit level code followed by
/// a comma, which must both be present.
pub open spec fn spec_parse_message_type(s: Seq<char>) -> Result<(Seq<char>, MessageLevel), Error> {
    let e = scan_to(s, 0, ',');
    if e >= s.len() {
        Err(Error::MissingField)
    } else {
        let tok = s.subrange(0, e);
        let rest = s.subrange(e + 1, s.len() as int);
        if tok.len() == 2 && tok[0] == '0' && tok[1] == '0' {
            Ok((rest, MessageLevel::Error))
        } else if tok.len() == 2 && tok[0] == '0' && tok[1] == '1' {
            Ok((rest, MessageLevel::Warning))
        } else if tok.len() == 2 && tok[0] == '0' && tok[1] == '2' {
            Ok((rest, MessageLevel::Notice))
        } else if tok.len() == 2 && tok[0] == '0' && tok[1] == '7' {
            Ok((rest, MessageLevel::User))
        } else {
            Err(Error::InvalidEnumField)
        }
    }
}

/// Reads a text-severity field (`00 01 02 07`).
pub fn parse_message_type(input: &str) -> (r: Result<(&str, MessageLevel), Error>)
    ensures
        step_eq(r, spec_parse_message_type(input@)),
{
    let n = input.unicode_len();
    proof {
        lemma_scan_to(input@, 0, ',');
    }
    let e = find_char(input, ',');
    if e >= n {
        return Err(Error::MissingField);
    }
    let rest = input.substring_char(e + 1, n);
    proof {
        assert(rest@ =~= input@.subrange(e as int + 1, input@.len() as int));
        assert(input@.subrange(0, e as int).len() == e as int);
        if e == 2 {
            assert(input@.subrange(0, 2)[0] == input@[0]);
            assert(input@.subrange(0, 2)[1] == input@[1]);
        }
    }
    if e != 2 {
        return Err(Error::InvalidEnumField);
    }
    let c0 = input.get_char(0);
    let c1 = input.get_char(1);
    if c0 != '0' {
        return Err(Error::InvalidEnumField);
    }
    let level = if c1 == '0' {
        MessageLevel::Error
    } else if c1 == '1' {
        MessageLevel::Warning
    } else if c1 == '2' {
        MessageLevel::Notice
    } else if c1 == '7' {
        MessageLevel::User
    } else {
        return Err(Error::InvalidEnumField);
    };
    Ok((rest, level))
}

/// Meaning of an optional dilution-of-precision field.
pub open spec fn spec_parse_dilution_of_precision(s: Seq<char>) -> Result<
    (Seq<char>, Option<Decimal>),
    Error,
> {
    spec_parse_float(s)
}

/// Reads an optional dilution-of-precision field.
pub fn parse_dilution_of_precision(input: &str) -> (r: Result<(&str, Option<Decimal>), Error>)
    ensures
        step_eq(r, spec_parse_dilution_of_precision(input@)),
{
    parse_float(input)
}

/// Meaning of an optional signal-strength field.
pub open spec fn spec_parse_dbhz(s: Seq<char>) -> Result<(Seq<char>, Option<DBHZ>), Error> {
    match spec_parse_float(s) {
        Ok((rest, Some(d))) => Ok((rest, Some(DBHZ(d)))),
        Ok((rest, None)) => Ok((rest, None)),
        Err(e) => Err(e),
    }
}

/// Reads an optional signal-strength field, in dB-Hz.
pub fn parse_dbhz(input: &str) -> (r: Result<(&str, Option<DBHZ>), Error>)
    ensures
        step_eq(r, spec_parse_dbhz(input@)),
{
    match parse_float(input) {
        Ok((rest, Some(d))) => Ok((rest, Some(DBHZ(d)))),
        Ok((rest, None)) => Ok((rest, None)),
        Err(e) => Err(e),
    }
}

} // verus!
