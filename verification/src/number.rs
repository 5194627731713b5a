use vstd::prelude::*;
use vstd::string::StrSliceExecFns;

verus! {

/// Decimal digit test on a character.
pub open spec fn is_digit(c: char) -> bool {
    48 <= c as u32 <= 57
}

/// Numeric value of a decimal digit character (0 for non-digits).
pub open spec fn digit_val(c: char) -> nat {
    if is_digit(c) {
        (c as u32 - 48) as nat
    } else {
        0
    }
}

/// Every character of the sequence is a decimal digit.
pub open spec fn all_digits(s: Seq<char>) -> bool {
    forall|i: int| 0 <= i < s.len() ==> is_digit(#[trigger] s[i])
}

/// Left fold of decimal digits onto an accumulator:
/// `digits_acc(a, "427")` is `a * 1000 + 427`.
pub open spec fn digits_acc(init: nat, s: Seq<char>) -> nat
    decreases s.len(),
{
    if s.len() == 0 {
        init
    } else {
        digits_acc(init, s.drop_last()) * 10 + digit_val(s.last())
    }
}

/// Value of a string of decimal digits, most significant first.
pub open spec fn digits_val(s: Seq<char>) -> nat {
    digits_acc(0, s)
}

/// Folding a longer digit run never yields a smaller value.
pub proof fn lemma_digits_acc_prefix_le(init: nat, s: Seq<char>, from: int, i: int, j: int)
    requires
        0 <= from <= i <= j <= s.len(),
    ensures
        digits_acc(init, s.subrange(from, i)) <= digits_acc(init, s.subrange(from, j)),
    decreases j - i,
{
    if i < j {
        lemma_digits_acc_prefix_le(init, s, from, i, j - 1);
        assert(s.subrange(from, j).drop_last() =~= s.subrange(from, j - 1));
        assert(digits_acc(init, s.subrange(from, j - 1)) * 10 >= digits_acc(
            init,
            s.subrange(from, j - 1),
        ));
    }
}

/// Folding digits never falls below the accumulator it started from.
pub proof fn lemma_digits_acc_ge_init(init: nat, s: Seq<char>)
    ensures
        digits_acc(init, s) >= init,
    decreases s.len(),
{
    if s.len() > 0 {
        lemma_digits_acc_ge_init(init, s.drop_last());
        assert(digits_acc(init, s.drop_last()) * 10 >= digits_acc(init, s.drop_last()));
    }
}

/// Folding a concatenation folds the parts in order.
pub proof fn lemma_digits_acc_concat(init: nat, a: Seq<char>, b: Seq<char>)
    ensures
        digits_acc(init, a + b) == digits_acc(digits_acc(init, a), b),
    decreases b.len(),
{
    if b.len() == 0 {
        assert(a + b =~= a);
    } else {
        lemma_digits_acc_concat(init, a, b.drop_last());
        assert((a + b).drop_last() =~= a + b.drop_last());
        assert((a + b).last() == b.last());
    }
}

/// Index of the first occurrence of `c` in `s` at or after `i`,
/// or `s.len()` when there is none.
pub open spec fn scan_to(s: Seq<char>, i: int, c: char) -> int
    decreases s.len() - i,
{
    if i < 0 || i >= s.len() {
        s.len() as int
    } else if s[i] == c {
        i
    } else {
        scan_to(s, i + 1, c)
    }
}

/// What `scan_to` finds: the first occurrence of `c` from `i` on.
pub proof fn lemma_scan_to(s: Seq<char>, i: int, c: char)
    requires
        0 <= i <= s.len(),
    ensures
        i <= scan_to(s, i, c) <= s.len(),
        scan_to(s, i, c) < s.len() ==> s[scan_to(s, i, c)] == c,
        forall|k: int| i <= k < scan_to(s, i, c) ==> s[k] != c,
    decreases s.len() - i,
{
    if i < s.len() && s[i] != c {
        lemma_scan_to(s, i + 1, c);
    }
}

/// First occurrence of `c` in `s`, or the length of `s` when absent.
pub fn find_char(s: &str, c: char) -> (i: usize)
    ensures
        i == scan_to(s@, 0, c),
{
    let n = s.unicode_len();
    let mut i: usize = 0;
    while i < n
        invariant
            0 <= i <= n,
            n == s@.len(),
            scan_to(s@, 0, c) == scan_to(s@, i as int, c),
        decreases n - i,
    {
        if s.get_char(i) == c {
            return i;
        }
        i = i + 1;
    }
    i
}

/// Folds the digits of `s[from..to]` onto `init`, refusing a non-digit
/// and a value that does not fit in a `u64`.
pub fn scan_digits(s: &str, from: usize, to: usize, init: u64) -> (r: Option<u64>)
    requires
        from <= to <= s@.len(),
    ensures
        ({
            let part = s@.subrange(from as int, to as int);
            match r {
                Some(v) => all_digits(part) && digits_acc(init as nat, part) <= u64::MAX && v
                    == digits_acc(init as nat, part),
                None => !all_digits(part) || digits_acc(init as nat, part) > u64::MAX,
            }
        }),
{
    let mut acc: u64 = init;
    let mut i: usize = from;
    while i < to
        invariant
            from <= i <= to <= s@.len(),
            acc == digits_acc(init as nat, s@.subrange(from as int, i as int)),
            all_digits(s@.subrange(from as int, i as int)),
        decreases to - i,
    {
        let c = s.get_char(i);
        let cu = c as u32;
        if cu < 48 || cu > 57 {
            proof {
                assert(s@.subrange(from as int, to as int)[i - from] == c);
            }
            return None;
        }
        let d = (cu - 48) as u64;
        proof {
            assert(s@.subrange(from as int, i as int + 1).drop_last() =~= s@.subrange(
                from as int,
                i as int,
            ));
            assert(s@.subrange(from as int, i as int + 1).last() == c);
        }
        let wide: u128 = acc as u128 * 10 + d as u128;
        if wide > u64::MAX as u128 {
            proof {
                lemma_digits_acc_prefix_le(init as nat, s@, from as int, i as int + 1, to as int);
            }
            return None;
        }
        acc = wide as u64;
        i = i + 1;
    }
    proof {
        assert(s@.subrange(from as int, i as int) =~= s@.subrange(from as int, to as int));
    }
    Some(acc)
}

/// A decimal number held exactly: the value is
/// `(-1 if negative) * digits / 10^scale`, kept in lowest form
/// (no trailing zero in the fraction, no negative zero).
///
/// Numeric tokens are scanned into this type digit by digit, so equal
/// written values compare equal however many trailing zeros they carry.
#[derive(Debug, Clone, Copy, PartialEq, Eq)]
pub struct Decimal {
    pub negative: bool,
    pub digits: u64,
    pub scale: u32,
}

/// Strips trailing decimal zeros: divides `m` by ten, down to scale zero,
/// while it stays whole.
pub open spec fn spec_norm(m: nat, s: nat) -> (nat, nat)
    decreases s,
{
    if s == 0 || m % 10 != 0 {
        (m, s)
    } else {
        spec_norm(m / 10, (s - 1) as nat)
    }
}

/// Ten to the `n`.
pub open spec fn pow10(n: nat) -> nat
    decreases n,
{
    if n == 0 {
        1
    } else {
        10 * pow10((n - 1) as nat)
    }
}

/// Ten to anything is at least one.
pub proof fn lemma_pow10_pos(n: nat)
    ensures
        pow10(n) >= 1,
    decreases n,
{
    if n > 0 {
        lemma_pow10_pos((n - 1) as nat);
    }
}

/// Normalization never changes the number the parts stand for: the
/// surviving digits, scaled back up by the ten-powers taken off the
/// scale, give the original mantissa exactly.
pub proof fn lemma_norm_preserves_value(m: nat, s: nat)
    ensures
        spec_norm(m, s).1 <= s,
        spec_norm(m, s).0 * pow10((s - spec_norm(m, s).1) as nat) == m,
    decreases s,
{
    if s == 0 || m % 10 != 0 {
        assert(spec_norm(m, s) == (m, s));
        assert(pow10(0) == 1);
        assert(m * 1 == m);
    } else {
        lemma_norm_preserves_value(m / 10, (s - 1) as nat);
        let m2 = spec_norm(m, s).0;
        let s2 = spec_norm(m, s).1;
        let k = ((s - 1) - s2) as nat;
        assert(m2 * pow10(k) == m / 10);
        assert(pow10((s - s2) as nat) == 10 * pow10(k));
        assert(m2 * (10 * pow10(k)) == 10 * (m2 * pow10(k))) by (nonlinear_arith);
        assert(10 * (m / 10) == m);
    }
}

/// The decimal with the given sign, digits and scale, in lowest form.
pub open spec fn spec_decimal(negative: bool, m: nat, s: nat) -> Decimal {
    let n = spec_norm(m, s);
    Decimal { negative: negative && n.0 != 0, digits: n.0 as u64, scale: n.1 as u32 }
}

/// The decimal is in lowest form, as every constructed value is.
pub open spec fn decimal_is_normal(d: Decimal) -> bool {
    &&& d.scale > 0 ==> d.digits % 10 != 0
    &&& d.digits == 0 ==> !d.negative && d.scale == 0
}

impl Decimal {
    /// Builds the decimal `(-1 if negative) * digits / 10^scale`,
    /// normalizing away trailing fraction zeros and a negative zero.
    pub fn from_parts(negative: bool, digits: u64, scale: u32) -> (r: Decimal)
        ensures
            r == spec_decimal(negative, digits as nat, scale as nat),
            decimal_is_normal(r),
            r.scale <= scale,
            r.digits <= digits,
    {
        let mut m = digits;
        let mut s = scale;
        while s > 0 && m % 10 == 0
            invariant
                m <= digits,
                s <= scale,
                spec_norm(m as nat, s as nat) == spec_norm(digits as nat, scale as nat),
            decreases s,
        {
            m = m / 10;
            s = s - 1;
        }
        Decimal { negative: negative && m != 0, digits: m, scale: s }
    }

    /// The whole number `v`.
    pub fn from_int(v: u64) -> (r: Decimal)
        ensures
            r == spec_decimal(false, v as nat, 0),
            decimal_is_normal(r),
    {
        Decimal { negative: false, digits: v, scale: 0 }
    }
}

/// Longest run of fraction digits a numeric token may carry; a machine
/// bound so that shifting the decimal point stays in range.
pub const MAX_FRACTION_DIGITS: u32 = 1000000;

/// Meaning of one numeric token (no exponent, no comma):
/// an optional sign, then digits with at most one point, holding at
/// least one digit. `None` when the token is not such a number or its
/// digits do not fit the machine word.
pub open spec fn spec_number_token(tok: Seq<char>) -> Option<Decimal> {
    let signed = tok.len() > 0 && (tok[0] == '-' || tok[0] == '+');
    let neg = tok.len() > 0 && tok[0] == '-';
    let body = if signed {
        tok.subrange(1, tok.len() as int)
    } else {
        tok
    };
    if body.len() == 0 {
        None
    } else {
        let dot = scan_to(body, 0, '.');
        let ip = body.subrange(0, dot);
        let fp = if dot < body.len() {
            body.subrange(dot + 1, body.len() as int)
        } else {
            Seq::empty()
        };
        if ip.len() == 0 && fp.len() == 0 {
            None
        } else if !all_digits(ip) || !all_digits(fp) {
            None
        } else if fp.len() > MAX_FRACTION_DIGITS {
            None
        } else if digits_val(ip + fp) > u64::MAX {
            None
        } else {
            Some(spec_decimal(neg, digits_val(ip + fp), fp.len()))
        }
    }
}

/// Scans one numeric token into its exact decimal value.
pub fn parse_number_token(tok: &str) -> (r: Option<Decimal>)
    ensures
        r == spec_number_token(tok@),
        r is Some ==> decimal_is_normal(r->0) && r->0.scale <= MAX_FRACTION_DIGITS,
{
    let n = tok.unicode_len();
    let signed = n > 0 && { let c = tok.get_char(0); c == '-' || c == '+' };
    let neg = n > 0 && tok.get_char(0) == '-';
    let start: usize = if signed { 1 } else { 0 };
    let body = tok.substring_char(start, n);
    let bn = n - start;
    assert(body@ =~= if signed { tok@.subrange(1, tok@.len() as int) } else { tok@ });
    if bn == 0 {
        return None;
    }
    let dot = find_char(body, '.');
    proof {
        lemma_scan_to(body@, 0, '.');
    }
    let fs: usize = if dot < bn { dot + 1 } else { bn };
    if dot == 0 && fs == bn {
        // "." alone, or a bare sign and point
        return None;
    }
    proof {
        let ip = body@.subrange(0, dot as int);
        let fp = if (dot as int) < body@.len() {
            body@.subrange(dot as int + 1, body@.len() as int)
        } else {
            Seq::<char>::empty()
        };
        assert(fp =~= body@.subrange(fs as int, bn as int));
        lemma_digits_acc_concat(0, ip, fp);
        lemma_digits_acc_ge_init(digits_acc(0, ip), fp);
    }
    let ip_acc = match scan_digits(body, 0, dot, 0) {
        Some(v) => v,
        None => { return None; },
    };
    let m = match scan_digits(body, fs, bn, ip_acc) {
        Some(v) => v,
        None => { return None; },
    };
    if bn - fs > MAX_FRACTION_DIGITS as usize {
        return None;
    }
    proof {
        let ip = body@.subrange(0, dot as int);
        let fp = if (dot as int) < body@.len() { body@.subrange(dot as int + 1, body@.len() as int) } else { Seq::<char>::empty() };
        assert(fp =~= body@.subrange(fs as int, bn as int));
        lemma_digits_acc_concat(0, ip, fp);
        assert((ip + fp).len() == ip.len() + fp.len());
    }
    Some(Decimal::from_parts(neg, m, (bn - fs) as u32))
}

/// Meaning of one unsigned integer token: an optional `+`, then at
/// least one digit. `None` when the token is not of that form.
pub open spec fn spec_uint_token(tok: Seq<char>) -> Option<nat> {
    let body = if tok.len() > 0 && tok[0] == '+' {
        tok.subrange(1, tok.len() as int)
    } else {
        tok
    };
    if body.len() == 0 || !all_digits(body) {
        None
    } else {
        Some(digits_val(body))
    }
}

/// Scans one unsigned integer token; `None` when malformed or above `max`.
pub fn parse_uint_token(tok: &str, max: u64) -> (r: Option<u64>)
    ensures
        match r {
            Some(v) => spec_uint_token(tok@) == Some(v as nat) && v <= max,
            None => spec_uint_token(tok@) is None || spec_uint_token(tok@)->0 > max,
        },
{
    let n = tok.unicode_len();
    let start: usize = if n > 0 && tok.get_char(0) == '+' {
        1
    } else {
        0
    };
    let body = tok.substring_char(start, n);
    assert(body@ =~= if tok@.len() > 0 && tok@[0] == '+' { tok@.subrange(1, tok@.len() as int) } else { tok@ });
    if n - start == 0 {
        return None;
    }
    match scan_digits(body, 0, n - start, 0) {
        Some(v) => {
            assert(body@.subrange(0, (n - start) as int) =~= body@);
            if v <= max {
                Some(v)
            } else {
                None
            }
        },
        None => {
            assert(body@.subrange(0, (n - start) as int) =~= body@);
            None
        },
    }
}

} // verus!
