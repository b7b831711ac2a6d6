//! Fixed-point decimal numbers.
//!
//! Policy thresholds and engine confidences are decimal quantities; the core
//! stores them as signed integers counting nanos (billionths), so every
//! comparison and every rendered digit is exact. The parser accepts the usual
//! decimal syntax with an optional sign, fraction and exponent; digits and
//! exponents beyond a generous bookkeeping bound saturate.

use vstd::prelude::*;

verus! {

/// Mantissas stop growing at this bound; further digits only scale the value.
pub const MANT_LIMIT: i64 = 100_000_000_000_000_000;

/// Bookkeeping bound for digit counts and exponents.
pub const EXTRA_LIMIT: i64 = 1_000_000;

/// Ten to the `n`.
pub open spec fn pow10(n: nat) -> int
    decreases n,
{
    if n == 0 {
        1
    } else {
        10 * pow10((n - 1) as nat)
    }
}

/// The first nineteen powers of ten, written out.
pub proof fn lemma_pow10_values()
    ensures
        pow10(0) == 1,
        pow10(4) == 10_000,
        pow10(6) == 1_000_000,
        pow10(9) == 1_000_000_000,
        pow10(17) == 100_000_000_000_000_000,
        pow10(18) == 1_000_000_000_000_000_000,
{
    reveal_with_fuel(pow10, 20);
}

/// Powers of ten are positive.
pub proof fn lemma_pow10_pos(n: nat)
    ensures
        pow10(n) >= 1,
    decreases n,
{
    if n > 0 {
        lemma_pow10_pos((n - 1) as nat);
    }
}

/// Powers of ten grow with the exponent.
pub proof fn lemma_pow10_mono(a: nat, b: nat)
    requires
        a <= b,
    ensures
        pow10(a) <= pow10(b),
    decreases b,
{
    if a < b {
        lemma_pow10_mono(a, (b - 1) as nat);
        lemma_pow10_pos(a);
    }
}

/// Ten to the `n`, as executable code.
pub fn pow10_i64(n: u64) -> (r: i64)
    requires
        n <= 18,
    ensures
        r == pow10(n as nat),
{
    proof {
        lemma_pow10_values();
    }
    let mut r: i64 = 1;
    let mut i: u64 = 0;
    while i < n
        invariant
            i <= n <= 18,
            r == pow10(i as nat),
            pow10(18) == 1_000_000_000_000_000_000,
        decreases n - i,
    {
        proof {
            lemma_pow10_mono((i + 1) as nat, 18);
            lemma_pow10_pos(i as nat);
        }
        r = r * 10;
        i = i + 1;
    }
    r
}

/// Whether a character is a decimal digit.
pub open spec fn is_digit(c: char) -> bool {
    '0' <= c && c <= '9'
}

/// The numeric value of a decimal digit.
pub open spec fn digit_val(c: char) -> int {
    c as int - '0' as int
}

/// The character for a digit value below ten.
pub open spec fn dec_char(n: int) -> char {
    if n == 0 {
        '0'
    } else if n == 1 {
        '1'
    } else if n == 2 {
        '2'
    } else if n == 3 {
        '3'
    } else if n == 4 {
        '4'
    } else if n == 5 {
        '5'
    } else if n == 6 {
        '6'
    } else if n == 7 {
        '7'
    } else if n == 8 {
        '8'
    } else {
        '9'
    }
}

/// The decimal rendering of a non-negative integer, no leading zeros.
pub open spec fn dec_digits(n: int) -> Seq<char>
    decreases n,
{
    if n < 10 {
        seq![dec_char(n)]
    } else {
        dec_digits(n / 10).push(dec_char(n % 10))
    }
}

/// The zero-padded `width`-digit rendering of `n`'s low digits.
pub open spec fn pad_digits(n: int, width: int) -> Seq<char> {
    Seq::new(width as nat, |i: int| dec_char(n / pow10((width - 1 - i) as nat) % 10))
}

/// The character for a digit value below ten, as executable code.
fn dec_char_exec(n: u64) -> (c: char)
    requires
        n < 10,
    ensures
        c == dec_char(n as int),
{
    if n == 0 {
        '0'
    } else if n == 1 {
        '1'
    } else if n == 2 {
        '2'
    } else if n == 3 {
        '3'
    } else if n == 4 {
        '4'
    } else if n == 5 {
        '5'
    } else if n == 6 {
        '6'
    } else if n == 7 {
        '7'
    } else if n == 8 {
        '8'
    } else {
        '9'
    }
}

/// Append the decimal rendering of `n` to a character vector.
pub fn push_dec_u128(out: &mut Vec<char>, n: u128)
    ensures
        final(out)@ == old(out)@ + dec_digits(n as int),
    decreases n,
{
    if n >= 10 {
        push_dec_u128(out, n / 10);
    }
    out.push(dec_char_exec((n % 10) as u64));
    proof {
        if n >= 10 {
            assert(old(out)@ + dec_digits(n as int) =~= (old(out)@ + dec_digits(n as int / 10)).push(
                dec_char(n as int % 10),
            ));
        } else {
            assert(old(out)@ + dec_digits(n as int) =~= old(out)@.push(dec_char(n as int)));
        }
    }
}

/// Append the zero-padded `width`-digit rendering of `n`.
pub fn push_padded(out: &mut Vec<char>, n: u64, width: u64)
    requires
        width <= 18,
    ensures
        final(out)@ == old(out)@ + pad_digits(n as int, width as int),
{
    let mut i: u64 = 0;
    while i < width
        invariant
            i <= width <= 18,
            out@ == old(out)@ + pad_digits(n as int, width as int).take(i as int),
        decreases width - i,
    {
        let p: i64 = pow10_i64(width - 1 - i);
        proof {
            lemma_pow10_pos((width - 1 - i) as nat);
        }
        let d: u64 = ((n / (p as u64)) % 10) as u64;
        out.push(dec_char_exec(d));
        proof {
            assert(pad_digits(n as int, width as int).take(i + 1) =~= pad_digits(
                n as int,
                width as int,
            ).take(i as int).push(pad_digits(n as int, width as int)[i as int]));
        }
        i = i + 1;
    }
    proof {
        assert(pad_digits(n as int, width as int).take(width as int) =~= pad_digits(
            n as int,
            width as int,
        ));
    }
}

/// Nanos rounded half-up to units of `unit` nanos.
pub open spec fn round_to_unit(a: int, unit: int) -> int {
    if a % unit >= unit / 2 {
        a / unit + 1
    } else {
        a / unit
    }
}

/// The rendering of a nano count with four digits after the point.
pub open spec fn fmt_fixed4(v: int) -> Seq<char> {
    let a = if v < 0 {
        -v
    } else {
        v
    };
    let r = round_to_unit(a, 100_000);
    let sign: Seq<char> = if v < 0 {
        seq!['-']
    } else {
        Seq::empty()
    };
    sign + dec_digits(r / 10_000) + seq!['.'] + pad_digits(r % 10_000, 4)
}

/// The rendering of a nano count with six digits after the point.
pub open spec fn fmt_fixed6(v: int) -> Seq<char> {
    let a = if v < 0 {
        -v
    } else {
        v
    };
    let r = round_to_unit(a, 1_000);
    let sign: Seq<char> = if v < 0 {
        seq!['-']
    } else {
        Seq::empty()
    };
    sign + dec_digits(r / 1_000_000) + seq!['.'] + pad_digits(r % 1_000_000, 6)
}

/// Append the four-decimal rendering of a nano count.
pub fn push_fixed4(out: &mut Vec<char>, v: i64)
    ensures
        final(out)@ == old(out)@ + fmt_fixed4(v as int),
{
    if v < 0 {
        out.push('-');
    }
    let a: i128 = if v < 0 {
        -(v as i128)
    } else {
        v as i128
    };
    let r: i128 = if a % 100_000 >= 50_000 {
        a / 100_000 + 1
    } else {
        a / 100_000
    };
    push_dec_u128(out, (r / 10_000) as u128);
    out.push('.');
    push_padded(out, (r % 10_000) as u64, 4);
    proof {
        assert(out@ =~= old(out)@ + fmt_fixed4(v as int));
    }
}

/// Append the six-decimal rendering of a nano count.
pub fn push_fixed6(out: &mut Vec<char>, v: i64)
    ensures
        final(out)@ == old(out)@ + fmt_fixed6(v as int),
{
    if v < 0 {
        out.push('-');
    }
    let a: i128 = if v < 0 {
        -(v as i128)
    } else {
        v as i128
    };
    let r: i128 = if a % 1_000 >= 500 {
        a / 1_000 + 1
    } else {
        a / 1_000
    };
    push_dec_u128(out, (r / 1_000_000) as u128);
    out.push('.');
    push_padded(out, (r % 1_000_000) as u64, 6);
    proof {
        assert(out@ =~= old(out)@ + fmt_fixed6(v as int));
    }
}

} // verus!

verus! {

/// Accumulated parse state for a decimal token.
pub ghost struct NumParse {
    /// Whether a leading minus sign was seen.
    pub neg: bool,
    /// Mantissa digits gathered so far.
    pub mant: int,
    /// Whether at least one mantissa digit was seen.
    pub has_digit: bool,
    /// Integer digits dropped after the mantissa stopped growing.
    pub int_extra: int,
    /// Fraction digits gathered into the mantissa.
    pub frac_len: int,
}

/// The nano value a finished parse denotes, saturating at the `i64` range.
pub open spec fn assemble(p: NumParse, exp: int) -> Option<i64> {
    if !p.has_digit {
        None
    } else {
        let scale = 9 + p.int_extra - p.frac_len + exp;
        let mag: int = if p.mant == 0 {
            0
        } else if scale > 18 {
            i64::MAX as int
        } else if scale >= 0 {
            if p.mant * pow10(scale as nat) > i64::MAX as int {
                i64::MAX as int
            } else {
                p.mant * pow10(scale as nat)
            }
        } else if scale < -18 {
            0
        } else {
            p.mant / pow10((-scale) as nat)
        };
        if p.neg {
            Some((-mag) as i64)
        } else {
            Some(mag as i64)
        }
    }
}

/// Exponent digits, after an optional exponent sign.
pub open spec fn parse_exp_digits(
    s: Seq<char>,
    i: int,
    p: NumParse,
    eneg: bool,
    exp: int,
    seen: bool,
) -> Option<i64>
    decreases s.len() - i,
{
    if i < s.len() && is_digit(s[i]) {
        let e2 = if exp < EXTRA_LIMIT {
            exp * 10 + digit_val(s[i])
        } else {
            exp
        };
        parse_exp_digits(s, i + 1, p, eneg, e2, true)
    } else if i >= s.len() && seen {
        assemble(p, if eneg { -exp } else { exp })
    } else {
        None
    }
}

/// The optional sign right after the exponent marker.
pub open spec fn parse_exp_sign(s: Seq<char>, i: int, p: NumParse) -> Option<i64> {
    if i < s.len() && s[i] == '+' {
        parse_exp_digits(s, i + 1, p, false, 0, false)
    } else if i < s.len() && s[i] == '-' {
        parse_exp_digits(s, i + 1, p, true, 0, false)
    } else {
        parse_exp_digits(s, i, p, false, 0, false)
    }
}

/// Fraction digits, after the decimal point.
pub open spec fn parse_frac(s: Seq<char>, i: int, p: NumParse) -> Option<i64>
    decreases s.len() - i,
{
    if i < s.len() && is_digit(s[i]) {
        let p2 = if p.mant < MANT_LIMIT {
            NumParse {
                mant: p.mant * 10 + digit_val(s[i]),
                has_digit: true,
                frac_len: if p.frac_len < EXTRA_LIMIT {
                    p.frac_len + 1
                } else {
                    p.frac_len
                },
                ..p
            }
        } else {
            NumParse { has_digit: true, ..p }
        };
        parse_frac(s, i + 1, p2)
    } else if i < s.len() && (s[i] == 'e' || s[i] == 'E') {
        if p.has_digit {
            parse_exp_sign(s, i + 1, p)
        } else {
            None
        }
    } else if i >= s.len() && p.has_digit {
        assemble(p, 0)
    } else {
        None
    }
}

/// Integer digits, before any decimal point or exponent marker.
pub open spec fn parse_int(s: Seq<char>, i: int, p: NumParse) -> Option<i64>
    decreases s.len() - i,
{
    if i < s.len() && is_digit(s[i]) {
        let p2 = if p.mant < MANT_LIMIT {
            NumParse { mant: p.mant * 10 + digit_val(s[i]), has_digit: true, ..p }
        } else {
            NumParse {
                has_digit: true,
                int_extra: if p.int_extra < EXTRA_LIMIT {
                    p.int_extra + 1
                } else {
                    p.int_extra
                },
                ..p
            }
        };
        parse_int(s, i + 1, p2)
    } else if i < s.len() && s[i] == '.' {
        parse_frac(s, i + 1, p)
    } else if i < s.len() && (s[i] == 'e' || s[i] == 'E') {
        if p.has_digit {
            parse_exp_sign(s, i + 1, p)
        } else {
            None
        }
    } else if i >= s.len() && p.has_digit {
        assemble(p, 0)
    } else {
        None
    }
}

/// The nano value a decimal token denotes, or nothing if it is malformed.
pub open spec fn parse_fixed_spec(s: Seq<char>) -> Option<i64> {
    let init = NumParse { neg: false, mant: 0, has_digit: false, int_extra: 0, frac_len: 0 };
    if s.len() > 0 && s[0] == '-' {
        parse_int(s, 1, NumParse { neg: true, ..init })
    } else if s.len() > 0 && s[0] == '+' {
        parse_int(s, 1, init)
    } else {
        parse_int(s, 0, init)
    }
}

} // verus!

verus! {

/// The saturating value assembly, as executable code.
fn assemble_exec(neg: bool, mant: i64, has_digit: bool, int_extra: i64, frac_len: i64, exp: i64) -> (r:
    Option<i64>)
    requires
        0 <= mant < 10 * MANT_LIMIT,
        0 <= int_extra <= EXTRA_LIMIT,
        0 <= frac_len <= EXTRA_LIMIT,
        -10 * EXTRA_LIMIT <= exp <= 10 * EXTRA_LIMIT,
    ensures
        r == assemble(
            NumParse {
                neg,
                mant: mant as int,
                has_digit,
                int_extra: int_extra as int,
                frac_len: frac_len as int,
            },
            exp as int,
        ),
{
    if !has_digit {
        return None;
    }
    let scale: i64 = 9 + int_extra - frac_len + exp;
    let mag: i64 = if mant == 0 {
        0
    } else if scale > 18 {
        i64::MAX
    } else if scale >= 0 {
        let p: i64 = pow10_i64(scale as u64);
        proof {
            lemma_pow10_pos(scale as nat);
            vstd::arithmetic::div_mod::lemma_fundamental_div_mod(i64::MAX as int, p as int);
            vstd::arithmetic::div_mod::lemma_mod_bound(i64::MAX as int, p as int);
        }
        let q: i64 = i64::MAX / p;
        if mant > q {
            proof {
                assert((q + 1) * p == q * p + p) by (nonlinear_arith);
                assert(q * p == p * q) by (nonlinear_arith);
                vstd::arithmetic::mul::lemma_mul_inequality(q as int + 1, mant as int, p as int);
                assert(mant as int * pow10(scale as nat) > i64::MAX as int);
            }
            i64::MAX
        } else {
            proof {
                vstd::arithmetic::mul::lemma_mul_inequality(mant as int, q as int, p as int);
                assert(q * p == p * q) by (nonlinear_arith);
                vstd::arithmetic::mul::lemma_mul_nonnegative(mant as int, p as int);
                assert(0 <= mant as int * p as int <= i64::MAX as int);
            }
            mant * p
        }
    } else if scale < -18 {
        0
    } else {
        let p: i64 = pow10_i64((-scale) as u64);
        proof {
            lemma_pow10_pos((-scale) as nat);
        }
        mant / p
    };
    if neg {
        Some(-mag)
    } else {
        Some(mag)
    }
}

/// Parse a decimal token into nanos; malformed tokens give nothing.
pub fn parse_fixed(tok: &Vec<char>) -> (r: Option<i64>)
    ensures
        r == parse_fixed_spec(tok@),
{
    let n: usize = tok.len();
    let ghost s = tok@;
    let mut i: usize = 0;
    let mut neg: bool = false;
    if n > 0 && tok[0] == '-' {
        neg = true;
        i = 1;
    } else if n > 0 && tok[0] == '+' {
        i = 1;
    }
    let mut mant: i64 = 0;
    let mut has_digit: bool = false;
    let mut int_extra: i64 = 0;
    let mut frac_len: i64 = 0;
    let ghost p0 = NumParse { neg, mant: 0, has_digit: false, int_extra: 0, frac_len: 0 };
    proof {
        assert(parse_fixed_spec(s) == parse_int(s, i as int, p0));
    }

    // integer digits
    while i < n && tok[i] >= '0' && tok[i] <= '9'
        invariant
            n == s.len(),
            i <= n,
            0 <= mant < MANT_LIMIT * 10,
            mant < MANT_LIMIT || has_digit,
            0 <= int_extra <= EXTRA_LIMIT,
            frac_len == 0,
            tok@ == s,
            parse_fixed_spec(s) == parse_int(
                s,
                i as int,
                NumParse {
                    neg,
                    mant: mant as int,
                    has_digit,
                    int_extra: int_extra as int,
                    frac_len: 0,
                },
            ),
        decreases n - i,
    {
        let c: char = tok[i];
        let d: i64 = (c as u32 as i64) - 48;
        if mant < MANT_LIMIT {
            mant = mant * 10 + d;
        } else if int_extra < EXTRA_LIMIT {
            int_extra = int_extra + 1;
        }
        has_digit = true;
        i = i + 1;
    }

    // fraction digits
    if i < n && tok[i] == '.' {
        i = i + 1;
        while i < n && tok[i] >= '0' && tok[i] <= '9'
            invariant
                n == s.len(),
                i <= n,
                0 <= mant < MANT_LIMIT * 10,
                mant < MANT_LIMIT || has_digit,
                0 <= int_extra <= EXTRA_LIMIT,
                0 <= frac_len <= EXTRA_LIMIT,
                tok@ == s,
                parse_fixed_spec(s) == parse_frac(
                    s,
                    i as int,
                    NumParse {
                        neg,
                        mant: mant as int,
                        has_digit,
                        int_extra: int_extra as int,
                        frac_len: frac_len as int,
                    },
                ),
            decreases n - i,
        {
            let c: char = tok[i];
            let d: i64 = (c as u32 as i64) - 48;
            if mant < MANT_LIMIT {
                mant = mant * 10 + d;
                if frac_len < EXTRA_LIMIT {
                    frac_len = frac_len + 1;
                }
            }
            has_digit = true;
            i = i + 1;
        }
        if i < n && (tok[i] == 'e' || tok[i] == 'E') {
            if !has_digit {
                return None;
            }
        } else if i < n {
            return None;
        } else {
            return assemble_exec(neg, mant, has_digit, int_extra, frac_len, 0);
        }
    } else if i < n && (tok[i] == 'e' || tok[i] == 'E') {
        if !has_digit {
            return None;
        }
    } else if i < n {
        return None;
    } else {
        return assemble_exec(neg, mant, has_digit, int_extra, frac_len, 0);
    }

    // exponent marker was seen and a digit precedes it
    let ghost pm = NumParse {
        neg,
        mant: mant as int,
        has_digit,
        int_extra: int_extra as int,
        frac_len: frac_len as int,
    };
    proof {
        assert(parse_fixed_spec(s) == parse_exp_sign(s, (i + 1) as int, pm));
    }
    i = i + 1;
    let mut eneg: bool = false;
    if i < n && tok[i] == '+' {
        i = i + 1;
    } else if i < n && tok[i] == '-' {
        eneg = true;
        i = i + 1;
    }
    let mut exp: i64 = 0;
    let mut seen: bool = false;
    while i < n && tok[i] >= '0' && tok[i] <= '9'
        invariant
            n == s.len(),
            i <= n,
            0 <= mant < MANT_LIMIT * 10,
            0 <= int_extra <= EXTRA_LIMIT,
            0 <= frac_len <= EXTRA_LIMIT,
            0 <= exp < 10 * EXTRA_LIMIT,
            tok@ == s,
            pm == (NumParse {
                neg,
                mant: mant as int,
                has_digit,
                int_extra: int_extra as int,
                frac_len: frac_len as int,
            }),
            parse_fixed_spec(s) == parse_exp_digits(s, i as int, pm, eneg, exp as int, seen),
        decreases n - i,
    {
        let c: char = tok[i];
        let d: i64 = (c as u32 as i64) - 48;
        if exp < EXTRA_LIMIT {
            exp = exp * 10 + d;
        }
        seen = true;
        i = i + 1;
    }
    if i < n || !seen {
        return None;
    }
    assemble_exec(neg, mant, has_digit, int_extra, frac_len, if eneg { -exp } else { exp })
}

} // verus!
