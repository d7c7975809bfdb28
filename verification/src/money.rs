//! Money amounts. Storage keeps whole cents (`i64`); the wire carries
//! decimal texts such as `"1234.56"`.
use crate::text::{digits, fmt_int, pow10, push_digits, push_int};
use std::str::FromStr;
use vstd::prelude::*;
use vstd::string::*;

verus! {

/// Largest magnitude of a decimal's 96-bit mantissa, plus one.
pub const MANTISSA_LIMIT: u128 = 0x1_0000_0000_0000_0000_0000_0000;

/// A decimal amount: `mantissa / 10^scale`.
#[derive(Clone, Copy, Debug)]
pub struct Money {
    pub mantissa: i128,
    pub scale: u32,
}

impl Money {
    /// A decimal's mantissa has at most 96 bits and its scale is at most 28.
    pub open spec fn valid(self) -> bool {
        -(MANTISSA_LIMIT as int) < self.mantissa < MANTISSA_LIMIT as int && self.scale <= 28
    }
}

/// `cents / 100` written with exactly two decimals: an optional `-`, the
/// whole part without leading zeros, a dot, two digits.
pub open spec fn cents_text(cents: int) -> Seq<char> {
    let a = if cents < 0 {
        -cents
    } else {
        cents
    };
    (if cents < 0 {
        seq!['-']
    } else {
        Seq::empty()
    }) + digits((a / 100) as nat) + seq!['.'] + fmt_int(a % 100, 2)
}

/// The decimal text of an amount in cents, as `Decimal::new(cents, 2)`
/// displays it.
pub fn cents_to_decimal_string(cents: i64) -> (s: String)
    ensures
        s@ == cents_text(cents as int),
{
    let mut s = String::new();
    let a: u64 = if cents < 0 {
        proof {
            reveal_strlit("-");
        }
        s.append("-");
        (-(cents as i128)) as u64
    } else {
        cents as u64
    };
    push_digits(&mut s, (a / 100) as u128);
    proof {
        reveal_strlit(".");
    }
    s.append(".");
    push_int(&mut s, (a % 100) as i128, 2);
    assert(s@ =~= cents_text(cents as int));
    s
}

/// `x / p` rounded to the nearest integer, ties to even (the rounding of
/// `Decimal::round`).
pub open spec fn round_half_even(x: int, p: int) -> int
    decreases
            (if x < 0 {
                1int
            } else {
                0int
            }),
{
    if x < 0 {
        -round_half_even(-x, p)
    } else {
        let q = x / p;
        let r = x % p;
        if 2 * r > p || (2 * r == p && q % 2 == 1) {
            q + 1
        } else {
            q
        }
    }
}

/// Whole cents of `mantissa / 10^scale`, before narrowing to 64 bits.
pub open spec fn decimal_cents_wide(mantissa: int, scale: nat) -> int {
    round_half_even(mantissa * 100, pow10(scale))
}

/// Rounding a quotient never moves it past the dividend.
proof fn lemma_round_half_even_bound(x: int, p: int)
    requires
        p >= 1,
    ensures
        -(if x < 0 { -x } else { x }) <= round_half_even(x, p) <= (if x < 0 { -x } else { x }),
    decreases
            (if x < 0 {
                1int
            } else {
                0int
            }),
{
    if x < 0 {
        lemma_round_half_even_bound(-x, p);
    } else {
        let q = x / p;
        let r = x % p;
        assert(q * p + r == x && 0 <= r < p) by (nonlinear_arith)
            requires
                p >= 1,
                q == x / p,
                r == x % p,
        ;
        assert(q <= x) by (nonlinear_arith)
            requires
                p >= 1,
                q * p + r == x,
                0 <= r,
                x >= 0,
        ;
        if r > 0 {
            assert(q + 1 <= x) by (nonlinear_arith)
                requires
                    p >= 2,
                    q * p + r == x,
                    0 < r,
                    x >= 0,
            ;
        }
    }
}

/// The mantissa of `(Decimal::from_i128_with_scale(mantissa, scale) *
/// Decimal::from(100)).round()`, or `None` when rust_decimal reports the
/// product as overflowing.
pub uninterp spec fn decimal_hundredfold_rounded(mantissa: int, scale: int) -> Option<int>;

/// A hundred times a decimal, rounded half to even to an integer, with
/// rust_decimal's `checked_mul` and `round`. The contract names the result
/// after the two arguments and claims what rust_decimal's multiplication
/// and rounding do when the exact product fits the 96-bit mantissa: the
/// product keeps the scale and `round` rounds it half to even, so the
/// result is `decimal_cents_wide`. When the exact product does not fit,
/// rust_decimal drops digits of the scale (rounding) or reports an
/// overflow; which of the two, and the value, are left to the name. A
/// result is a decimal's mantissa, below 2^96 in magnitude.
#[verifier::external_body]
fn hundredfold_rounded(mantissa: i128, scale: u32) -> (r: Option<i128>)
    requires
        -(MANTISSA_LIMIT as int) < mantissa < MANTISSA_LIMIT as int,
        scale <= 28,
    ensures
        match r {
            Some(x) => decimal_hundredfold_rounded(mantissa as int, scale as int) == Some(x as int),
            None => decimal_hundredfold_rounded(mantissa as int, scale as int) is None,
        },
        r matches Some(x) ==> -(MANTISSA_LIMIT as int) < x < MANTISSA_LIMIT as int,
        r == Some(decimal_cents_wide(mantissa as int, scale as nat) as i128) || !(-(
        MANTISSA_LIMIT as int) < mantissa * 100 < MANTISSA_LIMIT as int),
{
    let d = rust_decimal::Decimal::from_i128_with_scale(mantissa, scale);
    match d.checked_mul(rust_decimal::Decimal::from(100)) {
        Some(p) => Some(p.round().mantissa()),
        None => None,
    }
}

/// Whole cents of a decimal amount `mantissa / 10^scale`: a hundred times
/// the amount rounded half to even, narrowed to 64 bits as `i128 as i64`
/// narrows (`(d * 100).round().mantissa() as i64`); `None` when the
/// product overflows a decimal.
pub fn decimal_to_cents(mantissa: i128, scale: u32) -> (r: Option<i64>)
    requires
        -(MANTISSA_LIMIT as int) < mantissa < MANTISSA_LIMIT as int,
        scale <= 28,
    ensures
        match decimal_hundredfold_rounded(mantissa as int, scale as int) {
            Some(x) => r == Some(x as i64),
            None => r is None,
        },
        -(MANTISSA_LIMIT as int) < mantissa * 100 < MANTISSA_LIMIT as int ==> r == Some(
            decimal_cents_wide(mantissa as int, scale as nat) as i64,
        ),
{
    proof {
        crate::text::lemma_pow10_pos(scale as nat);
        lemma_round_half_even_bound(mantissa * 100, pow10(scale as nat) as int);
    }
    match hundredfold_rounded(mantissa, scale) {
        Some(x) => Some(narrow_cents(x)),
        None => None,
    }
}

/// A rounded hundredfold narrowed to 64 bits, as `i128 as i64` narrows.
pub fn narrow_cents(x: i128) -> (r: i64)
    ensures
        r == x as i64,
{
    #[verifier::truncate]
    (x as i64)
}

/// The decimal that `rust_decimal::Decimal::from_str` reads from a text,
/// as `(mantissa, scale)`.
pub uninterp spec fn decimal_parse(s: Seq<char>) -> Option<(int, int)>;

/// Reads a decimal with `rust_decimal::Decimal::from_str`, returning its
/// mantissa and scale. The contract names the result after the text and
/// claims the invariant of `Decimal`: a mantissa of at most 96 bits and a
/// scale of at most 28. Of the texts accepted it claims only what the
/// parser does with the texts that `cents_to_decimal_string` writes (an
/// optional `-`, digits, a point and two digits): it reads them, with the
/// digits as mantissa, negated after a `-`, and the two fractional digits
/// as scale. The rest is left to the name.
#[verifier::external_body]
pub fn parse_decimal(s: &str) -> (r: Option<(i128, u32)>)
    ensures
        match r {
            Some((m, sc)) => decimal_parse(s@) == Some((m as int, sc as int)),
            None => decimal_parse(s@) is None,
        },
        r matches Some((m, sc)) ==> (-(MANTISSA_LIMIT as int) < m < MANTISSA_LIMIT as int && sc
            <= 28),
        r is None ==> forall|c: int|
            i64::MIN <= c <= i64::MAX ==> #[trigger] cents_text(c) != s@,
        r matches Some((m, sc)) ==> forall|c: int|
            i64::MIN <= c <= i64::MAX && #[trigger] cents_text(c) == s@ ==> m == c && sc == 2,
{
    match rust_decimal::Decimal::from_str(s) {
        Ok(d) => Some((d.mantissa(), d.scale())),
        Err(_) => None,
    }
}

/// Whole cents of a decimal text from the wire: `None` when the text is
/// not a decimal, or when a hundred times the amount overflows a decimal.
pub fn decimal_str_to_cents(raw: &str) -> (r: Option<i64>)
    ensures
        r == decimal_str_to_cents_spec(raw@),
        // The text of an amount written by `cents_to_decimal_string` reads
        // back as the same amount.
        forall|c: int|
            i64::MIN <= c <= i64::MAX && #[trigger] cents_text(c) == raw@ ==> r == Some(c as i64),
{
    match parse_decimal(raw) {
        Some((m, sc)) => {
            proof {
                assert forall|c: int|
                    i64::MIN <= c <= i64::MAX && #[trigger] cents_text(c) == raw@ implies (m == c
                    && sc == 2 && -(MANTISSA_LIMIT as int) < m * 100 < MANTISSA_LIMIT as int
                    && decimal_cents_wide(m as int, sc as nat) == c) by {
                    lemma_cents_roundtrip(c as i64);
                    assert(-(MANTISSA_LIMIT as int) < c * 100 < MANTISSA_LIMIT as int) by (
                    nonlinear_arith)
                        requires
                            i64::MIN <= c <= i64::MAX,
                            MANTISSA_LIMIT == 0x1_0000_0000_0000_0000_0000_0000u128,
                    ;
                }
            }
            decimal_to_cents(m, sc)
        },
        None => None,
    }
}

/// Reads an optional decimal text.
pub fn optional_decimal_str_to_cents(raw: Option<&str>) -> (r: Option<Option<i64>>)
    ensures
        match raw {
            Some(s) => match decimal_str_to_cents_spec(s@) {
                Some(c) => r == Some(Some(c)),
                None => r is None,
            },
            None => r == Some(None::<i64>),
        },
{
    match raw {
        Some(s) => match decimal_str_to_cents(s) {
            Some(c) => Some(Some(c)),
            None => None,
        },
        None => Some(None),
    }
}

/// What `decimal_str_to_cents` gives for a text.
pub open spec fn decimal_str_to_cents_spec(s: Seq<char>) -> Option<i64> {
    match decimal_parse(s) {
        Some((m, sc)) => match decimal_hundredfold_rounded(m, sc) {
            Some(x) => Some(x as i64),
            None => None,
        },
        None => None,
    }
}

impl Money {
    /// The amount of `cents` hundredths.
    pub fn from_cents(cents: i64) -> (m: Money)
        ensures
            m.mantissa == cents,
            m.scale == 2,
            m.valid(),
    {
        Money { mantissa: cents as i128, scale: 2 }
    }

    /// Whole cents of the amount: a hundred times it, rounded half to
    /// even. The product must not overflow a decimal.
    pub fn to_cents(self) -> (c: i64)
        requires
            self.valid(),
            decimal_hundredfold_rounded(self.mantissa as int, self.scale as int) is Some,
        ensures
            decimal_hundredfold_rounded(self.mantissa as int, self.scale as int) matches Some(x)
                && c == x as i64,
            -(MANTISSA_LIMIT as int) < self.mantissa * 100 < MANTISSA_LIMIT as int ==> c
                == decimal_cents_wide(self.mantissa as int, self.scale as nat) as i64,
    {
        match decimal_to_cents(self.mantissa, self.scale) {
            Some(c) => c,
            None => unreached(),
        }
    }

    /// Whole cents of the amount, or `None` when a hundred times it
    /// overflows a decimal.
    pub fn checked_to_cents(self) -> (c: Option<i64>)
        requires
            self.valid(),
        ensures
            match decimal_hundredfold_rounded(self.mantissa as int, self.scale as int) {
                Some(x) => c == Some(x as i64),
                None => c is None,
            },
    {
        match hundredfold_rounded(self.mantissa, self.scale) {
            Some(_) => Some(self.to_cents()),
            None => None,
        }
    }

    /// Zero.
    pub fn zero() -> (m: Money)
        ensures
            m.mantissa == 0,
            m.scale == 0,
    {
        Money { mantissa: 0, scale: 0 }
    }
}

impl From<i64> for Money {
    /// The amount of `cents` hundredths.
    fn from(cents: i64) -> (m: Money) {
        Money::from_cents(cents)
    }
}

impl vstd::std_specs::convert::FromSpecImpl<i64> for Money {
    open spec fn obeys_from_spec() -> bool {
        true
    }

    open spec fn from_spec(v: i64) -> Money {
        Money { mantissa: v as i128, scale: 2 }
    }
}

/// Cents survive the trip through their decimal: converting cents to an
/// amount with two decimals and back gives the same cents.
pub proof fn lemma_cents_roundtrip(cents: i64)
    ensures
        decimal_cents_wide(cents as int, 2) == cents as int,
        (decimal_cents_wide(cents as int, 2) as i64) == cents,
{
    assert(pow10(2) == 100) by {
        reveal_with_fuel(pow10, 3);
    }
    let c = cents as int;
    if c >= 0 {
        assert((c * 100) / 100 == c) by (nonlinear_arith);
        assert((c * 100) % 100 == 0) by (nonlinear_arith);
        assert(c * 100 >= 0) by (nonlinear_arith)
            requires
                c >= 0,
        ;
        assert(round_half_even(c * 100, 100) == c);
    } else {
        assert(((-c) * 100) / 100 == -c) by (nonlinear_arith);
        assert(((-c) * 100) % 100 == 0) by (nonlinear_arith);
        assert(-(c * 100) == (-c) * 100) by (nonlinear_arith);
        assert(c * 100 < 0) by (nonlinear_arith)
            requires
                c < 0,
        ;
        assert((-c) * 100 >= 0) by (nonlinear_arith)
            requires
                c < 0,
        ;
        assert(round_half_even((-c) * 100, 100) == -c);
        assert(round_half_even(c * 100, 100) == c);
    }
}

} // verus!
