//! Calendar months written as `YYYY-MM`: validation, the half-open date
//! range a month covers, and shifting a month by a number of months.
use crate::error::{is_validation, validation, ApiError};
use crate::text::{
    all_digit_bytes, digits_value, is_digit_byte, fmt_int, lemma_digits_value_bound, lemma_pow10_mono, parse_signed,
    parse_signed_at, parse_unsigned, parse_unsigned_at, pow10, push_int,
};
use vstd::prelude::*;
use vstd::string::*;
use vstd::utf8::encode_utf8;

verus! {

/// `YYYY-MM` text of a year and month, as `format!("{:04}-{:02}", y, m)`.
pub open spec fn month_text(y: int, m: int) -> Seq<char> {
    fmt_int(y, 4) + seq!['-'] + fmt_int(m, 2)
}

/// `YYYY-MM-DD` text, as `format!("{:04}-{:02}-{:02}", y, m, d)`.
pub open spec fn ymd_text(y: int, m: int, d: int) -> Seq<char> {
    month_text(y, m) + seq!['-'] + fmt_int(d, 2)
}

/// The month after `(y, m)`.
pub open spec fn next_month(y: int, m: int) -> (int, int) {
    if m == 12 {
        (y + 1, 1)
    } else {
        (y, m + 1)
    }
}

/// Seven bytes with a dash at index 4.
pub open spec fn has_month_shape(b: Seq<u8>) -> bool {
    b.len() == 7 && b[4] == 45u8
}

/// The year field `b[0..4]`, read as an `i32`.
pub open spec fn year_field(b: Seq<u8>) -> Option<int> {
    parse_signed(b.subrange(0, 4))
}

/// The month field `b[5..7]`, read as a `u32`.
pub open spec fn month_field(b: Seq<u8>) -> Option<int> {
    parse_unsigned(b.subrange(5, 7))
}

/// The month field `b[5..7]`, read as an `i32`.
pub open spec fn month_field_signed(b: Seq<u8>) -> Option<int> {
    parse_signed(b.subrange(5, 7))
}

/// The year and month of a `YYYY-MM` text, or the reason it is refused.
pub open spec fn parse_month(b: Seq<u8>) -> Result<(int, int), Seq<char>> {
    if !has_month_shape(b) {
        Err("expected YYYY-MM"@)
    } else if year_field(b) is None {
        Err("invalid year"@)
    } else if month_field(b) is None {
        Err("invalid month"@)
    } else if !(1 <= month_field(b)->0 <= 12) {
        Err("month must be 01..12"@)
    } else {
        Ok((year_field(b)->0, month_field(b)->0))
    }
}

/// Reads the year and month of a `YYYY-MM` text.
pub fn parse_month_parts(month: &str) -> (r: Result<(i32, u32), ApiError>)
    ensures
        match r {
            Ok((y, m)) => parse_month(month.spec_bytes()) == Ok::<(int, int), Seq<char>>(
                (y as int, m as int),
            ),
            Err(e) => parse_month(month.spec_bytes()) matches Err(reason) && is_validation(
                e,
                "month"@,
                reason,
            ),
        },
{
    let b = month.as_bytes();
    if b.len() != 7 || b[4] != 45u8 {
        return Err(validation("month", "expected YYYY-MM"));
    }
    let y = match parse_signed_at(b, 0, 4) {
        Some(y) => y,
        None => {
            return Err(validation("month", "invalid year"));
        },
    };
    let m = match parse_unsigned_at(b, 5, 7) {
        Some(m) => m,
        None => {
            return Err(validation("month", "invalid month"));
        },
    };
    if m < 1 || m > 12 {
        return Err(validation("month", "month must be 01..12"));
    }
    Ok((y, m))
}

/// Appends `format!("{:04}-{:02}", y, m)`.
pub fn push_month(out: &mut String, y: i32, m: i32)
    ensures
        final(out)@ == old(out)@ + month_text(y as int, m as int),
{
    push_int(out, y as i128, 4);
    out.append("-");
    proof {
        reveal_strlit("-");
    }
    push_int(out, m as i128, 2);
    assert(out@ =~= old(out)@ + month_text(y as int, m as int));
}

/// `format!("{:04}-{:02}-{:02}", y, m, d)`.
pub fn ymd_string(y: i32, m: i32, d: i32) -> (s: String)
    ensures
        s@ == ymd_text(y as int, m as int, d as int),
{
    let mut s = String::new();
    push_month(&mut s, y, m);
    s.append("-");
    proof {
        reveal_strlit("-");
    }
    push_int(&mut s, d as i128, 2);
    assert(s@ =~= ymd_text(y as int, m as int, d as int));
    s
}

/// `format!("{:04}-{:02}", y, m)`.
pub fn month_string(y: i32, m: i32) -> (s: String)
    ensures
        s@ == month_text(y as int, m as int),
{
    let mut s = String::new();
    push_month(&mut s, y, m);
    assert(s@ =~= month_text(y as int, m as int));
    s
}

/// The half-open range of dates `[first day, first day of next month)` that
/// a `YYYY-MM` month covers.
pub fn month_bounds(month: &str) -> (r: Result<(String, String), ApiError>)
    ensures
        match r {
            Ok((lo, hi)) => parse_month(month.spec_bytes()) matches Ok((y, m)) && lo@ == ymd_text(
                y,
                m,
                1,
            ) && hi@ == ymd_text(next_month(y, m).0, next_month(y, m).1, 1),
            Err(e) => parse_month(month.spec_bytes()) matches Err(reason) && is_validation(
                e,
                "month"@,
                reason,
            ),
        },
{
    let (y, m) = parse_month_parts(month)?;
    proof {
        lemma_year_field_range(month.spec_bytes());
    }
    let lo = ymd_string(y, m as i32, 1);
    let (ny, nm) = if m == 12 {
        (y + 1, 1)
    } else {
        (y, m + 1)
    };
    let hi = ymd_string(ny, nm as i32, 1);
    Ok((lo, hi))
}

/// Checks that a text is a valid `YYYY-MM` month.
pub fn validate_month(m: &str) -> (r: Result<(), ApiError>)
    ensures
        r is Ok <==> parse_month(m.spec_bytes()) is Ok,
        r matches Err(e) ==> is_validation(e, "month"@, "expected YYYY-MM"@),
{
    match parse_month_parts(m) {
        Ok(_) => Ok(()),
        Err(_) => Err(validation("month", "expected YYYY-MM")),
    }
}

/// The exclusive SQL cutoff for the end of a month: the quoted first day
/// of the following month, `'YYYY-MM-01'`.
pub fn month_end_excl(month: &str) -> (r: Result<String, ApiError>)
    ensures
        match r {
            Ok(s) => parse_month(month.spec_bytes()) matches Ok((y, m)) && s@ == seq!['\'']
                + ymd_text(next_month(y, m).0, next_month(y, m).1, 1) + seq!['\''],
            Err(e) => parse_month(month.spec_bytes()) matches Err(reason) && is_validation(
                e,
                "month"@,
                reason,
            ),
        },
{
    let (y, m) = parse_month_parts(month)?;
    proof {
        lemma_year_field_range(month.spec_bytes());
        reveal_strlit("'");
    }
    let (ny, nm) = if m == 12 {
        (y + 1, 1)
    } else {
        (y, m + 1)
    };
    let mut s = String::from_str("'");
    let d = ymd_string(ny, nm as i32, 1);
    s.append(d.as_str());
    s.append("'");
    Ok(s)
}

/// A four-byte signed field stays within `-999..=9999`.
pub proof fn lemma_year_field_range(b: Seq<u8>)
    requires
        b.len() >= 4,
    ensures
        year_field(b) matches Some(y) ==> -999 <= y <= 9999,
        b.len() >= 7 ==> (month_field_signed(b) matches Some(m) ==> -9 <= m <= 99),
        b.len() >= 7 ==> (month_field(b) matches Some(m) ==> 0 <= m <= 99),
{
    reveal_with_fuel(pow10, 5);
    let s = b.subrange(0, 4);
    if year_field(b) is Some {
        lemma_parse_signed_range(s);
    }
    if b.len() >= 7 {
        let t = b.subrange(5, 7);
        if parse_signed(t) is Some || parse_unsigned(t) is Some {
            lemma_parse_signed_range(t);
        }
    }
}

/// Bounds of `parse_signed` by the length of the text.
pub proof fn lemma_parse_signed_range(s: Seq<u8>)
    requires
        parse_signed(s) is Some || parse_unsigned(s) is Some,
        s.len() <= 8,
    ensures
        parse_signed(s) matches Some(v) ==> -pow10((s.len() - 1) as nat) < v < pow10(
            s.len() as nat,
        ),
        parse_unsigned(s) matches Some(v) ==> 0 <= v < pow10(s.len() as nat),
{
    if s.len() >= 2 && s[0] == 45u8 && all_digit_bytes(s.drop_first()) {
        lemma_digits_value_bound(s.drop_first());
        lemma_pow10_mono((s.len() - 1) as nat, s.len() as nat);
    }
    if s.len() >= 2 && s[0] == 43u8 && all_digit_bytes(s.drop_first()) {
        lemma_digits_value_bound(s.drop_first());
        lemma_pow10_mono((s.len() - 1) as nat, s.len() as nat);
    } else if s.len() >= 1 && all_digit_bytes(s) {
        lemma_digits_value_bound(s);
    }
}

/// The total number of months of the shifted month.
pub open spec fn shift_total(b: Seq<u8>, delta: int) -> int {
    year_field(b)->0 * 12 + (month_field_signed(b)->0 - 1) + delta
}

/// The inputs on which shifting a month neither fails to read the text nor
/// overflows: at least seven bytes, a readable year in `b[0..4]` and month
/// in `b[5..7]`, and a total number of months that fits an `i32`.
pub open spec fn shift_defined(b: Seq<u8>, delta: int) -> bool {
    &&& b.len() >= 7
    &&& year_field(b) is Some
    &&& month_field_signed(b) is Some
    &&& i32::MIN <= shift_total(b, delta) <= i32::MAX
}

/// The month `delta` months after the month written in `b`.
pub open spec fn shifted_month_text(b: Seq<u8>, delta: int) -> Seq<char> {
    month_text(shift_total(b, delta) / 12, shift_total(b, delta) % 12 + 1)
}

/// Euclidean quotient and remainder by 12.
pub fn div_rem_12(t: i32) -> (r: (i32, i32))
    ensures
        r.0 == t as int / 12,
        r.1 == t as int % 12,
{
    if t >= 0 {
        let u = t as u32;
        ((u / 12) as i32, (u % 12) as i32)
    } else {
        let u = (-(t + 1)) as u32;
        let q = (u / 12) as i32;
        let rem = (u % 12) as i32;
        assert(t as int == 12 * (-(q as int) - 1) + (11 - rem as int));
        (-q - 1, 11 - rem)
    }
}

/// Shifts a `YYYY-MM` month by `delta` months. Reads the year from the
/// first four bytes and the month from bytes five and six, without further
/// checks.
pub fn shift_month(m: &str, delta: i32) -> (r: String)
    requires
        shift_defined(m.spec_bytes(), delta as int),
    ensures
        r@ == shifted_month_text(m.spec_bytes(), delta as int),
{
    let b = m.as_bytes();
    let y = match parse_signed_at(b, 0, 4) {
        Some(v) => v,
        None => 0,
    };
    let mo = match parse_signed_at(b, 5, 7) {
        Some(v) => v,
        None => 0,
    };
    proof {
        lemma_year_field_range(m.spec_bytes());
    }
    let total = y * 12 + (mo - 1) + delta;
    let (ny, r) = div_rem_12(total);
    month_string(ny, r + 1)
}

/// Shifts a `YYYY-MM` month by `delta` months, refusing texts that are not
/// seven bytes with a dash at index 4 or whose fields do not read as
/// integers.
pub fn shift_month_str(m: &str, delta: i32) -> (r: Result<String, ApiError>)
    requires
        (has_month_shape(m.spec_bytes()) && year_field(m.spec_bytes()) is Some
            && month_field_signed(m.spec_bytes()) is Some) ==> i32::MIN <= shift_total(
            m.spec_bytes(),
            delta as int,
        ) <= i32::MAX,
    ensures
        match r {
            Ok(s) => has_month_shape(m.spec_bytes()) && year_field(m.spec_bytes()) is Some
                && month_field_signed(m.spec_bytes()) is Some && s@ == shifted_month_text(
                m.spec_bytes(),
                delta as int,
            ),
            Err(e) => if !has_month_shape(m.spec_bytes()) {
                is_validation(e, "month"@, "expected YYYY-MM"@)
            } else if year_field(m.spec_bytes()) is None {
                is_validation(e, "month"@, "invalid year"@)
            } else {
                month_field_signed(m.spec_bytes()) is None && is_validation(
                    e,
                    "month"@,
                    "invalid month"@,
                )
            },
        },
{
    let b = m.as_bytes();
    if b.len() != 7 || b[4] != 45u8 {
        return Err(validation("month", "expected YYYY-MM"));
    }
    if parse_signed_at(b, 0, 4).is_none() {
        return Err(validation("month", "invalid year"));
    }
    if parse_signed_at(b, 5, 7).is_none() {
        return Err(validation("month", "invalid month"));
    }
    Ok(shift_month(m, delta))
}

} // verus!

verus! {

// ---------------------------------------------------------------------------
// The text of a month can be read back
// ---------------------------------------------------------------------------
/// An ASCII decimal digit.
pub open spec fn is_digit_char(c: char) -> bool {
    48 <= c as int <= 57
}

pub open spec fn all_digit_chars(s: Seq<char>) -> bool {
    forall|i: int| 0 <= i < s.len() ==> is_digit_char(#[trigger] s[i])
}

/// Number of decimal digits of `n`.
pub open spec fn digit_len(n: nat) -> int {
    if n < 10 {
        1
    } else if n < 100 {
        2
    } else if n < 1000 {
        3
    } else if n < 10000 {
        4
    } else {
        5
    }
}

proof fn lemma_digit_char(d: int)
    requires
        0 <= d <= 9,
    ensures
        is_digit_char(crate::text::digit_char(d)),
{
}

proof fn lemma_digits_shape(n: nat)
    requires
        n < 100000,
    ensures
        crate::text::digits(n).len() == digit_len(n),
        all_digit_chars(crate::text::digits(n)),
    decreases n,
{
    let s = crate::text::digits(n);
    if n < 10 {
        lemma_digit_char(n as int);
    } else {
        lemma_digits_shape(n / 10);
        lemma_digit_char((n % 10) as int);
        let t = crate::text::digits(n / 10);
        assert(s == t.push(crate::text::digit_char((n % 10) as int)));
        assert forall|i: int| 0 <= i < s.len() implies is_digit_char(#[trigger] s[i]) by {
            if i < t.len() {
                assert(s[i] == t[i]);
            }
        }
    }
}

proof fn lemma_zero_pad_digits(s: Seq<char>, width: int)
    requires
        all_digit_chars(s),
    ensures
        all_digit_chars(crate::text::zero_pad(s, width)),
        crate::text::zero_pad(s, width).len() == (if width > s.len() {
            width
        } else {
            s.len() as int
        }),
{
    let z = crate::text::zeros(width - s.len());
    let p = crate::text::zero_pad(s, width);
    assert(p == z + s);
    assert forall|i: int| 0 <= i < p.len() implies is_digit_char(#[trigger] p[i]) by {
        if i < z.len() {
            assert(p[i] == '0');
        } else {
            assert(p[i] == s[i - z.len()]);
        }
    }
}

/// A digit run of bytes reads as a number.
proof fn lemma_digit_bytes_parse(b: Seq<u8>)
    requires
        b.len() >= 1,
        all_digit_bytes(b),
    ensures
        parse_signed(b) is Some,
{
    assert(!(b.len() >= 2 && b[0] == 45u8 && all_digit_bytes(b.drop_first())));
}

/// The text of any month whose year has at most five digits (four with a
/// sign) reads back, and shifting it by one month is defined.
pub proof fn lemma_month_text_shiftable(y: int, m: int)
    requires
        -10000 < y < 100000,
        1 <= m <= 12,
    ensures
        shift_defined(encode_utf8(month_text(y, m)), 1),
{
    let yt = fmt_int(y, 4);
    let mt = fmt_int(m, 2);
    let text = month_text(y, m);
    assert(text == yt + seq!['-'] + mt);
    lemma_digits_shape(m as nat);
    lemma_zero_pad_digits(crate::text::digits(m as nat), 2);
    assert(mt.len() == 2 && all_digit_chars(mt));
    let a = if y < 0 {
        -y
    } else {
        y
    };
    lemma_digits_shape(a as nat);
    if y < 0 {
        lemma_zero_pad_digits(crate::text::digits(a as nat), 3);
    } else {
        lemma_zero_pad_digits(crate::text::digits(a as nat), 4);
    }
    // The year part: digits, or a dash followed by digits; four characters,
    // or five for years of five digits (four with a sign).
    let ylen = yt.len();
    assert(ylen == 4 || ylen == 5);
    assert(ylen == 4 <==> -999 <= y <= 9999);
    assert forall|i: int| 0 <= i < text.len() implies '\0' <= #[trigger] text[i] <= '\u{7f}' by {
        if i < ylen {
            if y < 0 && i == 0 {
            } else if y < 0 {
                assert(yt[i] == crate::text::zero_pad(crate::text::digits(a as nat), 3)[i - 1]);
            }
        } else if i == ylen {
        } else {
            assert(text[i] == mt[i - ylen - 1]);
        }
    }
    vstd::utf8::is_ascii_chars_encode_utf8(text);
    let b = encode_utf8(text);
    assert(b.len() == text.len());
    assert(b.len() >= 7);
    // Byte view of the characters.
    assert forall|i: int| 0 <= i < b.len() implies b[i] == text[i] as u8 by {}
    // Year field.
    let yb = b.subrange(0, 4);
    if y >= 0 {
        assert forall|i: int| 0 <= i < 4 implies is_digit_byte(#[trigger] yb[i]) by {
            assert(yb[i] == b[i]);
            assert(text[i] == yt[i]);
        }
        lemma_digit_bytes_parse(yb);
    } else {
        assert(yb[0] == b[0]);
        assert(text[0] == '-');
        assert(yb[0] == 45u8);
        let rest = yb.drop_first();
        assert forall|i: int| 0 <= i < 3 implies is_digit_byte(#[trigger] rest[i]) by {
            assert(rest[i] == b[i + 1]);
            assert(text[i + 1] == yt[i + 1]);
            assert(yt[i + 1] == crate::text::zero_pad(crate::text::digits(a as nat), 3)[i]);
        }
    }
    // Month field.
    let mb = b.subrange(5, 7);
    if ylen == 4 {
        assert forall|i: int| 0 <= i < 2 implies is_digit_byte(#[trigger] mb[i]) by {
            assert(mb[i] == b[5 + i]);
            assert(text[5 + i] == mt[i]);
        }
        lemma_digit_bytes_parse(mb);
    } else {
        assert(mb[0] == b[5]);
        assert(text[5] == '-');
        let rest = mb.drop_first();
        assert(rest[0] == b[6]);
        assert(text[6] == mt[0]);
        assert(is_digit_byte(rest[0]));
        assert(all_digit_bytes(rest));
    }
    lemma_year_field_range(b);
}

// ---------------------------------------------------------------------------
// Reading back the fields of a written month
// ---------------------------------------------------------------------------
/// The value of a run of decimal digit characters.
pub open spec fn chars_value(s: Seq<char>) -> int
    decreases s.len(),
{
    if s.len() == 0 {
        0
    } else {
        chars_value(s.drop_last()) * 10 + (s.last() as int - 48)
    }
}

proof fn lemma_chars_value_concat(a: Seq<char>, b: Seq<char>)
    ensures
        chars_value(a + b) == chars_value(a) * pow10(b.len()) + chars_value(b),
    decreases b.len(),
{
    if b.len() == 0 {
        assert(a + b =~= a);
    } else {
        lemma_chars_value_concat(a, b.drop_last());
        assert((a + b).drop_last() =~= a + b.drop_last());
        assert((a + b).last() == b.last());
        assert(pow10(b.len()) == 10 * pow10(b.drop_last().len()));
        assert(chars_value(a) * pow10(b.len()) == chars_value(a) * pow10(b.drop_last().len()) * 10)
            by (nonlinear_arith)
            requires
                pow10(b.len()) == 10 * pow10(b.drop_last().len()),
        ;
    }
}

proof fn lemma_zeros_value(k: int)
    ensures
        chars_value(crate::text::zeros(k)) == 0,
    decreases k,
{
    let z = crate::text::zeros(k);
    if k > 0 {
        lemma_zeros_value(k - 1);
        assert(z.drop_last() =~= crate::text::zeros(k - 1));
    } else {
        assert(z.len() == 0);
    }
}

proof fn lemma_digit_char_value(d: int)
    requires
        0 <= d <= 9,
    ensures
        crate::text::digit_char(d) as int == 48 + d,
{
}

proof fn lemma_digits_value_chars(n: nat)
    ensures
        chars_value(crate::text::digits(n)) == n,
    decreases n,
{
    let s = crate::text::digits(n);
    if n < 10 {
        lemma_digit_char_value(n as int);
        assert(s.drop_last() =~= Seq::<char>::empty());
        assert(s.last() == crate::text::digit_char(n as int));
        assert(chars_value(s.drop_last()) == 0);
        assert(chars_value(s) == chars_value(s.drop_last()) * 10 + (s.last() as int - 48));
    } else {
        lemma_digits_value_chars(n / 10);
        lemma_digit_char_value((n % 10) as int);
        assert(s.drop_last() =~= crate::text::digits(n / 10));
        assert(s.last() == crate::text::digit_char((n % 10) as int));
        assert(chars_value(s) == chars_value(s.drop_last()) * 10 + (s.last() as int - 48));
    }
}

/// A zero-padded natural number reads back as itself.
proof fn lemma_padded_value(n: nat, width: int)
    ensures
        chars_value(crate::text::zero_pad(crate::text::digits(n), width)) == n,
{
    let d = crate::text::digits(n);
    let z = crate::text::zeros(width - d.len());
    lemma_chars_value_concat(z, d);
    lemma_zeros_value(width - d.len());
    lemma_digits_value_chars(n);
}

/// Bytes that copy a run of digit characters have the same value.
proof fn lemma_bytes_of_digit_chars(b: Seq<u8>, s: Seq<char>)
    requires
        b.len() == s.len(),
        all_digit_chars(s),
        forall|i: int| 0 <= i < s.len() ==> b[i] == s[i] as u8,
    ensures
        all_digit_bytes(b),
        digits_value(b) == chars_value(s),
    decreases s.len(),
{
    assert forall|i: int| 0 <= i < b.len() implies is_digit_byte(#[trigger] b[i]) by {
        assert(is_digit_char(s[i]));
    }
    if s.len() > 0 {
        let b2 = b.drop_last();
        let s2 = s.drop_last();
        assert forall|i: int| 0 <= i < s2.len() implies is_digit_char(#[trigger] s2[i]) by {
            assert(s2[i] == s[i]);
        }
        assert forall|i: int| 0 <= i < s2.len() implies b2[i] == s2[i] as u8 by {
            assert(b2[i] == b[i]);
        }
        lemma_bytes_of_digit_chars(b2, s2);
        assert(is_digit_char(s.last()));
        assert(b.last() == s.last() as u8);
    }
}

/// The fields of a month written with a four-digit year read back as the
/// year and the month.
pub proof fn lemma_month_text_fields(y: int, m: int)
    requires
        0 <= y <= 9999,
        1 <= m <= 12,
    ensures
        encode_utf8(month_text(y, m)).len() == 7,
        year_field(encode_utf8(month_text(y, m))) == Some(y),
        month_field_signed(encode_utf8(month_text(y, m))) == Some(m),
        month_field(encode_utf8(month_text(y, m))) == Some(m),
{
    let yt = fmt_int(y, 4);
    let mt = fmt_int(m, 2);
    let text = month_text(y, m);
    lemma_digits_shape(y as nat);
    lemma_zero_pad_digits(crate::text::digits(y as nat), 4);
    lemma_digits_shape(m as nat);
    lemma_zero_pad_digits(crate::text::digits(m as nat), 2);
    assert(yt.len() == 4 && mt.len() == 2);
    assert(text.len() == 7);
    assert forall|i: int| 0 <= i < text.len() implies '\0' <= #[trigger] text[i] <= '\u{7f}' by {
        if i < 4 {
            assert(text[i] == yt[i]);
            assert(is_digit_char(yt[i]));
        } else if i > 4 {
            assert(text[i] == mt[i - 5]);
            assert(is_digit_char(mt[i - 5]));
        }
    }
    vstd::utf8::is_ascii_chars_encode_utf8(text);
    let b = encode_utf8(text);
    let yb = b.subrange(0, 4);
    let mb = b.subrange(5, 7);
    assert forall|i: int| 0 <= i < 4 implies yb[i] == yt[i] as u8 by {
        assert(yb[i] == b[i]);
        assert(text[i] == yt[i]);
    }
    assert forall|i: int| 0 <= i < 2 implies mb[i] == mt[i] as u8 by {
        assert(mb[i] == b[i + 5]);
        assert(text[i + 5] == mt[i]);
    }
    lemma_bytes_of_digit_chars(yb, yt);
    lemma_bytes_of_digit_chars(mb, mt);
    lemma_padded_value(y as nat, 4);
    lemma_padded_value(m as nat, 2);
    assert(!is_digit_byte(45u8) && !is_digit_byte(43u8));
    assert(is_digit_byte(yb[0]) && is_digit_byte(mb[0]));
}

/// Moving a month forward by some months and back by as many gives the
/// month again, for months with four-digit years on both ends.
pub proof fn lemma_shift_round_trip(y: int, m: int, delta: int)
    requires
        0 <= y <= 9999,
        1 <= m <= 12,
        0 <= y * 12 + (m - 1) + delta < 120000,
    ensures
        shift_defined(encode_utf8(month_text(y, m)), delta),
        shift_defined(encode_utf8(shifted_month_text(encode_utf8(month_text(y, m)), delta)), -delta),
        shifted_month_text(
            encode_utf8(shifted_month_text(encode_utf8(month_text(y, m)), delta)),
            -delta,
        ) == month_text(y, m),
{
    lemma_month_text_fields(y, m);
    let b = encode_utf8(month_text(y, m));
    let t = y * 12 + (m - 1) + delta;
    assert(shift_total(b, delta) == t);
    let y2 = t / 12;
    let m2 = t % 12 + 1;
    assert(0 <= y2 <= 9999);
    lemma_month_text_fields(y2, m2);
    let b2 = encode_utf8(month_text(y2, m2));
    assert(shift_total(b2, -delta) == y2 * 12 + (m2 - 1) - delta);
    assert(y2 * 12 + (m2 - 1) == t);
    assert((y * 12 + (m - 1)) / 12 == y);
    assert((y * 12 + (m - 1)) % 12 == m - 1);
}

/// Distinct months with four-digit years are written differently.
pub proof fn lemma_month_text_injective(y1: int, m1: int, y2: int, m2: int)
    requires
        0 <= y1 <= 9999,
        1 <= m1 <= 12,
        0 <= y2 <= 9999,
        1 <= m2 <= 12,
        month_text(y1, m1) == month_text(y2, m2),
    ensures
        y1 == y2,
        m1 == m2,
{
    lemma_month_text_fields(y1, m1);
    lemma_month_text_fields(y2, m2);
}

// ---------------------------------------------------------------------------
// Months in text order
// ---------------------------------------------------------------------------
/// `a` comes before `b` when compared character by character (by code):
/// at the first position where they differ, `a` has the smaller character.
pub open spec fn text_less(a: Seq<char>, b: Seq<char>) -> bool {
    exists|i: int|
        0 <= i < a.len() && i < b.len() && a.subrange(0, i) == b.subrange(0, i) && (
        #[trigger] a[i] as int) < (b[i] as int)
}

proof fn lemma_digit_runs_equal(a: Seq<char>, b: Seq<char>)
    requires
        a.len() == b.len(),
        all_digit_chars(a),
        all_digit_chars(b),
        chars_value(a) == chars_value(b),
    ensures
        a == b,
    decreases a.len(),
{
    if a.len() > 0 {
        let a2 = a.drop_last();
        let b2 = b.drop_last();
        assert(all_digit_chars(a2)) by {
            assert forall|k: int| 0 <= k < a2.len() implies is_digit_char(#[trigger] a2[k]) by {
                assert(a2[k] == a[k]);
            }
        }
        assert(all_digit_chars(b2)) by {
            assert forall|k: int| 0 <= k < b2.len() implies is_digit_char(#[trigger] b2[k]) by {
                assert(b2[k] == b[k]);
            }
        }
        assert(is_digit_char(a[a.len() - 1]) && is_digit_char(b[b.len() - 1]));
        assert(chars_value(a2) == chars_value(b2));
        lemma_digit_runs_equal(a2, b2);
        assert(a =~= b) by {
            assert forall|k: int| 0 <= k < a.len() implies a[k] == b[k] by {
                if k < a.len() - 1 {
                    assert(a[k] == a2[k] && b[k] == b2[k]);
                }
            }
        }
    }
}

/// Of two digit runs of one length, the one of smaller value comes first
/// in text order.
proof fn lemma_digit_runs_ordered(a: Seq<char>, b: Seq<char>)
    requires
        a.len() == b.len(),
        all_digit_chars(a),
        all_digit_chars(b),
        chars_value(a) < chars_value(b),
    ensures
        text_less(a, b),
    decreases a.len(),
{
    let n = a.len() as int;
    if n == 0 {
        assert(false);
    } else {
        let a2 = a.drop_last();
        let b2 = b.drop_last();
        assert(all_digit_chars(a2)) by {
            assert forall|k: int| 0 <= k < a2.len() implies is_digit_char(#[trigger] a2[k]) by {
                assert(a2[k] == a[k]);
            }
        }
        assert(all_digit_chars(b2)) by {
            assert forall|k: int| 0 <= k < b2.len() implies is_digit_char(#[trigger] b2[k]) by {
                assert(b2[k] == b[k]);
            }
        }
        assert(is_digit_char(a[n - 1]) && is_digit_char(b[n - 1]));
        if chars_value(a2) < chars_value(b2) {
            lemma_digit_runs_ordered(a2, b2);
            let i = choose|i: int|
                0 <= i < a2.len() && i < b2.len() && a2.subrange(0, i) == b2.subrange(0, i) && (
                #[trigger] a2[i] as int) < (b2[i] as int);
            assert(a.subrange(0, i) =~= a2.subrange(0, i));
            assert(b.subrange(0, i) =~= b2.subrange(0, i));
            assert(a[i] == a2[i] && b[i] == b2[i]);
        } else if chars_value(a2) == chars_value(b2) {
            lemma_digit_runs_equal(a2, b2);
            assert(a.subrange(0, n - 1) =~= a2);
            assert(b.subrange(0, n - 1) =~= b2);
            assert((a[n - 1] as int) < (b[n - 1] as int));
        } else {
            assert(false);
        }
    }
}

/// A year of at most four digits, written with four.
proof fn lemma_year_text(y: int)
    requires
        0 <= y <= 9999,
    ensures
        fmt_int(y, 4).len() == 4,
        all_digit_chars(fmt_int(y, 4)),
        chars_value(fmt_int(y, 4)) == y,
{
    lemma_digits_shape(y as nat);
    lemma_zero_pad_digits(crate::text::digits(y as nat), 4);
    lemma_padded_value(y as nat, 4);
}

/// A month number, written with two digits.
proof fn lemma_month_number_text(m: int)
    requires
        1 <= m <= 12,
    ensures
        fmt_int(m, 2).len() == 2,
        all_digit_chars(fmt_int(m, 2)),
        chars_value(fmt_int(m, 2)) == m,
{
    lemma_digits_shape(m as nat);
    lemma_zero_pad_digits(crate::text::digits(m as nat), 2);
    lemma_padded_value(m as nat, 2);
}

/// Earlier months (with four-digit years) are written as smaller texts.
pub proof fn lemma_month_text_ordered(y1: int, m1: int, y2: int, m2: int)
    requires
        0 <= y1 <= 9999,
        1 <= m1 <= 12,
        0 <= y2 <= 9999,
        1 <= m2 <= 12,
        y1 * 12 + m1 < y2 * 12 + m2,
    ensures
        text_less(month_text(y1, m1), month_text(y2, m2)),
{
    let a = month_text(y1, m1);
    let b = month_text(y2, m2);
    let ya = fmt_int(y1, 4);
    let yb = fmt_int(y2, 4);
    let ma = fmt_int(m1, 2);
    let mb = fmt_int(m2, 2);
    lemma_year_text(y1);
    lemma_year_text(y2);
    lemma_month_number_text(m1);
    lemma_month_number_text(m2);
    assert(a == ya + seq!['-'] + ma);
    assert(b == yb + seq!['-'] + mb);
    if y1 < y2 {
        lemma_digit_runs_ordered(ya, yb);
        let i = choose|i: int|
            0 <= i < ya.len() && i < yb.len() && ya.subrange(0, i) == yb.subrange(0, i) && (
            #[trigger] ya[i] as int) < (yb[i] as int);
        assert(a.subrange(0, i) =~= ya.subrange(0, i));
        assert(b.subrange(0, i) =~= yb.subrange(0, i));
        assert(a[i] == ya[i] && b[i] == yb[i]);
    } else {
        assert(y1 == y2);
        assert(m1 < m2);
        lemma_digit_runs_ordered(ma, mb);
        let i = choose|i: int|
            0 <= i < ma.len() && i < mb.len() && ma.subrange(0, i) == mb.subrange(0, i) && (
            #[trigger] ma[i] as int) < (mb[i] as int);
        assert(a.subrange(0, 5 + i) =~= ya + seq!['-'] + ma.subrange(0, i));
        assert(b.subrange(0, 5 + i) =~= yb + seq!['-'] + mb.subrange(0, i));
        assert(a[5 + i] == ma[i] && b[5 + i] == mb[i]);
    }
}

/// Shifting a month by more months gives a later text: for `a < b`, the
/// month shifted by `a` comes before the month shifted by `b` in text
/// order, when both stay within four-digit years.
pub proof fn lemma_shifted_months_ordered(y: int, m: int, a: int, b: int)
    requires
        0 <= y <= 9999,
        1 <= m <= 12,
        a < b,
        0 <= y * 12 + (m - 1) + a,
        y * 12 + (m - 1) + b < 120000,
    ensures
        text_less(
            shifted_month_text(encode_utf8(month_text(y, m)), a),
            shifted_month_text(encode_utf8(month_text(y, m)), b),
        ),
{
    lemma_month_text_fields(y, m);
    let enc = encode_utf8(month_text(y, m));
    let ta = shift_total(enc, a);
    let tb = shift_total(enc, b);
    assert(ta == y * 12 + (m - 1) + a);
    assert(tb == y * 12 + (m - 1) + b);
    assert(ta == 12 * (ta / 12) + ta % 12);
    assert(tb == 12 * (tb / 12) + tb % 12);
    lemma_month_text_ordered(ta / 12, ta % 12 + 1, tb / 12, tb % 12 + 1);
}

} // verus!
