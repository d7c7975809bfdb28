//! Small verified text utilities: decimal digits, zero-padded integer
//! formatting, integer parsing with the rules of Rust's `FromStr` for
//! integers, and character-level comparisons of strings.
use vstd::prelude::*;
use vstd::string::*;

verus! {

// ---------------------------------------------------------------------------
// Characters and digits
// ---------------------------------------------------------------------------
/// The ASCII decimal digit for `d` (0..=9).
pub open spec fn digit_char(d: int) -> char {
    if d == 0 {
        '0'
    } else if d == 1 {
        '1'
    } else if d == 2 {
        '2'
    } else if d == 3 {
        '3'
    } else if d == 4 {
        '4'
    } else if d == 5 {
        '5'
    } else if d == 6 {
        '6'
    } else if d == 7 {
        '7'
    } else if d == 8 {
        '8'
    } else {
        '9'
    }
}

/// Decimal digits of a natural number, most significant first, without
/// leading zeros (`0` is written as a single `'0'`).
pub open spec fn digits(n: nat) -> Seq<char>
    decreases n,
{
    if n < 10 {
        seq![digit_char(n as int)]
    } else {
        digits(n / 10).push(digit_char((n % 10) as int))
    }
}

/// `count` copies of `'0'`.
pub open spec fn zeros(count: int) -> Seq<char> {
    Seq::new(if count > 0 { count as nat } else { 0 }, |_i: int| '0')
}

/// `s` left-padded with `'0'` to at least `width` characters.
pub open spec fn zero_pad(s: Seq<char>, width: int) -> Seq<char> {
    zeros(width - s.len()) + s
}

/// An integer written as Rust's `format!("{:0w$}", n)` writes it: a `'-'`
/// for negative values, and zero padding after the sign so that the whole
/// text is at least `width` characters long.
pub open spec fn fmt_int(n: int, width: int) -> Seq<char> {
    if n < 0 {
        seq!['-'] + zero_pad(digits((-n) as nat), width - 1)
    } else {
        zero_pad(digits(n as nat), width)
    }
}

pub proof fn lemma_digits_nonempty(n: nat)
    ensures
        digits(n).len() >= 1,
    decreases n,
{
    if n >= 10 {
        lemma_digits_nonempty(n / 10);
    }
}

/// A one-character string holding the digit `d`.
pub fn digit_str(d: u8) -> (s: &'static str)
    requires
        d < 10,
    ensures
        s@ == seq![digit_char(d as int)],
{
    proof {
        reveal_strlit("0");
        reveal_strlit("1");
        reveal_strlit("2");
        reveal_strlit("3");
        reveal_strlit("4");
        reveal_strlit("5");
        reveal_strlit("6");
        reveal_strlit("7");
        reveal_strlit("8");
        reveal_strlit("9");
    }
    match d {
        0 => "0",
        1 => "1",
        2 => "2",
        3 => "3",
        4 => "4",
        5 => "5",
        6 => "6",
        7 => "7",
        8 => "8",
        _ => "9",
    }
}

/// Appends the decimal digits of `n`.
pub fn push_digits(out: &mut String, n: u128)
    ensures
        final(out)@ == old(out)@ + digits(n as nat),
    decreases n,
{
    if n >= 10 {
        push_digits(out, n / 10);
    }
    let d = (n % 10) as u8;
    out.append(digit_str(d));
    proof {
        if n >= 10 {
            assert(digits(n as nat) == digits((n / 10) as nat).push(digit_char((n % 10) as int)));
        }
    }
}

/// `10^e`.
pub open spec fn pow10(e: nat) -> int
    decreases e,
{
    if e == 0 {
        1
    } else {
        10 * pow10((e - 1) as nat)
    }
}

/// Appends `count` zero characters.
pub fn push_zeros(out: &mut String, count: usize)
    ensures
        final(out)@ == old(out)@ + zeros(count as int),
{
    let ghost start = out@;
    let mut i: usize = 0;
    while i < count
        invariant
            i <= count,
            out@ == start + zeros(i as int),
        decreases count - i,
    {
        proof {
            reveal_strlit("0");
        }
        out.append("0");
        i = i + 1;
        assert(out@ =~= start + zeros(i as int));
    }
}

/// Appends `n` formatted as `format!("{:0width$}", n)`.
pub fn push_int(out: &mut String, n: i128, width: usize)
    requires
        n > i128::MIN,
    ensures
        final(out)@ == old(out)@ + fmt_int(n as int, width as int),
{
    let ghost start = out@;
    let negative = n < 0;
    let m: u128 = if negative { (-n) as u128 } else { n as u128 };
    let mut body = String::new();
    push_digits(&mut body, m);
    assert(body@ =~= digits(m as nat));
    let c = body.as_str().unicode_len();
    let w: usize = if negative {
        proof {
            reveal_strlit("-");
        }
        out.append("-");
        if width > 0 { width - 1 } else { 0 }
    } else {
        width
    };
    if w > c {
        push_zeros(out, w - c);
    } else {
        push_zeros(out, 0);
    }
    out.append(body.as_str());
    assert(out@ =~= start + fmt_int(n as int, width as int));
}

// ---------------------------------------------------------------------------
// Parsing integers from bytes, as Rust's `FromStr` for integers does
// ---------------------------------------------------------------------------
pub open spec fn is_digit_byte(b: u8) -> bool {
    48 <= b <= 57
}

pub open spec fn all_digit_bytes(s: Seq<u8>) -> bool {
    forall|i: int| 0 <= i < s.len() ==> is_digit_byte(#[trigger] s[i])
}

/// The value of a run of decimal digit bytes.
pub open spec fn digits_value(s: Seq<u8>) -> int
    decreases s.len(),
{
    if s.len() == 0 {
        0
    } else {
        digits_value(s.drop_last()) * 10 + (s.last() - 48)
    }
}

/// What `u32::from_str` gives for a short text (no overflow possible below
/// ten bytes): an optional `+` followed by at least one digit.
pub open spec fn parse_unsigned(s: Seq<u8>) -> Option<int> {
    if s.len() >= 2 && s[0] == 43u8 && all_digit_bytes(s.drop_first()) {
        Some(digits_value(s.drop_first()))
    } else if s.len() >= 1 && all_digit_bytes(s) {
        Some(digits_value(s))
    } else {
        None
    }
}

/// What `i32::from_str` gives for a short text: an optional `+` or `-`
/// followed by at least one digit.
pub open spec fn parse_signed(s: Seq<u8>) -> Option<int> {
    if s.len() >= 2 && s[0] == 45u8 && all_digit_bytes(s.drop_first()) {
        Some(-digits_value(s.drop_first()))
    } else {
        parse_unsigned(s)
    }
}

pub proof fn lemma_digits_value_bound(s: Seq<u8>)
    requires
        all_digit_bytes(s),
    ensures
        0 <= digits_value(s) < pow10(s.len()),
    decreases s.len(),
{
    if s.len() > 0 {
        let t = s.drop_last();
        assert(all_digit_bytes(t)) by {
            assert forall|i: int| 0 <= i < t.len() implies is_digit_byte(#[trigger] t[i]) by {
                assert(t[i] == s[i]);
            }
        }
        lemma_digits_value_bound(t);
        assert(is_digit_byte(s[s.len() - 1]));
        assert(pow10(s.len()) == 10 * pow10(t.len()));
    }
}

/// Parses the bytes `b[lo..hi]` of a digit run (at most 9 bytes).
fn digits_at(b: &[u8], lo: usize, hi: usize) -> (r: Option<u32>)
    requires
        lo <= hi <= b@.len(),
        hi - lo <= 9,
    ensures
        match r {
            Some(v) => all_digit_bytes(b@.subrange(lo as int, hi as int)) && v == digits_value(
                b@.subrange(lo as int, hi as int),
            ),
            None => !all_digit_bytes(b@.subrange(lo as int, hi as int)),
        },
{
    let mut i = lo;
    let mut acc: u32 = 0;
    while i < hi
        invariant
            lo <= i <= hi <= b@.len(),
            hi - lo <= 9,
            all_digit_bytes(b@.subrange(lo as int, i as int)),
            acc == digits_value(b@.subrange(lo as int, i as int)),
            acc < pow10((i - lo) as nat),
        decreases hi - i,
    {
        let c = b[i];
        if c < 48 || c > 57 {
            assert(b@.subrange(lo as int, hi as int)[i - lo] == c);
            return None;
        }
        proof {
            let s = b@.subrange(lo as int, i as int + 1);
            assert(s.drop_last() =~= b@.subrange(lo as int, i as int));
            assert(s.last() == c);
            assert(pow10((i + 1 - lo) as nat) == 10 * pow10((i - lo) as nat));
            assert(pow10(9) == 1000000000) by { reveal_with_fuel(pow10, 10); }
            lemma_pow10_mono((i + 1 - lo) as nat, 9);
            assert forall|k: int| 0 <= k < s.len() implies is_digit_byte(#[trigger] s[k]) by {
                if k < s.len() - 1 {
                    assert(s[k] == b@.subrange(lo as int, i as int)[k]);
                }
            }
        }
        acc = acc * 10 + (c - 48) as u32;
        i = i + 1;
    }
    Some(acc)
}

pub proof fn lemma_pow10_pos(e: nat)
    ensures
        pow10(e) >= 1,
    decreases e,
{
    if e > 0 {
        lemma_pow10_pos((e - 1) as nat);
    }
}

pub proof fn lemma_pow10_mono(a: nat, b: nat)
    requires
        a <= b,
    ensures
        pow10(a) <= pow10(b),
        pow10(a) >= 1,
    decreases b,
{
    if a < b {
        lemma_pow10_mono(a, (b - 1) as nat);
    } else {
        lemma_pow10_pos(a);
    }
}

/// `u32::from_str` on the bytes `b[lo..hi]` (at most 8 bytes).
pub fn parse_unsigned_at(b: &[u8], lo: usize, hi: usize) -> (r: Option<u32>)
    requires
        lo <= hi <= b@.len(),
        hi - lo <= 8,
    ensures
        match r {
            Some(v) => parse_unsigned(b@.subrange(lo as int, hi as int)) == Some(v as int),
            None => parse_unsigned(b@.subrange(lo as int, hi as int)) is None,
        },
{
    let ghost s = b@.subrange(lo as int, hi as int);
    if hi - lo >= 2 && b[lo] == 43u8 {
        assert(s[0] == b[lo as int]);
        let r = digits_at(b, lo + 1, hi);
        assert(s.drop_first() =~= b@.subrange(lo + 1, hi as int));
        r
    } else if hi - lo >= 1 {
        if hi - lo >= 2 {
            assert(s[0] == b[lo as int]);
        }
        let r = digits_at(b, lo, hi);
        proof {
            if hi - lo == 1 && s[0] == 43u8 {
                assert(!is_digit_byte(s[0]));
            }
        }
        r
    } else {
        None
    }
}

/// `i32::from_str` on the bytes `b[lo..hi]` (at most 8 bytes).
pub fn parse_signed_at(b: &[u8], lo: usize, hi: usize) -> (r: Option<i32>)
    requires
        lo <= hi <= b@.len(),
        hi - lo <= 8,
    ensures
        match r {
            Some(v) => parse_signed(b@.subrange(lo as int, hi as int)) == Some(v as int),
            None => parse_signed(b@.subrange(lo as int, hi as int)) is None,
        },
{
    let ghost s = b@.subrange(lo as int, hi as int);
    if hi - lo >= 2 && b[lo] == 45u8 {
        assert(s[0] == b[lo as int]);
        let r = digits_at(b, lo + 1, hi);
        assert(s.drop_first() =~= b@.subrange(lo + 1, hi as int));
        match r {
            Some(v) => {
                proof {
                    lemma_digits_value_bound(s.drop_first());
                    lemma_pow10_mono(s.drop_first().len(), 7);
                    assert(pow10(7) == 10000000) by { reveal_with_fuel(pow10, 8); }
                }
                Some(-(v as i32))
            },
            None => None,
        }
    } else {
        let r = parse_unsigned_at(b, lo, hi);
        match r {
            Some(v) => {
                proof {
                    let t = if s.len() >= 2 && s[0] == 43u8 { s.drop_first() } else { s };
                    lemma_digits_value_bound(t);
                    lemma_pow10_mono(t.len(), 8);
                    assert(pow10(8) == 100000000) by { reveal_with_fuel(pow10, 9); }
                }
                Some(v as i32)
            },
            None => None,
        }
    }
}

// ---------------------------------------------------------------------------
// Character-level string comparisons
// ---------------------------------------------------------------------------
/// Whether two strings hold the same characters.
pub fn str_eq(a: &str, b: &str) -> (r: bool)
    ensures
        r == (a@ == b@),
{
    let n = a.unicode_len();
    if n != b.unicode_len() {
        return false;
    }
    let mut i: usize = 0;
    while i < n
        invariant
            n == a@.len() == b@.len(),
            i <= n,
            forall|k: int| 0 <= k < i ==> a@[k] == b@[k],
        decreases n - i,
    {
        if a.get_char(i) != b.get_char(i) {
            return false;
        }
        i = i + 1;
    }
    assert(a@ =~= b@);
    true
}

/// Whether `s` starts at character `at` with the characters of `pat`.
pub open spec fn occurs_at(s: Seq<char>, pat: Seq<char>, at: int) -> bool {
    0 <= at && at + pat.len() <= s.len() && s.subrange(at, at + pat.len()) == pat
}

/// Whether `pat` occurs anywhere in `s`.
pub open spec fn contains_seq(s: Seq<char>, pat: Seq<char>) -> bool {
    exists|at: int| occurs_at(s, pat, at)
}

/// Whether `pat` occurs in `s` starting at character `at`.
pub fn matches_at(s: &str, pat: &str, at: usize) -> (r: bool)
    requires
        at <= s@.len(),
    ensures
        r == occurs_at(s@, pat@, at as int),
{
    let n = s.unicode_len();
    let m = pat.unicode_len();
    if m > n - at {
        return false;
    }
    let mut i: usize = 0;
    while i < m
        invariant
            n == s@.len(),
            m == pat@.len(),
            at + m <= n,
            i <= m,
            forall|k: int| 0 <= k < i ==> s@[at + k] == pat@[k],
        decreases m - i,
    {
        if s.get_char(at + i) != pat.get_char(i) {
            assert(s@.subrange(at as int, at + m)[i as int] != pat@[i as int]);
            return false;
        }
        i = i + 1;
    }
    assert(s@.subrange(at as int, at + m) =~= pat@);
    true
}

/// The first character position at which `pat` occurs in `s`.
pub fn find(s: &str, pat: &str) -> (r: Option<usize>)
    ensures
        match r {
            Some(at) => occurs_at(s@, pat@, at as int) && forall|k: int|
                0 <= k < at ==> !occurs_at(s@, pat@, k),
            None => !contains_seq(s@, pat@),
        },
{
    let n = s.unicode_len();
    let mut at: usize = 0;
    while at <= n
        invariant
            n == s@.len(),
            forall|k: int| 0 <= k < at ==> !occurs_at(s@, pat@, k),
        decreases n + 1 - at,
    {
        if matches_at(s, pat, at) {
            return Some(at);
        }
        if at == n {
            assert forall|k: int| !occurs_at(s@, pat@, k) by {
                if 0 <= k && k <= n {
                } else {
                }
            }
            return None;
        }
        at = at + 1;
    }
    None
}

/// Whether `pat` occurs in `s`.
pub fn contains_str(s: &str, pat: &str) -> (r: bool)
    ensures
        r == contains_seq(s@, pat@),
{
    match find(s, pat) {
        Some(_) => true,
        None => false,
    }
}

/// A new string holding the characters `s[from..to]`.
pub fn substring(s: &str, from: usize, to: usize) -> (r: String)
    requires
        from <= to <= s@.len(),
    ensures
        r@ == s@.subrange(from as int, to as int),
{
    String::from_str(s.substring_char(from, to))
}

} // verus!
