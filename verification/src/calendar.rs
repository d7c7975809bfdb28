//! Dates of the proleptic Gregorian calendar, within the range that the
//! date type of `chrono` supports: month lengths, clamped dates, adding
//! months, the next day, and the credit-card billing cycle.
use crate::error::{is_validation, validation, ApiError};
use crate::months::ymd_text;
use crate::text::{digits, fmt_int, push_digits, push_int, push_zeros, zero_pad};
use chrono::Datelike;
use vstd::arithmetic::div_mod::lemma_mod_multiples_vanish;
use vstd::prelude::*;
use vstd::string::*;

verus! {

/// Smallest year a date may have.
pub const MIN_YEAR: i32 = -262143;

/// Largest year a date may have.
pub const MAX_YEAR: i32 = 262142;

/// A calendar date. Valid when `is_valid_date` holds.
#[derive(Clone, Copy, Debug, PartialEq, Eq, Structural)]
pub struct Date {
    pub year: i32,
    pub month: u32,
    pub day: u32,
}

pub open spec fn is_leap(y: int) -> bool {
    (y % 4 == 0 && y % 100 != 0) || y % 400 == 0
}

/// Number of days of month `m` (1..=12) of year `y`.
pub open spec fn month_len(y: int, m: int) -> int {
    if m == 2 {
        if is_leap(y) {
            29
        } else {
            28
        }
    } else if m == 4 || m == 6 || m == 9 || m == 11 {
        30
    } else {
        31
    }
}

pub open spec fn year_in_range(y: int) -> bool {
    MIN_YEAR <= y <= MAX_YEAR
}

pub open spec fn valid_ymd(y: int, m: int, d: int) -> bool {
    year_in_range(y) && 1 <= m <= 12 && 1 <= d <= month_len(y, m)
}

impl Date {
    pub open spec fn valid(self) -> bool {
        valid_ymd(self.year as int, self.month as int, self.day as int)
    }

    /// Strictly before, in calendar order.
    pub open spec fn before(self, other: Date) -> bool {
        self.year < other.year || (self.year == other.year && (self.month < other.month || (
        self.month == other.month && self.day < other.day)))
    }

    /// Not after, in calendar order.
    pub open spec fn not_after(self, other: Date) -> bool {
        self.before(other) || self == other
    }

    /// Months since year 0, counting from 0.
    pub open spec fn month_index(self) -> int {
        self.year * 12 + (self.month - 1)
    }
}

/// The date with year, month and day given, the day clamped to the length
/// of the month.
pub open spec fn clamped(y: int, m: int, d: int) -> Date {
    Date {
        year: y as i32,
        month: m as u32,
        day: (if d <= month_len(y, m) {
            d
        } else {
            month_len(y, m)
        }) as u32,
    }
}

/// `d` moved by `n` months, with the day clamped to the target month.
pub open spec fn months_added(d: Date, n: int) -> Date {
    let total = d.month_index() + n;
    clamped(total / 12, total % 12 + 1, d.day as int)
}

/// The day after `d`.
pub open spec fn next_day(d: Date) -> Date {
    if (d.day as int) < month_len(d.year as int, d.month as int) {
        Date { day: (d.day + 1) as u32, ..d }
    } else if d.month < 12 {
        Date { month: (d.month + 1) as u32, day: 1, ..d }
    } else {
        Date { year: (d.year + 1) as i32, month: 1, day: 1 }
    }
}

pub fn is_leap_year(y: i32) -> (r: bool)
    ensures
        r == is_leap(y as int),
{
    // Shift by a multiple of 400 so that the remainders are taken of a
    // non-negative number.
    let t: u64 = (y as i64 + 2_160_000_000i64) as u64;
    assert(t as int == y as int + 400 * 5_400_000);
    proof {
        lemma_mod_multiples_vanish(540_000_000, y as int, 4);
        lemma_mod_multiples_vanish(21_600_000, y as int, 100);
        lemma_mod_multiples_vanish(5_400_000, y as int, 400);
    }
    (t % 4 == 0 && t % 100 != 0) || t % 400 == 0
}

/// Number of days of a month, for any year.
fn month_length(year: i32, month: u32) -> (r: u32)
    requires
        1 <= month <= 12,
    ensures
        r == month_len(year as int, month as int),
        28 <= r <= 31,
{
    if month == 2 {
        if is_leap_year(year) {
            29
        } else {
            28
        }
    } else if month == 4 || month == 6 || month == 9 || month == 11 {
        30
    } else {
        31
    }
}

/// Number of days of a month.
pub fn days_in_month(year: i32, month: u32) -> (r: u32)
    requires
        year_in_range(year as int),
        1 <= month <= 12,
        month == 12 ==> year < MAX_YEAR,
    ensures
        r == month_len(year as int, month as int),
        28 <= r <= 31,
{
    month_length(year, month)
}

/// The date `year-month-day`, the day clamped to the length of the month.
pub fn ymd_clamp(year: i32, month: u32, day: u32) -> (r: Date)
    requires
        year_in_range(year as int),
        1 <= month <= 12,
        month == 12 ==> year < MAX_YEAR,
        day >= 1,
    ensures
        r == clamped(year as int, month as int, day as int),
        r.valid(),
{
    let dim = days_in_month(year, month);
    let d = if day < dim {
        day
    } else {
        dim
    };
    Date { year, month, day: d }
}

/// Whether moving `d` by `n` months stays within the supported years.
pub open spec fn months_added_defined(d: Date, n: int) -> bool {
    let total = d.month_index() + n;
    &&& i32::MIN <= total <= i32::MAX
    &&& year_in_range(total / 12)
    &&& total % 12 == 11 ==> total / 12 < MAX_YEAR
}

/// Moves a date by `n` months, clamping the day to the target month.
pub fn add_months(d: Date, n: i32) -> (r: Date)
    requires
        d.valid(),
        months_added_defined(d, n as int),
    ensures
        r == months_added(d, n as int),
        r.valid(),
{
    let total = d.year * 12 + (d.month - 1) as i32 + n;
    let (y, rem) = crate::months::div_rem_12(total);
    ymd_clamp(y, (rem + 1) as u32, d.day)
}

/// The earlier of two dates.
pub fn min_date(a: Date, b: Date) -> (r: Date)
    ensures
        r == (if a.before(b) {
            a
        } else {
            b
        }),
{
    if a.year < b.year || (a.year == b.year && (a.month < b.month || (a.month == b.month && a.day
        < b.day))) {
        a
    } else {
        b
    }
}

/// Whether `a` is strictly before `b`.
pub fn date_before(a: Date, b: Date) -> (r: bool)
    ensures
        r == a.before(b),
{
    a.year < b.year || (a.year == b.year && (a.month < b.month || (a.month == b.month && a.day
        < b.day)))
}

/// The day after `d`.
pub fn succ(d: Date) -> (r: Date)
    requires
        d.valid(),
        !(d.year == MAX_YEAR && d.month == 12 && d.day == 31),
    ensures
        r == next_day(d),
        r.valid(),
{
    let dim = month_length(d.year, d.month);
    if d.day < dim {
        Date { day: d.day + 1, ..d }
    } else if d.month < 12 {
        Date { month: d.month + 1, day: 1, ..d }
    } else {
        Date { year: d.year + 1, month: 1, day: 1 }
    }
}

/// The text of a date as `chrono` displays it: `YYYY-MM-DD` for years
/// 0..=9999, otherwise the year with an explicit sign and at least four
/// digits.
pub open spec fn date_text(d: Date) -> Seq<char> {
    let y = d.year as int;
    let year = if 0 <= y <= 9999 {
        fmt_int(y, 4)
    } else if y < 0 {
        seq!['-'] + zero_pad(digits((-y) as nat), 4)
    } else {
        seq!['+'] + zero_pad(digits(y as nat), 4)
    };
    year + seq!['-'] + fmt_int(d.month as int, 2) + seq!['-'] + fmt_int(d.day as int, 2)
}

/// Writes a date as `chrono` displays it.
pub fn date_string(d: Date) -> (s: String)
    ensures
        s@ == date_text(d),
{
    let mut s = String::new();
    let y = d.year;
    if 0 <= y && y <= 9999 {
        push_int(&mut s, y as i128, 4);
    } else {
        let m: u128 = if y < 0 {
            proof {
                reveal_strlit("-");
            }
            s.append("-");
            (-(y as i128)) as u128
        } else {
            proof {
                reveal_strlit("+");
            }
            s.append("+");
            y as u128
        };
        let mut body = String::new();
        push_digits(&mut body, m);
        let c = body.as_str().unicode_len();
        if c < 4 {
            push_zeros(&mut s, 4 - c);
        } else {
            push_zeros(&mut s, 0);
        }
        s.append(body.as_str());
    }
    proof {
        reveal_strlit("-");
    }
    s.append("-");
    push_int(&mut s, d.month as i128, 2);
    s.append("-");
    push_int(&mut s, d.day as i128, 2);
    assert(s@ =~= date_text(d));
    s
}

// ---------------------------------------------------------------------------
// Credit-card billing cycle
// ---------------------------------------------------------------------------
/// The open billing period and the due date of a card on a given day.
#[derive(Clone, Copy, Debug)]
pub struct BillingCycle {
    pub period_start: Date,
    pub period_end: Date,
    pub due_date: Date,
}

/// The period end: this month's closing date if not yet passed, else next
/// month's.
pub open spec fn cycle_end(today: Date, close_day: int) -> Date {
    let close_this = clamped(today.year as int, today.month as int, close_day);
    if today.not_after(close_this) {
        close_this
    } else {
        months_added(close_this, 1)
    }
}

/// The closing date of the month with index `idx` (months since year 0).
pub open spec fn closing_in(idx: int, close_day: int) -> Date {
    clamped(idx / 12, idx % 12 + 1, close_day)
}

/// The billing cycle containing `today` for the given closing and due days:
/// it starts the day after the previous month's closing date and ends on
/// this cycle's closing date.
pub open spec fn cycle_of(today: Date, close_day: int, due_day: int) -> BillingCycle {
    let end = cycle_end(today, close_day);
    let due_month = months_added(end, 1);
    BillingCycle {
        period_start: next_day(closing_in(end.month_index() - 1, close_day)),
        period_end: end,
        due_date: clamped(due_month.year as int, due_month.month as int, due_day),
    }
}

/// Days whose billing cycle can be computed: the month before the period
/// end and the month after it (the due month), with the month after that,
/// lie within the supported years.
pub open spec fn cycle_defined(today: Date, close_day: int) -> bool {
    let e = cycle_end(today, close_day).month_index();
    &&& today.valid()
    &&& MIN_YEAR * 12 < e
    &&& e + 2 <= MAX_YEAR * 12 + 11
}

/// Whether the billing cycle of `today` for `close_day` can be computed.
pub fn cycle_computable(today: Date, close_day: u32) -> (r: bool)
    requires
        1 <= close_day <= 31,
    ensures
        r == cycle_defined(today, close_day as int),
{
    if today.year < MIN_YEAR || today.year > MAX_YEAR || today.month < 1 || today.month > 12 {
        return false;
    }
    let len = month_length(today.year, today.month);
    if today.day < 1 || today.day > len {
        return false;
    }
    let t: i64 = today.year as i64 * 12 + (today.month as i64 - 1);
    let close: u32 = if close_day <= len {
        close_day
    } else {
        len
    };
    let e: i64 = if today.day <= close {
        t
    } else {
        t + 1
    };
    proof {
        let close_this = clamped(today.year as int, today.month as int, close_day as int);
        assert(close_this.month_index() == t);
        assert(close_this.day == close);
        if !today.not_after(close_this) {
            let total = t + 1;
            assert(total / 12 * 12 + total % 12 == total);
            assert(months_added(close_this, 1).month_index() == t + 1);
        }
        assert(cycle_end(today, close_day as int).month_index() == e);
    }
    MIN_YEAR as i64 * 12 < e && e + 2 <= MAX_YEAR as i64 * 12 + 11
}

/// The current open billing cycle for a card closing on `close_day` and
/// due on `due_day` (both 1..=31), relative to `today`.
pub fn billing_cycle(today: Date, close_day: u32, due_day: u32) -> (r: BillingCycle)
    requires
        cycle_defined(today, close_day as int),
        1 <= close_day <= 31,
        1 <= due_day <= 31,
    ensures
        r == cycle_of(today, close_day as int, due_day as int),
        r.period_start.valid(),
        r.period_end.valid(),
        r.due_date.valid(),
{
    let close_this = ymd_clamp(today.year, today.month, close_day);
    let period_end = if !date_before(close_this, today) {
        close_this
    } else {
        add_months(close_this, 1)
    };
    let prev_month = add_months(period_end, -1);
    let prev_close = ymd_clamp(prev_month.year, prev_month.month, close_day);
    let period_start = succ(prev_close);
    let due_month = add_months(period_end, 1);
    let due_date = ymd_clamp(due_month.year, due_month.month, due_day);
    BillingCycle { period_start, period_end, due_date }
}

/// The billing period always contains the day it is computed for.
pub proof fn lemma_cycle_contains_today(today: Date, close_day: int, due_day: int)
    requires
        cycle_defined(today, close_day),
        1 <= close_day <= 31,
        1 <= due_day <= 31,
    ensures
        cycle_of(today, close_day, due_day).period_start.not_after(today),
        today.not_after(cycle_of(today, close_day, due_day).period_end),
        cycle_of(today, close_day, due_day).period_end.before(
            cycle_of(today, close_day, due_day).due_date,
        ),
{
    let close_this = clamped(today.year as int, today.month as int, close_day);
    let end = cycle_end(today, close_day);
    let prev = closing_in(end.month_index() - 1, close_day);
    let y = today.year as int;
    let m = today.month as int;
    if today.not_after(close_this) {
        // `prev` lies in the month before today's.
        assert(prev.month_index() == today.month_index() - 1);
    } else {
        // `end` lies in the month after today's; `prev` is in today's month
        // on a day not after this month's closing day.
        assert(end.month_index() == today.month_index() + 1);
        assert(prev.month_index() == today.month_index());
    }
}

/// Billing cycles follow each other with no gap and no overlap: the cycle
/// of the day after a period ends starts on that very day.
pub proof fn lemma_cycles_follow_each_other(today: Date, close_day: int, due_day: int)
    requires
        cycle_defined(today, close_day),
        cycle_defined(next_day(cycle_of(today, close_day, due_day).period_end), close_day),
        1 <= close_day <= 31,
        1 <= due_day <= 31,
    ensures
        ({
            let after = next_day(cycle_of(today, close_day, due_day).period_end);
            cycle_of(after, close_day, due_day).period_start == after
        }),
{
    let end = cycle_end(today, close_day);
    let after = next_day(end);
    let k = end.month_index();
    // The period end is the closing date of its own month.
    assert(end == closing_in(k, close_day)) by {
        let close_this = clamped(today.year as int, today.month as int, close_day);
        if !today.not_after(close_this) {
            assert(end == months_added(close_this, 1));
        }
    }
    let close_next = clamped(after.year as int, after.month as int, close_day);
    if (end.day as int) < month_len(end.year as int, end.month as int) {
        // `after` is in the period end's month, past its closing date: its
        // period ends on the next month's closing date.
        assert(close_next == end);
        assert(!after.not_after(close_next));
        assert(cycle_end(after, close_day).month_index() == k + 1);
    } else {
        // `after` opens the next month, not after that month's closing.
        assert(after.day == 1);
        assert(after.not_after(close_next));
        assert(cycle_end(after, close_day).month_index() == k + 1);
    }
}

} // verus!

verus! {

// ---------------------------------------------------------------------------
// Reading dates
// ---------------------------------------------------------------------------
/// The date that `chrono::NaiveDate::parse_from_str(s, "%Y-%m-%d")` reads
/// from the text `s`, or `None` when it refuses it.
pub uninterp spec fn chrono_parse_ymd(s: Seq<char>) -> Option<Date>;

/// Reads a `%Y-%m-%d` date with `chrono::NaiveDate::parse_from_str`. The
/// contract claims that the result is the named parse of the text, and
/// that a date it returns is a valid calendar date within chrono's years
/// (an invariant of `NaiveDate`). Which texts chrono accepts is left to the
/// name.
#[verifier::external_body]
pub fn parse_ymd(s: &str) -> (r: Option<Date>)
    ensures
        r == chrono_parse_ymd(s@),
        r matches Some(d) ==> d.valid(),
{
    match chrono::NaiveDate::parse_from_str(s, "%Y-%m-%d") {
        Ok(d) => Some(Date { year: d.year(), month: d.month(), day: d.day() }),
        Err(_) => None,
    }
}

/// Whether moving `d` by `n` months stays within the supported years.
pub fn months_added_ok(d: Date, n: i32) -> (r: bool)
    requires
        d.valid(),
    ensures
        r == months_added_defined(d, n as int),
{
    let total: i64 = d.year as i64 * 12 + (d.month - 1) as i64 + n as i64;
    if total < i32::MIN as i64 || total > i32::MAX as i64 {
        return false;
    }
    let (y, rem) = crate::months::div_rem_12(total as i32);
    y >= MIN_YEAR && y <= MAX_YEAR && (rem != 11 || y < MAX_YEAR)
}

/// A `YYYY-MM-DD` date moved by `n` months (the day clamped to the target
/// month), written as chrono writes dates.
pub fn add_months_str(date: &str, n: i32) -> (r: Result<String, ApiError>)
    requires
        chrono_parse_ymd(date@) matches Some(d) ==> months_added_defined(d, n as int),
    ensures
        match chrono_parse_ymd(date@) {
            Some(d) => r matches Ok(s) && s@ == date_text(months_added(d, n as int)),
            None => r matches Err(e) && is_validation(e, "tx_date"@, "expected YYYY-MM-DD"@),
        },
{
    let d = match parse_ymd(date) {
        Some(d) => d,
        None => {
            return Err(validation("tx_date", "expected YYYY-MM-DD"));
        },
    };
    let moved = add_months(d, n);
    Ok(date_string(moved))
}

/// `add_months_str`, or `None` where moving the date would leave the
/// supported years.
pub fn add_months_checked(date: &str, n: i32) -> (r: Option<Result<String, ApiError>>)
    ensures
        r is None <==> (chrono_parse_ymd(date@) matches Some(d) && !months_added_defined(
            d,
            n as int,
        )),
        r matches Some(x) ==> match chrono_parse_ymd(date@) {
            Some(d) => x matches Ok(s) && s@ == date_text(months_added(d, n as int)),
            None => x matches Err(e) && is_validation(e, "tx_date"@, "expected YYYY-MM-DD"@),
        },
{
    match parse_ymd(date) {
        Some(d) => {
            if !months_added_ok(d, n) {
                return None;
            }
        },
        None => {},
    }
    Some(add_months_str(date, n))
}

// ---------------------------------------------------------------------------
// Instants
// ---------------------------------------------------------------------------
/// The instant that `chrono::DateTime::parse_from_rfc3339` reads from a
/// text, as seconds since the Unix epoch and the nanoseconds within that
/// second, or `None` when it refuses the text.
pub uninterp spec fn rfc3339_instant(s: Seq<char>) -> Option<(int, int)>;

/// Reads an RFC 3339 timestamp with `chrono::DateTime::parse_from_rfc3339`,
/// returning `timestamp()` and `timestamp_subsec_nanos()`. The contract
/// names the result after the text; which texts are accepted is left to
/// the name.
#[verifier::external_body]
pub fn parse_rfc3339(s: &str) -> (r: Option<(i64, u32)>)
    ensures
        match r {
            Some((secs, nanos)) => rfc3339_instant(s@) == Some((secs as int, nanos as int)),
            None => rfc3339_instant(s@) is None,
        },
{
    match chrono::DateTime::parse_from_rfc3339(s) {
        Ok(t) => Some((t.timestamp(), t.timestamp_subsec_nanos())),
        Err(_) => None,
    }
}

/// Whether instant `a` comes strictly before instant `b`.
pub open spec fn instant_before(a: (int, int), b: (int, int)) -> bool {
    a.0 < b.0 || (a.0 == b.0 && a.1 < b.1)
}

/// Whether the instant written in `stamp` has passed at `now`: strictly
/// before it, or also at it when `inclusive`; `None` when the text does not
/// read as an RFC 3339 timestamp.
pub open spec fn stamp_passed_spec(stamp: Seq<char>, now: (int, int), inclusive: bool) -> Option<
    bool,
> {
    match rfc3339_instant(stamp) {
        Some(t) => Some(instant_before(t, now) || (inclusive && t == now)),
        None => None,
    }
}

/// Whether the instant written in `stamp` has passed at the instant
/// `now_secs` seconds and `now_nanos` nanoseconds after the Unix epoch.
pub fn stamp_passed(stamp: &str, now_secs: i64, now_nanos: u32, inclusive: bool) -> (r: Option<
    bool,
>)
    ensures
        r == stamp_passed_spec(stamp@, (now_secs as int, now_nanos as int), inclusive),
{
    match parse_rfc3339(stamp) {
        Some((secs, nanos)) => {
            let before = secs < now_secs || (secs == now_secs && nanos < now_nanos);
            let at = secs == now_secs && nanos == now_nanos;
            Some(before || (inclusive && at))
        },
        None => None,
    }
}

} // verus!
