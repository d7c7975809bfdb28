//! Report figures: the monthly summary, budget rows, and the net-worth
//! series with its month-over-month change.
use crate::error::{is_validation, validation, ApiError};
use crate::months::{
    has_month_shape, lemma_month_text_injective, lemma_month_text_shiftable, month_field_signed,
    month_text, parse_month, shift_defined,
    shift_month, shift_total, shifted_month_text, year_field,
};
use crate::accounts::{balance_sql, lemma_balance_expr_is_in_minus_out};
use crate::sql::means_balance;
use crate::text::{fmt_int, push_int};
use vstd::prelude::*;
use vstd::string::*;
use vstd::utf8::encode_utf8;

verus! {

/// Income, spending and balances of one month.
#[derive(Debug)]
pub struct MonthlyReport {
    pub month: String,
    pub income_total: i64,
    pub spent_total: i64,
    pub budget_balance: i64,
    pub carry_over_in: i64,
    pub carry_over_out: i64,
}

/// Query of the monthly report and of the budget listing.
#[derive(Debug)]
pub struct MonthQuery {
    pub month: String,
}

/// Query of the net-worth report.
#[derive(Debug)]
pub struct NetWorthQuery {
    pub to: Option<String>,
    pub months: Option<u32>,
}

/// Net worth at the end of a month.
#[derive(Debug)]
pub struct NetWorthPoint {
    pub month: String,
    pub net_worth: i64,
}

/// The net-worth series, its last value and the change against the month
/// before.
#[derive(Debug)]
pub struct NetWorthReport {
    pub points: Vec<NetWorthPoint>,
    pub current: i64,
    pub change_pct: Option<String>,
}

impl MonthlyReport {
    /// The report of a month: what is left of the budget is the budgeted
    /// total minus what was spent.
    pub fn new(
        month: String,
        income_total: i64,
        spent_total: i64,
        budget_total: i64,
        carry_over_in: i64,
        carry_over_out: i64,
    ) -> (r: MonthlyReport)
        requires
            i64::MIN <= budget_total - spent_total <= i64::MAX,
        ensures
            r.month == month,
            r.income_total == income_total,
            r.spent_total == spent_total,
            r.budget_balance == budget_total - spent_total,
            r.carry_over_in == carry_over_in,
            r.carry_over_out == carry_over_out,
    {
        MonthlyReport {
            month,
            income_total,
            spent_total,
            budget_balance: budget_total - spent_total,
            carry_over_in,
            carry_over_out,
        }
    }
}

// ---------------------------------------------------------------------------
// Month-over-month change
// ---------------------------------------------------------------------------
pub open spec fn abs(a: int) -> int {
    if a < 0 {
        -a
    } else {
        a
    }
}

/// Integer division rounding toward zero, as Rust's `/` on integers.
pub open spec fn tdiv(a: int, b: int) -> int {
    if (a < 0) == (b < 0) {
        abs(a) / abs(b)
    } else {
        -(abs(a) / abs(b))
    }
}

/// The remainder that goes with `tdiv`, as Rust's `%` on integers.
pub open spec fn trem(a: int, b: int) -> int {
    a - b * tdiv(a, b)
}

/// The change from `prev` to `current` in percent with two decimals,
/// truncated toward zero, or `None` when there is nothing to compare with.
pub open spec fn change_pct_text(current: int, prev: int) -> Option<Seq<char>> {
    if prev == 0 {
        None
    } else {
        let bp = tdiv((current - prev) * 10000, prev);
        let ip = tdiv(bp, 100);
        let fp = abs(trem(bp, 100));
        let sign = if bp < 0 && ip == 0 {
            seq!['-']
        } else {
            Seq::empty()
        };
        Some(sign + fmt_int(ip, 0) + seq!['.'] + fmt_int(fp, 2))
    }
}

/// Percentage change from `prev` to `current`, e.g. `"4.20"` for +4.2%.
pub fn change_pct(current: i64, prev: i64) -> (r: Option<String>)
    requires
        i64::MIN <= current - prev <= i64::MAX,
    ensures
        match change_pct_text(current as int, prev as int) {
            Some(t) => r matches Some(s) && s@ == t,
            None => r is None,
        },
{
    if prev == 0 {
        return None;
    }
    let diff = current - prev;
    let num: i128 = diff as i128 * 10000;
    let a: u128 = if num < 0 {
        (-num) as u128
    } else {
        num as u128
    };
    let b: u128 = if prev < 0 {
        (-(prev as i128)) as u128
    } else {
        prev as u128
    };
    let q = a / b;
    let negative = (num < 0) != (prev < 0) && q != 0;
    let ghost bp_spec = tdiv(num as int, prev as int);
    proof {
        assert(abs(num as int) == a);
        assert(abs(prev as int) == b);
        assert(q <= a);
        if (num < 0) == (prev < 0) {
            assert(bp_spec == q);
        } else {
            assert(bp_spec == -(q as int));
        }
    }
    let int_part: i128 = if negative {
        -((q / 100) as i128)
    } else {
        (q / 100) as i128
    };
    let frac: i128 = (q % 100) as i128;
    let mut s = String::new();
    proof {
        let bp = bp_spec;
        assert(abs(bp) == q);
        assert(tdiv(bp, 100) == int_part);
        assert(trem(bp, 100) == bp - 100 * int_part);
        if bp < 0 {
            assert(abs(trem(bp, 100)) == frac);
        } else {
            assert(abs(trem(bp, 100)) == frac);
        }
        reveal_strlit("-");
        reveal_strlit(".");
    }
    if negative && q / 100 == 0 {
        s.append("-");
    }
    push_int(&mut s, int_part, 0);
    s.append(".");
    push_int(&mut s, frac, 2);
    proof {
        assert(s@ =~= change_pct_text(current as int, prev as int)->0);
    }
    Some(s)
}

/// The last net worth of the series (0 when empty) and the change against
/// the one before it.
pub fn net_worth_summary(points: &[i64]) -> (r: (i64, Option<String>))
    requires
        points@.len() >= 2 ==> i64::MIN <= points@.last() - points@[points@.len() - 2]
            <= i64::MAX,
    ensures
        r.0 == (if points@.len() == 0 {
            0
        } else {
            points@.last()
        }),
        points@.len() < 2 ==> r.1 is None,
        points@.len() >= 2 ==> match change_pct_text(
            points@.last() as int,
            points@[points@.len() - 2] as int,
        ) {
            Some(t) => r.1 matches Some(s) && s@ == t,
            None => r.1 is None,
        },
{
    let n = points.len();
    if n == 0 {
        return (0, None);
    }
    let current = points[n - 1];
    if n < 2 {
        return (current, None);
    }
    let prev = points[n - 2];
    (current, change_pct(current, prev))
}

// ---------------------------------------------------------------------------
// The net-worth window
// ---------------------------------------------------------------------------
/// A month of the net-worth window and the exclusive date cutoff of its
/// balances (the first day of the following month).
#[derive(Debug)]
pub struct NetWorthMonth {
    pub month: String,
    pub cutoff: String,
}

/// Number of months in the window: 7 unless given, between 1 and 24.
pub open spec fn window_len(months: Option<u32>) -> int {
    let m = match months {
        Some(v) => v as int,
        None => 7,
    };
    if m < 1 {
        1
    } else if m > 24 {
        24
    } else {
        m
    }
}

/// The months ending at `to`, oldest first, and for each the cutoff of its
/// balances. `to` must be a `YYYY-MM` month. The cutoff is computed from
/// the month's own text, shifted by one month.
pub fn net_worth_window(to: &str, months: Option<u32>) -> (r: Result<Vec<NetWorthMonth>, ApiError>)
    ensures
        match r {
            Ok(v) => {
                &&& parse_month(to.spec_bytes()) is Ok
                &&& v@.len() == window_len(months)
                &&& forall|j: int|
                    0 <= j < v@.len() ==> {
                        let m = #[trigger] v@[j];
                        &&& m.month@ == shifted_month_text(
                            to.spec_bytes(),
                            -(window_len(months) - 1 - j),
                        )
                        &&& m.cutoff@ == shifted_month_text(encode_utf8(m.month@), 1) + "-01"@
                    }
            },
            Err(e) => parse_month(to.spec_bytes()) is Err && is_validation(
                e,
                "to"@,
                "expected YYYY-MM"@,
            ),
        },
{
    let n: u32 = match months {
        Some(v) => if v < 1 {
            1
        } else if v > 24 {
            24
        } else {
            v
        },
        None => 7,
    };
    if crate::months::parse_month_parts(to).is_err() {
        return Err(validation("to", "expected YYYY-MM"));
    }
    proof {
        crate::months::lemma_year_field_range(to.spec_bytes());
    }
    let mut out: Vec<NetWorthMonth> = Vec::new();
    let mut j: u32 = 0;
    while j < n
        invariant
            j <= n <= 24,
            n == window_len(months),
            parse_month(to.spec_bytes()) is Ok,
            has_month_shape(to.spec_bytes()),
            year_field(to.spec_bytes()) matches Some(y) && -999 <= y <= 9999,
            month_field_signed(to.spec_bytes()) matches Some(m) && -9 <= m <= 99,
            out@.len() == j,
            forall|k: int|
                0 <= k < j ==> {
                    let m = #[trigger] out@[k];
                    &&& m.month@ == shifted_month_text(to.spec_bytes(), -(n - 1 - k))
                    &&& m.cutoff@ == shifted_month_text(encode_utf8(m.month@), 1) + "-01"@
                },
        decreases n - j,
    {
        let delta: i32 = -((n - 1 - j) as i32);
        let month = shift_month(to, delta);
        proof {
            let total = shift_total(to.spec_bytes(), delta as int);
            assert(-12100 <= total <= 120100);
            lemma_month_text_shiftable(total / 12, total % 12 + 1);
        }
        let mut cutoff = shift_month(month.as_str(), 1);
        proof {
            reveal_strlit("-01");
        }
        cutoff.append("-01");
        out.push(NetWorthMonth { month, cutoff });
        j = j + 1;
    }
    Ok(out)
}

/// The months of a window are pairwise distinct, so that no month is
/// reported twice: for any two positions `j < k` of a window of `len`
/// months ending at `to`, whose months all have four-digit years.
pub proof fn lemma_window_months_distinct(to: Seq<u8>, len: int, j: int, k: int)
    requires
        year_field(to) is Some,
        month_field_signed(to) is Some,
        0 <= j < k < len,
        0 <= shift_total(to, -(len - 1)),
        shift_total(to, 0) < 120000,
    ensures
        shifted_month_text(to, -(len - 1 - j)) != shifted_month_text(to, -(len - 1 - k)),
{
    let tj = shift_total(to, -(len - 1 - j));
    let tk = shift_total(to, -(len - 1 - k));
    assert(0 <= tj < tk < 120000);
    if shifted_month_text(to, -(len - 1 - j)) == shifted_month_text(to, -(len - 1 - k)) {
        lemma_month_text_injective(tj / 12, tj % 12 + 1, tk / 12, tk % 12 + 1);
        assert(tj == 12 * (tj / 12) + tj % 12);
        assert(tk == 12 * (tk / 12) + tk % 12);
    }
}

/// `n` SQL placeholders separated by commas.
pub open spec fn placeholders(n: nat) -> Seq<char>
    decreases n,
{
    if n == 0 {
        Seq::empty()
    } else if n == 1 {
        "?"@
    } else {
        placeholders((n - 1) as nat) + ",?"@
    }
}

/// The query of the summed balances, before a date, of the user's live,
/// unarchived accounts of `kinds` kinds. Parameters: the date twice, the
/// user, then each kind.
pub open spec fn balances_at_sql(kinds: nat) -> Seq<char> {
    "SELECT COALESCE(SUM( a.initial_balance + COALESCE((SELECT SUM(value) FROM transactions WHERE destination_account_id = a.id AND deleted_at IS NULL AND tx_date < ?), 0) - COALESCE((SELECT SUM(value) FROM transactions WHERE source_account_id      = a.id AND deleted_at IS NULL AND tx_date < ?), 0) ), 0) FROM accounts a WHERE a.user_id = ? AND a.archived = 0 AND a.deleted_at IS NULL AND a.type IN ("@
        + placeholders(kinds) + ")"@
}

/// The summed balances at a date add up, over the selected accounts, the
/// same balance as an account's own (with the date as the cutoff
/// parameter): its initial balance plus the money that came in minus the
/// money that went out before the date. Spending from an account lowers
/// the sum by what was spent.
pub proof fn lemma_balances_at_sums_balances(kinds: nat)
    ensures
        balances_at_sql(kinds) == "SELECT COALESCE(SUM( "@ + balance_sql("?"@)
            + " ), 0) FROM accounts a WHERE a.user_id = ? AND a.archived = 0 AND a.deleted_at IS NULL AND a.type IN ("@
            + placeholders(kinds) + ")"@,
        means_balance(balance_sql("?"@), "?"@),
{
    lemma_balance_expr_is_in_minus_out("?"@);
    reveal_strlit(
        "SELECT COALESCE(SUM( a.initial_balance + COALESCE((SELECT SUM(value) FROM transactions WHERE destination_account_id = a.id AND deleted_at IS NULL AND tx_date < ?), 0) - COALESCE((SELECT SUM(value) FROM transactions WHERE source_account_id      = a.id AND deleted_at IS NULL AND tx_date < ?), 0) ), 0) FROM accounts a WHERE a.user_id = ? AND a.archived = 0 AND a.deleted_at IS NULL AND a.type IN (",
    );
    reveal_strlit("SELECT COALESCE(SUM( ");
    reveal_strlit(
        " ), 0) FROM accounts a WHERE a.user_id = ? AND a.archived = 0 AND a.deleted_at IS NULL AND a.type IN (",
    );
    reveal_strlit(
        "a.initial_balance + COALESCE((SELECT SUM(value) FROM transactions WHERE destination_account_id = a.id AND deleted_at IS NULL AND tx_date < ",
    );
    reveal_strlit("), 0) - COALESCE((SELECT SUM(value) FROM transactions WHERE source_account_id      = a.id AND deleted_at IS NULL AND tx_date < ");
    reveal_strlit("), 0)");
    reveal_strlit("?");
    assert(balances_at_sql(kinds) =~= "SELECT COALESCE(SUM( "@ + balance_sql("?"@)
        + " ), 0) FROM accounts a WHERE a.user_id = ? AND a.archived = 0 AND a.deleted_at IS NULL AND a.type IN ("@
        + placeholders(kinds) + ")"@);
}

/// Builds the query of summed balances for `kinds` account kinds.
pub fn balances_at_query(kinds: usize) -> (r: String)
    ensures
        r@ == balances_at_sql(kinds as nat),
{
    let mut s = String::from_str(
        "SELECT COALESCE(SUM( a.initial_balance + COALESCE((SELECT SUM(value) FROM transactions WHERE destination_account_id = a.id AND deleted_at IS NULL AND tx_date < ?), 0) - COALESCE((SELECT SUM(value) FROM transactions WHERE source_account_id      = a.id AND deleted_at IS NULL AND tx_date < ?), 0) ), 0) FROM accounts a WHERE a.user_id = ? AND a.archived = 0 AND a.deleted_at IS NULL AND a.type IN (",
    );
    let ghost head = s@;
    let mut i: usize = 0;
    while i < kinds
        invariant
            i <= kinds,
            s@ == head + placeholders(i as nat),
        decreases kinds - i,
    {
        if i == 0 {
            s.append("?");
            proof {
                reveal_strlit("?");
                assert(placeholders(1) == "?"@);
            }
        } else {
            s.append(",?");
            proof {
                assert(placeholders((i + 1) as nat) == placeholders(i as nat) + ",?"@);
            }
        }
        i = i + 1;
    }
    s.append(")");
    s
}

} // verus!
