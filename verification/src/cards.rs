//! Credit cards: each card owns a `credit_card` ledger account holding its
//! debt, and has a billing cycle given by its closing and due days.
use crate::calendar::{
    billing_cycle, cycle_computable, cycle_defined, cycle_of, date_before, date_string, date_text,
    lemma_cycle_contains_today, min_date, BillingCycle, Date,
};
use crate::error::{is_validation, validation, ApiError};
use crate::text::str_eq;
use vstd::prelude::*;
use vstd::string::*;

verus! {

/// A card and its ledger account.
#[derive(Debug)]
pub struct Card {
    pub id: String,
    pub account_id: String,
    pub payment_account_id: Option<String>,
    pub last_four_digits: String,
    pub brand: String,
    pub card_type: String,
    pub limit: Option<i64>,
    pub close_day: Option<i64>,
    pub due_day: Option<i64>,
    pub archived: bool,
    pub created_at: String,
    pub updated_at: String,
}

/// Request to create a card attached to an asset account.
#[derive(Debug)]
pub struct CreateCard {
    pub payment_account_id: String,
    pub last_four_digits: String,
    pub brand: String,
    pub card_type: String,
    pub limit: Option<i64>,
    pub close_day: Option<i64>,
    pub due_day: Option<i64>,
}

/// Request to edit a card.
#[derive(Debug)]
pub struct UpdateCard {
    pub payment_account_id: Option<String>,
    pub last_four_digits: Option<String>,
    pub brand: Option<String>,
    pub limit: Option<i64>,
    pub close_day: Option<i64>,
    pub due_day: Option<i64>,
    pub archived: Option<bool>,
}

/// The open invoice of a card.
#[derive(Debug)]
pub struct InvoicePreview {
    pub card_id: String,
    pub period_start: String,
    pub period_end: String,
    pub due_date: String,
    pub accrued: i64,
    pub cycle_total: i64,
    pub outstanding: i64,
    pub limit: Option<i64>,
}

/// The open invoices of all cards.
#[derive(Debug)]
pub struct InvoicePreviewList {
    pub items: Vec<InvoicePreview>,
}

/// A closed invoice of a card.
#[derive(Debug)]
pub struct CardInvoice {
    pub id: String,
    pub card_id: String,
    pub period_start: String,
    pub period_end: String,
    pub due_date: String,
    pub total: i64,
    pub paid_at: Option<String>,
    pub paid_transaction_id: Option<String>,
}

/// The cards of a user.
#[derive(Debug)]
pub struct CardList {
    pub items: Vec<Card>,
}

impl CreateCard {
    /// Only credit cards can be created.
    pub fn validate(&self) -> (r: Result<(), ApiError>)
        ensures
            r is Ok <==> self.card_type@ == "CREDIT"@,
            r matches Err(e) ==> is_validation(
                e,
                "type"@,
                "only CREDIT cards bind to a credit_card account; DEBIT cards are out of MVP"@,
            ),
    {
        if !str_eq(self.card_type.as_str(), "CREDIT") {
            return Err(
                validation(
                    "type",
                    "only CREDIT cards bind to a credit_card account; DEBIT cards are out of MVP",
                ),
            );
        }
        Ok(())
    }
}

/// The currency of the asset account a new card is attached to, or the
/// error when there is no such account.
pub fn payment_account_currency(found: Option<String>) -> (r: Result<String, ApiError>)
    ensures
        match found {
            Some(c) => r matches Ok(x) && x == c,
            None => r matches Err(e) && is_validation(
                e,
                "payment_account_id"@,
                "must reference an asset account the card is attached to"@,
            ),
        },
{
    match found {
        Some(c) => Ok(c),
        None => Err(
            validation(
                "payment_account_id",
                "must reference an asset account the card is attached to",
            ),
        ),
    }
}

/// The name of a card's ledger account: `"<brand> •••• <last four>"`.
pub fn card_account_name(brand: &str, last_four_digits: &str) -> (r: String)
    ensures
        r@ == brand@ + " •••• "@ + last_four_digits@,
{
    let mut s = String::from_str(brand);
    s.append(" •••• ");
    s.append(last_four_digits);
    s
}

/// A closing or due day stored on a card, defaulted and kept in 1..=31.
pub open spec fn card_day(day: Option<i64>, default: int) -> int {
    let d = match day {
        Some(v) => v as int,
        None => default,
    };
    if d < 1 {
        1
    } else if d > 31 {
        31
    } else {
        d
    }
}

fn clamp_card_day(day: Option<i64>, default: i64) -> (r: u32)
    requires
        1 <= default <= 31,
    ensures
        r == card_day(day, default as int),
{
    let d = match day {
        Some(v) => v,
        None => default,
    };
    if d < 1 {
        1
    } else if d > 31 {
        31
    } else {
        d as u32
    }
}

/// The dates of a card's open invoice and the ranges its charges are
/// summed over.
#[derive(Debug)]
pub struct InvoiceDates {
    pub cycle: BillingCycle,
    /// Last day of charges accrued so far: today, or the period end if
    /// earlier.
    pub accrued_until: Date,
}

/// The open invoice of a card on `today`: closing day 1 and due day 10
/// unless set, both kept in 1..=31.
pub fn invoice_dates(today: Date, close_day: Option<i64>, due_day: Option<i64>) -> (r:
    InvoiceDates)
    requires
        cycle_defined(today, card_day(close_day, 1)),
    ensures
        r.cycle == cycle_of(today, card_day(close_day, 1), card_day(due_day, 10)),
        r.accrued_until == (if today.before(r.cycle.period_end) {
            today
        } else {
            r.cycle.period_end
        }),
        r.cycle.period_start.not_after(r.accrued_until),
        r.accrued_until.not_after(r.cycle.period_end),
{
    let close = clamp_card_day(close_day, 1);
    let due = clamp_card_day(due_day, 10);
    let cycle = billing_cycle(today, close, due);
    proof {
        lemma_cycle_contains_today(today, close as int, due as int);
    }
    let accrued_until = min_date(today, cycle.period_end);
    InvoiceDates { cycle, accrued_until }
}

/// The open invoice of a card on `today`, or `None` when its billing
/// cycle falls outside the supported dates.
pub fn checked_invoice_dates(today: Date, close_day: Option<i64>, due_day: Option<i64>) -> (r:
    Option<InvoiceDates>)
    ensures
        r is None <==> !cycle_defined(today, card_day(close_day, 1)),
        r matches Some(d) ==> d.cycle == cycle_of(today, card_day(close_day, 1), card_day(due_day, 10)),
{
    let close = clamp_card_day(close_day, 1);
    if cycle_computable(today, close) {
        Some(invoice_dates(today, close_day, due_day))
    } else {
        None
    }
}

/// Whether charges are summed over `[start, end]`: not when the range is
/// empty.
pub fn charge_range_nonempty(start: Date, end: Date) -> (r: bool)
    ensures
        r == !end.before(start),
{
    !date_before(end, start)
}

impl InvoicePreview {
    /// The preview of a card's open invoice.
    pub fn new(
        card_id: String,
        dates: &InvoiceDates,
        accrued: i64,
        cycle_total: i64,
        outstanding: i64,
        limit: Option<i64>,
    ) -> (r: InvoicePreview)
        ensures
            r.card_id == card_id,
            r.period_start@ == date_text(dates.cycle.period_start),
            r.period_end@ == date_text(dates.cycle.period_end),
            r.due_date@ == date_text(dates.cycle.due_date),
            r.accrued == accrued,
            r.cycle_total == cycle_total,
            r.outstanding == outstanding,
            r.limit == limit,
    {
        InvoicePreview {
            card_id,
            period_start: date_string(dates.cycle.period_start),
            period_end: date_string(dates.cycle.period_end),
            due_date: date_string(dates.cycle.due_date),
            accrued,
            cycle_total,
            outstanding,
            limit,
        }
    }
}

} // verus!
