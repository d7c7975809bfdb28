//! Monthly bills: recurring templates with per-month payments and
//! per-month overrides.
use crate::error::{is_validation, validation, ApiError};
use crate::ledger::{opt_string_view, opt_view, require_positive};
use crate::calendar::{days_in_month, month_len};
use crate::months::{
    lemma_year_field_range, month_field_signed, parse_month, parse_month_parts, shift_month_str,
    shifted_month_text, year_field,
};
use crate::text::{fmt_int, push_int, str_eq};
use vstd::prelude::*;
use vstd::string::*;

verus! {

/// A recurring monthly bill, with the payment state of one month.
#[derive(Debug)]
pub struct Bill {
    pub id: String,
    pub account_id: Option<String>,
    pub category_id: Option<String>,
    pub description: String,
    pub value: i64,
    pub currency: String,
    pub due_day: i64,
    pub paid: bool,
    pub paid_at: Option<String>,
    pub paid_transaction_id: Option<String>,
    pub created_at: String,
    pub updated_at: String,
}

/// Request to create a bill.
#[derive(Debug)]
pub struct CreateBill {
    pub account_id: Option<String>,
    pub category_id: Option<String>,
    pub description: String,
    pub value: i64,
    pub currency: String,
    pub due_day: i64,
}

/// A payment of a bill.
#[derive(Debug)]
pub struct PayBill {
    pub account_id: String,
    pub tx_date: String,
    pub value: i64,
}

/// The bills of a month.
#[derive(Debug)]
pub struct BillList {
    pub items: Vec<Bill>,
}

/// Request to edit a bill, for one month, this and the next, or all months.
#[derive(Debug)]
pub struct UpdateBill {
    pub description: Option<String>,
    pub value: Option<i64>,
    pub due_day: Option<i64>,
    pub account_id: Option<String>,
    pub category_id: Option<String>,
    pub scope: Option<String>,
    pub month: Option<String>,
}

/// Request to pay a bill for a month.
#[derive(Debug)]
pub struct PayBillRequest {
    pub source_account_id: String,
    pub tx_date: Option<String>,
    pub payment_method: Option<String>,
    pub amount: Option<i64>,
}

/// Query of the bill listing.
#[derive(Debug)]
pub struct ListQuery {
    pub month: Option<String>,
}

/// Query naming the month of a payment.
#[derive(Debug)]
pub struct PayQuery {
    pub month: Option<String>,
}

/// Refuses a due day outside 1..=31.
pub fn validate_due_day(d: i64) -> (r: Result<(), ApiError>)
    ensures
        r is Ok <==> 1 <= d <= 31,
        r matches Err(e) ==> is_validation(e, "due_day"@, "must be between 1 and 31"@),
{
    if 1 <= d && d <= 31 {
        Ok(())
    } else {
        Err(validation("due_day", "must be between 1 and 31"))
    }
}

impl CreateBill {
    /// A new bill needs a positive value and a due day in 1..=31.
    pub fn validate(&self) -> (r: Result<(), ApiError>)
        ensures
            r is Ok <==> (self.value > 0 && 1 <= self.due_day <= 31),
            r matches Err(e) ==> if self.value <= 0 {
                is_validation(e, "value"@, "must be > 0"@)
            } else {
                is_validation(e, "due_day"@, "must be between 1 and 31"@)
            },
    {
        require_positive("value", self.value)?;
        validate_due_day(self.due_day)
    }
}

impl UpdateBill {
    /// Whether the fields of the edit are acceptable.
    pub open spec fn fields_ok(self) -> bool {
        (self.due_day matches Some(d) ==> 1 <= d <= 31) && (self.value matches Some(v) ==> v > 0)
    }

    /// The error an edit with unacceptable fields is refused with: the due
    /// day is checked before the value.
    pub open spec fn fields_error(self, e: ApiError) -> bool {
        if self.due_day matches Some(d) && !(1 <= d <= 31) {
            is_validation(e, "due_day"@, "must be between 1 and 31"@)
        } else {
            is_validation(e, "value"@, "must be > 0"@)
        }
    }

    /// A given due day must be in 1..=31 and a given value positive.
    pub fn validate(&self) -> (r: Result<(), ApiError>)
        ensures
            r is Ok <==> self.fields_ok(),
            r matches Err(e) ==> self.fields_error(e),
    {
        if let Some(d) = self.due_day {
            validate_due_day(d)?;
        }
        if let Some(v) = self.value {
            require_positive("value", v)?;
        }
        Ok(())
    }
}

/// `format!("{}-{:02}", month, day)`: a day of a `YYYY-MM` month.
pub fn day_of_month(month: &str, day: i64) -> (r: String)
    ensures
        r@ == month@ + seq!['-'] + fmt_int(day as int, 2),
{
    let mut s = String::from_str(month);
    proof {
        reveal_strlit("-");
    }
    s.append("-");
    push_int(&mut s, day as i128, 2);
    s
}

/// What an edit of a bill changes.
#[derive(Debug)]
pub enum BillEdit {
    /// Overrides of the template for the listed months.
    Months(Vec<String>),
    /// The template itself, every past payment, and no overrides.
    Template,
}

/// What an edit with `scope` for the reference month `month` changes, or
/// the error it is refused with: the month is checked first, then the
/// scope.
pub open spec fn bill_edit_outcome(scope: Option<Seq<char>>, month: &str, r: Result<BillEdit, ApiError>) -> bool {
    match r {
        Ok(BillEdit::Months(v)) => parse_month(month.spec_bytes()) is Ok && (scope matches Some(s)
            && ((s == "this_month"@ && v@.len() == 1 && v@[0]@ == month@) || (s == "this_and_next"@
            && v@.len() == 2 && v@[0]@ == month@ && v@[1]@ == shifted_month_text(
            month.spec_bytes(),
            1,
        )))),
        Ok(BillEdit::Template) => parse_month(month.spec_bytes()) is Ok && (scope is None || (
        scope matches Some(s) && s == "all"@)),
        Err(e) => if parse_month(month.spec_bytes()) is Err {
            is_validation(e, "month"@, "expected YYYY-MM"@)
        } else {
            (scope matches Some(s) && s != "this_month"@ && s != "this_and_next"@ && s != "all"@
                && is_validation(e, "scope"@, "unknown scope: "@ + s + " (this_month | this_and_next | all)"@))
        },
    }
}

/// Decides what an edit of a bill changes, for a reference month (already
/// defaulted to the current one): `this_month` overrides that month,
/// `this_and_next` that month and the next, `all` (the default) the
/// template.
pub fn plan_bill_edit(scope: Option<&str>, month: &str) -> (r: Result<BillEdit, ApiError>)
    ensures
        bill_edit_outcome(opt_view(scope), month, r),
{
    if parse_month_parts(month).is_err() {
        return Err(validation("month", "expected YYYY-MM"));
    }
    proof {
        crate::months::lemma_year_field_range(month.spec_bytes());
    }
    let s = match scope {
        Some(s) => s,
        None => {
            return Ok(BillEdit::Template);
        },
    };
    if str_eq(s, "this_month") {
        let mut v: Vec<String> = Vec::new();
        v.push(String::from_str(month));
        Ok(BillEdit::Months(v))
    } else if str_eq(s, "this_and_next") {
        let next = match shift_month_str(month, 1) {
            Ok(n) => n,
            Err(e) => {
                return Err(e);
            },
        };
        let mut v: Vec<String> = Vec::new();
        v.push(String::from_str(month));
        v.push(next);
        Ok(BillEdit::Months(v))
    } else if str_eq(s, "all") {
        Ok(BillEdit::Template)
    } else {
        let mut reason = String::from_str("unknown scope: ");
        reason.append(s);
        reason.append(" (this_month | this_and_next | all)");
        Err(ApiError::Validation { field: String::from_str("scope"), reason })
    }
}

/// What an edit of a bill needs next.
#[derive(Debug)]
pub enum BillUpdateStep {
    /// Look up whether the user has a live bill of this id.
    FindBill,
    /// Every check passed: apply this edit.
    Apply(BillEdit),
}

/// The next step of an edit of a bill, given whether the bill was found
/// (`None` while it has not been looked up) and the reference month: the
/// fields of the request are checked first, then the bill must exist, then
/// the month and the scope.
pub fn bill_update_step(req: &UpdateBill, found: Option<bool>, month: &str) -> (r: Result<
    BillUpdateStep,
    ApiError,
>)
    ensures
        !req.fields_ok() ==> (r matches Err(e) && req.fields_error(e)),
        req.fields_ok() ==> match found {
            None => r matches Ok(BillUpdateStep::FindBill),
            Some(false) => r matches Err(ApiError::NotFound),
            Some(true) => match r {
                Ok(BillUpdateStep::Apply(edit)) => bill_edit_outcome(
                    opt_string_view(req.scope),
                    month,
                    Ok(edit),
                ),
                Ok(BillUpdateStep::FindBill) => false,
                Err(e) => bill_edit_outcome(opt_string_view(req.scope), month, Err(e)),
            },
        },
{
    req.validate()?;
    match found {
        None => Ok(BillUpdateStep::FindBill),
        Some(false) => Err(ApiError::NotFound),
        Some(true) => {
            let scope: Option<&str> = match &req.scope {
                Some(s) => Some(s.as_str()),
                None => None,
            };
            match plan_bill_edit(scope, month) {
                Ok(edit) => Ok(BillUpdateStep::Apply(edit)),
                Err(e) => Err(e),
            }
        },
    }
}

/// The transaction that pays a bill for a month.
#[derive(Debug)]
pub struct BillPayment {
    pub value: i64,
    pub tx_date: String,
    pub payment_method: String,
}

/// The day a bill due on `due_day` falls due in month `m` of year `y`: the
/// due day, kept within the days of that month.
pub open spec fn due_day_in(y: int, m: int, due_day: int) -> int {
    if due_day < 1 {
        1
    } else if due_day > month_len(y, m) {
        month_len(y, m)
    } else {
        due_day
    }
}

/// Decides the transaction paying a bill for `month` (`YYYY-MM`): the
/// source must not be the expense bucket, the amount defaults to the
/// bill's value and must be positive, the date defaults to the bill's due
/// day in that month (the month's last day when it is shorter), and the
/// method to PIX.
pub fn plan_bill_payment(
    month: &str,
    req: PayBillRequest,
    expense_bucket: &str,
    default_value: i64,
    due_day: i64,
) -> (r: Result<BillPayment, ApiError>)
    ensures
        match r {
            Ok(p) => {
                &&& parse_month(month.spec_bytes()) is Ok
                &&& req.source_account_id@ != expense_bucket@
                &&& p.value == (match req.amount {
                    Some(a) => a,
                    None => default_value,
                })
                &&& p.value > 0
                &&& p.tx_date@ == (match req.tx_date {
                    Some(d) => d@,
                    None => month@ + seq!['-'] + fmt_int(
                        due_day_in(
                            parse_month(month.spec_bytes())->Ok_0.0,
                            parse_month(month.spec_bytes())->Ok_0.1,
                            due_day as int,
                        ),
                        2,
                    ),
                })
                &&& p.payment_method@ == (match req.payment_method {
                    Some(m) => m@,
                    None => "PIX"@,
                })
            },
            Err(e) => if parse_month(month.spec_bytes()) is Err {
                is_validation(e, "month"@, "expected YYYY-MM"@)
            } else if req.source_account_id@ == expense_bucket@ {
                is_validation(
                    e,
                    "source_account_id"@,
                    "must be an asset account, not the expense bucket"@,
                )
            } else {
                is_validation(e, "amount"@, "must be > 0"@) && match req.amount {
                    Some(a) => a <= 0,
                    None => default_value <= 0,
                }
            },
        },
{
    let (y, m) = match parse_month_parts(month) {
        Ok(ym) => ym,
        Err(_) => {
            return Err(validation("month", "expected YYYY-MM"));
        },
    };
    proof {
        lemma_year_field_range(month.spec_bytes());
    }
    if str_eq(req.source_account_id.as_str(), expense_bucket) {
        return Err(
            validation("source_account_id", "must be an asset account, not the expense bucket"),
        );
    }
    let value = match req.amount {
        Some(a) => a,
        None => default_value,
    };
    if value <= 0 {
        return Err(validation("amount", "must be > 0"));
    }
    let tx_date = match req.tx_date {
        Some(d) => d,
        None => {
            let last = days_in_month(y, m) as i64;
            let day = if due_day < 1 {
                1
            } else if due_day > last {
                last
            } else {
                due_day
            };
            day_of_month(month, day)
        },
    };
    let payment_method = match req.payment_method {
        Some(m) => m,
        None => String::from_str("PIX"),
    };
    Ok(BillPayment { value, tx_date, payment_method })
}

} // verus!
