//! Double-entry rules: every transaction moves a positive value from a
//! source account to a destination account, and the kinds of the two
//! accounts decide what the transaction is (opening balance, deposit,
//! withdrawal or transfer) and whether it needs a category.
use crate::calendar::{
    add_months, chrono_parse_ymd, date_string, date_text, months_added, months_added_defined,
    months_added_ok, parse_ymd,
};
use crate::error::{is_validation, validation, ApiError};
use crate::text::{digits, push_digits, str_eq};
use vstd::prelude::*;
use vstd::string::*;

verus! {

/// Accounts the user owns: assets, credit cards and liabilities.
pub open spec fn is_user_kind(t: Seq<char>) -> bool {
    t == "asset"@ || t == "credit_card"@ || t == "liability"@
}

/// Accounts that hold spendable money or card debt.
pub open spec fn is_funding_kind(t: Seq<char>) -> bool {
    t == "asset"@ || t == "credit_card"@
}

/// Accounting buckets that users never see or edit directly.
pub open spec fn is_bucket_kind(t: Seq<char>) -> bool {
    t == "revenue"@ || t == "expense"@ || t == "equity"@
}

/// What a transaction between two kinds of account is.
#[derive(Clone, Copy, Debug, PartialEq, Eq, Structural)]
pub enum LegKind {
    Opening,
    Deposit,
    Withdrawal,
    Transfer,
}

/// The kind of transaction that a source and destination kind make, or
/// `None` when the pair is not allowed.
pub open spec fn leg_kind(src: Seq<char>, dst: Seq<char>) -> Option<LegKind> {
    if (src == "equity"@ && is_user_kind(dst)) || (is_user_kind(src) && dst == "equity"@) {
        Some(LegKind::Opening)
    } else if src == "revenue"@ && is_funding_kind(dst) {
        Some(LegKind::Deposit)
    } else if is_funding_kind(src) && dst == "expense"@ {
        Some(LegKind::Withdrawal)
    } else if is_user_kind(src) && is_user_kind(dst) {
        Some(LegKind::Transfer)
    } else {
        None
    }
}

pub open spec fn kind_name(k: LegKind) -> Seq<char> {
    match k {
        LegKind::Opening => "opening"@,
        LegKind::Deposit => "deposit"@,
        LegKind::Withdrawal => "withdrawal"@,
        LegKind::Transfer => "transfer"@,
    }
}

/// A category is present when given and not empty.
pub open spec fn has_category(c: Option<Seq<char>>) -> bool {
    c matches Some(s) && s.len() > 0
}

pub open spec fn opt_view(c: Option<&str>) -> Option<Seq<char>> {
    match c {
        Some(s) => Some(s@),
        None => None,
    }
}

pub fn is_user_account_kind(t: &str) -> (r: bool)
    ensures
        r == is_user_kind(t@),
{
    str_eq(t, "asset") || str_eq(t, "credit_card") || str_eq(t, "liability")
}

pub fn is_funding_account_kind(t: &str) -> (r: bool)
    ensures
        r == is_funding_kind(t@),
{
    str_eq(t, "asset") || str_eq(t, "credit_card")
}

pub fn is_bucket_account_kind(t: &str) -> (r: bool)
    ensures
        r == is_bucket_kind(t@),
{
    str_eq(t, "revenue") || str_eq(t, "expense") || str_eq(t, "equity")
}

/// The kind of transaction between two kinds of account.
pub fn classify_legs(src: &str, dst: &str) -> (r: Option<LegKind>)
    ensures
        r == leg_kind(src@, dst@),
{
    if (str_eq(src, "equity") && is_user_account_kind(dst)) || (is_user_account_kind(src)
        && str_eq(dst, "equity")) {
        Some(LegKind::Opening)
    } else if str_eq(src, "revenue") && is_funding_account_kind(dst) {
        Some(LegKind::Deposit)
    } else if is_funding_account_kind(src) && str_eq(dst, "expense") {
        Some(LegKind::Withdrawal)
    } else if is_user_account_kind(src) && is_user_account_kind(dst) {
        Some(LegKind::Transfer)
    } else {
        None
    }
}

/// The outcome of checking a leg pair and its category.
pub open spec fn leg_pair_ok(src: Seq<char>, dst: Seq<char>, cat: Option<Seq<char>>) -> bool {
    match leg_kind(src, dst) {
        Some(LegKind::Opening) | Some(LegKind::Transfer) => !has_category(cat),
        Some(_) => has_category(cat),
        None => false,
    }
}

/// The error a refused leg pair is answered with: an unknown pair, or a
/// category where the kind of transaction wants none, or none where it
/// wants one.
pub open spec fn leg_pair_error(src: Seq<char>, dst: Seq<char>, e: ApiError) -> bool {
    match leg_kind(src, dst) {
        None => is_validation(
            e,
            "source_account_id+destination_account_id"@,
            "INVALID_LEG_PAIR: "@ + src + " -> "@ + dst,
        ),
        Some(LegKind::Opening) | Some(LegKind::Transfer) => is_validation(
            e,
            "category_id"@,
            "transfers and opening balances must not carry a category"@,
        ),
        Some(k) => is_validation(e, "category_id"@, kind_name(k) + " requires a category"@),
    }
}

/// The account kinds of the two legs as looked up: both must be found.
pub open spec fn found_kinds(row: Option<(String, String)>) -> Option<(Seq<char>, Seq<char>)> {
    match row {
        Some((s, d)) => if s@.len() > 0 && d@.len() > 0 {
            Some((s@, d@))
        } else {
            None
        },
        None => None,
    }
}

/// Checks that the kinds of the source and destination accounts make an
/// allowed transaction, and that the category is given exactly when the
/// transaction is a deposit or a withdrawal.
pub fn validate_leg_pair(src: &str, dst: &str, category_id: Option<&str>) -> (r: Result<
    (),
    ApiError,
>)
    ensures
        r is Ok <==> leg_pair_ok(src@, dst@, opt_view(category_id)),
        r matches Err(e) ==> leg_pair_error(src@, dst@, e),
{
    let derived = match classify_legs(src, dst) {
        Some(k) => k,
        None => {
            let mut reason = String::from_str("INVALID_LEG_PAIR: ");
            reason.append(src);
            reason.append(" -> ");
            reason.append(dst);
            return Err(
                ApiError::Validation {
                    field: String::from_str("source_account_id+destination_account_id"),
                    reason,
                },
            );
        },
    };
    let has_cat = match category_id {
        Some(c) => !c.is_empty(),
        None => false,
    };
    match derived {
        LegKind::Opening | LegKind::Transfer => {
            if has_cat {
                return Err(
                    validation(
                        "category_id",
                        "transfers and opening balances must not carry a category",
                    ),
                );
            }
        },
        LegKind::Deposit | LegKind::Withdrawal => {
            if !has_cat {
                let mut reason = String::from_str(
                    if derived == LegKind::Deposit {
                        "deposit"
                    } else {
                        "withdrawal"
                    },
                );
                reason.append(" requires a category");
                return Err(
                    ApiError::Validation { field: String::from_str("category_id"), reason },
                );
            }
        },
    }
    Ok(())
}

/// Refuses values that are not strictly positive.
pub fn require_positive(field: &str, value: i64) -> (r: Result<(), ApiError>)
    ensures
        r is Ok <==> value > 0,
        r matches Err(e) ==> is_validation(e, field@, "must be > 0"@),
{
    if value <= 0 {
        Err(validation(field, "must be > 0"))
    } else {
        Ok(())
    }
}

/// Refuses a transaction whose two legs are the same account.
pub fn require_distinct_legs(src: &str, dst: &str) -> (r: Result<(), ApiError>)
    ensures
        r is Ok <==> src@ != dst@,
        r matches Err(e) ==> is_validation(
            e,
            "destination_account_id"@,
            "must differ from source_account_id"@,
        ),
{
    if str_eq(src, dst) {
        Err(validation("destination_account_id", "must differ from source_account_id"))
    } else {
        Ok(())
    }
}

/// The account kinds of the two legs, when both accounts were found.
pub fn found_leg_kinds(row: Option<(String, String)>) -> (r: Result<(String, String), ApiError>)
    ensures
        match row {
            Some((s, d)) => if s@.len() > 0 && d@.len() > 0 {
                r matches Ok((s2, d2)) && s2@ == s@ && d2@ == d@
            } else {
                r matches Err(ApiError::NotFound)
            },
            None => r matches Err(ApiError::NotFound),
        },
{
    match row {
        Some((s, d)) => {
            if s.as_str().is_empty() || d.as_str().is_empty() {
                Err(ApiError::NotFound)
            } else {
                Ok((s, d))
            }
        },
        None => Err(ApiError::NotFound),
    }
}

// ---------------------------------------------------------------------------
// Completing the legs of a new transaction
// ---------------------------------------------------------------------------
/// How the two legs of a new transaction are found.
#[derive(Debug)]
pub enum LegPlan {
    /// Both legs were given.
    Given(String, String),
    /// Only the source was given: the destination is the user's expense
    /// bucket.
    ToExpense(String),
    /// Only the destination was given: the source is the user's revenue
    /// bucket.
    FromRevenue(String),
}

/// Decides how to complete the legs of a new transaction. A missing leg is
/// taken from the user's revenue or expense bucket, which needs a category.
pub fn plan_legs(src: Option<String>, dst: Option<String>, has_category_id: bool) -> (r: Result<
    LegPlan,
    ApiError,
>)
    ensures
        match (src, dst) {
            (Some(s), Some(d)) => r matches Ok(LegPlan::Given(s2, d2)) && s2 == s && d2 == d,
            (Some(s), None) => if has_category_id {
                r matches Ok(LegPlan::ToExpense(s2)) && s2 == s
            } else {
                r matches Err(e) && is_validation(
                    e,
                    "category_id"@,
                    "required when destination_account_id is omitted"@,
                )
            },
            (None, Some(d)) => if has_category_id {
                r matches Ok(LegPlan::FromRevenue(d2)) && d2 == d
            } else {
                r matches Err(e) && is_validation(
                    e,
                    "category_id"@,
                    "required when source_account_id is omitted"@,
                )
            },
            (None, None) => r matches Err(e) && is_validation(
                e,
                "source_account_id+destination_account_id"@,
                "at least one leg must be provided"@,
            ),
        },
{
    match (src, dst) {
        (Some(s), Some(d)) => Ok(LegPlan::Given(s, d)),
        (Some(s), None) => {
            if !has_category_id {
                return Err(
                    validation("category_id", "required when destination_account_id is omitted"),
                );
            }
            Ok(LegPlan::ToExpense(s))
        },
        (None, Some(d)) => {
            if !has_category_id {
                return Err(
                    validation("category_id", "required when source_account_id is omitted"),
                );
            }
            Ok(LegPlan::FromRevenue(d))
        },
        (None, None) => Err(
            validation(
                "source_account_id+destination_account_id",
                "at least one leg must be provided",
            ),
        ),
    }
}

/// The id of the user's bucket account of `bucket_type`, or the error that
/// asks the user to repair a missing bucket.
pub fn bucket_or_error(bucket_type: &str, found: Option<String>) -> (r: Result<String, ApiError>)
    ensures
        match found {
            Some(id) => r matches Ok(x) && x == id,
            None => r matches Err(e) && is_validation(
                e,
                bucket_type@,
                "user has no "@ + bucket_type@ + " bucket account; re-register or self-heal"@,
            ),
        },
{
    match found {
        Some(id) => Ok(id),
        None => {
            let mut reason = String::from_str("user has no ");
            reason.append(bucket_type);
            reason.append(" bucket account; re-register or self-heal");
            Err(ApiError::Validation { field: String::from_str(bucket_type), reason })
        },
    }
}

/// The source and destination of a planned transaction, once the missing
/// bucket (if any) is known.
pub fn complete_legs(plan: LegPlan, bucket: Option<String>) -> (r: Result<(String, String), ApiError>)
    ensures
        match plan {
            LegPlan::Given(s, d) => r matches Ok((s2, d2)) && s2 == s && d2 == d,
            LegPlan::ToExpense(s) => match bucket {
                Some(b) => r matches Ok((s2, d2)) && s2 == s && d2 == b,
                None => r matches Err(e) && is_validation(
                    e,
                    "expense"@,
                    "user has no expense bucket account; re-register or self-heal"@,
                ),
            },
            LegPlan::FromRevenue(d) => match bucket {
                Some(b) => r matches Ok((s2, d2)) && s2 == b && d2 == d,
                None => r matches Err(e) && is_validation(
                    e,
                    "revenue"@,
                    "user has no revenue bucket account; re-register or self-heal"@,
                ),
            },
        },
{
    proof {
        reveal_strlit("expense");
        reveal_strlit("revenue");
        reveal_strlit("user has no ");
        reveal_strlit(" bucket account; re-register or self-heal");
        reveal_strlit("user has no expense bucket account; re-register or self-heal");
        reveal_strlit("user has no revenue bucket account; re-register or self-heal");
        assert("user has no "@ + "expense"@ + " bucket account; re-register or self-heal"@
            =~= "user has no expense bucket account; re-register or self-heal"@);
        assert("user has no "@ + "revenue"@ + " bucket account; re-register or self-heal"@
            =~= "user has no revenue bucket account; re-register or self-heal"@);
    }
    match plan {
        LegPlan::Given(s, d) => Ok((s, d)),
        LegPlan::ToExpense(s) => match bucket_or_error("expense", bucket) {
            Ok(b) => Ok((s, b)),
            Err(e) => Err(e),
        },
        LegPlan::FromRevenue(d) => match bucket_or_error("revenue", bucket) {
            Ok(b) => Ok((b, d)),
            Err(e) => Err(e),
        },
    }
}

// ---------------------------------------------------------------------------
// Transfers
// ---------------------------------------------------------------------------
/// Checks of a transfer request made before the accounts are looked up:
/// distinct legs, then a positive value.
pub fn validate_transfer_request(src: &str, dst: &str, value: i64) -> (r: Result<(), ApiError>)
    ensures
        r is Ok <==> (src@ != dst@ && value > 0),
        r matches Err(e) ==> if src@ == dst@ {
            is_validation(e, "destination_account_id"@, "must differ from source_account_id"@)
        } else {
            is_validation(e, "value"@, "must be > 0"@)
        },
{
    require_distinct_legs(src, dst)?;
    require_positive("value", value)
}

/// Transfers move money between two accounts the user owns.
pub fn validate_transfer_kinds(src_kind: &str, dst_kind: &str) -> (r: Result<(), ApiError>)
    ensures
        r is Ok <==> (is_user_kind(src_kind@) && is_user_kind(dst_kind@)),
        r matches Err(e) ==> is_validation(
            e,
            "source_account_id+destination_account_id"@,
            "transfer legs must both be user-owned accounts (asset/credit_card/liability)"@,
        ),
{
    if !is_user_account_kind(src_kind) || !is_user_account_kind(dst_kind) {
        return Err(
            validation(
                "source_account_id+destination_account_id",
                "transfer legs must both be user-owned accounts (asset/credit_card/liability)",
            ),
        );
    }
    Ok(())
}

/// A transfer that passes both checks is a transfer between two distinct
/// user-owned accounts, which the leg rules accept without a category.
pub proof fn lemma_valid_transfer_is_transfer(src: Seq<char>, dst: Seq<char>)
    requires
        is_user_kind(src),
        is_user_kind(dst),
    ensures
        leg_kind(src, dst) == Some(LegKind::Transfer),
        leg_pair_ok(src, dst, None),
{
    lemma_kind_literals();
}

/// The kind the transaction listing shows for a pair of account kinds
/// (its `kind` column): opening when either side is equity, deposit from
/// revenue into an asset or a credit card, withdrawal from an asset or a
/// credit card into expense, transfer otherwise.
pub open spec fn listed_kind(src: Seq<char>, dst: Seq<char>) -> Seq<char> {
    if src == "equity"@ || dst == "equity"@ {
        "opening"@
    } else if src == "revenue"@ && (dst == "asset"@ || dst == "credit_card"@) {
        "deposit"@
    } else if (src == "asset"@ || src == "credit_card"@) && dst == "expense"@ {
        "withdrawal"@
    } else {
        "transfer"@
    }
}

/// Every allowed pair of account kinds is classified as the listing shows
/// it. Spending from an asset or a credit card (a card purchase) into the
/// expense bucket is a withdrawal, income from the revenue bucket into an
/// asset or a card is a deposit, both accepted with a category; equity
/// against any account the user owns is an opening balance, and any two
/// accounts the user owns make a transfer, accepted without a category.
pub proof fn lemma_leg_kinds_match_listing(src: Seq<char>, dst: Seq<char>, cat: Seq<char>)
    ensures
        leg_kind(src, dst) matches Some(k) ==> kind_name(k) == listed_kind(src, dst),
        (src == "asset"@ || src == "credit_card"@) ==> leg_kind(src, "expense"@) == Some(
            LegKind::Withdrawal,
        ),
        (src == "asset"@ || src == "credit_card"@) && cat.len() > 0 ==> leg_pair_ok(
            src,
            "expense"@,
            Some(cat),
        ),
        (dst == "asset"@ || dst == "credit_card"@) ==> leg_kind("revenue"@, dst) == Some(
            LegKind::Deposit,
        ),
        (dst == "asset"@ || dst == "credit_card"@) && cat.len() > 0 ==> leg_pair_ok(
            "revenue"@,
            dst,
            Some(cat),
        ),
        (src == "asset"@ || src == "credit_card"@ || src == "liability"@) ==> leg_kind(
            "equity"@,
            src,
        ) == Some(LegKind::Opening) && leg_kind(src, "equity"@) == Some(LegKind::Opening),
        (src == "asset"@ || src == "credit_card"@ || src == "liability"@) && (dst == "asset"@ || dst
            == "credit_card"@ || dst == "liability"@) ==> leg_kind(src, dst) == Some(
            LegKind::Transfer,
        ) && leg_pair_ok(src, dst, None),
{
    reveal_strlit("asset");
    reveal_strlit("credit_card");
    reveal_strlit("liability");
    reveal_strlit("equity");
    reveal_strlit("revenue");
    reveal_strlit("expense");
    reveal_strlit("opening");
    reveal_strlit("deposit");
    reveal_strlit("withdrawal");
    reveal_strlit("transfer");
    assert("asset"@ != "credit_card"@ && "asset"@ != "liability"@ && "asset"@ != "equity"@
        && "asset"@ != "revenue"@ && "asset"@ != "expense"@) by {
        assert("asset"@[0] != "credit_card"@[0] && "asset"@[0] != "liability"@[0]
            && "asset"@[0] != "equity"@[0] && "asset"@[0] != "revenue"@[0] && "asset"@[0]
            != "expense"@[0]);
    }
    assert("credit_card"@ != "liability"@ && "credit_card"@ != "equity"@ && "credit_card"@
        != "revenue"@ && "credit_card"@ != "expense"@) by {
        assert("credit_card"@[0] != "liability"@[0] && "credit_card"@[0] != "equity"@[0]
            && "credit_card"@[0] != "revenue"@[0] && "credit_card"@[0] != "expense"@[0]);
    }
    assert("liability"@ != "equity"@ && "liability"@ != "revenue"@ && "liability"@ != "expense"@)
        by {
        assert("liability"@[0] != "equity"@[0] && "liability"@[0] != "revenue"@[0]
            && "liability"@[0] != "expense"@[0]);
    }
    assert("equity"@ != "revenue"@ && "equity"@ != "expense"@ && "revenue"@ != "expense"@) by {
        assert("equity"@[0] != "revenue"@[0] && "equity"@.len() != "expense"@.len()
            && "revenue"@[0] != "expense"@[0]);
    }
}

/// The kind names are pairwise distinct.
pub proof fn lemma_kind_literals()
    ensures
        "asset"@.len() == 5,
        "credit_card"@.len() == 11,
        "liability"@.len() == 9,
        "equity"@.len() == 6,
        "revenue"@.len() == 7,
        "expense"@.len() == 7,
        "revenue"@ != "expense"@,
{
    reveal_strlit("asset");
    reveal_strlit("credit_card");
    reveal_strlit("liability");
    reveal_strlit("equity");
    reveal_strlit("revenue");
    reveal_strlit("expense");
    assert("revenue"@[0] != "expense"@[0]);
}

// ---------------------------------------------------------------------------
// Editing a transaction
// ---------------------------------------------------------------------------
/// The legs and category a transaction has after an edit: given fields
/// replace the current ones, and an empty category clears it.
pub open spec fn edited_category(req: Option<Seq<char>>, cur: Option<Seq<char>>) -> Option<
    Seq<char>,
> {
    match req {
        Some(c) => if c.len() == 0 {
            None
        } else {
            Some(c)
        },
        None => cur,
    }
}

pub open spec fn opt_string_view(c: Option<String>) -> Option<Seq<char>> {
    match c {
        Some(s) => Some(s@),
        None => None,
    }
}

/// The effective source, destination and category after an edit, refusing
/// an edit that would make both legs the same account.
pub fn edited_legs(
    req_src: Option<String>,
    req_dst: Option<String>,
    req_cat: Option<String>,
    cur_src: String,
    cur_dst: String,
    cur_cat: Option<String>,
) -> (r: Result<(String, String, Option<String>), ApiError>)
    ensures
        ({
            let s = match req_src {
                Some(x) => x@,
                None => cur_src@,
            };
            let d = match req_dst {
                Some(x) => x@,
                None => cur_dst@,
            };
            match r {
                Ok((s2, d2, c2)) => s != d && s2@ == s && d2@ == d && opt_string_view(c2)
                    == edited_category(opt_string_view(req_cat), opt_string_view(cur_cat)),
                Err(e) => s == d && is_validation(
                    e,
                    "destination_account_id"@,
                    "must differ from source_account_id"@,
                ),
            }
        }),
{
    let eff_src = match req_src {
        Some(x) => x,
        None => cur_src,
    };
    let eff_dst = match req_dst {
        Some(x) => x,
        None => cur_dst,
    };
    require_distinct_legs(eff_src.as_str(), eff_dst.as_str())?;
    let eff_cat = match req_cat {
        Some(c) => if c.as_str().is_empty() {
            None
        } else {
            Some(c)
        },
        None => cur_cat,
    };
    Ok((eff_src, eff_dst, eff_cat))
}

/// Whether a delete request asks to remove the following installments too.
pub fn deletes_following(scope: Option<&str>) -> (r: bool)
    ensures
        r == (scope matches Some(s) && s@ == "following"@),
{
    match scope {
        Some(s) => str_eq(s, "following"),
        None => false,
    }
}

// ---------------------------------------------------------------------------
// Opening balances
// ---------------------------------------------------------------------------
/// The signed opening balance that a transaction between an account and
/// the equity bucket represents for the account.
pub open spec fn signed_opening(account: Seq<char>, dst: Seq<char>, value: int) -> int {
    if dst == account {
        value
    } else {
        -value
    }
}

/// The legs and value of the opening-balance transaction for a signed
/// opening balance: money flows from equity into the account for a
/// positive balance, and out of it for a negative one. A zero balance has
/// no transaction.
pub fn opening_legs(equity: String, account: String, cents: i64) -> (r: Option<
    (String, String, i64),
>)
    requires
        cents != i64::MIN,
    ensures
        cents == 0 ==> r is None,
        cents > 0 ==> (r matches Some((s, d, v)) && s == equity && d == account && v == cents),
        cents < 0 ==> (r matches Some((s, d, v)) && s == account && d == equity && v == -cents),
{
    if cents == 0 {
        None
    } else if cents > 0 {
        Some((equity, account, cents))
    } else {
        Some((account, equity, -cents))
    }
}

/// The write that sets an account's opening balance, given the id of its
/// current opening transaction, if any.
#[derive(Debug)]
pub enum OpeningWrite {
    /// Nothing to do: a zero balance and no opening transaction.
    Keep,
    /// Delete the opening transaction with this id (a zero balance).
    Remove(String),
    /// Point the opening transaction with this id at these legs and value.
    Rewrite { id: String, source: String, destination: String, value: i64 },
    /// Create an opening transaction with these legs and value.
    Insert { source: String, destination: String, value: i64 },
}

/// Decides how to set an account's opening balance to `cents` (signed):
/// a zero balance removes the existing opening transaction, any other
/// rewrites it or creates one, with the legs of `opening_legs`.
pub fn plan_opening_write(existing: Option<String>, equity: String, account: String, cents: i64)
    -> (r: OpeningWrite)
    requires
        cents != i64::MIN,
    ensures
        cents == 0 ==> match existing {
            Some(id) => r == OpeningWrite::Remove(id),
            None => r == OpeningWrite::Keep,
        },
        cents != 0 ==> ({
            let (s, d, v) = if cents > 0 {
                (equity, account, cents as int)
            } else {
                (account, equity, -cents)
            };
            match existing {
                Some(id) => r matches OpeningWrite::Rewrite { id: i, source, destination, value }
                    && i == id && source == s && destination == d && value == v,
                None => r matches OpeningWrite::Insert { source, destination, value } && source
                    == s && destination == d && value == v,
            }
        }),
{
    match opening_legs(equity, account, cents) {
        None => match existing {
            Some(id) => OpeningWrite::Remove(id),
            None => OpeningWrite::Keep,
        },
        Some((source, destination, value)) => match existing {
            Some(id) => OpeningWrite::Rewrite { id, source, destination, value },
            None => OpeningWrite::Insert { source, destination, value },
        },
    }
}

/// Writing an opening balance and reading it back gives the same value:
/// the stored value is positive, and its sign is recovered from which leg
/// the account is on.
pub proof fn lemma_opening_roundtrip(equity: Seq<char>, account: Seq<char>, cents: int)
    requires
        equity != account,
        cents != 0,
    ensures
        ({
            let (s, d, v) = if cents > 0 {
                (equity, account, cents)
            } else {
                (account, equity, -cents)
            };
            v > 0 && signed_opening(account, d, v) == cents && (s == account || d == account)
        }),
{
}

// ---------------------------------------------------------------------------
// Installments
// ---------------------------------------------------------------------------
/// One row of a transaction split into monthly installments.
#[derive(Debug)]
pub struct Installment {
    pub value: i64,
    pub tx_date: String,
    pub description: String,
    /// 1-based position, for split transactions.
    pub number: Option<i64>,
    /// Number of installments, for split transactions.
    pub count: Option<i64>,
}

/// The value of installment `k` of `n` for a total: the quotient, and the
/// remainder on the first one.
pub open spec fn installment_value(total: int, n: int, k: int) -> int {
    if k == 0 {
        total / n + total % n
    } else {
        total / n
    }
}

/// Sum of the first `k` installment values.
pub open spec fn installments_sum(total: int, n: int, k: int) -> int
    decreases k,
{
    if k <= 0 {
        0
    } else {
        installments_sum(total, n, k - 1) + installment_value(total, n, k - 1)
    }
}

/// The installments add up to the total.
pub proof fn lemma_installments_sum(total: int, n: int)
    requires
        total >= 0,
        n >= 1,
    ensures
        installments_sum(total, n, n) == total,
{
    lemma_installments_partial(total, n, n);
    assert(total == n * (total / n) + total % n) by (nonlinear_arith)
        requires
            n >= 1,
    ;
}

proof fn lemma_installments_partial(total: int, n: int, k: int)
    requires
        total >= 0,
        n >= 1,
        1 <= k <= n,
    ensures
        installments_sum(total, n, k) == k * (total / n) + total % n,
    decreases k,
{
    if k > 1 {
        lemma_installments_partial(total, n, k - 1);
        assert(installments_sum(total, n, k) == installments_sum(total, n, k - 1)
            + installment_value(total, n, k - 1));
        assert((k - 1) * (total / n) + total / n == k * (total / n)) by (nonlinear_arith);
    } else {
        assert(installments_sum(total, n, 1) == installments_sum(total, n, 0) + installment_value(
            total,
            n,
            0,
        ));
        assert(installments_sum(total, n, 0) == 0);
    }
}

/// The description of installment `k` (0-based) of `n`: `"desc (k+1/n)"`.
pub open spec fn installment_description(desc: Seq<char>, k: int, n: int) -> Seq<char> {
    desc + " ("@ + digits((k + 1) as nat) + "/"@ + digits(n as nat) + ")"@
}

/// The rows a new transaction is written as. With one installment it is a
/// single row on the given date; with `n > 1` it is `n` rows one month
/// apart from the date read from `date`, numbered, the value split evenly
/// with the remainder on the first.
pub open spec fn installments_spec(
    total: int,
    n: int,
    desc: Seq<char>,
    date: Seq<char>,
    rows: Seq<Installment>,
) -> bool {
    &&& rows.len() == n
    &&& forall|k: int|
        0 <= k < n ==> {
            let row = #[trigger] rows[k];
            &&& row.value == installment_value(total, n, k)
            &&& if n > 1 {
                &&& chrono_parse_ymd(date) matches Some(d) && row.tx_date@ == date_text(
                    months_added(d, k),
                )
                &&& row.description@ == installment_description(desc, k, n)
                &&& row.number == Some((k + 1) as i64)
                &&& row.count == Some(n as i64)
            } else {
                &&& row.description@ == desc
                &&& row.tx_date@ == date
                &&& row.number is None
                &&& row.count is None
            }
        }
}

/// The number of installments a request asks for (at least one).
pub open spec fn installment_count(installments: Option<u32>) -> int {
    match installments {
        Some(v) => if v >= 1 {
            v as int
        } else {
            1
        },
        None => 1,
    }
}

/// Splits a transaction of `total` (positive) into the requested number of
/// monthly installments. With more than one installment the date must read
/// as `YYYY-MM-DD` (else the `tx_date` error); the result is `None` when
/// some installment's date would leave the supported years.
pub fn plan_installments(total: i64, installments: Option<u32>, description: &str, tx_date: &str)
    -> (r: Option<Result<Vec<Installment>, ApiError>>)
    requires
        total > 0,
    ensures
        ({
            let n = installment_count(installments);
            &&& r matches Some(Ok(rows)) ==> installments_spec(
                total as int,
                n,
                description@,
                tx_date@,
                rows@,
            )
            &&& r matches Some(Err(e)) ==> n > 1 && chrono_parse_ymd(tx_date@) is None
                && is_validation(e, "tx_date"@, "expected YYYY-MM-DD"@)
            &&& r is None <==> (n > 1 && (chrono_parse_ymd(tx_date@) matches Some(d) && exists|
                k: int,
            | 0 <= k < n && !months_added_defined(d, k)))
        }),
{
    let n: u32 = match installments {
        Some(v) => if v >= 1 {
            v
        } else {
            1
        },
        None => 1,
    };
    let base = total / n as i64;
    proof {
        assert(0 <= base * n <= total) by (nonlinear_arith)
            requires
                base == total as int / n as int,
                total > 0,
                n >= 1,
        ;
    }
    let remainder = total - base * n as i64;
    proof {
        assert(base == total as int / n as int);
        assert(remainder == total as int % n as int) by (nonlinear_arith)
            requires
                base == total as int / n as int,
                remainder == total - base * n,
                n >= 1,
        ;
    }
    let start = if n > 1 {
        match parse_ymd(tx_date) {
            Some(d) => d,
            None => {
                return Some(Err(validation("tx_date", "expected YYYY-MM-DD")));
            },
        }
    } else {
        crate::calendar::Date { year: 2000, month: 1, day: 1 }
    };
    let mut rows: Vec<Installment> = Vec::new();
    let mut k: u32 = 0;
    while k < n
        invariant
            k <= n,
            n == installment_count(installments),
            n >= 1,
            base == total as int / n as int,
            remainder == total as int % n as int,
            total > 0,
            start.valid(),
            n > 1 ==> chrono_parse_ymd(tx_date@) == Some(start),
            n > 1 ==> forall|j: int| 0 <= j < k ==> months_added_defined(start, j),
            rows@.len() == k,
            forall|j: int|
                0 <= j < k ==> {
                    let row = #[trigger] rows@[j];
                    &&& row.value == installment_value(total as int, n as int, j)
                    &&& if n > 1 {
                        &&& chrono_parse_ymd(tx_date@) matches Some(d) && row.tx_date@
                            == date_text(months_added(d, j))
                        &&& row.description@ == installment_description(
                            description@,
                            j,
                            n as int,
                        )
                        &&& row.number == Some((j + 1) as i64)
                        &&& row.count == Some(n as i64)
                    } else {
                        &&& row.description@ == description@
                        &&& row.tx_date@ == tx_date@
                        &&& row.number is None
                        &&& row.count is None
                    }
                },
        decreases n - k,
    {
        proof {
            assert(0 <= remainder < n);
            assert(0 <= base && base + remainder <= total) by (nonlinear_arith)
                requires
                    base == total as int / n as int,
                    remainder == total as int % n as int,
                    total > 0,
                    n >= 1,
            ;
        }
        let value = base + if k == 0 {
            remainder
        } else {
            0
        };
        let row = if n > 1 {
            if k > 0x7fff_ffff {
                proof {
                    assert(!months_added_defined(start, k as int));
                    assert(0 <= k < n && !months_added_defined(start, k as int));
                    assert(exists|j: int| 0 <= j < n && !months_added_defined(start, j));
                    assert(chrono_parse_ymd(tx_date@) == Some(start));
                    let d = chrono_parse_ymd(tx_date@)->0;
                    assert(d == start);
                    assert(exists|j: int| 0 <= j < n && !months_added_defined(d, j));
                }
                return None;
            }
            let kk = k as i32;
            if !months_added_ok(start, kk) {
                proof {
                    assert(!months_added_defined(start, k as int));
                    assert(0 <= k < n && !months_added_defined(start, k as int));
                    assert(exists|j: int| 0 <= j < n && !months_added_defined(start, j));
                    assert(chrono_parse_ymd(tx_date@) == Some(start));
                    let d = chrono_parse_ymd(tx_date@)->0;
                    assert(d == start);
                    assert(exists|j: int| 0 <= j < n && !months_added_defined(d, j));
                }
                return None;
            }
            let moved = add_months(start, kk);
            let date = date_string(moved);
            let mut desc = String::from_str(description);
            desc.append(" (");
            push_digits(&mut desc, (k + 1) as u128);
            desc.append("/");
            push_digits(&mut desc, n as u128);
            desc.append(")");
            proof {
                reveal_strlit(" (");
                reveal_strlit("/");
                reveal_strlit(")");
                assert(desc@ =~= installment_description(description@, k as int, n as int));
            }
            Installment {
                value,
                tx_date: date,
                description: desc,
                number: Some((k + 1) as i64),
                count: Some(n as i64),
            }
        } else {
            Installment {
                value,
                tx_date: String::from_str(tx_date),
                description: String::from_str(description),
                number: None,
                count: None,
            }
        };
        rows.push(row);
        k = k + 1;
    }
    Some(Ok(rows))
}

} // verus!
