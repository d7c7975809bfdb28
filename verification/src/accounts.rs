//! User accounts: creation and edit rules, stale-write detection, and the
//! SQL balance expression.
use crate::error::{is_validation, validation, ApiError};
use crate::ledger::{is_bucket_account_kind, is_bucket_kind};
use crate::sql::{
    dated_flow_text, flow_text, lemma_in_minus_out_is_account_total, lemma_in_minus_out_is_balance,
    means_account_total, means_balance, spaces,
};
use crate::text::{contains_seq, contains_str, str_eq};
use vstd::prelude::*;
use vstd::string::*;

verus! {

/// An account as the API shows it; amounts in cents.
#[derive(Debug)]
pub struct Account {
    pub id: String,
    pub name: String,
    /// `asset`, `credit_card`, `liability`, or one of the buckets
    /// `revenue`, `expense`, `equity`.
    pub account_type: String,
    pub currency: String,
    pub initial_balance: i64,
    /// Signed value of the account's opening-balance transaction.
    pub opening_balance: i64,
    pub current_balance: i64,
    pub archived: bool,
    pub created_at: String,
    pub updated_at: String,
}

/// The accounts of a user.
#[derive(Debug)]
pub struct AccountList {
    pub items: Vec<Account>,
}

/// Request to create an account.
#[derive(Debug)]
pub struct CreateAccount {
    pub name: String,
    pub account_type: String,
    pub currency: String,
    pub initial_balance: Option<i64>,
}

/// Request to edit an account; `opening_balance` rewrites its opening
/// transaction.
#[derive(Debug)]
pub struct UpdateAccount {
    pub name: Option<String>,
    pub currency: Option<String>,
    pub archived: Option<bool>,
    pub opening_balance: Option<i64>,
}

/// The balance of an account as of a date.
#[derive(Debug)]
pub struct AccountBalance {
    pub account_id: String,
    pub currency: String,
    pub initial_balance: i64,
    pub transactions_total: i64,
    pub current_balance: i64,
    pub as_of: String,
}

/// Query of the account listing: balances at the end of `month`, or today.
#[derive(Debug)]
pub struct AccountQuery {
    pub month: Option<String>,
}

/// Query of an account balance: as of a date, or now.
#[derive(Debug)]
pub struct BalanceQuery {
    pub as_of: Option<String>,
}

impl CreateAccount {
    /// The public API creates asset accounts only; the opening balance
    /// defaults to zero.
    pub fn validate(&self) -> (r: Result<i64, ApiError>)
        ensures
            r is Ok <==> self.account_type@ == "asset"@,
            r matches Ok(v) ==> v == (match self.initial_balance {
                Some(b) => b,
                None => 0,
            }),
            r matches Err(e) ==> is_validation(
                e,
                "type"@,
                "RESERVED_TYPE: public API only creates 'asset' accounts"@,
            ),
    {
        if !str_eq(self.account_type.as_str(), "asset") {
            return Err(validation("type", "RESERVED_TYPE: public API only creates 'asset' accounts"));
        }
        Ok(
            match self.initial_balance {
                Some(b) => b,
                None => 0,
            },
        )
    }
}

/// Bucket accounts (revenue, expense, equity) cannot be edited or deleted;
/// `action` is `"modified"` or `"deleted"`.
pub fn require_not_bucket(account_type: &str, action: &str) -> (r: Result<(), ApiError>)
    ensures
        r is Ok <==> !is_bucket_kind(account_type@),
        r matches Err(e) ==> is_validation(
            e,
            "type"@,
            "bucket accounts (revenue/expense/equity) cannot be "@ + action@,
        ),
{
    if is_bucket_account_kind(account_type) {
        let mut reason = String::from_str("bucket accounts (revenue/expense/equity) cannot be ");
        reason.append(action);
        return Err(ApiError::Validation { field: String::from_str("type"), reason });
    }
    Ok(())
}

/// Optimistic concurrency: an `If-Match` value must equal the account's
/// current `updated_at`.
pub fn check_if_match(if_match: Option<&str>, current_updated_at: &str) -> (r: Result<(), ApiError>)
    ensures
        r is Ok <==> (if_match matches Some(v) ==> v@ == current_updated_at@),
        r is Err ==> r matches Err(ApiError::StaleWrite),
{
    match if_match {
        Some(v) => if str_eq(v, current_updated_at) {
            Ok(())
        } else {
            Err(ApiError::StaleWrite)
        },
        None => Ok(()),
    }
}

/// The checks of an account edit, in order, once the account is looked up
/// (`found` holds its `updated_at` and type): the account must exist, must
/// not be a bucket, and must match the `If-Match` value.
pub fn check_account_update(found: Option<(String, String)>, if_match: Option<&str>) -> (r: Result<
    (),
    ApiError,
>)
    ensures
        match found {
            None => r matches Err(ApiError::NotFound),
            Some((updated_at, kind)) => if is_bucket_kind(kind@) {
                r matches Err(e) && is_validation(
                    e,
                    "type"@,
                    "bucket accounts (revenue/expense/equity) cannot be modified"@,
                )
            } else if if_match matches Some(v) && v@ != updated_at@ {
                r matches Err(ApiError::StaleWrite)
            } else {
                r is Ok
            },
        },
{
    match found {
        None => Err(ApiError::NotFound),
        Some((updated_at, kind)) => {
            proof {
                reveal_strlit("bucket accounts (revenue/expense/equity) cannot be ");
                reveal_strlit("modified");
                reveal_strlit("bucket accounts (revenue/expense/equity) cannot be modified");
                assert("bucket accounts (revenue/expense/equity) cannot be "@ + "modified"@
                    =~= "bucket accounts (revenue/expense/equity) cannot be modified"@);
            }
            require_not_bucket(kind.as_str(), "modified")?;
            check_if_match(if_match, updated_at.as_str())
        },
    }
}

impl AccountBalance {
    /// The balance of an account: its initial balance plus the net of its
    /// transactions.
    pub fn new(
        account_id: String,
        currency: String,
        initial_balance: i64,
        transactions_total: i64,
        as_of: String,
    ) -> (r: AccountBalance)
        requires
            i64::MIN <= initial_balance + transactions_total <= i64::MAX,
        ensures
            r.account_id == account_id,
            r.currency == currency,
            r.initial_balance == initial_balance,
            r.transactions_total == transactions_total,
            r.current_balance == initial_balance + transactions_total,
            r.as_of == as_of,
    {
        AccountBalance {
            account_id,
            currency,
            initial_balance,
            transactions_total,
            current_balance: initial_balance + transactions_total,
            as_of,
        }
    }
}

/// The exclusive cutoff of balances "as of today".
pub const TODAY_EXCL: &'static str = "date('now','+1 day')";

/// The SQL expression of an account's balance counted up to the exclusive
/// cutoff date expression `e`.
pub open spec fn balance_sql(e: Seq<char>) -> Seq<char> {
    "a.initial_balance + COALESCE((SELECT SUM(value) FROM transactions WHERE destination_account_id = a.id AND deleted_at IS NULL AND tx_date < "@
        + e
        + "), 0) - COALESCE((SELECT SUM(value) FROM transactions WHERE source_account_id      = a.id AND deleted_at IS NULL AND tx_date < "@
        + e + "), 0)"@
}

/// Splits the balance expression into its initial balance and its two
/// flows: money into the account added, money out of it subtracted.
proof fn lemma_balance_sql_parts(e: Seq<char>)
    ensures
        balance_sql(e) == "a.initial_balance + "@ + flow_text("destination_account_id"@, 0, "<"@, e)
            + " - "@ + flow_text("source_account_id"@, 5, "<"@, e),
{
    reveal_strlit(
        "a.initial_balance + COALESCE((SELECT SUM(value) FROM transactions WHERE destination_account_id = a.id AND deleted_at IS NULL AND tx_date < ",
    );
    reveal_strlit("), 0) - COALESCE((SELECT SUM(value) FROM transactions WHERE source_account_id      = a.id AND deleted_at IS NULL AND tx_date < ");
    reveal_strlit("), 0)");
    reveal_strlit("a.initial_balance + ");
    reveal_strlit(" - ");
    reveal_strlit("COALESCE((SELECT SUM(value) FROM transactions WHERE ");
    reveal_strlit(" = a.id AND deleted_at IS NULL AND tx_date ");
    reveal_strlit(" ");
    reveal_strlit("<");
    reveal_strlit("destination_account_id");
    reveal_strlit("source_account_id");
    assert(spaces(0) =~= Seq::<char>::empty());
    assert(balance_sql(e) =~= "a.initial_balance + "@ + flow_text(
        "destination_account_id"@,
        0,
        "<"@,
        e,
    ) + " - "@ + flow_text("source_account_id"@, 5, "<"@, e));
}

/// The balance of an account, for any cutoff, is its initial balance plus
/// the money that came into it minus the money that went out of it before
/// the cutoff, on every ledger: money out of the account lowers it by its
/// value, money into it raises it by its value.
pub proof fn lemma_balance_expr_is_in_minus_out(e: Seq<char>)
    ensures
        means_balance(balance_sql(e), e),
{
    lemma_balance_sql_parts(e);
    lemma_in_minus_out_is_balance(e);
}

/// Balance = initial balance + incoming − outgoing, counting transactions
/// dated before the cutoff `excl_sql` (a SQL date expression).
pub fn balance_expr(excl_sql: &str) -> (r: String)
    ensures
        r@ == balance_sql(excl_sql@),
{
    let mut s = String::from_str(
        "a.initial_balance + COALESCE((SELECT SUM(value) FROM transactions WHERE destination_account_id = a.id AND deleted_at IS NULL AND tx_date < ",
    );
    s.append(excl_sql);
    s.append(
        "), 0) - COALESCE((SELECT SUM(value) FROM transactions WHERE source_account_id      = a.id AND deleted_at IS NULL AND tx_date < ",
    );
    s.append(excl_sql);
    s.append("), 0)");
    s
}

/// The query of one account's balance: its currency, its initial balance,
/// and the sum of incoming minus outgoing transactions, counting with
/// `with_as_of` only those dated on or before a date. Parameters: the date
/// twice (with `with_as_of`), then the account and the user.
pub open spec fn account_balance_sql(with_as_of: bool) -> Seq<char> {
    let f = if with_as_of {
        " AND tx_date <= ?"@
    } else {
        Seq::empty()
    };
    "SELECT a.currency, a.initial_balance, COALESCE((SELECT SUM(value) FROM transactions WHERE destination_account_id = a.id AND deleted_at IS NULL"@
        + f
        + "), 0) - COALESCE((SELECT SUM(value) FROM transactions WHERE source_account_id      = a.id AND deleted_at IS NULL"@
        + f
        + "), 0) AS tx_total FROM accounts a WHERE a.id = ? AND a.user_id = ? AND a.deleted_at IS NULL"@
}

/// The one-account balance query returns, besides the account's currency
/// and initial balance, the money that came into the account minus the
/// money that went out of it, on every ledger: counting only the rows dated
/// on or before its date parameter when built `with_as_of`, all rows
/// otherwise.
pub proof fn lemma_account_total_is_in_minus_out(with_as_of: bool)
    ensures
        means_account_total(account_balance_sql(with_as_of), with_as_of),
{
    lemma_in_minus_out_is_account_total(with_as_of);
    reveal_strlit("SELECT a.currency, a.initial_balance, COALESCE((SELECT SUM(value) FROM transactions WHERE destination_account_id = a.id AND deleted_at IS NULL");
    reveal_strlit("), 0) - COALESCE((SELECT SUM(value) FROM transactions WHERE source_account_id      = a.id AND deleted_at IS NULL");
    reveal_strlit("), 0) AS tx_total FROM accounts a WHERE a.id = ? AND a.user_id = ? AND a.deleted_at IS NULL");
    reveal_strlit(" AND tx_date <= ?");
    reveal_strlit("SELECT a.currency, a.initial_balance, ");
    reveal_strlit(" AS tx_total FROM accounts a WHERE a.id = ? AND a.user_id = ? AND a.deleted_at IS NULL");
    reveal_strlit("COALESCE((SELECT SUM(value) FROM transactions WHERE ");
    reveal_strlit("COALESCE((SELECT SUM(value) FROM transactions WHERE destination_account_id = a.id AND deleted_at IS NULL");
    reveal_strlit("COALESCE((SELECT SUM(value) FROM transactions WHERE source_account_id      = a.id AND deleted_at IS NULL");
    reveal_strlit(" = a.id AND deleted_at IS NULL");
    reveal_strlit(" AND tx_date ");
    reveal_strlit("), 0)");
    reveal_strlit(" ");
    reveal_strlit(" - ");
    reveal_strlit("<=");
    reveal_strlit("?");
    reveal_strlit("destination_account_id");
    reveal_strlit("source_account_id");
    let cond: Option<(Seq<char>, Seq<char>)> = if with_as_of {
        Some(("<="@, "?"@))
    } else {
        None
    };
    assert(spaces(0) =~= Seq::<char>::empty());
    let dst_flow = dated_flow_text("destination_account_id"@, 0, cond);
    let src_flow = dated_flow_text("source_account_id"@, 5, cond);
    let f = if with_as_of {
        " AND tx_date <= ?"@
    } else {
        Seq::empty()
    };
    assert(dst_flow =~= "COALESCE((SELECT SUM(value) FROM transactions WHERE destination_account_id = a.id AND deleted_at IS NULL"@ + f + "), 0)"@);
    assert(src_flow =~= "COALESCE((SELECT SUM(value) FROM transactions WHERE source_account_id      = a.id AND deleted_at IS NULL"@ + f + "), 0)"@);
    assert(account_balance_sql(with_as_of) =~= "SELECT a.currency, a.initial_balance, "@
        + dst_flow + " - "@ + src_flow
        + " AS tx_total FROM accounts a WHERE a.id = ? AND a.user_id = ? AND a.deleted_at IS NULL"@);
}

/// Builds the query of one account's balance.
pub fn account_balance_query(with_as_of: bool) -> (r: String)
    ensures
        r@ == account_balance_sql(with_as_of),
{
    let f: &str = if with_as_of {
        " AND tx_date <= ?"
    } else {
        ""
    };
    proof {
        reveal_strlit("");
    }
    let mut s = String::from_str(
        "SELECT a.currency, a.initial_balance, COALESCE((SELECT SUM(value) FROM transactions WHERE destination_account_id = a.id AND deleted_at IS NULL",
    );
    s.append(f);
    s.append(
        "), 0) - COALESCE((SELECT SUM(value) FROM transactions WHERE source_account_id      = a.id AND deleted_at IS NULL",
    );
    s.append(f);
    s.append(
        "), 0) AS tx_total FROM accounts a WHERE a.id = ? AND a.user_id = ? AND a.deleted_at IS NULL",
    );
    s
}

/// The error of a failed database write: a foreign-key violation when the
/// database message says so, otherwise `None` (the caller keeps the
/// database error).
pub fn foreign_key_violation(db_message: Option<&str>) -> (r: Option<ApiError>)
    ensures
        match db_message {
            Some(m) => if contains_seq(m@, "FOREIGN KEY"@) {
                r matches Some(ApiError::FkViolation(d)) && d@ == m@
            } else {
                r is None
            },
            None => r is None,
        },
{
    match db_message {
        Some(m) => if contains_str(m, "FOREIGN KEY") {
            Some(ApiError::FkViolation(String::from_str(m)))
        } else {
            None
        },
        None => None,
    }
}

} // verus!
