//! Transactions as the API shows and takes them, and the checks on those
//! bodies that need no database. The leg rules themselves are in `ledger`.
use crate::error::{is_validation, ApiError};
use crate::ledger::{
    complete_legs, deletes_following, edited_category, edited_legs, found_kinds, found_leg_kinds,
    leg_kind, leg_pair_error, leg_pair_ok, opt_string_view, LegKind, plan_legs, require_distinct_legs,
    require_positive, validate_leg_pair, LegPlan,
};
use crate::paging::{Order, PageMeta};
use crate::sql::sql_cmp;
use vstd::prelude::*;
use vstd::string::*;

verus! {

/// One row with two account legs; the direction lies in the pair of
/// accounts, never in the sign of `value` (cents).
#[derive(Debug)]
pub struct Transaction {
    pub id: String,
    pub source_account_id: String,
    pub destination_account_id: String,
    pub category_id: Option<String>,
    pub payment_method: String,
    pub value: i64,
    pub currency: String,
    pub fx_rate: Option<String>,
    pub description: String,
    pub tx_date: String,
    pub paid: bool,
    pub receipt_url: Option<String>,
    pub picture_url: Option<String>,
    pub card_id: Option<String>,
    pub bill_id: Option<String>,
    pub invoice_id: Option<String>,
    pub created_at: String,
    pub updated_at: String,
    /// `deposit`, `withdrawal`, `transfer` or `opening`, from the kinds of
    /// the two legs.
    pub kind: String,
}

/// Body of `POST /transactions`. One of the two legs may be left out when a
/// category is given: the other leg is then the user's expense or revenue
/// bucket. With `installments` above 1 the value is split into that many
/// monthly rows.
#[derive(Debug)]
pub struct CreateTransaction {
    pub source_account_id: Option<String>,
    pub destination_account_id: Option<String>,
    pub category_id: Option<String>,
    pub payment_method: String,
    pub value: i64,
    pub currency: String,
    pub description: String,
    pub tx_date: String,
    pub paid: Option<bool>,
    pub fx_rate: Option<String>,
    pub card_id: Option<String>,
    pub invoice_id: Option<String>,
    pub bill_id: Option<String>,
    pub tag_ids: Option<Vec<String>>,
    pub installments: Option<u32>,
}

/// Body of `PATCH /transactions/{id}`: fields left out keep their value; an
/// empty `category_id` clears the category.
#[derive(Debug)]
pub struct UpdateTransaction {
    pub source_account_id: Option<String>,
    pub destination_account_id: Option<String>,
    pub category_id: Option<String>,
    pub payment_method: Option<String>,
    pub value: Option<i64>,
    pub description: Option<String>,
    pub tx_date: Option<String>,
    pub paid: Option<bool>,
    pub fx_rate: Option<String>,
    pub card_id: Option<String>,
    pub invoice_id: Option<String>,
    pub bill_id: Option<String>,
}

/// Body of `POST /transactions/transfer`.
#[derive(Debug)]
pub struct CreateTransfer {
    pub source_account_id: String,
    pub destination_account_id: String,
    pub value: i64,
    pub currency: String,
    pub fx_rate: Option<String>,
    pub tx_date: String,
    pub description: String,
    pub payment_method: String,
}

/// One page of transactions.
#[derive(Debug)]
pub struct TransactionPage {
    pub items: Vec<Transaction>,
    pub page: PageMeta,
}

/// Query of `DELETE /transactions/{id}`: `scope` is `"this"` (the default)
/// or `"following"`, which also removes the later installments of the row.
#[derive(Debug)]
pub struct DeleteQuery {
    pub scope: Option<String>,
}

impl DeleteQuery {
    /// Whether the later installments go too.
    pub fn following(&self) -> (r: bool)
        ensures
            r == (self.scope matches Some(s) && s@ == "following"@),
    {
        match &self.scope {
            Some(s) => deletes_following(Some(s.as_str())),
            None => deletes_following(None),
        }
    }
}

impl CreateTransaction {
    /// The value must be strictly positive.
    pub fn check_value(&self) -> (r: Result<(), ApiError>)
        ensures
            r is Ok <==> self.value > 0,
            r matches Err(e) ==> is_validation(e, "value"@, "must be > 0"@),
    {
        require_positive("value", self.value)
    }

    /// Whether the row is marked paid: unless the request says otherwise.
    pub fn is_paid(&self) -> (r: bool)
        ensures
            r == (match self.paid {
                Some(p) => p,
                None => true,
            }),
    {
        match self.paid {
            Some(p) => p,
            None => true,
        }
    }
}

/// What creating a transaction needs next.
#[derive(Debug)]
pub enum CreateStep {
    /// Look up the id of the user's bucket account of this kind.
    FindBucket(String),
    /// Look up the kinds of these two accounts among the user's.
    FindKinds(String, String),
    /// Every check passed: write the transaction with these legs.
    Write(String, String),
}

impl CreateTransaction {
    /// The error a request with too few legs is refused with, as (field,
    /// reason): a missing leg needs a category, and one leg is needed.
    pub open spec fn plan_error(self) -> Option<(Seq<char>, Seq<char>)> {
        match (self.source_account_id, self.destination_account_id) {
            (Some(_), Some(_)) => None,
            (Some(_), None) => if self.category_id is Some {
                None
            } else {
                Some(("category_id"@, "required when destination_account_id is omitted"@))
            },
            (None, Some(_)) => if self.category_id is Some {
                None
            } else {
                Some(("category_id"@, "required when source_account_id is omitted"@))
            },
            (None, None) => Some(
                ("source_account_id+destination_account_id"@, "at least one leg must be provided"@),
            ),
        }
    }

    /// The kind of bucket account that fills the missing leg, if one is
    /// missing.
    pub open spec fn bucket_kind(self) -> Option<Seq<char>> {
        match (self.source_account_id, self.destination_account_id) {
            (Some(_), None) => Some("expense"@),
            (None, Some(_)) => Some("revenue"@),
            _ => None,
        }
    }

    /// The two legs, the missing one (if any) being the bucket `bucket`.
    pub open spec fn legs(self, bucket: Seq<char>) -> (Seq<char>, Seq<char>) {
        match (self.source_account_id, self.destination_account_id) {
            (Some(s), Some(d)) => (s@, d@),
            (Some(s), None) => (s@, bucket),
            (None, Some(d)) => (bucket, d@),
            (None, None) => (bucket, bucket),
        }
    }

    /// What `create_step` answers, given the bucket lookup and the lookup
    /// of the legs' kinds (`None` while not made). The checks come in this
    /// order: the value, the legs given, the bucket, distinct legs, the
    /// accounts found among the user's, and the leg pair with its category.
    pub open spec fn step_outcome(
        self,
        bucket: Option<Option<String>>,
        kinds: Option<Option<(String, String)>>,
        r: Result<CreateStep, ApiError>,
    ) -> bool {
        if self.value <= 0 {
            r matches Err(e) && is_validation(e, "value"@, "must be > 0"@)
        } else if self.plan_error() is Some {
            let (field, reason) = self.plan_error()->0;
            r matches Err(e) && is_validation(e, field, reason)
        } else if self.bucket_kind() is Some && bucket is None {
            r matches Ok(CreateStep::FindBucket(k)) && k@ == self.bucket_kind()->0
        } else if self.bucket_kind() is Some && bucket == Some(None::<String>) {
            r matches Err(e) && is_validation(
                e,
                self.bucket_kind()->0,
                "user has no "@ + self.bucket_kind()->0
                    + " bucket account; re-register or self-heal"@,
            )
        } else {
            let b = match bucket {
                Some(Some(b)) => b@,
                _ => Seq::empty(),
            };
            let (s, d) = self.legs(b);
            if s == d {
                r matches Err(e) && is_validation(
                    e,
                    "destination_account_id"@,
                    "must differ from source_account_id"@,
                )
            } else {
                match kinds {
                    None => r matches Ok(CreateStep::FindKinds(s2, d2)) && s2@ == s && d2@ == d,
                    Some(row) => match found_kinds(row) {
                        None => r matches Err(ApiError::NotFound),
                        Some((sk, dk)) => if leg_pair_ok(
                            sk,
                            dk,
                            opt_string_view(self.category_id),
                        ) {
                            r matches Ok(CreateStep::Write(s2, d2)) && s2@ == s && d2@ == d
                        } else {
                            r matches Err(e) && leg_pair_error(sk, dk, e)
                        },
                    },
                }
            }
        }
    }
}

/// A copy of an optional text.
fn copy_opt(o: &Option<String>) -> (r: Option<String>)
    ensures
        r == *o,
{
    match o {
        Some(s) => Some(s.clone()),
        None => None,
    }
}

/// An optional text as an optional `&str`.
fn opt_as_str(o: &Option<String>) -> (r: Option<&str>)
    ensures
        match o {
            Some(s) => r matches Some(x) && x@ == s@,
            None => r is None,
        },
{
    match o {
        Some(s) => Some(s.as_str()),
        None => None,
    }
}

/// The next step of creating a transaction, given the result of the
/// bucket lookup and of the lookup of the legs' kinds, each `None` while
/// not made yet. Errors come in the order of `step_outcome`.
pub fn create_step(
    req: &CreateTransaction,
    bucket: Option<Option<String>>,
    kinds: Option<Option<(String, String)>>,
) -> (r: Result<CreateStep, ApiError>)
    ensures
        req.step_outcome(bucket, kinds, r),
{
    req.check_value()?;
    let plan = plan_legs(
        copy_opt(&req.source_account_id),
        copy_opt(&req.destination_account_id),
        req.category_id.is_some(),
    )?;
    let needed: Option<&str> = match &plan {
        LegPlan::Given(_, _) => None,
        LegPlan::ToExpense(_) => Some("expense"),
        LegPlan::FromRevenue(_) => Some("revenue"),
    };
    proof {
        reveal_strlit("expense");
        reveal_strlit("revenue");
        reveal_strlit("user has no ");
        reveal_strlit(" bucket account; re-register or self-heal");
        reveal_strlit("user has no expense bucket account; re-register or self-heal");
        reveal_strlit("user has no revenue bucket account; re-register or self-heal");
        assert("user has no "@ + "expense"@ + " bucket account; re-register or self-heal"@
            =~= "user has no expense bucket account; re-register or self-heal"@);
        assert("user has no "@ + "revenue"@ + " bucket account; re-register or self-heal"@
            =~= "user has no revenue bucket account; re-register or self-heal"@);
    }
    let found: Option<String> = match (needed, bucket) {
        (Some(k), None) => {
            return Ok(CreateStep::FindBucket(String::from_str(k)));
        },
        (_, Some(b)) => b,
        (None, None) => None,
    };
    let (src, dst) = complete_legs(plan, found)?;
    require_distinct_legs(src.as_str(), dst.as_str())?;
    let row = match kinds {
        None => {
            return Ok(CreateStep::FindKinds(src, dst));
        },
        Some(row) => row,
    };
    let (sk, dk) = found_leg_kinds(row)?;
    validate_leg_pair(sk.as_str(), dk.as_str(), opt_as_str(&req.category_id))?;
    Ok(CreateStep::Write(src, dst))
}

impl UpdateTransaction {
    /// A new value, where one is given, must be strictly positive.
    pub fn check_value(&self) -> (r: Result<(), ApiError>)
        ensures
            r is Ok <==> (match self.value {
                Some(v) => v > 0,
                None => true,
            }),
            r matches Err(e) ==> is_validation(e, "value"@, "must be > 0"@),
    {
        match self.value {
            Some(v) => require_positive("value", v),
            None => Ok(()),
        }
    }
}

/// What an edit of a transaction needs next.
#[derive(Debug)]
pub enum UpdateStep {
    /// Look up the user's live transaction: its source, destination and
    /// category.
    FindTransaction,
    /// Look up the kinds of these two accounts among the user's.
    FindKinds(String, String),
    /// Every check passed: the effective source, destination and category.
    Write(String, String, Option<String>),
}

impl UpdateTransaction {
    /// What `update_step` answers, given the lookup of the transaction and
    /// of the effective legs' kinds (`None` while not made). The checks come
    /// in this order: the value, the transaction found, distinct effective
    /// legs, the accounts found among the user's, and the leg pair with the
    /// effective category.
    pub open spec fn step_outcome(
        self,
        current: Option<Option<(String, String, Option<String>)>>,
        kinds: Option<Option<(String, String)>>,
        r: Result<UpdateStep, ApiError>,
    ) -> bool {
        if self.value matches Some(v) && v <= 0 {
            r matches Err(e) && is_validation(e, "value"@, "must be > 0"@)
        } else {
            match current {
                None => r matches Ok(UpdateStep::FindTransaction),
                Some(None) => r matches Err(ApiError::NotFound),
                Some(Some((cs, cd, cc))) => {
                    let s = match self.source_account_id {
                        Some(x) => x@,
                        None => cs@,
                    };
                    let d = match self.destination_account_id {
                        Some(x) => x@,
                        None => cd@,
                    };
                    let c = edited_category(
                        opt_string_view(self.category_id),
                        opt_string_view(cc),
                    );
                    if s == d {
                        r matches Err(e) && is_validation(
                            e,
                            "destination_account_id"@,
                            "must differ from source_account_id"@,
                        )
                    } else {
                        match kinds {
                            None => r matches Ok(UpdateStep::FindKinds(s2, d2)) && s2@ == s && d2@
                                == d,
                            Some(row) => match found_kinds(row) {
                                None => r matches Err(ApiError::NotFound),
                                Some((sk, dk)) => if leg_pair_ok(sk, dk, c) {
                                    r matches Ok(UpdateStep::Write(s2, d2, c2)) && s2@ == s && d2@
                                        == d && opt_string_view(c2) == c
                                } else {
                                    r matches Err(e) && leg_pair_error(sk, dk, e)
                                },
                            },
                        }
                    }
                },
            }
        }
    }
}

/// The next step of an edit of a transaction, given the lookup of the
/// transaction and of the effective legs' kinds, each `None` while not
/// made yet. Errors come in the order of `step_outcome`.
pub fn update_step(
    req: &UpdateTransaction,
    current: Option<Option<(String, String, Option<String>)>>,
    kinds: Option<Option<(String, String)>>,
) -> (r: Result<UpdateStep, ApiError>)
    ensures
        req.step_outcome(current, kinds, r),
{
    req.check_value()?;
    let (cs, cd, cc) = match current {
        None => {
            return Ok(UpdateStep::FindTransaction);
        },
        Some(None) => {
            return Err(ApiError::NotFound);
        },
        Some(Some(cur)) => cur,
    };
    let (src, dst, cat) = edited_legs(
        copy_opt(&req.source_account_id),
        copy_opt(&req.destination_account_id),
        copy_opt(&req.category_id),
        cs,
        cd,
        cc,
    )?;
    let row = match kinds {
        None => {
            return Ok(UpdateStep::FindKinds(src, dst));
        },
        Some(row) => row,
    };
    let (sk, dk) = found_leg_kinds(row)?;
    validate_leg_pair(sk.as_str(), dk.as_str(), opt_as_str(&cat))?;
    Ok(UpdateStep::Write(src, dst, cat))
}

/// Settlement state of a transaction of the user service.
#[derive(Debug, Clone, Copy, PartialEq, Eq, Structural)]
pub enum TransactionStatus {
    Posted,
    Pending,
    Failed,
}

/// The stored name of each status (lower case).
pub open spec fn status_name(s: TransactionStatus) -> Seq<char> {
    match s {
        TransactionStatus::Posted => "posted"@,
        TransactionStatus::Pending => "pending"@,
        TransactionStatus::Failed => "failed"@,
    }
}

impl TransactionStatus {
    /// The name under which the status is stored.
    pub fn name(&self) -> (r: &'static str)
        ensures
            r@ == status_name(*self),
    {
        match self {
            TransactionStatus::Posted => "posted",
            TransactionStatus::Pending => "pending",
            TransactionStatus::Failed => "failed",
        }
    }
}

/// The columns of a transaction row, with its kind derived from the kinds of
/// its two accounts.
pub const TX_SELECT_COLS: &'static str = "id, source_account_id, destination_account_id, category_id, payment_method, \
value, currency, fx_rate, description, tx_date, \
CAST(paid AS INTEGER) != 0 AS paid, \
receipt_url, picture_url, card_id, bill_id, invoice_id, \
installment_group_id, installment_number, installment_count, \
created_at, updated_at, \
(CASE \
WHEN (SELECT type FROM accounts WHERE id = source_account_id) = 'equity' \
OR (SELECT type FROM accounts WHERE id = destination_account_id) = 'equity' THEN 'opening' \
WHEN (SELECT type FROM accounts WHERE id = source_account_id) = 'revenue' \
AND (SELECT type FROM accounts WHERE id = destination_account_id) IN ('asset','credit_card') THEN 'deposit' \
WHEN (SELECT type FROM accounts WHERE id = source_account_id) IN ('asset','credit_card') \
AND (SELECT type FROM accounts WHERE id = destination_account_id) = 'expense' THEN 'withdrawal' \
ELSE 'transfer' \
END) AS kind";

/// A text when a condition holds, else nothing.
pub open spec fn text_if(c: bool, s: Seq<char>) -> Seq<char> {
    if c {
        s
    } else {
        Seq::empty()
    }
}

/// The query of a page of transactions. Its parameters, in order: the
/// user; the month's first day and the next month's first day (with a
/// month); the category (with a category); the account, twice (with an
/// account); the cursor's date, date again and id (with a cursor); and the
/// number of rows to fetch. Rows come by date then id, in the given order,
/// and a cursor selects the rows strictly after it in that order.
pub open spec fn list_sql_text(
    month: bool,
    category: bool,
    account: bool,
    cursor: bool,
    order: Order,
) -> Seq<char> {
    let (op, dir) = if order == Order::Asc {
        (">"@, "ASC"@)
    } else {
        ("<"@, "DESC"@)
    };
    "SELECT "@ + TX_SELECT_COLS@ + " FROM transactions WHERE user_id = ? AND deleted_at IS NULL"@
        + text_if(month, " AND tx_date >= ? AND tx_date < ?"@)
        + text_if(category, " AND category_id = ?"@)
        + text_if(account, " AND (source_account_id = ? OR destination_account_id = ?)"@)
        + text_if(cursor, " AND (tx_date "@ + op + " ? OR (tx_date = ? AND id "@ + op + " ?))"@)
        + " ORDER BY tx_date "@ + dir + ", id "@ + dir + " LIMIT ?"@
}

/// Builds the query of a page of transactions for the filters present.
pub fn list_sql(month: bool, category: bool, account: bool, cursor: bool, order: Order) -> (r:
    String)
    ensures
        r@ == list_sql_text(month, category, account, cursor, order),
{
    let (op, dir) = crate::paging::order_sql(order);
    let mut s = String::from_str("SELECT ");
    s.append(TX_SELECT_COLS);
    s.append(" FROM transactions WHERE user_id = ? AND deleted_at IS NULL");
    let ghost base = s@;
    if month {
        s.append(" AND tx_date >= ? AND tx_date < ?");
    }
    let ghost with_month = s@;
    assert(with_month =~= base + text_if(month, " AND tx_date >= ? AND tx_date < ?"@));
    if category {
        s.append(" AND category_id = ?");
    }
    let ghost with_category = s@;
    assert(with_category =~= with_month + text_if(category, " AND category_id = ?"@));
    if account {
        s.append(" AND (source_account_id = ? OR destination_account_id = ?)");
    }
    let ghost with_account = s@;
    assert(with_account =~= with_category + text_if(
        account,
        " AND (source_account_id = ? OR destination_account_id = ?)"@,
    ));
    if cursor {
        s.append(" AND (tx_date ");
        s.append(op);
        s.append(" ? OR (tx_date = ? AND id ");
        s.append(op);
        s.append(" ?))");
    }
    let ghost with_cursor = s@;
    assert(with_cursor =~= with_account + text_if(
        cursor,
        " AND (tx_date "@ + op@ + " ? OR (tx_date = ? AND id "@ + op@ + " ?))"@,
    ));
    s.append(" ORDER BY tx_date ");
    s.append(dir);
    s.append(", id ");
    s.append(dir);
    s.append(" LIMIT ?");
    proof {
        reveal_strlit("<");
        reveal_strlit(">");
        reveal_strlit("DESC");
        reveal_strlit("ASC");
    }
    s
}

/// The condition a cursor adds to the listing, with `op` comparing a row's
/// date and id to the cursor's (parameters: its date, date again, id).
pub open spec fn cursor_clause(op: Seq<char>) -> Seq<char> {
    " AND (tx_date "@ + op + " ? OR (tx_date = ? AND id "@ + op + " ?))"@
}

/// The ordering and limit of the listing, in direction `dir`.
pub open spec fn order_clause(dir: Seq<char>) -> Seq<char> {
    " ORDER BY tx_date "@ + dir + ", id "@ + dir + " LIMIT ?"@
}

/// Whether the cursor condition with `op` keeps a row (date, id) for the
/// cursor (date, id).
pub open spec fn cursor_keeps(op: Seq<char>, row: (int, int), cur: (int, int)) -> bool {
    sql_cmp(op, row.0, cur.0) || (row.0 == cur.0 && sql_cmp(op, row.1, cur.1))
}

/// Whether row `a` comes strictly before row `b` when rows are ordered by
/// date, then id, in direction `dir`.
pub open spec fn ordered_before(dir: Seq<char>, a: (int, int), b: (int, int)) -> bool {
    if dir == "ASC"@ {
        a.0 < b.0 || (a.0 == b.0 && a.1 < b.1)
    } else if dir == "DESC"@ {
        a.0 > b.0 || (a.0 == b.0 && a.1 > b.1)
    } else {
        false
    }
}

/// A listing query split as (filters, cursor comparison, direction).
pub open spec fn listing_with_cursor(w: (Seq<char>, Seq<char>, Seq<char>)) -> Seq<char> {
    w.0 + cursor_clause(w.1) + order_clause(w.2)
}

/// The listing with a cursor is the listing without one plus a condition
/// that keeps exactly the rows coming strictly after the cursor in the
/// listing's order (newest first unless ascending is asked for). So the
/// next page starts right after the last row of a page: no row comes
/// twice and none is skipped.
pub open spec fn cursor_continues(month: bool, category: bool, account: bool, order: Order) -> bool {
    exists|w: (Seq<char>, Seq<char>, Seq<char>)|
        #[trigger] listing_with_cursor(w) == list_sql_text(month, category, account, true, order)
            && w.0 + order_clause(w.2) == list_sql_text(month, category, account, false, order)
            && (order == Order::Desc ==> w.2 == "DESC"@) && (order == Order::Asc ==> w.2 == "ASC"@)
            && forall|row: (int, int), cur: (int, int)|
            #[trigger] cursor_keeps(w.1, row, cur) == ordered_before(w.2, cur, row)
}

/// A page's cursor continues the listing where the page ended, in either
/// order.
pub proof fn lemma_cursor_continues_listing(month: bool, category: bool, account: bool, order: Order)
    ensures
        cursor_continues(month, category, account, order),
{
    reveal_strlit("<");
    reveal_strlit(">");
    reveal_strlit("ASC");
    reveal_strlit("DESC");
    reveal_strlit("<=");
    reveal_strlit(">=");
    reveal_strlit("=");
    let (op, dir) = if order == Order::Asc {
        (">"@, "ASC"@)
    } else {
        ("<"@, "DESC"@)
    };
    let head = "SELECT "@ + TX_SELECT_COLS@ + " FROM transactions WHERE user_id = ? AND deleted_at IS NULL"@
        + text_if(month, " AND tx_date >= ? AND tx_date < ?"@) + text_if(
        category,
        " AND category_id = ?"@,
    ) + text_if(account, " AND (source_account_id = ? OR destination_account_id = ?)"@);
    let w = (head, op, dir);
    assert(listing_with_cursor(w) =~= list_sql_text(month, category, account, true, order));
    assert(w.0 + order_clause(w.2) =~= list_sql_text(month, category, account, false, order));
    assert("ASC"@ != "DESC"@) by {
        assert("ASC"@.len() != "DESC"@.len());
    }
    assert(">"@ != "<"@) by {
        assert(">"@[0] != "<"@[0]);
    }
}

/// The category a transaction has after an edit: the one the edit gives
/// (an empty one clearing it), else the one it had.
pub open spec fn category_after_edit(req: Option<String>, cur: Option<String>) -> Option<Seq<char>> {
    match req {
        Some(c) => if c@.len() == 0 {
            None
        } else {
            Some(c@)
        },
        None => match cur {
            Some(c) => Some(c@),
            None => None,
        },
    }
}

/// An edit of an existing transaction whose value (if given) is positive,
/// whose legs stay distinct and are both found among the user's accounts,
/// is accepted exactly when the kinds of its legs allow the category the
/// transaction has after the edit, and it keeps that category. In
/// particular an edit that leaves the category out of a deposit or a
/// withdrawal that has one is accepted.
pub proof fn lemma_edit_judged_on_resulting_category(
    req: UpdateTransaction,
    cur: (String, String, Option<String>),
    kinds: (String, String),
    r: Result<UpdateStep, ApiError>,
)
    requires
        req.value matches Some(v) ==> v > 0,
        (match req.source_account_id {
            Some(x) => x@,
            None => cur.0@,
        }) != (match req.destination_account_id {
            Some(x) => x@,
            None => cur.1@,
        }),
        kinds.0@.len() > 0,
        kinds.1@.len() > 0,
        req.step_outcome(Some(Some(cur)), Some(Some(kinds)), r),
    ensures
        r is Ok <==> leg_pair_ok(
            kinds.0@,
            kinds.1@,
            category_after_edit(req.category_id, cur.2),
        ),
        r matches Ok(UpdateStep::Write(_, _, c)) ==> opt_string_view(c) == category_after_edit(
            req.category_id,
            cur.2,
        ),
        req.category_id is None && (cur.2 matches Some(c) && c@.len() > 0) && (leg_kind(
            kinds.0@,
            kinds.1@,
        ) == Some(LegKind::Deposit) || leg_kind(kinds.0@, kinds.1@) == Some(LegKind::Withdrawal))
            ==> r is Ok,
{
}

} // verus!
