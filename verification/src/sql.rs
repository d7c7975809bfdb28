//! What the pieces of the SQL texts this library writes mean: comparison
//! operators, signs, and the sums of ledger rows that balance queries
//! compute.
use vstd::prelude::*;

verus! {

/// How a SQL comparison operator compares two values.
pub open spec fn sql_cmp(op: Seq<char>, a: int, b: int) -> bool {
    if op == "<"@ {
        a < b
    } else if op == "<="@ {
        a <= b
    } else if op == ">"@ {
        a > b
    } else if op == ">="@ {
        a >= b
    } else if op == "="@ {
        a == b
    } else {
        false
    }
}

/// The factor a SQL sign operator puts in front of a term.
pub open spec fn sign_value(op: Seq<char>) -> int {
    if op == "+"@ {
        1
    } else if op == "-"@ {
        -1
    } else {
        0
    }
}

/// `n` spaces.
pub open spec fn spaces(n: nat) -> Seq<char> {
    Seq::new(n, |i: int| ' ')
}

/// A ledger row as the balance queries read it: source account,
/// destination account, value, date, and whether it is live (not deleted).
/// Accounts and dates are taken as values that compare.
pub open spec fn row_live(r: (int, int, int, int, bool)) -> bool {
    r.4
}

/// The sum of the values of the rows that `keep` keeps.
pub open spec fn sum_where(
    rows: Seq<(int, int, int, int, bool)>,
    keep: spec_fn((int, int, int, int, bool)) -> bool,
) -> int
    decreases rows.len(),
{
    if rows.len() == 0 {
        0
    } else {
        sum_where(rows.drop_last(), keep) + if keep(rows.last()) {
            rows.last().2
        } else {
            0
        }
    }
}

/// Money that came into `acct` in live rows dated before `cut`.
pub open spec fn incoming(rows: Seq<(int, int, int, int, bool)>, acct: int, cut: int) -> int {
    sum_where(rows, |r: (int, int, int, int, bool)| r.4 && r.1 == acct && r.3 < cut)
}

/// Money that went out of `acct` in live rows dated before `cut`.
pub open spec fn outgoing(rows: Seq<(int, int, int, int, bool)>, acct: int, cut: int) -> int {
    sum_where(rows, |r: (int, int, int, int, bool)| r.4 && r.0 == acct && r.3 < cut)
}

/// The account a row has in the column named `col`, if `col` names one.
pub open spec fn row_account(col: Seq<char>, r: (int, int, int, int, bool)) -> Option<int> {
    if col == "destination_account_id"@ {
        Some(r.1)
    } else if col == "source_account_id"@ {
        Some(r.0)
    } else {
        None
    }
}

/// The text of a summed-flow subquery: the values of the live
/// transactions whose column `col` (followed by `pad` spaces) is the
/// account's id, dated `cmp` the cutoff `e`.
pub open spec fn flow_text(col: Seq<char>, pad: nat, cmp: Seq<char>, e: Seq<char>) -> Seq<char> {
    "COALESCE((SELECT SUM(value) FROM transactions WHERE "@ + col + spaces(pad)
        + " = a.id AND deleted_at IS NULL AND tx_date "@ + cmp + " "@ + e + "), 0)"@
}

/// What a flow subquery sums for the account `acct` when the cutoff is
/// `cut`.
pub open spec fn flow_value(
    rows: Seq<(int, int, int, int, bool)>,
    col: Seq<char>,
    cmp: Seq<char>,
    acct: int,
    cut: int,
) -> int {
    sum_where(
        rows,
        |r: (int, int, int, int, bool)|
            r.4 && row_account(col, r) == Some(acct) && sql_cmp(cmp, r.3, cut),
    )
}

/// The parts of a balance expression: the initial balance, then two
/// signed flows, each given by (sign, column, padding, date comparison).
pub open spec fn balance_form_text(
    f: (Seq<char>, Seq<char>, nat, Seq<char>, Seq<char>, Seq<char>, nat, Seq<char>),
    e: Seq<char>,
) -> Seq<char> {
    "a.initial_balance "@ + f.0 + " "@ + flow_text(f.1, f.2, f.3, e) + " "@ + f.4 + " "@
        + flow_text(f.5, f.6, f.7, e)
}

/// The value of a balance expression with those parts.
pub open spec fn balance_form_value(
    f: (Seq<char>, Seq<char>, nat, Seq<char>, Seq<char>, Seq<char>, nat, Seq<char>),
    rows: Seq<(int, int, int, int, bool)>,
    acct: int,
    init: int,
    cut: int,
) -> int {
    init + sign_value(f.0) * flow_value(rows, f.1, f.3, acct, cut) + sign_value(f.4) * flow_value(
        rows,
        f.5,
        f.7,
        acct,
        cut,
    )
}

/// `t` is a balance expression over the cutoff `e` whose value, on every
/// ledger, for every account, initial balance and cutoff, is the initial
/// balance plus what came in minus what went out before the cutoff.
pub open spec fn means_balance(t: Seq<char>, e: Seq<char>) -> bool {
    exists|f: (Seq<char>, Seq<char>, nat, Seq<char>, Seq<char>, Seq<char>, nat, Seq<char>)|
        #[trigger] balance_form_text(f, e) == t && forall|
            rows: Seq<(int, int, int, int, bool)>,
            acct: int,
            init: int,
            cut: int,
        |
            #[trigger] balance_form_value(f, rows, acct, init, cut) == init + incoming(
                rows,
                acct,
                cut,
            ) - outgoing(rows, acct, cut)
}

/// The balance expression with money in added and money out subtracted,
/// both counted before the cutoff `e`, has the meaning of a balance.
pub proof fn lemma_in_minus_out_is_balance(e: Seq<char>)
    ensures
        means_balance(
            "a.initial_balance + "@ + flow_text("destination_account_id"@, 0, "<"@, e) + " - "@
                + flow_text("source_account_id"@, 5, "<"@, e),
            e,
        ),
{
    let f = ("+"@, "destination_account_id"@, 0nat, "<"@, "-"@, "source_account_id"@, 5nat, "<"@);
    reveal_strlit("+");
    reveal_strlit("-");
    reveal_strlit("<");
    reveal_strlit(" ");
    reveal_strlit("a.initial_balance ");
    reveal_strlit("a.initial_balance + ");
    reveal_strlit(" - ");
    reveal_strlit("destination_account_id");
    reveal_strlit("source_account_id");
    assert("source_account_id"@.len() == 17 && "destination_account_id"@.len() == 22);
    assert("source_account_id"@ != "destination_account_id"@);
    assert("-"@[0] != "+"@[0]);
    assert("-"@ != "+"@);
    assert(balance_form_text(f, e) =~= "a.initial_balance + "@ + flow_text(
        "destination_account_id"@,
        0,
        "<"@,
        e,
    ) + " - "@ + flow_text("source_account_id"@, 5, "<"@, e));
    assert forall|rows: Seq<(int, int, int, int, bool)>, acct: int, init: int, cut: int|
        #[trigger] balance_form_value(f, rows, acct, init, cut) == init + incoming(rows, acct, cut)
            - outgoing(rows, acct, cut) by {
        assert((|r: (int, int, int, int, bool)|
            r.4 && row_account("destination_account_id"@, r) == Some(acct) && sql_cmp(
                "<"@,
                r.3,
                cut,
            )) =~= (|r: (int, int, int, int, bool)| r.4 && r.1 == acct && r.3 < cut));
        assert((|r: (int, int, int, int, bool)|
            r.4 && row_account("source_account_id"@, r) == Some(acct) && sql_cmp("<"@, r.3, cut))
            =~= (|r: (int, int, int, int, bool)| r.4 && r.0 == acct && r.3 < cut));
        assert(flow_value(rows, f.1, f.3, acct, cut) == incoming(rows, acct, cut));
        assert(flow_value(rows, f.5, f.7, acct, cut) == outgoing(rows, acct, cut));
        assert(sign_value(f.0) == 1);
        assert(sign_value(f.4) == -1);
    }
}

/// The date condition of a flow subquery: none, or the row's date
/// compared by `cmp` with the parameter text `e`.
pub open spec fn date_cond_text(cond: Option<(Seq<char>, Seq<char>)>) -> Seq<char> {
    match cond {
        Some((cmp, e)) => " AND tx_date "@ + cmp + " "@ + e,
        None => Seq::empty(),
    }
}

/// The text of a summed-flow subquery with an optional date condition.
pub open spec fn dated_flow_text(col: Seq<char>, pad: nat, cond: Option<(Seq<char>, Seq<char>)>) -> Seq<
    char,
> {
    "COALESCE((SELECT SUM(value) FROM transactions WHERE "@ + col + spaces(pad)
        + " = a.id AND deleted_at IS NULL"@ + date_cond_text(cond) + "), 0)"@
}

/// What a flow subquery with an optional date condition sums for the
/// account `acct`, the condition's parameter being `cut`.
pub open spec fn dated_flow_value(
    rows: Seq<(int, int, int, int, bool)>,
    col: Seq<char>,
    cond: Option<(Seq<char>, Seq<char>)>,
    acct: int,
    cut: int,
) -> int {
    sum_where(
        rows,
        |r: (int, int, int, int, bool)|
            r.4 && row_account(col, r) == Some(acct) && match cond {
                Some((cmp, _)) => sql_cmp(cmp, r.3, cut),
                None => true,
            },
    )
}

/// Money that came into `acct` in live rows dated on or before `upto`
/// (at any date when there is no bound).
pub open spec fn incoming_upto(rows: Seq<(int, int, int, int, bool)>, acct: int, upto: Option<int>) -> int {
    sum_where(
        rows,
        |r: (int, int, int, int, bool)| r.4 && r.1 == acct && (upto matches Some(c) ==> r.3 <= c),
    )
}

/// Money that went out of `acct` in live rows dated on or before `upto`
/// (at any date when there is no bound).
pub open spec fn outgoing_upto(rows: Seq<(int, int, int, int, bool)>, acct: int, upto: Option<int>) -> int {
    sum_where(
        rows,
        |r: (int, int, int, int, bool)| r.4 && r.0 == acct && (upto matches Some(c) ==> r.3 <= c),
    )
}

/// The parts of a one-account balance query: the sign between its two
/// flows, each flow's column and padding, and their date condition.
pub open spec fn account_total_text(
    f: (Seq<char>, Seq<char>, nat, Seq<char>, nat, Option<(Seq<char>, Seq<char>)>),
) -> Seq<char> {
    "SELECT a.currency, a.initial_balance, "@ + dated_flow_text(f.1, f.2, f.5) + " "@ + f.0 + " "@
        + dated_flow_text(f.3, f.4, f.5)
        + " AS tx_total FROM accounts a WHERE a.id = ? AND a.user_id = ? AND a.deleted_at IS NULL"@
}

/// The `tx_total` of a one-account balance query with those parts.
pub open spec fn account_total_value(
    f: (Seq<char>, Seq<char>, nat, Seq<char>, nat, Option<(Seq<char>, Seq<char>)>),
    rows: Seq<(int, int, int, int, bool)>,
    acct: int,
    cut: int,
) -> int {
    dated_flow_value(rows, f.1, f.5, acct, cut) + sign_value(f.0) * dated_flow_value(
        rows,
        f.3,
        f.5,
        acct,
        cut,
    )
}

/// `t` is a one-account balance query whose `tx_total`, on every ledger
/// and for every account, is the money that came in minus the money that
/// went out: with `as_of`, of the rows dated on or before the date given
/// as its parameter, otherwise of all rows.
pub open spec fn means_account_total(t: Seq<char>, as_of: bool) -> bool {
    exists|f: (Seq<char>, Seq<char>, nat, Seq<char>, nat, Option<(Seq<char>, Seq<char>)>)|
        #[trigger] account_total_text(f) == t && (as_of ==> (f.5 matches Some((_, e)) && e == "?"@))
            && forall|rows: Seq<(int, int, int, int, bool)>, acct: int, cut: int|
            #[trigger] account_total_value(f, rows, acct, cut) == incoming_upto(
                rows,
                acct,
                if as_of {
                    Some(cut)
                } else {
                    None
                },
            ) - outgoing_upto(
                rows,
                acct,
                if as_of {
                    Some(cut)
                } else {
                    None
                },
            )
}

/// Money in minus money out, with or without a bound on the date, has the
/// meaning of an account's transaction total.
pub proof fn lemma_in_minus_out_is_account_total(as_of: bool)
    ensures
        ({
            let cond = if as_of {
                Some(("<="@, "?"@))
            } else {
                None
            };
            means_account_total(
                "SELECT a.currency, a.initial_balance, "@ + dated_flow_text(
                    "destination_account_id"@,
                    0,
                    cond,
                ) + " - "@ + dated_flow_text("source_account_id"@, 5, cond)
                    + " AS tx_total FROM accounts a WHERE a.id = ? AND a.user_id = ? AND a.deleted_at IS NULL"@,
                as_of,
            )
        }),
{
    let cond: Option<(Seq<char>, Seq<char>)> = if as_of {
        Some(("<="@, "?"@))
    } else {
        None
    };
    let f = ("-"@, "destination_account_id"@, 0nat, "source_account_id"@, 5nat, cond);
    reveal_strlit("-");
    reveal_strlit("+");
    reveal_strlit("<");
    reveal_strlit("<=");
    reveal_strlit(" ");
    reveal_strlit(" - ");
    reveal_strlit("destination_account_id");
    reveal_strlit("source_account_id");
    assert("source_account_id"@.len() == 17 && "destination_account_id"@.len() == 22);
    assert("source_account_id"@ != "destination_account_id"@);
    assert("-"@[0] != "+"@[0]);
    assert("-"@ != "+"@);
    assert("<="@ != "<"@) by {
        assert("<="@.len() != "<"@.len());
    }
    assert(account_total_text(f) =~= "SELECT a.currency, a.initial_balance, "@ + dated_flow_text(
        "destination_account_id"@,
        0,
        cond,
    ) + " - "@ + dated_flow_text("source_account_id"@, 5, cond)
        + " AS tx_total FROM accounts a WHERE a.id = ? AND a.user_id = ? AND a.deleted_at IS NULL"@);
    assert forall|rows: Seq<(int, int, int, int, bool)>, acct: int, cut: int|
        #[trigger] account_total_value(f, rows, acct, cut) == incoming_upto(
            rows,
            acct,
            if as_of {
                Some(cut)
            } else {
                None
            },
        ) - outgoing_upto(
            rows,
            acct,
            if as_of {
                Some(cut)
            } else {
                None
            },
        ) by {
        let upto: Option<int> = if as_of {
            Some(cut)
        } else {
            None
        };
        assert((|r: (int, int, int, int, bool)|
            r.4 && row_account("destination_account_id"@, r) == Some(acct) && match cond {
                Some((cmp, _)) => sql_cmp(cmp, r.3, cut),
                None => true,
            }) =~= (|r: (int, int, int, int, bool)|
            r.4 && r.1 == acct && (upto matches Some(c) ==> r.3 <= c)));
        assert((|r: (int, int, int, int, bool)|
            r.4 && row_account("source_account_id"@, r) == Some(acct) && match cond {
                Some((cmp, _)) => sql_cmp(cmp, r.3, cut),
                None => true,
            }) =~= (|r: (int, int, int, int, bool)|
            r.4 && r.0 == acct && (upto matches Some(c) ==> r.3 <= c)));
        assert(sign_value(f.0) == -1);
    }
}

} // verus!
