use owo::error::ApiError;
use owo::ledger::{
    bucket_or_error, classify_legs, complete_legs, deletes_following, edited_legs,
    found_leg_kinds, opening_legs, plan_installments, plan_opening_write, plan_legs, require_distinct_legs,
    require_positive, validate_leg_pair, validate_transfer_kinds, validate_transfer_request,
    LegKind, LegPlan, OpeningWrite,
};
use owo::paging::Order;
use owo::transactions::{
    create_step, list_sql, update_step, CreateStep, CreateTransaction, DeleteQuery, TransactionStatus,
    UpdateStep, UpdateTransaction, TX_SELECT_COLS,
};

fn reason_of(e: ApiError) -> (String, String) {
    match e {
        ApiError::Validation { field, reason } => (field, reason),
        other => panic!("not a validation error: {:?}", other),
    }
}

fn s(x: &str) -> String {
    x.to_string()
}

#[test]
fn leg_kinds_of_account_pairs() {
    assert_eq!(classify_legs("equity", "asset"), Some(LegKind::Opening));
    assert_eq!(classify_legs("liability", "equity"), Some(LegKind::Opening));
    assert_eq!(classify_legs("revenue", "credit_card"), Some(LegKind::Deposit));
    assert_eq!(classify_legs("asset", "expense"), Some(LegKind::Withdrawal));
    assert_eq!(classify_legs("asset", "liability"), Some(LegKind::Transfer));
    assert_eq!(classify_legs("revenue", "liability"), None);
    assert_eq!(classify_legs("expense", "asset"), None);
    assert_eq!(classify_legs("revenue", "expense"), None);
}

#[test]
fn leg_pair_category_rules() {
    assert!(validate_leg_pair("asset", "expense", Some("food")).is_ok());
    assert!(validate_leg_pair("revenue", "asset", Some("salary")).is_ok());
    assert!(validate_leg_pair("asset", "credit_card", None).is_ok());
    assert!(validate_leg_pair("asset", "credit_card", Some("")).is_ok());
    assert_eq!(
        reason_of(validate_leg_pair("asset", "expense", None).unwrap_err()),
        (s("category_id"), s("withdrawal requires a category"))
    );
    assert_eq!(
        reason_of(validate_leg_pair("revenue", "asset", Some("")).unwrap_err()),
        (s("category_id"), s("deposit requires a category"))
    );
    assert_eq!(
        reason_of(validate_leg_pair("asset", "asset", Some("c")).unwrap_err()),
        (s("category_id"), s("transfers and opening balances must not carry a category"))
    );
    assert_eq!(
        reason_of(validate_leg_pair("equity", "asset", Some("c")).unwrap_err()).1,
        "transfers and opening balances must not carry a category"
    );
    assert_eq!(
        reason_of(validate_leg_pair("revenue", "expense", None).unwrap_err()),
        (s("source_account_id+destination_account_id"), s("INVALID_LEG_PAIR: revenue -> expense"))
    );
}

#[test]
fn positive_and_distinct() {
    assert!(require_positive("value", 1).is_ok());
    assert_eq!(reason_of(require_positive("value", 0).unwrap_err()), (s("value"), s("must be > 0")));
    assert!(require_distinct_legs("a", "b").is_ok());
    assert_eq!(
        reason_of(require_distinct_legs("a", "a").unwrap_err()),
        (s("destination_account_id"), s("must differ from source_account_id"))
    );
}

#[test]
fn leg_kinds_must_be_found() {
    assert_eq!(found_leg_kinds(Some((s("asset"), s("expense")))).unwrap(), (s("asset"), s("expense")));
    assert!(matches!(found_leg_kinds(Some((s(""), s("expense")))), Err(ApiError::NotFound)));
    assert!(matches!(found_leg_kinds(None), Err(ApiError::NotFound)));
}

#[test]
fn missing_leg_comes_from_a_bucket() {
    assert!(matches!(plan_legs(Some(s("a")), Some(s("b")), false), Ok(LegPlan::Given(x, y)) if x == "a" && y == "b"));
    assert!(matches!(plan_legs(Some(s("a")), None, true), Ok(LegPlan::ToExpense(x)) if x == "a"));
    assert!(matches!(plan_legs(None, Some(s("b")), true), Ok(LegPlan::FromRevenue(x)) if x == "b"));
    assert_eq!(
        reason_of(plan_legs(Some(s("a")), None, false).unwrap_err()),
        (s("category_id"), s("required when destination_account_id is omitted"))
    );
    assert_eq!(
        reason_of(plan_legs(None, Some(s("b")), false).unwrap_err()),
        (s("category_id"), s("required when source_account_id is omitted"))
    );
    assert_eq!(
        reason_of(plan_legs(None, None, true).unwrap_err()),
        (s("source_account_id+destination_account_id"), s("at least one leg must be provided"))
    );
    let plan = plan_legs(Some(s("a")), None, true).unwrap();
    assert_eq!(complete_legs(plan, Some(s("exp"))).unwrap(), (s("a"), s("exp")));
    let plan = plan_legs(None, Some(s("b")), true).unwrap();
    assert_eq!(complete_legs(plan, Some(s("rev"))).unwrap(), (s("rev"), s("b")));
    let plan = plan_legs(None, Some(s("b")), true).unwrap();
    assert_eq!(
        reason_of(complete_legs(plan, None).unwrap_err()),
        (s("revenue"), s("user has no revenue bucket account; re-register or self-heal"))
    );
    assert_eq!(
        reason_of(bucket_or_error("expense", None).unwrap_err()),
        (s("expense"), s("user has no expense bucket account; re-register or self-heal"))
    );
    assert_eq!(bucket_or_error("expense", Some(s("id1"))).unwrap(), "id1");
}

#[test]
fn transfer_checks() {
    assert!(validate_transfer_request("a", "b", 10).is_ok());
    assert_eq!(reason_of(validate_transfer_request("a", "a", 10).unwrap_err()).0, "destination_account_id");
    assert_eq!(reason_of(validate_transfer_request("a", "a", 0).unwrap_err()).0, "destination_account_id");
    assert_eq!(reason_of(validate_transfer_request("a", "b", -5).unwrap_err()), (s("value"), s("must be > 0")));
    assert!(validate_transfer_kinds("asset", "liability").is_ok());
    assert_eq!(
        reason_of(validate_transfer_kinds("asset", "expense").unwrap_err()).1,
        "transfer legs must both be user-owned accounts (asset/credit_card/liability)"
    );
}

#[test]
fn edits_keep_unset_legs_and_clear_empty_category() {
    let (src, dst, cat) = edited_legs(None, Some(s("d2")), None, s("s1"), s("d1"), Some(s("c1"))).unwrap();
    assert_eq!((src.as_str(), dst.as_str(), cat.as_deref()), ("s1", "d2", Some("c1")));
    let (_, _, cat) = edited_legs(None, None, Some(s("")), s("s1"), s("d1"), Some(s("c1"))).unwrap();
    assert_eq!(cat, None);
    let (_, _, cat) = edited_legs(None, None, Some(s("c2")), s("s1"), s("d1"), None).unwrap();
    assert_eq!(cat.as_deref(), Some("c2"));
    assert_eq!(
        reason_of(edited_legs(Some(s("d1")), None, None, s("s1"), s("d1"), None).unwrap_err()),
        (s("destination_account_id"), s("must differ from source_account_id"))
    );
}

#[test]
fn delete_scope() {
    assert!(deletes_following(Some("following")));
    assert!(!deletes_following(Some("this")));
    assert!(!deletes_following(None));
    assert!(DeleteQuery { scope: Some(s("following")) }.following());
    assert!(!DeleteQuery { scope: None }.following());
}

#[test]
fn opening_balance_legs_follow_the_sign() {
    assert_eq!(opening_legs(s("eq"), s("acc"), 0), None);
    assert_eq!(opening_legs(s("eq"), s("acc"), 1500), Some((s("eq"), s("acc"), 1500)));
    assert_eq!(opening_legs(s("eq"), s("acc"), -1500), Some((s("acc"), s("eq"), 1500)));
}

#[test]
fn single_installment_is_one_row() {
    let rows = plan_installments(1000, None, "Rent", "2024-01-31").unwrap().unwrap();
    assert_eq!(rows.len(), 1);
    assert_eq!(rows[0].value, 1000);
    assert_eq!(rows[0].tx_date, "2024-01-31");
    assert_eq!(rows[0].description, "Rent");
    assert_eq!(rows[0].number, None);
    assert_eq!(rows[0].count, None);
    let rows = plan_installments(1000, Some(0), "Rent", "not a date").unwrap().unwrap();
    assert_eq!(rows.len(), 1);
}

#[test]
fn installments_split_value_with_remainder_first() {
    let rows = plan_installments(1000, Some(3), "TV", "2024-01-31").unwrap().unwrap();
    assert_eq!(rows.len(), 3);
    let values: Vec<i64> = rows.iter().map(|r| r.value).collect();
    assert_eq!(values, vec![334, 333, 333]);
    assert_eq!(values.iter().sum::<i64>(), 1000);
    let dates: Vec<&str> = rows.iter().map(|r| r.tx_date.as_str()).collect();
    assert_eq!(dates, vec!["2024-01-31", "2024-02-29", "2024-03-31"]);
    assert_eq!(rows[0].description, "TV (1/3)");
    assert_eq!(rows[2].description, "TV (3/3)");
    assert_eq!(rows[1].number, Some(2));
    assert_eq!(rows[1].count, Some(3));
}

#[test]
fn installments_need_a_readable_date() {
    let e = plan_installments(1000, Some(2), "TV", "31/01/2024").unwrap().unwrap_err();
    assert_eq!(reason_of(e), (s("tx_date"), s("expected YYYY-MM-DD")));
}

#[test]
fn installment_sum_is_total_for_many_splits() {
    for total in [1i64, 7, 99, 1000, 123457] {
        for n in 1u32..=13 {
            let rows = plan_installments(total, Some(n), "x", "2020-05-31").unwrap().unwrap();
            assert_eq!(rows.len() as u32, n);
            assert_eq!(rows.iter().map(|r| r.value).sum::<i64>(), total);
        }
    }
}

#[test]
fn transaction_body_checks() {
    let mut c = CreateTransaction {
        source_account_id: Some(s("a")),
        destination_account_id: None,
        category_id: Some(s("food")),
        payment_method: s("PIX"),
        value: 0,
        currency: s("BRL"),
        description: s("lunch"),
        tx_date: s("2024-05-01"),
        paid: None,
        fx_rate: None,
        card_id: None,
        invoice_id: None,
        bill_id: None,
        tag_ids: None,
        installments: None,
    };
    assert_eq!(reason_of(c.check_value().unwrap_err()), (s("value"), s("must be > 0")));
    c.value = 1;
    assert!(c.check_value().is_ok());
    assert!(c.is_paid());
    c.paid = Some(false);
    assert!(!c.is_paid());
    let u = UpdateTransaction {
        source_account_id: None,
        destination_account_id: None,
        category_id: None,
        payment_method: None,
        value: Some(-3),
        description: None,
        tx_date: None,
        paid: None,
        fx_rate: None,
        card_id: None,
        invoice_id: None,
        bill_id: None,
    };
    assert_eq!(reason_of(u.check_value().unwrap_err()).0, "value");
    let u = UpdateTransaction { value: None, ..u };
    assert!(u.check_value().is_ok());
}

#[test]
fn status_names() {
    assert_eq!(TransactionStatus::Posted.name(), "posted");
    assert_eq!(TransactionStatus::Pending.name(), "pending");
    assert_eq!(TransactionStatus::Failed.name(), "failed");
}

#[test]
fn page_query_has_the_clauses_of_its_filters() {
    let plain = list_sql(false, false, false, false, Order::Desc);
    assert_eq!(
        plain,
        format!("SELECT {TX_SELECT_COLS} FROM transactions WHERE user_id = ? AND deleted_at IS NULL ORDER BY tx_date DESC, id DESC LIMIT ?")
    );
    let all = list_sql(true, true, true, true, Order::Asc);
    assert!(all.ends_with(
        " AND tx_date >= ? AND tx_date < ? AND category_id = ? AND (source_account_id = ? OR destination_account_id = ?) AND (tx_date > ? OR (tx_date = ? AND id > ?)) ORDER BY tx_date ASC, id ASC LIMIT ?"
    ));
    assert_eq!(all.matches('?').count(), 10);
    assert!(TX_SELECT_COLS.contains("payment_method, value, currency"));
}

#[test]
fn opening_write_follows_balance_and_existing_row() {
    assert!(matches!(plan_opening_write(None, s("eq"), s("acc"), 0), OpeningWrite::Keep));
    match plan_opening_write(Some(s("t1")), s("eq"), s("acc"), 0) {
        OpeningWrite::Remove(id) => assert_eq!(id, "t1"),
        other => panic!("unexpected {:?}", other),
    }
    match plan_opening_write(Some(s("t1")), s("eq"), s("acc"), -250) {
        OpeningWrite::Rewrite { id, source, destination, value } => {
            assert_eq!((id.as_str(), source.as_str(), destination.as_str(), value), ("t1", "acc", "eq", 250));
        }
        other => panic!("unexpected {:?}", other),
    }
    match plan_opening_write(None, s("eq"), s("acc"), 1500) {
        OpeningWrite::Insert { source, destination, value } => {
            assert_eq!((source.as_str(), destination.as_str(), value), ("eq", "acc", 1500));
        }
        other => panic!("unexpected {:?}", other),
    }
}

fn create_req(src: Option<&str>, dst: Option<&str>, cat: Option<&str>, value: i64) -> CreateTransaction {
    CreateTransaction {
        source_account_id: src.map(s),
        destination_account_id: dst.map(s),
        category_id: cat.map(s),
        payment_method: s("PIX"),
        value,
        currency: s("BRL"),
        description: s("lunch"),
        tx_date: s("2024-05-01"),
        paid: None,
        fx_rate: None,
        card_id: None,
        invoice_id: None,
        bill_id: None,
        tag_ids: None,
        installments: None,
    }
}

#[test]
fn create_checks_come_in_order() {
    // The value comes first, before the legs.
    let r = create_step(&create_req(None, None, None, 0), None, None);
    assert_eq!(reason_of(r.unwrap_err()), (s("value"), s("must be > 0")));
    let r = create_step(&create_req(None, None, None, 5), None, None);
    assert_eq!(reason_of(r.unwrap_err()).0, "source_account_id+destination_account_id");
    let r = create_step(&create_req(Some("a"), None, None, 5), None, None);
    assert_eq!(reason_of(r.unwrap_err()), (s("category_id"), s("required when destination_account_id is omitted")));
    // A missing leg asks for the bucket, then for the kinds.
    let req = create_req(Some("a"), None, Some("food"), 5);
    match create_step(&req, None, None).unwrap() {
        CreateStep::FindBucket(k) => assert_eq!(k, "expense"),
        other => panic!("unexpected {:?}", other),
    }
    let r = create_step(&req, Some(None), None);
    assert_eq!(reason_of(r.unwrap_err()).0, "expense");
    match create_step(&req, Some(Some(s("exp"))), None).unwrap() {
        CreateStep::FindKinds(a, b) => assert_eq!((a.as_str(), b.as_str()), ("a", "exp")),
        other => panic!("unexpected {:?}", other),
    }
    let r = create_step(&req, Some(Some(s("exp"))), Some(Some((s("asset"), s("")))));
    assert!(matches!(r, Err(ApiError::NotFound)));
    match create_step(&req, Some(Some(s("exp"))), Some(Some((s("asset"), s("expense"))))).unwrap() {
        CreateStep::Write(a, b) => assert_eq!((a.as_str(), b.as_str()), ("a", "exp")),
        other => panic!("unexpected {:?}", other),
    }
    // Distinct legs come before the lookup of kinds.
    let r = create_step(&create_req(Some("a"), Some("a"), None, 5), None, None);
    assert_eq!(reason_of(r.unwrap_err()).0, "destination_account_id");
    // The leg pair comes last.
    let req = create_req(Some("a"), Some("b"), Some("food"), 5);
    let r = create_step(&req, None, Some(Some((s("asset"), s("asset")))));
    assert_eq!(reason_of(r.unwrap_err()).0, "category_id");
}

#[test]
fn update_checks_come_in_order() {
    let mut u = UpdateTransaction {
        source_account_id: Some(s("b")),
        destination_account_id: None,
        category_id: Some(s("")),
        payment_method: None,
        value: Some(0),
        description: None,
        tx_date: None,
        paid: None,
        fx_rate: None,
        card_id: None,
        invoice_id: None,
        bill_id: None,
    };
    assert_eq!(reason_of(update_step(&u, Some(None), None).unwrap_err()).0, "value");
    u.value = None;
    assert!(matches!(update_step(&u, None, None), Ok(UpdateStep::FindTransaction)));
    assert!(matches!(update_step(&u, Some(None), None), Err(ApiError::NotFound)));
    let cur = Some(Some((s("a"), s("b"), Some(s("food")))));
    assert_eq!(reason_of(update_step(&u, cur.clone(), None).unwrap_err()).0, "destination_account_id");
    u.source_account_id = Some(s("c"));
    match update_step(&u, cur.clone(), None).unwrap() {
        UpdateStep::FindKinds(a, b) => assert_eq!((a.as_str(), b.as_str()), ("c", "b")),
        other => panic!("unexpected {:?}", other),
    }
    match update_step(&u, cur.clone(), Some(Some((s("asset"), s("asset"))))).unwrap() {
        UpdateStep::Write(a, b, c) => assert_eq!((a.as_str(), b.as_str(), c), ("c", "b", None)),
        other => panic!("unexpected {:?}", other),
    }
    let r = update_step(&u, cur, Some(Some((s("asset"), s("expense")))));
    assert_eq!(reason_of(r.unwrap_err()), (s("category_id"), s("withdrawal requires a category")));
}
