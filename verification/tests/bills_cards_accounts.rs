use base64::Engine;
use owo::accounts::{
    account_balance_query, balance_expr, check_account_update, check_if_match, foreign_key_violation, require_not_bucket, AccountBalance,
    CreateAccount,
};
use owo::bills::{
    bill_update_step, day_of_month, plan_bill_edit, plan_bill_payment, validate_due_day, BillEdit,
    BillUpdateStep, CreateBill,
    PayBillRequest, UpdateBill,
};
use owo::calendar::Date;
use owo::cards::{
    card_account_name, charge_range_nonempty, checked_invoice_dates, invoice_dates,
    payment_account_currency,
    CreateCard, InvoicePreview,
};
use owo::catalog::{require_row_affected, BudgetRow};
use owo::codecs::{base64_std_decode, base64_url_decode, base64_url_encode, hex_encode, sha256_digest};
use owo::error::{validation, ApiError, ErrorDetails};
use owo::photo::{decode_photo, mime_extension, parse_data_url, photo_file_name, photo_url};

fn reason_of(e: ApiError) -> (String, String) {
    match e {
        ApiError::Validation { field, reason } => (field, reason),
        other => panic!("not a validation error: {:?}", other),
    }
}

fn s(x: &str) -> String {
    x.to_string()
}

#[test]
fn due_days() {
    assert!(validate_due_day(1).is_ok());
    assert!(validate_due_day(31).is_ok());
    assert_eq!(reason_of(validate_due_day(0).unwrap_err()), (s("due_day"), s("must be between 1 and 31")));
    assert!(validate_due_day(32).is_err());
}

#[test]
fn bill_bodies() {
    let b = CreateBill { account_id: None, category_id: None, description: s("Rent"), value: 0, currency: s("BRL"), due_day: 40 };
    assert_eq!(reason_of(b.validate().unwrap_err()).0, "value");
    let b = CreateBill { value: 100, ..b };
    assert_eq!(reason_of(b.validate().unwrap_err()).0, "due_day");
    let b = CreateBill { due_day: 5, ..b };
    assert!(b.validate().is_ok());
    let u = UpdateBill { description: None, value: Some(0), due_day: Some(0), account_id: None, category_id: None, scope: None, month: None };
    assert_eq!(reason_of(u.validate().unwrap_err()).0, "due_day");
    let u = UpdateBill { due_day: None, ..u };
    assert_eq!(reason_of(u.validate().unwrap_err()).0, "value");
}

#[test]
fn bill_edit_scopes() {
    match plan_bill_edit(Some("this_month"), "2024-05").unwrap() {
        BillEdit::Months(v) => assert_eq!(v, vec![s("2024-05")]),
        other => panic!("unexpected {:?}", other),
    }
    match plan_bill_edit(Some("this_and_next"), "2024-12").unwrap() {
        BillEdit::Months(v) => assert_eq!(v, vec![s("2024-12"), s("2025-01")]),
        other => panic!("unexpected {:?}", other),
    }
    assert!(matches!(plan_bill_edit(Some("all"), "2024-05"), Ok(BillEdit::Template)));
    assert!(matches!(plan_bill_edit(None, "2024-05"), Ok(BillEdit::Template)));
    assert_eq!(
        reason_of(plan_bill_edit(Some("forever"), "2024-05").unwrap_err()),
        (s("scope"), s("unknown scope: forever (this_month | this_and_next | all)"))
    );
    assert_eq!(
        reason_of(plan_bill_edit(Some("all"), "2024-5").unwrap_err()),
        (s("month"), s("expected YYYY-MM"))
    );
}

#[test]
fn bill_payment_defaults() {
    let req = PayBillRequest { source_account_id: s("acc"), tx_date: None, payment_method: None, amount: None };
    let p = plan_bill_payment("2024-02", req, "exp", 9900, 31).unwrap();
    assert_eq!(p.value, 9900);
    assert_eq!(p.tx_date, "2024-02-29");
    assert_eq!(p.payment_method, "PIX");
    let req = PayBillRequest { source_account_id: s("acc"), tx_date: Some(s("2024-02-03")), payment_method: Some(s("CARD")), amount: Some(500) };
    let p = plan_bill_payment("2024-02", req, "exp", 9900, 0).unwrap();
    assert_eq!((p.value, p.tx_date.as_str(), p.payment_method.as_str()), (500, "2024-02-03", "CARD"));
    let req = PayBillRequest { source_account_id: s("acc"), tx_date: None, payment_method: None, amount: None };
    let p = plan_bill_payment("2024-02", req, "exp", 9900, 0).unwrap();
    assert_eq!(p.tx_date, "2024-02-01");
}

#[test]
fn bill_payment_defaults_to_the_due_day_of_the_month() {
    let req = || PayBillRequest { source_account_id: s("acc"), tx_date: None, payment_method: None, amount: None };
    assert_eq!(plan_bill_payment("2024-04", req(), "exp", 100, 30).unwrap().tx_date, "2024-04-30");
    assert_eq!(plan_bill_payment("2024-04", req(), "exp", 100, 31).unwrap().tx_date, "2024-04-30");
    assert_eq!(plan_bill_payment("2023-02", req(), "exp", 100, 30).unwrap().tx_date, "2023-02-28");
    assert_eq!(plan_bill_payment("2024-05", req(), "exp", 100, 31).unwrap().tx_date, "2024-05-31");
    assert_eq!(
        reason_of(plan_bill_payment("2024-13", req(), "exp", 100, 5).unwrap_err()),
        (s("month"), s("expected YYYY-MM"))
    );
}

#[test]
fn bill_payment_errors() {
    let req = PayBillRequest { source_account_id: s("exp"), tx_date: None, payment_method: None, amount: None };
    assert_eq!(
        reason_of(plan_bill_payment("2024-02", req, "exp", 9900, 5).unwrap_err()),
        (s("source_account_id"), s("must be an asset account, not the expense bucket"))
    );
    let req = PayBillRequest { source_account_id: s("acc"), tx_date: None, payment_method: None, amount: Some(0) };
    assert_eq!(reason_of(plan_bill_payment("2024-02", req, "exp", 9900, 5).unwrap_err()), (s("amount"), s("must be > 0")));
}

#[test]
fn day_of_month_text() {
    assert_eq!(day_of_month("2024-02", 3), "2024-02-03");
    assert_eq!(day_of_month("2024-02", 28), "2024-02-28");
}

#[test]
fn card_rules() {
    let c = CreateCard { payment_account_id: s("a"), last_four_digits: s("1234"), brand: s("Visa"), card_type: s("DEBIT"), limit: None, close_day: None, due_day: None };
    assert_eq!(
        reason_of(c.validate().unwrap_err()),
        (s("type"), s("only CREDIT cards bind to a credit_card account; DEBIT cards are out of MVP"))
    );
    let c = CreateCard { card_type: s("CREDIT"), ..c };
    assert!(c.validate().is_ok());
    assert_eq!(card_account_name("Visa", "1234"), "Visa •••• 1234");
    assert_eq!(payment_account_currency(Some(s("BRL"))).unwrap(), "BRL");
    assert_eq!(
        reason_of(payment_account_currency(None).unwrap_err()),
        (s("payment_account_id"), s("must reference an asset account the card is attached to"))
    );
}

#[test]
fn invoice_dates_default_days() {
    let today = Date { year: 2024, month: 5, day: 10 };
    let d = invoice_dates(today, None, None);
    assert_eq!(d.cycle.period_start, Date { year: 2024, month: 5, day: 2 });
    assert_eq!(d.cycle.period_end, Date { year: 2024, month: 6, day: 1 });
    assert_eq!(d.cycle.due_date, Date { year: 2024, month: 7, day: 10 });
    assert_eq!(d.accrued_until, today);
    let d = invoice_dates(today, Some(10), Some(99));
    assert_eq!(d.cycle.period_end, today);
    assert_eq!(d.accrued_until, today);
    assert_eq!(d.cycle.due_date, Date { year: 2024, month: 6, day: 30 });
    let p = InvoicePreview::new(s("c1"), &d, 100, 200, 300, Some(5000));
    assert_eq!(p.period_start, "2024-04-11");
    assert_eq!(p.period_end, "2024-05-10");
    assert_eq!(p.due_date, "2024-06-30");
    assert!(charge_range_nonempty(today, today));
    assert!(!charge_range_nonempty(Date { year: 2024, month: 5, day: 11 }, today));
}

#[test]
fn account_rules() {
    let c = CreateAccount { name: s("Wallet"), account_type: s("asset"), currency: s("BRL"), initial_balance: None };
    assert_eq!(c.validate().unwrap(), 0);
    let c = CreateAccount { initial_balance: Some(250), ..c };
    assert_eq!(c.validate().unwrap(), 250);
    let c = CreateAccount { account_type: s("revenue"), ..c };
    assert_eq!(
        reason_of(c.validate().unwrap_err()),
        (s("type"), s("RESERVED_TYPE: public API only creates 'asset' accounts"))
    );
    assert!(require_not_bucket("asset", "edited").is_ok());
    assert_eq!(
        reason_of(require_not_bucket("equity", "deleted").unwrap_err()).1,
        "bucket accounts (revenue/expense/equity) cannot be deleted"
    );
    assert!(check_if_match(None, "t1").is_ok());
    assert!(check_if_match(Some("t1"), "t1").is_ok());
    assert!(matches!(check_if_match(Some("t0"), "t1"), Err(ApiError::StaleWrite)));
    let b = AccountBalance::new(s("a"), s("BRL"), 100, -30, s("2024-05-01"));
    assert_eq!(b.current_balance, 70);
}

#[test]
fn balance_expression_text() {
    let e = balance_expr("'2024-06-01'");
    assert!(e.starts_with("a.initial_balance + COALESCE((SELECT SUM(value) FROM transactions WHERE destination_account_id = a.id"));
    assert_eq!(e.matches("tx_date < '2024-06-01'").count(), 2);
    assert!(e.ends_with("'2024-06-01'), 0)"));
}

#[test]
fn foreign_key_messages() {
    match foreign_key_violation(Some("FOREIGN KEY constraint failed")) {
        Some(ApiError::FkViolation(d)) => assert_eq!(d, "FOREIGN KEY constraint failed"),
        other => panic!("unexpected {:?}", other),
    }
    assert!(foreign_key_violation(Some("UNIQUE constraint failed")).is_none());
    assert!(foreign_key_violation(None).is_none());
}

#[test]
fn catalog_helpers() {
    assert!(require_row_affected(1).is_ok());
    assert!(matches!(require_row_affected(0), Err(ApiError::NotFound)));
    let r = BudgetRow::new(s("c"), s("Food"), None, None, None, 1000, 1200);
    assert_eq!(r.difference, -200);
}

#[test]
fn codecs_match_reference_values() {
    assert_eq!(base64_url_encode(&[251, 255, 254]), "-__-");
    assert_eq!(base64_url_decode("-__-"), Some(vec![251, 255, 254]));
    assert_eq!(base64_url_decode("@@"), None);
    assert_eq!(base64_std_decode("aGk=").unwrap(), b"hi".to_vec());
    assert!(base64_std_decode("!!!!").is_err());
    assert_eq!(hex_encode(&[0, 15, 255]), "000fff");
    assert_eq!(
        hex_encode(&sha256_digest(b"abc")),
        "ba7816bf8f01cfea414140de5dae2223b00361a396177a9cb410ff61f20015ad"
    );
}

#[test]
fn data_urls() {
    let (mime, payload) = parse_data_url("data:image/png;base64,aGk=").unwrap();
    assert_eq!((mime.as_str(), payload.as_str()), ("image/png", "aGk="));
    let cases = [
        ("image/png;base64,aGk=", "must start with 'data:'"),
        ("data:image/png;base64", "missing payload separator"),
        ("data:image/png,aGk=", "missing ;base64 declaration"),
        ("data:image/png;utf8,hi", "only base64-encoded payloads supported"),
    ];
    for (url, reason) in cases {
        assert_eq!(reason_of(parse_data_url(url).unwrap_err()), (s("data_url"), s(reason)));
    }
    assert_eq!(mime_extension("image/jpeg").unwrap(), "jpg");
    assert_eq!(mime_extension("image/webp").unwrap(), "webp");
    assert_eq!(
        reason_of(mime_extension("image/bmp").unwrap_err()).1,
        "unsupported mime type: image/bmp"
    );
}

#[test]
fn photos_decode_and_are_named() {
    let p = decode_photo("data:image/gif;base64,aGk=").unwrap();
    assert_eq!(p.ext, "gif");
    assert_eq!(p.bytes, b"hi".to_vec());
    let e = decode_photo("data:image/gif;base64,!!!!").unwrap_err();
    assert!(reason_of(e).1.starts_with("invalid base64: "));
    let e = decode_photo("data:text/plain;base64,aGk=").unwrap_err();
    assert_eq!(reason_of(e).1, "unsupported mime type: text/plain");
    assert_eq!(photo_file_name("u1", "png"), "u1.png");
    assert_eq!(photo_url(&photo_file_name("u1", "png")), "/uploads/u/u1.png");
}

#[test]
fn oversized_photo_is_refused() {
    let data = vec![0u8; 5 * 1024 * 1024 + 1];
    let url = format!("data:image/png;base64,{}", base64::engine::general_purpose::STANDARD.encode(&data));
    let e = decode_photo(&url).unwrap_err();
    assert_eq!(reason_of(e).1, "payload too large (5242881 bytes; max 5242880)");
}

#[test]
fn error_parts_and_messages() {
    let (status, code, details) = validation("f", "r").parts();
    assert_eq!(status, 400);
    assert_eq!(code, "VALIDATION_ERROR");
    match details {
        Some(ErrorDetails::Field { field, reason }) => assert_eq!((field.as_str(), reason.as_str()), ("f", "r")),
        other => panic!("unexpected {:?}", other),
    }
    assert_eq!(ApiError::NotFound.parts().0, 404);
    assert_eq!(ApiError::RateLimited.parts().0, 429);
    assert_eq!(ApiError::Conflict.parts().1, "CONFLICT");
    assert!(ApiError::Internal(s("x")).is_internal());
    assert!(!ApiError::Forbidden.is_internal());
    assert_eq!(validation("f", "r").message(), "validation: f: r");
    assert_eq!(ApiError::FkViolation(s("d")).message(), "foreign key violation: d");
}

#[test]
fn balance_queries_have_their_parameters() {
    let q = account_balance_query(false);
    assert!(!q.contains("tx_date <= ?"));
    assert!(q.ends_with("WHERE a.id = ? AND a.user_id = ? AND a.deleted_at IS NULL"));
    let q = account_balance_query(true);
    assert_eq!(q.matches(" AND tx_date <= ?").count(), 2);
    assert_eq!(q.matches('?').count(), 4);
    assert!(owo::reports::balances_at_query(2).ends_with("a.type IN (?,?)"));
    assert!(owo::reports::balances_at_query(1).ends_with("a.type IN (?)"));
    assert_eq!(owo::reports::balances_at_query(3).matches('?').count(), 6);
}

#[test]
fn account_edit_checks_come_in_order() {
    assert!(matches!(check_account_update(None, Some("t1")), Err(ApiError::NotFound)));
    let bucket = Some((s("t1"), s("expense")));
    assert_eq!(reason_of(check_account_update(bucket, Some("t0")).unwrap_err()).0, "type");
    let asset = Some((s("t1"), s("asset")));
    assert!(matches!(check_account_update(asset.clone(), Some("t0")), Err(ApiError::StaleWrite)));
    assert!(check_account_update(asset.clone(), Some("t1")).is_ok());
    assert!(check_account_update(asset, None).is_ok());
}

#[test]
fn bill_edit_checks_come_in_order() {
    let u = UpdateBill { description: None, value: Some(0), due_day: Some(40), account_id: None, category_id: None, scope: Some(s("bogus")), month: None };
    // The fields come before the lookup, the due day before the value.
    assert_eq!(reason_of(bill_update_step(&u, None, "2024-13").unwrap_err()).0, "due_day");
    let u = UpdateBill { due_day: None, ..u };
    assert_eq!(reason_of(bill_update_step(&u, Some(false), "2024-13").unwrap_err()).0, "value");
    let u = UpdateBill { value: None, ..u };
    assert!(matches!(bill_update_step(&u, None, "2024-13"), Ok(BillUpdateStep::FindBill)));
    assert!(matches!(bill_update_step(&u, Some(false), "2024-13"), Err(ApiError::NotFound)));
    // Then the month, then the scope.
    assert_eq!(reason_of(bill_update_step(&u, Some(true), "2024-13").unwrap_err()).0, "month");
    assert_eq!(reason_of(bill_update_step(&u, Some(true), "2024-05").unwrap_err()).0, "scope");
    let u = UpdateBill { scope: Some(s("this_month")), ..u };
    match bill_update_step(&u, Some(true), "2024-05").unwrap() {
        BillUpdateStep::Apply(BillEdit::Months(v)) => assert_eq!(v, vec![s("2024-05")]),
        other => panic!("unexpected {:?}", other),
    }
}

#[test]
fn invoice_dates_refuse_cycles_outside_the_calendar() {
    let today = Date { year: 2024, month: 2, day: 10 };
    let d = checked_invoice_dates(today, Some(31), None).unwrap();
    assert_eq!(d.cycle.period_start, Date { year: 2024, month: 2, day: 1 });
    let last = Date { year: 262142, month: 11, day: 20 };
    assert!(checked_invoice_dates(last, Some(5), None).is_none());
    let first = Date { year: -262143, month: 1, day: 3 };
    assert!(checked_invoice_dates(first, Some(5), None).is_none());
    assert!(checked_invoice_dates(Date { year: -262143, month: 1, day: 6 }, Some(5), None).is_some());
}
