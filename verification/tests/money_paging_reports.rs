use owo::error::ApiError;
use owo::money::{
    cents_to_decimal_string, decimal_str_to_cents, decimal_to_cents, optional_decimal_str_to_cents,
    parse_decimal, Money,
};
use owo::paging::{
    cursor_payload, encode_cursor_payload, filters_hash, list_filters_hash, order_name, order_sql,
    page_limit, parse_order, take_page, Cursor, Order, PageMeta,
};
use owo::reports::{change_pct, net_worth_summary, net_worth_window, MonthlyReport};

#[test]
fn cents_are_written_with_two_decimals() {
    assert_eq!(cents_to_decimal_string(123456), "1234.56");
    assert_eq!(cents_to_decimal_string(-5), "-0.05");
    assert_eq!(cents_to_decimal_string(0), "0.00");
    assert_eq!(cents_to_decimal_string(100), "1.00");
    assert_eq!(cents_to_decimal_string(-123456), "-1234.56");
    assert_eq!(cents_to_decimal_string(i64::MIN), "-92233720368547758.08");
}

#[test]
fn decimal_text_rounds_half_to_even() {
    assert_eq!(decimal_str_to_cents("1234.56"), Some(123456));
    assert_eq!(decimal_str_to_cents("1.2"), Some(120));
    assert_eq!(decimal_str_to_cents("7"), Some(700));
    assert_eq!(decimal_str_to_cents("0.005"), Some(0));
    assert_eq!(decimal_str_to_cents("0.015"), Some(2));
    assert_eq!(decimal_str_to_cents("12.345"), Some(1234));
    assert_eq!(decimal_str_to_cents("-1.255"), Some(-126));
    assert_eq!(decimal_str_to_cents("0.0049"), Some(0));
    assert_eq!(decimal_str_to_cents("abc"), None);
    assert_eq!(decimal_str_to_cents(""), None);
}

#[test]
fn optional_decimal_text() {
    assert_eq!(optional_decimal_str_to_cents(None), Some(None));
    assert_eq!(optional_decimal_str_to_cents(Some("2.5")), Some(Some(250)));
    assert_eq!(optional_decimal_str_to_cents(Some("x")), None);
}

#[test]
fn decimal_parts() {
    assert_eq!(parse_decimal("12.345"), Some((12345, 3)));
    assert_eq!(parse_decimal("-0.5"), Some((-5, 1)));
    assert_eq!(parse_decimal("1.2.3"), None);
    assert_eq!(decimal_to_cents(12345, 3), Some(1234));
    assert_eq!(decimal_to_cents(25, 1), Some(250));
}

#[test]
fn money_round_trips_cents() {
    for c in [0i64, 1, -1, 99, 123456, -987654321] {
        assert_eq!(Money::from_cents(c).to_cents(), c);
        assert_eq!(Money::from(c).to_cents(), c);
    }
    let z = Money::zero();
    assert_eq!(z.to_cents(), 0);
}

#[test]
fn page_size_and_order() {
    assert_eq!(page_limit(None), 50);
    assert_eq!(page_limit(Some(10)), 10);
    assert_eq!(page_limit(Some(500)), 200);
    assert_eq!(parse_order(Some("asc")), Order::Asc);
    assert_eq!(parse_order(Some("desc")), Order::Desc);
    assert_eq!(parse_order(Some("ASC")), Order::Desc);
    assert_eq!(parse_order(None), Order::Desc);
    assert_eq!(Order::default(), Order::Desc);
    assert_eq!(order_name(Order::Asc), "asc");
    assert_eq!(order_sql(Order::Desc), ("<", "DESC"));
    assert_eq!(order_sql(Order::Asc), (">", "ASC"));
}

#[test]
fn take_page_keeps_limit_and_reports_more() {
    let (items, more) = take_page(vec![1, 2, 3], 2);
    assert_eq!(items, vec![1, 2]);
    assert!(more);
    let (items, more) = take_page(vec![1, 2], 2);
    assert_eq!(items, vec![1, 2]);
    assert!(!more);
    let meta = PageMeta::new(2, Order::Asc, items.len(), more, None);
    assert_eq!(meta.order, "asc");
    assert_eq!(meta.returned, 2);
}

#[test]
fn filter_fingerprints_are_truncated_sha256() {
    assert_eq!(filters_hash(&[("a", "1")]), "3e8955c45594");
    assert_eq!(filters_hash(&[]), "e3b0c44298fc");
    assert_eq!(
        list_filters_hash("u1", Some("2024-05"), None, None),
        "ed15a3cb8744"
    );
    assert_eq!(
        filters_hash(&[("user", "u1"), ("month", "2024-05"), ("category_id", ""), ("account_id", "")]),
        list_filters_hash("u1", Some("2024-05"), None, None)
    );
    assert_ne!(filters_hash(&[("a", "1")]), filters_hash(&[("a", "2")]));
}

#[test]
fn cursor_payload_round_trip() {
    let json = b"{\"id\":\"x\"}";
    let raw = encode_cursor_payload(json);
    assert_eq!(raw, "eyJpZCI6IngifQ");
    assert_eq!(cursor_payload(&raw).unwrap(), json.to_vec());
    assert!(matches!(cursor_payload("***"), Err(ApiError::CursorFilterMismatch)));
}

#[test]
fn cursor_must_match_filters_and_order() {
    let c = || Cursor {
        tx_date: "2024-05-01".to_string(),
        id: "t1".to_string(),
        order: Order::Desc,
        filters_hash: "abc".to_string(),
    };
    let ok = Cursor::decode(Some(c()), "abc", &Order::Desc).unwrap();
    assert_eq!(ok.id, "t1");
    assert!(matches!(Cursor::decode(Some(c()), "abd", &Order::Desc), Err(ApiError::CursorFilterMismatch)));
    assert!(matches!(Cursor::decode(Some(c()), "abc", &Order::Asc), Err(ApiError::CursorFilterMismatch)));
    assert!(matches!(Cursor::decode(None, "abc", &Order::Desc), Err(ApiError::CursorFilterMismatch)));
}

#[test]
fn change_percentages() {
    assert_eq!(change_pct(105, 100).as_deref(), Some("5.00"));
    assert_eq!(change_pct(95, 100).as_deref(), Some("-5.00"));
    assert_eq!(change_pct(1001, 1000).as_deref(), Some("0.10"));
    assert_eq!(change_pct(999, 1000).as_deref(), Some("-0.10"));
    assert_eq!(change_pct(300, 200).as_deref(), Some("50.00"));
    assert_eq!(change_pct(1, 3).as_deref(), Some("-66.66"));
    assert_eq!(change_pct(-50, -100).as_deref(), Some("-50.00"));
    assert_eq!(change_pct(100, 0), None);
}

#[test]
fn net_worth_summary_uses_last_two_points() {
    assert_eq!(net_worth_summary(&[]), (0, None));
    assert_eq!(net_worth_summary(&[500]), (500, None));
    assert_eq!(net_worth_summary(&[1, 200, 210]), (210, Some("5.00".to_string())));
    assert_eq!(net_worth_summary(&[0, 10]), (10, None));
}

#[test]
fn net_worth_window_ends_at_month() {
    let w = net_worth_window("2024-02", Some(3)).unwrap();
    let months: Vec<&str> = w.iter().map(|m| m.month.as_str()).collect();
    assert_eq!(months, vec!["2023-12", "2024-01", "2024-02"]);
    let cutoffs: Vec<&str> = w.iter().map(|m| m.cutoff.as_str()).collect();
    assert_eq!(cutoffs, vec!["2024-01-01", "2024-02-01", "2024-03-01"]);
    assert_eq!(net_worth_window("2024-02", None).unwrap().len(), 7);
    assert_eq!(net_worth_window("2024-02", Some(0)).unwrap().len(), 1);
    assert_eq!(net_worth_window("2024-02", Some(100)).unwrap().len(), 24);
    for bad in ["2024-13", "abcd-ef", "2024-00"] {
        match net_worth_window(bad, None) {
            Err(ApiError::Validation { field, reason }) => {
                assert_eq!(field, "to");
                assert_eq!(reason, "expected YYYY-MM");
            }
            other => panic!("unexpected {:?}", other),
        }
    }
    match net_worth_window("Feb", None) {
        Err(ApiError::Validation { field, reason }) => {
            assert_eq!(field, "to");
            assert_eq!(reason, "expected YYYY-MM");
        }
        other => panic!("unexpected {:?}", other),
    }
}

#[test]
fn monthly_report_balance() {
    let r = MonthlyReport::new("2024-05".to_string(), 5000, 3000, 4000, 0, 0);
    assert_eq!(r.budget_balance, 1000);
}

#[test]
fn written_cents_read_back() {
    for c in [0i64, 1, -1, 5, -5, 99, 100, -100, 123456, -987654321, i64::MAX, i64::MIN] {
        assert_eq!(decimal_str_to_cents(&cents_to_decimal_string(c)), Some(c));
    }
}

#[test]
fn long_decimals_are_rescaled_before_rounding() {
    // A hundred times this amount has more digits than a decimal holds;
    // rust_decimal drops digits of the scale and the cents still come out.
    assert_eq!(decimal_str_to_cents("7.922816251426433759354395033"), Some(792));
    assert_eq!(decimal_str_to_cents("-7.922816251426433759354395033"), Some(-792));
    // With no scale to drop, the product overflows.
    assert_eq!(decimal_str_to_cents("79228162514264337593543950335"), None);
    let big = Money { mantissa: 79228162514264337593543950335, scale: 0 };
    assert_eq!(big.checked_to_cents(), None);
    let long = Money { mantissa: 7922816251426433759354395033, scale: 27 };
    assert_eq!(long.checked_to_cents(), Some(792));
    assert_eq!(long.to_cents(), 792);
}
