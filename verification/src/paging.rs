//! Keyset pagination of the transaction list: page size, sort order, the
//! opaque cursor and the fingerprint of the filters it was issued for.
use crate::codecs::{
    b64url_decode, b64url_encode, base64_url_decode, base64_url_encode, extend_bytes, hex_encode,
    hex_lower, sha256, sha256_digest,
};
use crate::error::ApiError;
use crate::text::str_eq;
use vstd::prelude::*;
use vstd::string::*;
use vstd::utf8::encode_utf8;

verus! {

/// Sort order of a listing, by date then id.
#[derive(Clone, Copy, Debug, PartialEq, Eq, Structural)]
pub enum Order {
    Asc,
    Desc,
}

impl Default for Order {
    /// Newest first.
    fn default() -> (o: Order)
        ensures
            o == Order::Desc,
    {
        Order::Desc
    }
}

/// Position after which the next page starts, bound to the order and the
/// filters of the listing that issued it.
#[derive(Debug)]
pub struct Cursor {
    pub tx_date: String,
    pub id: String,
    pub order: Order,
    pub filters_hash: String,
}

/// Query of the transaction listing.
#[derive(Debug)]
pub struct ListQuery {
    pub cursor: Option<String>,
    pub limit: Option<u32>,
    pub order: Option<String>,
    pub month: Option<String>,
    pub category_id: Option<String>,
    pub account_id: Option<String>,
}

/// Paging facts returned with a page of transactions.
#[derive(Debug)]
pub struct PageMeta {
    pub limit: u32,
    pub order: String,
    pub returned: u32,
    pub has_more: bool,
    pub next_cursor: Option<String>,
}

/// Paging facts of a generic listing.
#[derive(Debug)]
pub struct Page {
    pub limit: u32,
    pub order: String,
    pub returned: u32,
    pub has_more: bool,
    pub next_cursor: Option<String>,
}

/// A listing, optionally paged.
#[derive(Debug)]
pub struct ListEnvelope<T> {
    pub items: Vec<T>,
    pub page: Option<Page>,
    pub next_cursor: Option<String>,
}

/// The page size a listing uses: 50 unless given, at most 200.
pub open spec fn limit_of(limit: Option<u32>) -> u32 {
    match limit {
        Some(l) => if l < 200 {
            l
        } else {
            200
        },
        None => 50,
    }
}

pub fn page_limit(limit: Option<u32>) -> (r: u32)
    ensures
        r == limit_of(limit),
        r <= 200,
{
    let l = match limit {
        Some(l) => l,
        None => 50,
    };
    if l < 200 {
        l
    } else {
        200
    }
}

/// Ascending only when asked for with `"asc"`; descending otherwise.
pub fn parse_order(order: Option<&str>) -> (r: Order)
    ensures
        r == (if order matches Some(s) && s@ == "asc"@ {
            Order::Asc
        } else {
            Order::Desc
        }),
{
    match order {
        Some(s) => if str_eq(s, "asc") {
            Order::Asc
        } else {
            Order::Desc
        },
        None => Order::Desc,
    }
}

pub open spec fn order_text(o: Order) -> Seq<char> {
    match o {
        Order::Asc => "asc"@,
        Order::Desc => "desc"@,
    }
}

/// The name of an order on the wire.
pub fn order_name(o: Order) -> (r: &'static str)
    ensures
        r@ == order_text(o),
{
    match o {
        Order::Asc => "asc",
        Order::Desc => "desc",
    }
}

/// The comparison that selects rows after the cursor, and the SQL sort
/// direction, for an order.
pub fn order_sql(o: Order) -> (r: (&'static str, &'static str))
    ensures
        o == Order::Desc ==> r.0@ == "<"@ && r.1@ == "DESC"@,
        o == Order::Asc ==> r.0@ == ">"@ && r.1@ == "ASC"@,
{
    match o {
        Order::Desc => ("<", "DESC"),
        Order::Asc => (">", "ASC"),
    }
}

/// Splits the rows fetched for a page (one more than the page size is
/// fetched) into the page and whether more rows follow.
pub fn take_page<T>(items: Vec<T>, limit: u32) -> (r: (Vec<T>, bool))
    ensures
        r.1 == (items@.len() > limit),
        r.0@ == (if items@.len() > limit {
            items@.subrange(0, limit as int)
        } else {
            items@
        }),
{
    let mut items = items;
    let has_more = items.len() > limit as usize;
    if has_more {
        items.truncate(limit as usize);
    }
    (items, has_more)
}

impl PageMeta {
    /// The paging facts of a page of `returned` items (at most the limit).
    pub fn new(limit: u32, order: Order, returned: usize, has_more: bool, next_cursor: Option<String>)
        -> (r: PageMeta)
        requires
            returned <= limit,
        ensures
            r.limit == limit,
            r.order@ == order_text(order),
            r.returned == returned,
            r.has_more == has_more,
            r.next_cursor == next_cursor,
    {
        PageMeta {
            limit,
            order: String::from_str(order_name(order)),
            returned: returned as u32,
            has_more,
            next_cursor,
        }
    }
}

// ---------------------------------------------------------------------------
// Filter fingerprint
// ---------------------------------------------------------------------------
/// `k=v&` for every filter, in order, as UTF-8 bytes.
pub open spec fn filters_bytes(parts: Seq<(Seq<char>, Seq<char>)>) -> Seq<u8>
    decreases parts.len(),
{
    if parts.len() == 0 {
        seq![]
    } else {
        filters_bytes(parts.drop_last()) + encode_utf8(parts.last().0) + seq![61u8] + encode_utf8(
            parts.last().1,
        ) + seq![38u8]
    }
}

/// The fingerprint of a set of filters: the lowercase hex of the first six
/// bytes of the SHA-256 of `k=v&k=v&...`.
pub open spec fn filters_fingerprint(parts: Seq<(Seq<char>, Seq<char>)>) -> Seq<char> {
    hex_lower(sha256(filters_bytes(parts)).subrange(0, 6))
}

/// The texts of a list of filters.
pub open spec fn filter_texts(parts: Seq<(&str, &str)>) -> Seq<(Seq<char>, Seq<char>)> {
    parts.map_values(|p: (&str, &str)| (p.0@, p.1@))
}

/// Fingerprint of the filters of a listing, stored in its cursors.
pub fn filters_hash(parts: &[(&str, &str)]) -> (r: String)
    ensures
        r@ == filters_fingerprint(filter_texts(parts@)),
{
    let mut data: Vec<u8> = Vec::new();
    let mut i: usize = 0;
    while i < parts.len()
        invariant
            i <= parts@.len(),
            data@ == filters_bytes(filter_texts(parts@.subrange(0, i as int))),
        decreases parts@.len() - i,
    {
        let (k, v) = parts[i];
        extend_bytes(&mut data, k.as_bytes());
        data.push(61u8);
        extend_bytes(&mut data, v.as_bytes());
        data.push(38u8);
        proof {
            let s = filter_texts(parts@.subrange(0, i + 1));
            assert(s.drop_last() =~= filter_texts(parts@.subrange(0, i as int)));
            assert(s.last() == (k@, v@));
        }
        i = i + 1;
    }
    assert(parts@.subrange(0, parts@.len() as int) =~= parts@);
    assert(filter_texts(parts@.subrange(0, parts@.len() as int)) =~= filter_texts(parts@));
    let digest = sha256_digest(data.as_slice());
    let mut head: Vec<u8> = Vec::new();
    let mut j: usize = 0;
    while j < 6
        invariant
            j <= 6,
            digest@.len() == 32,
            head@ == digest@.subrange(0, j as int),
        decreases 6 - j,
    {
        head.push(digest[j]);
        j = j + 1;
        assert(head@ =~= digest@.subrange(0, j as int));
    }
    hex_encode(head.as_slice())
}

pub open spec fn opt_text(o: Option<&str>) -> Seq<char> {
    match o {
        Some(s) => s@,
        None => Seq::empty(),
    }
}

/// The fingerprint of the transaction listing's filters: the user, and the
/// month, category and account filters (empty when absent).
pub fn list_filters_hash(
    user_id: &str,
    month: Option<&str>,
    category_id: Option<&str>,
    account_id: Option<&str>,
) -> (r: String)
    ensures
        ({
            let parts = seq![
                ("user"@, user_id@),
                ("month"@, opt_text(month)),
                ("category_id"@, opt_text(category_id)),
                ("account_id"@, opt_text(account_id)),
            ];
            r@ == filters_fingerprint(parts)
        }),
{
    let m = match month {
        Some(s) => s,
        None => "",
    };
    let c = match category_id {
        Some(s) => s,
        None => "",
    };
    let a = match account_id {
        Some(s) => s,
        None => "",
    };
    let mut parts: Vec<(&str, &str)> = Vec::new();
    parts.push(("user", user_id));
    parts.push(("month", m));
    parts.push(("category_id", c));
    parts.push(("account_id", a));
    let r = filters_hash(parts.as_slice());
    proof {
        reveal_strlit("");
        assert(m@ == opt_text(month));
        assert(c@ == opt_text(category_id));
        assert(a@ == opt_text(account_id));
        assert(filter_texts(parts@) =~= seq![
            ("user"@, user_id@),
            ("month"@, opt_text(month)),
            ("category_id"@, opt_text(category_id)),
            ("account_id"@, opt_text(account_id)),
        ]);
    }
    r
}

// ---------------------------------------------------------------------------
// Cursors
// ---------------------------------------------------------------------------
/// The text of a cursor whose serialized form is `json`.
pub fn encode_cursor_payload(json: &[u8]) -> (r: String)
    ensures
        r@ == b64url_encode(json@),
{
    base64_url_encode(json)
}

/// The serialized cursor inside a cursor text; a text that is not valid
/// base64 is a cursor mismatch. The text of an encoded payload gives that
/// payload back.
pub fn cursor_payload(raw: &str) -> (r: Result<Vec<u8>, ApiError>)
    ensures
        match b64url_decode(raw@) {
            Some(bytes) => r matches Ok(v) && v@ == bytes,
            None => r matches Err(ApiError::CursorFilterMismatch),
        },
        forall|json: Seq<u8>| #[trigger] b64url_encode(json) == raw@ ==> (r matches Ok(v) && v@
            == json),
{
    match base64_url_decode(raw) {
        Some(v) => Ok(v),
        None => Err(ApiError::CursorFilterMismatch),
    }
}

impl Cursor {
    /// Accepts a cursor read from a request only when it was issued for the
    /// same filters and order; an unreadable cursor (`None`) is refused the
    /// same way.
    pub fn decode(parsed: Option<Cursor>, expected_filters_hash: &str, expected_order: &Order)
        -> (r: Result<Cursor, ApiError>)
        ensures
            match parsed {
                Some(c) => if c.filters_hash@ == expected_filters_hash@ && c.order
                    == *expected_order {
                    r matches Ok(c2) && c2 == c
                } else {
                    r matches Err(ApiError::CursorFilterMismatch)
                },
                None => r matches Err(ApiError::CursorFilterMismatch),
            },
    {
        match parsed {
            Some(c) => {
                if !str_eq(c.filters_hash.as_str(), expected_filters_hash) || c.order
                    != *expected_order {
                    return Err(ApiError::CursorFilterMismatch);
                }
                Ok(c)
            },
            None => Err(ApiError::CursorFilterMismatch),
        }
    }
}

} // verus!
