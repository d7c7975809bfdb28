//! What a new user starts with: the revenue, expense and wallet accounts,
//! and a set of expense categories. Provisioning is idempotent: it only
//! adds what is missing, so running it again adds nothing.
use crate::text::str_eq;
use vstd::prelude::*;

verus! {

/// Name of the revenue bucket account.
pub const REVENUE_BUCKET_NAME: &'static str = "Income";

/// Name of the expense bucket account.
pub const EXPENSE_BUCKET_NAME: &'static str = "Expense";

/// Name of the default asset account (a wallet).
pub const DEFAULT_ASSET_NAME: &'static str = "Carteira";

/// The expense categories every user starts with, in order.
pub open spec fn seed_names() -> Seq<Seq<char>> {
    seq![
        "Food"@,
        "Leisure"@,
        "Transport"@,
        "Health"@,
        "Education"@,
        "Clothes"@,
        "Home"@,
        "Pet"@,
        "Subscriptions"@,
        "Other"@,
    ]
}

/// The texts of a list of names.
pub open spec fn name_texts(v: Seq<String>) -> Seq<Seq<char>> {
    v.map_values(|s: String| s@)
}

/// The names of `names`, in order, that `existing` does not hold.
pub open spec fn missing_from(names: Seq<Seq<char>>, existing: Seq<Seq<char>>) -> Seq<Seq<char>>
    decreases names.len(),
{
    if names.len() == 0 {
        seq![]
    } else {
        let rest = missing_from(names.drop_last(), existing);
        if existing.contains(names.last()) {
            rest
        } else {
            rest.push(names.last())
        }
    }
}

/// The seed categories, in order.
pub fn seed_categories() -> (r: Vec<&'static str>)
    ensures
        r@.map_values(|s: &'static str| s@) == seed_names(),
{
    let mut v: Vec<&'static str> = Vec::new();
    v.push("Food");
    v.push("Leisure");
    v.push("Transport");
    v.push("Health");
    v.push("Education");
    v.push("Clothes");
    v.push("Home");
    v.push("Pet");
    v.push("Subscriptions");
    v.push("Other");
    assert(v@.map_values(|s: &'static str| s@) =~= seed_names());
    v
}

/// Whether `name` is among `existing`.
pub fn holds_name(existing: &Vec<String>, name: &str) -> (r: bool)
    ensures
        r == name_texts(existing@).contains(name@),
{
    let mut i: usize = 0;
    while i < existing.len()
        invariant
            i <= existing@.len(),
            forall|j: int| 0 <= j < i ==> existing@[j]@ != name@,
        decreases existing.len() - i,
    {
        if str_eq(existing[i].as_str(), name) {
            assert(name_texts(existing@)[i as int] == name@);
            return true;
        }
        i = i + 1;
    }
    proof {
        if name_texts(existing@).contains(name@) {
            let j = choose|j: int|
                0 <= j < name_texts(existing@).len() && name_texts(existing@)[j] == name@;
            assert(existing@[j]@ == name@);
        }
    }
    false
}

/// The seed categories that a user with the categories `existing` lacks,
/// in seed order: the ones provisioning creates.
pub fn missing_seed_categories(existing: &Vec<String>) -> (r: Vec<&'static str>)
    ensures
        r@.map_values(|s: &'static str| s@) == missing_from(seed_names(), name_texts(existing@)),
{
    let seeds = seed_categories();
    let ghost names = seeds@.map_values(|s: &'static str| s@);
    let ghost ex = name_texts(existing@);
    let mut out: Vec<&'static str> = Vec::new();
    let mut i: usize = 0;
    while i < seeds.len()
        invariant
            i <= seeds@.len(),
            names == seeds@.map_values(|s: &'static str| s@),
            names == seed_names(),
            ex == name_texts(existing@),
            out@.map_values(|s: &'static str| s@) == missing_from(names.subrange(0, i as int), ex),
        decreases seeds.len() - i,
    {
        let name = seeds[i];
        let held = holds_name(existing, name);
        proof {
            let pre = names.subrange(0, i as int + 1);
            assert(pre.drop_last() =~= names.subrange(0, i as int));
            assert(pre.last() == name@);
        }
        if !held {
            out.push(name);
            assert(out@.map_values(|s: &'static str| s@) =~= missing_from(
                names.subrange(0, i as int),
                ex,
            ).push(name@));
        }
        i = i + 1;
    }
    assert(names.subrange(0, seeds@.len() as int) =~= names);
    out
}

/// After the missing names are added, every name is held.
pub proof fn lemma_missing_completes(names: Seq<Seq<char>>, existing: Seq<Seq<char>>)
    ensures
        forall|k: int|
            0 <= k < names.len() ==> (existing + missing_from(names, existing)).contains(
                #[trigger] names[k],
            ),
    decreases names.len(),
{
    if names.len() > 0 {
        let init = names.drop_last();
        let rest = missing_from(init, existing);
        lemma_missing_completes(init, existing);
        let all = existing + missing_from(names, existing);
        assert forall|k: int| 0 <= k < names.len() implies all.contains(#[trigger] names[k]) by {
            if k < names.len() - 1 {
                assert(names[k] == init[k]);
                let w = choose|w: int|
                    0 <= w < (existing + rest).len() && (existing + rest)[w] == init[k];
                assert(all[w] == (existing + rest)[w]);
            } else if existing.contains(names.last()) {
                let w = choose|w: int| 0 <= w < existing.len() && existing[w] == names.last();
                assert(all[w] == existing[w]);
            } else {
                assert(all[all.len() - 1] == names.last());
            }
        }
    }
}

/// Names that are all held leave nothing missing.
pub proof fn lemma_nothing_missing(names: Seq<Seq<char>>, existing: Seq<Seq<char>>)
    requires
        forall|k: int| 0 <= k < names.len() ==> existing.contains(#[trigger] names[k]),
    ensures
        missing_from(names, existing) == Seq::<Seq<char>>::empty(),
    decreases names.len(),
{
    if names.len() > 0 {
        let init = names.drop_last();
        assert forall|k: int| 0 <= k < init.len() implies existing.contains(#[trigger] init[k]) by {
            assert(init[k] == names[k]);
        }
        lemma_nothing_missing(init, existing);
        assert(existing.contains(names[names.len() - 1]));
    }
}

/// Provisioning twice adds nothing the second time: once the missing names
/// are added to those a user has, none is missing.
pub proof fn lemma_provisioning_idempotent(names: Seq<Seq<char>>, existing: Seq<Seq<char>>)
    ensures
        missing_from(names, existing + missing_from(names, existing)) == Seq::<
            Seq<char>,
        >::empty(),
{
    lemma_missing_completes(names, existing);
    lemma_nothing_missing(names, existing + missing_from(names, existing));
}

/// Provisioning adds only names the user lacks.
pub proof fn lemma_missing_not_held(names: Seq<Seq<char>>, existing: Seq<Seq<char>>)
    ensures
        forall|k: int|
            0 <= k < missing_from(names, existing).len() ==> !existing.contains(
                #[trigger] missing_from(names, existing)[k],
            ),
    decreases names.len(),
{
    if names.len() > 0 {
        let rest = missing_from(names.drop_last(), existing);
        lemma_missing_not_held(names.drop_last(), existing);
        let m = missing_from(names, existing);
        assert forall|k: int| 0 <= k < m.len() implies !existing.contains(#[trigger] m[k]) by {
            if k < rest.len() {
                assert(m[k] == rest[k]);
            }
        }
    }
}

// ---------------------------------------------------------------------------
// Default accounts
// ---------------------------------------------------------------------------
/// The kinds and names of a list of accounts.
pub open spec fn account_texts(v: Seq<(String, String)>) -> Seq<(Seq<char>, Seq<char>)> {
    v.map_values(|a: (String, String)| (a.0@, a.1@))
}

/// Whether some account is of kind `kind`.
pub open spec fn has_kind(accounts: Seq<(Seq<char>, Seq<char>)>, kind: Seq<char>) -> bool {
    exists|i: int| 0 <= i < accounts.len() && (#[trigger] accounts[i]).0 == kind
}

/// Whether some account has kind `kind` and name `name`.
pub open spec fn has_account(
    accounts: Seq<(Seq<char>, Seq<char>)>,
    kind: Seq<char>,
    name: Seq<char>,
) -> bool {
    exists|i: int| 0 <= i < accounts.len() && #[trigger] accounts[i] == (kind, name)
}

/// The default accounts (kind, name) that a user with `accounts` lacks, in
/// order: the revenue bucket unless some revenue account exists, the
/// expense bucket likewise, and the wallet unless an asset account of that
/// name exists.
pub open spec fn missing_accounts(accounts: Seq<(Seq<char>, Seq<char>)>) -> Seq<
    (Seq<char>, Seq<char>),
> {
    (if has_kind(accounts, "revenue"@) {
        seq![]
    } else {
        seq![("revenue"@, REVENUE_BUCKET_NAME@)]
    }) + (if has_kind(accounts, "expense"@) {
        seq![]
    } else {
        seq![("expense"@, EXPENSE_BUCKET_NAME@)]
    }) + (if has_account(accounts, "asset"@, DEFAULT_ASSET_NAME@) {
        seq![]
    } else {
        seq![("asset"@, DEFAULT_ASSET_NAME@)]
    })
}

/// Number of accounts of kind `kind`.
pub open spec fn count_kind(accounts: Seq<(Seq<char>, Seq<char>)>, kind: Seq<char>) -> nat
    decreases accounts.len(),
{
    if accounts.len() == 0 {
        0
    } else {
        count_kind(accounts.drop_last(), kind) + (if accounts.last().0 == kind {
            1nat
        } else {
            0nat
        })
    }
}

/// Whether one of `accounts` is of kind `kind`.
pub fn holds_kind(accounts: &Vec<(String, String)>, kind: &str) -> (r: bool)
    ensures
        r == has_kind(account_texts(accounts@), kind@),
{
    let mut i: usize = 0;
    while i < accounts.len()
        invariant
            i <= accounts@.len(),
            forall|j: int| 0 <= j < i ==> accounts@[j].0@ != kind@,
        decreases accounts.len() - i,
    {
        if str_eq(accounts[i].0.as_str(), kind) {
            assert(account_texts(accounts@)[i as int].0 == kind@);
            return true;
        }
        i = i + 1;
    }
    proof {
        if has_kind(account_texts(accounts@), kind@) {
            let j = choose|j: int|
                0 <= j < account_texts(accounts@).len() && (#[trigger] account_texts(
                    accounts@,
                )[j]).0 == kind@;
            assert(accounts@[j].0@ == kind@);
        }
    }
    false
}

/// Whether one of `accounts` has kind `kind` and name `name`.
pub fn holds_account(accounts: &Vec<(String, String)>, kind: &str, name: &str) -> (r: bool)
    ensures
        r == has_account(account_texts(accounts@), kind@, name@),
{
    let mut i: usize = 0;
    while i < accounts.len()
        invariant
            i <= accounts@.len(),
            forall|j: int| 0 <= j < i ==> (accounts@[j].0@, accounts@[j].1@) != (kind@, name@),
        decreases accounts.len() - i,
    {
        if str_eq(accounts[i].0.as_str(), kind) && str_eq(accounts[i].1.as_str(), name) {
            assert(account_texts(accounts@)[i as int] == (kind@, name@));
            return true;
        }
        i = i + 1;
    }
    proof {
        if has_account(account_texts(accounts@), kind@, name@) {
            let j = choose|j: int|
                0 <= j < account_texts(accounts@).len() && #[trigger] account_texts(accounts@)[j]
                    == (kind@, name@);
            assert((accounts@[j].0@, accounts@[j].1@) == (kind@, name@));
        }
    }
    false
}

/// The default accounts, as (kind, name), that a user with the live
/// accounts `accounts` (kind, name) lacks: the ones provisioning creates.
pub fn missing_default_accounts(accounts: &Vec<(String, String)>) -> (r: Vec<
    (&'static str, &'static str),
>)
    ensures
        r@.map_values(|a: (&'static str, &'static str)| (a.0@, a.1@)) == missing_accounts(
            account_texts(accounts@),
        ),
{
    let mut out: Vec<(&'static str, &'static str)> = Vec::new();
    if !holds_kind(accounts, "revenue") {
        out.push(("revenue", REVENUE_BUCKET_NAME));
    }
    if !holds_kind(accounts, "expense") {
        out.push(("expense", EXPENSE_BUCKET_NAME));
    }
    if !holds_account(accounts, "asset", DEFAULT_ASSET_NAME) {
        out.push(("asset", DEFAULT_ASSET_NAME));
    }
    assert(out@.map_values(|a: (&'static str, &'static str)| (a.0@, a.1@)) =~= missing_accounts(
        account_texts(accounts@),
    ));
    out
}

proof fn lemma_has_kind_append(a: Seq<(Seq<char>, Seq<char>)>, b: Seq<(Seq<char>, Seq<char>)>, kind: Seq<char>)
    requires
        has_kind(a, kind) || has_kind(b, kind),
    ensures
        has_kind(a + b, kind),
{
    if has_kind(a, kind) {
        let i = choose|i: int| 0 <= i < a.len() && (#[trigger] a[i]).0 == kind;
        assert((a + b)[i] == a[i]);
    } else {
        let i = choose|i: int| 0 <= i < b.len() && (#[trigger] b[i]).0 == kind;
        assert((a + b)[a.len() + i] == b[i]);
    }
}

proof fn lemma_has_account_append(
    a: Seq<(Seq<char>, Seq<char>)>,
    b: Seq<(Seq<char>, Seq<char>)>,
    kind: Seq<char>,
    name: Seq<char>,
)
    requires
        has_account(a, kind, name) || has_account(b, kind, name),
    ensures
        has_account(a + b, kind, name),
{
    if has_account(a, kind, name) {
        let i = choose|i: int| 0 <= i < a.len() && #[trigger] a[i] == (kind, name);
        assert((a + b)[i] == a[i]);
    } else {
        let i = choose|i: int| 0 <= i < b.len() && #[trigger] b[i] == (kind, name);
        assert((a + b)[a.len() + i] == b[i]);
    }
}

/// After the missing default accounts are added, the user has a revenue
/// bucket, an expense bucket and the wallet, and nothing more is missing:
/// provisioning a second time adds no account.
pub proof fn lemma_default_accounts_complete(accounts: Seq<(Seq<char>, Seq<char>)>)
    ensures
        has_kind(accounts + missing_accounts(accounts), "revenue"@),
        has_kind(accounts + missing_accounts(accounts), "expense"@),
        has_account(accounts + missing_accounts(accounts), "asset"@, DEFAULT_ASSET_NAME@),
        missing_accounts(accounts + missing_accounts(accounts)) == Seq::<
            (Seq<char>, Seq<char>),
        >::empty(),
{
    let m = missing_accounts(accounts);
    let rev = if has_kind(accounts, "revenue"@) {
        Seq::<(Seq<char>, Seq<char>)>::empty()
    } else {
        seq![("revenue"@, REVENUE_BUCKET_NAME@)]
    };
    let exp = if has_kind(accounts, "expense"@) {
        Seq::<(Seq<char>, Seq<char>)>::empty()
    } else {
        seq![("expense"@, EXPENSE_BUCKET_NAME@)]
    };
    let wal = if has_account(accounts, "asset"@, DEFAULT_ASSET_NAME@) {
        Seq::<(Seq<char>, Seq<char>)>::empty()
    } else {
        seq![("asset"@, DEFAULT_ASSET_NAME@)]
    };
    assert(m == rev + exp + wal);
    if !has_kind(accounts, "revenue"@) {
        assert(m[0] == ("revenue"@, REVENUE_BUCKET_NAME@));
        assert(has_kind(m, "revenue"@));
    }
    lemma_has_kind_append(accounts, m, "revenue"@);
    if !has_kind(accounts, "expense"@) {
        assert(m[rev.len() as int] == ("expense"@, EXPENSE_BUCKET_NAME@));
        assert(has_kind(m, "expense"@));
    }
    lemma_has_kind_append(accounts, m, "expense"@);
    if !has_account(accounts, "asset"@, DEFAULT_ASSET_NAME@) {
        assert(m[(rev.len() + exp.len()) as int] == ("asset"@, DEFAULT_ASSET_NAME@));
        assert(has_account(m, "asset"@, DEFAULT_ASSET_NAME@));
    }
    lemma_has_account_append(accounts, m, "asset"@, DEFAULT_ASSET_NAME@);
    assert(missing_accounts(accounts + m) =~= Seq::<(Seq<char>, Seq<char>)>::empty());
}

proof fn lemma_count_append(a: Seq<(Seq<char>, Seq<char>)>, b: Seq<(Seq<char>, Seq<char>)>, kind: Seq<char>)
    ensures
        count_kind(a + b, kind) == count_kind(a, kind) + count_kind(b, kind),
    decreases b.len(),
{
    if b.len() == 0 {
        assert(a + b =~= a);
    } else {
        lemma_count_append(a, b.drop_last(), kind);
        assert((a + b).drop_last() =~= a + b.drop_last());
    }
}

proof fn lemma_count_has_kind(a: Seq<(Seq<char>, Seq<char>)>, kind: Seq<char>)
    ensures
        has_kind(a, kind) <==> count_kind(a, kind) > 0,
    decreases a.len(),
{
    if a.len() > 0 {
        let init = a.drop_last();
        lemma_count_has_kind(init, kind);
        if has_kind(init, kind) {
            let i = choose|i: int| 0 <= i < init.len() && (#[trigger] init[i]).0 == kind;
            assert(a[i] == init[i]);
        }
        if has_kind(a, kind) && a.last().0 != kind {
            let i = choose|i: int| 0 <= i < a.len() && (#[trigger] a[i]).0 == kind;
            assert(i < a.len() - 1);
            assert(init[i] == a[i]);
        }
        if a.last().0 == kind {
            assert(a[a.len() - 1].0 == kind);
        }
    }
}

/// A user with at most one revenue and at most one expense account has,
/// after provisioning, exactly one of each.
pub proof fn lemma_one_bucket_each(accounts: Seq<(Seq<char>, Seq<char>)>)
    requires
        count_kind(accounts, "revenue"@) <= 1,
        count_kind(accounts, "expense"@) <= 1,
    ensures
        count_kind(accounts + missing_accounts(accounts), "revenue"@) == 1,
        count_kind(accounts + missing_accounts(accounts), "expense"@) == 1,
{
    reveal_strlit("revenue");
    reveal_strlit("expense");
    reveal_strlit("asset");
    let m = missing_accounts(accounts);
    lemma_count_append(accounts, m, "revenue"@);
    lemma_count_append(accounts, m, "expense"@);
    lemma_count_has_kind(accounts, "revenue"@);
    lemma_count_has_kind(accounts, "expense"@);
    assert("revenue"@ != "expense"@) by {
        assert("revenue"@[0] != "expense"@[0]);
    }
    assert("revenue"@ != "asset"@) by {
        assert("revenue"@.len() != "asset"@.len());
    }
    assert("expense"@ != "asset"@) by {
        assert("expense"@.len() != "asset"@.len());
    }
    reveal_with_fuel(count_kind, 4);
    let rev = if has_kind(accounts, "revenue"@) {
        Seq::<(Seq<char>, Seq<char>)>::empty()
    } else {
        seq![("revenue"@, REVENUE_BUCKET_NAME@)]
    };
    let exp = if has_kind(accounts, "expense"@) {
        Seq::<(Seq<char>, Seq<char>)>::empty()
    } else {
        seq![("expense"@, EXPENSE_BUCKET_NAME@)]
    };
    let wal = if has_account(accounts, "asset"@, DEFAULT_ASSET_NAME@) {
        Seq::<(Seq<char>, Seq<char>)>::empty()
    } else {
        seq![("asset"@, DEFAULT_ASSET_NAME@)]
    };
    assert(m == rev + exp + wal);
    lemma_count_append(rev, exp, "revenue"@);
    lemma_count_append(rev + exp, wal, "revenue"@);
    lemma_count_append(rev, exp, "expense"@);
    lemma_count_append(rev + exp, wal, "expense"@);
}

/// Provisioning a user a second time creates nothing: no default account
/// and no seed category is missing after the first time.
pub proof fn lemma_provisioning_second_run(
    accounts: Seq<(Seq<char>, Seq<char>)>,
    categories: Seq<Seq<char>>,
)
    ensures
        missing_accounts(accounts + missing_accounts(accounts)) == Seq::<
            (Seq<char>, Seq<char>),
        >::empty(),
        missing_from(seed_names(), categories + missing_from(seed_names(), categories)) == Seq::<
            Seq<char>,
        >::empty(),
{
    lemma_default_accounts_complete(accounts);
    lemma_provisioning_idempotent(seed_names(), categories);
}

} // verus!
