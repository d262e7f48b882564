use vstd::prelude::*;

use crate::args::{CompactSortBy, SortOrder};
use crate::payload::Timestamp;
use crate::record::{or_na, ProfileModel, PrivisionFileData, UnwrapOrNa};

verus! {

/// The lower-case form of a text, as Unicode defines it.
pub uninterp spec fn lower_of(s: Seq<char>) -> Seq<char>;

/// Relies on `str::to_lowercase`: the result depends on the characters alone, and an
/// empty text stays empty.
#[verifier::external_body]
fn lowercase(s: &str) -> (r: String)
    ensures
        r@ == lower_of(s@),
        s@.len() == 0 ==> r@.len() == 0,
{
    s.to_lowercase()
}

/// What records are compared by.
#[derive(Debug, PartialEq)]
pub enum SortKey {
    Text(String),
    Date(Option<Timestamp>),
}

pub enum SortKeyModel {
    Text(Seq<char>),
    Date(Option<Timestamp>),
}

impl View for SortKey {
    type V = SortKeyModel;

    open spec fn view(&self) -> SortKeyModel {
        match self {
            SortKey::Text(s) => SortKeyModel::Text(s@),
            SortKey::Date(d) => SortKeyModel::Date(*d),
        }
    }
}

/// Lexicographic order of texts by the code points of their characters, which is
/// the order of their UTF-8 bytes.
pub open spec fn text_lt(a: Seq<char>, b: Seq<char>) -> bool
    decreases a.len(),
{
    if a.len() == 0 {
        b.len() > 0
    } else if b.len() == 0 {
        false
    } else if a[0] != b[0] {
        a[0] < b[0]
    } else {
        text_lt(a.drop_first(), b.drop_first())
    }
}

/// Order of optional instants: a missing one comes before any instant.
pub open spec fn date_lt(a: Option<Timestamp>, b: Option<Timestamp>) -> bool {
    match (a, b) {
        (None, Some(_)) => true,
        (Some(x), Some(y)) => x.before(y),
        _ => false,
    }
}

pub open spec fn key_lt(a: SortKeyModel, b: SortKeyModel) -> bool {
    match (a, b) {
        (SortKeyModel::Text(x), SortKeyModel::Text(y)) => text_lt(x, y),
        (SortKeyModel::Date(x), SortKeyModel::Date(y)) => date_lt(x, y),
        _ => false,
    }
}

/// The key of a record: its name or its app ID name, lower-cased, with the marker of
/// a missing value in place of a missing one; or its expiration date.
pub open spec fn sort_key_spec(p: ProfileModel, by: CompactSortBy) -> SortKeyModel {
    match by {
        CompactSortBy::Name => SortKeyModel::Text(lower_of(or_na(p.name))),
        CompactSortBy::AppIdName => SortKeyModel::Text(lower_of(or_na(p.app_id_name))),
        CompactSortBy::ExpirationDate => SortKeyModel::Date(p.exp_date),
    }
}

/// `a` comes strictly before `b` in lexicographic order.
pub fn text_less(a: &str, b: &str) -> (r: bool)
    ensures
        r == text_lt(a@, b@),
{
    let n = a.unicode_len();
    let m = b.unicode_len();
    let mut i: usize = 0;
    assert(a@.skip(0) =~= a@);
    assert(b@.skip(0) =~= b@);
    while i < n && i < m
        invariant
            n == a@.len(),
            m == b@.len(),
            i <= n,
            i <= m,
            text_lt(a@, b@) == text_lt(a@.skip(i as int), b@.skip(i as int)),
        decreases n - i,
    {
        let x = a.get_char(i);
        let y = b.get_char(i);
        assert(a@.skip(i as int).drop_first() =~= a@.skip(i + 1));
        assert(b@.skip(i as int).drop_first() =~= b@.skip(i + 1));
        if x != y {
            return x < y;
        }
        i += 1;
    }
    i == n && i < m
}

/// `a` comes strictly before `b`.
pub fn key_less(a: &SortKey, b: &SortKey) -> (r: bool)
    ensures
        r == key_lt(a@, b@),
{
    match (a, b) {
        (SortKey::Text(x), SortKey::Text(y)) => text_less(x.as_str(), y.as_str()),
        (SortKey::Date(x), SortKey::Date(y)) => match (x, y) {
            (None, Some(_)) => true,
            (Some(s), Some(t)) => s.is_before(t),
            _ => false,
        },
        _ => false,
    }
}

/// The key of a record for the chosen column.
pub fn sort_key(p: &PrivisionFileData, by: CompactSortBy) -> (r: SortKey)
    ensures
        r@ == sort_key_spec(p@, by),
{
    match by {
        CompactSortBy::Name => SortKey::Text(lowercase(p.name.unwrap_or_na().as_str())),
        CompactSortBy::AppIdName => SortKey::Text(lowercase(p.app_id_name.unwrap_or_na().as_str())),
        CompactSortBy::ExpirationDate => SortKey::Date(p.exp_date),
    }
}

/// Where key `k` goes in `order`: after every position whose key does not exceed it.
pub open spec fn insert_pos(keys: Seq<SortKeyModel>, order: Seq<int>, k: SortKeyModel) -> int
    decreases order.len(),
{
    if order.len() == 0 {
        0
    } else if key_lt(k, keys[order[0]]) {
        0
    } else {
        1 + insert_pos(keys, order.drop_first(), k)
    }
}

/// The positions of the first `n` keys in ascending order, equal keys in their
/// input order: each key in turn goes after all those before it that do not
/// exceed it.
pub open spec fn ascending_order(keys: Seq<SortKeyModel>, n: nat) -> Seq<int>
    decreases n,
{
    if n == 0 {
        Seq::empty()
    } else {
        let prev = ascending_order(keys, (n - 1) as nat);
        prev.insert(insert_pos(keys, prev, keys[n - 1]), n - 1)
    }
}

/// The positions of the keys in the order asked for; descending is ascending reversed.
pub open spec fn sorted_order(keys: Seq<SortKeyModel>, order: SortOrder) -> Seq<int> {
    match order {
        SortOrder::Asc => ascending_order(keys, keys.len()),
        SortOrder::Desc => ascending_order(keys, keys.len()).reverse(),
    }
}

pub proof fn lemma_insert_pos_bounds(keys: Seq<SortKeyModel>, order: Seq<int>, k: SortKeyModel)
    ensures
        0 <= insert_pos(keys, order, k) <= order.len(),
    decreases order.len(),
{
    if order.len() > 0 && !key_lt(k, keys[order[0]]) {
        lemma_insert_pos_bounds(keys, order.drop_first(), k);
    }
}

pub proof fn lemma_ascending_order_bounds(keys: Seq<SortKeyModel>, n: nat)
    requires
        n <= keys.len(),
    ensures
        ascending_order(keys, n).len() == n,
        forall|j: int|
            0 <= j < n ==> 0 <= #[trigger] ascending_order(keys, n)[j] < n,
    decreases n,
{
    if n > 0 {
        let prev = ascending_order(keys, (n - 1) as nat);
        lemma_ascending_order_bounds(keys, (n - 1) as nat);
        lemma_insert_pos_bounds(keys, prev, keys[n - 1]);
        let p = insert_pos(keys, prev, keys[n - 1]);
        assert forall|j: int| 0 <= j < n implies 0 <= #[trigger] ascending_order(keys, n)[j] < n by {
            if j < p {
                assert(ascending_order(keys, n)[j] == prev[j]);
            } else if j > p {
                assert(ascending_order(keys, n)[j] == prev[j - 1]);
            }
        }
    }
}

pub open spec fn keys_view(keys: Seq<SortKey>) -> Seq<SortKeyModel> {
    keys.map_values(|k: SortKey| k@)
}

pub open spec fn positions_view(v: Seq<usize>) -> Seq<int> {
    v.map_values(|i: usize| i as int)
}

/// Where key `k` goes among the keys at `order`.
fn find_insert_pos(keys: &Vec<SortKey>, order: &Vec<usize>, k: usize) -> (r: usize)
    requires
        k < keys@.len(),
        forall|j: int| 0 <= j < order@.len() ==> #[trigger] order@[j] < keys@.len(),
    ensures
        r as int == insert_pos(keys_view(keys@), positions_view(order@), keys@[k as int]@),
{
    let ghost ks = keys_view(keys@);
    let ghost o = positions_view(order@);
    let mut p: usize = 0;
    assert(o.skip(0) =~= o);
    while p < order.len()
        invariant
            p <= order@.len(),
            k < keys@.len(),
            ks == keys_view(keys@),
            o == positions_view(order@),
            forall|j: int| 0 <= j < order@.len() ==> #[trigger] order@[j] < keys@.len(),
            insert_pos(ks, o, ks[k as int]) == p + insert_pos(
                ks,
                o.skip(p as int),
                ks[k as int],
            ),
        decreases order@.len() - p,
    {
        assert(o.skip(p as int).drop_first() =~= o.skip(p + 1));
        assert(o.skip(p as int)[0] == order@[p as int] as int);
        if key_less(&keys[k], &keys[order[p]]) {
            return p;
        }
        p += 1;
    }
    assert(o.skip(p as int).len() == 0);
    p
}

/// The positions of `keys` sorted in the order asked for. The sort is stable:
/// ascending, equal keys keep their input order; descending is the ascending
/// order reversed.
pub fn sorted_positions(keys: &Vec<SortKey>, order: SortOrder) -> (r: Vec<usize>)
    ensures
        positions_view(r@) == sorted_order(keys_view(keys@), order),
{
    let ghost ks = keys_view(keys@);
    let mut asc: Vec<usize> = Vec::new();
    let mut k: usize = 0;
    while k < keys.len()
        invariant
            k <= keys@.len(),
            ks == keys_view(keys@),
            positions_view(asc@) == ascending_order(ks, k as nat),
            forall|j: int| 0 <= j < asc@.len() ==> #[trigger] asc@[j] < k,
        decreases keys@.len() - k,
    {
        proof {
            lemma_ascending_order_bounds(ks, k as nat);
            lemma_insert_pos_bounds(ks, positions_view(asc@), ks[k as int]);
        }
        let p = find_insert_pos(keys, &asc, k);
        let ghost before = asc@;
        asc.insert(p, k);
        proof {
            assert(positions_view(asc@) =~= positions_view(before).insert(p as int, k as int));
            assert(ks[k as int] == keys@[k as int]@);
            assert forall|j: int| 0 <= j < asc@.len() implies #[trigger] asc@[j] < k + 1 by {
                if j < p {
                    assert(asc@[j] == before[j]);
                } else if j > p {
                    assert(asc@[j] == before[j - 1]);
                }
            }
        }
        k += 1;
    }
    match order {
        SortOrder::Asc => asc,
        SortOrder::Desc => {
            let mut desc: Vec<usize> = Vec::new();
            let mut i: usize = asc.len();
            while i > 0
                invariant
                    i <= asc@.len(),
                    desc@.len() == asc@.len() - i,
                    forall|j: int| 0 <= j < desc@.len() ==> #[trigger] desc@[j] == asc@[asc@.len() - 1 - j],
                decreases i,
            {
                i -= 1;
                desc.push(asc[i]);
            }
            assert(positions_view(desc@) =~= positions_view(asc@).reverse());
            desc
        },
    }
}

/// Sorting by a column in descending order is sorting it in ascending order and
/// reversing the result.
pub proof fn descending_is_reversed_ascending(keys: Seq<SortKeyModel>)
    ensures
        sorted_order(keys, SortOrder::Desc) == sorted_order(keys, SortOrder::Asc).reverse(),
{
}

pub proof fn lemma_text_lt_transitive(a: Seq<char>, b: Seq<char>, c: Seq<char>)
    requires
        text_lt(a, b),
        text_lt(b, c),
    ensures
        text_lt(a, c),
    decreases a.len(),
{
    if a.len() > 0 && b.len() > 0 && c.len() > 0 && a[0] == b[0] && b[0] == c[0] {
        lemma_text_lt_transitive(a.drop_first(), b.drop_first(), c.drop_first());
    }
}

pub proof fn lemma_text_lt_asymmetric(a: Seq<char>, b: Seq<char>)
    requires
        text_lt(a, b),
    ensures
        !text_lt(b, a),
    decreases a.len(),
{
    if a.len() > 0 && b.len() > 0 && a[0] == b[0] {
        lemma_text_lt_asymmetric(a.drop_first(), b.drop_first());
    }
}

pub proof fn lemma_text_lt_total(a: Seq<char>, b: Seq<char>)
    requires
        !text_lt(a, b),
        !text_lt(b, a),
    ensures
        a == b,
    decreases a.len(),
{
    if a.len() > 0 && b.len() > 0 {
        if a[0] == b[0] {
            lemma_text_lt_total(a.drop_first(), b.drop_first());
            assert(a =~= seq![a[0]] + a.drop_first());
            assert(b =~= seq![b[0]] + b.drop_first());
        }
    } else {
        assert(a.len() == 0 && b.len() == 0);
        assert(a =~= b);
    }
}

/// All keys are of one kind: all texts or all dates.
pub open spec fn same_kind(keys: Seq<SortKeyModel>) -> bool {
    (forall|i: int| 0 <= i < keys.len() ==> (#[trigger] keys[i]) is Text) || (forall|i: int|
        0 <= i < keys.len() ==> (#[trigger] keys[i]) is Date)
}

pub proof fn lemma_key_lt_order(a: SortKeyModel, b: SortKeyModel, c: SortKeyModel)
    requires
        (a is Text && b is Text && c is Text) || (a is Date && b is Date && c is Date),
    ensures
        key_lt(a, b) && key_lt(b, c) ==> key_lt(a, c),
        key_lt(a, b) ==> !key_lt(b, a),
        !key_lt(a, b) && !key_lt(b, a) ==> a == b,
{
    match (a, b, c) {
        (SortKeyModel::Text(x), SortKeyModel::Text(y), SortKeyModel::Text(z)) => {
            if text_lt(x, y) && text_lt(y, z) {
                lemma_text_lt_transitive(x, y, z);
            }
            if text_lt(x, y) {
                lemma_text_lt_asymmetric(x, y);
            }
            if !text_lt(x, y) && !text_lt(y, x) {
                lemma_text_lt_total(x, y);
            }
        },
        _ => {},
    }
}

/// The ascending order in which the first `n` keys are listed.
pub open spec fn orders_keys(keys: Seq<SortKeyModel>, o: Seq<int>, n: nat) -> bool {
    &&& o.len() == n
    &&& forall|j: int| 0 <= j < n ==> 0 <= #[trigger] o[j] < n
    &&& forall|a: int, b: int| 0 <= a < b < n ==> o[a] != o[b]
    &&& forall|a: int, b: int|
        0 <= a < b < n ==> !key_lt(keys[#[trigger] o[b]], keys[#[trigger] o[a]])
    &&& forall|a: int, b: int|
        0 <= a < b < n && keys[#[trigger] o[a]] == keys[#[trigger] o[b]] ==> o[a] < o[b]
}

pub proof fn lemma_insert_pos_split(keys: Seq<SortKeyModel>, order: Seq<int>, k: SortKeyModel)
    ensures
        forall|j: int|
            0 <= j < insert_pos(keys, order, k) && j < order.len() ==> !key_lt(
                k,
                keys[#[trigger] order[j]],
            ),
        insert_pos(keys, order, k) < order.len() ==> key_lt(
            k,
            keys[order[insert_pos(keys, order, k)]],
        ),
    decreases order.len(),
{
    lemma_insert_pos_bounds(keys, order, k);
    if order.len() > 0 && !key_lt(k, keys[order[0]]) {
        let rest = order.drop_first();
        lemma_insert_pos_split(keys, rest, k);
        assert forall|j: int|
            0 <= j < insert_pos(keys, order, k) && j < order.len() implies !key_lt(
                k,
                keys[#[trigger] order[j]],
            ) by {
            if j > 0 {
                assert(order[j] == rest[j - 1]);
            }
        }
        let q = insert_pos(keys, rest, k);
        lemma_insert_pos_bounds(keys, rest, k);
        if q < rest.len() {
            assert(order[q + 1] == rest[q]);
        }
    }
}

/// The ascending order lists every position once, keys never decreasing, and equal
/// keys in the order of their positions: it is a stable sort.
pub proof fn ascending_order_is_a_stable_sort(keys: Seq<SortKeyModel>, n: nat)
    requires
        n <= keys.len(),
        same_kind(keys),
    ensures
        orders_keys(keys, ascending_order(keys, n), n),
    decreases n,
{
    lemma_ascending_order_bounds(keys, n);
    if n > 0 {
        let m = (n - 1) as nat;
        let prev = ascending_order(keys, m);
        ascending_order_is_a_stable_sort(keys, m);
        let k = keys[m as int];
        let p = insert_pos(keys, prev, k);
        lemma_insert_pos_bounds(keys, prev, k);
        lemma_insert_pos_split(keys, prev, k);
        let o = ascending_order(keys, n);
        assert(o == prev.insert(p, m as int));
        assert forall|j: int| 0 <= j < n implies #[trigger] o[j] == (if j < p {
            prev[j]
        } else if j == p {
            m as int
        } else {
            prev[j - 1]
        }) by {}
        assert forall|a: int, b: int| 0 <= a < b < n implies o[a] != o[b] by {}
        assert forall|a: int, b: int| 0 <= a < b < n implies !key_lt(
            keys[#[trigger] o[b]],
            keys[#[trigger] o[a]],
        ) by {
            let ka = keys[o[a]];
            let kb = keys[o[b]];
            if b == p {
                assert(!key_lt(k, keys[prev[a]]));
            } else if a == p {
                let kp = keys[prev[p]];
                assert(key_lt(k, kp));
                if b - 1 > p {
                    assert(!key_lt(keys[prev[b - 1]], kp));
                }
                lemma_key_lt_order(k, kp, kb);
                lemma_key_lt_order(kb, kp, k);
                lemma_key_lt_order(kp, kb, k);
                lemma_key_lt_order(k, kb, kp);
            }
        }
        assert forall|a: int, b: int|
            0 <= a < b < n && keys[#[trigger] o[a]] == keys[#[trigger] o[b]] implies o[a] < o[b] by {
            if a == p {
                let kp = keys[prev[p]];
                let kb = keys[o[b]];
                assert(key_lt(k, kp));
                if b - 1 > p {
                    assert(!key_lt(keys[prev[b - 1]], kp));
                }
                lemma_key_lt_order(k, kp, kb);
                lemma_key_lt_order(kp, kb, k);
                lemma_key_lt_order(kb, kp, k);
            }
        }
    }
}

} // verus!
