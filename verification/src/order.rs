//! The order in which movements are listed: latest first.
//!
//! Times are texts and are ordered as the store orders texts, byte by byte
//! over their UTF-8 encoding. Two movements of the same time are listed
//! with the larger id first, so the order is total.

use vstd::prelude::*;
use vstd::utf8::encode_utf8;
use crate::model::{InventoryLog, LogView};
use crate::state::views_of;

verus! {

/// Whether `a` stands before `b` in the lexicographic order of bytes.
pub open spec fn bytes_less(a: Seq<u8>, b: Seq<u8>) -> bool
    decreases a.len(),
{
    if b.len() == 0 {
        false
    } else if a.len() == 0 {
        true
    } else if a[0] != b[0] {
        a[0] < b[0]
    } else {
        bytes_less(a.drop_first(), b.drop_first())
    }
}

/// No byte sequence stands on both sides of another.
pub proof fn lemma_bytes_less_asymmetric(a: Seq<u8>, b: Seq<u8>)
    requires
        bytes_less(a, b),
    ensures
        !bytes_less(b, a),
    decreases a.len(),
{
    if a.len() > 0 && b.len() > 0 && a[0] == b[0] {
        lemma_bytes_less_asymmetric(a.drop_first(), b.drop_first());
    }
}

/// The order of bytes is transitive.
pub proof fn lemma_bytes_less_transitive(a: Seq<u8>, b: Seq<u8>, c: Seq<u8>)
    requires
        bytes_less(a, b),
        bytes_less(b, c),
    ensures
        bytes_less(a, c),
    decreases a.len(),
{
    if a.len() > 0 && b.len() > 0 && c.len() > 0 && a[0] == b[0] && b[0] == c[0] {
        lemma_bytes_less_transitive(a.drop_first(), b.drop_first(), c.drop_first());
    }
}

/// Two byte sequences of which neither stands before the other are equal.
pub proof fn lemma_bytes_less_total(a: Seq<u8>, b: Seq<u8>)
    requires
        !bytes_less(a, b),
        !bytes_less(b, a),
    ensures
        a == b,
    decreases a.len(),
{
    if a.len() == 0 || b.len() == 0 {
        assert(a =~= b);
    } else {
        lemma_bytes_less_total(a.drop_first(), b.drop_first());
        assert(a =~= seq![a[0]] + a.drop_first());
        assert(b =~= seq![b[0]] + b.drop_first());
    }
}

/// Whether the text `a` is ordered before the text `b`.
pub open spec fn text_less(a: Seq<char>, b: Seq<char>) -> bool {
    bytes_less(encode_utf8(a), encode_utf8(b))
}

/// Whether a movement of the time and id `a` is listed before one of the
/// time and id `b`: its time is the later one, or the times are the same
/// and its id is the larger one.
pub open spec fn stands_before(time_a: Seq<char>, id_a: int, time_b: Seq<char>, id_b: int) -> bool {
    ||| text_less(time_b, time_a)
    ||| (encode_utf8(time_a) == encode_utf8(time_b) && id_a > id_b)
}

/// Whether the row `a` of the log is listed before the row `b`.
pub open spec fn listed_before(a: LogView, b: LogView) -> bool {
    stands_before(a.created_at, a.id, b.created_at, b.id)
}

/// Of two movements with different ids exactly one is listed before the other.
pub proof fn lemma_listed_before_total(a: LogView, b: LogView)
    requires
        a.id != b.id,
    ensures
        listed_before(a, b) != listed_before(b, a),
{
    let ta = encode_utf8(a.created_at);
    let tb = encode_utf8(b.created_at);
    if bytes_less(ta, tb) {
        lemma_bytes_less_asymmetric(ta, tb);
    } else if bytes_less(tb, ta) {
        lemma_bytes_less_asymmetric(tb, ta);
    } else {
        lemma_bytes_less_total(ta, tb);
    }
}

/// No movement is listed before one that is listed before it.
pub proof fn lemma_listed_before_asymmetric(a: LogView, b: LogView)
    requires
        listed_before(a, b),
    ensures
        !listed_before(b, a),
{
    let ta = encode_utf8(a.created_at);
    let tb = encode_utf8(b.created_at);
    if bytes_less(tb, ta) {
        lemma_bytes_less_asymmetric(tb, ta);
    }
    if bytes_less(ta, tb) {
        lemma_bytes_less_asymmetric(ta, tb);
    }
}

/// The order of listing is transitive.
pub proof fn lemma_listed_before_transitive(a: LogView, b: LogView, c: LogView)
    requires
        listed_before(a, b),
        listed_before(b, c),
    ensures
        listed_before(a, c),
{
    let ta = encode_utf8(a.created_at);
    let tb = encode_utf8(b.created_at);
    let tc = encode_utf8(c.created_at);
    if bytes_less(tb, ta) && bytes_less(tc, tb) {
        lemma_bytes_less_transitive(tc, tb, ta);
    }
}

/// Compares two texts byte by byte.
pub fn text_before(a: &str, b: &str) -> (r: bool)
    ensures
        r == text_less(a@, b@),
{
    let left = a.as_bytes();
    let right = b.as_bytes();
    let mut i: usize = 0;
    assert(left@.skip(0) =~= left@ && right@.skip(0) =~= right@);
    while i < left.len() && i < right.len() && left[i] == right[i]
        invariant
            i <= left.len(),
            i <= right.len(),
            left@ == encode_utf8(a@),
            right@ == encode_utf8(b@),
            bytes_less(left@, right@) == bytes_less(left@.skip(i as int), right@.skip(i as int)),
        decreases left.len() - i,
    {
        proof {
            assert(left@.skip(i as int).drop_first() =~= left@.skip(i as int + 1));
            assert(right@.skip(i as int).drop_first() =~= right@.skip(i as int + 1));
        }
        i += 1;
    }
    if i >= right.len() {
        false
    } else if i >= left.len() {
        true
    } else {
        left[i] < right[i]
    }
}

/// Whether the row `a` is listed before the row `b`.
pub fn comes_first(a: &InventoryLog, b: &InventoryLog) -> (r: bool)
    ensures
        r == listed_before(a@, b@),
{
    if text_before(b.created_at.as_str(), a.created_at.as_str()) {
        true
    } else if text_before(a.created_at.as_str(), b.created_at.as_str()) {
        proof {
            lemma_bytes_less_asymmetric(encode_utf8(a.created_at@), encode_utf8(b.created_at@));
        }
        false
    } else {
        proof {
            lemma_bytes_less_total(encode_utf8(a.created_at@), encode_utf8(b.created_at@));
        }
        a.id > b.id
    }
}

/// Whether `order` holds the index `k`.
pub open spec fn lists_index(order: Seq<usize>, k: int) -> bool {
    exists|i: int| 0 <= i < order.len() && #[trigger] order[i] == k
}

/// Whether `order` lists every index of `logs` once, latest movement first.
pub open spec fn is_listing_order(logs: Seq<LogView>, order: Seq<usize>) -> bool {
    &&& order.len() == logs.len()
    &&& forall|i: int| 0 <= i < order.len() ==> (#[trigger] order[i]) < logs.len()
    &&& forall|i: int, j: int|
        0 <= i < j < order.len() ==> listed_before(
            logs[#[trigger] order[i] as int],
            logs[#[trigger] order[j] as int],
        )
    &&& forall|k: int| 0 <= k < logs.len() ==> #[trigger] lists_index(order, k)
}

/// The positions of the rows of a log in the order of listing. The rows
/// must have different ids.
pub fn listing_order(logs: &Vec<InventoryLog>) -> (order: Vec<usize>)
    requires
        forall|i: int, j: int| 0 <= i < j < logs.len() ==> logs[i].id != logs[j].id,
    ensures
        is_listing_order(views_of(logs@), order@),
{
    let ghost rows = views_of(logs@);
    let mut order: Vec<usize> = Vec::new();
    let mut k: usize = 0;
    while k < logs.len()
        invariant
            k <= logs.len(),
            rows == views_of(logs@),
            forall|i: int, j: int| 0 <= i < j < logs.len() ==> logs[i].id != logs[j].id,
            order.len() == k,
            forall|i: int| 0 <= i < order.len() ==> (#[trigger] order[i]) < k,
            forall|i: int, j: int|
                0 <= i < j < order.len() ==> listed_before(
                    rows[#[trigger] order[i] as int],
                    rows[#[trigger] order[j] as int],
                ),
            forall|m: int| 0 <= m < k ==> #[trigger] lists_index(order@, m),
        decreases logs.len() - k,
    {
        let mut p: usize = 0;
        while p < order.len() && comes_first(&logs[order[p]], &logs[k])
            invariant
                p <= order.len(),
                k < logs.len(),
                rows == views_of(logs@),
                forall|i: int| 0 <= i < order.len() ==> (#[trigger] order[i]) < k,
                forall|i: int| 0 <= i < p ==> listed_before(rows[#[trigger] order[i] as int], rows[k as int]),
            decreases order.len() - p,
        {
            p += 1;
        }
        let ghost before = order@;
        proof {
            assert forall|j: int| p <= j < before.len() implies listed_before(
                rows[k as int],
                rows[#[trigger] before[j] as int],
            ) by {
                let first = rows[before[p as int] as int];
                assert(logs[before[p as int] as int].id != logs[k as int].id);
                lemma_listed_before_total(first, rows[k as int]);
                if j > p {
                    lemma_listed_before_transitive(rows[k as int], first, rows[before[j] as int]);
                }
            }
        }
        order.insert(p, k);
        proof {
            assert forall|i: int, j: int| 0 <= i < j < order.len() implies listed_before(
                rows[#[trigger] order[i] as int],
                rows[#[trigger] order[j] as int],
            ) by {
                let bi = if i < p { i } else { i - 1 };
                let bj = if j < p { j } else { j - 1 };
                if i != p && j != p {
                    assert(order[i] == before[bi]);
                    assert(order[j] == before[bj]);
                } else if i == p {
                    assert(order[j] == before[bj]);
                } else {
                    assert(order[i] == before[bi]);
                }
            }
            assert forall|m: int| 0 <= m < k + 1 implies #[trigger] lists_index(order@, m) by {
                if m == k {
                    assert(order[p as int] == m);
                } else {
                    assert(lists_index(before, m));
                    let i = choose|i: int| 0 <= i < before.len() && #[trigger] before[i] == m;
                    if i < p {
                        assert(order[i] == m);
                    } else {
                        assert(order[i + 1] == m);
                    }
                }
            }
        }
        k += 1;
    }
    order
}

} // verus!
