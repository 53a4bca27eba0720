//! The order in which polls are listed: a table has exactly one listing in ascending order
//! of the identifiers.

use crate::state::{bytes_before, id_before, listed, lists_in_order, PollView};
use vstd::prelude::*;

verus! {

/// No byte string comes before itself.
proof fn lemma_bytes_before_irreflexive(a: Seq<u8>)
    ensures
        !bytes_before(a, a),
{
}

/// If `a` comes before `b` and `b` before `c`, then `a` comes before `c`.
proof fn lemma_bytes_before_transitive(a: Seq<u8>, b: Seq<u8>, c: Seq<u8>)
    requires
        bytes_before(a, b),
        bytes_before(b, c),
    ensures
        bytes_before(a, c),
{
    let k1 = choose|k: int|
        0 <= k <= a.len() && k < b.len() && #[trigger] a.subrange(0, k) == b.subrange(0, k) && (k
            < a.len() ==> a[k] < b[k]);
    let k2 = choose|k: int|
        0 <= k <= b.len() && k < c.len() && #[trigger] b.subrange(0, k) == c.subrange(0, k) && (k
            < b.len() ==> b[k] < c[k]);
    let k = if k1 <= k2 {
        k1
    } else {
        k2
    };
    assert forall|i: int| 0 <= i < k implies a[i] == c[i] by {
        assert(c.subrange(0, k2)[i] == c[i]);
    }
    assert(a.subrange(0, k) =~= c.subrange(0, k));
    if k < a.len() {
        if k1 < k2 {
            assert(c.subrange(0, k2)[k1] == c[k1]);
        } else if k2 < k1 {
            assert(b.subrange(0, k1)[k2] == b[k2]);
        }
    }
}

/// Whether the identifiers `ids` strictly ascend in the order of the storage keys.
spec fn ascending(ids: Seq<Seq<char>>) -> bool {
    forall|i: int, j: int|
        0 <= i < j < ids.len() ==> id_before(#[trigger] ids[i], #[trigger] ids[j])
}

/// Two strictly ascending sequences with the same members are the same sequence.
proof fn lemma_ascending_unique(x: Seq<Seq<char>>, y: Seq<Seq<char>>)
    requires
        ascending(x),
        ascending(y),
        forall|id: Seq<char>| x.contains(id) <==> y.contains(id),
    ensures
        x == y,
    decreases x.len(),
{
    if x.len() == 0 {
        if y.len() > 0 {
            assert(y.contains(y[0]));
        }
    } else {
        // the last member of either sequence is the last in the order, so they share it
        let top = x.last();
        let other = y.last();
        assert(y.contains(top));
        assert(x.contains(other));
        let j = choose|j: int| 0 <= j < y.len() && y[j] == top;
        let i = choose|i: int| 0 <= i < x.len() && x[i] == other;
        lemma_bytes_before_irreflexive(vstd::utf8::encode_utf8(top));
        if j < y.len() - 1 && i < x.len() - 1 {
            lemma_bytes_before_transitive(
                vstd::utf8::encode_utf8(top),
                vstd::utf8::encode_utf8(other),
                vstd::utf8::encode_utf8(top),
            );
        }
        assert(top == other);
        // without it, the two are again ascending with the same members
        let rest_x = x.drop_last();
        let rest_y = y.drop_last();
        assert forall|id: Seq<char>| rest_x.contains(id) <==> rest_y.contains(id) by {
            lemma_bytes_before_irreflexive(vstd::utf8::encode_utf8(id));
            if rest_x.contains(id) {
                assert(x.contains(id));
                let n = choose|n: int| 0 <= n < y.len() && y[n] == id;
                assert(rest_y[n] == id);
            }
            if rest_y.contains(id) {
                assert(y.contains(id));
                let m = choose|m: int| 0 <= m < x.len() && x[m] == id;
                assert(rest_x[m] == id);
            }
        }
        assert forall|i: int, j: int| 0 <= i < j < rest_x.len() implies id_before(
            #[trigger] rest_x[i],
            #[trigger] rest_x[j],
        ) by {}
        assert forall|i: int, j: int| 0 <= i < j < rest_y.len() implies id_before(
            #[trigger] rest_y[i],
            #[trigger] rest_y[j],
        ) by {}
        lemma_ascending_unique(rest_x, rest_y);
        assert(y =~= rest_y.push(other));
    }
}

/// A table has one listing in ascending order of the identifiers: two sequences of polls
/// that both list it are the same sequence.
pub proof fn law_listing_is_unique(
    a: Seq<PollView>,
    b: Seq<PollView>,
    table: Map<Seq<char>, PollView>,
)
    requires
        listed(a, table),
        listed(b, table),
    ensures
        a == b,
{
    let rows_a = choose|rows: Seq<(Seq<char>, PollView)>|
        #[trigger] lists_in_order(rows, table) && rows.len() == a.len() && forall|i: int|
            0 <= i < rows.len() ==> (#[trigger] rows[i]).1 == a[i];
    let rows_b = choose|rows: Seq<(Seq<char>, PollView)>|
        #[trigger] lists_in_order(rows, table) && rows.len() == b.len() && forall|i: int|
            0 <= i < rows.len() ==> (#[trigger] rows[i]).1 == b[i];
    let ids_a = Seq::new(rows_a.len(), |i: int| rows_a[i].0);
    let ids_b = Seq::new(rows_b.len(), |i: int| rows_b[i].0);
    assert forall|id: Seq<char>| ids_a.contains(id) <==> ids_b.contains(id) by {
        if ids_a.contains(id) {
            let j = choose|j: int| 0 <= j < rows_b.len() && (#[trigger] rows_b[j]).0 == id;
            assert(ids_b[j] == id);
        }
        if ids_b.contains(id) {
            let i = choose|i: int| 0 <= i < rows_a.len() && (#[trigger] rows_a[i]).0 == id;
            assert(ids_a[i] == id);
        }
    }
    assert forall|i: int, j: int| 0 <= i < j < ids_a.len() implies id_before(
        #[trigger] ids_a[i],
        #[trigger] ids_a[j],
    ) by {}
    assert forall|i: int, j: int| 0 <= i < j < ids_b.len() implies id_before(
        #[trigger] ids_b[i],
        #[trigger] ids_b[j],
    ) by {}
    lemma_ascending_unique(ids_a, ids_b);
    assert forall|i: int| 0 <= i < a.len() implies a[i] == b[i] by {
        assert(ids_a[i] == ids_b[i]);
    }
}

} // verus!
