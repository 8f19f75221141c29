//! The order in which scan results are shown: largest first, and among
//! equal sizes in the order in which they were found.

use vstd::prelude::*;

verus! {

/// Whether row `a` is shown before row `b`: it is larger, or as large and
/// found earlier.
pub open spec fn shown_before(sizes: Seq<u64>, a: int, b: int) -> bool {
    sizes[a] > sizes[b] || (sizes[a] == sizes[b] && a < b)
}

/// Whether `row` stands somewhere in `order`.
pub open spec fn lists_row(order: Seq<usize>, row: int) -> bool {
    exists|i: int| 0 <= i < order.len() && #[trigger] order[i] == row
}

/// Whether `order` lists every row of `sizes` once, each before all those
/// that are shown after it.
pub open spec fn is_size_order(sizes: Seq<u64>, order: Seq<usize>) -> bool {
    &&& order.len() == sizes.len()
    &&& forall|i: int| 0 <= i < order.len() ==> (#[trigger] order[i]) < sizes.len()
    &&& forall|row: int| 0 <= row < sizes.len() ==> #[trigger] lists_row(order, row)
    &&& forall|i: int, j: int|
        0 <= i < j < order.len() ==> shown_before(sizes, #[trigger] order[i] as int, #[trigger] order[j] as int)
}

/// The rows of `sizes` in the order in which they are shown.
pub fn size_order(sizes: &Vec<u64>) -> (order: Vec<usize>)
    ensures
        is_size_order(sizes@, order@),
{
    let mut order: Vec<usize> = Vec::new();
    let mut row: usize = 0;
    while row < sizes.len()
        invariant
            row <= sizes.len(),
            is_size_order(sizes@.take(row as int), order@),
        decreases sizes.len() - row,
    {
        let ghost before = order@;
        let mut at: usize = 0;
        while at < order.len() && sizes[order[at]] >= sizes[row]
            invariant
                at <= order.len(),
                row < sizes.len(),
                order@ == before,
                is_size_order(sizes@.take(row as int), order@),
                forall|i: int| 0 <= i < at ==> sizes[(#[trigger] order[i]) as int] >= sizes[row as int],
            decreases order.len() - at,
        {
            at += 1;
        }
        order.insert(at, row);
        proof {
            let known = sizes@.take(row as int);
            let grown = sizes@.take(row + 1);
            assert forall|i: int| 0 <= i < order.len() implies (#[trigger] order[i]) < grown.len() by {
                if i < at {
                    assert(order[i] == before[i]);
                } else if i > at {
                    assert(order[i] == before[i - 1]);
                }
            }
            assert forall|r: int| 0 <= r < grown.len() implies #[trigger] lists_row(order@, r) by {
                if r == row {
                    assert(order[at as int] == r);
                } else {
                    assert(lists_row(before, r));
                    let i = choose|i: int| 0 <= i < before.len() && #[trigger] before[i] == r;
                    if i < at {
                        assert(order[i] == r);
                    } else {
                        assert(order[i + 1] == r);
                    }
                }
            }
            assert forall|i: int, j: int| 0 <= i < j < order.len() implies shown_before(
                grown,
                #[trigger] order[i] as int,
                #[trigger] order[j] as int,
            ) by {
                let bi = if i < at { i } else { i - 1 };
                let bj = if j < at { j } else { j - 1 };
                if i == at {
                    assert(order[j] == before[bj]);
                    assert(before[bj] < row);
                    if at < before.len() {
                        assert(sizes[before[at as int] as int] < sizes[row as int]);
                        if bj > at {
                            assert(shown_before(known, before[at as int] as int, before[bj] as int));
                        }
                    }
                } else if j == at {
                    assert(order[i] == before[bi]);
                    assert(before[bi] < row);
                } else {
                    assert(order[i] == before[bi]);
                    assert(order[j] == before[bj]);
                    assert(shown_before(known, before[bi] as int, before[bj] as int));
                }
            }
        }
        row += 1;
    }
    proof {
        assert(sizes@.take(sizes.len() as int) =~= sizes@);
    }
    order
}

proof fn lemma_orders_agree(sizes: Seq<u64>, a: Seq<usize>, b: Seq<usize>, upto: int)
    requires
        is_size_order(sizes, a),
        is_size_order(sizes, b),
        0 <= upto <= sizes.len(),
    ensures
        forall|i: int| 0 <= i < upto ==> a[i] == b[i],
    decreases upto,
{
    if upto > 0 {
        lemma_orders_agree(sizes, a, b, upto - 1);
        let i = upto - 1;
        assert(lists_row(b, a[i] as int));
        let j = choose|j: int| 0 <= j < b.len() && #[trigger] b[j] == a[i];
        assert(lists_row(a, b[i] as int));
        let k = choose|k: int| 0 <= k < a.len() && #[trigger] a[k] == b[i];
        if j < i {
            assert(shown_before(sizes, a[j] as int, a[i] as int));
        }
        if k < i {
            assert(shown_before(sizes, b[k] as int, b[i] as int));
        }
        if j > i {
            assert(shown_before(sizes, b[i] as int, b[j] as int));
            if k > i {
                assert(shown_before(sizes, a[i] as int, a[k] as int));
            }
        }
    }
}

/// The sizes decide the order: two orders of the same sizes are one.
pub proof fn lemma_size_order_unique(sizes: Seq<u64>, a: Seq<usize>, b: Seq<usize>)
    requires
        is_size_order(sizes, a),
        is_size_order(sizes, b),
    ensures
        a == b,
{
    lemma_orders_agree(sizes, a, b, sizes.len() as int);
    assert(a =~= b);
}

/// In the order, no row is followed by a larger one.
pub proof fn lemma_size_order_descends(sizes: Seq<u64>, order: Seq<usize>, i: int)
    requires
        is_size_order(sizes, order),
        0 <= i,
        i + 1 < order.len(),
    ensures
        sizes[order[i] as int] >= sizes[order[i + 1] as int],
{
    assert(shown_before(sizes, order[i] as int, order[i + 1] as int));
}

} // verus!
