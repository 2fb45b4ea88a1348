//! Choosing rows in key order: the first rows, by a sort key and then by
//! position, among those that a mask lets through.

use crate::db::types::Row;
use vstd::prelude::*;

verus! {

/// A strict weak order on rows, given by a sort key.
pub trait Order<T: DeepView> {
    /// `a` sorts strictly before `b`.
    spec fn before(a: T::V, b: T::V) -> bool;

    /// Decides [`Order::before`].
    fn is_before(a: &T, b: &T) -> (r: bool)
        ensures
            r == Self::before(a.deep_view(), b.deep_view()),
    ;

    /// `before` is irreflexive and transitive, and so is its complement.
    proof fn lemma_strict_weak(a: T::V, b: T::V, c: T::V)
        ensures
            !Self::before(a, a),
            Self::before(a, b) && Self::before(b, c) ==> Self::before(a, c),
            !Self::before(a, b) && !Self::before(b, c) ==> !Self::before(a, c),
    ;
}

/// Row `i` comes before row `j`: by key first, by position among equal keys.
pub open spec fn precedes<T: DeepView, O: Order<T>>(rows: Seq<T::V>, i: int, j: int) -> bool {
    O::before(rows[i], rows[j]) || (!O::before(rows[j], rows[i]) && i < j)
}

/// The mask lets row `k` through.
pub open spec fn masked(mask: Seq<bool>, k: int) -> bool {
    0 <= k < mask.len() && mask[k]
}

/// `order` lists, in order, the first rows among those the mask lets
/// through: at most `limit` of them, none skipped.
pub open spec fn is_selection<T: DeepView, O: Order<T>>(
    rows: Seq<T::V>,
    mask: Seq<bool>,
    limit: nat,
    order: Seq<int>,
) -> bool {
    &&& order.len() <= limit
    &&& forall|p: int| 0 <= p < order.len() ==> 0 <= #[trigger] order[p] < rows.len() && masked(mask, order[p])
    &&& forall|p: int, q: int|
        0 <= p < q < order.len() ==> precedes::<T, O>(rows, #[trigger] order[p], #[trigger] order[q])
    &&& forall|k: int, p: int|
        0 <= k < rows.len() && #[trigger] masked(mask, k) && !order.contains(k) && 0 <= p < order.len()
            ==> precedes::<T, O>(rows, #[trigger] order[p], k)
    &&& order.len() < limit ==> forall|k: int|
        0 <= k < rows.len() && #[trigger] masked(mask, k) ==> order.contains(k)
}

/// `precedes` is transitive.
pub proof fn lemma_precedes_transitive<T: DeepView, O: Order<T>>(rows: Seq<T::V>, i: int, j: int, k: int)
    requires
        precedes::<T, O>(rows, i, j),
        precedes::<T, O>(rows, j, k),
    ensures
        precedes::<T, O>(rows, i, k),
{
    O::lemma_strict_weak(rows[i], rows[j], rows[k]);
    O::lemma_strict_weak(rows[i], rows[k], rows[j]);
    O::lemma_strict_weak(rows[j], rows[i], rows[k]);
    O::lemma_strict_weak(rows[k], rows[j], rows[i]);
}

/// Of two different rows, exactly one precedes the other.
pub proof fn lemma_precedes_total<T: DeepView, O: Order<T>>(rows: Seq<T::V>, i: int, j: int)
    ensures
        i != j ==> (precedes::<T, O>(rows, i, j) <==> !precedes::<T, O>(rows, j, i)),
        !precedes::<T, O>(rows, i, i),
{
    O::lemma_strict_weak(rows[i], rows[j], rows[i]);
    O::lemma_strict_weak(rows[j], rows[i], rows[j]);
}

/// Two selections agree up to any position that both have.
proof fn lemma_selection_agrees<T: DeepView, O: Order<T>>(
    rows: Seq<T::V>,
    mask: Seq<bool>,
    limit: nat,
    a: Seq<int>,
    b: Seq<int>,
    p: int,
)
    requires
        is_selection::<T, O>(rows, mask, limit, a),
        is_selection::<T, O>(rows, mask, limit, b),
        0 <= p < a.len(),
        p < b.len(),
    ensures
        a[p] == b[p],
    decreases p,
{
    assert forall|q: int| 0 <= q < p implies a[q] == b[q] by {
        lemma_selection_agrees::<T, O>(rows, mask, limit, a, b, q);
    }
    if a[p] != b[p] {
        lemma_precedes_total::<T, O>(rows, a[p], b[p]);
        // the one that comes first is missing from the other selection
        let (first, other) = if precedes::<T, O>(rows, a[p], b[p]) {
            (a[p], b)
        } else {
            (b[p], a)
        };
        let same = if precedes::<T, O>(rows, a[p], b[p]) {
            a
        } else {
            b
        };
        assert(masked(mask, first));
        if other.contains(first) {
            let q = choose|q: int| 0 <= q < other.len() && other[q] == first;
            if q < p {
                assert(same[q] == other[q]);
                lemma_precedes_total::<T, O>(rows, same[q], same[p]);
                assert(precedes::<T, O>(rows, same[q], same[p]));
            } else {
                assert(precedes::<T, O>(rows, other[p], other[q]));
            }
        } else {
            assert(precedes::<T, O>(rows, other[p], first));
        }
    }
}

/// What is selected is determined: two selections of the same rows, by
/// the same mask and limit, are the same.
pub proof fn lemma_selection_unique<T: DeepView, O: Order<T>>(
    rows: Seq<T::V>,
    mask: Seq<bool>,
    limit: nat,
    a: Seq<int>,
    b: Seq<int>,
)
    requires
        is_selection::<T, O>(rows, mask, limit, a),
        is_selection::<T, O>(rows, mask, limit, b),
    ensures
        a == b,
{
    if a.len() != b.len() {
        let (short, long) = if a.len() < b.len() {
            (a, b)
        } else {
            (b, a)
        };
        let n = short.len() as int;
        let extra = long[n];
        assert(masked(mask, extra));
        assert(short.contains(extra));
        let q = choose|q: int| 0 <= q < short.len() && short[q] == extra;
        lemma_selection_agrees::<T, O>(rows, mask, limit, short, long, q);
        lemma_precedes_total::<T, O>(rows, long[q], long[n]);
        assert(precedes::<T, O>(rows, long[q], long[n]));
    }
    assert forall|p: int| 0 <= p < a.len() implies a[p] == b[p] by {
        lemma_selection_agrees::<T, O>(rows, mask, limit, a, b, p);
    }
    assert(a =~= b);
}

/// The rows that the mask lets through and that come before row `j`.
pub open spec fn earlier<T: DeepView, O: Order<T>>(rows: Seq<T::V>, mask: Seq<bool>, j: int) -> Set<int> {
    Set::new(|k: int| 0 <= k < rows.len() && masked(mask, k) && precedes::<T, O>(rows, k, j))
}

/// The rows before any row are finitely many.
pub proof fn lemma_earlier_finite<T: DeepView, O: Order<T>>(rows: Seq<T::V>, mask: Seq<bool>, j: int)
    ensures
        earlier::<T, O>(rows, mask, j).finite(),
        earlier::<T, O>(rows, mask, j).len() <= rows.len(),
{
    let n = rows.len() as int;
    vstd::set_lib::lemma_int_range(0, n);
    let range = vstd::set_lib::set_int_range(0, n);
    assert(earlier::<T, O>(rows, mask, j).subset_of(range));
    vstd::set_lib::lemma_set_subset_finite(range, earlier::<T, O>(rows, mask, j));
    vstd::set_lib::lemma_len_subset(earlier::<T, O>(rows, mask, j), range);
}

/// A row that the mask lets through is selected where fewer rows than the
/// limit come before it.
pub proof fn lemma_selected_by_rank<T: DeepView, O: Order<T>>(
    rows: Seq<T::V>,
    mask: Seq<bool>,
    limit: nat,
    order: Seq<int>,
    j: int,
)
    requires
        is_selection::<T, O>(rows, mask, limit, order),
        0 <= j < rows.len(),
        masked(mask, j),
        earlier::<T, O>(rows, mask, j).len() < limit,
    ensures
        order.contains(j),
{
    if !order.contains(j) {
        let before = earlier::<T, O>(rows, mask, j);
        lemma_earlier_finite::<T, O>(rows, mask, j);
        assert forall|p: int, q: int| 0 <= p < order.len() && 0 <= q < order.len() && p != q implies order[p]
            != order[q] by {
            lemma_precedes_total::<T, O>(rows, order[p], order[q]);
            if p < q {
                assert(precedes::<T, O>(rows, order[p], order[q]));
            } else {
                assert(precedes::<T, O>(rows, order[q], order[p]));
            }
        }
        assert(order.no_duplicates());
        order.unique_seq_to_set();
        assert(order.to_set().subset_of(before)) by {
            assert forall|x: int| order.to_set().contains(x) implies before.contains(x) by {
                let p = choose|p: int| 0 <= p < order.len() && order[p] == x;
                assert(0 <= order[p] < rows.len() && masked(mask, order[p]));
                assert(precedes::<T, O>(rows, order[p], j));
            }
        }
        vstd::set_lib::lemma_len_subset(order.to_set(), before);
        assert(order.len() == limit);
    }
}

/// The row that comes before every other row that the mask lets through
/// is the first to be selected, where anything is.
pub proof fn lemma_first_selected<T: DeepView, O: Order<T>>(
    rows: Seq<T::V>,
    mask: Seq<bool>,
    limit: nat,
    order: Seq<int>,
    j: int,
)
    requires
        is_selection::<T, O>(rows, mask, limit, order),
        limit >= 1,
        0 <= j < rows.len(),
        masked(mask, j),
        forall|k: int| 0 <= k < rows.len() && #[trigger] masked(mask, k) && k != j ==> precedes::<T, O>(rows, j, k),
    ensures
        order.len() >= 1,
        order[0] == j,
{
    let before = earlier::<T, O>(rows, mask, j);
    assert(before =~= Set::<int>::empty()) by {
        assert forall|k: int| !before.contains(k) by {
            lemma_precedes_total::<T, O>(rows, j, k);
        }
    }
    lemma_selected_by_rank::<T, O>(rows, mask, limit, order, j);
    let p = choose|p: int| 0 <= p < order.len() && order[p] == j;
    if p > 0 {
        assert(precedes::<T, O>(rows, order[0], order[p]));
        assert(masked(mask, order[0]));
        lemma_precedes_total::<T, O>(rows, order[0], j);
    }
}

/// `order` lists every row exactly once, in key order.
pub open spec fn is_ordering<T: DeepView, O: Order<T>>(rows: Seq<T::V>, order: Seq<int>) -> bool {
    &&& order.len() == rows.len()
    &&& forall|p: int| 0 <= p < order.len() ==> 0 <= #[trigger] order[p] < rows.len()
    &&& forall|k: int| 0 <= k < rows.len() ==> #[trigger] order.contains(k)
    &&& forall|p: int, q: int|
        0 <= p < q < order.len() ==> precedes::<T, O>(rows, #[trigger] order[p], #[trigger] order[q])
}

/// A selection with no limit and no mask lists every row exactly once.
pub proof fn lemma_selection_complete<T: DeepView, O: Order<T>>(
    rows: Seq<T::V>,
    mask: Seq<bool>,
    limit: nat,
    order: Seq<int>,
)
    requires
        is_selection::<T, O>(rows, mask, limit, order),
        limit >= rows.len(),
        forall|k: int| 0 <= k < rows.len() ==> masked(mask, k),
    ensures
        is_ordering::<T, O>(rows, order),
{
    let n = rows.len() as int;
    assert forall|p: int, q: int| 0 <= p < order.len() && 0 <= q < order.len() && p != q implies order[p]
        != order[q] by {
        lemma_precedes_total::<T, O>(rows, order[p], order[q]);
        if p < q {
            assert(precedes::<T, O>(rows, order[p], order[q]));
        } else {
            assert(precedes::<T, O>(rows, order[q], order[p]));
        }
    }
    assert(order.no_duplicates());
    order.unique_seq_to_set();
    vstd::set_lib::lemma_int_range(0, n);
    let range = vstd::set_lib::set_int_range(0, n);
    assert(order.to_set().subset_of(range)) by {
        assert forall|x: int| order.to_set().contains(x) implies range.contains(x) by {
            let p = choose|p: int| 0 <= p < order.len() && order[p] == x;
            assert(0 <= order[p] < n);
        }
    }
    vstd::set_lib::lemma_len_subset(order.to_set(), range);
    if order.len() == n {
        vstd::set_lib::lemma_set_subset_finite(range, order.to_set());
        vstd::set_lib::lemma_subset_equality(order.to_set(), range);
        assert forall|k: int| 0 <= k < n implies #[trigger] order.contains(k) by {
            assert(range.contains(k));
            assert(order.to_set().contains(k));
        }
    } else {
        assert(order.len() < limit);
        assert forall|k: int| 0 <= k < n implies #[trigger] order.contains(k) by {
            assert(masked(mask, k));
        }
        assert(range.subset_of(order.to_set())) by {
            assert forall|x: int| range.contains(x) implies order.to_set().contains(x) by {
                assert(order.contains(x));
            }
        }
        vstd::set_lib::lemma_set_subset_finite(range, order.to_set());
        vstd::set_lib::lemma_len_subset(range, order.to_set());
    }
}

fn row_precedes<T: DeepView, O: Order<T>>(rows: &Vec<T>, i: usize, j: usize) -> (r: bool)
    requires
        i < rows.len(),
        j < rows.len(),
    ensures
        r == precedes::<T, O>(rows.deep_view(), i as int, j as int),
{
    O::is_before(&rows[i], &rows[j]) || (!O::is_before(&rows[j], &rows[i]) && i < j)
}

/// The positions of the first `limit` rows that the mask lets through, in
/// key order.
pub fn select_in_order<T: DeepView, O: Order<T>>(rows: &Vec<T>, mask: &Vec<bool>, limit: usize) -> (order: Vec<
    usize,
>)
    ensures
        is_selection::<T, O>(rows.deep_view(), mask@, limit as nat, order@.map_values(|i: usize| i as int)),
{
    let n = rows.len();
    let mut order: Vec<usize> = Vec::new();
    let mut done = false;
    while order.len() < limit && !done
        invariant
            n == rows.len(),
            order.len() <= limit,
            forall|p: int| 0 <= p < order.len() ==> 0 <= #[trigger] order[p] < n && masked(mask@, order[p] as int),
            forall|p: int, q: int|
                0 <= p < q < order.len() ==> precedes::<T, O>(
                    rows.deep_view(),
                    #[trigger] order[p] as int,
                    #[trigger] order[q] as int,
                ),
            // nothing at or before the last pick was skipped
            order.len() > 0 ==> forall|k: int|
                0 <= k < n && #[trigger] masked(mask@, k) && !precedes::<T, O>(
                    rows.deep_view(),
                    order[order.len() - 1] as int,
                    k,
                ) ==> order@.contains(k as usize),
            done ==> forall|k: int| 0 <= k < n && #[trigger] masked(mask@, k) ==> order@.contains(k as usize),
        decreases limit - order.len() + (if done { 0int } else { 1int }),
    {
        let has_last = order.len() > 0;
        let last: usize = if has_last {
            order[order.len() - 1]
        } else {
            0
        };
        let mut best: Option<usize> = None;
        let mut k: usize = 0;
        while k < n
            invariant
                n == rows.len(),
                k <= n,
                has_last == (order.len() > 0),
                has_last ==> last == order[order.len() - 1] && last < n,
                match best {
                    Some(b) => b < k && masked(mask@, b as int) && (has_last ==> precedes::<T, O>(
                        rows.deep_view(),
                        last as int,
                        b as int,
                    )),
                    None => true,
                },
                forall|c: int|
                    0 <= c < k && #[trigger] masked(mask@, c) && (has_last ==> precedes::<T, O>(
                        rows.deep_view(),
                        last as int,
                        c,
                    )) ==> match best {
                        Some(b) => c == b || precedes::<T, O>(rows.deep_view(), b as int, c),
                        None => false,
                    },
            decreases n - k,
        {
            if k < mask.len() && mask[k] && (!has_last || row_precedes::<T, O>(rows, last, k)) {
                let better = match best {
                    Some(b) => row_precedes::<T, O>(rows, k, b),
                    None => true,
                };
                if better {
                    proof {
                        if let Some(b) = best {
                            assert forall|c: int|
                                0 <= c < k && #[trigger] masked(mask@, c) && (has_last ==> precedes::<T, O>(
                                    rows.deep_view(),
                                    last as int,
                                    c,
                                )) implies precedes::<T, O>(rows.deep_view(), k as int, c) by {
                                if c != b {
                                    lemma_precedes_transitive::<T, O>(rows.deep_view(), k as int, b as int, c);
                                }
                            }
                        }
                    }
                    best = Some(k);
                } else {
                    proof {
                        let b = best.unwrap();
                        lemma_precedes_total::<T, O>(rows.deep_view(), k as int, b as int);
                    }
                }
            }
            k += 1;
        }
        match best {
            Some(b) => {
                proof {
                    let old_order = order@;
                    let new_order = order@.push(b);
                    assert forall|p: int, q: int| 0 <= p < q < new_order.len() implies precedes::<T, O>(
                        rows.deep_view(),
                        #[trigger] new_order[p] as int,
                        #[trigger] new_order[q] as int,
                    ) by {
                        if q == old_order.len() {
                            if p < old_order.len() - 1 {
                                lemma_precedes_transitive::<T, O>(
                                    rows.deep_view(),
                                    old_order[p] as int,
                                    last as int,
                                    b as int,
                                );
                            }
                        }
                    }
                    assert forall|c: int|
                        0 <= c < n && #[trigger] masked(mask@, c) && !precedes::<T, O>(
                            rows.deep_view(),
                            b as int,
                            c,
                        ) implies new_order.contains(c as usize) by {
                        if c == b {
                            assert(new_order[old_order.len() as int] == b);
                        } else if has_last && !precedes::<T, O>(rows.deep_view(), last as int, c) {
                            assert(old_order.contains(c as usize));
                            let p = choose|p: int| 0 <= p < old_order.len() && old_order[p] == c as usize;
                            assert(new_order[p] == c as usize);
                        } else {
                            // c is a candidate, so the best pick is c or precedes it
                            assert(precedes::<T, O>(rows.deep_view(), b as int, c));
                        }
                    }
                }
                order.push(b);
            },
            None => {
                proof {
                    assert forall|c: int| 0 <= c < n && #[trigger] masked(mask@, c) implies order@.contains(
                        c as usize,
                    ) by {
                        if has_last {
                            assert(!precedes::<T, O>(rows.deep_view(), last as int, c));
                        }
                    }
                }
                done = true;
            },
        }
    }
    proof {
        let ord = order@.map_values(|i: usize| i as int);
        assert forall|k: int| 0 <= k < n && order@.contains(k as usize) implies ord.contains(k) by {
            let p = choose|p: int| 0 <= p < order@.len() && order@[p] == k as usize;
            assert(ord[p] == k);
        }
        assert forall|k: int, p: int|
            0 <= k < rows.deep_view().len() && #[trigger] masked(mask@, k) && !ord.contains(k) && 0 <= p < ord.len() implies precedes::<
                T,
                O,
            >(rows.deep_view(), #[trigger] ord[p], k) by {
            let last = order[order.len() - 1] as int;
            assert(!order@.contains(k as usize));
            assert(precedes::<T, O>(rows.deep_view(), last, k));
            if p < ord.len() - 1 {
                assert(precedes::<T, O>(rows.deep_view(), ord[p], ord[ord.len() - 1]));
                lemma_precedes_transitive::<T, O>(rows.deep_view(), ord[p], last, k);
            }
        }
        if order.len() < limit {
            assert(done);
        }
    }
    order
}

/// The rows at the positions `order`, in that order.
pub open spec fn picked<V>(rows: Seq<V>, order: Seq<int>) -> Seq<V> {
    Seq::new(order.len(), |p: int| rows[order[p]])
}

/// `out` holds every row exactly once, in key order.
pub open spec fn is_listing<T: DeepView, O: Order<T>>(rows: Seq<T::V>, out: Seq<T::V>) -> bool {
    exists|order: Seq<int>| is_ordering::<T, O>(rows, order) && out == picked(rows, order)
}

/// Copies of the rows at the positions `order`, in that order.
fn gather<T: Row>(rows: &Vec<T>, order: &Vec<usize>) -> (out: Vec<T>)
    requires
        forall|p: int| 0 <= p < order.len() ==> #[trigger] order[p] < rows.len(),
    ensures
        out.deep_view() == picked(rows.deep_view(), order@.map_values(|i: usize| i as int)),
{
    let mut out: Vec<T> = Vec::new();
    let mut p: usize = 0;
    while p < order.len()
        invariant
            p <= order.len(),
            out.len() == p,
            forall|q: int| 0 <= q < order.len() ==> #[trigger] order[q] < rows.len(),
            forall|q: int| 0 <= q < p ==> #[trigger] out[q].deep_view() == rows[order[q] as int].deep_view(),
        decreases order.len() - p,
    {
        out.push(rows[order[p]].duplicate());
        p += 1;
    }
    assert(out.deep_view() =~= picked(rows.deep_view(), order@.map_values(|i: usize| i as int)));
    out
}

/// Copies of all rows, in key order.
pub fn listed<T: Row, O: Order<T>>(rows: &Vec<T>) -> (out: Vec<T>)
    ensures
        is_listing::<T, O>(rows.deep_view(), out.deep_view()),
{
    let n = rows.len();
    let mut mask: Vec<bool> = Vec::new();
    while mask.len() < n
        invariant
            mask.len() <= n,
            forall|k: int| 0 <= k < mask.len() ==> mask[k],
        decreases n - mask.len(),
    {
        mask.push(true);
    }
    let order = select_in_order::<T, O>(rows, &mask, n);
    proof {
        let ord = order@.map_values(|i: usize| i as int);
        lemma_selection_complete::<T, O>(rows.deep_view(), mask@, n as nat, ord);
        assert forall|p: int| 0 <= p < order.len() implies #[trigger] order[p] < rows.len() by {
            assert(0 <= ord[p] < rows.len());
        }
    }
    gather(rows, &order)
}

} // verus!
