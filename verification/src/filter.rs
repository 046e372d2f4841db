//! The inclusion filter: the entries that make up the default aggregate run.

use vstd::prelude::*;
use vstd::arithmetic::div_mod::lemma_fundamental_div_mod_converse;
use crate::expand::{cross_product, entry_of};
use crate::model::{views, BackendView, EntryView, GeneratedEntry, PositionView};

verus! {

/// The test that keeps an entry: its backend is in the default run.
pub open spec fn entry_included() -> spec_fn(EntryView) -> bool {
    |e: EntryView| e.included
}

/// The test that keeps a backend: it is in the default run.
pub open spec fn backend_included() -> spec_fn(BackendView) -> bool {
    |b: BackendView| b.included
}

/// The entries whose backend is in the default run, in the order they had.
pub open spec fn aggregate_of(es: Seq<EntryView>) -> Seq<EntryView> {
    es.filter(entry_included())
}

/// The backends that are in the default run, in the order they had.
pub open spec fn included_backends(bs: Seq<BackendView>) -> Seq<BackendView> {
    bs.filter(backend_included())
}

/// Selects the entries whose backend is in the default run. The entries
/// come out in the order in which they went in.
pub fn aggregate(entries: &Vec<GeneratedEntry>) -> (r: Vec<GeneratedEntry>)
    ensures
        views(r@) == aggregate_of(views(entries@)),
{
    let ghost es = views(entries@);
    let mut out: Vec<GeneratedEntry> = Vec::new();
    let mut i: usize = 0;
    proof {
        assert(es.take(0) =~= Seq::<EntryView>::empty());
        reveal(Seq::filter);
        assert(views(out@) =~= aggregate_of(es.take(0)));
    }
    while i < entries.len()
        invariant
            es == views(entries@),
            i <= entries.len(),
            views(out@) == aggregate_of(es.take(i as int)),
        decreases entries.len() - i,
    {
        let ghost before = views(out@);
        proof {
            assert(es.take(i + 1) =~= es.take(i as int).push(es[i as int]));
            es.take(i as int).lemma_filter_push(es[i as int], entry_included());
        }
        if entries[i].included {
            out.push(entries[i].duplicate());
            assert(views(out@) =~= before.push(es[i as int]));
        }
        i = i + 1;
    }
    proof {
        assert(es.take(i as int) =~= es);
    }
    out
}

/// The entries of one backend: every position under it, in order.
pub open spec fn entries_of_backend(ps: Seq<PositionView>, b: BackendView) -> Seq<EntryView> {
    Seq::new(ps.len(), |i: int| entry_of(ps[i], b))
}

/// `at` places `part` inside `whole`: item by item, at rising indices.
pub open spec fn placed_in_order(part: Seq<EntryView>, whole: Seq<EntryView>, at: Seq<int>) -> bool {
    &&& at.len() == part.len()
    &&& forall|i: int|
        0 <= i < part.len() ==> 0 <= #[trigger] at[i] < whole.len() && whole[at[i]] == part[i]
    &&& forall|i: int, j: int| 0 <= i < j < part.len() ==> #[trigger] at[i] < #[trigger] at[j]
}

/// One more backend adds its entries behind those of the others.
proof fn lemma_cross_product_push(ps: Seq<PositionView>, bs: Seq<BackendView>, b: BackendView)
    ensures
        cross_product(ps, bs.push(b)) == cross_product(ps, bs) + entries_of_backend(ps, b),
{
    let n = ps.len() as int;
    let m = bs.len() as int;
    let left = cross_product(ps, bs.push(b));
    let right = cross_product(ps, bs) + entries_of_backend(ps, b);
    assert(n * (m + 1) == n * m + n) by (nonlinear_arith);
    assert(0 <= n * m) by (nonlinear_arith)
        requires
            0 <= n,
            0 <= m,
    ;
    assert(left.len() == right.len());
    assert forall|k: int| 0 <= k < left.len() implies left[k] == right[k] by {
        let q = k / n;
        let r = k % n;
        assert(n > 0);
        assert(k == q * n + r && 0 <= r < n) by (nonlinear_arith)
            requires
                n > 0,
                q == k / n,
                r == k % n,
        ;
        if k < n * m {
            assert(q < m) by (nonlinear_arith)
                requires
                    k == q * n + r,
                    0 <= r,
                    k < n * m,
                    n > 0,
            ;
            assert(0 <= q) by (nonlinear_arith)
                requires
                    k == q * n + r,
                    r < n,
                    0 <= k,
                    n > 0,
            ;
            assert(bs.push(b)[q] == bs[q]);
        } else {
            lemma_fundamental_div_mod_converse(k, n, m, k - n * m);
            assert(bs.push(b)[m] == b);
            assert(right[k] == entries_of_backend(ps, b)[k - n * m]);
        }
    }
    assert(left =~= right);
}

/// The entries of one backend are all kept or all dropped, by its flag.
proof fn lemma_aggregate_of_backend(ps: Seq<PositionView>, b: BackendView)
    ensures
        aggregate_of(entries_of_backend(ps, b)) == if b.included {
            entries_of_backend(ps, b)
        } else {
            Seq::<EntryView>::empty()
        },
    decreases ps.len(),
{
    reveal(Seq::filter);
    if ps.len() > 0 {
        let front = ps.drop_last();
        lemma_aggregate_of_backend(front, b);
        assert(entries_of_backend(ps, b).drop_last() =~= entries_of_backend(front, b));
        assert(entries_of_backend(ps, b).last() == entry_of(ps.last(), b));
        if b.included {
            assert(entries_of_backend(front, b).push(entry_of(ps.last(), b))
                =~= entries_of_backend(ps, b));
        }
    } else {
        assert(entries_of_backend(ps, b) =~= Seq::<EntryView>::empty());
    }
}

/// The default run of a cross product is the cross product with the
/// backends of the default run: the same entries in the same order.
pub proof fn lemma_aggregate_of_cross_product(ps: Seq<PositionView>, bs: Seq<BackendView>)
    ensures
        aggregate_of(cross_product(ps, bs)) == cross_product(ps, included_backends(bs)),
    decreases bs.len(),
{
    reveal(Seq::filter);
    if bs.len() == 0 {
        assert(ps.len() * 0 == 0) by (nonlinear_arith);
        assert(cross_product(ps, bs) =~= Seq::<EntryView>::empty());
        assert(included_backends(bs) =~= Seq::<BackendView>::empty());
        assert(aggregate_of(cross_product(ps, bs)) =~= cross_product(ps, included_backends(bs)));
    } else {
        let front = bs.drop_last();
        let b = bs.last();
        assert(bs =~= front.push(b));
        lemma_aggregate_of_cross_product(ps, front);
        lemma_cross_product_push(ps, front, b);
        Seq::filter_distributes_over_add(
            cross_product(ps, front),
            entries_of_backend(ps, b),
            entry_included(),
        );
        lemma_aggregate_of_backend(ps, b);
        front.lemma_filter_push(b, backend_included());
        if b.included {
            lemma_cross_product_push(ps, included_backends(front), b);
        } else {
            assert(aggregate_of(cross_product(ps, front)) + Seq::<EntryView>::empty()
                =~= aggregate_of(cross_product(ps, front)));
        }
    }
}

/// The default run of `n` positions under given backends has `n` entries
/// for every backend that is in it, and none of a backend that is not.
pub proof fn lemma_aggregate_count(ps: Seq<PositionView>, bs: Seq<BackendView>)
    ensures
        aggregate_of(cross_product(ps, bs)).len() == ps.len() * included_backends(bs).len(),
        forall|i: int|
            0 <= i < aggregate_of(cross_product(ps, bs)).len() ==> (#[trigger] aggregate_of(
                cross_product(ps, bs),
            )[i]).included,
{
    lemma_aggregate_of_cross_product(ps, bs);
    lemma_aggregate_only_included(cross_product(ps, bs));
}

/// Every entry of the default run has a backend that is in it.
pub proof fn lemma_aggregate_only_included(es: Seq<EntryView>)
    ensures
        forall|i: int|
            0 <= i < aggregate_of(es).len() ==> (#[trigger] aggregate_of(es)[i]).included,
{
    assert forall|i: int| 0 <= i < aggregate_of(es).len() implies (#[trigger] aggregate_of(
        es,
    )[i]).included by {
        es.lemma_filter_pred(entry_included(), i);
    }
}

/// Selection does not reorder and does not invent: the default run lies in
/// the entries it was taken from, item by item at rising indices, and every
/// entry whose backend is in the default run is among them.
pub proof fn lemma_aggregate_in_order(es: Seq<EntryView>) -> (at: Seq<int>)
    ensures
        placed_in_order(aggregate_of(es), es, at),
        forall|k: int|
            0 <= k < es.len() && (#[trigger] es[k]).included ==> exists|i: int|
                0 <= i < at.len() && #[trigger] at[i] == k,
    decreases es.len(),
{
    reveal(Seq::filter);
    if es.len() == 0 {
        Seq::<int>::empty()
    } else {
        let front = es.drop_last();
        let before = lemma_aggregate_in_order(front);
        let last = es.len() - 1;
        if es.last().included {
            let at = before.push(last);
            assert forall|k: int| 0 <= k < es.len() && (#[trigger] es[k]).included implies exists|
                i: int,
            |
                0 <= i < at.len() && #[trigger] at[i] == k by {
                if k < last {
                    assert(front[k].included);
                    let i = choose|i: int| 0 <= i < before.len() && #[trigger] before[i] == k;
                    assert(at[i] == k);
                } else {
                    assert(at[before.len() as int] == k);
                }
            }
            at
        } else {
            assert forall|k: int| 0 <= k < es.len() && (#[trigger] es[k]).included implies exists|
                i: int,
            |
                0 <= i < before.len() && #[trigger] before[i] == k by {
                assert(front[k].included);
            }
            before
        }
    }
}

} // verus!
