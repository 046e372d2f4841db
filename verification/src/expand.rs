//! The cross product of positions and backends: one entry for every pair,
//! each under a name of its own.

use vstd::prelude::*;
use vstd::arithmetic::div_mod::lemma_fundamental_div_mod_converse;
use crate::error::{GenError, GenErrorView};
use crate::model::{
    views, BackendDescriptor, BackendView, EntryView, GeneratedEntry, PositionCase, PositionView,
};

verus! {

/// The name of the entry built from a position's id and a backend's
/// display name.
pub open spec fn entry_name(id: Seq<char>, display_name: Seq<char>) -> Seq<char> {
    "perft_"@ + id + "_"@ + display_name
}

/// The entry for one position under one backend.
pub open spec fn entry_of(p: PositionView, b: BackendView) -> EntryView {
    EntryView {
        name: entry_name(p.id, b.display_name),
        fen: p.fen,
        depth: p.depth,
        expected: p.expected,
        function_name: b.function_name,
        included: b.included,
    }
}

/// Every position under every backend: backends in their order, and within
/// one backend the positions in theirs.
pub open spec fn cross_product(ps: Seq<PositionView>, bs: Seq<BackendView>) -> Seq<EntryView> {
    Seq::new(
        ps.len() * bs.len(),
        |k: int| entry_of(ps[k % (ps.len() as int)], bs[k / (ps.len() as int)]),
    )
}

/// No two entries share a name.
pub open spec fn distinct_names(es: Seq<EntryView>) -> bool {
    forall|i: int, j: int| 0 <= i < j < es.len() ==> (#[trigger] es[i]).name != (#[trigger] es[j]).name
}

/// The name of entry `j` is already that of an entry before it.
pub open spec fn repeats_earlier(es: Seq<EntryView>, j: int) -> bool {
    exists|i: int| 0 <= i < j && (#[trigger] es[i]).name == es[j].name
}

/// Entry `j` is the first whose name an earlier entry already has.
pub open spec fn is_first_repeat(es: Seq<EntryView>, j: int) -> bool {
    &&& 0 <= j < es.len()
    &&& repeats_earlier(es, j)
    &&& forall|k: int| 0 <= k < j ==> !repeats_earlier(es, k)
}

/// The index of the first entry whose name an earlier entry already has.
/// It means something only where the names are not distinct.
pub open spec fn first_repeat(es: Seq<EntryView>) -> int {
    choose|j: int| is_first_repeat(es, j)
}

/// What expansion yields: the cross product where its names are distinct,
/// and otherwise the first name that comes a second time.
pub open spec fn expansion(ps: Seq<PositionView>, bs: Seq<BackendView>) -> Result<
    Seq<EntryView>,
    GenErrorView,
> {
    let all = cross_product(ps, bs);
    if distinct_names(all) {
        Ok(all)
    } else {
        Err(GenErrorView::DuplicateGeneratedName { name: all[first_repeat(all)].name })
    }
}

/// Whatever index is a first repeat is `first_repeat(es)`, and the names are
/// then not distinct.
pub proof fn lemma_first_repeat(es: Seq<EntryView>, j: int)
    requires
        is_first_repeat(es, j),
    ensures
        first_repeat(es) == j,
        !distinct_names(es),
{
    let w = first_repeat(es);
    assert(is_first_repeat(es, w));
    if w < j {
        assert(!repeats_earlier(es, w));
    }
    if j < w {
        assert(!repeats_earlier(es, j));
    }
    let i = choose|i: int| 0 <= i < j && (#[trigger] es[i]).name == es[j].name;
    assert(es[i].name == es[j].name);
}

/// Names are distinct where no entry repeats an earlier one.
pub proof fn lemma_no_repeat_distinct(es: Seq<EntryView>)
    requires
        forall|j: int| 0 <= j < es.len() ==> !repeats_earlier(es, j),
    ensures
        distinct_names(es),
{
    assert forall|i: int, j: int| 0 <= i < j < es.len() implies (#[trigger] es[i]).name != (
    #[trigger] es[j]).name by {
        assert(!repeats_earlier(es, j));
    }
}

/// Where entry `position` of backend `backend` stands in the cross product.
proof fn lemma_cell(backend: int, position: int, n: int, m: int)
    requires
        0 <= backend < m,
        0 <= position < n,
    ensures
        0 <= backend * n + position < n * m,
        (backend * n + position) % n == position,
        (backend * n + position) / n == backend,
{
    assert(backend * n + position < n * m) by (nonlinear_arith)
        requires
            0 <= backend < m,
            0 <= position < n,
    ;
    assert(0 <= backend * n) by (nonlinear_arith)
        requires
            0 <= backend,
            0 < n,
    ;
    lemma_fundamental_div_mod_converse(backend * n + position, n, backend, position);
}

/// Builds an entry's name: `perft_`, the id, `_`, the display name.
pub fn make_name(id: &str, display_name: &str) -> (r: String)
    ensures
        r@ == entry_name(id@, display_name@),
{
    let mut name = String::from_str("perft_");
    name.append(id);
    name.append("_");
    name.append(display_name);
    name
}

/// Builds the entry for `position` under `backend`.
pub fn make_entry(position: &PositionCase, backend: &BackendDescriptor) -> (r: GeneratedEntry)
    ensures
        r@ == entry_of(position@, backend@),
{
    GeneratedEntry {
        name: make_name(position.id.as_str(), backend.display_name.as_str()),
        fen: position.fen.clone(),
        depth: position.depth.clone(),
        expected: position.expected.clone(),
        function_name: backend.function_name.clone(),
        included: backend.included,
    }
}

/// Decides whether one of `entries` already has the name `name`.
pub fn name_taken(entries: &Vec<GeneratedEntry>, name: &String) -> (r: bool)
    ensures
        r == exists|i: int| 0 <= i < entries.len() && (#[trigger] entries[i])@.name == name@,
{
    let mut i: usize = 0;
    while i < entries.len()
        invariant
            i <= entries.len(),
            forall|j: int| 0 <= j < i ==> (#[trigger] entries[j])@.name != name@,
        decreases entries.len() - i,
    {
        if entries[i].name == *name {
            return true;
        }
        i = i + 1;
    }
    false
}

/// Expands positions and backends into their cross product, backend by
/// backend and within each backend position by position.
///
/// Succeeds exactly where all the names of the cross product are distinct.
/// Otherwise it fails with `DuplicateGeneratedName`, naming the first entry,
/// in that order, whose name an earlier entry already has. The FEN, depth and
/// expected count of a position are carried into its entries as they are.
pub fn expand(positions: &Vec<PositionCase>, backends: &Vec<BackendDescriptor>) -> (r: Result<
    Vec<GeneratedEntry>,
    GenError,
>)
    ensures
        match r {
            Ok(out) => expansion(views(positions@), views(backends@)) == Ok::<
                Seq<EntryView>,
                GenErrorView,
            >(views(out@)),
            Err(e) => expansion(views(positions@), views(backends@)) == Err::<
                Seq<EntryView>,
                GenErrorView,
            >(e@),
        },
        r matches Ok(out) ==> out.len() == positions.len() * backends.len() && distinct_names(
            views(out@),
        ),
{
    let ghost ps = views(positions@);
    let ghost bs = views(backends@);
    let ghost all = cross_product(ps, bs);
    let n: usize = positions.len();
    let m: usize = backends.len();
    let mut out: Vec<GeneratedEntry> = Vec::new();
    let mut b: usize = 0;
    while b < m
        invariant
            ps == views(positions@),
            bs == views(backends@),
            all == cross_product(ps, bs),
            n == positions.len(),
            m == backends.len(),
            b <= m,
            out.len() == b * n,
            out.len() <= all.len(),
            forall|k: int| 0 <= k < out.len() ==> (#[trigger] out[k])@ == all[k],
            forall|k: int| 0 <= k < out.len() ==> !repeats_earlier(all, k),
        decreases m - b,
    {
        let mut p: usize = 0;
        while p < n
            invariant
                ps == views(positions@),
                bs == views(backends@),
                all == cross_product(ps, bs),
                n == positions.len(),
                m == backends.len(),
                b < m,
                p <= n,
                out.len() == b * n + p,
                out.len() <= all.len(),
                forall|k: int| 0 <= k < out.len() ==> (#[trigger] out[k])@ == all[k],
                forall|k: int| 0 <= k < out.len() ==> !repeats_earlier(all, k),
            decreases n - p,
        {
            let ghost k = out.len() as int;
            let entry = make_entry(&positions[p], &backends[b]);
            proof {
                lemma_cell(b as int, p as int, n as int, m as int);
                assert(ps[p as int] == positions[p as int]@);
                assert(bs[b as int] == backends[b as int]@);
                assert(entry@ == all[k]);
            }
            if name_taken(&out, &entry.name) {
                proof {
                    let i = choose|i: int|
                        0 <= i < out.len() && (#[trigger] out[i])@.name == entry.name@;
                    assert(all[i].name == all[k].name);
                    assert(repeats_earlier(all, k));
                    lemma_first_repeat(all, k);
                }
                return Err(GenError::DuplicateGeneratedName { name: entry.name });
            }
            proof {
                if repeats_earlier(all, k) {
                    let i = choose|i: int| 0 <= i < k && (#[trigger] all[i]).name == all[k].name;
                    assert(out[i]@.name == entry.name@);
                }
            }
            out.push(entry);
            p = p + 1;
        }
        proof {
            assert(b * n + n == (b + 1) * n) by (nonlinear_arith);
        }
        b = b + 1;
    }
    proof {
        assert(m * n == n * m) by (nonlinear_arith);
        lemma_no_repeat_distinct(all);
        assert(views(out@) =~= all);
    }
    Ok(out)
}

} // verus!
