//! Identifier normalisation: numeric ids are brought to one common width so
//! that the names built from them sort the same way however many digits an
//! id happens to have.

use vstd::prelude::*;
use crate::error::{GenError, GenErrorView};
use crate::model::{views, PositionCase, PositionView};
use crate::text::{
    is_numeric, lemma_pad_left_numeric, lemma_pad_left_same, numeric, pad_left, pad_zeros,
    zero_extends,
};

verus! {

/// Some position has a numeric id.
pub open spec fn has_numeric_id(ps: Seq<PositionView>) -> bool {
    exists|i: int| 0 <= i < ps.len() && is_numeric(#[trigger] ps[i].id)
}

/// `width` is the length of the longest numeric id among `ps`.
pub open spec fn is_padding_width(ps: Seq<PositionView>, width: nat) -> bool {
    &&& exists|i: int|
        0 <= i < ps.len() && is_numeric(#[trigger] ps[i].id) && ps[i].id.len() == width
    &&& forall|i: int|
        0 <= i < ps.len() && is_numeric(#[trigger] ps[i].id) ==> ps[i].id.len() <= width
}

/// The length of the longest numeric id among `ps`. It means something only
/// where `has_numeric_id(ps)`.
pub open spec fn width_of(ps: Seq<PositionView>) -> nat {
    choose|width: nat| is_padding_width(ps, width)
}

/// A numeric id padded to `width`; any other id as it is.
pub open spec fn normalized_id(id: Seq<char>, width: nat) -> Seq<char> {
    if is_numeric(id) {
        pad_left(id, width)
    } else {
        id
    }
}

/// The position with its id normalised, and nothing else changed.
pub open spec fn normalized_position(p: PositionView, width: nat) -> PositionView {
    PositionView { id: normalized_id(p.id, width), fen: p.fen, depth: p.depth, expected: p.expected }
}

/// The positions, in order, each with its id normalised to the common width.
pub open spec fn normalized(ps: Seq<PositionView>) -> Seq<PositionView> {
    Seq::new(ps.len(), |i: int| normalized_position(ps[i], width_of(ps)))
}

/// At most one number is the padding width of given positions.
pub proof fn lemma_padding_width_unique(ps: Seq<PositionView>, a: nat, b: nat)
    requires
        is_padding_width(ps, a),
        is_padding_width(ps, b),
    ensures
        a == b,
{
}

/// Whatever number is a padding width of `ps` is `width_of(ps)`.
pub proof fn lemma_width_of(ps: Seq<PositionView>, width: nat)
    requires
        is_padding_width(ps, width),
    ensures
        width_of(ps) == width,
        has_numeric_id(ps),
{
    lemma_padding_width_unique(ps, width, width_of(ps));
}

/// Positions with a numeric id have a padding width.
proof fn lemma_some_width(ps: Seq<PositionView>) -> (width: nat)
    requires
        has_numeric_id(ps),
    ensures
        is_padding_width(ps, width),
    decreases ps.len(),
{
    let front = ps.drop_last();
    let last = ps.last();
    let n = ps.len() - 1;
    let witness = choose|i: int| 0 <= i < ps.len() && is_numeric(#[trigger] ps[i].id);
    if has_numeric_id(front) {
        let before = lemma_some_width(front);
        let at = choose|i: int|
            0 <= i < front.len() && is_numeric(#[trigger] front[i].id) && front[i].id.len()
                == before;
        assert(ps[at] == front[at]);
        assert forall|i: int| 0 <= i < n && is_numeric(#[trigger] ps[i].id) implies ps[i].id.len()
            <= before by {
            assert(ps[i] == front[i]);
        }
        if is_numeric(last.id) && last.id.len() > before {
            assert(ps[n] == last);
            last.id.len()
        } else {
            before
        }
    } else {
        assert forall|i: int| 0 <= i < n implies !is_numeric(#[trigger] ps[i].id) by {
            assert(ps[i] == front[i]);
        }
        assert(witness == n);
        assert(ps[n] == last);
        last.id.len()
    }
}

/// Where some id is numeric, `width_of` is the padding width.
pub proof fn lemma_width_exists(ps: Seq<PositionView>)
    requires
        has_numeric_id(ps),
    ensures
        is_padding_width(ps, width_of(ps)),
{
    let width = lemma_some_width(ps);
}

/// No two positions share an id.
pub open spec fn distinct_ids(ps: Seq<PositionView>) -> bool {
    forall|i: int, j: int| 0 <= i < j < ps.len() ==> (#[trigger] ps[i]).id != (#[trigger] ps[j]).id
}

/// Two of the numeric ids differ in nothing but zeros in front, as `7` and
/// `007` do.
pub open spec fn has_zero_extended_ids(ps: Seq<PositionView>) -> bool {
    exists|i: int, j: int|
        0 <= i < ps.len() && 0 <= j < ps.len() && is_numeric((#[trigger] ps[i]).id) && is_numeric(
            (#[trigger] ps[j]).id,
        ) && zero_extends(ps[i].id, ps[j].id)
}

/// After normalisation all numeric ids have one length, the padding width,
/// and they are still numeric.
pub proof fn lemma_normalized_numeric_ids(ps: Seq<PositionView>)
    requires
        has_numeric_id(ps),
    ensures
        forall|i: int|
            0 <= i < ps.len() && is_numeric((#[trigger] ps[i]).id) ==> normalized(ps)[i].id.len()
                == width_of(ps) && is_numeric(normalized(ps)[i].id),
        forall|i: int|
            0 <= i < ps.len() && !is_numeric((#[trigger] ps[i]).id) ==> normalized(ps)[i].id
                == ps[i].id,
{
    let width = width_of(ps);
    lemma_width_exists(ps);
    assert forall|i: int| 0 <= i < ps.len() && is_numeric((#[trigger] ps[i]).id) implies normalized(
        ps,
    )[i].id.len() == width && is_numeric(normalized(ps)[i].id) by {
        lemma_pad_left_numeric(ps[i].id, width);
    }
}

/// Normalisation keeps distinct ids distinct, unless two numeric ids differ
/// in nothing but zeros in front.
pub proof fn lemma_normalized_ids_distinct(ps: Seq<PositionView>)
    requires
        has_numeric_id(ps),
        distinct_ids(ps),
        !has_zero_extended_ids(ps),
    ensures
        distinct_ids(normalized(ps)),
{
    let width = width_of(ps);
    let out = normalized(ps);
    lemma_width_exists(ps);
    assert forall|i: int, j: int| 0 <= i < j < out.len() implies (#[trigger] out[i]).id != (
    #[trigger] out[j]).id by {
        let a = ps[i].id;
        let b = ps[j].id;
        assert(a != b);
        if is_numeric(a) && is_numeric(b) {
            lemma_pad_left_same(a, b, width);
            assert(!zero_extends(a, b));
            assert(!zero_extends(b, a));
        } else if is_numeric(a) {
            lemma_pad_left_numeric(a, width);
        } else if is_numeric(b) {
            lemma_pad_left_numeric(b, width);
        }
    }
}

/// Two numeric ids that differ in nothing but zeros in front are one id
/// after normalisation.
pub proof fn lemma_zero_extended_ids_collide(ps: Seq<PositionView>, i: int, j: int)
    requires
        has_numeric_id(ps),
        0 <= i < ps.len(),
        0 <= j < ps.len(),
        is_numeric(ps[i].id),
        is_numeric(ps[j].id),
        zero_extends(ps[i].id, ps[j].id),
    ensures
        normalized(ps)[i].id == normalized(ps)[j].id,
{
    let width = width_of(ps);
    lemma_width_exists(ps);
    lemma_pad_left_same(ps[i].id, ps[j].id, width);
}

/// The common width: the length of the longest numeric id.
///
/// Fails with `EmptyInputSet` exactly where no id is numeric.
pub fn padding_width(positions: &Vec<PositionCase>) -> (r: Result<usize, GenError>)
    ensures
        r is Ok <==> has_numeric_id(views(positions@)),
        r matches Ok(width) ==> is_padding_width(views(positions@), width as nat),
        r matches Err(e) ==> e@ == GenErrorView::EmptyInputSet,
{
    let ghost ps = views(positions@);
    let mut found: bool = false;
    let mut width: usize = 0;
    let mut i: usize = 0;
    while i < positions.len()
        invariant
            ps == views(positions@),
            i <= positions.len(),
            found <==> exists|j: int| 0 <= j < i && is_numeric(#[trigger] ps[j].id),
            found ==> exists|j: int|
                0 <= j < i && is_numeric(#[trigger] ps[j].id) && ps[j].id.len() == width,
            forall|j: int| 0 <= j < i && is_numeric(#[trigger] ps[j].id) ==> ps[j].id.len() <= width,
        decreases positions.len() - i,
    {
        let id = positions[i].id.as_str();
        assert(ps[i as int].id == id@);
        if numeric(id) {
            let len: usize = id.unicode_len();
            if !found || len > width {
                width = len;
            }
            found = true;
        }
        i = i + 1;
    }
    if found {
        Ok(width)
    } else {
        Err(GenError::EmptyInputSet)
    }
}

/// Brings every numeric id to the common width, zeros in front; symbolic
/// ids, and every other field, pass through unchanged.
///
/// Fails with `EmptyInputSet` exactly where no id is numeric.
pub fn normalize_ids(positions: &Vec<PositionCase>) -> (r: Result<Vec<PositionCase>, GenError>)
    ensures
        r is Ok <==> has_numeric_id(views(positions@)),
        r matches Ok(out) ==> views(out@) == normalized(views(positions@)),
        r matches Err(e) ==> e@ == GenErrorView::EmptyInputSet,
{
    let ghost ps = views(positions@);
    let width: usize = match padding_width(positions) {
        Ok(w) => w,
        Err(e) => {
            return Err(e);
        },
    };
    proof {
        lemma_width_of(ps, width as nat);
    }
    let mut out: Vec<PositionCase> = Vec::new();
    let mut i: usize = 0;
    while i < positions.len()
        invariant
            ps == views(positions@),
            width == width_of(ps),
            i <= positions.len(),
            out.len() == i,
            forall|j: int| 0 <= j < i ==> (#[trigger] out[j])@ == normalized_position(ps[j], width as nat),
        decreases positions.len() - i,
    {
        let p = &positions[i];
        assert(ps[i as int] == p@);
        let id = if numeric(p.id.as_str()) {
            pad_zeros(p.id.as_str(), width)
        } else {
            p.id.clone()
        };
        out.push(
            PositionCase {
                id,
                fen: p.fen.clone(),
                depth: p.depth.clone(),
                expected: p.expected.clone(),
            },
        );
        i = i + 1;
    }
    assert(views(out@) =~= normalized(ps));
    Ok(out)
}

} // verus!
