//! The whole generation step, from the two tables to the artifact's text.

use vstd::prelude::*;
use crate::emit::{render, rendered_artifact};
use crate::error::{GenError, GenErrorView};
use crate::expand::{expand, expansion};
use crate::filter::{aggregate, aggregate_of};
use crate::load::{backends_in, load_backends, load_positions, positions_in};
use crate::model::{views, BackendDescriptor, BackendView, PositionCase, PositionView};
use crate::normalize::{has_numeric_id, normalize_ids, normalized};

verus! {

/// What generation yields from given tables: the artifact for the cross
/// product of the normalised positions with the backends, its default run
/// being the entries of the backends that are in it; or the error of the
/// first stage that fails.
pub open spec fn generation(ps: Seq<PositionView>, bs: Seq<BackendView>) -> Result<
    Seq<char>,
    GenErrorView,
> {
    if !has_numeric_id(ps) {
        Err(GenErrorView::EmptyInputSet)
    } else {
        match expansion(normalized(ps), bs) {
            Ok(all) => Ok(rendered_artifact(all, aggregate_of(all))),
            Err(e) => Err(e),
        }
    }
}

/// How a run ended, as the specifications see it.
pub open spec fn outcome_view(r: Result<String, GenError>) -> Result<Seq<char>, GenErrorView> {
    match r {
        Ok(text) => Ok(text@),
        Err(e) => Err(e@),
    }
}

/// Runs the stages in order: normalise the ids, expand the cross product,
/// select the default run, render the artifact.
///
/// Fails with `EmptyInputSet` where no position has a numeric id, and with
/// `DuplicateGeneratedName` where two entries would bear one name. Either
/// way no text comes back: there is no partial artifact.
pub fn generate(positions: &Vec<PositionCase>, backends: &Vec<BackendDescriptor>) -> (r: Result<
    String,
    GenError,
>)
    ensures
        outcome_view(r) == generation(views(positions@), views(backends@)),
{
    let normal = match normalize_ids(positions) {
        Ok(normal) => normal,
        Err(e) => {
            return Err(e);
        },
    };
    let entries = match expand(&normal, backends) {
        Ok(entries) => entries,
        Err(e) => {
            return Err(e);
        },
    };
    let chosen = aggregate(&entries);
    Ok(render(&entries, &chosen))
}

/// What generation yields from the texts of the two data files: the error
/// that cites the position file where that one is malformed, else the error
/// that cites the backend file where that one is, else what the records
/// yield.
pub open spec fn generation_from_text(
    positions_text: Seq<char>,
    positions_file: Seq<char>,
    backends_text: Seq<char>,
    backends_file: Seq<char>,
) -> Result<Seq<char>, GenErrorView> {
    match positions_in(positions_text) {
        None => Err(GenErrorView::MalformedInput { file: positions_file }),
        Some(ps) => match backends_in(backends_text) {
            None => Err(GenErrorView::MalformedInput { file: backends_file }),
            Some(bs) => generation(ps, bs),
        },
    }
}

/// Runs the whole step on the texts of the two data files: load the
/// positions, load the backends, then generate. The file names serve to
/// cite a malformed file.
pub fn generate_from_text(
    positions_text: &str,
    positions_file: &str,
    backends_text: &str,
    backends_file: &str,
) -> (r: Result<String, GenError>)
    ensures
        outcome_view(r) == generation_from_text(
            positions_text@,
            positions_file@,
            backends_text@,
            backends_file@,
        ),
{
    let positions = match load_positions(positions_text, positions_file) {
        Ok(positions) => positions,
        Err(e) => {
            return Err(e);
        },
    };
    let backends = match load_backends(backends_text, backends_file) {
        Ok(backends) => backends,
        Err(e) => {
            return Err(e);
        },
    };
    generate(&positions, &backends)
}

/// Generation is repeatable: two runs over tables with the same contents end
/// alike, with the same text, character for character, or with the same
/// error.
pub proof fn lemma_generation_repeats(
    positions: Seq<PositionCase>,
    backends: Seq<BackendDescriptor>,
    first: Result<String, GenError>,
    positions_again: Seq<PositionCase>,
    backends_again: Seq<BackendDescriptor>,
    second: Result<String, GenError>,
)
    requires
        views(positions_again) == views(positions),
        views(backends_again) == views(backends),
        outcome_view(first) == generation(views(positions), views(backends)),
        outcome_view(second) == generation(views(positions_again), views(backends_again)),
    ensures
        outcome_view(first) == outcome_view(second),
{
}

} // verus!
