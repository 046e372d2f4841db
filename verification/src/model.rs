//! The records that flow through the generation stages, and their
//! mathematical views.

use vstd::prelude::*;

verus! {

/// One test position: an identifier, the board in FEN, the search depth and
/// the node count a backend has to reproduce at that depth.
///
/// `depth` and `expected` are kept as the numeric text they were read as; the
/// stages carry them through without interpreting them.
#[derive(Debug, Clone, PartialEq, Eq)]
pub struct PositionCase {
    pub id: String,
    pub fen: String,
    pub depth: String,
    pub expected: String,
}

/// What a `PositionCase` is to the specifications.
pub struct PositionView {
    pub id: Seq<char>,
    pub fen: Seq<char>,
    pub depth: Seq<char>,
    pub expected: Seq<char>,
}

impl View for PositionCase {
    type V = PositionView;

    open spec fn view(&self) -> PositionView {
        PositionView {
            id: self.id@,
            fen: self.fen@,
            depth: self.depth@,
            expected: self.expected@,
        }
    }
}

/// One move-generation library under test.
#[derive(Debug, Clone, PartialEq, Eq)]
pub struct BackendDescriptor {
    /// Name of the routine that runs this backend's node count.
    pub function_name: String,
    /// Suffix of the entry names built for this backend.
    pub display_name: String,
    /// Whether the backend takes part in the default aggregate run.
    pub included: bool,
}

/// What a `BackendDescriptor` is to the specifications.
pub struct BackendView {
    pub function_name: Seq<char>,
    pub display_name: Seq<char>,
    pub included: bool,
}

impl View for BackendDescriptor {
    type V = BackendView;

    open spec fn view(&self) -> BackendView {
        BackendView {
            function_name: self.function_name@,
            display_name: self.display_name@,
            included: self.included,
        }
    }
}

/// One benchmark entry point: a position paired with a backend.
#[derive(Debug, Clone, PartialEq, Eq)]
pub struct GeneratedEntry {
    pub name: String,
    pub fen: String,
    pub depth: String,
    pub expected: String,
    pub function_name: String,
    /// The `included` flag of the backend the entry was built from.
    pub included: bool,
}

/// What a `GeneratedEntry` is to the specifications.
pub struct EntryView {
    pub name: Seq<char>,
    pub fen: Seq<char>,
    pub depth: Seq<char>,
    pub expected: Seq<char>,
    pub function_name: Seq<char>,
    pub included: bool,
}

impl View for GeneratedEntry {
    type V = EntryView;

    open spec fn view(&self) -> EntryView {
        EntryView {
            name: self.name@,
            fen: self.fen@,
            depth: self.depth@,
            expected: self.expected@,
            function_name: self.function_name@,
            included: self.included,
        }
    }
}

/// The views of a sequence's items, in order.
pub open spec fn views<T: View>(items: Seq<T>) -> Seq<T::V> {
    Seq::new(items.len(), |i: int| items[i]@)
}

impl GeneratedEntry {
    /// A copy with the same view.
    pub fn duplicate(&self) -> (r: GeneratedEntry)
        ensures
            r@ == self@,
    {
        GeneratedEntry {
            name: self.name.clone(),
            fen: self.fen.clone(),
            depth: self.depth.clone(),
            expected: self.expected.clone(),
            function_name: self.function_name.clone(),
            included: self.included,
        }
    }
}

} // verus!
