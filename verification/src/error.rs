//! The ways in which generation fails.

use vstd::prelude::*;

verus! {

/// A failure of the generation step. Every one of them is final: no stage
/// recovers from it and nothing is retried.
#[derive(Debug, Clone, PartialEq, Eq)]
pub enum GenError {
    /// A data file does not hold records of the expected shape.
    MalformedInput { file: String },
    /// No position has a numeric id, so there is no padding width.
    EmptyInputSet,
    /// Two entries of the cross product would carry the same name.
    DuplicateGeneratedName { name: String },
    /// The output artifact cannot be written.
    EmitError,
}

/// What a `GenError` is to the specifications.
pub enum GenErrorView {
    MalformedInput { file: Seq<char> },
    EmptyInputSet,
    DuplicateGeneratedName { name: Seq<char> },
    EmitError,
}

impl View for GenError {
    type V = GenErrorView;

    open spec fn view(&self) -> GenErrorView {
        match self {
            GenError::MalformedInput { file } => GenErrorView::MalformedInput { file: file@ },
            GenError::EmptyInputSet => GenErrorView::EmptyInputSet,
            GenError::DuplicateGeneratedName { name } => GenErrorView::DuplicateGeneratedName {
                name: name@,
            },
            GenError::EmitError => GenErrorView::EmitError,
        }
    }
}

/// The text that reports an error: the stage that failed, then what it
/// failed on.
pub open spec fn message_text(e: GenErrorView) -> Seq<char> {
    match e {
        GenErrorView::MalformedInput { file } => "load: malformed input in "@ + file,
        GenErrorView::EmptyInputSet => "normalize: no numeric id to take a padding width from"@,
        GenErrorView::DuplicateGeneratedName { name } => "expand: duplicate entry name "@ + name,
        GenErrorView::EmitError => "emit: the output artifact cannot be written"@,
    }
}

impl GenError {
    /// The report of this error, for the build log.
    pub fn message(&self) -> (r: String)
        ensures
            r@ == message_text(self@),
    {
        match self {
            GenError::MalformedInput { file } => {
                let mut out = String::from_str("load: malformed input in ");
                out.append(file.as_str());
                out
            },
            GenError::EmptyInputSet => String::from_str(
                "normalize: no numeric id to take a padding width from",
            ),
            GenError::DuplicateGeneratedName { name } => {
                let mut out = String::from_str("expand: duplicate entry name ");
                out.append(name.as_str());
                out
            },
            GenError::EmitError => String::from_str("emit: the output artifact cannot be written"),
        }
    }
}

} // verus!
