//! What can go wrong while weights are bound, a tensor is built or an
//! activation is computed.
use vstd::prelude::*;

verus! {

/// Why a tensor's dimensions do not fit what was asked of it.
#[derive(Debug, Clone, Copy, PartialEq, Eq)]
pub enum ShapeError {
    /// The tensor has `actual` dimensions where `expected` are needed. For an
    /// activation, which needs at least one, `expected` is 1.
    Rank { expected: usize, actual: usize },
    /// A dimension has extent `actual` where `expected` is needed.
    Dim { expected: usize, actual: usize },
    /// The trailing dimension, of extent `actual`, cannot be split in two
    /// equal halves.
    Odd { actual: usize },
    /// The number of elements handed over, `actual`, is not the product of the
    /// dimensions.
    Len { actual: usize },
    /// The result would have more elements than can be addressed.
    TooLarge,
}

/// A field of the model configuration.
#[derive(Debug, Clone, Copy, PartialEq, Eq)]
pub enum ConfigField {
    HiddenSize,
    NumHeads,
    NumKvHeads,
    FfnSize,
    NormEps,
    NumLayers,
    VocabSize,
    MaxCtxLength,
}

/// An error of this library. None is recovered from here: each is handed to
/// the caller as it arose.
#[derive(Debug, PartialEq, Eq)]
pub enum Error {
    /// The weight store holds no tensor under `path`, the full name that was
    /// looked up.
    WeightLoad { path: String },
    /// A tensor's dimensions do not fit.
    Shape(ShapeError),
    /// A field of the configuration is outside its range.
    Value { field: ConfigField },
}

/// An [`Error`] as a mathematical value: the path is a sequence of characters.
pub enum ErrorView {
    WeightLoad { path: Seq<char> },
    Shape(ShapeError),
    Value { field: ConfigField },
}

impl View for Error {
    type V = ErrorView;

    open spec fn view(&self) -> ErrorView {
        match *self {
            Error::WeightLoad { path } => ErrorView::WeightLoad { path: path@ },
            Error::Shape(e) => ErrorView::Shape(e),
            Error::Value { field } => ErrorView::Value { field },
        }
    }
}

impl ErrorView {
    /// Whether the error is about a tensor's dimensions.
    pub open spec fn is_shape(self) -> bool {
        self is Shape
    }
}

/// The view of a result: the view of what it holds, on either side.
pub open spec fn view_result<A: View, E: View>(r: Result<A, E>) -> Result<A::V, E::V> {
    match r {
        Ok(a) => Ok(a@),
        Err(e) => Err(e@),
    }
}

} // verus!
