//! The feed-forward block.
use crate::builder::{join, Builder, BuilderView};
use crate::error::{view_result, Error, ErrorView, ShapeError};
use crate::functional::{
    lemma_swiglu_row, lemma_swiglu_shape, spec_swiglu, spec_swiglu_row, swiglu,
};
use crate::linear::{lemma_forward_shape, Linear, LinearView};
use crate::scalar::Scalar;
use crate::tensor::{Tensor, TensorView};
use vstd::prelude::*;

verus! {

/// A feed-forward block as a mathematical value: its two projections.
pub struct MLPView<T> {
    pub gate_up_proj: LinearView<T>,
    pub down_proj: LinearView<T>,
}

impl<T> MLPView<T> {
    /// Both projections are well formed.
    pub open spec fn wf(self) -> bool {
        self.gate_up_proj.wf() && self.down_proj.wf()
    }

    /// The width of the model: what the up-projection maps from.
    pub open spec fn hidden_size(self) -> nat {
        self.gate_up_proj.in_features()
    }

    /// The intermediate width: what the down-projection maps from.
    pub open spec fn ffn_size(self) -> nat {
        self.down_proj.in_features()
    }

    /// The projections fit each other: the first maps to twice the
    /// intermediate width, the second back to the width of the model.
    pub open spec fn consistent(self) -> bool {
        &&& self.gate_up_proj.out_features() == 2 * self.ffn_size()
        &&& self.down_proj.out_features() == self.hidden_size()
    }
}

impl<T: Scalar> MLPView<T> {
    /// What binding a block below `b` gives: the projection bound below
    /// `gate_up_proj`, then the one bound below `down_proj`, both with a bias.
    /// The error of the first that fails is the error of the whole.
    pub open spec fn from_builder(b: BuilderView<T>) -> Result<MLPView<T>, ErrorView> {
        match LinearView::from_builder(true, b.pp("gate_up_proj"@)) {
            Err(e) => Err(e),
            Ok(gate_up_proj) => match LinearView::from_builder(true, b.pp("down_proj"@)) {
                Err(e) => Err(e),
                Ok(down_proj) => Ok(MLPView { gate_up_proj, down_proj }),
            },
        }
    }

    /// The block applied to one vector of the model's width: the
    /// down-projection of the gated up-projection of `v`.
    pub open spec fn apply(self, v: Seq<T>) -> Seq<T> {
        self.down_proj.apply(spec_swiglu_row(self.gate_up_proj.apply(v)))
    }

    /// The block applied to `x`: the up-projection, the gated nonlinearity,
    /// the down-projection. The error of the first step that fails is the
    /// error of the whole.
    pub open spec fn forward(self, x: TensorView<T>) -> Result<TensorView<T>, ErrorView> {
        match self.gate_up_proj.forward(x) {
            Err(e) => Err(e),
            Ok(up) => match spec_swiglu(up) {
                Err(e) => Err(e),
                Ok(gated) => self.down_proj.forward(gated),
            },
        }
    }
}

/// The feed-forward block of one decoder layer: a fused projection to both
/// halves, gate and value, and a projection back. It owns both, and nothing
/// changes them once it is built.
#[derive(Debug)]
pub struct MLP<T> {
    gate_up_proj: Linear<T>,
    down_proj: Linear<T>,
}

impl<T> View for MLP<T> {
    type V = MLPView<T>;

    closed spec fn view(&self) -> MLPView<T> {
        MLPView { gate_up_proj: self.gate_up_proj@, down_proj: self.down_proj@ }
    }
}

impl<T> MLP<T> {
    /// Every block holds well-formed projections.
    #[verifier::type_invariant]
    pub open spec fn inv(self) -> bool {
        self@.wf()
    }
}

impl<T: Scalar> MLP<T> {
    /// Binds the block from the names `gate_up_proj` and `down_proj` below
    /// `builder`, each with its weight and its bias.
    pub fn from_builder(builder: &Builder<T>) -> (r: Result<Self, Error>)
        ensures
            view_result(r) == MLPView::from_builder(builder@),
            r matches Ok(m) ==> m@.wf(),
    {
        let gate_up_proj = match Linear::from_builder(true, &builder.pp("gate_up_proj")) {
            Ok(l) => l,
            Err(e) => {
                return Err(e);
            },
        };
        let down_proj = match Linear::from_builder(true, &builder.pp("down_proj")) {
            Ok(l) => l,
            Err(e) => {
                return Err(e);
            },
        };
        Ok(MLP { gate_up_proj, down_proj })
    }

    /// Applies the block to `x`. Neither the block nor `x` is changed.
    pub fn forward(&self, x: &Tensor<T>) -> (r: Result<Tensor<T>, Error>)
        ensures
            view_result(r) == self@.forward(x@),
            r matches Ok(t) ==> t@.wf(),
    {
        let up = match self.gate_up_proj.forward(x) {
            Ok(t) => t,
            Err(e) => {
                return Err(e);
            },
        };
        let gated = match swiglu(&up) {
            Ok(t) => t,
            Err(e) => {
                return Err(e);
            },
        };
        self.down_proj.forward(&gated)
    }

    /// The width of the model.
    pub fn hidden_size(&self) -> (r: usize)
        ensures
            r == self@.hidden_size(),
    {
        self.gate_up_proj.in_features()
    }

    /// The intermediate width.
    pub fn ffn_size(&self) -> (r: usize)
        ensures
            r == self@.ffn_size(),
    {
        self.down_proj.in_features()
    }

    /// The fused projection to both halves, gate and value.
    pub fn gate_up_proj(&self) -> (r: &Linear<T>)
        ensures
            r@ == self@.gate_up_proj,
            r@.wf(),
    {
        proof {
            use_type_invariant(self);
        }
        &self.gate_up_proj
    }

    /// The projection back to the width of the model.
    pub fn down_proj(&self) -> (r: &Linear<T>)
        ensures
            r@ == self@.down_proj,
            r@.wf(),
    {
        proof {
            use_type_invariant(self);
        }
        &self.down_proj
    }
}

/// The store behind `b` holds, under the name `name` of the projection
/// `layer` below `b`, a well-formed tensor with the dimensions `shape`.
pub open spec fn stored<T>(
    b: BuilderView<T>,
    layer: Seq<char>,
    name: Seq<char>,
    shape: Seq<usize>,
) -> bool {
    let path = join(join(b.prefix, layer), name);
    &&& b.store.contains_key(path)
    &&& b.store[path].wf()
    &&& b.store[path].shape == shape
}

/// From a store that holds, below the builder's path, an up-projection of
/// dimensions `[2 * ffn, hidden]` with a bias of `[2 * ffn]`, and a
/// down-projection of `[hidden, ffn]` with a bias of `[hidden]`, the block is
/// bound: its projections are those tensors, the first maps `hidden` to
/// `2 * ffn` and the second `ffn` to `hidden`.
pub proof fn lemma_from_builder_binds<T: Scalar>(b: BuilderView<T>, hidden: usize, ffn: usize)
    requires
        2 * ffn <= usize::MAX,
        stored(b, "gate_up_proj"@, "weight"@, seq![(2 * ffn) as usize, hidden]),
        stored(b, "gate_up_proj"@, "bias"@, seq![(2 * ffn) as usize]),
        stored(b, "down_proj"@, "weight"@, seq![hidden, ffn]),
        stored(b, "down_proj"@, "bias"@, seq![hidden]),
    ensures
        MLPView::from_builder(b) is Ok,
        ({
            let m = MLPView::from_builder(b)->Ok_0;
            &&& m.wf()
            &&& m.consistent()
            &&& m.hidden_size() == hidden
            &&& m.ffn_size() == ffn
            &&& m.gate_up_proj.in_features() == hidden
            &&& m.gate_up_proj.out_features() == 2 * ffn
            &&& m.down_proj.in_features() == ffn
            &&& m.down_proj.out_features() == hidden
            &&& m.gate_up_proj.weight == b.store[join(join(b.prefix, "gate_up_proj"@), "weight"@)]
            &&& m.gate_up_proj.bias == Some(
                b.store[join(join(b.prefix, "gate_up_proj"@), "bias"@)],
            )
            &&& m.down_proj.weight == b.store[join(join(b.prefix, "down_proj"@), "weight"@)]
            &&& m.down_proj.bias == Some(b.store[join(join(b.prefix, "down_proj"@), "bias"@)])
        }),
{
}

/// Where the up-projection can be bound and the store holds no weight for
/// the down-projection, binding the block fails, and the error names the
/// full path of that weight.
pub proof fn lemma_from_builder_missing_down<T: Scalar>(b: BuilderView<T>)
    requires
        LinearView::from_builder(true, b.pp("gate_up_proj"@)) is Ok,
        !b.store.contains_key(join(join(b.prefix, "down_proj"@), "weight"@)),
    ensures
        MLPView::from_builder(b) == Err::<MLPView<T>, ErrorView>(
            ErrorView::WeightLoad { path: join(join(b.prefix, "down_proj"@), "weight"@) },
        ),
{
}

/// Where the store holds no weight for the up-projection, binding the block
/// fails, and the error names the full path of that weight.
pub proof fn lemma_from_builder_missing_gate_up<T: Scalar>(b: BuilderView<T>)
    requires
        !b.store.contains_key(join(join(b.prefix, "gate_up_proj"@), "weight"@)),
    ensures
        MLPView::from_builder(b) == Err::<MLPView<T>, ErrorView>(
            ErrorView::WeightLoad { path: join(join(b.prefix, "gate_up_proj"@), "weight"@) },
        ),
{
}

/// An input without dimensions, or whose trailing extent is not the width of
/// the model, is refused with a shape error, whatever else it holds.
pub proof fn lemma_forward_rejects_width<T: Scalar>(m: MLPView<T>, x: TensorView<T>)
    requires
        x.rank() == 0 || x.width() != m.hidden_size(),
    ensures
        m.forward(x) is Err,
        m.forward(x)->Err_0.is_shape(),
        x.rank() == 0 ==> m.forward(x)->Err_0 == ErrorView::Shape(
            ShapeError::Rank { expected: 1, actual: 0 },
        ),
        x.rank() > 0 ==> m.forward(x)->Err_0 == ErrorView::Shape(
            ShapeError::Dim { expected: m.gate_up_proj.weight.shape[1], actual: x.shape.last() },
        ),
{
}

/// Whenever the block refuses an input, the error is a shape error.
pub proof fn lemma_forward_errors_are_shape<T: Scalar>(m: MLPView<T>, x: TensorView<T>)
    ensures
        m.forward(x) is Err ==> m.forward(x)->Err_0.is_shape(),
{
}

/// The result of the block is a function of its weights and its input: two
/// applications to the same input, each with the result that
/// [`MLP::forward`] promises, have the same result.
pub proof fn lemma_forward_deterministic<T: Scalar>(
    m: MLPView<T>,
    x: TensorView<T>,
    first: Result<TensorView<T>, ErrorView>,
    second: Result<TensorView<T>, ErrorView>,
)
    requires
        first == m.forward(x),
        second == m.forward(x),
    ensures
        first == second,
{
}

/// A block whose projections fit each other accepts every input whose
/// trailing extent is the width of the model, as long as the intermediate
/// activation and the result can be addressed, and the result has the
/// dimensions of the input.
pub proof fn lemma_forward_keeps_shape<T: Scalar>(m: MLPView<T>, x: TensorView<T>)
    requires
        m.wf(),
        m.consistent(),
        x.wf(),
        x.rank() > 0,
        x.width() == m.hidden_size(),
        x.rows() * (2 * m.ffn_size()) <= usize::MAX,
        x.rows() * m.hidden_size() <= usize::MAX,
    ensures
        m.forward(x) is Ok,
        m.forward(x)->Ok_0.wf(),
        m.forward(x)->Ok_0.shape == x.shape,
{
    lemma_forward_shape(m.gate_up_proj, x);
    let up = m.gate_up_proj.forward(x)->Ok_0;
    lemma_swiglu_shape(up);
    let gated = spec_swiglu(up)->Ok_0;
    lemma_forward_shape(m.down_proj, gated);
    let y = m.down_proj.forward(gated)->Ok_0;
    assert(y.shape =~= x.shape);
}

/// The block acts on each row by itself: row `r` of the result is the block
/// applied to row `r` of the input.
pub proof fn lemma_forward_row<T: Scalar>(m: MLPView<T>, x: TensorView<T>, r: int)
    requires
        m.wf(),
        m.consistent(),
        x.wf(),
        x.rank() > 0,
        x.width() == m.hidden_size(),
        x.rows() * (2 * m.ffn_size()) <= usize::MAX,
        x.rows() * m.hidden_size() <= usize::MAX,
        0 <= r < x.rows(),
    ensures
        m.forward(x) is Ok,
        m.forward(x)->Ok_0.row(r) == m.apply(x.row(r)),
{
    lemma_forward_shape(m.gate_up_proj, x);
    crate::linear::lemma_forward_row(m.gate_up_proj, x, r);
    let up = m.gate_up_proj.forward(x)->Ok_0;
    lemma_swiglu_shape(up);
    lemma_swiglu_row(up, r);
    let gated = spec_swiglu(up)->Ok_0;
    lemma_forward_shape(m.down_proj, gated);
    crate::linear::lemma_forward_row(m.down_proj, gated, r);
}

} // verus!
