//! The learned affine map between two widths.
use crate::builder::{Builder, BuilderView};
use crate::error::{view_result, Error, ErrorView, ShapeError};
use crate::scalar::Scalar;
use crate::tensor::{
    checked_numel, lemma_row_bounds, lemma_row_major, lemma_rows_width, numel, with_trailing,
    Tensor, TensorView,
};
use vstd::prelude::*;

verus! {

/// The inner product of `a` and `b`, summed from the scalar's zero, from the
/// first position to the last.
pub open spec fn spec_dot<T: Scalar>(a: Seq<T>, b: Seq<T>) -> T
    recommends
        a.len() == b.len(),
    decreases a.len(),
{
    if a.len() == 0 {
        T::spec_zero()
    } else {
        spec_dot(a.drop_last(), b.drop_last()).spec_plus(a.last().spec_times(b.last()))
    }
}

/// A projection as a mathematical value: the weight, of dimensions
/// `[out_features, in_features]`, and the bias, of dimensions
/// `[out_features]`, if it has one.
pub struct LinearView<T> {
    pub weight: TensorView<T>,
    pub bias: Option<TensorView<T>>,
}

impl<T> LinearView<T> {
    /// The weight is a matrix, and the bias, if any, a vector with one element
    /// for each of its rows.
    pub open spec fn wf(self) -> bool {
        &&& self.weight.wf()
        &&& self.weight.rank() == 2
        &&& match self.bias {
            Some(b) => b.wf() && b.rank() == 1 && b.shape[0] == self.weight.shape[0],
            None => true,
        }
    }

    /// The width that the projection maps to.
    pub open spec fn out_features(self) -> nat {
        self.weight.shape[0] as nat
    }

    /// The width that the projection maps from.
    pub open spec fn in_features(self) -> nat {
        self.weight.shape[1] as nat
    }

}

impl<T: Scalar> LinearView<T> {
    /// Element `j` of the projection of the vector `v`: the inner product of
    /// `v` and row `j` of the weight, plus element `j` of the bias where there
    /// is one.
    pub open spec fn apply_at(self, v: Seq<T>, j: int) -> T {
        let d = spec_dot(v, self.weight.row(j));
        match self.bias {
            Some(b) => d.spec_plus(b.data[j]),
            None => d,
        }
    }

    /// The projection of the vector `v`, of `in_features` elements: a vector
    /// of `out_features` elements.
    pub open spec fn apply(self, v: Seq<T>) -> Seq<T> {
        Seq::new(self.out_features(), |j: int| self.apply_at(v, j))
    }

    /// Element `k` of the projection of `x`: with `k = r * out_features + j`,
    /// element `j` of the projection of row `r` of `x`.
    pub open spec fn elem(self, x: TensorView<T>, k: int) -> T {
        let r = k / (self.out_features() as int);
        let j = k % (self.out_features() as int);
        self.apply_at(x.row(r), j)
    }

    /// The projection of `x`.
    ///
    /// `x` needs at least one dimension, the trailing one of extent
    /// `in_features`. The result has the leading dimensions of `x` and the
    /// trailing extent `out_features`.
    pub open spec fn forward(self, x: TensorView<T>) -> Result<TensorView<T>, ErrorView> {
        if x.rank() == 0 {
            Err(ErrorView::Shape(ShapeError::Rank { expected: 1, actual: 0 }))
        } else if x.width() != self.in_features() {
            Err(
                ErrorView::Shape(
                    ShapeError::Dim { expected: self.weight.shape[1], actual: x.shape.last() },
                ),
            )
        } else if x.rows() * self.out_features() > usize::MAX {
            Err(ErrorView::Shape(ShapeError::TooLarge))
        } else {
            Ok(
                TensorView {
                    shape: x.leading().push(self.weight.shape[0]),
                    data: Seq::new(x.rows() * self.out_features(), |k: int| self.elem(x, k)),
                },
            )
        }
    }

    /// What binding a projection below `b` gives: the tensor called `weight`,
    /// which must be a matrix, and, if `has_bias`, the tensor called `bias`,
    /// which must be a vector as long as the weight has rows. The first thing
    /// that is missing or misshapen is the error.
    pub open spec fn from_builder(has_bias: bool, b: BuilderView<T>) -> Result<
        LinearView<T>,
        ErrorView,
    > {
        match b.get("weight"@) {
            Err(e) => Err(e),
            Ok(w) => if w.rank() != 2 {
                Err(ErrorView::Shape(ShapeError::Rank { expected: 2, actual: w.rank() as usize }))
            } else if !has_bias {
                Ok(LinearView { weight: w, bias: None })
            } else {
                match b.get("bias"@) {
                    Err(e) => Err(e),
                    Ok(v) => if v.rank() != 1 {
                        Err(
                            ErrorView::Shape(
                                ShapeError::Rank { expected: 1, actual: v.rank() as usize },
                            ),
                        )
                    } else if v.shape[0] != w.shape[0] {
                        Err(
                            ErrorView::Shape(
                                ShapeError::Dim { expected: w.shape[0], actual: v.shape[0] },
                            ),
                        )
                    } else {
                        Ok(LinearView { weight: w, bias: Some(v) })
                    },
                }
            },
        }
    }
}

/// A vector holds as many elements as its one dimension says, and a matrix
/// has as many rows as its first.
pub proof fn lemma_numel_one(dims: Seq<usize>)
    requires
        dims.len() == 1,
    ensures
        numel(dims) == dims[0],
{
    assert(dims.drop_last().len() == 0);
    assert(numel(dims.drop_last()) == 1);
    assert(numel(dims) == numel(dims.drop_last()) * (dims.last() as nat));
}

/// The inner product of `x[xoff .. xoff + n]` and `w[woff .. woff + n]`.
pub(crate) fn dot<T: Scalar>(x: &Vec<T>, xoff: usize, w: &Vec<T>, woff: usize, n: usize) -> (r: T)
    requires
        xoff + n <= x@.len(),
        woff + n <= w@.len(),
    ensures
        r == spec_dot(
            x@.subrange(xoff as int, xoff + n),
            w@.subrange(woff as int, woff + n),
        ),
{
    let mut acc = T::zero();
    let mut k: usize = 0;
    proof {
        assert(x@.len() == x.len() && w@.len() == w.len());
        assert(x@.subrange(xoff as int, xoff + 0) =~= Seq::<T>::empty());
        assert(w@.subrange(woff as int, woff + 0) =~= Seq::<T>::empty());
    }
    while k < n
        invariant
            k <= n,
            xoff + n <= x@.len() <= usize::MAX,
            woff + n <= w@.len() <= usize::MAX,
            acc == spec_dot(
                x@.subrange(xoff as int, xoff + k),
                w@.subrange(woff as int, woff + k),
            ),
        decreases n - k,
    {
        proof {
            let a = x@.subrange(xoff as int, xoff + k + 1);
            let b = w@.subrange(woff as int, woff + k + 1);
            assert(a.drop_last() =~= x@.subrange(xoff as int, xoff + k));
            assert(b.drop_last() =~= w@.subrange(woff as int, woff + k));
        }
        acc = acc.plus(x[xoff + k].times(w[woff + k]));
        k += 1;
    }
    acc
}

/// A learned affine map from vectors of one width to vectors of another: a
/// weight matrix and, if it has one, a bias vector, both its own.
#[derive(Debug)]
pub struct Linear<T> {
    weight: Tensor<T>,
    bias: Option<Tensor<T>>,
}

impl<T> View for Linear<T> {
    type V = LinearView<T>;

    closed spec fn view(&self) -> LinearView<T> {
        LinearView {
            weight: self.weight@,
            bias: match self.bias {
                Some(b) => Some(b@),
                None => None,
            },
        }
    }
}

impl<T> Linear<T> {
    /// Every projection is well formed.
    #[verifier::type_invariant]
    pub open spec fn inv(self) -> bool {
        self@.wf()
    }
}

impl<T: Scalar> Linear<T> {

    /// Binds a projection from the tensors called `weight` and, if
    /// `has_bias`, `bias` below `builder`, and keeps copies of them.
    pub fn from_builder(has_bias: bool, builder: &Builder<T>) -> (r: Result<Self, Error>)
        ensures
            view_result(r) == LinearView::from_builder(has_bias, builder@),
            r matches Ok(l) ==> l@.wf(),
    {
        let w = match builder.get("weight") {
            Ok(w) => w,
            Err(e) => {
                return Err(e);
            },
        };
        let rank: usize = w.rank();
        if rank != 2 {
            return Err(Error::Shape(ShapeError::Rank { expected: 2, actual: rank }));
        }
        if !has_bias {
            return Ok(Linear { weight: w.duplicate(), bias: None });
        }
        let v = match builder.get("bias") {
            Ok(v) => v,
            Err(e) => {
                return Err(e);
            },
        };
        let vrank: usize = v.rank();
        if vrank != 1 {
            return Err(Error::Shape(ShapeError::Rank { expected: 1, actual: vrank }));
        }
        let rows: usize = w.shape()[0];
        let len: usize = v.shape()[0];
        if len != rows {
            return Err(Error::Shape(ShapeError::Dim { expected: rows, actual: len }));
        }
        Ok(Linear { weight: w.duplicate(), bias: Some(v.duplicate()) })
    }

    /// The projection of `x`: each row of `x` times the transposed weight,
    /// plus the bias where there is one.
    #[verifier::loop_isolation(false)]
    pub fn forward(&self, x: &Tensor<T>) -> (r: Result<Tensor<T>, Error>)
        ensures
            view_result(r) == self@.forward(x@),
            r matches Ok(t) ==> t@.wf(),
    {
        proof {
            use_type_invariant(self);
        }
        let shape = x.shape();
        let xdata = x.data();
        let rank: usize = shape.len();
        if rank == 0 {
            return Err(Error::Shape(ShapeError::Rank { expected: 1, actual: 0 }));
        }
        let wshape = self.weight.shape();
        let wdata = self.weight.data();
        let outf: usize = wshape[0];
        let inf: usize = wshape[1];
        let width: usize = shape[rank - 1];
        if width != inf {
            return Err(Error::Shape(ShapeError::Dim { expected: inf, actual: width }));
        }
        let lead = checked_numel(shape, rank - 1);
        let out_shape = with_trailing(shape, outf);
        let mut out: Vec<T> = Vec::new();
        let ghost goal = Seq::new(x@.rows() * (outf as nat), |k: int| self@.elem(x@, k));
        proof {
            assert(shape@.take(rank - 1) =~= x@.leading());
            assert(out_shape@.drop_last() =~= x@.leading());
            assert(numel(out_shape@) == x@.rows() * (outf as nat));
            lemma_rows_width(x@);
            lemma_rows_width(self@.weight);
            assert(self@.weight.leading() =~= seq![outf]);
            lemma_numel_one(self@.weight.leading());
        }
        if outf == 0 {
            proof {
                assert(x@.rows() * (outf as nat) == 0) by (nonlinear_arith)
                    requires
                        outf == 0,
                ;
                assert(out@ =~= goal);
            }
            return Ok(Tensor::from_parts(out_shape, out));
        }
        let rows: usize = match lead {
            Some(rows) => rows,
            None => {
                proof {
                    assert(x@.rows() * (outf as nat) > usize::MAX) by (nonlinear_arith)
                        requires
                            x@.rows() > usize::MAX,
                            outf >= 1,
                    ;
                }
                return Err(Error::Shape(ShapeError::TooLarge));
            },
        };
        if rows.checked_mul(outf).is_none() {
            return Err(Error::Shape(ShapeError::TooLarge));
        }
        proof {
            assert(xdata@.len() == xdata.len() && wdata@.len() == wdata.len());
            assert(xdata@.len() == rows * inf);
            assert(wdata@.len() == outf * inf);
        }
        let mut r: usize = 0;
        while r < rows
            invariant
                r <= rows,
                out@.len() == r * outf,
                forall|k: int| 0 <= k < out@.len() ==> out@[k] == self@.elem(x@, k),
            decreases rows - r,
        {
            proof {
                lemma_row_bounds(rows as int, inf as int, r as int);
                lemma_row_bounds(rows as int, outf as int, r as int);
            }
            let xoff: usize = r * inf;
            let mut j: usize = 0;
            while j < outf
                invariant
                    j <= outf,
                    out@.len() == r * outf + j,
                    forall|k: int| 0 <= k < out@.len() ==> out@[k] == self@.elem(x@, k),
                decreases outf - j,
            {
                proof {
                    lemma_row_bounds(outf as int, inf as int, j as int);
                    lemma_row_major(rows as int, outf as int, r as int, j as int);
                }
                let d = dot(xdata, xoff, wdata, j * inf, inf);
                let y = match &self.bias {
                    Some(b) => {
                        proof {
                            lemma_numel_one(b@.shape);
                        }
                        d.plus(b.data()[j])
                    },
                    None => d,
                };
                proof {
                    assert(y == self@.elem(x@, r * outf + j));
                }
                out.push(y);
                j += 1;
            }
            r += 1;
        }
        proof {
            assert(out@ =~= goal);
        }
        Ok(Tensor::from_parts(out_shape, out))
    }

    /// The weight matrix, of dimensions `[out_features, in_features]`.
    pub fn weight(&self) -> (r: &Tensor<T>)
        ensures
            r@ == self@.weight,
            self@.wf(),
    {
        proof {
            use_type_invariant(self);
        }
        &self.weight
    }

    /// The bias vector, if there is one.
    pub fn bias(&self) -> (r: Option<&Tensor<T>>)
        ensures
            match r {
                Some(b) => self@.bias == Some(b@),
                None => self@.bias is None,
            },
            self@.wf(),
    {
        proof {
            use_type_invariant(self);
        }
        self.bias.as_ref()
    }

    /// The width that the projection maps to.
    pub fn out_features(&self) -> (r: usize)
        ensures
            r == self@.out_features(),
            self@.wf(),
    {
        proof {
            use_type_invariant(self);
        }
        self.weight.shape()[0]
    }

    /// The width that the projection maps from.
    pub fn in_features(&self) -> (r: usize)
        ensures
            r == self@.in_features(),
            self@.wf(),
    {
        proof {
            use_type_invariant(self);
        }
        self.weight.shape()[1]
    }
}

/// A projection accepts every tensor whose trailing extent is its
/// `in_features` and whose result can be addressed: the result keeps the
/// leading dimensions and has the trailing extent `out_features`.
pub proof fn lemma_forward_shape<T: Scalar>(l: LinearView<T>, x: TensorView<T>)
    requires
        l.wf(),
        x.wf(),
        x.rank() > 0,
        x.width() == l.in_features(),
        x.rows() * l.out_features() <= usize::MAX,
    ensures
        l.forward(x) is Ok,
        ({
            let y = l.forward(x)->Ok_0;
            &&& y.wf()
            &&& y.rank() == x.rank()
            &&& y.leading() == x.leading()
            &&& y.width() == l.out_features()
        }),
{
    let y = l.forward(x)->Ok_0;
    assert(y.shape.drop_last() =~= x.leading());
}

/// A projection acts on each row by itself: row `r` of the result is the
/// projection of row `r` of `x`.
pub proof fn lemma_forward_row<T: Scalar>(l: LinearView<T>, x: TensorView<T>, r: int)
    requires
        l.wf(),
        x.wf(),
        x.rank() > 0,
        x.width() == l.in_features(),
        x.rows() * l.out_features() <= usize::MAX,
        0 <= r < x.rows(),
    ensures
        l.forward(x) is Ok,
        l.forward(x)->Ok_0.row(r) == l.apply(x.row(r)),
{
    let y = l.forward(x)->Ok_0;
    let out = l.out_features() as int;
    lemma_forward_shape(l, x);
    lemma_row_bounds(x.rows() as int, out, r);
    assert forall|j: int| 0 <= j < out implies y.row(r)[j] == l.apply(x.row(r))[j] by {
        lemma_row_major(x.rows() as int, out, r, j);
        assert(y.row(r)[j] == y.data[r * out + j]);
        assert(y.data[r * out + j] == l.elem(x, r * out + j));
    }
    assert(y.row(r) =~= l.apply(x.row(r)));
}

} // verus!
