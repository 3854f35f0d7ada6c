//! Elementwise operations on tensors.
use crate::error::{view_result, Error, ErrorView, ShapeError};
use crate::scalar::{gated, spec_gated, spec_silu, Scalar};
use crate::tensor::{
    lemma_row_bounds, lemma_row_major, lemma_rows_width, numel, with_trailing, Tensor,
    TensorView,
};
use vstd::prelude::*;

verus! {

/// The gated nonlinearity on one vector of even length: element `i` is
/// `silu(gate) * value`, with `gate` element `i` of the first half of `v` and
/// `value` element `i` of the second.
pub open spec fn spec_swiglu_row<T: Scalar>(v: Seq<T>) -> Seq<T> {
    let half = (v.len() / 2) as int;
    Seq::new(half as nat, |i: int| spec_gated(v[i], v[half + i]))
}

/// Element `k` of the gated tensor made from `x`, whose rows are `2 * half`
/// wide: with `k = r * half + i`, the first half of row `r` gates its second
/// half at position `i`.
pub open spec fn spec_swiglu_elem<T: Scalar>(x: TensorView<T>, half: int, k: int) -> T {
    let r = k / half;
    let i = k % half;
    spec_gated(x.data[r * (2 * half) + i], x.data[r * (2 * half) + half + i])
}

/// The gated nonlinearity as a function of the tensor's view.
///
/// The trailing dimension, of even extent `2 * half`, is split in the middle
/// into a gate half and a value half. The result has the same leading
/// dimensions and the trailing extent `half`; each of its elements is
/// `silu(gate) * value`. A tensor without dimensions, or with an odd trailing
/// extent, is refused.
pub open spec fn spec_swiglu<T: Scalar>(x: TensorView<T>) -> Result<TensorView<T>, ErrorView> {
    if x.rank() == 0 {
        Err(ErrorView::Shape(ShapeError::Rank { expected: 1, actual: 0 }))
    } else if x.width() % 2 != 0 {
        Err(ErrorView::Shape(ShapeError::Odd { actual: x.shape.last() }))
    } else {
        let half = (x.width() / 2) as int;
        Ok(
            TensorView {
                shape: x.leading().push(half as usize),
                data: Seq::new(x.rows() * (half as nat), |k: int| spec_swiglu_elem(x, half, k)),
            },
        )
    }
}

/// The gated nonlinearity (SwiGLU): splits the trailing dimension of `x` in
/// two halves and returns `silu(gate) * value`, element by element.
pub fn swiglu<T: Scalar>(x: &Tensor<T>) -> (r: Result<Tensor<T>, Error>)
    ensures
        view_result(r) == spec_swiglu(x@),
        r matches Ok(t) ==> t@.wf(),
{
    let shape = x.shape();
    let data = x.data();
    let rank: usize = shape.len();
    if rank == 0 {
        return Err(Error::Shape(ShapeError::Rank { expected: 1, actual: 0 }));
    }
    let width: usize = shape[rank - 1];
    if width % 2 != 0 {
        return Err(Error::Shape(ShapeError::Odd { actual: width }));
    }
    let half: usize = width / 2;
    let out_shape = with_trailing(shape, half);
    let mut out: Vec<T> = Vec::new();
    proof {
        lemma_rows_width(x@);
        assert(out_shape@.drop_last() =~= x@.leading());
        assert(numel(out_shape@) == x@.rows() * (half as nat));
    }
    if half == 0 {
        proof {
            assert(x@.rows() * (half as nat) == 0) by (nonlinear_arith)
                requires
                    half == 0,
            ;
            assert(out@ =~= Seq::new(
                x@.rows() * (half as nat),
                |k: int| spec_swiglu_elem(x@, half as int, k),
            ));
        }
        return Ok(Tensor::from_parts(out_shape, out));
    }
    let rows: usize = data.len() / width;
    proof {
        let n = x@.rows() as int;
        let w = width as int;
        assert((n * w) / w == n) by (nonlinear_arith)
            requires
                w > 0,
                n >= 0,
        ;
        assert(rows * width == data@.len());
    }
    let mut r: usize = 0;
    while r < rows
        invariant
            r <= rows,
            x@.rank() > 0,
            rows == x@.rows(),
            width == 2 * half,
            half > 0,
            data@ == x@.data,
            data@.len() == rows * width,
            rows * width <= usize::MAX,
            out@.len() == r * half,
            forall|k: int| 0 <= k < out@.len() ==> out@[k] == spec_swiglu_elem(x@, half as int, k),
        decreases rows - r,
    {
        let mut i: usize = 0;
        proof {
            lemma_row_major(rows as int, width as int, r as int, 0);
            lemma_row_major(rows as int, half as int, r as int, 0);
        }
        let base: usize = r * width;
        while i < half
            invariant
                i <= half,
                r < rows,
                x@.rank() > 0,
                rows == x@.rows(),
                width == 2 * half,
                half > 0,
                base == r * width,
                data@ == x@.data,
                data@.len() == rows * width,
                rows * width <= usize::MAX,
                out@.len() == r * half + i,
                forall|k: int|
                    0 <= k < out@.len() ==> out@[k] == spec_swiglu_elem(x@, half as int, k),
            decreases half - i,
        {
            proof {
                lemma_row_major(rows as int, width as int, r as int, i as int);
                lemma_row_major(rows as int, width as int, r as int, half + i);
                lemma_row_major(rows as int, half as int, r as int, i as int);
                assert(r * (2 * half) == r * width) by (nonlinear_arith)
                    requires
                        width == 2 * half,
                ;
            }
            let g = data[base + i];
            let v = data[base + half + i];
            out.push(gated(g, v));
            i += 1;
        }
        proof {
            lemma_row_major(rows as int, half as int, r as int, 0);
        }
        r += 1;
    }
    proof {
        assert(out@ =~= Seq::new(
            x@.rows() * (half as nat),
            |k: int| spec_swiglu_elem(x@, half as int, k),
        ));
    }
    Ok(Tensor::from_parts(out_shape, out))
}

/// The gated nonlinearity, row by row: on a tensor with an even trailing
/// extent it succeeds, keeps the leading dimensions and halves the trailing
/// one, and element `i` of row `r` of the result is `silu(gate) * value`, with
/// `gate` element `i` of row `r` of `x` and `value` the element half a row
/// further.
pub proof fn lemma_swiglu_elementwise<T: Scalar>(x: TensorView<T>, r: int, i: int)
    requires
        x.wf(),
        x.rank() > 0,
        x.width() % 2 == 0,
        0 <= r < x.rows(),
        0 <= i < x.width() / 2,
    ensures
        spec_swiglu(x) is Ok,
        ({
            let y = spec_swiglu(x)->Ok_0;
            let half = (x.width() / 2) as int;
            &&& y.wf()
            &&& y.leading() == x.leading()
            &&& y.width() == half
            &&& y.row(r)[i] == spec_silu(x.row(r)[i]).spec_times(x.row(r)[half + i])
        }),
{
    let y = spec_swiglu(x)->Ok_0;
    let half = (x.width() / 2) as int;
    let w = x.width() as int;
    lemma_swiglu_shape(x);
    lemma_rows_width(x);
    lemma_row_major(x.rows() as int, half, r, i);
    lemma_row_major(x.rows() as int, w, r, i);
    lemma_row_major(x.rows() as int, w, r, half + i);
    assert(r * (2 * half) == r * w) by (nonlinear_arith)
        requires
            w == 2 * half,
    ;
    assert(y.row(r)[i] == y.data[r * half + i]);
    assert(y.data[r * half + i] == spec_swiglu_elem(x, half, r * half + i));
}

/// On a tensor with an even trailing extent the gated nonlinearity succeeds,
/// keeps the leading dimensions and halves the trailing one.
pub proof fn lemma_swiglu_shape<T: Scalar>(x: TensorView<T>)
    requires
        x.wf(),
        x.rank() > 0,
        x.width() % 2 == 0,
    ensures
        spec_swiglu(x) is Ok,
        ({
            let y = spec_swiglu(x)->Ok_0;
            &&& y.wf()
            &&& y.rank() == x.rank()
            &&& y.leading() == x.leading()
            &&& y.width() == x.width() / 2
        }),
{
    let y = spec_swiglu(x)->Ok_0;
    assert(y.shape.drop_last() =~= x.leading());
}

/// The gated nonlinearity acts on each row by itself: row `r` of the result
/// is the gated row `r` of `x`.
pub proof fn lemma_swiglu_row<T: Scalar>(x: TensorView<T>, r: int)
    requires
        x.wf(),
        x.rank() > 0,
        x.width() % 2 == 0,
        0 <= r < x.rows(),
    ensures
        spec_swiglu(x) is Ok,
        spec_swiglu(x)->Ok_0.row(r) == spec_swiglu_row(x.row(r)),
{
    let y = spec_swiglu(x)->Ok_0;
    let half = (x.width() / 2) as int;
    lemma_swiglu_shape(x);
    lemma_rows_width(x);
    lemma_row_bounds(x.rows() as int, half, r);
    lemma_row_bounds(x.rows() as int, x.width() as int, r);
    assert forall|i: int| 0 <= i < half implies y.row(r)[i] == spec_swiglu_row(x.row(r))[i] by {
        lemma_swiglu_elementwise(x, r, i);
    }
    assert(y.row(r) =~= spec_swiglu_row(x.row(r)));
}

} // verus!
