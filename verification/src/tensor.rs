//! Dense tensors in row-major order.
use crate::error::{Error, ShapeError};
use vstd::arithmetic::div_mod::lemma_fundamental_div_mod_converse;
use vstd::prelude::*;

verus! {

/// The number of elements of a tensor with the dimensions `dims`: their
/// product, which is 1 for no dimension at all.
pub open spec fn numel(dims: Seq<usize>) -> nat
    decreases dims.len(),
{
    if dims.len() == 0 {
        1
    } else {
        numel(dims.drop_last()) * (dims.last() as nat)
    }
}

/// A tensor as a mathematical value: its dimensions, outermost first, and its
/// elements in row-major order.
pub struct TensorView<T> {
    pub shape: Seq<usize>,
    pub data: Seq<T>,
}

impl<T> TensorView<T> {
    /// There are as many elements as the dimensions ask for.
    pub open spec fn wf(self) -> bool {
        self.data.len() == numel(self.shape)
    }

    /// The number of dimensions.
    pub open spec fn rank(self) -> nat {
        self.shape.len()
    }

    /// The extent of the trailing dimension.
    pub open spec fn width(self) -> nat
        recommends
            self.rank() > 0,
    {
        self.shape.last() as nat
    }

    /// The dimensions before the trailing one.
    pub open spec fn leading(self) -> Seq<usize>
        recommends
            self.rank() > 0,
    {
        self.shape.drop_last()
    }

    /// The number of rows: the product of the leading dimensions.
    pub open spec fn rows(self) -> nat
        recommends
            self.rank() > 0,
    {
        numel(self.leading())
    }

    /// Row `r`: `width()` consecutive elements.
    pub open spec fn row(self, r: int) -> Seq<T>
        recommends
            self.rank() > 0,
            0 <= r < self.rows(),
    {
        self.data.subrange(r * self.width(), (r + 1) * self.width())
    }
}

/// If one dimension is zero, there are no elements.
pub proof fn lemma_numel_zero(dims: Seq<usize>, i: int)
    requires
        0 <= i < dims.len(),
        dims[i] == 0,
    ensures
        numel(dims) == 0,
    decreases dims.len(),
{
    if i < dims.len() - 1 {
        lemma_numel_zero(dims.drop_last(), i);
        assert(numel(dims.drop_last()) * (dims.last() as nat) == 0) by (nonlinear_arith)
            requires
                numel(dims.drop_last()) == 0,
        ;
    } else {
        assert(numel(dims.drop_last()) * (dims.last() as nat) == 0) by (nonlinear_arith)
            requires
                dims.last() == 0,
        ;
    }
}

/// One more dimension multiplies the count by its extent.
pub proof fn lemma_numel_take(dims: Seq<usize>, i: int)
    requires
        0 <= i < dims.len(),
    ensures
        numel(dims.take(i + 1)) == numel(dims.take(i)) * (dims[i] as nat),
{
    assert(dims.take(i + 1).drop_last() =~= dims.take(i));
}

/// With no dimension zero, the count over a prefix is at least 1 and at most
/// the count over all.
pub proof fn lemma_numel_prefix(dims: Seq<usize>, i: int)
    requires
        0 <= i <= dims.len(),
        forall|k: int| 0 <= k < dims.len() ==> dims[k] > 0,
    ensures
        1 <= numel(dims.take(i)) <= numel(dims),
    decreases dims.len() - i,
{
    if i == dims.len() {
        assert(dims.take(i) =~= dims);
        lemma_numel_positive(dims);
    } else {
        lemma_numel_prefix(dims, i + 1);
        lemma_numel_take(dims, i);
        let a = numel(dims.take(i));
        let d = dims[i] as nat;
        assert(1 <= a <= a * d) by (nonlinear_arith)
            requires
                1 <= a * d,
                d >= 1,
        ;
    }
}

/// With no dimension zero, there is at least one element.
pub proof fn lemma_numel_positive(dims: Seq<usize>)
    requires
        forall|k: int| 0 <= k < dims.len() ==> dims[k] > 0,
    ensures
        numel(dims) >= 1,
    decreases dims.len(),
{
    if dims.len() > 0 {
        lemma_numel_positive(dims.drop_last());
        assert(numel(dims.drop_last()) * (dims.last() as nat) >= 1) by (nonlinear_arith)
            requires
                numel(dims.drop_last()) >= 1,
                dims.last() >= 1,
        ;
    }
}

/// The product of the first `n` of `dims`, if it can be addressed.
pub(crate) fn checked_numel(dims: &Vec<usize>, n: usize) -> (r: Option<usize>)
    requires
        n <= dims@.len(),
    ensures
        match r {
            Some(k) => k == numel(dims@.take(n as int)),
            None => numel(dims@.take(n as int)) > usize::MAX,
        },
{
    let ghost head = dims@.take(n as int);
    let mut i: usize = 0;
    while i < n
        invariant
            i <= n <= dims@.len(),
            head == dims@.take(n as int),
            forall|k: int| 0 <= k < i ==> head[k] > 0,
        decreases n - i,
    {
        if dims[i] == 0 {
            proof {
                lemma_numel_zero(head, i as int);
            }
            return Some(0);
        }
        i += 1;
    }
    let mut acc: usize = 1;
    let mut j: usize = 0;
    while j < n
        invariant
            j <= n <= dims@.len(),
            head == dims@.take(n as int),
            forall|k: int| 0 <= k < n ==> head[k] > 0,
            acc == numel(head.take(j as int)),
        decreases n - j,
    {
        proof {
            lemma_numel_take(head, j as int);
            lemma_numel_prefix(head, j + 1);
        }
        match acc.checked_mul(dims[j]) {
            Some(next) => {
                acc = next;
            },
            None => {
                return None;
            },
        }
        j += 1;
    }
    proof {
        assert(head.take(n as int) =~= head);
    }
    Some(acc)
}

/// A dense tensor: dimensions, outermost first, and elements in row-major
/// order, as many as the dimensions ask for.
#[derive(Debug)]
pub struct Tensor<T> {
    shape: Vec<usize>,
    data: Vec<T>,
}

impl<T> View for Tensor<T> {
    type V = TensorView<T>;

    closed spec fn view(&self) -> TensorView<T> {
        TensorView { shape: self.shape@, data: self.data@ }
    }
}

impl<T> Tensor<T> {
    /// Every tensor holds as many elements as its dimensions ask for.
    #[verifier::type_invariant]
    pub open spec fn inv(self) -> bool {
        self@.wf()
    }

    /// The tensor with the dimensions `shape` and the elements `data`, if
    /// `data` holds as many as `shape` asks for.
    pub fn new(shape: Vec<usize>, data: Vec<T>) -> (r: Result<Self, Error>)
        ensures
            match r {
                Ok(t) => t@ == (TensorView { shape: shape@, data: data@ }) && t@.wf(),
                Err(e) => e == Error::Shape(ShapeError::Len { actual: data.len() })
                    && data@.len() != numel(shape@),
            },
    {
        let n: usize = shape.len();
        let count = checked_numel(&shape, n);
        proof {
            assert(shape@.take(n as int) =~= shape@);
        }
        if count == Some(data.len()) {
            Ok(Tensor { shape, data })
        } else {
            Err(Error::Shape(ShapeError::Len { actual: data.len() }))
        }
    }

    /// The tensor with the dimensions `shape` and the elements `data`, which
    /// are known to be as many as `shape` asks for.
    pub(crate) fn from_parts(shape: Vec<usize>, data: Vec<T>) -> (r: Self)
        requires
            data@.len() == numel(shape@),
        ensures
            r@ == (TensorView { shape: shape@, data: data@ }),
            r@.wf(),
    {
        Tensor { shape, data }
    }

    /// The dimensions, outermost first.
    pub fn shape(&self) -> (r: &Vec<usize>)
        ensures
            r@ == self@.shape,
            self@.wf(),
    {
        proof {
            use_type_invariant(self);
        }
        &self.shape
    }

    /// The elements in row-major order.
    pub fn data(&self) -> (r: &Vec<T>)
        ensures
            r@ == self@.data,
            self@.wf(),
    {
        proof {
            use_type_invariant(self);
        }
        &self.data
    }

    /// The number of dimensions.
    pub fn rank(&self) -> (r: usize)
        ensures
            r == self@.rank(),
            self@.wf(),
    {
        proof {
            use_type_invariant(self);
        }
        self.shape.len()
    }
}

/// A copy of `v`.
pub(crate) fn copy_elems<T: Copy>(v: &Vec<T>) -> (r: Vec<T>)
    ensures
        r@ == v@,
{
    let mut out: Vec<T> = Vec::new();
    let mut i: usize = 0;
    while i < v.len()
        invariant
            i <= v@.len(),
            out@ == v@.take(i as int),
        decreases v@.len() - i,
    {
        out.push(v[i]);
        proof {
            assert(out@ =~= v@.take(i + 1));
        }
        i += 1;
    }
    proof {
        assert(v@.take(v@.len() as int) =~= v@);
    }
    out
}

/// Positions `r * w + i` with `i < w` lie in row `r` of a `rows` by `w` layout.
pub proof fn lemma_row_major(rows: int, w: int, r: int, i: int)
    requires
        0 <= r < rows,
        0 <= i < w,
    ensures
        0 <= r * w + i < rows * w,
        (r * w + i) / w == r,
        (r * w + i) % w == i,
        (r + 1) * w <= rows * w,
        (r + 1) * w == r * w + w,
        0 <= r * w,
{
    assert(0 <= r * w && (r + 1) * w <= rows * w && (r + 1) * w == r * w + w)
        by (nonlinear_arith)
        requires
            0 <= r < rows,
            0 < w,
    ;
    lemma_fundamental_div_mod_converse(r * w + i, w, r, i);
}

/// Row `r` of a `rows` by `w` layout starts at `r * w` and ends, `w` further,
/// within the layout.
pub proof fn lemma_row_bounds(rows: int, w: int, r: int)
    requires
        0 <= r < rows,
        0 <= w,
    ensures
        0 <= r * w,
        (r + 1) * w == r * w + w,
        r * w + w <= rows * w,
{
    assert(0 <= r * w && (r + 1) * w <= rows * w && (r + 1) * w == r * w + w)
        by (nonlinear_arith)
        requires
            0 <= r < rows,
            0 <= w,
    ;
}

/// A well-formed tensor with at least one dimension holds `rows * width`
/// elements.
pub proof fn lemma_rows_width<T>(x: TensorView<T>)
    requires
        x.wf(),
        x.rank() > 0,
    ensures
        x.data.len() == x.rows() * x.width(),
{
}

/// A copy of `shape` with its trailing extent replaced by `last`.
pub(crate) fn with_trailing(shape: &Vec<usize>, last: usize) -> (r: Vec<usize>)
    requires
        shape@.len() > 0,
    ensures
        r@ == shape@.drop_last().push(last),
{
    let mut out = copy_elems(shape);
    out.pop();
    out.push(last);
    proof {
        assert(out@ =~= shape@.drop_last().push(last));
    }
    out
}

impl<T: Copy> Tensor<T> {
    /// A tensor equal to this one, with storage of its own.
    pub fn duplicate(&self) -> (r: Self)
        ensures
            r@ == self@,
            r@.wf(),
    {
        proof {
            use_type_invariant(self);
        }
        Tensor { shape: copy_elems(&self.shape), data: copy_elems(&self.data) }
    }
}

} // verus!
