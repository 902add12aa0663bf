//! Stride compatibility helpers for preflight checks and host I/O planning.
//!
//! Strides are expressed in element units (not bytes).

use vstd::prelude::*;

verus! {

/// A dimension as it contributes to a row-major stride: empty axes count as one.
pub open spec fn axis_factor(d: usize) -> nat {
    if d > 1 { d as nat } else { 1 }
}

/// Product of the axis factors of `dims` (1 for no dims).
pub open spec fn dims_product(dims: Seq<usize>) -> nat
    decreases dims.len(),
{
    if dims.len() == 0 {
        1
    } else {
        axis_factor(dims[0]) * dims_product(dims.drop_first())
    }
}

/// A value clamped to the `usize` range from above.
pub open spec fn clamp_usize(x: nat) -> usize {
    if x > usize::MAX { usize::MAX } else { x as usize }
}

/// The canonical row-major stride of axis `i`: the product of the (at least one)
/// extents of all later axes, saturated at `usize::MAX`.
pub open spec fn row_major_stride(shape: Seq<usize>, i: int) -> usize {
    clamp_usize(dims_product(shape.subrange(i + 1, shape.len() as int)))
}

/// The canonical row-major strides of `shape`.
pub open spec fn spec_contiguous_strides(shape: Seq<usize>) -> Seq<usize> {
    Seq::new(shape.len(), |i: int| row_major_stride(shape, i))
}

/// A coarse description of a stride pattern.
#[derive(Debug, Clone, Copy, PartialEq, Eq, Structural)]
pub enum StridePattern {
    /// Fully contiguous row-major layout.
    Contiguous,
    /// 2D with inner-most contiguous axis and a row pitch (in elements) on the outer axis.
    /// `row_pitch_elems >= cols` is required.
    InnerContiguous2D {
        /// Pitch between consecutive rows in elements (not bytes).
        row_pitch_elems: usize,
    },
    /// Any other non-supported or irregular stride pattern.
    Other,
}

/// What `describe` reports for a shape/strides pair.
pub open spec fn spec_describe(shape: Seq<usize>, strides: Seq<usize>) -> StridePattern {
    if shape.len() != strides.len() {
        StridePattern::Other
    } else if strides == spec_contiguous_strides(shape) {
        StridePattern::Contiguous
    } else if shape.len() == 2 && strides[1] == 1 && strides[0] >= shape[1] && shape[0] > 0
        && shape[1] > 0 {
        StridePattern::InnerContiguous2D { row_pitch_elems: strides[0] }
    } else {
        StridePattern::Other
    }
}

proof fn lemma_dims_product_positive(dims: Seq<usize>)
    ensures
        dims_product(dims) >= 1,
    decreases dims.len(),
{
    if dims.len() > 0 {
        lemma_dims_product_positive(dims.drop_first());
        assert(axis_factor(dims[0]) * dims_product(dims.drop_first()) >= 1) by (nonlinear_arith)
            requires
                axis_factor(dims[0]) >= 1,
                dims_product(dims.drop_first()) >= 1,
        ;
    }
}

/// Peeling the first axis off a suffix of the shape.
proof fn lemma_suffix_product_step(shape: Seq<usize>, i: int)
    requires
        0 <= i < shape.len(),
    ensures
        dims_product(shape.subrange(i, shape.len() as int)) == dims_product(
            shape.subrange(i + 1, shape.len() as int),
        ) * axis_factor(shape[i]),
{
    let s = shape.subrange(i, shape.len() as int);
    let rest = shape.subrange(i + 1, shape.len() as int);
    assert(s.drop_first() =~= rest);
    assert(axis_factor(shape[i]) * dims_product(rest) == dims_product(rest) * axis_factor(shape[i]))
        by (nonlinear_arith);
}

/// Saturating multiplication by a factor of at least one keeps the clamp of the product.
proof fn lemma_clamp_mul(p: nat, f: nat)
    requires
        f >= 1,
    ensures
        (clamp_usize(p) as nat) * f > usize::MAX ==> clamp_usize(p * f) == usize::MAX,
        (clamp_usize(p) as nat) * f <= usize::MAX ==> clamp_usize(p * f) == (clamp_usize(p)
            as nat) * f,
{
    if p > usize::MAX {
        assert(p * f >= p) by (nonlinear_arith)
            requires
                f >= 1,
        ;
        assert((usize::MAX as nat) * f >= usize::MAX) by (nonlinear_arith)
            requires
                f >= 1,
        ;
    }
}

/// Canonical contiguous row-major strides for a given shape (in elements).
///
/// Example: shape [R, C] -> strides [C, 1]
pub fn contiguous_strides(shape: &[usize]) -> (strides: Vec<usize>)
    ensures
        strides@ == spec_contiguous_strides(shape@),
{
    let n = shape.len();
    if n == 0 {
        return Vec::new();
    }
    let mut strides: Vec<usize> = Vec::new();
    while strides.len() < n
        invariant
            strides.len() <= n,
        decreases n - strides.len(),
    {
        strides.push(0);
    }
    let mut s: usize = 1;
    let mut i: usize = n;
    proof {
        assert(shape@.subrange(n as int, n as int) =~= Seq::<usize>::empty());
    }
    while i > 0
        invariant
            n == shape.len(),
            strides.len() == n,
            0 <= i <= n,
            s == clamp_usize(dims_product(shape@.subrange(i as int, n as int))),
            forall|k: int| i <= k < n ==> strides@[k] == row_major_stride(shape@, k),
        decreases i,
    {
        i = i - 1;
        proof {
            assert(shape@.subrange(i + 1, n as int) == shape@.subrange(i + 1, shape@.len() as int));
        }
        strides.set(i, s);
        let dim = shape[i];
        let f: usize = if dim > 1 { dim } else { 1 };
        proof {
            lemma_suffix_product_step(shape@, i as int);
            lemma_clamp_mul(dims_product(shape@.subrange(i + 1, n as int)), axis_factor(dim));
            assert(f as nat == axis_factor(dim));
        }
        s = match s.checked_mul(f) {
            Some(v) => v,
            None => usize::MAX,
        };
    }
    assert(strides@ =~= spec_contiguous_strides(shape@));
    strides
}

/// Element-wise equality of two index sequences.
pub(crate) fn slices_equal(a: &[usize], b: &[usize]) -> (r: bool)
    ensures
        r == (a@ == b@),
{
    if a.len() != b.len() {
        return false;
    }
    let mut i: usize = 0;
    while i < a.len()
        invariant
            a.len() == b.len(),
            0 <= i <= a.len(),
            forall|k: int| 0 <= k < i ==> a@[k] == b@[k],
        decreases a.len() - i,
    {
        if a[i] != b[i] {
            return false;
        }
        i = i + 1;
    }
    assert(a@ =~= b@);
    true
}

/// Describe the given shape/strides pair.
pub fn describe(shape: &[usize], strides: &[usize]) -> (p: StridePattern)
    ensures
        p == spec_describe(shape@, strides@),
{
    if shape.len() != strides.len() {
        return StridePattern::Other;
    }
    let canonical = contiguous_strides(shape);
    if slices_equal(strides, canonical.as_slice()) {
        return StridePattern::Contiguous;
    }
    if shape.len() == 2 {
        let rows = shape[0];
        let cols = shape[1];
        let row_pitch = strides[0];
        let inner = strides[1];
        if inner == 1 && row_pitch >= cols && rows > 0 && cols > 0 {
            return StridePattern::InnerContiguous2D { row_pitch_elems: row_pitch };
        }
    }
    StridePattern::Other
}

/// Whether the given shape/strides is fully contiguous.
pub fn is_contiguous(shape: &[usize], strides: &[usize]) -> (r: bool)
    ensures
        r == (spec_describe(shape@, strides@) == StridePattern::Contiguous),
{
    match describe(shape, strides) {
        StridePattern::Contiguous => true,
        _ => false,
    }
}

/// Whether the given shape/strides is rank-2 with inner-most contiguous axis and a row pitch.
pub fn is_inner_contiguous_2d(shape: &[usize], strides: &[usize]) -> (r: bool)
    ensures
        r == (spec_describe(shape@, strides@) is InnerContiguous2D),
{
    match describe(shape, strides) {
        StridePattern::InnerContiguous2D { .. } => true,
        _ => false,
    }
}

/// Saturating multiplication on `usize`.
pub open spec fn sat_mul(a: usize, b: nat) -> usize {
    clamp_usize((a as nat) * b)
}

/// The canonical strides of a shape are reported as contiguous.
pub proof fn law_canonical_strides_are_contiguous(shape: Seq<usize>)
    ensures
        spec_describe(shape, spec_contiguous_strides(shape)) == StridePattern::Contiguous,
{
}

/// The canonical strides have one entry per axis, the innermost stride is one,
/// and each stride is the next one times the next axis extent (empty axes count
/// as one), saturating at `usize::MAX`.
pub proof fn law_canonical_strides_recurrence(shape: Seq<usize>)
    ensures
        spec_contiguous_strides(shape).len() == shape.len(),
        shape.len() > 0 ==> spec_contiguous_strides(shape)[shape.len() - 1] == 1,
        forall|i: int|
            0 <= i < shape.len() - 1 ==> #[trigger] spec_contiguous_strides(shape)[i] == sat_mul(
                spec_contiguous_strides(shape)[i + 1],
                axis_factor(shape[i + 1]),
            ),
{
    let n = shape.len() as int;
    if n > 0 {
        assert(shape.subrange(n, n) =~= Seq::<usize>::empty());
    }
    assert forall|i: int| 0 <= i < n - 1 implies #[trigger] spec_contiguous_strides(shape)[i]
        == sat_mul(spec_contiguous_strides(shape)[i + 1], axis_factor(shape[i + 1])) by {
        lemma_suffix_product_step(shape, i + 1);
        lemma_clamp_mul(dims_product(shape.subrange(i + 2, n)), axis_factor(shape[i + 1]));
        lemma_dims_product_positive(shape.subrange(i + 2, n));
    }
}

/// A pitched rank-2 layout `[rows, cols]` with `cols >= 1` has canonical strides `[cols, 1]`.
pub proof fn law_canonical_strides_rank2(rows: usize, cols: usize)
    requires
        cols >= 1,
    ensures
        spec_contiguous_strides(seq![rows, cols]) == seq![cols, 1usize],
{
    let shape = seq![rows, cols];
    assert(shape.subrange(1, 2) =~= seq![cols]);
    assert(shape.subrange(1, 2).drop_first() =~= Seq::<usize>::empty());
    assert(shape.subrange(2, 2) =~= Seq::<usize>::empty());
    let t = shape.subrange(1, 2);
    assert(t[0] == cols);
    assert(dims_product(t.drop_first()) == 1);
    assert(dims_product(t) == axis_factor(cols) * 1);
    assert(dims_product(shape.subrange(1, 2)) == cols);
    assert(row_major_stride(shape, 0) == cols);
    assert(row_major_stride(shape, 1) == 1);
    assert(spec_contiguous_strides(shape) =~= seq![cols, 1usize]);
}

/// A layout is never both contiguous and pitched rank-2.
pub proof fn law_patterns_exclusive(shape: Seq<usize>, strides: Seq<usize>)
    ensures
        !(spec_describe(shape, strides) == StridePattern::Contiguous && spec_describe(
            shape,
            strides,
        ) is InnerContiguous2D),
{
}

/// A pitched rank-2 report always carries the outer stride as its row pitch,
/// which is at least the column count, over a unit inner stride and a non-empty shape.
pub proof fn law_inner_contiguous_requirements(shape: Seq<usize>, strides: Seq<usize>)
    requires
        spec_describe(shape, strides) is InnerContiguous2D,
    ensures
        shape.len() == 2,
        strides.len() == 2,
        strides[1] == 1,
        spec_describe(shape, strides)->row_pitch_elems == strides[0],
        strides[0] >= shape[1],
        shape[0] > 0,
        shape[1] > 0,
        strides != spec_contiguous_strides(shape),
{
}

/// Shapes and strides of different ranks are never reported as a supported pattern.
pub proof fn law_rank_mismatch_is_other(shape: Seq<usize>, strides: Seq<usize>)
    requires
        shape.len() != strides.len(),
    ensures
        spec_describe(shape, strides) == StridePattern::Other,
{
}

/// Product of the extents (zero extents included), in order.
pub open spec fn plain_product(dims: Seq<usize>) -> nat
    decreases dims.len(),
{
    if dims.len() == 0 {
        1
    } else {
        (dims[0] as nat) * plain_product(dims.drop_first())
    }
}

/// The exact (non-saturating) row-major stride of axis `i`: the product of the later extents.
pub open spec fn dense_stride(shape: Seq<usize>, i: int) -> nat {
    plain_product(shape.subrange(i + 1, shape.len() as int))
}

/// Every exact row-major stride of `shape` fits in `usize`.
pub open spec fn dense_strides_fit(shape: Seq<usize>) -> bool {
    forall|i: int| 0 <= i < shape.len() ==> #[trigger] dense_stride(shape, i) <= usize::MAX
}

/// Every prefix product of `dims`, taken left to right, fits in `usize`.
pub open spec fn prefix_products_fit(dims: Seq<usize>) -> bool {
    forall|k: int| 0 <= k <= dims.len() ==> #[trigger] plain_product(dims.take(k)) <= usize::MAX
}

/// Appending an extent multiplies the product by it.
pub proof fn lemma_plain_product_push(dims: Seq<usize>, x: usize)
    ensures
        plain_product(dims.push(x)) == plain_product(dims) * x,
    decreases dims.len(),
{
    if dims.len() == 0 {
        assert(dims.push(x).drop_first() =~= Seq::<usize>::empty());
        assert(dims.push(x)[0] == x);
        assert(plain_product(dims.push(x)) == (x as nat) * plain_product(Seq::<usize>::empty()));
        assert(plain_product(Seq::<usize>::empty()) == 1);
        assert(plain_product(dims) == 1);
        let e = plain_product(Seq::<usize>::empty());
        assert((x as nat) * e == e * x) by (nonlinear_arith);
    } else {
        lemma_plain_product_push(dims.drop_first(), x);
        assert(dims.push(x).drop_first() =~= dims.drop_first().push(x));
        assert(dims.push(x)[0] == dims[0]);
        let p = plain_product(dims.drop_first());
        assert(plain_product(dims.push(x)) == (dims[0] as nat) * plain_product(
            dims.drop_first().push(x),
        ));
        assert(plain_product(dims) == (dims[0] as nat) * p);
        assert((dims[0] as nat) * (p * x) == ((dims[0] as nat) * p) * x) by (nonlinear_arith);
        assert(plain_product(dims.drop_first().push(x)) == p * x);
        assert(plain_product(dims.push(x)) == plain_product(dims) * x);
    }
}

/// Peeling the first axis off a suffix of the shape (exact product).
pub proof fn lemma_plain_suffix_step(shape: Seq<usize>, i: int)
    requires
        0 <= i < shape.len(),
    ensures
        plain_product(shape.subrange(i, shape.len() as int)) == shape[i] * plain_product(
            shape.subrange(i + 1, shape.len() as int),
        ),
{
    assert(shape.subrange(i, shape.len() as int).drop_first() =~= shape.subrange(
        i + 1,
        shape.len() as int,
    ));
}

proof fn lemma_products_agree(dims: Seq<usize>)
    requires
        forall|k: int| 0 <= k < dims.len() ==> #[trigger] dims[k] >= 1,
    ensures
        dims_product(dims) == plain_product(dims),
    decreases dims.len(),
{
    if dims.len() > 0 {
        lemma_products_agree(dims.drop_first());
    }
}

/// For shapes without empty axes whose strides fit in `usize`, the canonical
/// (saturating) strides are the exact row-major strides.
pub proof fn law_canonical_strides_exact(shape: Seq<usize>)
    requires
        forall|k: int| 0 <= k < shape.len() ==> #[trigger] shape[k] >= 1,
        dense_strides_fit(shape),
    ensures
        forall|i: int|
            0 <= i < shape.len() ==> #[trigger] spec_contiguous_strides(shape)[i] == dense_stride(
                shape,
                i,
            ),
{
    assert forall|i: int| 0 <= i < shape.len() implies #[trigger] spec_contiguous_strides(shape)[i]
        == dense_stride(shape, i) by {
        let t = shape.subrange(i + 1, shape.len() as int);
        assert forall|k: int| 0 <= k < t.len() implies #[trigger] t[k] >= 1 by {
            assert(t[k] == shape[i + 1 + k]);
        }
        lemma_products_agree(t);
        assert(dense_stride(shape, i) <= usize::MAX);
    }
}

} // verus!
