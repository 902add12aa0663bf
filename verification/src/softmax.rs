//! Launch validation and planning for the row-wise softmax kernel.

use vstd::prelude::*;
use vstd::string::*;
use crate::runtime::Dim3;
use crate::text::{decimal, push_usize};

verus! {

/// Why a softmax launch was refused.
#[derive(Debug, Clone)]
pub enum SoftmaxSetupError {
    /// The input and output are not 2D tensors of one shape.
    InvalidShapes { in_shape: Vec<usize>, out_shape: Vec<usize> },
}

/// The grid of a row-wise softmax launch: one cube of 256 units per row, each
/// unit striding over the `cols` columns of its row.
#[derive(Debug, Clone, Copy, PartialEq, Eq, Structural)]
pub struct SoftmaxLaunch {
    pub cols: u32,
    pub cube_count: Dim3,
    pub cube_dim: Dim3,
}

/// A shape list rendered as `[a, b, ...]`: the elements written so far.
pub open spec fn w_list_items(acc: Seq<char>, v: Seq<usize>, k: int) -> Seq<char>
    decreases k,
{
    if k <= 0 {
        acc
    } else {
        let before = w_list_items(acc, v, k - 1);
        let sep = if k - 1 > 0 { before + ", "@ } else { before };
        sep + decimal(v[k - 1] as nat)
    }
}

/// A shape list rendered as `[a, b, ...]`.
pub open spec fn w_list(acc: Seq<char>, v: Seq<usize>) -> Seq<char> {
    w_list_items(acc + "["@, v, v.len() as int) + "]"@
}

fn push_list(s: &mut String, v: &Vec<usize>)
    ensures
        final(s)@ == w_list(old(s)@, v@),
{
    s.append("[");
    let ghost start = s@;
    let mut i: usize = 0;
    while i < v.len()
        invariant
            0 <= i <= v.len(),
            s@ == w_list_items(start, v@, i as int),
        decreases v.len() - i,
    {
        if i > 0 {
            s.append(", ");
        }
        push_usize(s, v[i]);
        i = i + 1;
    }
    s.append("]");
}

/// The text of an error.
pub open spec fn error_text(e: SoftmaxSetupError) -> Seq<char> {
    match e {
        SoftmaxSetupError::InvalidShapes { in_shape, out_shape } => w_list(
            w_list(
                Seq::<char>::empty()
                    + "input and output must be 2D tensors with identical shape (got in="@,
                in_shape@,
            ) + ", out="@,
            out_shape@,
        ) + ")"@,
    }
}

impl SoftmaxSetupError {
    /// The error's message.
    pub fn message(&self) -> (r: String)
        ensures
            r@ == error_text(*self),
    {
        match self {
            SoftmaxSetupError::InvalidShapes { in_shape, out_shape } => {
                let mut s = String::new();
                s.append("input and output must be 2D tensors with identical shape (got in=");
                push_list(&mut s, in_shape);
                s.append(", out=");
                push_list(&mut s, out_shape);
                s.append(")");
                s
            },
        }
    }
}

fn copy_shape(v: &[usize]) -> (r: Vec<usize>)
    ensures
        r@ == v@,
{
    let mut r: Vec<usize> = Vec::new();
    let mut i: usize = 0;
    while i < v.len()
        invariant
            0 <= i <= v.len(),
            r@ == v@.take(i as int),
        decreases v.len() - i,
    {
        r.push(v[i]);
        i = i + 1;
        proof {
            assert(r@ =~= v@.take(i as int));
        }
    }
    proof {
        assert(v@.take(v@.len() as int) =~= v@);
    }
    r
}

/// Validates a row-wise softmax over a 2D input of shape [rows, cols] into an
/// output of the same shape, and plans its grid: one cube per row (the row
/// count truncated to `u32`), 256 units along x, and `cols` truncated to `u32`.
pub fn plan_rows_launch(in_shape: &[usize], out_shape: &[usize]) -> (r: Result<
    SoftmaxLaunch,
    SoftmaxSetupError,
>)
    ensures
        (in_shape@ != out_shape@ || in_shape@.len() != 2) <==> r is Err,
        r matches Err(SoftmaxSetupError::InvalidShapes { in_shape: a, out_shape: b }) ==> a@
            == in_shape@ && b@ == out_shape@,
        r matches Ok(l) ==> l == (SoftmaxLaunch {
            cols: in_shape@[1] as u32,
            cube_count: Dim3 { x: 1, y: in_shape@[0] as u32, z: 1 },
            cube_dim: Dim3 { x: 256, y: 1, z: 1 },
        }),
{
    let same = crate::stride::slices_equal(in_shape, out_shape);
    if !same || in_shape.len() != 2 {
        return Err(
            SoftmaxSetupError::InvalidShapes {
                in_shape: copy_shape(in_shape),
                out_shape: copy_shape(out_shape),
            },
        );
    }
    Ok(
        SoftmaxLaunch {
            cols: in_shape[1] as u32,
            cube_count: Dim3 { x: 1, y: in_shape[0] as u32, z: 1 },
            cube_dim: Dim3 { x: 256, y: 1, z: 1 },
        },
    )
}

} // verus!
