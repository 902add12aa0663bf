//! The parts of a kernel definition that the MSL code generators read:
//! its name, its buffer bindings and the arithmetic of its instructions.

use vstd::prelude::*;
use crate::ir::{Type, Visibility};

verus! {

/// Arithmetic operations of the kernel IR; the ones no generator lowers are `Other`.
#[derive(Debug, Clone, Copy, PartialEq, Eq, Structural)]
pub enum Arithmetic {
    Add,
    Sub,
    Mul,
    Div,
    Neg,
    Abs,
    Exp,
    Log,
    Log1p,
    Sin,
    Cos,
    Powf,
    Powi,
    Max,
    Min,
    Modulo,
    Erf,
    Recip,
    Tanh,
    Sqrt,
    Floor,
    Ceil,
    Round,
    Other,
}

/// One instruction of the kernel body, as far as the generators look at it.
#[derive(Debug, Clone, Copy, PartialEq, Eq, Structural)]
pub enum Instruction {
    Arithmetic(Arithmetic),
    Other,
}

/// One buffer binding of a kernel.
#[derive(Debug, Clone, Copy, PartialEq, Eq, Structural)]
pub struct KernelBuffer {
    pub ty: Type,
    pub visibility: Visibility,
    pub has_extended_meta: bool,
}

/// A kernel to generate source for.
pub struct KernelDefinition {
    /// The requested entry point name (empty for the default).
    pub kernel_name: String,
    pub buffers: Vec<KernelBuffer>,
    pub instructions: Vec<Instruction>,
}

/// How a kernel is launched.
#[derive(Debug, Clone, Copy, PartialEq, Eq, Structural)]
pub enum ExecutionMode {
    Checked,
    Unchecked,
}

/// The entry point name: the requested one, or `main0` when none was given.
pub open spec fn entry_name(requested: Seq<char>) -> Seq<char> {
    if requested.len() == 0 {
        "main0"@
    } else {
        requested
    }
}

/// Indices of the read-only buffers among the first `k`, in order.
pub open spec fn read_indices(bs: Seq<KernelBuffer>, k: int) -> Seq<usize>
    decreases k,
{
    if k <= 0 {
        Seq::empty()
    } else if bs[k - 1].visibility == Visibility::Read {
        read_indices(bs, k - 1).push((k - 1) as usize)
    } else {
        read_indices(bs, k - 1)
    }
}

/// The first writable buffer among the first `k`.
pub open spec fn first_write(bs: Seq<KernelBuffer>, k: int) -> Option<usize>
    decreases k,
{
    if k <= 0 {
        None
    } else {
        match first_write(bs, k - 1) {
            Some(i) => Some(i),
            None => if bs[k - 1].visibility == Visibility::ReadWrite {
                Some((k - 1) as usize)
            } else {
                None
            },
        }
    }
}

/// How many of the first `k` buffers carry extended metadata.
pub open spec fn ext_count(bs: Seq<KernelBuffer>, k: int) -> nat
    decreases k,
{
    if k <= 0 {
        0
    } else if bs[k - 1].has_extended_meta {
        ext_count(bs, k - 1) + 1
    } else {
        ext_count(bs, k - 1)
    }
}

/// The output buffer of a kernel: its first writable buffer.
pub open spec fn output_of(bs: Seq<KernelBuffer>) -> Option<usize> {
    first_write(bs, bs.len() as int)
}

/// The inputs of a kernel: its read-only buffers in order.
pub open spec fn inputs_of(bs: Seq<KernelBuffer>) -> Seq<usize> {
    read_indices(bs, bs.len() as int)
}

/// The number of metadata words per section, as the generators count buffers.
pub open spec fn meta_count(bs: Seq<KernelBuffer>) -> u32 {
    bs.len() as u32
}

/// Lanes per output element: the output's line size, where zero counts as one,
/// and one without an output.
pub open spec fn output_line(bs: Seq<KernelBuffer>) -> u32 {
    match output_of(bs) {
        Some(d) => {
            let ls = crate::ir::type_line_size(bs[d as int].ty);
            if ls == 0 {
                1
            } else {
                ls
            }
        },
        None => 1,
    }
}

/// The inputs the generators accept: every buffer has a storage type, the
/// metadata binding slots fit in `u32`, and the extended-metadata indices fit in `i32`.
pub open spec fn kernel_supported(bs: Seq<KernelBuffer>) -> bool {
    &&& forall|i: int| 0 <= i < bs.len() ==> !(#[trigger] bs[i].ty is Semantic)
    &&& meta_count(bs) < u32::MAX
    &&& ext_count(bs, bs.len() as int) <= i32::MAX
}

proof fn lemma_read_indices_bounds(bs: Seq<KernelBuffer>, k: int)
    requires
        0 <= k <= bs.len(),
    ensures
        read_indices(bs, k).len() <= k,
        forall|j: int|
            0 <= j < read_indices(bs, k).len() ==> #[trigger] read_indices(bs, k)[j] < k,
    decreases k,
{
    if k > 0 {
        lemma_read_indices_bounds(bs, k - 1);
    }
}

proof fn lemma_first_write_bounds(bs: Seq<KernelBuffer>, k: int)
    requires
        0 <= k <= bs.len(),
    ensures
        first_write(bs, k) matches Some(i) ==> i < k,
    decreases k,
{
    if k > 0 {
        lemma_first_write_bounds(bs, k - 1);
    }
}

/// The read-only buffer indices, the first writable buffer and the count of
/// buffers with extended metadata, in one pass.
pub fn classify_buffers(bs: &Vec<KernelBuffer>) -> (r: (Vec<usize>, Option<usize>, u64))
    ensures
        r.0@ == inputs_of(bs@),
        r.1 == output_of(bs@),
        r.2 == ext_count(bs@, bs@.len() as int),
        forall|j: int| 0 <= j < r.0@.len() ==> #[trigger] r.0@[j] < bs@.len(),
        r.1 matches Some(d) ==> d < bs@.len(),
{
    let mut ins: Vec<usize> = Vec::new();
    let mut out: Option<usize> = None;
    let mut ext: u64 = 0;
    let mut i: usize = 0;
    while i < bs.len()
        invariant
            0 <= i <= bs.len(),
            ins@ == read_indices(bs@, i as int),
            out == first_write(bs@, i as int),
            ext == ext_count(bs@, i as int),
            ext <= i,
        decreases bs.len() - i,
    {
        let b = bs[i];
        match b.visibility {
            Visibility::Read => {
                ins.push(i);
            },
            Visibility::ReadWrite => {
                if out.is_none() {
                    out = Some(i);
                }
            },
        }
        if b.has_extended_meta {
            ext = ext + 1;
        }
        i = i + 1;
    }
    proof {
        lemma_read_indices_bounds(bs@, bs@.len() as int);
        lemma_first_write_bounds(bs@, bs@.len() as int);
    }
    (ins, out, ext)
}

} // verus!
