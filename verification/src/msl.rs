//! Building blocks of generated MSL kernels. Each writer appends one piece of
//! source text; the `w_*` spec functions state what each appends, as a function
//! of the text before it.

use vstd::prelude::*;
use vstd::string::*;
use crate::ir::{msl_scalar_name, msl_scalar_type, storage_elem, type_storage, Visibility};
use crate::kernel::{ext_count, meta_count, KernelBuffer};
use crate::text::{decimal, push_u32, push_u64, push_usize};

verus! {

/// Opening of every generated source file.
pub const SOURCE_PRELUDE: &'static str = "#include <metal_stdlib>\n#include <metal_tensor>\nusing namespace metal;\n\n";

/// Helper that reads the (rows, cols) extents of a buffer from the metadata words.
pub const HELPER_DIMS_SIG: &'static str = "inline uint2 __cube_get_dims(constant uint* meta, uint META_N, uint EXT_N, uint ext_idx) {\n";
pub const HELPER_DIMS_BODY: &'static str = "    const uint RANKS_BASE = META_N * 2u;\n    const uint SHAPE_OFFS_BASE = RANKS_BASE + EXT_N;\n    if (ext_idx >= EXT_N) return uint2(0u,0u);\n    const uint rank = meta[RANKS_BASE + ext_idx];\n    const uint shape_off = meta[SHAPE_OFFS_BASE + ext_idx];\n    if (shape_off == 0u) return uint2(0u,0u);\n    if (rank >= 2u) { const uint m = meta[shape_off + 0u]; const uint n = meta[shape_off + 1u]; return uint2(m,n); }\n    else if (rank == 1u) { const uint m = meta[shape_off + 0u]; return uint2(m,1u); }\n    else { return uint2(0u,0u); }\n}\n\n";

/// Helper that reads the two outer strides of a buffer from the metadata words.
pub const HELPER_STRIDES_SIG: &'static str = "inline uint2 __cube_get_strides(constant uint* meta, uint META_N, uint EXT_N, uint ext_idx) {\n";
pub const HELPER_STRIDES_BODY: &'static str = "    const uint RANKS_BASE = META_N * 2u;\n    const uint SHAPE_OFFS_BASE = RANKS_BASE + EXT_N;\n    const uint STRIDE_OFFS_BASE = SHAPE_OFFS_BASE + EXT_N;\n    if (ext_idx >= EXT_N) return uint2(0u,0u);\n    const uint stride_off = meta[STRIDE_OFFS_BASE + ext_idx];\n    if (stride_off == 0u) return uint2(0u,0u);\n    const uint s0 = meta[stride_off + 0u]; const uint s1 = meta[stride_off + 1u]; return uint2(s0,s1);\n}\n\n";

/// Per-lane loop whose index is a `uint`.
pub const LOOP_OPEN_UINT: &'static str = "    for (uint lane = 0; lane < LINE; ++lane) {\n        const uint idx = (uint)(base + lane);\n";
/// Per-lane loop whose index is a `size_t`.
pub const LOOP_OPEN_SIZE_T: &'static str = "    for (uint lane = 0; lane < LINE; ++lane) {\n        const size_t idx = base + lane;\n";
pub const LOOP_CLOSE: &'static str = "    }\n";

pub const OUT_DIMS_LINE: &'static str = "        uint2 out_dims = (EXT_OUT >= 0) ? __cube_get_dims(__meta, META_N, EXT_N, (uint)EXT_OUT) : uint2(0u,0u);\n";
pub const USE_RANK2_LINE: &'static str = "        bool use_rank2 = (out_dims.x > 0u) && (out_dims.y > 0u) && (out_dims.x * out_dims.y == __len);\n";
/// Input A index resolution of binary kernels (with a broadcast/stride note).
pub const RESOLVE_A_BINARY: &'static str = "        if (use_rank2 && EXT_A >= 0) { uint row = idx / out_dims.y; uint col = idx % out_dims.y; uint2 a_dims = __cube_get_dims(__meta, META_N, EXT_N, (uint)EXT_A); uint2 a_str = __cube_get_strides(__meta, META_N, EXT_N, (uint)EXT_A); uint rA = (a_dims.x == 1u) ? 0u : row; uint cA = (a_dims.y == 1u) ? 0u : col; ia = rA * a_str.x + cA * a_str.y; } else { /* broadcast/stride */ if (__lenA == 1u) { ia = 0u; } else if (EXT_A >= 0) { uint2 a_str = __cube_get_strides(__meta, META_N, EXT_N, (uint)EXT_A); ia = idx * a_str.x; } else { ia = idx; } }\n";
/// Input A index resolution of copy kernels.
pub const RESOLVE_A_COPY: &'static str = "        if (use_rank2 && EXT_A >= 0) { uint row = idx / out_dims.y; uint col = idx % out_dims.y; uint2 a_dims = __cube_get_dims(__meta, META_N, EXT_N, (uint)EXT_A); uint2 a_str = __cube_get_strides(__meta, META_N, EXT_N, (uint)EXT_A); uint rA = (a_dims.x == 1u) ? 0u : row; uint cA = (a_dims.y == 1u) ? 0u : col; ia = rA * a_str.x + cA * a_str.y; } else { if (__lenA == 1u) { ia = 0u; } else if (EXT_A >= 0) { uint2 a_str = __cube_get_strides(__meta, META_N, EXT_N, (uint)EXT_A); ia = idx * a_str.x; } else { ia = idx; } }\n";
/// Input B index resolution of binary kernels.
pub const RESOLVE_B: &'static str = "        if (use_rank2 && EXT_B >= 0) { uint row = idx / out_dims.y; uint col = idx % out_dims.y; uint2 b_dims = __cube_get_dims(__meta, META_N, EXT_N, (uint)EXT_B); uint2 b_str = __cube_get_strides(__meta, META_N, EXT_N, (uint)EXT_B); uint rB = (b_dims.x == 1u) ? 0u : row; uint cB = (b_dims.y == 1u) ? 0u : col; ib = rB * b_str.x + cB * b_str.y; } else { if (__lenB == 1u) { ib = 0u; } else if (EXT_B >= 0) { uint2 b_str = __cube_get_strides(__meta, META_N, EXT_N, (uint)EXT_B); ib = idx * b_str.x; } else { ib = idx; } }\n";
/// Output index resolution.
pub const RESOLVE_OUT: &'static str = "        if (use_rank2 && EXT_OUT >= 0) { uint row = idx / out_dims.y; uint col = idx % out_dims.y; uint2 o_str = __cube_get_strides(__meta, META_N, EXT_N, (uint)EXT_OUT); io = row * o_str.x + col * o_str.y; } else { if (EXT_OUT >= 0) { uint2 o_str = __cube_get_strides(__meta, META_N, EXT_N, (uint)EXT_OUT); io = idx * o_str.x; } }\n";

/// MSL built-in functions used by element-wise kernels.
#[derive(Debug, Clone, Copy, PartialEq, Eq, Structural)]
pub enum MslFn {
    Abs,
    Exp,
    Log,
    Tanh,
    Sin,
    Cos,
    Erf,
    Sqrt,
    Floor,
    Ceil,
    Rint,
    Pow,
    Min,
    Max,
    Fmod,
}

pub open spec fn msl_fn_name(f: MslFn) -> Seq<char> {
    match f {
        MslFn::Abs => "abs"@,
        MslFn::Exp => "exp"@,
        MslFn::Log => "log"@,
        MslFn::Tanh => "tanh"@,
        MslFn::Sin => "sin"@,
        MslFn::Cos => "cos"@,
        MslFn::Erf => "erf"@,
        MslFn::Sqrt => "sqrt"@,
        MslFn::Floor => "floor"@,
        MslFn::Ceil => "ceil"@,
        MslFn::Rint => "rint"@,
        MslFn::Pow => "pow"@,
        MslFn::Min => "min"@,
        MslFn::Max => "max"@,
        MslFn::Fmod => "fmod"@,
    }
}

pub fn msl_fn_str(f: MslFn) -> (r: &'static str)
    ensures
        r@ == msl_fn_name(f),
{
    match f {
        MslFn::Abs => "abs",
        MslFn::Exp => "exp",
        MslFn::Log => "log",
        MslFn::Tanh => "tanh",
        MslFn::Sin => "sin",
        MslFn::Cos => "cos",
        MslFn::Erf => "erf",
        MslFn::Sqrt => "sqrt",
        MslFn::Floor => "floor",
        MslFn::Ceil => "ceil",
        MslFn::Rint => "rint",
        MslFn::Pow => "pow",
        MslFn::Min => "min",
        MslFn::Max => "max",
        MslFn::Fmod => "fmod",
    }
}

/// Infix operators of binary element-wise kernels.
#[derive(Debug, Clone, Copy, PartialEq, Eq, Structural)]
pub enum BinOp {
    Plus,
    Minus,
    Times,
    Divide,
}

pub open spec fn bin_op_text(op: BinOp) -> Seq<char> {
    match op {
        BinOp::Plus => "+"@,
        BinOp::Minus => "-"@,
        BinOp::Times => "*"@,
        BinOp::Divide => "/"@,
    }
}

pub fn bin_op_str(op: BinOp) -> (r: &'static str)
    ensures
        r@ == bin_op_text(op),
{
    match op {
        BinOp::Plus => "+",
        BinOp::Minus => "-",
        BinOp::Times => "*",
        BinOp::Divide => "/",
    }
}

/// The right-hand side of a per-lane element-wise assignment.
#[derive(Debug, Clone, Copy, PartialEq, Eq, Structural)]
pub enum ElemExpr {
    /// `b{a}[idx]`
    Load(usize),
    /// `{f}(b{a}[idx])`
    Call1(MslFn, usize),
    /// `{f}(b{a}[idx], b{b}[idx])`
    Call2(MslFn, usize, usize),
    /// `-b{a}[idx]`
    Negate(usize),
    /// `log(1.0 + b{a}[idx])`
    Log1p(usize),
    /// `1.0 / b{a}[idx]`
    Recip(usize),
}

pub open spec fn w_expr(acc: Seq<char>, e: ElemExpr) -> Seq<char> {
    match e {
        ElemExpr::Load(a) => acc + "b"@ + decimal(a as nat) + "[idx]"@,
        ElemExpr::Call1(f, a) => acc + msl_fn_name(f) + "(b"@ + decimal(a as nat) + "[idx])"@,
        ElemExpr::Call2(f, a, b) => acc + msl_fn_name(f) + "(b"@ + decimal(a as nat)
            + "[idx], b"@ + decimal(b as nat) + "[idx])"@,
        ElemExpr::Negate(a) => acc + "-b"@ + decimal(a as nat) + "[idx]"@,
        ElemExpr::Log1p(a) => acc + "log(1.0 + b"@ + decimal(a as nat) + "[idx])"@,
        ElemExpr::Recip(a) => acc + "1.0 / b"@ + decimal(a as nat) + "[idx]"@,
    }
}

pub fn emit_expr(s: &mut String, e: ElemExpr)
    ensures
        final(s)@ == w_expr(old(s)@, e),
{
    match e {
        ElemExpr::Load(a) => {
            s.append("b");
            push_usize(s, a);
            s.append("[idx]");
        },
        ElemExpr::Call1(f, a) => {
            s.append(msl_fn_str(f));
            s.append("(b");
            push_usize(s, a);
            s.append("[idx])");
        },
        ElemExpr::Call2(f, a, b) => {
            s.append(msl_fn_str(f));
            s.append("(b");
            push_usize(s, a);
            s.append("[idx], b");
            push_usize(s, b);
            s.append("[idx])");
        },
        ElemExpr::Negate(a) => {
            s.append("-b");
            push_usize(s, a);
            s.append("[idx]");
        },
        ElemExpr::Log1p(a) => {
            s.append("log(1.0 + b");
            push_usize(s, a);
            s.append("[idx])");
        },
        ElemExpr::Recip(a) => {
            s.append("1.0 / b");
            push_usize(s, a);
            s.append("[idx]");
        },
    }
}

/// The kernel body header: the lane count, the base index, and, with metadata,
/// the logical output length.
pub open spec fn w_header(acc: Seq<char>, line: u32, meta: bool) -> Seq<char> {
    let a = acc + "    const uint LINE = "@ + decimal(line as nat)
        + "u;\n    const size_t base = tid.x * LINE;\n"@;
    if meta {
        a + "    const uint __len = __aux[0];\n"@
    } else {
        a
    }
}

pub fn emit_header(s: &mut String, line: u32, meta: bool)
    ensures
        final(s)@ == w_header(old(s)@, line, meta),
{
    s.append("    const uint LINE = ");
    push_u32(s, line);
    s.append("u;\n    const size_t base = tid.x * LINE;\n");
    if meta {
        s.append("    const uint __len = __aux[0];\n");
    }
}

/// One per-lane assignment of the output element `b{dst}[idx]`, guarded by the
/// logical length when metadata is bound.
pub open spec fn w_assign(acc: Seq<char>, meta: bool, dst: usize, e: ElemExpr) -> Seq<char> {
    if meta {
        w_expr(acc + "        if (idx < __len) { b"@ + decimal(dst as nat) + "[idx] = "@, e)
            + "; }\n"@
    } else {
        w_expr(acc + "        b"@ + decimal(dst as nat) + "[idx] = "@, e) + ";\n"@
    }
}

pub fn emit_assign(s: &mut String, meta: bool, dst: usize, e: ElemExpr)
    ensures
        final(s)@ == w_assign(old(s)@, meta, dst, e),
{
    if meta {
        s.append("        if (idx < __len) { b");
        push_usize(s, dst);
        s.append("[idx] = ");
        emit_expr(s, e);
        s.append("; }\n");
    } else {
        s.append("        b");
        push_usize(s, dst);
        s.append("[idx] = ");
        emit_expr(s, e);
        s.append(";\n");
    }
}

/// A complete element-wise body: header, per-lane loop (with a `size_t` index
/// when `wide_index`), one assignment, loop end.
pub open spec fn w_elementwise(
    acc: Seq<char>,
    line: u32,
    meta: bool,
    wide_index: bool,
    dst: usize,
    e: ElemExpr,
) -> Seq<char> {
    let h = w_header(acc, line, meta);
    let l = if wide_index {
        h + LOOP_OPEN_SIZE_T@
    } else {
        h + LOOP_OPEN_UINT@
    };
    w_assign(l, meta, dst, e) + LOOP_CLOSE@
}

pub fn emit_elementwise(
    s: &mut String,
    line: u32,
    meta: bool,
    wide_index: bool,
    dst: usize,
    e: ElemExpr,
)
    ensures
        final(s)@ == w_elementwise(old(s)@, line, meta, wide_index, dst, e),
{
    emit_header(s, line, meta);
    if wide_index {
        s.append(LOOP_OPEN_SIZE_T);
    } else {
        s.append(LOOP_OPEN_UINT);
    }
    emit_assign(s, meta, dst, e);
    s.append(LOOP_CLOSE);
}

/// The address space of a buffer parameter.
pub open spec fn address_space(v: Visibility) -> Seq<char> {
    match v {
        Visibility::Read => "constant"@,
        Visibility::ReadWrite => "device"@,
    }
}

/// The parameter of buffer `i`, followed by the separator.
pub open spec fn w_buffer_param(acc: Seq<char>, b: KernelBuffer, i: usize) -> Seq<char> {
    acc + "tensor<"@ + address_space(b.visibility) + " "@ + msl_scalar_name(
        storage_elem(type_storage(b.ty)),
    ) + ", dextents<int, 1>> b"@ + decimal(i as nat) + " [[ buffer("@ + decimal(i as nat)
        + ") ]]"@ + ", "@
}

/// The parameters of the first `k` buffers.
pub open spec fn w_buffer_params(acc: Seq<char>, bs: Seq<KernelBuffer>, k: int) -> Seq<char>
    decreases k,
{
    if k <= 0 {
        acc
    } else {
        w_buffer_param(w_buffer_params(acc, bs, k - 1), bs[k - 1], (k - 1) as usize)
    }
}

/// The whole parameter list: one tensor per buffer, then (when there is any
/// buffer) the metadata and auxiliary words, then the thread position; all
/// separated by `, `.
pub open spec fn w_param_list(acc: Seq<char>, bs: Seq<KernelBuffer>) -> Seq<char> {
    let a = w_buffer_params(acc, bs, bs.len() as int);
    let nm = meta_count(bs);
    let b = if nm > 0 {
        a + "constant uint* __meta [[ buffer("@ + decimal(nm as nat) + ") ]]"@ + ", "@
            + "constant uint* __aux [[ buffer("@ + decimal(nm as nat + 1) + ") ]]"@ + ", "@
    } else {
        a
    };
    b + "uint3 tid [[thread_position_in_grid]]"@
}

pub fn emit_param_list(s: &mut String, bs: &Vec<KernelBuffer>)
    requires
        forall|i: int| 0 <= i < bs@.len() ==> !(#[trigger] bs@[i].ty is Semantic),
        meta_count(bs@) < u32::MAX,
    ensures
        final(s)@ == w_param_list(old(s)@, bs@),
{
    let mut i: usize = 0;
    while i < bs.len()
        invariant
            0 <= i <= bs.len(),
            forall|j: int| 0 <= j < bs@.len() ==> !(#[trigger] bs@[j].ty is Semantic),
            s@ == w_buffer_params(old(s)@, bs@, i as int),
        decreases bs.len() - i,
    {
        let b = bs[i];
        s.append("tensor<");
        match b.visibility {
            Visibility::Read => s.append("constant"),
            Visibility::ReadWrite => s.append("device"),
        }
        s.append(" ");
        s.append(msl_scalar_type(b.ty.storage_type()));
        s.append(", dextents<int, 1>> b");
        push_usize(s, i);
        s.append(" [[ buffer(");
        push_usize(s, i);
        s.append(") ]]");
        s.append(", ");
        i = i + 1;
    }
    let nm: u32 = bs.len() as u32;
    if nm > 0 {
        s.append("constant uint* __meta [[ buffer(");
        push_u32(s, nm);
        s.append(") ]]");
        s.append(", ");
        s.append("constant uint* __aux [[ buffer(");
        push_u32(s, nm + 1);
        s.append(") ]]");
        s.append(", ");
    }
    s.append("uint3 tid [[thread_position_in_grid]]");
}

/// The extended-metadata slot constant of buffer `j`: its rank among the
/// buffers with extended metadata, or -1.
pub open spec fn w_ext_const(acc: Seq<char>, bs: Seq<KernelBuffer>, j: int) -> Seq<char> {
    if bs[j].has_extended_meta {
        acc + "    const int EXT_IDX_"@ + decimal(j as nat) + " = "@ + decimal(ext_count(bs, j))
            + " ;\n"@
    } else {
        acc + "    const int EXT_IDX_"@ + decimal(j as nat) + " = -1;\n"@
    }
}

/// The slot constants of the first `k` buffers.
pub open spec fn w_ext_consts(acc: Seq<char>, bs: Seq<KernelBuffer>, k: int) -> Seq<char>
    decreases k,
{
    if k <= 0 {
        acc
    } else {
        w_ext_const(w_ext_consts(acc, bs, k - 1), bs, k - 1)
    }
}

/// The metadata section sizes followed by every buffer's slot constant.
pub open spec fn w_meta_consts(acc: Seq<char>, bs: Seq<KernelBuffer>) -> Seq<char> {
    let a = acc + "    const uint META_N = "@ + decimal(meta_count(bs) as nat)
        + "u;\n    const uint EXT_N = "@ + decimal(ext_count(bs, bs.len() as int))
        + "u;\n"@;
    w_ext_consts(a, bs, bs.len() as int)
}

pub fn emit_meta_consts(s: &mut String, bs: &Vec<KernelBuffer>, ext_total: u64)
    requires
        ext_total == ext_count(bs@, bs@.len() as int),
    ensures
        final(s)@ == w_meta_consts(old(s)@, bs@),
{
    s.append("    const uint META_N = ");
    push_u32(s, bs.len() as u32);
    s.append("u;\n    const uint EXT_N = ");
    push_u64(s, ext_total);
    s.append("u;\n");
    let ghost start = s@;
    let mut seen: u64 = 0;
    let mut j: usize = 0;
    while j < bs.len()
        invariant
            0 <= j <= bs.len(),
            seen == ext_count(bs@, j as int),
            seen <= j,
            s@ == w_ext_consts(start, bs@, j as int),
        decreases bs.len() - j,
    {
        if bs[j].has_extended_meta {
            s.append("    const int EXT_IDX_");
            push_usize(s, j);
            s.append(" = ");
            push_u64(s, seen);
            s.append(" ;\n");
            seen = seen + 1;
        } else {
            s.append("    const int EXT_IDX_");
            push_usize(s, j);
            s.append(" = -1;\n");
        }
        j = j + 1;
    }
}

/// The per-buffer logical length word of one input.
pub open spec fn w_len_word(acc: Seq<char>, name: Seq<char>, nm: u32, a: usize) -> Seq<char> {
    acc + "    const uint "@ + name + " = __meta["@ + decimal(nm as nat) + "u + "@ + decimal(
        (a as u32) as nat,
    ) + "u];\n"@
}

pub fn emit_len_word(s: &mut String, len_a: bool, nm: u32, a: usize)
    ensures
        final(s)@ == w_len_word(old(s)@, if len_a { "__lenA"@ } else { "__lenB"@ }, nm, a),
{
    s.append("    const uint ");
    if len_a {
        s.append("__lenA");
    } else {
        s.append("__lenB");
    }
    s.append(" = __meta[");
    push_u32(s, nm);
    s.append("u + ");
    push_u32(s, a as u32);
    s.append("u];\n");
}

/// The declaration of a buffer's extended-metadata slot inside the lane loop.
pub open spec fn w_slot(acc: Seq<char>, name: Seq<char>, i: usize) -> Seq<char> {
    acc + "        const int "@ + name + " = EXT_IDX_"@ + decimal(i as nat) + ";\n"@
}

pub fn emit_slot(s: &mut String, which: u8, i: usize)
    requires
        which < 3,
    ensures
        final(s)@ == w_slot(
            old(s)@,
            if which == 0 {
                "EXT_OUT"@
            } else if which == 1 {
                "EXT_A"@
            } else {
                "EXT_B"@
            },
            i,
        ),
{
    s.append("        const int ");
    if which == 0 {
        s.append("EXT_OUT");
    } else if which == 1 {
        s.append("EXT_A");
    } else {
        s.append("EXT_B");
    }
    s.append(" = EXT_IDX_");
    push_usize(s, i);
    s.append(";\n");
}

} // verus!
