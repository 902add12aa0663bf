//! The Metal 4 MSL code generator: lowers simple element-wise kernels to MSL
//! with typed tensor parameters and metadata-driven broadcasting and striding.

use vstd::prelude::*;
use vstd::string::*;
use crate::ir::{storage_elem, type_line_size, type_storage, ElemType, Visibility};
use crate::kernel::{
    classify_buffers, entry_name, ext_count, inputs_of, kernel_supported, meta_count,
    output_line, output_of, Arithmetic, ExecutionMode, Instruction, KernelBuffer,
    KernelDefinition,
};
use crate::msl::{
    emit_elementwise, emit_header, emit_len_word, emit_meta_consts, emit_param_list, emit_slot,
    bin_op_str, bin_op_text, w_elementwise, w_header, w_len_word, w_meta_consts, w_param_list,
    w_slot, BinOp, ElemExpr, MslFn, HELPER_DIMS_BODY, HELPER_DIMS_SIG, HELPER_STRIDES_BODY,
    HELPER_STRIDES_SIG, LOOP_CLOSE, LOOP_OPEN_UINT, OUT_DIMS_LINE, RESOLVE_A_BINARY,
    RESOLVE_A_COPY, RESOLVE_B, RESOLVE_OUT, SOURCE_PRELUDE, USE_RANK2_LINE,
};
use crate::text::{
    chars_of, contains_chars, decimal, lowercase, push_usize, seq_contains, seq_starts_with,
    starts_with_chars, to_lowercase,
};

verus! {

/// Options of the MSL compiler.
#[derive(Debug, Clone, Copy, PartialEq, Eq, Structural)]
pub struct Msl4CompilationOptions {
    pub supports_fp_fast_math: bool,
    pub supports_u64: bool,
    pub supports_explicit_smem: bool,
}

impl Msl4CompilationOptions {
    /// All capabilities off.
    pub fn new() -> (r: Self)
        ensures
            !r.supports_fp_fast_math && !r.supports_u64 && !r.supports_explicit_smem,
    {
        Msl4CompilationOptions {
            supports_fp_fast_math: false,
            supports_u64: false,
            supports_explicit_smem: false,
        }
    }
}

/// The MSL compiler.
#[derive(Debug, Clone, Copy, PartialEq, Eq, Structural)]
pub struct Msl4Compiler;

/// One bound buffer of a compiled module.
#[derive(Debug, Clone, Copy, PartialEq, Eq, Structural)]
pub struct MslBufferParam {
    pub elem: ElemType,
    pub has_extended_meta: bool,
    pub is_writeable: bool,
}

/// A compiled kernel: MSL source plus binding information.
#[derive(Debug, Clone)]
pub struct Msl4Module {
    pub src: String,
    pub buffers: Vec<MslBufferParam>,
    pub num_meta: u32,
    pub has_metadata: bool,
    pub output_index: Option<usize>,
    pub output_line_size: u32,
}

impl Msl4Module {
    /// The module's source text (what displaying the module prints).
    pub fn to_msl_string(&self) -> (r: String)
        ensures
            r@ == self.src@,
    {
        self.src.clone()
    }
}

/// The element-wise operation a kernel performs.
#[derive(Debug, Clone, Copy, PartialEq, Eq, Structural)]
pub enum OpKind {
    Add,
    Sub,
    Mul,
    Div,
    Neg,
    Abs,
    Exp,
    Log,
    Log1p,
    Sin,
    Cos,
    Powf,
    Powi,
    Min,
    Max,
    Modulo,
    Erf,
    Recip,
    Tanh,
    Sqrt,
    Floor,
    Ceil,
    Round,
    ReduceSum1D,
}

/// The operation an instruction stands for, if it is one this generator lowers.
pub open spec fn instruction_op(i: Instruction) -> Option<OpKind> {
    match i {
        Instruction::Arithmetic(a) => match a {
            Arithmetic::Add => Some(OpKind::Add),
            Arithmetic::Sub => Some(OpKind::Sub),
            Arithmetic::Mul => Some(OpKind::Mul),
            Arithmetic::Div => Some(OpKind::Div),
            Arithmetic::Neg => Some(OpKind::Neg),
            Arithmetic::Abs => Some(OpKind::Abs),
            Arithmetic::Exp => Some(OpKind::Exp),
            Arithmetic::Log => Some(OpKind::Log),
            Arithmetic::Log1p => Some(OpKind::Log1p),
            Arithmetic::Sin => Some(OpKind::Sin),
            Arithmetic::Cos => Some(OpKind::Cos),
            Arithmetic::Powf => Some(OpKind::Powf),
            Arithmetic::Powi => Some(OpKind::Powi),
            Arithmetic::Max => Some(OpKind::Max),
            Arithmetic::Min => Some(OpKind::Min),
            Arithmetic::Modulo => Some(OpKind::Modulo),
            Arithmetic::Erf => Some(OpKind::Erf),
            Arithmetic::Recip => Some(OpKind::Recip),
            Arithmetic::Tanh => Some(OpKind::Tanh),
            Arithmetic::Sqrt => Some(OpKind::Sqrt),
            Arithmetic::Floor => Some(OpKind::Floor),
            Arithmetic::Ceil => Some(OpKind::Ceil),
            Arithmetic::Round => Some(OpKind::Round),
            Arithmetic::Other => None,
        },
        Instruction::Other => None,
    }
}

/// The operation of the first instruction among the first `k` that this generator lowers.
pub open spec fn first_op(instrs: Seq<Instruction>, k: int) -> Option<OpKind>
    decreases k,
{
    if k <= 0 {
        None
    } else {
        match first_op(instrs, k - 1) {
            Some(o) => Some(o),
            None => instruction_op(instrs[k - 1]),
        }
    }
}

/// The operation detected from the instructions.
pub open spec fn ir_op(instrs: Seq<Instruction>) -> Option<OpKind> {
    first_op(instrs, instrs.len() as int)
}

/// `pat` occurs in `s`, or `s` starts with it.
pub open spec fn mentions(s: Seq<char>, pat: Seq<char>) -> bool {
    seq_contains(s, pat) || seq_starts_with(s, pat)
}

/// The operation guessed from a lowercased kernel name: the first of these
/// patterns that the name mentions decides.
pub open spec fn name_op(l: Seq<char>) -> Option<OpKind> {
    if mentions(l, "add_"@) {
        Some(OpKind::Add)
    } else if mentions(l, "sub_"@) {
        Some(OpKind::Sub)
    } else if mentions(l, "mul_"@) {
        Some(OpKind::Mul)
    } else if mentions(l, "div_"@) {
        Some(OpKind::Div)
    } else if mentions(l, "neg_"@) {
        Some(OpKind::Neg)
    } else if mentions(l, "abs_"@) {
        Some(OpKind::Abs)
    } else if seq_contains(l, "reduce_sum_1d"@) {
        Some(OpKind::ReduceSum1D)
    } else if mentions(l, "exp_"@) {
        Some(OpKind::Exp)
    } else if mentions(l, "log1p_"@) {
        Some(OpKind::Log1p)
    } else if mentions(l, "log_"@) {
        Some(OpKind::Log)
    } else if mentions(l, "sin_"@) {
        Some(OpKind::Sin)
    } else if mentions(l, "cos_"@) {
        Some(OpKind::Cos)
    } else if seq_contains(l, "powi_"@) {
        Some(OpKind::Powi)
    } else if seq_contains(l, "powf_"@) || seq_contains(l, "pow_"@) {
        Some(OpKind::Powf)
    } else if mentions(l, "min_"@) {
        Some(OpKind::Min)
    } else if mentions(l, "max_"@) {
        Some(OpKind::Max)
    } else if seq_contains(l, "mod_"@) || seq_contains(l, "modulo"@) {
        Some(OpKind::Modulo)
    } else if mentions(l, "erf_"@) {
        Some(OpKind::Erf)
    } else if mentions(l, "recip_"@) {
        Some(OpKind::Recip)
    } else if mentions(l, "tanh_"@) {
        Some(OpKind::Tanh)
    } else if mentions(l, "sqrt_"@) {
        Some(OpKind::Sqrt)
    } else if mentions(l, "floor_"@) {
        Some(OpKind::Floor)
    } else if mentions(l, "ceil_"@) {
        Some(OpKind::Ceil)
    } else if mentions(l, "round_"@) {
        Some(OpKind::Round)
    } else {
        None
    }
}

/// The operation of a kernel: from its instructions, else from its lowercased name.
pub open spec fn detected_op(instrs: Seq<Instruction>, lowered_name: Seq<char>) -> Option<OpKind> {
    match ir_op(instrs) {
        Some(o) => Some(o),
        None => name_op(lowered_name),
    }
}

proof fn lemma_first_op_stable(instrs: Seq<Instruction>, j: int, k: int)
    requires
        0 <= j <= k,
        first_op(instrs, j) is Some,
    ensures
        first_op(instrs, k) == first_op(instrs, j),
    decreases k - j,
{
    if j < k {
        lemma_first_op_stable(instrs, j, k - 1);
    }
}

fn op_of_instruction(i: Instruction) -> (r: Option<OpKind>)
    ensures
        r == instruction_op(i),
{
    match i {
        Instruction::Arithmetic(a) => match a {
            Arithmetic::Add => Some(OpKind::Add),
            Arithmetic::Sub => Some(OpKind::Sub),
            Arithmetic::Mul => Some(OpKind::Mul),
            Arithmetic::Div => Some(OpKind::Div),
            Arithmetic::Neg => Some(OpKind::Neg),
            Arithmetic::Abs => Some(OpKind::Abs),
            Arithmetic::Exp => Some(OpKind::Exp),
            Arithmetic::Log => Some(OpKind::Log),
            Arithmetic::Log1p => Some(OpKind::Log1p),
            Arithmetic::Sin => Some(OpKind::Sin),
            Arithmetic::Cos => Some(OpKind::Cos),
            Arithmetic::Powf => Some(OpKind::Powf),
            Arithmetic::Powi => Some(OpKind::Powi),
            Arithmetic::Max => Some(OpKind::Max),
            Arithmetic::Min => Some(OpKind::Min),
            Arithmetic::Modulo => Some(OpKind::Modulo),
            Arithmetic::Erf => Some(OpKind::Erf),
            Arithmetic::Recip => Some(OpKind::Recip),
            Arithmetic::Tanh => Some(OpKind::Tanh),
            Arithmetic::Sqrt => Some(OpKind::Sqrt),
            Arithmetic::Floor => Some(OpKind::Floor),
            Arithmetic::Ceil => Some(OpKind::Ceil),
            Arithmetic::Round => Some(OpKind::Round),
            Arithmetic::Other => None,
        },
        Instruction::Other => None,
    }
}

/// Detects the operation from the kernel's instructions: the first arithmetic
/// instruction this generator lowers decides.
pub fn detect_op_from_ir(instrs: &Vec<Instruction>) -> (r: Option<OpKind>)
    ensures
        r == ir_op(instrs@),
{
    let mut i: usize = 0;
    while i < instrs.len()
        invariant
            0 <= i <= instrs.len(),
            first_op(instrs@, i as int) is None,
        decreases instrs.len() - i,
    {
        let o = op_of_instruction(instrs[i]);
        if o.is_some() {
            proof {
                lemma_first_op_stable(instrs@, i as int + 1, instrs@.len() as int);
            }
            return o;
        }
        i = i + 1;
    }
    None
}

fn mentions_exec(l: &Vec<char>, pat: &str) -> (r: bool)
    ensures
        r == mentions(l@, pat@),
{
    contains_chars(l, pat) || starts_with_chars(l, pat)
}

/// Guesses the operation from an already lowercased kernel name.
pub fn detect_op_from_name(lowered: &str) -> (r: Option<OpKind>)
    ensures
        r == name_op(lowered@),
{
    let l = chars_of(lowered);
    if mentions_exec(&l, "add_") {
        Some(OpKind::Add)
    } else if mentions_exec(&l, "sub_") {
        Some(OpKind::Sub)
    } else if mentions_exec(&l, "mul_") {
        Some(OpKind::Mul)
    } else if mentions_exec(&l, "div_") {
        Some(OpKind::Div)
    } else if mentions_exec(&l, "neg_") {
        Some(OpKind::Neg)
    } else if mentions_exec(&l, "abs_") {
        Some(OpKind::Abs)
    } else if contains_chars(&l, "reduce_sum_1d") {
        Some(OpKind::ReduceSum1D)
    } else if mentions_exec(&l, "exp_") {
        Some(OpKind::Exp)
    } else if mentions_exec(&l, "log1p_") {
        Some(OpKind::Log1p)
    } else if mentions_exec(&l, "log_") {
        Some(OpKind::Log)
    } else if mentions_exec(&l, "sin_") {
        Some(OpKind::Sin)
    } else if mentions_exec(&l, "cos_") {
        Some(OpKind::Cos)
    } else if contains_chars(&l, "powi_") {
        Some(OpKind::Powi)
    } else if contains_chars(&l, "powf_") || contains_chars(&l, "pow_") {
        Some(OpKind::Powf)
    } else if mentions_exec(&l, "min_") {
        Some(OpKind::Min)
    } else if mentions_exec(&l, "max_") {
        Some(OpKind::Max)
    } else if contains_chars(&l, "mod_") || contains_chars(&l, "modulo") {
        Some(OpKind::Modulo)
    } else if mentions_exec(&l, "erf_") {
        Some(OpKind::Erf)
    } else if mentions_exec(&l, "recip_") {
        Some(OpKind::Recip)
    } else if mentions_exec(&l, "tanh_") {
        Some(OpKind::Tanh)
    } else if mentions_exec(&l, "sqrt_") {
        Some(OpKind::Sqrt)
    } else if mentions_exec(&l, "floor_") {
        Some(OpKind::Floor)
    } else if mentions_exec(&l, "ceil_") {
        Some(OpKind::Ceil)
    } else if mentions_exec(&l, "round_") {
        Some(OpKind::Round)
    } else {
        None
    }
}

/// A binary element-wise body `b{dst}[io] = b{a}[ia] {op} b{b}[ib]`. With
/// metadata, each operand's index follows its extended metadata (rank-2
/// broadcasting and strides) or broadcasts a length-one input.
pub open spec fn w_binary(
    acc: Seq<char>,
    bs: Seq<KernelBuffer>,
    op: BinOp,
    dst: usize,
    a: usize,
    b: usize,
) -> Seq<char> {
    let nm = meta_count(bs);
    let meta = nm > 0;
    let h = w_header(acc, output_line(bs), meta);
    let p = if meta {
        w_len_word(w_len_word(w_meta_consts(h, bs), "__lenA"@, nm, a), "__lenB"@, nm, b)
    } else {
        h
    };
    let l = p + LOOP_OPEN_UINT@;
    let ix = if meta {
        w_slot(
            w_slot(w_slot(l, "EXT_OUT"@, dst) + OUT_DIMS_LINE@ + USE_RANK2_LINE@, "EXT_A"@, a)
                + "        uint ia = idx;\n"@ + RESOLVE_A_BINARY@,
            "EXT_B"@,
            b,
        ) + "        uint ib = idx;\n"@ + RESOLVE_B@ + "        uint io = idx;\n"@ + RESOLVE_OUT@
    } else {
        l + "        const uint ia = idx; const uint ib = idx; const uint io = idx;\n"@
    };
    let st = if meta {
        ix + "        if (idx < __len) { b"@ + decimal(dst as nat) + "[io] = b"@ + decimal(
            a as nat,
        ) + "[ia] "@ + bin_op_text(op) + " b"@ + decimal(b as nat) + "[ib]; }\n"@
    } else {
        ix + "        b"@ + decimal(dst as nat) + "[io] = b"@ + decimal(a as nat) + "[ia] "@
            + bin_op_text(op) + " b"@ + decimal(b as nat) + "[ib];\n"@
    };
    st + LOOP_CLOSE@
}

/// A copy body `b{dst}[..] = b{a}[..]`, with metadata-driven indices when metadata is bound.
pub open spec fn w_copy(acc: Seq<char>, bs: Seq<KernelBuffer>, dst: usize, a: usize) -> Seq<char> {
    let nm = meta_count(bs);
    let meta = nm > 0;
    let h = w_header(acc, output_line(bs), meta);
    let p = if meta {
        w_len_word(w_meta_consts(h, bs), "__lenA"@, nm, a)
    } else {
        h
    };
    let l = p + LOOP_OPEN_UINT@;
    let st = if meta {
        w_slot(w_slot(l, "EXT_OUT"@, dst) + OUT_DIMS_LINE@ + USE_RANK2_LINE@, "EXT_A"@, a)
            + "        uint ia = idx;\n"@ + RESOLVE_A_COPY@ + "        uint io = idx;\n"@
            + RESOLVE_OUT@ + "        if (idx < __len) { b"@ + decimal(dst as nat) + "[io] = b"@
            + decimal(a as nat) + "[ia]; }\n"@
    } else {
        l + "        b"@ + decimal(dst as nat) + "[idx] = b"@ + decimal(a as nat) + "[idx];\n"@
    };
    st + LOOP_CLOSE@
}

/// A plain per-lane body with a `uint` index.
pub open spec fn w_lanes(acc: Seq<char>, bs: Seq<KernelBuffer>, dst: usize, e: ElemExpr) -> Seq<
    char,
> {
    w_elementwise(acc, output_line(bs), meta_count(bs) > 0, false, dst, e)
}

/// A plain per-lane body with a `size_t` index.
pub open spec fn w_lanes_wide(acc: Seq<char>, bs: Seq<KernelBuffer>, dst: usize, e: ElemExpr) -> Seq<
    char,
> {
    w_elementwise(acc, output_line(bs), meta_count(bs) > 0, true, dst, e)
}

/// The kernel body: chosen by the number of inputs and the detected operation.
/// Two inputs: infix arithmetic, or `pow`/`min`/`max`/`fmod`, else addition.
/// One input: negation, a unary built-in, `log1p`, reciprocal, else a copy.
pub open spec fn w_body(acc: Seq<char>, bs: Seq<KernelBuffer>, op: Option<OpKind>) -> Seq<char> {
    match output_of(bs) {
        None => acc + "    // No outputs bound.\n"@,
        Some(dst) => {
            let ins = inputs_of(bs);
            if ins.len() == 2 {
                let a = ins[0];
                let b = ins[1];
                match op {
                    Some(OpKind::Sub) => w_binary(acc, bs, BinOp::Minus, dst, a, b),
                    Some(OpKind::Mul) => w_binary(acc, bs, BinOp::Times, dst, a, b),
                    Some(OpKind::Div) => w_binary(acc, bs, BinOp::Divide, dst, a, b),
                    Some(OpKind::Powf) => w_lanes(acc, bs, dst, ElemExpr::Call2(MslFn::Pow, a, b)),
                    Some(OpKind::Powi) => w_lanes(acc, bs, dst, ElemExpr::Call2(MslFn::Pow, a, b)),
                    Some(OpKind::Min) => w_lanes(acc, bs, dst, ElemExpr::Call2(MslFn::Min, a, b)),
                    Some(OpKind::Max) => w_lanes(acc, bs, dst, ElemExpr::Call2(MslFn::Max, a, b)),
                    Some(OpKind::Modulo) => w_lanes(
                        acc,
                        bs,
                        dst,
                        ElemExpr::Call2(MslFn::Fmod, a, b),
                    ),
                    _ => w_binary(acc, bs, BinOp::Plus, dst, a, b),
                }
            } else if ins.len() == 1 {
                let a = ins[0];
                match op {
                    Some(OpKind::Neg) => w_lanes(acc, bs, dst, ElemExpr::Negate(a)),
                    Some(OpKind::Abs) => w_lanes(acc, bs, dst, ElemExpr::Call1(MslFn::Abs, a)),
                    Some(OpKind::Exp) => w_lanes(acc, bs, dst, ElemExpr::Call1(MslFn::Exp, a)),
                    Some(OpKind::Log) => w_lanes(acc, bs, dst, ElemExpr::Call1(MslFn::Log, a)),
                    Some(OpKind::Log1p) => w_lanes_wide(acc, bs, dst, ElemExpr::Log1p(a)),
                    Some(OpKind::Recip) => w_lanes_wide(acc, bs, dst, ElemExpr::Recip(a)),
                    Some(OpKind::Tanh) => w_lanes(acc, bs, dst, ElemExpr::Call1(MslFn::Tanh, a)),
                    Some(OpKind::Sin) => w_lanes(acc, bs, dst, ElemExpr::Call1(MslFn::Sin, a)),
                    Some(OpKind::Cos) => w_lanes(acc, bs, dst, ElemExpr::Call1(MslFn::Cos, a)),
                    Some(OpKind::Erf) => w_lanes(acc, bs, dst, ElemExpr::Call1(MslFn::Erf, a)),
                    Some(OpKind::Sqrt) => w_lanes(acc, bs, dst, ElemExpr::Call1(MslFn::Sqrt, a)),
                    Some(OpKind::Floor) => w_lanes(acc, bs, dst, ElemExpr::Call1(MslFn::Floor, a)),
                    Some(OpKind::Ceil) => w_lanes(acc, bs, dst, ElemExpr::Call1(MslFn::Ceil, a)),
                    Some(OpKind::Round) => w_lanes(acc, bs, dst, ElemExpr::Call1(MslFn::Rint, a)),
                    _ => w_copy(acc, bs, dst, a),
                }
            } else {
                acc + "    // TODO: IR→MSL lowering.\n"@
            }
        },
    }
}

/// The complete MSL source of a kernel named `name` performing `op`.
pub open spec fn msl_source(bs: Seq<KernelBuffer>, name: Seq<char>, op: Option<OpKind>) -> Seq<
    char,
> {
    let a = Seq::<char>::empty() + SOURCE_PRELUDE@;
    let h = if meta_count(bs) > 0 {
        a + HELPER_DIMS_SIG@ + HELPER_DIMS_BODY@ + HELPER_STRIDES_SIG@ + HELPER_STRIDES_BODY@
    } else {
        a
    };
    let p = w_param_list(h + "[[ kernel ]] void "@ + name + "("@, bs);
    w_body(p + ") {\n"@, bs, op) + "}\n"@
}

/// The binding description of one buffer.
pub open spec fn buffer_param(b: KernelBuffer) -> MslBufferParam {
    MslBufferParam {
        elem: storage_elem(type_storage(b.ty)),
        has_extended_meta: b.has_extended_meta,
        is_writeable: b.visibility == Visibility::ReadWrite,
    }
}

/// The module generated for kernel buffers `bs`, entry point `name` and operation `op`.
pub open spec fn module_matches(
    m: Msl4Module,
    bs: Seq<KernelBuffer>,
    name: Seq<char>,
    op: Option<OpKind>,
) -> bool {
    &&& m.src@ == msl_source(bs, name, op)
    &&& m.buffers@.len() == bs.len()
    &&& forall|i: int| 0 <= i < bs.len() ==> #[trigger] m.buffers@[i] == buffer_param(bs[i])
    &&& m.num_meta == meta_count(bs)
    &&& m.has_metadata == (meta_count(bs) > 0)
    &&& m.output_index == output_of(bs)
    &&& m.output_line_size == output_line(bs)
}

fn emit_binary(
    s: &mut String,
    bs: &Vec<KernelBuffer>,
    ext_total: u64,
    line: u32,
    op: BinOp,
    dst: usize,
    a: usize,
    b: usize,
)
    requires
        ext_total == ext_count(bs@, bs@.len() as int),
        line == output_line(bs@),
    ensures
        final(s)@ == w_binary(old(s)@, bs@, op, dst, a, b),
{
    let nm: u32 = bs.len() as u32;
    let meta = nm > 0;
    emit_header(s, line, meta);
    if meta {
        emit_meta_consts(s, bs, ext_total);
        emit_len_word(s, true, nm, a);
        emit_len_word(s, false, nm, b);
    }
    s.append(LOOP_OPEN_UINT);
    if meta {
        emit_slot(s, 0, dst);
        s.append(OUT_DIMS_LINE);
        s.append(USE_RANK2_LINE);
        emit_slot(s, 1, a);
        s.append("        uint ia = idx;\n");
        s.append(RESOLVE_A_BINARY);
        emit_slot(s, 2, b);
        s.append("        uint ib = idx;\n");
        s.append(RESOLVE_B);
        s.append("        uint io = idx;\n");
        s.append(RESOLVE_OUT);
        s.append("        if (idx < __len) { b");
        push_usize(s, dst);
        s.append("[io] = b");
        push_usize(s, a);
        s.append("[ia] ");
        s.append(bin_op_str(op));
        s.append(" b");
        push_usize(s, b);
        s.append("[ib]; }\n");
    } else {
        s.append("        const uint ia = idx; const uint ib = idx; const uint io = idx;\n");
        s.append("        b");
        push_usize(s, dst);
        s.append("[io] = b");
        push_usize(s, a);
        s.append("[ia] ");
        s.append(bin_op_str(op));
        s.append(" b");
        push_usize(s, b);
        s.append("[ib];\n");
    }
    s.append(LOOP_CLOSE);
}

fn emit_copy(s: &mut String, bs: &Vec<KernelBuffer>, ext_total: u64, line: u32, dst: usize, a: usize)
    requires
        ext_total == ext_count(bs@, bs@.len() as int),
        line == output_line(bs@),
    ensures
        final(s)@ == w_copy(old(s)@, bs@, dst, a),
{
    let nm: u32 = bs.len() as u32;
    let meta = nm > 0;
    emit_header(s, line, meta);
    if meta {
        emit_meta_consts(s, bs, ext_total);
        emit_len_word(s, true, nm, a);
    }
    s.append(LOOP_OPEN_UINT);
    if meta {
        emit_slot(s, 0, dst);
        s.append(OUT_DIMS_LINE);
        s.append(USE_RANK2_LINE);
        emit_slot(s, 1, a);
        s.append("        uint ia = idx;\n");
        s.append(RESOLVE_A_COPY);
        s.append("        uint io = idx;\n");
        s.append(RESOLVE_OUT);
        s.append("        if (idx < __len) { b");
        push_usize(s, dst);
        s.append("[io] = b");
        push_usize(s, a);
        s.append("[ia]; }\n");
    } else {
        s.append("        b");
        push_usize(s, dst);
        s.append("[idx] = b");
        push_usize(s, a);
        s.append("[idx];\n");
    }
    s.append(LOOP_CLOSE);
}

fn emit_body(
    s: &mut String,
    bs: &Vec<KernelBuffer>,
    ins: &Vec<usize>,
    out: Option<usize>,
    ext_total: u64,
    line: u32,
    op: Option<OpKind>,
)
    requires
        ins@ == inputs_of(bs@),
        out == output_of(bs@),
        ext_total == ext_count(bs@, bs@.len() as int),
        line == output_line(bs@),
    ensures
        final(s)@ == w_body(old(s)@, bs@, op),
{
    let meta = bs.len() as u32 > 0;
    match out {
        None => {
            s.append("    // No outputs bound.\n");
        },
        Some(dst) => {
            if ins.len() == 2 {
                let a = ins[0];
                let b = ins[1];
                match op {
                    Some(OpKind::Sub) => emit_binary(s, bs, ext_total, line, BinOp::Minus, dst, a, b),
                    Some(OpKind::Mul) => emit_binary(s, bs, ext_total, line, BinOp::Times, dst, a, b),
                    Some(OpKind::Div) => emit_binary(s, bs, ext_total, line, BinOp::Divide, dst, a, b),
                    Some(OpKind::Powf) | Some(OpKind::Powi) => emit_elementwise(
                        s,
                        line,
                        meta,
                        false,
                        dst,
                        ElemExpr::Call2(MslFn::Pow, a, b),
                    ),
                    Some(OpKind::Min) => emit_elementwise(
                        s,
                        line,
                        meta,
                        false,
                        dst,
                        ElemExpr::Call2(MslFn::Min, a, b),
                    ),
                    Some(OpKind::Max) => emit_elementwise(
                        s,
                        line,
                        meta,
                        false,
                        dst,
                        ElemExpr::Call2(MslFn::Max, a, b),
                    ),
                    Some(OpKind::Modulo) => emit_elementwise(
                        s,
                        line,
                        meta,
                        false,
                        dst,
                        ElemExpr::Call2(MslFn::Fmod, a, b),
                    ),
                    _ => emit_binary(s, bs, ext_total, line, BinOp::Plus, dst, a, b),
                }
            } else if ins.len() == 1 {
                let a = ins[0];
                match op {
                    Some(OpKind::Neg) => emit_elementwise(s, line, meta, false, dst, ElemExpr::Negate(a)),
                    Some(OpKind::Log1p) => emit_elementwise(s, line, meta, true, dst, ElemExpr::Log1p(a)),
                    Some(OpKind::Recip) => emit_elementwise(s, line, meta, true, dst, ElemExpr::Recip(a)),
                    Some(OpKind::Abs) => emit_elementwise(s, line, meta, false, dst, ElemExpr::Call1(MslFn::Abs, a)),
                    Some(OpKind::Exp) => emit_elementwise(s, line, meta, false, dst, ElemExpr::Call1(MslFn::Exp, a)),
                    Some(OpKind::Log) => emit_elementwise(s, line, meta, false, dst, ElemExpr::Call1(MslFn::Log, a)),
                    Some(OpKind::Tanh) => emit_elementwise(s, line, meta, false, dst, ElemExpr::Call1(MslFn::Tanh, a)),
                    Some(OpKind::Sin) => emit_elementwise(s, line, meta, false, dst, ElemExpr::Call1(MslFn::Sin, a)),
                    Some(OpKind::Cos) => emit_elementwise(s, line, meta, false, dst, ElemExpr::Call1(MslFn::Cos, a)),
                    Some(OpKind::Erf) => emit_elementwise(s, line, meta, false, dst, ElemExpr::Call1(MslFn::Erf, a)),
                    Some(OpKind::Sqrt) => emit_elementwise(s, line, meta, false, dst, ElemExpr::Call1(MslFn::Sqrt, a)),
                    Some(OpKind::Floor) => emit_elementwise(s, line, meta, false, dst, ElemExpr::Call1(MslFn::Floor, a)),
                    Some(OpKind::Ceil) => emit_elementwise(s, line, meta, false, dst, ElemExpr::Call1(MslFn::Ceil, a)),
                    Some(OpKind::Round) => emit_elementwise(s, line, meta, false, dst, ElemExpr::Call1(MslFn::Rint, a)),
                    _ => emit_copy(s, bs, ext_total, line, dst, a),
                }
            } else {
                s.append("    // TODO: IR→MSL lowering.\n");
            }
        },
    }
}

/// Generates the module for a kernel whose operation is already decided.
pub fn emit_module(kernel: &KernelDefinition, op: Option<OpKind>) -> (m: Msl4Module)
    requires
        kernel_supported(kernel.buffers@),
    ensures
        module_matches(m, kernel.buffers@, entry_name(kernel.kernel_name@), op),
{
    let bs = &kernel.buffers;
    let (ins, out, ext_total) = classify_buffers(bs);
    let line: u32 = match out {
        Some(d) => {
            let ls = bs[d].ty.line_size();
            if ls == 0 {
                1
            } else {
                ls
            }
        },
        None => 1,
    };
    let nm: u32 = bs.len() as u32;
    let meta = nm > 0;
    let mut s = String::new();
    s.append(SOURCE_PRELUDE);
    if meta {
        s.append(HELPER_DIMS_SIG);
        s.append(HELPER_DIMS_BODY);
        s.append(HELPER_STRIDES_SIG);
        s.append(HELPER_STRIDES_BODY);
    }
    s.append("[[ kernel ]] void ");
    if kernel.kernel_name.as_str().is_empty() {
        proof {
            reveal_strlit("main0");
        }
        s.append("main0");
    } else {
        s.append(kernel.kernel_name.as_str());
    }
    s.append("(");
    emit_param_list(&mut s, bs);
    s.append(") {\n");
    emit_body(&mut s, bs, &ins, out, ext_total, line, op);
    s.append("}\n");
    let mut params: Vec<MslBufferParam> = Vec::new();
    let mut i: usize = 0;
    while i < bs.len()
        invariant
            0 <= i <= bs.len(),
            kernel_supported(bs@),
            params@.len() == i,
            forall|j: int| 0 <= j < i ==> #[trigger] params@[j] == buffer_param(bs@[j]),
        decreases bs.len() - i,
    {
        let b = bs[i];
        let w = match b.visibility {
            Visibility::ReadWrite => true,
            Visibility::Read => false,
        };
        assert(!(bs@[i as int].ty is Semantic));
        params.push(
            MslBufferParam { elem: b.ty.elem_type(), has_extended_meta: b.has_extended_meta, is_writeable: w },
        );
        i = i + 1;
    }
    Msl4Module {
        src: s,
        buffers: params,
        num_meta: nm,
        has_metadata: meta,
        output_index: out,
        output_line_size: line,
    }
}

impl Msl4Compiler {
    /// A compiler.
    pub fn new() -> (r: Self) {
        Msl4Compiler
    }

    /// Compiles a kernel to an MSL module. The operation is read from the
    /// kernel's instructions and, failing that, guessed from its lowercased name.
    pub fn compile(
        &mut self,
        kernel: KernelDefinition,
        compilation_options: &Msl4CompilationOptions,
        mode: ExecutionMode,
    ) -> (m: Msl4Module)
        requires
            kernel_supported(kernel.buffers@),
        ensures
            module_matches(
                m,
                kernel.buffers@,
                entry_name(kernel.kernel_name@),
                detected_op(kernel.instructions@, lowercase(entry_name(kernel.kernel_name@))),
            ),
    {
        let mut op = detect_op_from_ir(&kernel.instructions);
        if op.is_none() {
            let lowered = if kernel.kernel_name.as_str().is_empty() {
                to_lowercase("main0")
            } else {
                to_lowercase(kernel.kernel_name.as_str())
            };
            op = detect_op_from_name(lowered.as_str());
        }
        emit_module(&kernel, op)
    }

    /// Size in bytes of one element.
    pub fn elem_size(&self, elem: ElemType) -> (r: usize)
        ensures
            r == crate::ir::elem_size_spec(elem),
    {
        elem.size()
    }

    /// File extension of generated sources.
    pub fn extension(&self) -> (r: &'static str)
        ensures
            r@ == "metal"@,
    {
        "metal"
    }
}

/// A generated module always runs at least one lane per work item.
pub proof fn law_output_line_positive(bs: Seq<KernelBuffer>)
    ensures
        output_line(bs) >= 1,
{
}

/// An operation found in the instructions decides the lowering, whatever the
/// kernel is named.
pub proof fn law_instructions_take_precedence(instrs: Seq<Instruction>, name_a: Seq<char>, name_b: Seq<char>)
    requires
        ir_op(instrs) is Some,
    ensures
        detected_op(instrs, name_a) == detected_op(instrs, name_b),
        detected_op(instrs, name_a) == ir_op(instrs),
{
}

/// A name that starts with a pattern also contains it: the two tests the name
/// matching combines agree with containment alone.
pub proof fn law_mentions_is_contains(s: Seq<char>, pat: Seq<char>)
    ensures
        mentions(s, pat) == seq_contains(s, pat),
{
    if seq_starts_with(s, pat) {
        assert(crate::text::occurs_at(s, pat, 0));
    }
}

/// The guarded assignment of a binary body with metadata, with the infix
/// operator `sym`: `if (idx < __len) { b{dst}[io] = b{a}[ia] {sym} b{b}[ib]; }`.
pub open spec fn infix_statement(dst: usize, a: usize, b: usize, sym: Seq<char>) -> Seq<char> {
    "        if (idx < __len) { b"@ + decimal(dst as nat) + "[io] = b"@ + decimal(a as nat) + "[ia] "@
        + sym + " b"@ + decimal(b as nat) + "[ib]; }\n"@
}

/// A binary body with metadata ends with its guarded assignment, then the loop end.
proof fn lemma_binary_ends_with_statement(
    acc: Seq<char>,
    bs: Seq<KernelBuffer>,
    op: BinOp,
    dst: usize,
    a: usize,
    b: usize,
) -> (x: Seq<char>)
    requires
        meta_count(bs) > 0,
    ensures
        w_binary(acc, bs, op, dst, a, b) == x + infix_statement(dst, a, b, bin_op_text(op)) + LOOP_CLOSE@,
{
    let nm = meta_count(bs);
    let h = w_header(acc, output_line(bs), true);
    let p = w_len_word(w_len_word(w_meta_consts(h, bs), "__lenA"@, nm, a), "__lenB"@, nm, b);
    let l = p + LOOP_OPEN_UINT@;
    let ix = w_slot(
        w_slot(w_slot(l, "EXT_OUT"@, dst) + OUT_DIMS_LINE@ + USE_RANK2_LINE@, "EXT_A"@, a)
            + "        uint ia = idx;\n"@ + RESOLVE_A_BINARY@,
        "EXT_B"@,
        b,
    ) + "        uint ib = idx;\n"@ + RESOLVE_B@ + "        uint io = idx;\n"@ + RESOLVE_OUT@;
    assert(w_binary(acc, bs, op, dst, a, b) =~= ix + infix_statement(dst, a, b, bin_op_text(op)) + LOOP_CLOSE@);
    ix
}

proof fn lemma_source_contains_statement(
    bs: Seq<KernelBuffer>,
    name: Seq<char>,
    opk: Option<OpKind>,
    op: BinOp,
    dst: usize,
    a: usize,
    b: usize,
)
    requires
        meta_count(bs) > 0,
        w_body(msl_source_body_prefix(bs, name), bs, opk) == w_binary(msl_source_body_prefix(bs, name), bs, op, dst, a, b),
    ensures
        seq_contains(msl_source(bs, name, opk), infix_statement(dst, a, b, bin_op_text(op))),
{
    let acc = msl_source_body_prefix(bs, name);
    let x = lemma_binary_ends_with_statement(acc, bs, op, dst, a, b);
    let needle = infix_statement(dst, a, b, bin_op_text(op));
    let hay = msl_source(bs, name, opk);
    assert(hay == x + needle + LOOP_CLOSE@ + "}\n"@);
    assert(hay.subrange(x.len() as int, (x.len() + needle.len()) as int) =~= needle);
    assert(crate::text::occurs_at(hay, needle, x.len() as int));
}

/// What the kernel body of `msl_source` is appended to.
pub open spec fn msl_source_body_prefix(bs: Seq<KernelBuffer>, name: Seq<char>) -> Seq<char> {
    let a = Seq::<char>::empty() + SOURCE_PRELUDE@;
    let h = if meta_count(bs) > 0 {
        a + HELPER_DIMS_SIG@ + HELPER_DIMS_BODY@ + HELPER_STRIDES_SIG@ + HELPER_STRIDES_BODY@
    } else {
        a
    };
    w_param_list(h + "[[ kernel ]] void "@ + name + "("@, bs) + ") {\n"@
}

/// A kernel with exactly two inputs `a` and `b` (in binding order) and output
/// `d` computes its element-wise arithmetic with the matching infix operator:
/// subtraction `-`, multiplication `*`, division `/`, and addition `+` (also
/// when no operation was detected).
pub proof fn law_binary_operators(bs: Seq<KernelBuffer>, name: Seq<char>, d: usize, a: usize, b: usize)
    requires
        output_of(bs) == Some(d),
        inputs_of(bs) == seq![a, b],
        bs.len() < u32::MAX,
    ensures
        seq_contains(msl_source(bs, name, Some(OpKind::Sub)), infix_statement(d, a, b, "-"@)),
        seq_contains(msl_source(bs, name, Some(OpKind::Mul)), infix_statement(d, a, b, "*"@)),
        seq_contains(msl_source(bs, name, Some(OpKind::Div)), infix_statement(d, a, b, "/"@)),
        seq_contains(msl_source(bs, name, Some(OpKind::Add)), infix_statement(d, a, b, "+"@)),
        seq_contains(msl_source(bs, name, None), infix_statement(d, a, b, "+"@)),
{
    if bs.len() == 0 {
        assert(output_of(bs) is None);
    }
    assert(meta_count(bs) > 0);
    let ins = inputs_of(bs);
    assert(ins[0] == a && ins[1] == b);
    lemma_source_contains_statement(bs, name, Some(OpKind::Sub), BinOp::Minus, d, a, b);
    lemma_source_contains_statement(bs, name, Some(OpKind::Mul), BinOp::Times, d, a, b);
    lemma_source_contains_statement(bs, name, Some(OpKind::Div), BinOp::Divide, d, a, b);
    lemma_source_contains_statement(bs, name, Some(OpKind::Add), BinOp::Plus, d, a, b);
    lemma_source_contains_statement(bs, name, None, BinOp::Plus, d, a, b);
}

} // verus!
