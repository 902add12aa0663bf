//! The baseline MSL code generator: element-wise kernels over typed tensor
//! parameters, with length-one broadcasting of binary inputs and no
//! extended-metadata indexing.

use vstd::prelude::*;
use vstd::string::*;
use crate::ir::{ElemType, Visibility};
use crate::kernel::{
    classify_buffers, entry_name, inputs_of, kernel_supported, meta_count, output_line,
    output_of, Arithmetic, ExecutionMode, Instruction, KernelBuffer, KernelDefinition,
};
use crate::msl::{
    bin_op_str, bin_op_text, emit_elementwise, emit_header, emit_len_word, emit_param_list,
    w_elementwise, w_header, w_len_word, w_param_list, BinOp, ElemExpr, MslFn, LOOP_CLOSE,
    SOURCE_PRELUDE,
};
use crate::text::{
    chars_of, contains_chars, decimal, lowercase, occurs_at, push_usize, seq_contains, starts_with_chars,
    to_lowercase,
};

pub use crate::compiler::{buffer_param, mentions, Msl4CompilationOptions, Msl4Module, MslBufferParam};

verus! {

/// The element-wise operations this generator lowers.
#[derive(Debug, Clone, Copy, PartialEq, Eq, Structural)]
pub enum OpKind {
    Add,
    Sub,
    Mul,
    Div,
    Neg,
    Abs,
    Exp,
    Log,
    Log1p,
    Recip,
    Tanh,
    Sqrt,
    Floor,
    Ceil,
    Round,
}

/// The operation an instruction stands for, if this generator lowers it.
pub open spec fn instruction_op(i: Instruction) -> Option<OpKind> {
    match i {
        Instruction::Arithmetic(a) => match a {
            Arithmetic::Add => Some(OpKind::Add),
            Arithmetic::Sub => Some(OpKind::Sub),
            Arithmetic::Mul => Some(OpKind::Mul),
            Arithmetic::Div => Some(OpKind::Div),
            Arithmetic::Neg => Some(OpKind::Neg),
            Arithmetic::Abs => Some(OpKind::Abs),
            Arithmetic::Exp => Some(OpKind::Exp),
            Arithmetic::Log => Some(OpKind::Log),
            Arithmetic::Tanh => Some(OpKind::Tanh),
            Arithmetic::Sqrt => Some(OpKind::Sqrt),
            Arithmetic::Floor => Some(OpKind::Floor),
            Arithmetic::Ceil => Some(OpKind::Ceil),
            Arithmetic::Round => Some(OpKind::Round),
            Arithmetic::Log1p => Some(OpKind::Log1p),
            Arithmetic::Recip => Some(OpKind::Recip),
            _ => None,
        },
        Instruction::Other => None,
    }
}

/// The operation of the first lowered instruction among the first `k`.
pub open spec fn first_op(instrs: Seq<Instruction>, k: int) -> Option<OpKind>
    decreases k,
{
    if k <= 0 {
        None
    } else {
        match first_op(instrs, k - 1) {
            Some(o) => Some(o),
            None => instruction_op(instrs[k - 1]),
        }
    }
}

pub open spec fn ir_op(instrs: Seq<Instruction>) -> Option<OpKind> {
    first_op(instrs, instrs.len() as int)
}

/// The operation guessed from a lowercased kernel name.
pub open spec fn name_op(l: Seq<char>) -> Option<OpKind> {
    if mentions(l, "add_"@) {
        Some(OpKind::Add)
    } else if mentions(l, "sub_"@) {
        Some(OpKind::Sub)
    } else if mentions(l, "mul_"@) {
        Some(OpKind::Mul)
    } else if mentions(l, "div_"@) {
        Some(OpKind::Div)
    } else if mentions(l, "neg_"@) {
        Some(OpKind::Neg)
    } else if mentions(l, "abs_"@) {
        Some(OpKind::Abs)
    } else {
        None
    }
}

pub open spec fn detected_op(instrs: Seq<Instruction>, lowered_name: Seq<char>) -> Option<OpKind> {
    match ir_op(instrs) {
        Some(o) => Some(o),
        None => name_op(lowered_name),
    }
}

proof fn lemma_first_op_stable(instrs: Seq<Instruction>, j: int, k: int)
    requires
        0 <= j <= k,
        first_op(instrs, j) is Some,
    ensures
        first_op(instrs, k) == first_op(instrs, j),
    decreases k - j,
{
    if j < k {
        lemma_first_op_stable(instrs, j, k - 1);
    }
}

fn op_of_instruction(i: Instruction) -> (r: Option<OpKind>)
    ensures
        r == instruction_op(i),
{
    match i {
        Instruction::Arithmetic(a) => match a {
            Arithmetic::Add => Some(OpKind::Add),
            Arithmetic::Sub => Some(OpKind::Sub),
            Arithmetic::Mul => Some(OpKind::Mul),
            Arithmetic::Div => Some(OpKind::Div),
            Arithmetic::Neg => Some(OpKind::Neg),
            Arithmetic::Abs => Some(OpKind::Abs),
            Arithmetic::Exp => Some(OpKind::Exp),
            Arithmetic::Log => Some(OpKind::Log),
            Arithmetic::Tanh => Some(OpKind::Tanh),
            Arithmetic::Sqrt => Some(OpKind::Sqrt),
            Arithmetic::Floor => Some(OpKind::Floor),
            Arithmetic::Ceil => Some(OpKind::Ceil),
            Arithmetic::Round => Some(OpKind::Round),
            Arithmetic::Log1p => Some(OpKind::Log1p),
            Arithmetic::Recip => Some(OpKind::Recip),
            _ => None,
        },
        Instruction::Other => None,
    }
}

/// Detects the operation from the kernel's instructions.
pub fn detect_op_from_ir(instrs: &Vec<Instruction>) -> (r: Option<OpKind>)
    ensures
        r == ir_op(instrs@),
{
    let mut i: usize = 0;
    while i < instrs.len()
        invariant
            0 <= i <= instrs.len(),
            first_op(instrs@, i as int) is None,
        decreases instrs.len() - i,
    {
        let o = op_of_instruction(instrs[i]);
        if o.is_some() {
            proof {
                lemma_first_op_stable(instrs@, i as int + 1, instrs@.len() as int);
            }
            return o;
        }
        i = i + 1;
    }
    None
}

/// Guesses the operation from an already lowercased kernel name.
pub fn detect_op_from_name(lowered: &str) -> (r: Option<OpKind>)
    ensures
        r == name_op(lowered@),
{
    let l = chars_of(lowered);
    if contains_chars(&l, "add_") || starts_with_chars(&l, "add_") {
        Some(OpKind::Add)
    } else if contains_chars(&l, "sub_") || starts_with_chars(&l, "sub_") {
        Some(OpKind::Sub)
    } else if contains_chars(&l, "mul_") || starts_with_chars(&l, "mul_") {
        Some(OpKind::Mul)
    } else if contains_chars(&l, "div_") || starts_with_chars(&l, "div_") {
        Some(OpKind::Div)
    } else if contains_chars(&l, "neg_") || starts_with_chars(&l, "neg_") {
        Some(OpKind::Neg)
    } else if contains_chars(&l, "abs_") || starts_with_chars(&l, "abs_") {
        Some(OpKind::Abs)
    } else {
        None
    }
}

/// A binary body where a length-one input is broadcast:
/// `b{dst}[idx] = b{a}[ia] {op} b{b}[ib]`.
pub open spec fn w_binary(
    acc: Seq<char>,
    bs: Seq<KernelBuffer>,
    op: BinOp,
    dst: usize,
    a: usize,
    b: usize,
) -> Seq<char> {
    let nm = meta_count(bs);
    let meta = nm > 0;
    let h = w_header(acc, output_line(bs), meta);
    let p = if meta {
        w_len_word(w_len_word(h, "__lenA"@, nm, a), "__lenB"@, nm, b)
    } else {
        h
    };
    let l = p
        + "    for (uint lane = 0; lane < LINE; ++lane) {\n        const uint idx = (uint)(base + lane);\n        const uint ia = (__lenA == 1u) ? 0u : idx;\n        const uint ib = (__lenB == 1u) ? 0u : idx;\n        "@;
    let st = if meta {
        l + "if (idx < __len) { b"@ + decimal(dst as nat) + "[idx] = b"@ + decimal(a as nat)
            + "[ia] "@ + bin_op_text(op) + " b"@ + decimal(b as nat) + "[ib]; }"@
    } else {
        l + "b"@ + decimal(dst as nat) + "[idx] = b"@ + decimal(a as nat) + "[ia] "@
            + bin_op_text(op) + " b"@ + decimal(b as nat) + "[ib];"@
    };
    st + "\n    }\n"@
}

/// The kernel body: chosen by the number of inputs and the detected operation.
pub open spec fn w_body(acc: Seq<char>, bs: Seq<KernelBuffer>, op: Option<OpKind>) -> Seq<char> {
    match output_of(bs) {
        None => acc + "    // No outputs bound.\n"@,
        Some(dst) => {
            let ins = inputs_of(bs);
            let line = output_line(bs);
            let meta = meta_count(bs) > 0;
            if ins.len() == 2 {
                let a = ins[0];
                let b = ins[1];
                match op {
                    Some(OpKind::Sub) => w_binary(acc, bs, BinOp::Minus, dst, a, b),
                    Some(OpKind::Mul) => w_binary(acc, bs, BinOp::Times, dst, a, b),
                    Some(OpKind::Div) => w_binary(acc, bs, BinOp::Divide, dst, a, b),
                    _ => w_binary(acc, bs, BinOp::Plus, dst, a, b),
                }
            } else if ins.len() == 1 {
                let a = ins[0];
                match op {
                    Some(OpKind::Neg) => w_elementwise(acc, line, meta, false, dst, ElemExpr::Negate(a)),
                    Some(OpKind::Abs) => w_elementwise(acc, line, meta, true, dst, ElemExpr::Call1(MslFn::Abs, a)),
                    Some(OpKind::Exp) => w_elementwise(acc, line, meta, true, dst, ElemExpr::Call1(MslFn::Exp, a)),
                    Some(OpKind::Log) => w_elementwise(acc, line, meta, true, dst, ElemExpr::Call1(MslFn::Log, a)),
                    Some(OpKind::Log1p) => w_elementwise(acc, line, meta, true, dst, ElemExpr::Log1p(a)),
                    Some(OpKind::Recip) => w_elementwise(acc, line, meta, true, dst, ElemExpr::Recip(a)),
                    Some(OpKind::Tanh) => w_elementwise(acc, line, meta, true, dst, ElemExpr::Call1(MslFn::Tanh, a)),
                    Some(OpKind::Sqrt) => w_elementwise(acc, line, meta, true, dst, ElemExpr::Call1(MslFn::Sqrt, a)),
                    Some(OpKind::Floor) => w_elementwise(acc, line, meta, true, dst, ElemExpr::Call1(MslFn::Floor, a)),
                    Some(OpKind::Ceil) => w_elementwise(acc, line, meta, true, dst, ElemExpr::Call1(MslFn::Ceil, a)),
                    Some(OpKind::Round) => w_elementwise(acc, line, meta, true, dst, ElemExpr::Call1(MslFn::Rint, a)),
                    _ => w_elementwise(acc, line, meta, true, dst, ElemExpr::Load(a)),
                }
            } else {
                acc + "    // TODO: IR→MSL lowering.\n"@
            }
        },
    }
}

/// The complete MSL source of a kernel named `name` performing `op`.
pub open spec fn msl_source(bs: Seq<KernelBuffer>, name: Seq<char>, op: Option<OpKind>) -> Seq<
    char,
> {
    let a = Seq::<char>::empty() + SOURCE_PRELUDE@ + "[[ kernel ]] void "@ + name + "("@;
    w_body(w_param_list(a, bs) + ") {\n"@, bs, op) + "}\n"@
}

/// The module generated for kernel buffers `bs`, entry point `name` and operation `op`.
pub open spec fn module_matches(
    m: Msl4Module,
    bs: Seq<KernelBuffer>,
    name: Seq<char>,
    op: Option<OpKind>,
) -> bool {
    &&& m.src@ == msl_source(bs, name, op)
    &&& m.buffers@.len() == bs.len()
    &&& forall|i: int| 0 <= i < bs.len() ==> #[trigger] m.buffers@[i] == buffer_param(bs[i])
    &&& m.num_meta == meta_count(bs)
    &&& m.has_metadata == (meta_count(bs) > 0)
    &&& m.output_index == output_of(bs)
    &&& m.output_line_size == output_line(bs)
}

fn emit_binary(s: &mut String, bs: &Vec<KernelBuffer>, line: u32, op: BinOp, dst: usize, a: usize, b: usize)
    requires
        line == output_line(bs@),
    ensures
        final(s)@ == w_binary(old(s)@, bs@, op, dst, a, b),
{
    let nm: u32 = bs.len() as u32;
    let meta = nm > 0;
    emit_header(s, line, meta);
    if meta {
        emit_len_word(s, true, nm, a);
        emit_len_word(s, false, nm, b);
    }
    s.append(
        "    for (uint lane = 0; lane < LINE; ++lane) {\n        const uint idx = (uint)(base + lane);\n        const uint ia = (__lenA == 1u) ? 0u : idx;\n        const uint ib = (__lenB == 1u) ? 0u : idx;\n        ",
    );
    if meta {
        s.append("if (idx < __len) { b");
        push_usize(s, dst);
        s.append("[idx] = b");
        push_usize(s, a);
        s.append("[ia] ");
        s.append(bin_op_str(op));
        s.append(" b");
        push_usize(s, b);
        s.append("[ib]; }");
    } else {
        s.append("b");
        push_usize(s, dst);
        s.append("[idx] = b");
        push_usize(s, a);
        s.append("[ia] ");
        s.append(bin_op_str(op));
        s.append(" b");
        push_usize(s, b);
        s.append("[ib];");
    }
    s.append("\n    }\n");
}

fn emit_body(
    s: &mut String,
    bs: &Vec<KernelBuffer>,
    ins: &Vec<usize>,
    out: Option<usize>,
    line: u32,
    op: Option<OpKind>,
)
    requires
        ins@ == inputs_of(bs@),
        out == output_of(bs@),
        line == output_line(bs@),
    ensures
        final(s)@ == w_body(old(s)@, bs@, op),
{
    let meta = bs.len() as u32 > 0;
    match out {
        None => {
            s.append("    // No outputs bound.\n");
        },
        Some(dst) => {
            if ins.len() == 2 {
                let a = ins[0];
                let b = ins[1];
                match op {
                    Some(OpKind::Sub) => emit_binary(s, bs, line, BinOp::Minus, dst, a, b),
                    Some(OpKind::Mul) => emit_binary(s, bs, line, BinOp::Times, dst, a, b),
                    Some(OpKind::Div) => emit_binary(s, bs, line, BinOp::Divide, dst, a, b),
                    _ => emit_binary(s, bs, line, BinOp::Plus, dst, a, b),
                }
            } else if ins.len() == 1 {
                let a = ins[0];
                match op {
                    Some(OpKind::Neg) => emit_elementwise(s, line, meta, false, dst, ElemExpr::Negate(a)),
                    Some(OpKind::Abs) => emit_elementwise(s, line, meta, true, dst, ElemExpr::Call1(MslFn::Abs, a)),
                    Some(OpKind::Exp) => emit_elementwise(s, line, meta, true, dst, ElemExpr::Call1(MslFn::Exp, a)),
                    Some(OpKind::Log) => emit_elementwise(s, line, meta, true, dst, ElemExpr::Call1(MslFn::Log, a)),
                    Some(OpKind::Log1p) => emit_elementwise(s, line, meta, true, dst, ElemExpr::Log1p(a)),
                    Some(OpKind::Recip) => emit_elementwise(s, line, meta, true, dst, ElemExpr::Recip(a)),
                    Some(OpKind::Tanh) => emit_elementwise(s, line, meta, true, dst, ElemExpr::Call1(MslFn::Tanh, a)),
                    Some(OpKind::Sqrt) => emit_elementwise(s, line, meta, true, dst, ElemExpr::Call1(MslFn::Sqrt, a)),
                    Some(OpKind::Floor) => emit_elementwise(s, line, meta, true, dst, ElemExpr::Call1(MslFn::Floor, a)),
                    Some(OpKind::Ceil) => emit_elementwise(s, line, meta, true, dst, ElemExpr::Call1(MslFn::Ceil, a)),
                    Some(OpKind::Round) => emit_elementwise(s, line, meta, true, dst, ElemExpr::Call1(MslFn::Rint, a)),
                    _ => emit_elementwise(s, line, meta, true, dst, ElemExpr::Load(a)),
                }
            } else {
                s.append("    // TODO: IR→MSL lowering.\n");
            }
        },
    }
}

/// Generates the module for a kernel whose operation is already decided.
pub fn emit_module(kernel: &KernelDefinition, op: Option<OpKind>) -> (m: Msl4Module)
    requires
        kernel_supported(kernel.buffers@),
    ensures
        module_matches(m, kernel.buffers@, entry_name(kernel.kernel_name@), op),
{
    let bs = &kernel.buffers;
    let (ins, out, _ext_total) = classify_buffers(bs);
    let line: u32 = match out {
        Some(d) => {
            let ls = bs[d].ty.line_size();
            if ls == 0 {
                1
            } else {
                ls
            }
        },
        None => 1,
    };
    let nm: u32 = bs.len() as u32;
    let mut s = String::new();
    s.append(SOURCE_PRELUDE);
    s.append("[[ kernel ]] void ");
    if kernel.kernel_name.as_str().is_empty() {
        proof {
            reveal_strlit("main0");
        }
        s.append("main0");
    } else {
        s.append(kernel.kernel_name.as_str());
    }
    s.append("(");
    emit_param_list(&mut s, bs);
    s.append(") {\n");
    emit_body(&mut s, bs, &ins, out, line, op);
    s.append("}\n");
    let mut params: Vec<MslBufferParam> = Vec::new();
    let mut i: usize = 0;
    while i < bs.len()
        invariant
            0 <= i <= bs.len(),
            kernel_supported(bs@),
            params@.len() == i,
            forall|j: int| 0 <= j < i ==> #[trigger] params@[j] == buffer_param(bs@[j]),
        decreases bs.len() - i,
    {
        let b = bs[i];
        let w = match b.visibility {
            Visibility::ReadWrite => true,
            Visibility::Read => false,
        };
        assert(!(bs@[i as int].ty is Semantic));
        params.push(
            MslBufferParam { elem: b.ty.elem_type(), has_extended_meta: b.has_extended_meta, is_writeable: w },
        );
        i = i + 1;
    }
    Msl4Module {
        src: s,
        buffers: params,
        num_meta: nm,
        has_metadata: nm > 0,
        output_index: out,
        output_line_size: line,
    }
}

/// The baseline MSL compiler.
#[derive(Debug, Clone, Copy, PartialEq, Eq, Structural)]
pub struct Msl4Compiler;

impl Msl4Compiler {
    /// A compiler.
    pub fn new() -> (r: Self) {
        Msl4Compiler
    }

    /// Compiles a kernel to an MSL module. The operation is read from the
    /// kernel's instructions and, failing that, guessed from its lowercased name.
    pub fn compile(
        &mut self,
        kernel: KernelDefinition,
        compilation_options: &Msl4CompilationOptions,
        mode: ExecutionMode,
    ) -> (m: Msl4Module)
        requires
            kernel_supported(kernel.buffers@),
        ensures
            module_matches(
                m,
                kernel.buffers@,
                entry_name(kernel.kernel_name@),
                detected_op(kernel.instructions@, lowercase(entry_name(kernel.kernel_name@))),
            ),
    {
        let mut op = detect_op_from_ir(&kernel.instructions);
        if op.is_none() {
            let lowered = if kernel.kernel_name.as_str().is_empty() {
                to_lowercase("main0")
            } else {
                to_lowercase(kernel.kernel_name.as_str())
            };
            op = detect_op_from_name(lowered.as_str());
        }
        emit_module(&kernel, op)
    }

    /// Size in bytes of one element.
    pub fn elem_size(&self, elem: ElemType) -> (r: usize)
        ensures
            r == crate::ir::elem_size_spec(elem),
    {
        elem.size()
    }

    /// File extension of generated sources.
    pub fn extension(&self) -> (r: &'static str)
        ensures
            r@ == "metal"@,
    {
        "metal"
    }
}

/// The guarded assignment of a binary body with metadata, with the infix
/// operator `sym`: `if (idx < __len) { b{dst}[idx] = b{a}[ia] {sym} b{b}[ib]; }`.
pub open spec fn infix_statement(dst: usize, a: usize, b: usize, sym: Seq<char>) -> Seq<char> {
    "if (idx < __len) { b"@ + decimal(dst as nat) + "[idx] = b"@ + decimal(a as nat) + "[ia] "@ + sym
        + " b"@ + decimal(b as nat) + "[ib]; }"@
}

/// What the kernel body of `msl_source` is appended to.
pub open spec fn msl_source_body_prefix(bs: Seq<KernelBuffer>, name: Seq<char>) -> Seq<char> {
    let a = Seq::<char>::empty() + SOURCE_PRELUDE@ + "[[ kernel ]] void "@ + name + "("@;
    w_param_list(a, bs) + ") {\n"@
}

proof fn lemma_source_contains_statement(
    bs: Seq<KernelBuffer>,
    name: Seq<char>,
    opk: Option<OpKind>,
    op: BinOp,
    dst: usize,
    a: usize,
    b: usize,
)
    requires
        meta_count(bs) > 0,
        w_body(msl_source_body_prefix(bs, name), bs, opk) == w_binary(msl_source_body_prefix(bs, name), bs, op, dst, a, b),
    ensures
        seq_contains(msl_source(bs, name, opk), infix_statement(dst, a, b, bin_op_text(op))),
{
    let acc = msl_source_body_prefix(bs, name);
    let nm = meta_count(bs);
    let h = w_header(acc, output_line(bs), true);
    let p = w_len_word(w_len_word(h, "__lenA"@, nm, a), "__lenB"@, nm, b);
    let l = p
        + "    for (uint lane = 0; lane < LINE; ++lane) {\n        const uint idx = (uint)(base + lane);\n        const uint ia = (__lenA == 1u) ? 0u : idx;\n        const uint ib = (__lenB == 1u) ? 0u : idx;\n        "@;
    let needle = infix_statement(dst, a, b, bin_op_text(op));
    assert(w_binary(acc, bs, op, dst, a, b) =~= l + needle + "\n    }\n"@);
    let hay = msl_source(bs, name, opk);
    assert(hay == l + needle + "\n    }\n"@ + "}\n"@);
    assert(hay.subrange(l.len() as int, (l.len() + needle.len()) as int) =~= needle);
    assert(occurs_at(hay, needle, l.len() as int));
}

/// A kernel with exactly two inputs `a` and `b` (in binding order) and output
/// `d` computes its element-wise arithmetic with the matching infix operator:
/// subtraction `-`, multiplication `*`, division `/`, and addition `+` (also
/// when no operation was detected).
pub proof fn law_binary_operators(bs: Seq<KernelBuffer>, name: Seq<char>, d: usize, a: usize, b: usize)
    requires
        output_of(bs) == Some(d),
        inputs_of(bs) == seq![a, b],
        bs.len() < u32::MAX,
    ensures
        seq_contains(msl_source(bs, name, Some(OpKind::Sub)), infix_statement(d, a, b, "-"@)),
        seq_contains(msl_source(bs, name, Some(OpKind::Mul)), infix_statement(d, a, b, "*"@)),
        seq_contains(msl_source(bs, name, Some(OpKind::Div)), infix_statement(d, a, b, "/"@)),
        seq_contains(msl_source(bs, name, Some(OpKind::Add)), infix_statement(d, a, b, "+"@)),
        seq_contains(msl_source(bs, name, None), infix_statement(d, a, b, "+"@)),
{
    if bs.len() == 0 {
        assert(output_of(bs) is None);
    }
    assert(meta_count(bs) > 0);
    let ins = inputs_of(bs);
    assert(ins[0] == a && ins[1] == b);
    lemma_source_contains_statement(bs, name, Some(OpKind::Sub), BinOp::Minus, d, a, b);
    lemma_source_contains_statement(bs, name, Some(OpKind::Mul), BinOp::Times, d, a, b);
    lemma_source_contains_statement(bs, name, Some(OpKind::Div), BinOp::Divide, d, a, b);
    lemma_source_contains_statement(bs, name, Some(OpKind::Add), BinOp::Plus, d, a, b);
    lemma_source_contains_statement(bs, name, None, BinOp::Plus, d, a, b);
}

} // verus!
