//! Planning for the Metal 4 compute server: allocation layouts, copy sizes,
//! kernel source selection, tensor views, metadata, binding order, dispatch
//! geometry and frame/fence scheduling.

use vstd::prelude::*;
use vstd::string::*;
use crate::compiler::{Msl4Module, MslBufferParam};
use crate::ir::{elem_size_spec, ElemType, FloatKind, IntKind, UIntKind};
use crate::kernels::{mpp_convolution2d_source, mpp_convolution2d_text};
use crate::stride::{
    dense_stride, dense_strides_fit, lemma_plain_product_push, lemma_plain_suffix_step,
    plain_product, prefix_products_fit,
};
use crate::text::{chars_of, contains_chars, seq_contains};
use crate::runtime::Dim3;
use vstd::arithmetic::div_mod::{lemma_fundamental_div_mod, lemma_mod_pos_bound};

verus! {

/// Exact row-major strides (in elements) for a shape.
pub fn contiguous_strides(shape: &[usize]) -> (strides: Vec<usize>)
    requires
        dense_strides_fit(shape@),
    ensures
        strides@.len() == shape@.len(),
        forall|i: int| 0 <= i < shape@.len() ==> #[trigger] strides@[i] == dense_stride(shape@, i),
{
    let n = shape.len();
    if n == 0 {
        return Vec::new();
    }
    let mut strides: Vec<usize> = Vec::new();
    while strides.len() < n
        invariant
            strides.len() <= n,
            forall|j: int| 0 <= j < strides@.len() ==> strides@[j] == 1,
        decreases n - strides.len(),
    {
        strides.push(1);
    }
    proof {
        assert(shape@.subrange(n as int, n as int) =~= Seq::<usize>::empty());
        assert(dense_stride(shape@, n - 1) == 1);
    }
    let mut i: usize = n - 1;
    while i > 0
        invariant
            n == shape.len(),
            n >= 1,
            strides.len() == n,
            0 <= i <= n - 1,
            dense_strides_fit(shape@),
            forall|k: int| i <= k < n ==> #[trigger] strides@[k] == dense_stride(shape@, k),
        decreases i,
    {
        i = i - 1;
        proof {
            lemma_plain_suffix_step(shape@, i + 1);
            assert(dense_stride(shape@, i as int) <= usize::MAX);
            assert(dense_stride(shape@, i as int) == shape@[i + 1] * dense_stride(shape@, i + 1));
            assert(strides@[i + 1] * shape@[i + 1] == dense_stride(shape@, i as int)) by (nonlinear_arith)
                requires
                    strides@[i + 1] == dense_stride(shape@, i + 1),
                    dense_stride(shape@, i as int) == shape@[i + 1] * dense_stride(shape@, i + 1),
            ;
        }
        let v = strides[i + 1] * shape[i + 1];
        strides.set(i, v);
    }
    strides
}

/// Element types of Metal tensors that buffers are viewed as.
#[derive(Debug, Clone, Copy, PartialEq, Eq, Structural)]
pub enum TensorDataType {
    Float16,
    BFloat16,
    Float32,
    Int8,
    Int16,
    Int32,
    UInt8,
    UInt16,
    UInt32,
}

/// The Metal tensor element type of a kernel element type; 64-bit and
/// minifloat elements have none.
pub open spec fn tensor_dtype_of(elem: ElemType) -> Option<TensorDataType> {
    match elem {
        ElemType::Float(FloatKind::F16) => Some(TensorDataType::Float16),
        ElemType::Float(FloatKind::BF16) => Some(TensorDataType::BFloat16),
        ElemType::Float(FloatKind::F32) | ElemType::Float(FloatKind::TF32) | ElemType::Float(
            FloatKind::Flex32,
        ) => Some(TensorDataType::Float32),
        ElemType::Int(IntKind::I8) => Some(TensorDataType::Int8),
        ElemType::Int(IntKind::I16) => Some(TensorDataType::Int16),
        ElemType::Int(IntKind::I32) => Some(TensorDataType::Int32),
        ElemType::UInt(UIntKind::U8) | ElemType::Bool => Some(TensorDataType::UInt8),
        ElemType::UInt(UIntKind::U16) => Some(TensorDataType::UInt16),
        ElemType::UInt(UIntKind::U32) => Some(TensorDataType::UInt32),
        _ => None,
    }
}

/// The Metal tensor element type of a kernel element type.
pub fn map_elem_type_to_tensor_dtype(elem: ElemType) -> (r: Option<TensorDataType>)
    ensures
        r == tensor_dtype_of(elem),
{
    match elem {
        ElemType::Float(FloatKind::F16) => Some(TensorDataType::Float16),
        ElemType::Float(FloatKind::BF16) => Some(TensorDataType::BFloat16),
        ElemType::Float(FloatKind::F32) | ElemType::Float(FloatKind::TF32) | ElemType::Float(
            FloatKind::Flex32,
        ) => Some(TensorDataType::Float32),
        ElemType::Int(IntKind::I8) => Some(TensorDataType::Int8),
        ElemType::Int(IntKind::I16) => Some(TensorDataType::Int16),
        ElemType::Int(IntKind::I32) => Some(TensorDataType::Int32),
        ElemType::UInt(UIntKind::U8) | ElemType::Bool => Some(TensorDataType::UInt8),
        ElemType::UInt(UIntKind::U16) => Some(TensorDataType::UInt16),
        ElemType::UInt(UIntKind::U32) => Some(TensorDataType::UInt32),
        _ => None,
    }
}

/// Size in bytes of one element as stored in a Metal buffer (minifloats take one byte).
pub fn elem_size_bytes(elem: ElemType) -> (r: usize)
    ensures
        r == elem_size_spec(elem),
        1 <= r <= 8,
{
    match elem {
        ElemType::Float(FloatKind::F16) => 2,
        ElemType::Float(FloatKind::BF16) => 2,
        ElemType::Float(FloatKind::F32) | ElemType::Float(FloatKind::TF32) | ElemType::Float(
            FloatKind::Flex32,
        ) => 4,
        ElemType::Float(FloatKind::F64) => 8,
        ElemType::Int(IntKind::I8) => 1,
        ElemType::Int(IntKind::I16) => 2,
        ElemType::Int(IntKind::I32) => 4,
        ElemType::Int(IntKind::I64) => 8,
        ElemType::UInt(UIntKind::U8) | ElemType::Bool => 1,
        ElemType::UInt(UIntKind::U16) => 2,
        ElemType::UInt(UIntKind::U32) => 4,
        ElemType::UInt(UIntKind::U64) => 8,
        ElemType::Float(FloatKind::E2M1) | ElemType::Float(FloatKind::E2M3) | ElemType::Float(
            FloatKind::E3M2,
        ) | ElemType::Float(FloatKind::E4M3) | ElemType::Float(FloatKind::E5M2) | ElemType::Float(
            FloatKind::UE8M0,
        ) => 1,
    }
}

/// The tensor element type used to stage a host copy with elements of
/// `elem_size` bytes: 2 is `Float16`, 1 is `UInt8`, anything else `Float32`.
pub open spec fn staging_dtype_of(elem_size: usize) -> TensorDataType {
    if elem_size == 2 {
        TensorDataType::Float16
    } else if elem_size == 1 {
        TensorDataType::UInt8
    } else {
        TensorDataType::Float32
    }
}

/// The tensor element type used to stage a host copy.
pub fn staging_dtype(elem_size: usize) -> (r: TensorDataType)
    ensures
        r == staging_dtype_of(elem_size),
{
    match elem_size {
        2 => TensorDataType::Float16,
        4 => TensorDataType::Float32,
        1 => TensorDataType::UInt8,
        _ => TensorDataType::Float32,
    }
}

/// Errors of host/device copies.
#[derive(Debug, Clone)]
pub enum IoError {
    /// The binding does not resolve to a live buffer.
    InvalidHandle,
    /// Any other failure, described.
    Unknown(String),
}

/// Number of elements of a shape (the product of its extents).
pub fn shape_product(shape: &[usize]) -> (r: usize)
    requires
        prefix_products_fit(shape@),
    ensures
        r == plain_product(shape@),
{
    let mut acc: usize = 1;
    let mut k: usize = 0;
    proof {
        assert(shape@.take(0) =~= Seq::<usize>::empty());
    }
    while k < shape.len()
        invariant
            0 <= k <= shape.len(),
            prefix_products_fit(shape@),
            acc == plain_product(shape@.take(k as int)),
        decreases shape.len() - k,
    {
        proof {
            assert(shape@.take(k + 1) =~= shape@.take(k as int).push(shape@[k as int]));
            lemma_plain_product_push(shape@.take(k as int), shape@[k as int]);
            assert(plain_product(shape@.take(k + 1)) <= usize::MAX);
        }
        acc = acc * shape[k];
        k = k + 1;
    }
    proof {
        assert(shape@.take(shape@.len() as int) =~= shape@);
    }
    acc
}

/// Size in bytes of a dense copy of `shape` with elements of `elem_size` bytes.
pub fn copy_byte_len(shape: &[usize], elem_size: usize) -> (r: usize)
    requires
        prefix_products_fit(shape@),
        plain_product(shape@) * elem_size <= usize::MAX,
    ensures
        r == plain_product(shape@) * elem_size,
{
    let n = shape_product(shape);
    n * elem_size
}

/// The byte size and the exact row-major strides of a new allocation.
pub fn allocation_layout(shape: &[usize], elem_size: usize) -> (r: (u64, Vec<usize>))
    requires
        prefix_products_fit(shape@),
        plain_product(shape@) * elem_size <= usize::MAX,
        dense_strides_fit(shape@),
    ensures
        r.0 == plain_product(shape@) * elem_size,
        r.1@.len() == shape@.len(),
        forall|i: int| 0 <= i < shape@.len() ==> #[trigger] r.1@[i] == dense_stride(shape@, i),
{
    let size = copy_byte_len(shape, elem_size) as u64;
    (size, contiguous_strides(shape))
}

/// The number of bytes a write of `shape` expects; a source of another length is refused.
pub fn check_write_len(shape: &[usize], elem_size: usize, src_len: usize) -> (r: Result<
    usize,
    IoError,
>)
    requires
        prefix_products_fit(shape@),
        plain_product(shape@) * elem_size <= usize::MAX,
    ensures
        src_len == plain_product(shape@) * elem_size ==> r == Ok::<usize, IoError>(src_len),
        src_len != plain_product(shape@) * elem_size ==> (r matches Err(IoError::Unknown(m))
            && m@ == "write: source length mismatch"@),
{
    let byte_len = copy_byte_len(shape, elem_size);
    if src_len != byte_len {
        return Err(IoError::Unknown(String::from_str("write: source length mismatch")));
    }
    Ok(byte_len)
}

/// Whether two strings are equal.
fn str_equals(a: &str, b: &str) -> (r: bool)
    ensures
        r == (a@ == b@),
{
    let x = chars_of(a);
    let y = chars_of(b);
    if x.len() != y.len() {
        return false;
    }
    let mut i: usize = 0;
    while i < x.len()
        invariant
            x@ == a@,
            y@ == b@,
            x.len() == y.len(),
            0 <= i <= x.len(),
            forall|j: int| 0 <= j < i ==> x@[j] == y@[j],
        decreases x.len() - i,
    {
        if x[i] != y[i] {
            return false;
        }
        i = i + 1;
    }
    assert(x@ =~= y@);
    true
}

/// The first three buffers are half, half and float, all with extended metadata:
/// the signature of an MPP matrix multiply.
pub open spec fn mpp_signature(bs: Seq<MslBufferParam>) -> bool {
    &&& bs.len() >= 3
    &&& bs[0].elem == ElemType::Float(FloatKind::F16)
    &&& bs[1].elem == ElemType::Float(FloatKind::F16)
    &&& bs[2].elem == ElemType::Float(FloatKind::F32)
    &&& bs[0].has_extended_meta
    &&& bs[1].has_extended_meta
    &&& bs[2].has_extended_meta
}

/// Whether a compiled module's buffers have the MPP matrix multiply signature.
pub fn is_mpp_signature(bs: &Vec<MslBufferParam>) -> (r: bool)
    ensures
        r == mpp_signature(bs@),
{
    if bs.len() >= 3 {
        let a = bs[0];
        let b = bs[1];
        let c = bs[2];
        let is_half = match (a.elem, b.elem) {
            (ElemType::Float(FloatKind::F16), ElemType::Float(FloatKind::F16)) => true,
            _ => false,
        };
        let is_f32 = match c.elem {
            ElemType::Float(FloatKind::F32) => true,
            _ => false,
        };
        is_half && is_f32 && a.has_extended_meta && b.has_extended_meta && c.has_extended_meta
    } else {
        false
    }
}

/// Which source a kernel's pipeline is built from.
#[derive(Debug, Clone, Copy, PartialEq, Eq, Structural)]
pub enum KernelSource {
    /// The MPP 2D convolution template.
    Convolution,
    /// The MPP 2D matrix multiply template.
    Matmul,
    /// The source the compiler generated.
    Generated,
}

/// The pipeline choice for a kernel: which source to build, whether its entry
/// point is the MPP one, and whether it binds and dispatches as an MPP matrix
/// multiply.
#[derive(Debug, Clone, Copy, PartialEq, Eq, Structural)]
pub struct PipelineChoice {
    pub source: KernelSource,
    pub use_mpp_entry: bool,
    pub matmul_dispatch: bool,
}

/// The kernel is (or is named as) an MPP convolution.
pub open spec fn wants_mpp_conv(kernel_name: Seq<char>, entry: Seq<char>) -> bool {
    seq_contains(kernel_name, "mpp_convolution2d"@) || entry == "mpp_convolution2d"@
}

/// The kernel is an MPP matrix multiply: named so, or having its buffer signature.
pub open spec fn mpp_matmul_kernel(kernel_name: Seq<char>, entry: Seq<char>, module: Option<Seq<MslBufferParam>>) -> bool {
    ||| seq_contains(kernel_name, "mpp_matmul_2d"@)
    ||| entry == "mpp_matmul_2d"@
    ||| (module matches Some(bs) && mpp_signature(bs))
}

/// The kernel is built from an MPP template: a matrix multiply or a convolution.
pub open spec fn uses_mpp(kernel_name: Seq<char>, entry: Seq<char>, module: Option<Seq<MslBufferParam>>) -> bool {
    mpp_matmul_kernel(kernel_name, entry, module) || wants_mpp_conv(kernel_name, entry)
}

pub open spec fn pipeline_choice(
    kernel_name: Seq<char>,
    entry: Seq<char>,
    module: Option<Seq<MslBufferParam>>,
) -> PipelineChoice {
    PipelineChoice {
        source: if wants_mpp_conv(kernel_name, entry) {
            KernelSource::Convolution
        } else if uses_mpp(kernel_name, entry, module) {
            KernelSource::Matmul
        } else {
            KernelSource::Generated
        },
        use_mpp_entry: uses_mpp(kernel_name, entry, module),
        matmul_dispatch: mpp_matmul_kernel(kernel_name, entry, module),
    }
}

/// Chooses the source and entry point of a kernel's pipeline from the kernel's
/// type name, its entry point and its compiled module.
pub fn select_pipeline(kernel_name: &str, entry: &str, module: Option<&Msl4Module>) -> (r: PipelineChoice)
    ensures
        r == pipeline_choice(
            kernel_name@,
            entry@,
            match module {
                Some(m) => Some(m.buffers@),
                None => None,
            },
        ),
{
    let name = chars_of(kernel_name);
    proof {
        reveal_strlit("mpp_convolution2d");
        reveal_strlit("mpp_matmul_2d");
    }
    let type_mpp = match module {
        Some(m) => is_mpp_signature(&m.buffers),
        None => false,
    };
    let want_conv = contains_chars(&name, "mpp_convolution2d") || str_equals(entry, "mpp_convolution2d");
    let matmul = contains_chars(&name, "mpp_matmul_2d") || str_equals(entry, "mpp_matmul_2d")
        || type_mpp;
    let use_mpp = matmul || want_conv;
    let source = if want_conv {
        KernelSource::Convolution
    } else if use_mpp {
        KernelSource::Matmul
    } else {
        KernelSource::Generated
    };
    PipelineChoice { source, use_mpp_entry: use_mpp, matmul_dispatch: matmul }
}

/// The metadata word at `i`, or zero past the end.
pub open spec fn word_at(data: Seq<u32>, i: int) -> u32 {
    if 0 <= i < data.len() {
        data[i]
    } else {
        0
    }
}

/// Buffer `k` exists and carries extended metadata.
pub open spec fn has_ext(bs: Seq<MslBufferParam>, k: int) -> bool {
    0 <= k < bs.len() && bs[k].has_extended_meta
}

/// How many of the buffers carry extended metadata.
pub open spec fn ext_total(bs: Seq<MslBufferParam>) -> nat
    decreases bs.len(),
{
    if bs.len() == 0 {
        0
    } else {
        ext_total(bs.drop_last()) + if bs.last().has_extended_meta {
            1nat
        } else {
            0nat
        }
    }
}

/// Where the shape of the `e`-th extended buffer starts: the word after the
/// two per-buffer sections and the ranks.
pub open spec fn shape_base(bs: Seq<MslBufferParam>, data: Seq<u32>, e: int) -> u32 {
    word_at(data, 2 * bs.len() + ext_total(bs) + e)
}

/// The 2D convolution geometry read from metadata.
#[derive(Debug, Clone, Copy, PartialEq, Eq, Structural)]
pub struct ConvGeometry {
    pub n: i32,
    pub h: i32,
    pub w: i32,
    pub c: i32,
    pub kh: i32,
    pub kw: i32,
    pub o: i32,
    pub hout: i32,
    pub wout: i32,
}

/// The convolution geometry: activation NHWC from buffer 0, kernel height,
/// width and output channels from the HWIO weights (buffer 1), output height
/// and width from the NHWO destination (buffer 2). A buffer without extended
/// metadata, or whose four shape words are not all present, leaves its
/// values at 1.
pub open spec fn conv_geometry(bs: Seq<MslBufferParam>, data: Seq<u32>) -> ConvGeometry {
    let e1: int = if has_ext(bs, 0) { 1 } else { 0 };
    let e2: int = e1 + if has_ext(bs, 1) { 1int } else { 0int };
    let s0 = shape_base(bs, data, 0) as int;
    let s1 = shape_base(bs, data, e1) as int;
    let s2 = shape_base(bs, data, e2) as int;
    let a = has_ext(bs, 0) && s0 + 3 < data.len();
    let wt = has_ext(bs, 1) && s1 + 3 < data.len();
    let d = has_ext(bs, 2) && s2 + 3 < data.len();
    ConvGeometry {
        n: if a { data[s0] as i32 } else { 1 },
        h: if a { data[s0 + 1] as i32 } else { 1 },
        w: if a { data[s0 + 2] as i32 } else { 1 },
        c: if a { data[s0 + 3] as i32 } else { 1 },
        kh: if wt { data[s1] as i32 } else { 1 },
        kw: if wt { data[s1 + 1] as i32 } else { 1 },
        o: if wt { data[s1 + 3] as i32 } else { 1 },
        hout: if d { data[s2 + 1] as i32 } else { 1 },
        wout: if d { data[s2 + 2] as i32 } else { 1 },
    }
}

proof fn lemma_ext_total_bound(bs: Seq<MslBufferParam>)
    ensures
        ext_total(bs) <= bs.len(),
    decreases bs.len(),
{
    if bs.len() > 0 {
        lemma_ext_total_bound(bs.drop_last());
    }
}

/// Counts the buffers with extended metadata.
pub fn count_extended(bs: &Vec<MslBufferParam>) -> (r: usize)
    ensures
        r == ext_total(bs@),
{
    let mut c: usize = 0;
    let mut i: usize = 0;
    while i < bs.len()
        invariant
            0 <= i <= bs.len(),
            c == ext_total(bs@.take(i as int)),
            c <= i,
        decreases bs.len() - i,
    {
        proof {
            assert(bs@.take(i + 1).drop_last() =~= bs@.take(i as int));
        }
        if bs[i].has_extended_meta {
            c = c + 1;
        }
        i = i + 1;
    }
    proof {
        assert(bs@.take(bs@.len() as int) =~= bs@);
    }
    c
}

fn word_or_zero(data: &Vec<u32>, i: usize) -> (r: u32)
    ensures
        r == word_at(data@, i as int),
{
    if i < data.len() {
        data[i]
    } else {
        0
    }
}

/// Reads the convolution geometry from the metadata words.
pub fn conv2d_geometry(bs: &Vec<MslBufferParam>, data: &Vec<u32>) -> (g: ConvGeometry)
    requires
        3 * bs@.len() + 3 <= usize::MAX,
    ensures
        g == conv_geometry(bs@, data@),
{
    let total = bs.len();
    let num_ext = count_extended(bs);
    proof {
        lemma_ext_total_bound(bs@);
    }
    let shape_offs_start = 2 * total + num_ext;
    let mut g = ConvGeometry { n: 1, h: 1, w: 1, c: 1, kh: 1, kw: 1, o: 1, hout: 1, wout: 1 };
    let mut ext_idx: usize = 0;
    if total > 0 && bs[0].has_extended_meta {
        let sb = word_or_zero(data, shape_offs_start + ext_idx) as usize;
        if (sb as u64) + 3 < data.len() as u64 {
            g.n = data[sb] as i32;
            g.h = data[sb + 1] as i32;
            g.w = data[sb + 2] as i32;
            g.c = data[sb + 3] as i32;
        }
        ext_idx = ext_idx + 1;
    }
    if total > 1 && bs[1].has_extended_meta {
        let sb = word_or_zero(data, shape_offs_start + ext_idx) as usize;
        if (sb as u64) + 3 < data.len() as u64 {
            g.kh = data[sb] as i32;
            g.kw = data[sb + 1] as i32;
            g.o = data[sb + 3] as i32;
        }
        ext_idx = ext_idx + 1;
    }
    if total > 2 && bs[2].has_extended_meta {
        let sb = word_or_zero(data, shape_offs_start + ext_idx) as usize;
        if (sb as u64) + 3 < data.len() as u64 {
            g.hout = data[sb + 1] as i32;
            g.wout = data[sb + 2] as i32;
        }
    }
    g
}

/// The convolution source for a kernel: the MPP template with the geometry
/// read from metadata, unit strides and dilations, and one group.
pub fn convolution_source(bs: &Vec<MslBufferParam>, data: &Vec<u32>) -> (r: String)
    requires
        3 * bs@.len() + 3 <= usize::MAX,
    ensures
        ({
            let g = conv_geometry(bs@, data@);
            r@ == mpp_convolution2d_text(
                g.n as int,
                g.h as int,
                g.w as int,
                g.c as int,
                g.kh as int,
                g.kw as int,
                g.o as int,
                g.hout as int,
                g.wout as int,
                1,
                1,
                1,
                1,
                1,
            )
        }),
{
    let g = conv2d_geometry(bs, data);
    mpp_convolution2d_source(g.n, g.h, g.w, g.c, g.kh, g.kw, g.o, g.hout, g.wout, 1, 1, 1, 1, 1)
}

/// The key a compiled pipeline is cached under: entry point, output line
/// size, buffer element types and fast-math mode.
#[derive(Debug, Clone, PartialEq, Eq, Hash)]
pub struct Msl4SpecKey {
    pub entry: String,
    pub line: u32,
    pub types: Vec<ElemType>,
    pub fast_math: bool,
}

/// The cache key of a compiled kernel (line size 1 and no types without a module).
pub fn spec_key(entry: &str, module: Option<&Msl4Module>, fast_math: bool) -> (k: Msl4SpecKey)
    ensures
        k.entry@ == entry@,
        k.fast_math == fast_math,
        k.line == (match module {
            Some(m) => m.output_line_size,
            None => 1,
        }),
        k.types@ == (match module {
            Some(m) => m.buffers@.map_values(|p: MslBufferParam| p.elem),
            None => Seq::<ElemType>::empty(),
        }),
{
    let mut types: Vec<ElemType> = Vec::new();
    let line = match module {
        Some(m) => {
            let mut i: usize = 0;
            while i < m.buffers.len()
                invariant
                    0 <= i <= m.buffers.len(),
                    types@ =~= m.buffers@.take(i as int).map_values(|p: MslBufferParam| p.elem),
                decreases m.buffers.len() - i,
            {
                types.push(m.buffers[i].elem);
                i = i + 1;
                proof {
                    assert(types@ =~= m.buffers@.take(i as int).map_values(|p: MslBufferParam| p.elem));
                }
            }
            proof {
                assert(m.buffers@.take(m.buffers@.len() as int) =~= m.buffers@);
            }
            m.output_line_size
        },
        None => 1,
    };
    Msl4SpecKey { entry: String::from_str(entry), line, types, fast_math }
}

/// How a buffer is viewed as a Metal tensor.
#[derive(Debug, Clone)]
pub struct TensorView {
    pub dims: Vec<isize>,
    pub strides: Vec<isize>,
    pub dtype: TensorDataType,
}

/// The buffers of a module, or none.
pub open spec fn module_buffers(module: Option<Seq<MslBufferParam>>) -> Seq<MslBufferParam> {
    match module {
        Some(b) => b,
        None => Seq::empty(),
    }
}

/// The element size used to count elements of buffer `i`: that of its element
/// type when the module describes it, else one byte.
pub open spec fn counted_elem_size(bs: Seq<MslBufferParam>, i: int) -> nat {
    if 0 <= i < bs.len() {
        elem_size_spec(bs[i].elem)
    } else {
        1
    }
}

/// The tensor view of binding `i`. A matrix-multiply kernel views a buffer with
/// extended metadata as 2D, (columns, rows) with the matching strides, when its
/// shape and stride offsets and words are present (a missing second extent or
/// stride counts as 1); every other buffer is a dense 1D view of its elements.
pub open spec fn tensor_view_of(
    i: int,
    matmul: bool,
    module: Option<Seq<MslBufferParam>>,
    total_bufs: nat,
    data: Seq<u32>,
    resource_size: u64,
) -> (Seq<isize>, Seq<isize>, TensorDataType) {
    let bs = module_buffers(module);
    let dtype = if 0 <= i < bs.len() {
        match tensor_dtype_of(bs[i].elem) {
            Some(d) => d,
            None => TensorDataType::UInt8,
        }
    } else {
        TensorDataType::UInt8
    };
    let num_ext = ext_total(bs);
    let e = ext_total(bs.take(if i < bs.len() { i } else { bs.len() as int }));
    let shape_offs = 2 * total_bufs + num_ext;
    let stride_offs = shape_offs + num_ext;
    let len = data.len();
    let flat = (
        seq![((resource_size as nat) / counted_elem_size(bs, i)) as isize],
        seq![1isize],
        dtype,
    );
    if matmul && e < num_ext && len > shape_offs + e && len > stride_offs + e {
        let sb = data[(shape_offs + e) as int] as int;
        let tb = data[(stride_offs + e) as int] as int;
        if sb < len && tb < len {
            let d0 = data[sb] as isize;
            let d1 = if sb + 1 < len { data[sb + 1] as isize } else { 1isize };
            let s0 = data[tb] as isize;
            let s1 = if tb + 1 < len { data[tb + 1] as isize } else { 1isize };
            (seq![d1, d0], seq![s1, s0], dtype)
        } else {
            flat
        }
    } else {
        flat
    }
}

fn ext_before(bs: &Vec<MslBufferParam>, i: usize) -> (r: usize)
    ensures
        r == ext_total(bs@.take(if i < bs@.len() { i as int } else { bs@.len() as int })),
        r <= ext_total(bs@),
{
    let stop = if i < bs.len() { i } else { bs.len() };
    let mut c: usize = 0;
    let mut k: usize = 0;
    while k < stop
        invariant
            stop <= bs.len(),
            0 <= k <= stop,
            c == ext_total(bs@.take(k as int)),
            c <= k,
        decreases stop - k,
    {
        proof {
            assert(bs@.take(k + 1).drop_last() =~= bs@.take(k as int));
        }
        if bs[k].has_extended_meta {
            c = c + 1;
        }
        k = k + 1;
    }
    proof {
        lemma_ext_total_prefix(bs@, stop as int);
    }
    c
}

proof fn lemma_ext_total_prefix(bs: Seq<MslBufferParam>, k: int)
    requires
        0 <= k <= bs.len(),
    ensures
        ext_total(bs.take(k)) <= ext_total(bs),
    decreases bs.len() - k,
{
    if k < bs.len() {
        lemma_ext_total_prefix(bs, k + 1);
        assert(bs.take(k + 1).drop_last() =~= bs.take(k));
    } else {
        assert(bs.take(k) =~= bs);
    }
}

/// The tensor view of binding `i` (see `tensor_view_of`).
pub fn tensor_view(
    i: usize,
    matmul: bool,
    module: Option<&Vec<MslBufferParam>>,
    total_bufs: usize,
    data: &Vec<u32>,
    resource_size: u64,
) -> (v: TensorView)
    requires
        2 * total_bufs + 3 * module_buffers(
            match module {
                Some(b) => Some(b@),
                None => None,
            },
        ).len() <= usize::MAX,
    ensures
        ({
            let t = tensor_view_of(
                i as int,
                matmul,
                match module {
                    Some(b) => Some(b@),
                    None => None,
                },
                total_bufs as nat,
                data@,
                resource_size,
            );
            v.dims@ == t.0 && v.strides@ == t.1 && v.dtype == t.2
        }),
{
    let empty: Vec<MslBufferParam> = Vec::new();
    let bs: &Vec<MslBufferParam> = match module {
        Some(b) => b,
        None => &empty,
    };
    let (esz, dtype) = if i < bs.len() {
        let p = bs[i];
        let d = match map_elem_type_to_tensor_dtype(p.elem) {
            Some(d) => d,
            None => TensorDataType::UInt8,
        };
        (elem_size_bytes(p.elem), d)
    } else {
        (1, TensorDataType::UInt8)
    };
    let num_ext = count_extended(bs);
    proof {
        lemma_ext_total_bound(bs@);
    }
    let e = ext_before(bs, i);
    let shape_offs = 2 * total_bufs + num_ext;
    let stride_offs = shape_offs + num_ext;
    let len = data.len();
    if matmul && e < num_ext && len > shape_offs + e && len > stride_offs + e {
        let sb = data[shape_offs + e] as usize;
        let tb = data[stride_offs + e] as usize;
        if sb < len && tb < len {
            let d0 = data[sb] as isize;
            let d1 = if sb + 1 < len { data[sb + 1] as isize } else { 1 };
            let s0 = data[tb] as isize;
            let s1 = if tb + 1 < len { data[tb + 1] as isize } else { 1 };
            let mut dims: Vec<isize> = Vec::new();
            dims.push(d1);
            dims.push(d0);
            let mut strides: Vec<isize> = Vec::new();
            strides.push(s1);
            strides.push(s0);
            proof {
                assert(dims@ =~= seq![d1, d0]);
                assert(strides@ =~= seq![s1, s0]);
            }
            return TensorView { dims, strides, dtype };
        }
    }
    let count = (resource_size / (esz as u64)) as isize;
    let mut dims: Vec<isize> = Vec::new();
    dims.push(count);
    let mut strides: Vec<isize> = Vec::new();
    strides.push(1);
    proof {
        assert(dims@ =~= seq![count]);
        assert(strides@ =~= seq![1isize]);
    }
    TensorView { dims, strides, dtype }
}

/// The scalar length of binding `i`: its byte size over its counted element size.
pub open spec fn scalar_len(bs: Seq<MslBufferParam>, sizes: Seq<u64>, i: int) -> u32 {
    ((sizes[i] as nat) / counted_elem_size(bs, i)) as u32
}

/// The metadata words bound for a dispatch. Without given words, a module's
/// kernel gets base metadata synthesized from the bound resources: the scalar
/// length of every binding, twice (buffer lengths, then logical lengths). Given
/// words are kept, except that a module's kernel has its logical-length section
/// (the words after the first `sizes.len()`, as far as present) replaced by the
/// scalar lengths.
pub open spec fn prepared_metadata(given: Seq<u32>, module: Option<Seq<MslBufferParam>>, sizes: Seq<u64>) -> Seq<u32> {
    let t = sizes.len() as int;
    if given.len() == 0 {
        match module {
            Some(bs) => if t > 0 {
                Seq::new(
                    (2 * t) as nat,
                    |j: int|
                        if j < t {
                            scalar_len(bs, sizes, j)
                        } else {
                            scalar_len(bs, sizes, j - t)
                        },
                )
            } else {
                Seq::empty()
            },
            None => Seq::empty(),
        }
    } else {
        match module {
            Some(bs) => Seq::new(
                given.len(),
                |j: int|
                    if t <= j < 2 * t {
                        scalar_len(bs, sizes, j - t)
                    } else {
                        given[j]
                    },
            ),
            None => given,
        }
    }
}

fn scalar_len_exec(bs: &Vec<MslBufferParam>, sizes: &Vec<u64>, i: usize) -> (r: u32)
    requires
        i < sizes@.len(),
    ensures
        r == scalar_len(bs@, sizes@, i as int),
{
    let esz: usize = if i < bs.len() {
        elem_size_bytes(bs[i].elem)
    } else {
        1
    };
    (sizes[i] / (esz as u64)) as u32
}

/// The metadata words bound for a dispatch (see `prepared_metadata`).
pub fn prepare_metadata(given: &Vec<u32>, module: Option<&Vec<MslBufferParam>>, sizes: &Vec<u64>) -> (r: Vec<u32>)
    requires
        2 * sizes@.len() <= usize::MAX,
    ensures
        r@ == prepared_metadata(
            given@,
            match module {
                Some(b) => Some(b@),
                None => None,
            },
            sizes@,
        ),
{
    let t = sizes.len();
    if given.len() == 0 {
        match module {
            Some(bs) => {
                let mut v: Vec<u32> = Vec::new();
                if t == 0 {
                    proof {
                        assert(v@ =~= Seq::<u32>::empty());
                    }
                    return v;
                }
                let mut i: usize = 0;
                while i < t
                    invariant
                        t == sizes.len(),
                        0 <= i <= t,
                        v@.len() == i,
                        forall|j: int| 0 <= j < i ==> #[trigger] v@[j] == scalar_len(bs@, sizes@, j),
                    decreases t - i,
                {
                    v.push(scalar_len_exec(bs, sizes, i));
                    i = i + 1;
                }
                let mut i: usize = 0;
                while i < t
                    invariant
                        t == sizes.len(),
                        2 * t <= usize::MAX,
                        0 <= i <= t,
                        v@.len() == t + i,
                        forall|j: int| 0 <= j < t ==> #[trigger] v@[j] == scalar_len(bs@, sizes@, j),
                        forall|j: int| t <= j < t + i ==> #[trigger] v@[j] == scalar_len(bs@, sizes@, j - t),
                    decreases t - i,
                {
                    let l = v[i];
                    v.push(l);
                    i = i + 1;
                }
                proof {
                    let want = prepared_metadata(given@, Some(bs@), sizes@);
                    assert(v@ =~= want);
                }
                v
            },
            None => Vec::new(),
        }
    } else {
        let mut meta: Vec<u32> = given.clone();
        match module {
            Some(bs) => {
                let mut i: usize = 0;
                while i < t
                    invariant
                        t == sizes.len(),
                        2 * t <= usize::MAX,
                        0 <= i <= t,
                        meta@.len() == given@.len(),
                        forall|j: int| 0 <= j < meta@.len() ==> #[trigger] meta@[j] == (if t <= j < t + i {
                            scalar_len(bs@, sizes@, j - t)
                        } else {
                            given@[j]
                        }),
                    decreases t - i,
                {
                    if meta.len() > t + i {
                        let l = scalar_len_exec(bs, sizes, i);
                        meta.set(t + i, l);
                    }
                    i = i + 1;
                }
                proof {
                    let want = prepared_metadata(given@, Some(bs@), sizes@);
                    assert(meta@ =~= want);
                }
                meta
            },
            None => {
                proof {
                    assert(meta@ =~= given@);
                }
                meta
            },
        }
    }
}

/// The first writable buffer among the first `k`.
pub open spec fn first_writeable(bs: Seq<MslBufferParam>, k: int) -> Option<int>
    decreases k,
{
    if k <= 0 {
        None
    } else {
        match first_writeable(bs, k - 1) {
            Some(i) => Some(i),
            None => if bs[k - 1].is_writeable {
                Some(k - 1)
            } else {
                None
            },
        }
    }
}

proof fn lemma_first_writeable_bound(bs: Seq<MslBufferParam>, k: int)
    requires
        0 <= k <= bs.len(),
    ensures
        first_writeable(bs, k) matches Some(i) ==> 0 <= i < k,
    decreases k,
{
    if k > 0 {
        lemma_first_writeable_bound(bs, k - 1);
    }
}

/// The first writable buffer of a module.
pub fn find_writeable(bs: &Vec<MslBufferParam>) -> (r: Option<usize>)
    ensures
        r matches Some(i) ==> first_writeable(bs@, bs@.len() as int) == Some(i as int),
        r is None ==> first_writeable(bs@, bs@.len() as int) is None,
        r matches Some(i) ==> i < bs@.len(),
{
    let mut i: usize = 0;
    while i < bs.len()
        invariant
            0 <= i <= bs.len(),
            first_writeable(bs@, i as int) is None,
        decreases bs.len() - i,
    {
        if bs[i].is_writeable {
            proof {
                lemma_first_writeable_stable(bs@, i as int + 1, bs@.len() as int);
            }
            return Some(i);
        }
        i = i + 1;
    }
    None
}

proof fn lemma_first_writeable_stable(bs: Seq<MslBufferParam>, j: int, k: int)
    requires
        0 <= j <= k,
        first_writeable(bs, j) is Some,
    ensures
        first_writeable(bs, k) == first_writeable(bs, j),
    decreases k - j,
{
    if j < k {
        lemma_first_writeable_stable(bs, j, k - 1);
    }
}

/// The auxiliary word a kernel reads as its output length: the scalar length of
/// the module's first writable binding (none without a module or a writable buffer).
pub open spec fn aux_length_of(module: Option<Seq<MslBufferParam>>, sizes: Seq<u64>) -> Option<u32> {
    match module {
        Some(bs) => match first_writeable(bs, bs.len() as int) {
            Some(oi) => Some(scalar_len(bs, sizes, oi)),
            None => None,
        },
        None => None,
    }
}

/// The auxiliary output-length word of a dispatch.
pub fn aux_out_len(module: Option<&Vec<MslBufferParam>>, sizes: &Vec<u64>) -> (r: Option<u32>)
    requires
        module matches Some(bs) ==> (first_writeable(bs@, bs@.len() as int) matches Some(oi) ==> oi
            < sizes@.len()),
    ensures
        r == aux_length_of(
            match module {
                Some(b) => Some(b@),
                None => None,
            },
            sizes@,
        ),
{
    match module {
        Some(bs) => match find_writeable(bs) {
            Some(oi) => Some(scalar_len_exec(bs, sizes, oi)),
            None => None,
        },
        None => None,
    }
}

/// What occupies one slot of a dispatch's argument table.
#[derive(Debug, Clone, Copy, PartialEq, Eq, Structural)]
pub enum BindingKind {
    /// The tensor view of binding `i`.
    Tensor(usize),
    /// The metadata words.
    Metadata,
    /// The output-length word.
    AuxLength,
    /// Scalar argument `i`.
    Scalar(usize),
}

/// The number of argument table slots a dispatch binds.
pub open spec fn binding_count(n_tensors: nat, metadata: bool, aux: bool, n_scalars: nat) -> nat {
    n_tensors + (if metadata { 1nat } else { 0nat }) + (if aux { 1nat } else { 0nat }) + n_scalars
}

/// Slot `j` in binding order: tensors, then the metadata words and the
/// output-length word when bound, then scalars.
pub open spec fn binding_at(n_tensors: nat, metadata: bool, aux: bool, j: int) -> BindingKind {
    let nm: int = if metadata { 1 } else { 0 };
    if j < n_tensors {
        BindingKind::Tensor(j as usize)
    } else if metadata && j == n_tensors {
        BindingKind::Metadata
    } else if aux && j == n_tensors + nm {
        BindingKind::AuxLength
    } else {
        BindingKind::Scalar((j - n_tensors - nm - (if aux { 1int } else { 0int })) as usize)
    }
}

/// All slots of a dispatch, in binding order.
pub open spec fn binding_sequence(n_tensors: nat, metadata: bool, aux: bool, n_scalars: nat) -> Seq<BindingKind> {
    Seq::new(
        binding_count(n_tensors, metadata, aux, n_scalars),
        |j: int| binding_at(n_tensors, metadata, aux, j),
    )
}

fn binding_at_exec(n_tensors: usize, metadata: bool, aux: bool, j: usize) -> (r: BindingKind)
    requires
        j >= n_tensors ==> j - n_tensors >= (if metadata { 1int } else { 0int }) + (if aux { 1int } else { 0int })
            || (metadata && j == n_tensors) || (aux && j == n_tensors + (if metadata { 1int } else { 0int })),
    ensures
        r == binding_at(n_tensors as nat, metadata, aux, j as int),
{
    if j < n_tensors {
        BindingKind::Tensor(j)
    } else if metadata && j == n_tensors {
        BindingKind::Metadata
    } else {
        let nm: usize = if metadata { 1 } else { 0 };
        if aux && j - n_tensors == nm {
            BindingKind::AuxLength
        } else {
            let na: usize = if aux { 1 } else { 0 };
            BindingKind::Scalar(j - n_tensors - nm - na)
        }
    }
}

/// The capacity an argument table is created with: one slot per buffer and
/// scalar, plus one for given metadata and one when the kernel reads an output length.
pub fn argument_table_capacity(n_buffers: usize, n_scalars: usize, metadata_given: bool, want_aux: bool) -> (r: usize)
    requires
        n_buffers + n_scalars + 2 <= usize::MAX,
    ensures
        r == n_buffers + n_scalars + (if metadata_given { 1int } else { 0 }) + (if want_aux { 1int } else { 0 }),
{
    let meta: usize = if metadata_given { 1 } else { 0 };
    let aux: usize = if want_aux { 1 } else { 0 };
    n_buffers + n_scalars + meta + aux
}

/// The slots a dispatch fills, and whether it gives up: binding stops right
/// after the first slot at an index past the capacity.
#[derive(Debug, Clone)]
pub struct BindingPlan {
    pub slots: Vec<BindingKind>,
    pub overflow: bool,
}

/// Plans the argument table slots of a dispatch (see `binding_sequence`).
pub fn plan_bindings(n_tensors: usize, metadata: bool, aux: bool, n_scalars: usize, capacity: usize) -> (p: BindingPlan)
    requires
        capacity < usize::MAX,
        n_tensors + n_scalars + 2 <= usize::MAX,
    ensures
        ({
            let full = binding_sequence(n_tensors as nat, metadata, aux, n_scalars as nat);
            &&& p.overflow == (full.len() > capacity)
            &&& p.overflow ==> p.slots@ == full.take(capacity + 1)
            &&& !p.overflow ==> p.slots@ == full
        }),
{
    let ghost full = binding_sequence(n_tensors as nat, metadata, aux, n_scalars as nat);
    let nm: usize = if metadata { 1 } else { 0 };
    let na: usize = if aux { 1 } else { 0 };
    let count = n_tensors + nm + na + n_scalars;
    let mut slots: Vec<BindingKind> = Vec::new();
    let mut j: usize = 0;
    while j < count
        invariant
            full == binding_sequence(n_tensors as nat, metadata, aux, n_scalars as nat),
            count == full.len(),
            count == n_tensors + nm + na + n_scalars,
            nm == (if metadata { 1int } else { 0int }),
            na == (if aux { 1int } else { 0int }),
            capacity < usize::MAX,
            0 <= j <= count,
            j <= capacity,
            slots@.len() == j,
            forall|k: int| 0 <= k < j ==> #[trigger] slots@[k] == full[k],
        decreases count - j,
    {
        slots.push(binding_at_exec(n_tensors, metadata, aux, j));
        j = j + 1;
        if j > capacity {
            proof {
                assert(slots@ =~= full.take(capacity + 1));
            }
            return BindingPlan { slots, overflow: true };
        }
    }
    proof {
        assert(slots@ =~= full);
    }
    BindingPlan { slots, overflow: false }
}

/// A grid extent in threads or threadgroups.
#[derive(Debug, Clone, Copy, PartialEq, Eq, Structural)]
pub struct GridSize {
    pub width: usize,
    pub height: usize,
    pub depth: usize,
}

/// The threadgroups of a dispatch and the threads of each.
#[derive(Debug, Clone, Copy, PartialEq, Eq, Structural)]
pub struct DispatchSize {
    pub groups: GridSize,
    pub threads: GridSize,
}

/// `a / b` rounded up.
pub open spec fn ceil_div(a: nat, b: nat) -> nat {
    ((a + b - 1) as nat) / b
}

pub open spec fn max_nat(a: nat, b: nat) -> nat {
    if a > b { a } else { b }
}

pub open spec fn min_nat(a: nat, b: nat) -> nat {
    if a < b { a } else { b }
}

/// The geometry of an MPP matrix multiply: one threadgroup per 64x32 tile of
/// the (M, N) output (buffer 2's shape from metadata, at least one group per
/// axis), and four SIMD groups per threadgroup, capped by the pipeline limit
/// but never below one SIMD group. None when the output shape is not present.
pub open spec fn matmul_dispatch_of(
    bs: Seq<MslBufferParam>,
    total_bufs: nat,
    data: Seq<u32>,
    simd_width: usize,
    max_threads: usize,
) -> Option<DispatchSize> {
    if bs.len() < 3 {
        None
    } else {
        let num_ext = ext_total(bs);
        let shape_offs = 2 * total_bufs + num_ext;
        let e = (if bs[0].has_extended_meta { 1nat } else { 0nat }) + (if bs[1].has_extended_meta {
            1nat
        } else {
            0nat
        });
        if e < num_ext && data.len() > shape_offs + e {
            let sb = data[(shape_offs + e) as int] as int;
            if sb + 1 < data.len() {
                let m = data[sb] as nat;
                let n = data[sb + 1] as nat;
                let want = max_nat(simd_width as nat, 1) * 4;
                let tg = max_nat(min_nat(want, max_threads as nat), simd_width as nat);
                Some(
                    DispatchSize {
                        groups: GridSize {
                            width: max_nat(ceil_div(n, 32), 1) as usize,
                            height: max_nat(ceil_div(m, 64), 1) as usize,
                            depth: 1,
                        },
                        threads: GridSize { width: tg as usize, height: 1, depth: 1 },
                    },
                )
            } else {
                None
            }
        } else {
            None
        }
    }
}

/// The MPP matrix multiply geometry (see `matmul_dispatch_of`).
pub fn matmul_dispatch(
    bs: &Vec<MslBufferParam>,
    total_bufs: usize,
    data: &Vec<u32>,
    simd_width: usize,
    max_threads: usize,
) -> (r: Option<DispatchSize>)
    requires
        2 * total_bufs + 3 * bs@.len() <= usize::MAX,
        simd_width <= usize::MAX / 4,
    ensures
        r == matmul_dispatch_of(bs@, total_bufs as nat, data@, simd_width, max_threads),
{
    if bs.len() < 3 {
        return None;
    }
    let num_ext = count_extended(bs);
    proof {
        lemma_ext_total_bound(bs@);
    }
    let shape_offs = 2 * total_bufs + num_ext;
    let mut e: usize = 0;
    if bs[0].has_extended_meta {
        e = e + 1;
    }
    if bs[1].has_extended_meta {
        e = e + 1;
    }
    if e < num_ext && data.len() > shape_offs + e {
        let sb = data[shape_offs + e] as u64;
        if sb + 1 < data.len() as u64 {
            let m = data[sb as usize] as u64;
            let n = data[(sb + 1) as usize] as u64;
            let gx = (n + 31) / 32;
            let gy = (m + 63) / 64;
            let want = (if simd_width > 1 { simd_width } else { 1 }) * 4;
            let capped = if want < max_threads { want } else { max_threads };
            let tg = if capped > simd_width { capped } else { simd_width };
            let gw: usize = if gx > 1 { gx as usize } else { 1 };
            let gh: usize = if gy > 1 { gy as usize } else { 1 };
            return Some(
                DispatchSize {
                    groups: GridSize { width: gw, height: gh, depth: 1 },
                    threads: GridSize { width: tg, height: 1, depth: 1 },
                },
            );
        }
    }
    None
}

/// Threads per threadgroup of an element-wise dispatch: 64, 32, 16 or 8 as the
/// work allows, else one group as wide as the work (at least one thread).
pub open spec fn threadgroup_width(items: nat) -> nat {
    if items >= 64 {
        64
    } else if items >= 32 {
        32
    } else if items >= 16 {
        16
    } else if items >= 8 {
        8
    } else {
        max_nat(items, 1)
    }
}

/// The geometry of an element-wise kernel: one work item per line of the
/// output's logical length (read from the prepared metadata, zero when the
/// metadata is shorter than two sections), packed into 1D threadgroups. None
/// without a writable buffer.
pub open spec fn elementwise_dispatch_of(
    bs: Seq<MslBufferParam>,
    output_line_size: u32,
    total_bufs: nat,
    data: Seq<u32>,
) -> Option<DispatchSize> {
    match first_writeable(bs, bs.len() as int) {
        None => None,
        Some(i) => {
            let len: nat = if data.len() >= total_bufs * 2 {
                data[total_bufs + i] as nat
            } else {
                0
            };
            let line: nat = if output_line_size > 0 { output_line_size as nat } else { 1 };
            let items: nat = if len > 0 { ceil_div(len, line) } else { 0 };
            let tg = threadgroup_width(items);
            Some(
                DispatchSize {
                    groups: GridSize { width: ceil_div(items, tg) as usize, height: 1, depth: 1 },
                    threads: GridSize { width: tg as usize, height: 1, depth: 1 },
                },
            )
        },
    }
}

/// The element-wise geometry (see `elementwise_dispatch_of`).
pub fn elementwise_dispatch(
    bs: &Vec<MslBufferParam>,
    output_line_size: u32,
    total_bufs: usize,
    data: &Vec<u32>,
) -> (r: Option<DispatchSize>)
    requires
        2 * total_bufs <= usize::MAX,
        data@.len() >= total_bufs * 2 ==> (first_writeable(bs@, bs@.len() as int) matches Some(i)
            ==> total_bufs + i < data@.len()),
    ensures
        r == elementwise_dispatch_of(bs@, output_line_size, total_bufs as nat, data@),
{
    match find_writeable(bs) {
        None => None,
        Some(i) => {
            let len: u64 = if data.len() >= total_bufs * 2 {
                data[total_bufs + i] as u64
            } else {
                0
            };
            let line: u64 = if output_line_size > 0 { output_line_size as u64 } else { 1 };
            let items: u64 = if len > 0 { (len + line - 1) / line } else { 0 };
            let tg: u64 = if items >= 64 {
                64
            } else if items >= 32 {
                32
            } else if items >= 16 {
                16
            } else if items >= 8 {
                8
            } else if items > 1 {
                items
            } else {
                1
            };
            let groups = (items + tg - 1) / tg;
            Some(
                DispatchSize {
                    groups: GridSize { width: groups as usize, height: 1, depth: 1 },
                    threads: GridSize { width: tg as usize, height: 1, depth: 1 },
                },
            )
        },
    }
}

/// The geometry of a dispatch: the kernel's own cube dimensions in one group,
/// unless the matrix-multiply or element-wise geometry applies.
pub open spec fn dispatch_of(
    matmul: bool,
    module: Option<Msl4Module>,
    total_bufs: nat,
    raw_metadata: Seq<u32>,
    prepared: Seq<u32>,
    cube_dim: Dim3,
    simd_width: usize,
    max_threads: usize,
) -> DispatchSize {
    let default = DispatchSize {
        groups: GridSize { width: 1, height: 1, depth: 1 },
        threads: GridSize {
            width: cube_dim.x as usize,
            height: cube_dim.y as usize,
            depth: cube_dim.z as usize,
        },
    };
    let planned = match module {
        Some(m) => if matmul {
            matmul_dispatch_of(m.buffers@, total_bufs, raw_metadata, simd_width, max_threads)
        } else {
            elementwise_dispatch_of(m.buffers@, m.output_line_size, total_bufs, prepared)
        },
        None => None,
    };
    match planned {
        Some(d) => d,
        None => default,
    }
}

/// The geometry of a dispatch (see `dispatch_of`).
pub fn plan_dispatch(
    matmul: bool,
    module: Option<&Msl4Module>,
    total_bufs: usize,
    raw_metadata: &Vec<u32>,
    prepared: &Vec<u32>,
    cube_dim: Dim3,
    simd_width: usize,
    max_threads: usize,
) -> (r: DispatchSize)
    requires
        module matches Some(m) ==> 2 * total_bufs + 3 * m.buffers@.len() <= usize::MAX,
        simd_width <= usize::MAX / 4,
        module matches Some(m) ==> (prepared@.len() >= total_bufs * 2 ==> (first_writeable(
            m.buffers@,
            m.buffers@.len() as int,
        ) matches Some(i) ==> total_bufs + i < prepared@.len())),
    ensures
        r == dispatch_of(
            matmul,
            match module {
                Some(m) => Some(*m),
                None => None,
            },
            total_bufs as nat,
            raw_metadata@,
            prepared@,
            cube_dim,
            simd_width,
            max_threads,
        ),
{
    let default = DispatchSize {
        groups: GridSize { width: 1, height: 1, depth: 1 },
        threads: GridSize {
            width: cube_dim.x as usize,
            height: cube_dim.y as usize,
            depth: cube_dim.z as usize,
        },
    };
    let planned = match module {
        Some(m) => if matmul {
            matmul_dispatch(&m.buffers, total_bufs, raw_metadata, simd_width, max_threads)
        } else {
            elementwise_dispatch(&m.buffers, m.output_line_size, total_bufs, prepared)
        },
        None => None,
    };
    match planned {
        Some(d) => d,
        None => default,
    }
}

/// `v + 1`, saturating at `u64::MAX`.
pub open spec fn bump(v: u64) -> u64 {
    if v == u64::MAX { v } else { (v + 1) as u64 }
}

fn bump_exec(v: u64) -> (r: u64)
    ensures
        r == bump(v),
{
    match v.checked_add(1) {
        Some(x) => x,
        None => u64::MAX,
    }
}

/// What submitting an encoded command buffer amounts to.
#[derive(Debug, Clone, Copy, PartialEq, Eq, Structural)]
pub enum Submission {
    /// Held back until the next flush.
    Deferred,
    /// Committed now; the queue signals the shared event with this value.
    Committed(u64),
}

/// What a synchronization does: commit what was held back (signalling the given
/// fence value), then wait until the event reaches the target, if any work was
/// ever signalled.
#[derive(Debug, Clone, Copy, PartialEq, Eq, Structural)]
pub struct SyncPlan {
    pub flushed: Option<u64>,
    pub wait_for: Option<u64>,
}

/// The submission state of a server: a ring of in-flight frames, each
/// remembering the fence value its work signals, the last fence value
/// signalled, and the command buffers held back for a grouped commit.
pub struct FrameScheduler {
    frame_cursor: usize,
    fence_value: u64,
    inflight_fences: Vec<u64>,
    pending: usize,
    defer_commit: bool,
}

impl FrameScheduler {
    pub closed spec fn cursor(&self) -> usize {
        self.frame_cursor
    }

    pub closed spec fn fence(&self) -> u64 {
        self.fence_value
    }

    pub closed spec fn frame_fences(&self) -> Seq<u64> {
        self.inflight_fences@
    }

    pub closed spec fn pending_count(&self) -> usize {
        self.pending
    }

    pub closed spec fn defers(&self) -> bool {
        self.defer_commit
    }

    /// The cursor names a frame, and no frame waits on a fence beyond the last one signalled.
    pub open spec fn wf(&self) -> bool {
        &&& self.frame_fences().len() >= 1
        &&& self.cursor() < self.frame_fences().len()
        &&& forall|i: int|
            0 <= i < self.frame_fences().len() ==> #[trigger] self.frame_fences()[i] <= self.fence()
    }

    /// A scheduler with `frames_in_flight` idle frames and nothing signalled.
    pub fn new(frames_in_flight: usize, defer_commit: bool) -> (r: Self)
        requires
            frames_in_flight >= 1,
        ensures
            r.wf(),
            r.cursor() == 0,
            r.fence() == 0,
            r.frame_fences() == Seq::new(frames_in_flight as nat, |i: int| 0u64),
            r.pending_count() == 0,
            r.defers() == defer_commit,
    {
        let mut fences: Vec<u64> = Vec::new();
        while fences.len() < frames_in_flight
            invariant
                fences.len() <= frames_in_flight,
                forall|i: int| 0 <= i < fences@.len() ==> fences@[i] == 0,
            decreases frames_in_flight - fences.len(),
        {
            fences.push(0);
        }
        let r = FrameScheduler {
            frame_cursor: 0,
            fence_value: 0,
            inflight_fences: fences,
            pending: 0,
            defer_commit,
        };
        assert(r.frame_fences() =~= Seq::new(frames_in_flight as nat, |i: int| 0u64));
        r
    }

    /// The frame index in use.
    pub fn frame_cursor(&self) -> (r: usize)
        ensures
            r == self.cursor(),
    {
        self.frame_cursor
    }

    /// The last fence value signalled.
    pub fn fence_value(&self) -> (r: u64)
        ensures
            r == self.fence(),
    {
        self.fence_value
    }

    /// The number of command buffers held back.
    pub fn pending(&self) -> (r: usize)
        ensures
            r == self.pending_count(),
    {
        self.pending
    }

    /// Moves to the next frame of a ring of `num_allocators` command allocators
    /// (without allocators the cursor stays). When that frame still has
    /// unfinished work, its fence is returned (wait for it, then release the
    /// frame's transient objects) and the frame is marked idle.
    pub fn begin_frame(&mut self, num_allocators: usize) -> (r: Option<u64>)
        requires
            old(self).wf(),
            num_allocators <= old(self).frame_fences().len(),
        ensures
            final(self).wf(),
            final(self).fence() == old(self).fence(),
            final(self).pending_count() == old(self).pending_count(),
            final(self).defers() == old(self).defers(),
            num_allocators == 0 ==> final(self).cursor() == old(self).cursor() && final(self).frame_fences() == old(self).frame_fences() && r is None,
            num_allocators > 0 ==> ({
                let c = ((old(self).cursor() + 1) % (num_allocators as int)) as usize;
                let prev = old(self).frame_fences()[c as int];
                &&& final(self).cursor() == c
                &&& prev > 0 ==> r == Some(prev) && final(self).frame_fences() == old(self).frame_fences().update(c as int, 0)
                &&& prev == 0 ==> r is None && final(self).frame_fences() == old(self).frame_fences()
            }),
            r matches Some(f) ==> 0 < f <= final(self).fence(),
    {
        if num_allocators == 0 {
            return None;
        }
        let n = self.inflight_fences.len();
        assert(self.frame_cursor < n);
        let c = (self.frame_cursor + 1) % num_allocators;
        self.frame_cursor = c;
        let prev = self.inflight_fences[c];
        if prev > 0 {
            self.inflight_fences.set(c, 0);
            Some(prev)
        } else {
            None
        }
    }

    /// Records an encoded command buffer: held back when commits are grouped,
    /// otherwise committed with the next fence value, which the current frame
    /// then waits on.
    pub fn submit(&mut self) -> (r: Submission)
        requires
            old(self).wf(),
            old(self).pending_count() < usize::MAX,
        ensures
            final(self).wf(),
            final(self).cursor() == old(self).cursor(),
            final(self).defers() == old(self).defers(),
            old(self).defers() ==> r == Submission::Deferred && final(self).pending_count() == old(self).pending_count() + 1 && final(self).fence() == old(self).fence() && final(self).frame_fences() == old(self).frame_fences(),
            !old(self).defers() ==> r == Submission::Committed(bump(old(self).fence())) && final(self).fence() == bump(old(self).fence()) && final(self).pending_count() == old(self).pending_count() && final(self).frame_fences() == old(self).frame_fences().update(
                old(self).cursor() as int,
                bump(old(self).fence()),
            ),
    {
        if self.defer_commit {
            self.pending = self.pending + 1;
            Submission::Deferred
        } else {
            let f = bump_exec(self.fence_value);
            self.fence_value = f;
            let c = self.frame_cursor;
            self.inflight_fences.set(c, f);
            Submission::Committed(f)
        }
    }

    /// Commits the held-back command buffers as one group: the next fence value
    /// is signalled and the current frame waits on it. Nothing happens when
    /// nothing is held back.
    pub fn flush(&mut self) -> (r: Option<u64>)
        requires
            old(self).wf(),
        ensures
            final(self).wf(),
            final(self).cursor() == old(self).cursor(),
            final(self).defers() == old(self).defers(),
            final(self).pending_count() == 0,
            old(self).pending_count() == 0 ==> r is None && final(self).fence() == old(self).fence()
                && final(self).frame_fences() == old(self).frame_fences(),
            old(self).pending_count() > 0 ==> r == Some(bump(old(self).fence())) && final(self).fence() == bump(old(self).fence()) && final(self).frame_fences() == old(self).frame_fences().update(old(self).cursor() as int, bump(old(self).fence())),
    {
        if self.pending == 0 {
            return None;
        }
        let f = bump_exec(self.fence_value);
        self.fence_value = f;
        let c = self.frame_cursor;
        self.inflight_fences.set(c, f);
        self.pending = 0;
        Some(f)
    }

    /// Plans a synchronization: grouped commits are flushed first; then the
    /// last signalled fence is awaited, unless nothing was ever signalled.
    pub fn sync(&mut self) -> (r: SyncPlan)
        requires
            old(self).wf(),
        ensures
            final(self).wf(),
            final(self).cursor() == old(self).cursor(),
            final(self).defers() == old(self).defers(),
            old(self).defers() && old(self).pending_count() > 0 ==> r.flushed == Some(
                bump(old(self).fence()),
            ) && final(self).fence() == bump(old(self).fence()) && final(self).pending_count()
                == 0 && final(self).frame_fences() == old(self).frame_fences().update(
                old(self).cursor() as int,
                bump(old(self).fence()),
            ),
            !(old(self).defers() && old(self).pending_count() > 0) ==> r.flushed is None && final(self).fence() == old(self).fence() && final(self).pending_count() == old(self).pending_count() && final(self).frame_fences() == old(self).frame_fences(),
            r.wait_for == (if final(self).fence() == 0 {
                None
            } else {
                Some(final(self).fence())
            }),
    {
        let flushed = if self.defer_commit && self.pending > 0 {
            self.flush()
        } else {
            None
        };
        let target = self.fence_value;
        SyncPlan { flushed, wait_for: if target == 0 { None } else { Some(target) } }
    }
}

/// Signalled fence values never decrease: each signal is the next value
/// (saturating at `u64::MAX`).
pub proof fn law_fences_monotone(v: u64)
    ensures
        bump(v) >= v,
        v < u64::MAX ==> bump(v) == v + 1,
{
}

/// In a consistent scheduler every frame's pending work is covered by the last
/// signalled fence, so waiting for that fence (as a synchronization does)
/// waits for all frames; and a frame with work implies a nonzero wait target.
pub proof fn law_sync_target_covers_frames(s: FrameScheduler)
    requires
        s.wf(),
    ensures
        forall|i: int| 0 <= i < s.frame_fences().len() ==> #[trigger] s.frame_fences()[i] <= s.fence(),
        forall|i: int| 0 <= i < s.frame_fences().len() && #[trigger] s.frame_fences()[i] > 0 ==> s.fence() > 0,
{
}

/// Rounding up: `ceil_div(a, b)` blocks of `b` cover `a`, with less than one block to spare.
pub proof fn lemma_ceil_div(a: nat, b: nat)
    requires
        b >= 1,
    ensures
        ceil_div(a, b) * b >= a,
        ceil_div(a, b) * b < a + b,
{
    let x = (a + b - 1) as int;
    lemma_fundamental_div_mod(x, b as int);
    lemma_mod_pos_bound(x, b as int);
    assert(ceil_div(a, b) == x / (b as int));
    assert((b as int) * (x / (b as int)) == ceil_div(a, b) * b) by (nonlinear_arith)
        requires
            ceil_div(a, b) == x / (b as int),
    ;
}

/// An element-wise dispatch covers the whole output: its lanes span at least
/// the logical length, its threadgroups span every work item with less than one
/// group to spare, and a threadgroup has between 1 and 64 threads.
pub proof fn law_elementwise_grid_covers(len: nat, line: nat)
    requires
        line >= 1,
    ensures
        ({
            let items: nat = if len > 0 { ceil_div(len, line) } else { 0 };
            let tg = threadgroup_width(items);
            &&& items * line >= len
            &&& 1 <= tg <= 64
            &&& ceil_div(items, tg) * tg >= items
            &&& ceil_div(items, tg) * tg < items + tg
        }),
{
    let items: nat = if len > 0 { ceil_div(len, line) } else { 0 };
    if len > 0 {
        lemma_ceil_div(len, line);
    }
    let tg = threadgroup_width(items);
    lemma_ceil_div(items, tg);
}

/// A matrix-multiply dispatch covers the (M, N) output with 64x32 tiles.
pub proof fn law_matmul_grid_covers(
    bs: Seq<MslBufferParam>,
    total_bufs: nat,
    data: Seq<u32>,
    simd_width: usize,
    max_threads: usize,
)
    requires
        matmul_dispatch_of(bs, total_bufs, data, simd_width, max_threads) is Some,
    ensures
        ({
            let d = matmul_dispatch_of(bs, total_bufs, data, simd_width, max_threads)->0;
            let num_ext = ext_total(bs);
            let e = (if bs[0].has_extended_meta { 1nat } else { 0nat }) + (if bs[1].has_extended_meta {
                1nat
            } else {
                0nat
            });
            let sb = data[(2 * total_bufs + num_ext + e) as int] as int;
            &&& (d.groups.width as nat) * 32 >= data[sb + 1]
            &&& (d.groups.height as nat) * 64 >= data[sb]
            &&& d.groups.width >= 1 && d.groups.height >= 1 && d.groups.depth == 1
            &&& d.threads.width >= simd_width
        }),
{
    let num_ext = ext_total(bs);
    let e = (if bs[0].has_extended_meta { 1nat } else { 0nat }) + (if bs[1].has_extended_meta {
        1nat
    } else {
        0nat
    });
    let sb = data[(2 * total_bufs + num_ext + e) as int] as int;
    let m = data[sb] as nat;
    let n = data[sb + 1] as nat;
    lemma_ceil_div(n, 32);
    lemma_ceil_div(m, 64);
    assert(ceil_div(n, 32) <= usize::MAX) by {
        assert(ceil_div(n, 32) * 32 < n + 32);
    }
    assert(ceil_div(m, 64) <= usize::MAX) by {
        assert(ceil_div(m, 64) * 64 < m + 64);
    }
}

/// Prepared metadata keeps the given words' count; synthesized metadata has
/// two sections of one word per binding, the second repeating the first.
pub proof fn law_prepared_metadata_shape(given: Seq<u32>, module: Option<Seq<MslBufferParam>>, sizes: Seq<u64>)
    ensures
        given.len() > 0 ==> prepared_metadata(given, module, sizes).len() == given.len(),
        given.len() > 0 ==> forall|j: int|
            0 <= j < given.len() && !(sizes.len() <= j < 2 * sizes.len()) ==> #[trigger] prepared_metadata(
                given,
                module,
                sizes,
            )[j] == given[j],
        given.len() == 0 && module is Some && sizes.len() > 0 ==> ({
            let m = prepared_metadata(given, module, sizes);
            &&& m.len() == 2 * sizes.len()
            &&& forall|j: int| 0 <= j < sizes.len() ==> #[trigger] m[j] == m[j + sizes.len()]
        }),
        module is None ==> prepared_metadata(given, module, sizes) == given,
{
    if module is None && given.len() == 0 {
        assert(prepared_metadata(given, module, sizes) =~= given);
    }
}

/// Binding order: the tensors take the first slots, in binding order, then the
/// metadata words; every slot is counted once.
pub proof fn law_binding_order(n_tensors: nat, metadata: bool, aux: bool, n_scalars: nat)
    ensures
        forall|i: int| 0 <= i < n_tensors ==> #[trigger] binding_sequence(n_tensors, metadata, aux, n_scalars)[i]
            == BindingKind::Tensor(i as usize),
        binding_sequence(n_tensors, metadata, aux, n_scalars).len() == n_tensors + n_scalars + (if metadata {
            1nat
        } else {
            0nat
        }) + (if aux { 1nat } else { 0nat }),
        metadata ==> binding_sequence(n_tensors, metadata, aux, n_scalars)[n_tensors as int]
            == BindingKind::Metadata,
{
}

/// Without extended metadata on its first three buffers, a convolution keeps
/// the unit geometry.
pub proof fn law_conv_geometry_defaults(bs: Seq<MslBufferParam>, data: Seq<u32>)
    requires
        !has_ext(bs, 0),
        !has_ext(bs, 1),
        !has_ext(bs, 2),
    ensures
        conv_geometry(bs, data) == (ConvGeometry {
            n: 1,
            h: 1,
            w: 1,
            c: 1,
            kh: 1,
            kw: 1,
            o: 1,
            hout: 1,
            wout: 1,
        }),
{
}

/// A kernel is recognised as an MPP matrix multiply by its buffers only when
/// buffers 0 and 1 are half and buffer 2 is float, all three with extended
/// metadata. A kernel that is neither named nor entered as an MPP kernel and
/// whose buffer 2 is not float runs its own generated source.
pub proof fn law_mpp_matmul_signature(kernel_name: Seq<char>, entry: Seq<char>, bs: Seq<MslBufferParam>)
    ensures
        mpp_signature(bs) ==> bs.len() >= 3 && bs[0].elem == ElemType::Float(FloatKind::F16)
            && bs[1].elem == ElemType::Float(FloatKind::F16) && bs[2].elem == ElemType::Float(
            FloatKind::F32,
        ) && bs[0].has_extended_meta && bs[1].has_extended_meta && bs[2].has_extended_meta,
        !seq_contains(kernel_name, "mpp_matmul_2d"@) && !seq_contains(kernel_name, "mpp_convolution2d"@)
            && entry != "mpp_matmul_2d"@ && entry != "mpp_convolution2d"@ && (bs.len() < 3
            || bs[2].elem != ElemType::Float(FloatKind::F32)) ==> pipeline_choice(
            kernel_name,
            entry,
            Some(bs),
        ) == (PipelineChoice {
            source: KernelSource::Generated,
            use_mpp_entry: false,
            matmul_dispatch: false,
        }),
{
}

/// The kernel extents of a convolution come from the weights' HWIO shape
/// words at `s1` (the weights' shape offset): height `data[s1]`, width
/// `data[s1 + 1]`, output channels `data[s1 + 3]`; the input-channel word
/// `data[s1 + 2]` does not enter them.
pub proof fn law_conv_kernel_extents(bs: Seq<MslBufferParam>, data: Seq<u32>, v: u32)
    requires
        bs.len() >= 2,
        bs[1].has_extended_meta,
        word_at(data, 2 * bs.len() + ext_total(bs) + (if bs[0].has_extended_meta { 1int } else { 0int })) + 3 < data.len(),
    ensures
        ({
            let off = 2 * bs.len() + ext_total(bs) + (if bs[0].has_extended_meta { 1int } else { 0int });
            let s1 = word_at(data, off) as int;
            let g = conv_geometry(bs, data);
            &&& g.kh == data[s1] as i32
            &&& g.kw == data[s1 + 1] as i32
            &&& g.o == data[s1 + 3] as i32
            &&& s1 + 2 != off ==> ({
                let g2 = conv_geometry(bs, data.update(s1 + 2, v));
                g2.kh == g.kh && g2.kw == g.kw && g2.o == g.o
            })
        }),
{
}

/// After the tensors, the metadata word and the output-length word, the
/// scalar arguments take the remaining slots in order: slot
/// `count - n_scalars + k` binds scalar `k`, so every scalar is bound exactly
/// once; the metadata word follows the tensors and the output-length word
/// follows it.
pub proof fn law_scalar_slots(n_tensors: nat, metadata: bool, aux: bool, n_scalars: nat)
    ensures
        forall|k: int|
            0 <= k < n_scalars ==> #[trigger] binding_sequence(n_tensors, metadata, aux, n_scalars)[binding_count(
                n_tensors,
                metadata,
                aux,
                n_scalars,
            ) - n_scalars + k] == BindingKind::Scalar(k as usize),
        aux ==> binding_sequence(n_tensors, metadata, aux, n_scalars)[n_tensors + (if metadata { 1int } else { 0int })]
            == BindingKind::AuxLength,
        metadata ==> binding_sequence(n_tensors, metadata, aux, n_scalars)[n_tensors as int]
            == BindingKind::Metadata,
{
}

} // verus!
