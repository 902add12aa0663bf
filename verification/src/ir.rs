//! The element and buffer types of the kernel intermediate representation that
//! the code generators and the dispatcher read, and their MSL spellings.

use vstd::prelude::*;
use vstd::string::*;
use crate::text::{decimal, push_u32};

verus! {

/// Floating-point element kinds.
#[derive(Debug, Clone, Copy, PartialEq, Eq, Structural, Hash)]
pub enum FloatKind {
    E2M1,
    E2M3,
    E3M2,
    E4M3,
    E5M2,
    UE8M0,
    F16,
    BF16,
    Flex32,
    F32,
    TF32,
    F64,
}

/// Signed integer element kinds.
#[derive(Debug, Clone, Copy, PartialEq, Eq, Structural, Hash)]
pub enum IntKind {
    I8,
    I16,
    I32,
    I64,
}

/// Unsigned integer element kinds.
#[derive(Debug, Clone, Copy, PartialEq, Eq, Structural, Hash)]
pub enum UIntKind {
    U8,
    U16,
    U32,
    U64,
}

/// Conceptual element type.
#[derive(Debug, Clone, Copy, PartialEq, Eq, Structural, Hash)]
pub enum ElemType {
    Float(FloatKind),
    Int(IntKind),
    UInt(UIntKind),
    Bool,
}

/// Physical storage of one or more elements.
#[derive(Debug, Clone, Copy, PartialEq, Eq, Structural, Hash)]
pub enum StorageType {
    /// The element type is the physical type.
    Scalar(ElemType),
    /// Packed values of the element type.
    Packed(ElemType, u32),
    /// Atomically accessed element type.
    Atomic(ElemType),
}

/// Types without a storage representation.
#[derive(Debug, Clone, Copy, PartialEq, Eq, Structural, Hash)]
pub enum SemanticType {
    Barrier,
    Pipeline,
    TensorMap,
}

/// The type of a kernel buffer: a scalar, a line (vector) of scalars, or a semantic type.
#[derive(Debug, Clone, Copy, PartialEq, Eq, Structural, Hash)]
pub enum Type {
    Scalar(StorageType),
    Line(StorageType, u32),
    Semantic(SemanticType),
}

/// Whether a kernel may write a buffer.
#[derive(Debug, Clone, Copy, PartialEq, Eq, Structural, Hash)]
pub enum Visibility {
    Read,
    ReadWrite,
}

/// Size of one element in bytes.
pub open spec fn elem_size_spec(e: ElemType) -> nat {
    match e {
        ElemType::Float(f) => match f {
            FloatKind::F16 | FloatKind::BF16 => 2,
            FloatKind::F32 | FloatKind::TF32 | FloatKind::Flex32 => 4,
            FloatKind::F64 => 8,
            _ => 1,
        },
        ElemType::Int(i) => match i {
            IntKind::I8 => 1,
            IntKind::I16 => 2,
            IntKind::I32 => 4,
            IntKind::I64 => 8,
        },
        ElemType::UInt(u) => match u {
            UIntKind::U8 => 1,
            UIntKind::U16 => 2,
            UIntKind::U32 => 4,
            UIntKind::U64 => 8,
        },
        ElemType::Bool => 1,
    }
}

impl ElemType {
    /// Size of one element in bytes.
    pub fn size(&self) -> (r: usize)
        ensures
            r == elem_size_spec(*self),
    {
        match self {
            ElemType::Float(f) => match f {
                FloatKind::F16 | FloatKind::BF16 => 2,
                FloatKind::F32 | FloatKind::TF32 | FloatKind::Flex32 => 4,
                FloatKind::F64 => 8,
                _ => 1,
            },
            ElemType::Int(i) => match i {
                IntKind::I8 => 1,
                IntKind::I16 => 2,
                IntKind::I32 => 4,
                IntKind::I64 => 8,
            },
            ElemType::UInt(u) => match u {
                UIntKind::U8 => 1,
                UIntKind::U16 => 2,
                UIntKind::U32 => 4,
                UIntKind::U64 => 8,
            },
            ElemType::Bool => 1,
        }
    }
}

/// The element type behind a storage type.
pub open spec fn storage_elem(st: StorageType) -> ElemType {
    match st {
        StorageType::Scalar(e) | StorageType::Packed(e, _) | StorageType::Atomic(e) => e,
    }
}

impl StorageType {
    /// The element type behind this storage type.
    pub fn elem_type(&self) -> (r: ElemType)
        ensures
            r == storage_elem(*self),
    {
        match self {
            StorageType::Scalar(e) | StorageType::Packed(e, _) | StorageType::Atomic(e) => *e,
        }
    }
}

/// The storage type of a non-semantic type.
pub open spec fn type_storage(t: Type) -> StorageType
    recommends
        !(t is Semantic),
{
    match t {
        Type::Scalar(st) | Type::Line(st, _) => st,
        Type::Semantic(_) => StorageType::Scalar(ElemType::Bool),
    }
}

/// The number of elements per line of a type (zero for semantic types).
pub open spec fn type_line_size(t: Type) -> u32 {
    match t {
        Type::Scalar(_) => 1,
        Type::Line(_, n) => n,
        Type::Semantic(_) => 0,
    }
}

impl Type {
    /// The storage type; semantic types have none.
    pub fn storage_type(&self) -> (r: StorageType)
        requires
            !(*self is Semantic),
        ensures
            r == type_storage(*self),
    {
        match self {
            Type::Scalar(st) | Type::Line(st, _) => *st,
            Type::Semantic(_) => StorageType::Scalar(ElemType::Bool),
        }
    }

    /// The element type; semantic types have none.
    pub fn elem_type(&self) -> (r: ElemType)
        requires
            !(*self is Semantic),
        ensures
            r == storage_elem(type_storage(*self)),
    {
        self.storage_type().elem_type()
    }

    /// The number of elements per line.
    pub fn line_size(&self) -> (r: u32)
        ensures
            r == type_line_size(*self),
    {
        match self {
            Type::Scalar(_) => 1,
            Type::Line(_, n) => *n,
            Type::Semantic(_) => 0,
        }
    }
}

/// The MSL scalar type name used for an element type; minifloats are stored as `uchar`.
pub open spec fn msl_scalar_name(e: ElemType) -> Seq<char> {
    match e {
        ElemType::Float(f) => match f {
            FloatKind::F16 => "half"@,
            FloatKind::BF16 => "bfloat"@,
            FloatKind::F32 | FloatKind::TF32 | FloatKind::Flex32 => "float"@,
            FloatKind::F64 => "double"@,
            _ => "uchar"@,
        },
        ElemType::Int(i) => match i {
            IntKind::I8 => "char"@,
            IntKind::I16 => "short"@,
            IntKind::I32 => "int"@,
            IntKind::I64 => "long"@,
        },
        ElemType::UInt(u) => match u {
            UIntKind::U8 => "uchar"@,
            UIntKind::U16 => "ushort"@,
            UIntKind::U32 => "uint"@,
            UIntKind::U64 => "ulong"@,
        },
        ElemType::Bool => "bool"@,
    }
}

/// The MSL scalar type name of a storage type's element.
pub fn msl_scalar_type(storage: StorageType) -> (r: &'static str)
    ensures
        r@ == msl_scalar_name(storage_elem(storage)),
{
    match storage.elem_type() {
        ElemType::Float(f) => match f {
            FloatKind::F16 => "half",
            FloatKind::BF16 => "bfloat",
            FloatKind::F32 | FloatKind::TF32 | FloatKind::Flex32 => "float",
            FloatKind::F64 => "double",
            FloatKind::E2M1 | FloatKind::E2M3 | FloatKind::E3M2 | FloatKind::E4M3
            | FloatKind::E5M2 | FloatKind::UE8M0 => "uchar",
        },
        ElemType::Int(i) => match i {
            IntKind::I8 => "char",
            IntKind::I16 => "short",
            IntKind::I32 => "int",
            IntKind::I64 => "long",
        },
        ElemType::UInt(u) => match u {
            UIntKind::U8 => "uchar",
            UIntKind::U16 => "ushort",
            UIntKind::U32 => "uint",
            UIntKind::U64 => "ulong",
        },
        ElemType::Bool => "bool",
    }
}

/// The MSL vector type name for `n` lanes of a storage type (`half4`, ...);
/// widths other than 2, 3 and 4 fall back to the scalar name.
pub open spec fn msl_vector_name(storage: StorageType, n: u32) -> Seq<char> {
    if n == 2 || n == 3 || n == 4 {
        msl_scalar_name(storage_elem(storage)) + decimal(n as nat)
    } else {
        msl_scalar_name(storage_elem(storage))
    }
}

/// The MSL vector type name for `n` lanes of a storage type.
pub fn msl_vector_type(storage: StorageType, n: u32) -> (r: String)
    ensures
        r@ == msl_vector_name(storage, n),
{
    let base = msl_scalar_type(storage);
    let mut s = String::from_str(base);
    if n == 2 || n == 3 || n == 4 {
        push_u32(&mut s, n);
    }
    s
}

/// The MSL element type name for a buffer of the given type; semantic types,
/// which never back a buffer binding, are spelled `uchar`.
pub open spec fn msl_ptr_name(ty: Type) -> Seq<char> {
    match ty {
        Type::Scalar(st) => msl_scalar_name(storage_elem(st)),
        Type::Line(st, n) => msl_vector_name(st, n),
        Type::Semantic(_) => "uchar"@,
    }
}

/// The MSL element type name for a buffer of the given type.
pub fn msl_ptr_type(ty: Type) -> (r: String)
    ensures
        r@ == msl_ptr_name(ty),
{
    match ty {
        Type::Scalar(st) => String::from_str(msl_scalar_type(st)),
        Type::Line(st, n) => msl_vector_type(st, n),
        Type::Semantic(_) => String::from_str("uchar"),
    }
}

} // verus!
