use cubecl_metal4::compiler::{detect_op_from_ir, detect_op_from_name, Msl4Compiler, OpKind};
use cubecl_metal4::ir::{
    msl_ptr_type, msl_scalar_type, msl_vector_type, ElemType, FloatKind, SemanticType,
    StorageType, Type, UIntKind,
};
use cubecl_metal4::kernel::{Arithmetic, Instruction};
use cubecl_metal4::msl4;
use cubecl_metal4::text::{chars_of, contains_chars, push_i32, push_u32, push_usize, starts_with_chars};

#[test]
fn decimal_rendering() {
    let mut s = String::new();
    push_usize(&mut s, 0);
    s.push(' ');
    push_usize(&mut s, 1234567890);
    s.push(' ');
    push_u32(&mut s, u32::MAX);
    s.push(' ');
    push_i32(&mut s, -42);
    s.push(' ');
    push_i32(&mut s, i32::MIN);
    s.push(' ');
    push_i32(&mut s, 7);
    assert_eq!(s, format!("0 1234567890 {} -42 {} 7", u32::MAX, i32::MIN));
}

#[test]
fn substring_search() {
    let hay = chars_of("reduce_sum_1d_kernel");
    assert!(contains_chars(&hay, "sum_"));
    assert!(contains_chars(&hay, ""));
    assert!(!contains_chars(&hay, "kernels"));
    assert!(starts_with_chars(&hay, "reduce"));
    assert!(!starts_with_chars(&hay, "sum"));
    assert_eq!(chars_of("äb"), vec!['ä', 'b']);
}

#[test]
fn msl_type_names() {
    assert_eq!(msl_scalar_type(StorageType::Scalar(ElemType::Bool)), "bool");
    assert_eq!(msl_scalar_type(StorageType::Packed(ElemType::Float(FloatKind::E4M3), 2)), "uchar");
    assert_eq!(msl_scalar_type(StorageType::Atomic(ElemType::UInt(UIntKind::U32))), "uint");
    let half = StorageType::Scalar(ElemType::Float(FloatKind::F16));
    assert_eq!(msl_vector_type(half, 4), "half4");
    assert_eq!(msl_vector_type(half, 1), "half");
    assert_eq!(msl_vector_type(half, 8), "half");
    assert_eq!(msl_ptr_type(Type::Line(StorageType::Atomic(ElemType::UInt(UIntKind::U32)), 2)), "uint2");
    assert_eq!(msl_ptr_type(Type::Scalar(half)), "half");
    assert_eq!(msl_ptr_type(Type::Semantic(SemanticType::Barrier)), "uchar");
    assert_eq!(Type::Line(half, 3).line_size(), 3);
    assert_eq!(Type::Semantic(SemanticType::Pipeline).line_size(), 0);
    assert_eq!(Type::Line(half, 3).elem_type(), ElemType::Float(FloatKind::F16));
}

#[test]
fn operation_from_name() {
    assert_eq!(detect_op_from_name("reduce_sum_1d_x"), Some(OpKind::ReduceSum1D));
    assert_eq!(detect_op_from_name("x_powi_y"), Some(OpKind::Powi));
    assert_eq!(detect_op_from_name("x_pow_y"), Some(OpKind::Powf));
    assert_eq!(detect_op_from_name("mylog1p_"), Some(OpKind::Log1p));
    assert_eq!(detect_op_from_name("add_then_mul_"), Some(OpKind::Add));
    assert_eq!(detect_op_from_name("modulo"), Some(OpKind::Modulo));
    assert_eq!(detect_op_from_name("plain"), None);
    assert_eq!(msl4::detect_op_from_name("x_sin_y"), None);
    assert_eq!(msl4::detect_op_from_name("abs_"), Some(msl4::OpKind::Abs));
}

#[test]
fn operation_from_instructions() {
    let instrs = vec![
        Instruction::Other,
        Instruction::Arithmetic(Arithmetic::Other),
        Instruction::Arithmetic(Arithmetic::Sin),
        Instruction::Arithmetic(Arithmetic::Add),
    ];
    assert_eq!(detect_op_from_ir(&instrs), Some(OpKind::Sin));
    assert_eq!(msl4::detect_op_from_ir(&instrs), Some(msl4::OpKind::Add));
    assert_eq!(detect_op_from_ir(&vec![Instruction::Other]), None);
}

#[test]
fn compiler_properties() {
    let c = Msl4Compiler::new();
    assert_eq!(c.extension(), "metal");
    assert_eq!(c.elem_size(ElemType::Float(FloatKind::BF16)), 2);
    assert_eq!(msl4::Msl4Compiler::new().elem_size(ElemType::Bool), 1);
}
