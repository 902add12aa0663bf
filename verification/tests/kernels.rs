use cubecl_metal4::kernels::{mpp_convolution2d_source, mpp_matmul_2d_source};
use cubecl_metal4::server::{conv2d_geometry, convolution_source, ConvGeometry};
use cubecl_metal4::compiler::MslBufferParam;
use cubecl_metal4::ir::{ElemType, FloatKind};

#[test]
fn matmul_source_text() {
    assert_eq!(mpp_matmul_2d_source(), "#include <metal_stdlib>\n#include <metal_tensor>\n#include <MetalPerformancePrimitives/MetalPerformancePrimitives.h>\nusing namespace metal;\nusing namespace mpp;\nusing namespace mpp::tensor_ops;\n\n[[ kernel ]] void mpp_matmul_2d(\n  tensor<device half, dextents<int, 2>> a [[ buffer(0) ]],\n  tensor<device half, dextents<int, 2>> b [[ buffer(1) ]],\n  tensor<device float, dextents<int, 2>> c [[ buffer(2) ]],\n  uint2 tgpos [[threadgroup_position_in_grid]]) {\n    constexpr auto matmulDescriptor = tensor_ops::matmul2d_descriptor(64, 32, dynamic_length_v<int>);\n    tensor_ops::matmul2d<matmulDescriptor, execution_simdgroups<4>> matmulOp;\n    auto mA = a.slice(0, static_cast<int>(tgpos.y) * 64);\n    auto mB = b.slice(static_cast<int>(tgpos.x) * 32, 0);\n    auto mC = c.slice(static_cast<int>(tgpos.x) * 32, static_cast<int>(tgpos.y) * 64);\n    matmulOp.run(mA, mB, mC);\n}\n");
}

#[test]
fn convolution_source_text() {
    let src = mpp_convolution2d_source(2, 16, -3, 8, 3, 5, 32, 14, -2147483648, 1, 2, 1, 1, 4);
    assert_eq!(src, "#include <metal_stdlib>\n#include <metal_tensor>\n#include <MetalPerformancePrimitives/MetalPerformancePrimitives.h>\nusing namespace metal;\nusing namespace mpp;\nusing namespace mpp::tensor_ops;\n\n// MPP convolution2d (NHWC activation, HWIO weights, NHWO destination)\n[[ kernel ]] void mpp_convolution2d(\n  tensor<device half, dextents<int, 4>> activation [[ buffer(0) ]],\n  tensor<device half, dextents<int, 4>> weights [[ buffer(1) ]],\n  tensor<device float, dextents<int, 4>> destination [[ buffer(2) ]],\n  uint3 tgid [[thread_position_in_grid]]) {\n    constexpr auto desc = tensor_ops::convolution2d_descriptor(\n        int4(14, -2147483648, 32, 2),\n        int4(16, -3, 8, 2),\n        int2(3, 5),\n        tensor_ops::convolution2d_activation_layout::nhwc,\n        tensor_ops::convolution2d_weights_layout::hwio,\n        int2(1, 2),\n        int2(1, 1),\n        4,\n        false,\n        tensor_ops::convolution2d_descriptor::mode::multiply);\n    tensor_ops::convolution2d<desc, execution_simdgroups<4>> convOp;\n    convOp.run(activation, weights, destination);\n}\n");
}

fn ext(elem: ElemType, writeable: bool) -> MslBufferParam {
    MslBufferParam { elem, has_extended_meta: true, is_writeable: writeable }
}

#[test]
fn convolution_geometry_from_metadata() {
    let bufs = vec![
        ext(ElemType::Float(FloatKind::F16), false),
        ext(ElemType::Float(FloatKind::F16), false),
        ext(ElemType::Float(FloatKind::F32), true),
    ];
    let data: Vec<u32> = vec![0, 0, 0, 0, 0, 0, 0, 0, 0, 12, 16, 20, 1, 28, 28, 3, 3, 3, 3, 16, 1, 26, 26, 16];
    let g = conv2d_geometry(&bufs, &data);
    assert_eq!(g, ConvGeometry { n: 1, h: 28, w: 28, c: 3, kh: 3, kw: 3, o: 16, hout: 26, wout: 26 });
    assert_eq!(convolution_source(&bufs, &data), "#include <metal_stdlib>\n#include <metal_tensor>\n#include <MetalPerformancePrimitives/MetalPerformancePrimitives.h>\nusing namespace metal;\nusing namespace mpp;\nusing namespace mpp::tensor_ops;\n\n// MPP convolution2d (NHWC activation, HWIO weights, NHWO destination)\n[[ kernel ]] void mpp_convolution2d(\n  tensor<device half, dextents<int, 4>> activation [[ buffer(0) ]],\n  tensor<device half, dextents<int, 4>> weights [[ buffer(1) ]],\n  tensor<device float, dextents<int, 4>> destination [[ buffer(2) ]],\n  uint3 tgid [[thread_position_in_grid]]) {\n    constexpr auto desc = tensor_ops::convolution2d_descriptor(\n        int4(26, 26, 16, 1),\n        int4(28, 28, 3, 1),\n        int2(3, 3),\n        tensor_ops::convolution2d_activation_layout::nhwc,\n        tensor_ops::convolution2d_weights_layout::hwio,\n        int2(1, 1),\n        int2(1, 1),\n        1,\n        false,\n        tensor_ops::convolution2d_descriptor::mode::multiply);\n    tensor_ops::convolution2d<desc, execution_simdgroups<4>> convOp;\n    convOp.run(activation, weights, destination);\n}\n");
}

#[test]
fn convolution_geometry_defaults_without_metadata() {
    let bufs = vec![
        MslBufferParam { elem: ElemType::Float(FloatKind::F16), has_extended_meta: false, is_writeable: false },
    ];
    let g = conv2d_geometry(&bufs, &vec![5, 6, 7]);
    assert_eq!(g, ConvGeometry { n: 1, h: 1, w: 1, c: 1, kh: 1, kw: 1, o: 1, hout: 1, wout: 1 });
    assert_eq!(convolution_source(&bufs, &vec![]), "#include <metal_stdlib>\n#include <metal_tensor>\n#include <MetalPerformancePrimitives/MetalPerformancePrimitives.h>\nusing namespace metal;\nusing namespace mpp;\nusing namespace mpp::tensor_ops;\n\n// MPP convolution2d (NHWC activation, HWIO weights, NHWO destination)\n[[ kernel ]] void mpp_convolution2d(\n  tensor<device half, dextents<int, 4>> activation [[ buffer(0) ]],\n  tensor<device half, dextents<int, 4>> weights [[ buffer(1) ]],\n  tensor<device float, dextents<int, 4>> destination [[ buffer(2) ]],\n  uint3 tgid [[thread_position_in_grid]]) {\n    constexpr auto desc = tensor_ops::convolution2d_descriptor(\n        int4(1, 1, 1, 1),\n        int4(1, 1, 1, 1),\n        int2(1, 1),\n        tensor_ops::convolution2d_activation_layout::nhwc,\n        tensor_ops::convolution2d_weights_layout::hwio,\n        int2(1, 1),\n        int2(1, 1),\n        1,\n        false,\n        tensor_ops::convolution2d_descriptor::mode::multiply);\n    tensor_ops::convolution2d<desc, execution_simdgroups<4>> convOp;\n    convOp.run(activation, weights, destination);\n}\n");
}

#[test]
fn convolution_geometry_missing_words_keep_defaults() {
    let bufs = vec![
        ext(ElemType::Float(FloatKind::F16), false),
        ext(ElemType::Float(FloatKind::F16), false),
        ext(ElemType::Float(FloatKind::F32), true),
    ];
    // shape base of the activation points too close to the end
    let mut data: Vec<u32> = vec![0; 9];
    data.extend_from_slice(&[14, 12, 0]);
    data.extend_from_slice(&[3, 3, 3, 16]);
    let g = conv2d_geometry(&bufs, &data);
    assert_eq!(g.n, 1);
    assert_eq!(g.kh, 3);
    assert_eq!(g.kw, 3);
    assert_eq!(g.o, 16);
    assert_eq!(g.hout, 0);
    assert_eq!(g.wout, 0);
}

#[test]
fn convolution_source_tells_geometries_apart() {
    let a = mpp_convolution2d_source(1, 8, 8, 3, 3, 3, 16, 6, 6, 1, 1, 1, 1, 1);
    let same = mpp_convolution2d_source(1, 8, 8, 3, 3, 3, 16, 6, 6, 1, 1, 1, 1, 1);
    assert_eq!(a, same);
    let other_channels = mpp_convolution2d_source(1, 8, 8, 31, 3, 3, 16, 6, 6, 1, 1, 1, 1, 1);
    assert_ne!(a, other_channels);
    let other_groups = mpp_convolution2d_source(1, 8, 8, 3, 3, 3, 16, 6, 6, 1, 1, 1, 1, -1);
    assert_ne!(a, other_groups);
}
