//! Source templates of kernels backed by Metal Performance Primitives.

use vstd::prelude::*;
use vstd::string::*;
use crate::text::{lemma_signed_decimal_reads_back, numeral_char, push_i32, signed_decimal};

verus! {

/// Source of the tiled half-precision matrix multiply kernel `mpp_matmul_2d`
/// (64x32 output tiles, four SIMD groups per threadgroup).
pub const MPP_MATMUL_2D_SOURCE: &'static str = "#include <metal_stdlib>\n#include <metal_tensor>\n#include <MetalPerformancePrimitives/MetalPerformancePrimitives.h>\nusing namespace metal;\nusing namespace mpp;\nusing namespace mpp::tensor_ops;\n\n[[ kernel ]] void mpp_matmul_2d(\n  tensor<device half, dextents<int, 2>> a [[ buffer(0) ]],\n  tensor<device half, dextents<int, 2>> b [[ buffer(1) ]],\n  tensor<device float, dextents<int, 2>> c [[ buffer(2) ]],\n  uint2 tgpos [[threadgroup_position_in_grid]]) {\n    constexpr auto matmulDescriptor = tensor_ops::matmul2d_descriptor(64, 32, dynamic_length_v<int>);\n    tensor_ops::matmul2d<matmulDescriptor, execution_simdgroups<4>> matmulOp;\n    auto mA = a.slice(0, static_cast<int>(tgpos.y) * 64);\n    auto mB = b.slice(static_cast<int>(tgpos.x) * 32, 0);\n    auto mC = c.slice(static_cast<int>(tgpos.x) * 32, static_cast<int>(tgpos.y) * 64);\n    matmulOp.run(mA, mB, mC);\n}\n";

/// The MSL source of the MPP 2D matrix multiply kernel.
pub fn mpp_matmul_2d_source() -> (r: String)
    ensures
        r@ == MPP_MATMUL_2D_SOURCE@,
{
    String::from_str(MPP_MATMUL_2D_SOURCE)
}
/// The MSL source of the MPP 2D convolution kernel `mpp_convolution2d` for
/// NHWC activations, HWIO weights and NHWO destination, with the descriptor's
/// extents, strides, dilations and group count written in as decimal literals.
pub open spec fn mpp_convolution2d_text(n: int, h: int, w: int, c: int, kh: int, kw: int, o: int, hout: int, wout: int, stride_h: int, stride_w: int, dilation_h: int, dilation_w: int, groups: int) -> Seq<char> {
    Seq::<char>::empty()
        + "#include <metal_stdlib>\n#include <metal_tensor>\n#include <MetalPerformancePrimitives/MetalPerformancePrimitives.h>\nusing namespace metal;\nusing namespace mpp;\nusing namespace mpp::tensor_ops;\n\n// MPP convolution2d (NHWC activation, HWIO weights, NHWO destination)\n[[ kernel ]] void mpp_convolution2d(\n  tensor<device half, dextents<int, 4>> activation [[ buffer(0) ]],\n  tensor<device half, dextents<int, 4>> weights [[ buffer(1) ]],\n  tensor<device float, dextents<int, 4>> destination [[ buffer(2) ]],\n  uint3 tgid [[thread_position_in_grid]]) {\n    constexpr auto desc = tensor_ops::convolution2d_descriptor(\n        int4("@ + signed_decimal(hout as int)
        + ", "@ + signed_decimal(wout as int)
        + ", "@ + signed_decimal(o as int)
        + ", "@ + signed_decimal(n as int)
        + "),\n        int4("@ + signed_decimal(h as int)
        + ", "@ + signed_decimal(w as int)
        + ", "@ + signed_decimal(c as int)
        + ", "@ + signed_decimal(n as int)
        + "),\n        int2("@ + signed_decimal(kh as int)
        + ", "@ + signed_decimal(kw as int)
        + "),\n        tensor_ops::convolution2d_activation_layout::nhwc,\n        tensor_ops::convolution2d_weights_layout::hwio,\n        int2("@ + signed_decimal(stride_h as int)
        + ", "@ + signed_decimal(stride_w as int)
        + "),\n        int2("@ + signed_decimal(dilation_h as int)
        + ", "@ + signed_decimal(dilation_w as int)
        + "),\n        "@ + signed_decimal(groups as int)
        + ",\n        false,\n        tensor_ops::convolution2d_descriptor::mode::multiply);\n    tensor_ops::convolution2d<desc, execution_simdgroups<4>> convOp;\n    convOp.run(activation, weights, destination);\n}\n"@
}

/// The MSL source of the MPP 2D convolution kernel for the given geometry.
pub fn mpp_convolution2d_source(
    n: i32, h: i32, w: i32, c: i32, kh: i32, kw: i32, o: i32, hout: i32, wout: i32, stride_h: i32, stride_w: i32, dilation_h: i32, dilation_w: i32, groups: i32,
) -> (r: String)
    ensures
        r@ == mpp_convolution2d_text(
            n as int,
            h as int,
            w as int,
            c as int,
            kh as int,
            kw as int,
            o as int,
            hout as int,
            wout as int,
            stride_h as int,
            stride_w as int,
            dilation_h as int,
            dilation_w as int,
            groups as int,
        ),
{
    let mut s = String::new();
    s.append("#include <metal_stdlib>\n#include <metal_tensor>\n#include <MetalPerformancePrimitives/MetalPerformancePrimitives.h>\nusing namespace metal;\nusing namespace mpp;\nusing namespace mpp::tensor_ops;\n\n// MPP convolution2d (NHWC activation, HWIO weights, NHWO destination)\n[[ kernel ]] void mpp_convolution2d(\n  tensor<device half, dextents<int, 4>> activation [[ buffer(0) ]],\n  tensor<device half, dextents<int, 4>> weights [[ buffer(1) ]],\n  tensor<device float, dextents<int, 4>> destination [[ buffer(2) ]],\n  uint3 tgid [[thread_position_in_grid]]) {\n    constexpr auto desc = tensor_ops::convolution2d_descriptor(\n        int4(");
    push_i32(&mut s, hout);
    s.append(", ");
    push_i32(&mut s, wout);
    s.append(", ");
    push_i32(&mut s, o);
    s.append(", ");
    push_i32(&mut s, n);
    s.append("),\n        int4(");
    push_i32(&mut s, h);
    s.append(", ");
    push_i32(&mut s, w);
    s.append(", ");
    push_i32(&mut s, c);
    s.append(", ");
    push_i32(&mut s, n);
    s.append("),\n        int2(");
    push_i32(&mut s, kh);
    s.append(", ");
    push_i32(&mut s, kw);
    s.append("),\n        tensor_ops::convolution2d_activation_layout::nhwc,\n        tensor_ops::convolution2d_weights_layout::hwio,\n        int2(");
    push_i32(&mut s, stride_h);
    s.append(", ");
    push_i32(&mut s, stride_w);
    s.append("),\n        int2(");
    push_i32(&mut s, dilation_h);
    s.append(", ");
    push_i32(&mut s, dilation_w);
    s.append("),\n        ");
    push_i32(&mut s, groups);
    s.append(",\n        false,\n        tensor_ops::convolution2d_descriptor::mode::multiply);\n    tensor_ops::convolution2d<desc, execution_simdgroups<4>> convOp;\n    convOp.run(activation, weights, destination);\n}\n");
    s
}

/// A text that ends in a non-numeral character followed by a signed decimal
/// determines the decimal: cutting both renderings off the same text gives
/// the same number and the same text before them.
proof fn lemma_cut_numeral(ya: Seq<char>, yb: Seq<char>, l: Seq<char>, a: int, b: int)
    requires
        ya + l + signed_decimal(a) == yb + l + signed_decimal(b),
        l.len() > 0,
        !numeral_char(l.last()),
    ensures
        a == b,
        ya == yb,
{
    let sa = signed_decimal(a);
    let sb = signed_decimal(b);
    lemma_signed_decimal_reads_back(a);
    lemma_signed_decimal_reads_back(b);
    let ta = ya + l + sa;
    let tb = yb + l + sb;
    let n = ta.len() as int;
    if sa.len() < sb.len() {
        let i = n - sa.len() - 1;
        assert(ta[i] == l.last());
        assert(tb[i] == sb[i - (n - sb.len())]);
        assert(numeral_char(sb[i - (n - sb.len())]));
        assert(false);
    }
    if sb.len() < sa.len() {
        let i = n - sb.len() - 1;
        assert(tb[i] == l.last());
        assert(ta[i] == sa[i - (n - sa.len())]);
        assert(numeral_char(sa[i - (n - sa.len())]));
        assert(false);
    }
    assert(sa =~= ta.subrange(n - sa.len(), n));
    assert(sb =~= tb.subrange(n - sb.len(), n));
    let pa = ya + l;
    let pb = yb + l;
    assert(pa =~= ta.subrange(0, n - sa.len()));
    assert(pb =~= tb.subrange(0, n - sb.len()));
    assert(ya =~= pa.subrange(0, ya.len() as int));
    assert(yb =~= pb.subrange(0, yb.len() as int));
}

/// The convolution source determines its geometry: two renderings are equal
/// exactly when all their arguments are, each argument being written once as
/// a signed decimal that reads back (the batch size `n` twice).
pub proof fn law_convolution_text_determines_geometry(
    a_n: int,
    a_h: int,
    a_w: int,
    a_c: int,
    a_kh: int,
    a_kw: int,
    a_o: int,
    a_hout: int,
    a_wout: int,
    a_stride_h: int,
    a_stride_w: int,
    a_dilation_h: int,
    a_dilation_w: int,
    a_groups: int,
    b_n: int,
    b_h: int,
    b_w: int,
    b_c: int,
    b_kh: int,
    b_kw: int,
    b_o: int,
    b_hout: int,
    b_wout: int,
    b_stride_h: int,
    b_stride_w: int,
    b_dilation_h: int,
    b_dilation_w: int,
    b_groups: int,
)
    ensures
        mpp_convolution2d_text(a_n, a_h, a_w, a_c, a_kh, a_kw, a_o, a_hout, a_wout, a_stride_h, a_stride_w, a_dilation_h, a_dilation_w, a_groups) == mpp_convolution2d_text(b_n, b_h, b_w, b_c, b_kh, b_kw, b_o, b_hout, b_wout, b_stride_h, b_stride_w, b_dilation_h, b_dilation_w, b_groups)
            <==> (a_n == b_n && a_h == b_h && a_w == b_w && a_c == b_c && a_kh == b_kh && a_kw == b_kw && a_o == b_o && a_hout == b_hout && a_wout == b_wout && a_stride_h == b_stride_h && a_stride_w == b_stride_w && a_dilation_h == b_dilation_h && a_dilation_w == b_dilation_w && a_groups == b_groups),
{
    reveal_strlit("#include <metal_stdlib>\n#include <metal_tensor>\n#include <MetalPerformancePrimitives/MetalPerformancePrimitives.h>\nusing namespace metal;\nusing namespace mpp;\nusing namespace mpp::tensor_ops;\n\n// MPP convolution2d (NHWC activation, HWIO weights, NHWO destination)\n[[ kernel ]] void mpp_convolution2d(\n  tensor<device half, dextents<int, 4>> activation [[ buffer(0) ]],\n  tensor<device half, dextents<int, 4>> weights [[ buffer(1) ]],\n  tensor<device float, dextents<int, 4>> destination [[ buffer(2) ]],\n  uint3 tgid [[thread_position_in_grid]]) {\n    constexpr auto desc = tensor_ops::convolution2d_descriptor(\n        int4(");
    reveal_strlit(", ");
    reveal_strlit("),\n        int4(");
    reveal_strlit("),\n        int2(");
    reveal_strlit("),\n        tensor_ops::convolution2d_activation_layout::nhwc,\n        tensor_ops::convolution2d_weights_layout::hwio,\n        int2(");
    reveal_strlit("),\n        ");
    let ap0 = Seq::<char>::empty() + "#include <metal_stdlib>\n#include <metal_tensor>\n#include <MetalPerformancePrimitives/MetalPerformancePrimitives.h>\nusing namespace metal;\nusing namespace mpp;\nusing namespace mpp::tensor_ops;\n\n// MPP convolution2d (NHWC activation, HWIO weights, NHWO destination)\n[[ kernel ]] void mpp_convolution2d(\n  tensor<device half, dextents<int, 4>> activation [[ buffer(0) ]],\n  tensor<device half, dextents<int, 4>> weights [[ buffer(1) ]],\n  tensor<device float, dextents<int, 4>> destination [[ buffer(2) ]],\n  uint3 tgid [[thread_position_in_grid]]) {\n    constexpr auto desc = tensor_ops::convolution2d_descriptor(\n        int4("@;
    let as0 = ap0 + signed_decimal(a_hout);
    let ap1 = as0 + ", "@;
    let as1 = ap1 + signed_decimal(a_wout);
    let ap2 = as1 + ", "@;
    let as2 = ap2 + signed_decimal(a_o);
    let ap3 = as2 + ", "@;
    let as3 = ap3 + signed_decimal(a_n);
    let ap4 = as3 + "),\n        int4("@;
    let as4 = ap4 + signed_decimal(a_h);
    let ap5 = as4 + ", "@;
    let as5 = ap5 + signed_decimal(a_w);
    let ap6 = as5 + ", "@;
    let as6 = ap6 + signed_decimal(a_c);
    let ap7 = as6 + ", "@;
    let as7 = ap7 + signed_decimal(a_n);
    let ap8 = as7 + "),\n        int2("@;
    let as8 = ap8 + signed_decimal(a_kh);
    let ap9 = as8 + ", "@;
    let as9 = ap9 + signed_decimal(a_kw);
    let ap10 = as9 + "),\n        tensor_ops::convolution2d_activation_layout::nhwc,\n        tensor_ops::convolution2d_weights_layout::hwio,\n        int2("@;
    let as10 = ap10 + signed_decimal(a_stride_h);
    let ap11 = as10 + ", "@;
    let as11 = ap11 + signed_decimal(a_stride_w);
    let ap12 = as11 + "),\n        int2("@;
    let as12 = ap12 + signed_decimal(a_dilation_h);
    let ap13 = as12 + ", "@;
    let as13 = ap13 + signed_decimal(a_dilation_w);
    let ap14 = as13 + "),\n        "@;
    let as14 = ap14 + signed_decimal(a_groups);
    let ap15 = as14 + ",\n        false,\n        tensor_ops::convolution2d_descriptor::mode::multiply);\n    tensor_ops::convolution2d<desc, execution_simdgroups<4>> convOp;\n    convOp.run(activation, weights, destination);\n}\n"@;
    let bp0 = Seq::<char>::empty() + "#include <metal_stdlib>\n#include <metal_tensor>\n#include <MetalPerformancePrimitives/MetalPerformancePrimitives.h>\nusing namespace metal;\nusing namespace mpp;\nusing namespace mpp::tensor_ops;\n\n// MPP convolution2d (NHWC activation, HWIO weights, NHWO destination)\n[[ kernel ]] void mpp_convolution2d(\n  tensor<device half, dextents<int, 4>> activation [[ buffer(0) ]],\n  tensor<device half, dextents<int, 4>> weights [[ buffer(1) ]],\n  tensor<device float, dextents<int, 4>> destination [[ buffer(2) ]],\n  uint3 tgid [[thread_position_in_grid]]) {\n    constexpr auto desc = tensor_ops::convolution2d_descriptor(\n        int4("@;
    let bs0 = bp0 + signed_decimal(b_hout);
    let bp1 = bs0 + ", "@;
    let bs1 = bp1 + signed_decimal(b_wout);
    let bp2 = bs1 + ", "@;
    let bs2 = bp2 + signed_decimal(b_o);
    let bp3 = bs2 + ", "@;
    let bs3 = bp3 + signed_decimal(b_n);
    let bp4 = bs3 + "),\n        int4("@;
    let bs4 = bp4 + signed_decimal(b_h);
    let bp5 = bs4 + ", "@;
    let bs5 = bp5 + signed_decimal(b_w);
    let bp6 = bs5 + ", "@;
    let bs6 = bp6 + signed_decimal(b_c);
    let bp7 = bs6 + ", "@;
    let bs7 = bp7 + signed_decimal(b_n);
    let bp8 = bs7 + "),\n        int2("@;
    let bs8 = bp8 + signed_decimal(b_kh);
    let bp9 = bs8 + ", "@;
    let bs9 = bp9 + signed_decimal(b_kw);
    let bp10 = bs9 + "),\n        tensor_ops::convolution2d_activation_layout::nhwc,\n        tensor_ops::convolution2d_weights_layout::hwio,\n        int2("@;
    let bs10 = bp10 + signed_decimal(b_stride_h);
    let bp11 = bs10 + ", "@;
    let bs11 = bp11 + signed_decimal(b_stride_w);
    let bp12 = bs11 + "),\n        int2("@;
    let bs12 = bp12 + signed_decimal(b_dilation_h);
    let bp13 = bs12 + ", "@;
    let bs13 = bp13 + signed_decimal(b_dilation_w);
    let bp14 = bs13 + "),\n        "@;
    let bs14 = bp14 + signed_decimal(b_groups);
    let bp15 = bs14 + ",\n        false,\n        tensor_ops::convolution2d_descriptor::mode::multiply);\n    tensor_ops::convolution2d<desc, execution_simdgroups<4>> convOp;\n    convOp.run(activation, weights, destination);\n}\n"@;
    assert(mpp_convolution2d_text(a_n, a_h, a_w, a_c, a_kh, a_kw, a_o, a_hout, a_wout, a_stride_h, a_stride_w, a_dilation_h, a_dilation_w, a_groups) == ap15);
    assert(mpp_convolution2d_text(b_n, b_h, b_w, b_c, b_kh, b_kw, b_o, b_hout, b_wout, b_stride_h, b_stride_w, b_dilation_h, b_dilation_w, b_groups) == bp15);
    if ap15 == bp15 {
        assert(as14 =~= ap15.subrange(0, as14.len() as int));
        assert(bs14 =~= bp15.subrange(0, bs14.len() as int));
        lemma_cut_numeral(as13, bs13, "),\n        "@, a_groups, b_groups);
        lemma_cut_numeral(as12, bs12, ", "@, a_dilation_w, b_dilation_w);
        lemma_cut_numeral(as11, bs11, "),\n        int2("@, a_dilation_h, b_dilation_h);
        lemma_cut_numeral(as10, bs10, ", "@, a_stride_w, b_stride_w);
        lemma_cut_numeral(as9, bs9, "),\n        tensor_ops::convolution2d_activation_layout::nhwc,\n        tensor_ops::convolution2d_weights_layout::hwio,\n        int2("@, a_stride_h, b_stride_h);
        lemma_cut_numeral(as8, bs8, ", "@, a_kw, b_kw);
        lemma_cut_numeral(as7, bs7, "),\n        int2("@, a_kh, b_kh);
        lemma_cut_numeral(as6, bs6, ", "@, a_n, b_n);
        lemma_cut_numeral(as5, bs5, ", "@, a_c, b_c);
        lemma_cut_numeral(as4, bs4, ", "@, a_w, b_w);
        lemma_cut_numeral(as3, bs3, "),\n        int4("@, a_h, b_h);
        lemma_cut_numeral(as2, bs2, ", "@, a_n, b_n);
        lemma_cut_numeral(as1, bs1, ", "@, a_o, b_o);
        lemma_cut_numeral(as0, bs0, ", "@, a_wout, b_wout);
        lemma_cut_numeral(Seq::<char>::empty(), Seq::<char>::empty(), "#include <metal_stdlib>\n#include <metal_tensor>\n#include <MetalPerformancePrimitives/MetalPerformancePrimitives.h>\nusing namespace metal;\nusing namespace mpp;\nusing namespace mpp::tensor_ops;\n\n// MPP convolution2d (NHWC activation, HWIO weights, NHWO destination)\n[[ kernel ]] void mpp_convolution2d(\n  tensor<device half, dextents<int, 4>> activation [[ buffer(0) ]],\n  tensor<device half, dextents<int, 4>> weights [[ buffer(1) ]],\n  tensor<device float, dextents<int, 4>> destination [[ buffer(2) ]],\n  uint3 tgid [[thread_position_in_grid]]) {\n    constexpr auto desc = tensor_ops::convolution2d_descriptor(\n        int4("@, a_hout, b_hout);
    }
}

} // verus!
