//! The Metal 4 runtime: its fixed capabilities, the device limits it reports,
//! and which tensor layouts it can read directly.

use vstd::prelude::*;
use crate::stride::{dense_stride, dense_strides_fit, law_canonical_strides_exact, spec_contiguous_strides};

verus! {

/// The Metal 4 runtime.
#[derive(Debug, Clone, Copy, PartialEq, Eq, Structural)]
pub struct Metal4Runtime;

/// The exact row-major strides of `shape` agree with `strides` on every axis
/// both describe (extra entries on either side are not compared).
pub open spec fn readable_layout(shape: Seq<usize>, strides: Seq<usize>) -> bool {
    shape.len() == 0 || forall|k: int|
        0 <= k < shape.len() && k < strides.len() ==> #[trigger] strides[k] == dense_stride(
            shape,
            k,
        )
}

impl Metal4Runtime {
    /// The runtime's name.
    pub fn name() -> (r: &'static str)
        ensures
            r@ == "metal4<msl4>"@,
    {
        "metal4<msl4>"
    }

    /// Vectorization widths kernels may use, widest first.
    pub fn supported_line_sizes() -> (r: [u8; 4])
        ensures
            r@ == seq![8u8, 4u8, 2u8, 1u8],
    {
        [8, 4, 2, 1]
    }

    /// The largest cube count per dimension.
    pub fn max_cube_count() -> (r: (u32, u32, u32))
        ensures
            r == (65535u32, 65535u32, 65535u32),
    {
        (65535, 65535, 65535)
    }

    /// Whether a tensor with these strides can be read as a dense row-major buffer.
    pub fn can_read_tensor(shape: &[usize], strides: &[usize]) -> (r: bool)
        requires
            dense_strides_fit(shape@),
        ensures
            r == readable_layout(shape@, strides@),
    {
        if shape.len() == 0 {
            return true;
        }
        let expected = crate::server::contiguous_strides(shape);
        let mut k: usize = 0;
        while k < shape.len() && k < strides.len()
            invariant
                expected@.len() == shape@.len(),
                forall|j: int| 0 <= j < shape@.len() ==> #[trigger] expected@[j] == dense_stride(shape@, j),
                0 <= k <= shape.len(),
                forall|j: int| 0 <= j < k && j < strides@.len() ==> #[trigger] strides@[j] == dense_stride(shape@, j),
            decreases shape.len() - k,
        {
            if expected[k] != strides[k] {
                return false;
            }
            k = k + 1;
        }
        true
    }
}

/// Pipeline limits as probed: the SIMD width is at least one, and the
/// threadgroup limit is at least the (raw) SIMD width.
pub fn clamp_pipeline_limits(thread_execution_width: usize, max_total_threads: usize) -> (r: (
    usize,
    usize,
))
    ensures
        r.0 == (if thread_execution_width > 1 { thread_execution_width } else { 1 }),
        r.1 == (if max_total_threads > thread_execution_width {
            max_total_threads
        } else {
            thread_execution_width
        }),
{
    let tew = if thread_execution_width > 1 { thread_execution_width } else { 1 };
    let max_tg = if max_total_threads > thread_execution_width {
        max_total_threads
    } else {
        thread_execution_width
    };
    (tew, max_tg)
}

/// A three-dimensional extent.
#[derive(Debug, Clone, Copy, PartialEq, Eq, Structural)]
pub struct Dim3 {
    pub x: u32,
    pub y: u32,
    pub z: u32,
}

/// Hardware limits reported for the device.
#[derive(Debug, Clone, Copy, PartialEq, Eq, Structural)]
pub struct HardwareLimits {
    pub plane_size_min: u32,
    pub plane_size_max: u32,
    pub max_bindings: u32,
    pub max_shared_memory_size: usize,
    pub max_cube_count: Dim3,
    pub max_units_per_cube: u32,
    pub max_cube_dim: Dim3,
}

/// Memory properties reported for the device.
#[derive(Debug, Clone, Copy, PartialEq, Eq, Structural)]
pub struct MemoryLimits {
    pub max_page_size: u64,
    pub alignment: u64,
}

/// The hardware limits for a probe result `(SIMD width, max threads per
/// threadgroup)`; without a probe, 32 and 1024 are assumed.
pub fn hardware_limits(probe: Option<(usize, usize)>) -> (r: HardwareLimits)
    ensures
        r == (HardwareLimits {
            plane_size_min: 32,
            plane_size_max: 32,
            max_bindings: 64,
            max_shared_memory_size: 65536,
            max_cube_count: Dim3 { x: 65535, y: 65535, z: 65535 },
            max_units_per_cube: (match probe {
                Some(p) => p.1,
                None => 1024usize,
            }) as u32,
            max_cube_dim: Dim3 { x: 1024, y: 1024, z: 64 },
        }),
{
    let (_tew, max_tg) = match probe {
        Some(p) => p,
        None => (32, 1024),
    };
    HardwareLimits {
        plane_size_min: 32,
        plane_size_max: 32,
        max_bindings: 64,
        max_shared_memory_size: 64 * 1024,
        max_cube_count: Dim3 { x: 65535, y: 65535, z: 65535 },
        max_units_per_cube: max_tg as u32,
        max_cube_dim: Dim3 { x: 1024, y: 1024, z: 64 },
    }
}

/// The memory properties of the device: 1 GiB pages, 256-byte alignment.
pub fn memory_limits() -> (r: MemoryLimits)
    ensures
        r == (MemoryLimits { max_page_size: 1073741824, alignment: 256 }),
{
    let page: u64 = 1 << 30;
    assert(page == 1073741824) by (bit_vector)
        requires
            page == 1u64 << 30u64,
    ;
    MemoryLimits { max_page_size: page, alignment: 256 }
}

/// Tensors laid out with the canonical row-major strides can be read directly
/// (for shapes without empty axes whose strides fit in `usize`).
pub proof fn law_canonical_layout_readable(shape: Seq<usize>)
    requires
        forall|k: int| 0 <= k < shape.len() ==> #[trigger] shape[k] >= 1,
        dense_strides_fit(shape),
    ensures
        readable_layout(shape, spec_contiguous_strides(shape)),
{
    law_canonical_strides_exact(shape);
}

/// A layout whose strides differ from the exact row-major strides on some
/// axis present in both cannot be read directly.
pub proof fn law_mismatched_stride_unreadable(shape: Seq<usize>, strides: Seq<usize>, k: int)
    requires
        0 <= k < shape.len(),
        k < strides.len(),
        strides[k] != dense_stride(shape, k),
    ensures
        !readable_layout(shape, strides),
{
}

} // verus!
