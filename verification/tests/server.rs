use cubecl_metal4::compiler::{Msl4Module, MslBufferParam};
use cubecl_metal4::ir::{ElemType, FloatKind, IntKind, UIntKind};
use cubecl_metal4::runtime::Dim3;
use cubecl_metal4::server::{
    allocation_layout, argument_table_capacity, aux_out_len, check_write_len, contiguous_strides,
    copy_byte_len, elem_size_bytes, elementwise_dispatch, is_mpp_signature,
    map_elem_type_to_tensor_dtype, matmul_dispatch, plan_bindings, plan_dispatch,
    prepare_metadata, select_pipeline, shape_product, spec_key, staging_dtype, tensor_view,
    BindingKind, DispatchSize, FrameScheduler, GridSize, IoError, KernelSource, Submission,
    SyncPlan, TensorDataType,
};

fn param(elem: ElemType, ext: bool, writeable: bool) -> MslBufferParam {
    MslBufferParam { elem, has_extended_meta: ext, is_writeable: writeable }
}

fn f16() -> ElemType {
    ElemType::Float(FloatKind::F16)
}

fn f32() -> ElemType {
    ElemType::Float(FloatKind::F32)
}

fn mpp_buffers() -> Vec<MslBufferParam> {
    vec![param(f16(), true, false), param(f16(), true, false), param(f32(), true, true)]
}

fn module_with(buffers: Vec<MslBufferParam>, line: u32) -> Msl4Module {
    Msl4Module {
        src: String::new(),
        buffers,
        num_meta: 3,
        has_metadata: true,
        output_index: Some(2),
        output_line_size: line,
    }
}

fn grid(width: usize, height: usize, depth: usize) -> GridSize {
    GridSize { width, height, depth }
}

#[test]
fn tensor_dtypes_of_elements() {
    assert_eq!(map_elem_type_to_tensor_dtype(f16()), Some(TensorDataType::Float16));
    assert_eq!(map_elem_type_to_tensor_dtype(ElemType::Float(FloatKind::TF32)), Some(TensorDataType::Float32));
    assert_eq!(map_elem_type_to_tensor_dtype(ElemType::Bool), Some(TensorDataType::UInt8));
    assert_eq!(map_elem_type_to_tensor_dtype(ElemType::Float(FloatKind::F64)), None);
    assert_eq!(map_elem_type_to_tensor_dtype(ElemType::Float(FloatKind::E4M3)), None);
    assert_eq!(map_elem_type_to_tensor_dtype(ElemType::Int(IntKind::I64)), None);
    assert_eq!(map_elem_type_to_tensor_dtype(ElemType::UInt(UIntKind::U64)), None);
    assert_eq!(map_elem_type_to_tensor_dtype(ElemType::Int(IntKind::I16)), Some(TensorDataType::Int16));
}

#[test]
fn element_sizes() {
    assert_eq!(elem_size_bytes(ElemType::Float(FloatKind::E2M1)), 1);
    assert_eq!(elem_size_bytes(ElemType::Float(FloatKind::BF16)), 2);
    assert_eq!(elem_size_bytes(ElemType::Float(FloatKind::F64)), 8);
    assert_eq!(elem_size_bytes(ElemType::Bool), 1);
    assert_eq!(elem_size_bytes(ElemType::UInt(UIntKind::U32)), 4);
    assert_eq!(ElemType::Int(IntKind::I64).size(), 8);
}

#[test]
fn staging_dtype_by_element_size() {
    assert_eq!(staging_dtype(2), TensorDataType::Float16);
    assert_eq!(staging_dtype(4), TensorDataType::Float32);
    assert_eq!(staging_dtype(1), TensorDataType::UInt8);
    assert_eq!(staging_dtype(8), TensorDataType::Float32);
}

#[test]
fn dense_strides_and_sizes() {
    assert_eq!(contiguous_strides(&[2, 3, 4]), vec![12, 4, 1]);
    assert_eq!(contiguous_strides(&[2, 0, 3]), vec![0, 3, 1]);
    assert_eq!(contiguous_strides(&[]), Vec::<usize>::new());
    assert_eq!(shape_product(&[]), 1);
    assert_eq!(shape_product(&[2, 3, 4]), 24);
    assert_eq!(copy_byte_len(&[], 4), 4);
    assert_eq!(copy_byte_len(&[5, 7], 2), 70);
    assert_eq!(allocation_layout(&[2, 3, 4], 2), (48, vec![12, 4, 1]));
}

#[test]
fn write_length_checked() {
    assert!(matches!(check_write_len(&[2, 3], 4, 24), Ok(24)));
    match check_write_len(&[2, 3], 4, 20) {
        Err(IoError::Unknown(m)) => assert_eq!(m, "write: source length mismatch"),
        other => panic!("unexpected: {other:?}"),
    }
}

#[test]
fn mpp_signature_detection() {
    assert!(is_mpp_signature(&mpp_buffers()));
    let mut no_meta = mpp_buffers();
    no_meta[1].has_extended_meta = false;
    assert!(!is_mpp_signature(&no_meta));
    assert!(!is_mpp_signature(&vec![param(f16(), true, false), param(f16(), true, false)]));
    let wrong = vec![param(f32(), true, false), param(f16(), true, false), param(f32(), true, true)];
    assert!(!is_mpp_signature(&wrong));
}

#[test]
fn pipeline_selection() {
    let p = select_pipeline("cubecl::mpp_matmul_2d_kernel", "main", None);
    assert_eq!(p.source, KernelSource::Matmul);
    assert!(p.use_mpp_entry && p.matmul_dispatch);
    let p = select_pipeline("x", "mpp_convolution2d", None);
    assert_eq!(p.source, KernelSource::Convolution);
    assert!(p.use_mpp_entry && !p.matmul_dispatch);
    let p = select_pipeline("my::mpp_convolution2d_kernel", "k", None);
    assert_eq!(p.source, KernelSource::Convolution);
    let m = module_with(mpp_buffers(), 1);
    let p = select_pipeline("add", "add_kernel", Some(&m));
    assert_eq!(p.source, KernelSource::Matmul);
    assert!(p.matmul_dispatch);
    let plain = module_with(vec![param(f32(), false, false), param(f32(), false, true)], 1);
    let p = select_pipeline("add", "add", Some(&plain));
    assert_eq!(p.source, KernelSource::Generated);
    assert!(!p.use_mpp_entry && !p.matmul_dispatch);
    let p = select_pipeline("x", "mpp_matmul_2d", None);
    assert_eq!(p.source, KernelSource::Matmul);
    let p = select_pipeline("x", "mpp_matmul_2dx", None);
    assert_eq!(p.source, KernelSource::Generated);
}

#[test]
fn pipeline_cache_keys() {
    let m = module_with(vec![param(f16(), false, false), param(f32(), false, true)], 4);
    let k = spec_key("k", Some(&m), false);
    assert_eq!(k.entry, "k");
    assert_eq!(k.line, 4);
    assert_eq!(k.types, vec![f16(), f32()]);
    assert!(!k.fast_math);
    let k = spec_key("other", None, true);
    assert_eq!(k.line, 1);
    assert!(k.types.is_empty());
    assert!(k.fast_math);
}

fn view_metadata() -> Vec<u32> {
    vec![0, 0, 0, 0, 0, 0, 0, 0, 0, 15, 0, 0, 17, 0, 0, 64, 32, 32, 1]
}

#[test]
fn tensor_views_two_dimensional_for_matmul() {
    let bufs = mpp_buffers();
    let v = tensor_view(0, true, Some(&bufs), 3, &view_metadata(), 4096);
    assert_eq!(v.dims, vec![32, 64]);
    assert_eq!(v.strides, vec![1, 32]);
    assert_eq!(v.dtype, TensorDataType::Float16);
}

#[test]
fn tensor_views_flat_otherwise() {
    let bufs = mpp_buffers();
    let v = tensor_view(2, false, Some(&bufs), 3, &view_metadata(), 40);
    assert_eq!(v.dims, vec![10]);
    assert_eq!(v.strides, vec![1]);
    assert_eq!(v.dtype, TensorDataType::Float32);
    let v = tensor_view(5, true, Some(&bufs), 3, &view_metadata(), 40);
    assert_eq!(v.dims, vec![40]);
    assert_eq!(v.dtype, TensorDataType::UInt8);
    let v = tensor_view(0, true, None, 3, &view_metadata(), 7);
    assert_eq!(v.dims, vec![7]);
    assert_eq!(v.dtype, TensorDataType::UInt8);
}

#[test]
fn metadata_synthesized_from_resources() {
    let bufs = vec![param(f32(), false, false), param(f32(), false, false), param(f32(), false, true)];
    assert_eq!(prepare_metadata(&vec![], Some(&bufs), &vec![40, 8, 40]), vec![10, 2, 10, 10, 2, 10]);
    let short = vec![param(f16(), false, false)];
    assert_eq!(prepare_metadata(&vec![], Some(&short), &vec![8, 9]), vec![4, 9, 4, 9]);
    assert_eq!(prepare_metadata(&vec![], Some(&bufs), &vec![]), Vec::<u32>::new());
    assert_eq!(prepare_metadata(&vec![], None, &vec![40]), Vec::<u32>::new());
}

#[test]
fn metadata_lengths_adjusted() {
    let bufs = vec![param(f32(), false, false), param(f32(), false, false), param(f32(), false, true)];
    let sizes = vec![40, 8, 40];
    assert_eq!(prepare_metadata(&vec![1, 2, 3, 4, 5, 6, 7], Some(&bufs), &sizes), vec![1, 2, 3, 10, 2, 10, 7]);
    assert_eq!(prepare_metadata(&vec![1, 2, 3, 4], Some(&bufs), &sizes), vec![1, 2, 3, 10]);
    assert_eq!(prepare_metadata(&vec![1, 2, 3, 4], None, &sizes), vec![1, 2, 3, 4]);
}

#[test]
fn output_length_word() {
    let bufs = vec![param(f32(), false, false), param(f16(), false, true)];
    assert_eq!(aux_out_len(Some(&bufs), &vec![40, 10]), Some(5));
    let read_only = vec![param(f32(), false, false)];
    assert_eq!(aux_out_len(Some(&read_only), &vec![40]), None);
    assert_eq!(aux_out_len(None, &vec![40]), None);
}

#[test]
fn argument_table_layout() {
    assert_eq!(argument_table_capacity(3, 2, true, true), 7);
    assert_eq!(argument_table_capacity(3, 0, false, true), 4);
    let p = plan_bindings(3, true, true, 0, 4);
    assert!(p.overflow);
    assert_eq!(
        p.slots,
        vec![BindingKind::Tensor(0), BindingKind::Tensor(1), BindingKind::Tensor(2), BindingKind::Metadata, BindingKind::AuxLength]
    );
    let p = plan_bindings(2, false, true, 2, 5);
    assert!(!p.overflow);
    assert_eq!(
        p.slots,
        vec![BindingKind::Tensor(0), BindingKind::Tensor(1), BindingKind::AuxLength, BindingKind::Scalar(0), BindingKind::Scalar(1)]
    );
    let p = plan_bindings(3, false, false, 1, 1);
    assert!(p.overflow);
    assert_eq!(p.slots, vec![BindingKind::Tensor(0), BindingKind::Tensor(1)]);
}

fn matmul_metadata(m: u32, n: u32) -> Vec<u32> {
    let mut d = vec![0u32; 20];
    d[11] = 14;
    d[14] = m;
    d[15] = n;
    d
}

#[test]
fn matmul_grid() {
    let bufs = mpp_buffers();
    assert_eq!(
        matmul_dispatch(&bufs, 3, &matmul_metadata(100, 70), 32, 1024),
        Some(DispatchSize { groups: grid(3, 2, 1), threads: grid(128, 1, 1) })
    );
    assert_eq!(
        matmul_dispatch(&bufs, 3, &matmul_metadata(100, 70), 32, 64),
        Some(DispatchSize { groups: grid(3, 2, 1), threads: grid(64, 1, 1) })
    );
    assert_eq!(
        matmul_dispatch(&bufs, 3, &matmul_metadata(0, 0), 32, 1024),
        Some(DispatchSize { groups: grid(1, 1, 1), threads: grid(128, 1, 1) })
    );
    assert_eq!(matmul_dispatch(&bufs, 3, &vec![0; 11], 32, 1024), None);
    assert_eq!(matmul_dispatch(&bufs[0..2].to_vec(), 3, &matmul_metadata(1, 1), 32, 1024), None);
}

#[test]
fn elementwise_grid() {
    let bufs = vec![param(f32(), false, false), param(f32(), false, false), param(f32(), false, true)];
    assert_eq!(
        elementwise_dispatch(&bufs, 4, 3, &vec![0, 0, 0, 0, 0, 10]),
        Some(DispatchSize { groups: grid(1, 1, 1), threads: grid(3, 1, 1) })
    );
    assert_eq!(
        elementwise_dispatch(&bufs, 1, 3, &vec![0, 0, 0, 0, 0, 1000]),
        Some(DispatchSize { groups: grid(16, 1, 1), threads: grid(64, 1, 1) })
    );
    assert_eq!(
        elementwise_dispatch(&bufs, 0, 3, &vec![0, 0, 0, 0, 0, 20]),
        Some(DispatchSize { groups: grid(2, 1, 1), threads: grid(16, 1, 1) })
    );
    assert_eq!(
        elementwise_dispatch(&bufs, 1, 3, &vec![0, 0, 0, 0, 0]),
        Some(DispatchSize { groups: grid(0, 1, 1), threads: grid(1, 1, 1) })
    );
    assert_eq!(elementwise_dispatch(&bufs[0..2].to_vec(), 1, 2, &vec![9, 9, 9, 9]), None);
}

#[test]
fn dispatch_defaults_to_cube_dim() {
    let cube = Dim3 { x: 16, y: 8, z: 1 };
    let d = plan_dispatch(false, None, 0, &vec![], &vec![], cube, 32, 1024);
    assert_eq!(d, DispatchSize { groups: grid(1, 1, 1), threads: grid(16, 8, 1) });
    let m = module_with(mpp_buffers(), 1);
    let d = plan_dispatch(true, Some(&m), 3, &vec![0; 11], &vec![], cube, 32, 1024);
    assert_eq!(d, DispatchSize { groups: grid(1, 1, 1), threads: grid(16, 8, 1) });
    let d = plan_dispatch(true, Some(&m), 3, &matmul_metadata(64, 64), &vec![], cube, 32, 1024);
    assert_eq!(d, DispatchSize { groups: grid(2, 1, 1), threads: grid(128, 1, 1) });
    let d = plan_dispatch(false, Some(&m), 3, &vec![], &vec![8, 8, 8, 8, 8, 8], cube, 32, 1024);
    assert_eq!(d, DispatchSize { groups: grid(1, 1, 1), threads: grid(8, 1, 1) });
}

#[test]
fn grouped_commits_and_sync() {
    let mut s = FrameScheduler::new(3, true);
    assert_eq!(s.submit(), Submission::Deferred);
    assert_eq!(s.submit(), Submission::Deferred);
    assert_eq!(s.pending(), 2);
    assert_eq!(s.flush(), Some(1));
    assert_eq!(s.fence_value(), 1);
    assert_eq!(s.pending(), 0);
    assert_eq!(s.flush(), None);
    assert_eq!(s.sync(), SyncPlan { flushed: None, wait_for: Some(1) });
    assert_eq!(s.begin_frame(3), None);
    assert_eq!(s.frame_cursor(), 1);
    assert_eq!(s.submit(), Submission::Deferred);
    assert_eq!(s.sync(), SyncPlan { flushed: Some(2), wait_for: Some(2) });
    assert_eq!(s.begin_frame(3), None);
    assert_eq!(s.frame_cursor(), 2);
    assert_eq!(s.begin_frame(3), Some(1));
    assert_eq!(s.frame_cursor(), 0);
    assert_eq!(s.begin_frame(3), Some(2));
    assert_eq!(s.begin_frame(3), None);
    assert_eq!(s.begin_frame(3), None);
}

#[test]
fn immediate_commits() {
    let mut s = FrameScheduler::new(3, false);
    assert_eq!(s.sync(), SyncPlan { flushed: None, wait_for: None });
    assert_eq!(s.submit(), Submission::Committed(1));
    assert_eq!(s.begin_frame(3), None);
    assert_eq!(s.submit(), Submission::Committed(2));
    assert_eq!(s.sync(), SyncPlan { flushed: None, wait_for: Some(2) });
    assert_eq!(s.begin_frame(0), None);
    assert_eq!(s.frame_cursor(), 1);
    assert_eq!(s.begin_frame(2), Some(1));
    assert_eq!(s.frame_cursor(), 0);
}
