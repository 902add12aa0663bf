use cubecl_metal4::stride::{
    contiguous_strides, describe, is_contiguous, is_inner_contiguous_2d, StridePattern,
};

#[test]
fn contiguous_for_1d_and_2d() {
    assert_eq!(contiguous_strides(&[8]), vec![1]);
    assert_eq!(contiguous_strides(&[2, 3]), vec![3, 1]);
    assert!(is_contiguous(&[8], &[1]));
    assert!(is_contiguous(&[2, 3], &[3, 1]));
    assert!(!is_contiguous(&[2, 3], &[4, 1]));
}

#[test]
fn inner_contiguous_2d_detection() {
    // 2D pitched: rows=4, cols=5, pitch=8 (in elems)
    let shape = [4, 5];
    let strides = [8, 1];
    assert!(is_inner_contiguous_2d(&shape, &strides));
    match describe(&shape, &strides) {
        StridePattern::InnerContiguous2D { row_pitch_elems } => assert_eq!(row_pitch_elems, 8),
        other => panic!("unexpected: {other:?}"),
    }
    // Not inner-contiguous
    assert!(!is_inner_contiguous_2d(&shape, &[8, 2]));
    // Pitch less than cols should not be accepted
    assert!(!is_inner_contiguous_2d(&shape, &[4, 1]));
}

#[test]
fn describe_other() {
    // Rank 3 non-contiguous pattern should be Other
    assert!(matches!(describe(&[2, 3, 4], &[10, 4, 1]), StridePattern::Other));
    // Mismatched lengths
    assert!(matches!(describe(&[2], &[]), StridePattern::Other));
}

#[test]
fn contiguous_strides_empty_shape() {
    assert_eq!(contiguous_strides(&[]), Vec::<usize>::new());
    assert!(is_contiguous(&[], &[]));
}

#[test]
fn contiguous_strides_treat_empty_axes_as_one() {
    assert_eq!(contiguous_strides(&[4, 0, 3]), vec![3, 3, 1]);
    assert_eq!(contiguous_strides(&[2, 3, 4]), vec![12, 4, 1]);
}

#[test]
fn contiguous_strides_saturate() {
    let big = usize::MAX / 2 + 1;
    assert_eq!(contiguous_strides(&[1, 2, big]), vec![usize::MAX, big, 1]);
}

#[test]
fn canonical_strides_are_contiguous() {
    for shape in [vec![1usize], vec![7, 3], vec![2, 0, 5], vec![3, 4, 5, 6]] {
        let strides = contiguous_strides(&shape);
        assert!(is_contiguous(&shape, &strides));
        assert!(!is_inner_contiguous_2d(&shape, &strides));
    }
}

#[test]
fn pitched_requires_nonempty_shape_and_unit_inner_stride() {
    assert_eq!(describe(&[0, 5], &[8, 1]), StridePattern::Other);
    assert_eq!(describe(&[4, 0], &[8, 1]), StridePattern::Other);
    assert_eq!(describe(&[4, 5], &[5, 1]), StridePattern::Contiguous);
    assert_eq!(
        describe(&[4, 5], &[5, 1]) == StridePattern::InnerContiguous2D { row_pitch_elems: 5 },
        false
    );
    assert_eq!(describe(&[1, 5], &[6, 1]), StridePattern::InnerContiguous2D { row_pitch_elems: 6 });
}
