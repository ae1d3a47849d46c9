use ort::error::{Error, ErrorCode};
use ort::shape::{element_count, validate, ToDimensions};

#[test]
fn valid_dimensions_come_back_unchanged() {
    assert_eq!(vec![1i64, 2, 3].to_dimensions(Some(6)), Ok(vec![1, 2, 3]));
    assert_eq!([4usize, 5].to_dimensions(None), Ok(vec![4, 5]));
    assert_eq!([7i32].to_dimensions(Some(7)), Ok(vec![7]));
    let dims: &[i64] = &[2, 2, 2];
    assert_eq!(dims.to_dimensions(Some(8)), Ok(vec![2, 2, 2]));
}

#[test]
fn zero_dimension_is_named_by_position_from_one() {
    assert_eq!(vec![2i64, 0, 3].to_dimensions(None), Err(Error::InvalidDimension { index: 2 }));
    assert_eq!([0usize, 0].to_dimensions(Some(0)), Err(Error::InvalidDimension { index: 1 }));
}

#[test]
fn negative_dimension_is_named_by_position_from_one() {
    assert_eq!(vec![2i64, 3, -1].to_dimensions(Some(6)), Err(Error::InvalidDimension { index: 3 }));
    assert_eq!([-5i32].to_dimensions(None), Err(Error::InvalidDimension { index: 1 }));
}

#[test]
fn dimension_beyond_i64_is_too_large() {
    let r = validate(&[1usize, usize::MAX], None);
    if usize::BITS == 64 {
        assert_eq!(r, Err(Error::DimensionTooLarge { index: 2 }));
        assert_eq!(r.unwrap_err().code(), ErrorCode::InvalidArgument);
    } else {
        assert_eq!(r, Ok(vec![1, usize::MAX as i64]));
    }
}

#[test]
fn zero_dimension_is_named_before_one_that_is_too_large() {
    assert_eq!(validate(&[usize::MAX, 0], None), Err(Error::InvalidDimension { index: 2 }));
    assert_eq!(
        validate(&[usize::MAX, 3, 0, 0], Some(0)),
        Err(Error::InvalidDimension { index: 3 })
    );
    assert_eq!(validate(&[0, usize::MAX], None), Err(Error::InvalidDimension { index: 1 }));
}

#[test]
fn mismatch_reports_both_counts() {
    let r = vec![2i64, 3].to_dimensions(Some(5));
    assert_eq!(
        r,
        Err(Error::ElementCountMismatch { shape: vec![2, 3], computed: 6, expected: 5 })
    );
    assert_eq!(r.unwrap_err().code(), ErrorCode::InvalidArgument);
}

#[test]
fn product_beyond_usize_is_a_mismatch() {
    let r = vec![i64::MAX, i64::MAX, 4].to_dimensions(Some(12));
    assert_eq!(
        r,
        Err(Error::ElementCountMismatch {
            shape: vec![i64::MAX, i64::MAX, 4],
            computed: usize::MAX,
            expected: 12
        })
    );
    assert_eq!(vec![i64::MAX, i64::MAX].to_dimensions(None), Ok(vec![i64::MAX, i64::MAX]));
}

#[test]
fn scalar_shape_holds_exactly_one_element() {
    assert_eq!(().to_dimensions(Some(1)), Ok(vec![]));
    assert_eq!(().to_dimensions(None), Ok(vec![]));
    assert_eq!(
        ().to_dimensions(Some(0)),
        Err(Error::ElementCountMismatch { shape: vec![], computed: 1, expected: 0 })
    );
    assert_eq!(
        ().to_dimensions(Some(2)),
        Err(Error::ElementCountMismatch { shape: vec![], computed: 1, expected: 2 })
    );
}

#[test]
fn empty_slice_is_a_scalar_too() {
    let none: &[i64] = &[];
    assert_eq!(none.to_dimensions(Some(1)), Ok(vec![]));
    assert_eq!(
        none.to_dimensions(Some(3)),
        Err(Error::ElementCountMismatch { shape: vec![], computed: 1, expected: 3 })
    );
}

#[test]
fn element_count_is_the_product() {
    assert_eq!(element_count(&[1, 2, 3]), Some(6));
    assert_eq!(element_count(&[]), Some(1));
    assert_eq!(element_count(&[5, 0, 7]), Some(0));
    assert_eq!(element_count(&[i64::MAX, i64::MAX, 0]), Some(0));
}

#[test]
fn element_count_of_a_negative_dimension_is_zero() {
    assert_eq!(element_count(&[3, -1]), Some(0));
    assert_eq!(element_count(&[-1, i64::MAX, i64::MAX]), Some(0));
}

#[test]
fn element_count_beyond_usize_is_none() {
    assert_eq!(element_count(&[i64::MAX, i64::MAX, 2]), None);
}
