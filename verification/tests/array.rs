use ort::array::{OwnedArray, SharedArray};
use ort::create::{OwnedTensorArrayData, TensorArrayData, TensorArrayDataMut};
use ort::error::Error;
use ort::native::{Reply, Status};
use ort::tensor::{Tensor, TensorRef, TensorRefMut};
use ort::value::{Backing, TensorElementType};

fn two_by_three() -> OwnedArray<i64> {
    OwnedArray::from_shape_vec(&[2, 3], vec![1i64, 2, 3, 4, 5, 6]).unwrap()
}

/// The transpose of `two_by_three`, over the same elements in memory.
fn three_by_two_transposed() -> OwnedArray<i64> {
    OwnedArray::from_shape_strides_vec(&[3, 2], &[1, 3], vec![1i64, 2, 3, 4, 5, 6]).unwrap()
}

#[test]
fn array_is_made_over_the_vector_itself() {
    let data = vec![1i64, 2, 3, 4, 5, 6];
    let address = data.as_ptr() as usize;
    let array = OwnedArray::from_shape_vec(&[2, 3], data).unwrap();
    assert_eq!(array.shape(), vec![2, 3]);
    assert_eq!(array.len(), 6);
    assert!(array.is_standard_layout());
    assert_eq!(array.as_slice(), Some(&[1i64, 2, 3, 4, 5, 6][..]));
    assert_eq!(array.as_slice().unwrap().as_ptr() as usize, address);
}

#[test]
fn axes_have_to_hold_the_data() {
    assert_eq!(
        OwnedArray::from_shape_vec(&[2, 3], vec![1i64, 2, 3, 4, 5]).unwrap_err(),
        Error::IncompatibleShape
    );
    assert_eq!(
        OwnedArray::from_shape_strides_vec(&[2, 3], &[3], vec![0i64; 6]).unwrap_err(),
        Error::IncompatibleShape
    );
    assert_eq!(
        OwnedArray::from_shape_strides_vec(&[2, 3], &[3, 1], vec![0i64; 5]).unwrap_err(),
        Error::IncompatibleShape
    );
    assert_eq!(
        OwnedArray::from_shape_strides_vec(&[2, 3], &[0, 1], vec![0i64; 6]).unwrap_err(),
        Error::IncompatibleShape
    );
    assert_eq!(
        Error::IncompatibleShape.message(),
        "The axes and strides do not describe an array over the data provided"
    );
    assert!(Error::IncompatibleShape.is_validation_error());
}

#[test]
fn stride_without_an_absolute_value_is_refused() {
    assert_eq!(
        OwnedArray::from_shape_strides_vec(&[1], &[isize::MIN], vec![7]).unwrap_err(),
        Error::IncompatibleShape
    );
    assert_eq!(
        OwnedArray::from_shape_strides_vec(&[2, 1], &[1, isize::MIN], vec![7, 8]).unwrap_err(),
        Error::IncompatibleShape
    );
    assert_eq!(
        OwnedArray::from_shape_strides_vec(&[0], &[isize::MIN], vec![]).unwrap_err(),
        Error::IncompatibleShape
    );
    let least_but_one =
        OwnedArray::from_shape_strides_vec(&[1], &[isize::MIN + 1], vec![7]).unwrap();
    assert_eq!(least_but_one.shape(), vec![1]);
    assert_eq!(least_but_one.len(), 1);
}

#[test]
fn array_is_made_exactly_where_the_axes_hold_the_data() {
    assert!(OwnedArray::from_shape_vec(&[], vec![5]).is_ok());
    assert!(OwnedArray::from_shape_vec(&[], vec![]).is_err());
    assert!(OwnedArray::from_shape_vec(&[3], vec![1, 2, 3]).is_ok());
    assert!(OwnedArray::from_shape_vec(&[3], vec![1, 2]).is_err());
    assert!(OwnedArray::from_shape_vec(&[3], vec![1, 2, 3, 4]).is_err());
    assert!(OwnedArray::from_shape_vec(&[0, 3], vec![]).is_ok());
    assert!(OwnedArray::from_shape_vec(&[0, 3], vec![1]).is_err());
    assert!(OwnedArray::from_shape_vec(&[0, isize::MAX as usize], vec![]).is_ok());
    assert!(OwnedArray::from_shape_vec(&[0, isize::MAX as usize, 2], vec![]).is_err());
    assert!(OwnedArray::from_shape_vec(&[0, usize::MAX], vec![]).is_err());
}

#[test]
fn strides_decide_the_layout() {
    let standard = OwnedArray::from_shape_strides_vec(&[2, 3], &[3, 1], vec![1i64, 2, 3, 4, 5, 6])
        .unwrap();
    assert!(standard.is_standard_layout());
    assert_eq!(standard.as_slice(), Some(&[1i64, 2, 3, 4, 5, 6][..]));
    let transposed = three_by_two_transposed();
    assert_eq!(transposed.shape(), vec![3, 2]);
    assert_eq!(transposed.len(), 6);
    assert!(!transposed.is_standard_layout());
    assert_eq!(transposed.as_slice(), None);
}

#[test]
fn standard_array_is_kept_as_it_is() {
    let array = two_by_three();
    let address = array.as_slice().unwrap().as_ptr() as usize;
    let parts = array.into_parts().unwrap();
    assert_eq!(parts.shape, vec![2, 3]);
    assert_eq!(parts.num_elements, 6);
    match parts.guard {
        Some(Backing::Array(kept)) => {
            assert_eq!(kept.as_slice().unwrap().as_ptr() as usize, address);
            assert_eq!(kept.as_slice(), Some(&[1i64, 2, 3, 4, 5, 6][..]));
        }
        other => panic!("the array is not retained: {:?}", other),
    }
}

#[test]
fn non_contiguous_array_is_copied_into_standard_order() {
    let pending =
        Tensor::from_array(three_by_two_transposed(), TensorElementType::Int64).unwrap();
    assert_eq!(pending.shape(), &[3, 2]);
    assert_eq!(pending.byte_len(), 48);
    let tensor = pending.into_tensor(Reply { status: Status::Success, out: 0x10 }).unwrap();
    match tensor.value().retained_backing() {
        Some(Backing::Array(kept)) => {
            assert!(kept.is_standard_layout());
            assert_eq!(kept.shape(), vec![3, 2]);
            assert_eq!(kept.as_slice(), Some(&[1i64, 4, 2, 5, 3, 6][..]));
        }
        other => panic!("the array is not retained: {:?}", other),
    }
}

#[test]
fn array_with_reversed_axis_is_copied_into_standard_order() {
    let reversed =
        OwnedArray::from_shape_strides_vec(&[4], &[-1], vec![1i64, 2, 3, 4]).unwrap();
    assert!(!reversed.is_standard_layout());
    let parts = reversed.into_parts().unwrap();
    assert_eq!(parts.shape, vec![4]);
    assert_eq!(parts.num_elements, 4);
    match parts.guard {
        Some(Backing::Array(kept)) => assert_eq!(kept.as_slice(), Some(&[4i64, 3, 2, 1][..])),
        other => panic!("the array is not retained: {:?}", other),
    }
}

#[test]
fn lending_a_non_contiguous_array_is_refused() {
    let input = three_by_two_transposed();
    assert_eq!(input.ref_parts().unwrap_err(), Error::NonContiguous);
    assert!(Error::NonContiguous.is_validation_error());
    let r = TensorRef::from_array_view(&input, TensorElementType::Int64);
    assert_eq!(r.unwrap_err(), Error::NonContiguous);
}

#[test]
fn lending_a_standard_array_makes_no_copy() {
    let input = two_by_three();
    let pending = TensorRef::from_array_view(&input, TensorElementType::Int64).unwrap();
    assert!(std::ptr::eq(pending.data(), input.as_slice().unwrap()));
    assert_eq!(pending.pending().shape(), &[2, 3]);
    assert_eq!(pending.pending().byte_len(), 48);
    assert!(pending.pending().guard().is_none());
}

#[test]
fn array_with_an_empty_axis_is_lent_as_it_is() {
    let input = OwnedArray::from_shape_vec(&[2, 0], vec![]).unwrap();
    assert_eq!(input.len(), 0);
    let (shape, data, guard) = input.ref_parts().unwrap();
    assert_eq!(shape, vec![2, 0]);
    assert!(data.is_empty());
    assert!(guard.is_none());
}

#[test]
fn writes_through_a_mutable_array_view_reach_the_array() {
    let mut input = two_by_three();
    {
        let pending =
            TensorRefMut::from_array_view_mut(&mut input, TensorElementType::Int64).unwrap();
        assert_eq!(pending.pending().shape(), &[2, 3]);
        let view = pending.into_view(Reply { status: Status::Success, out: 0x20 }).unwrap();
        let (_, buffer) = view.into_parts();
        buffer.unwrap()[5] = 60;
    }
    assert_eq!(input.as_slice(), Some(&[1i64, 2, 3, 4, 5, 60][..]));
}

#[test]
fn refused_or_unmade_mutable_view_leaves_the_array_as_it_is() {
    let mut transposed = three_by_two_transposed();
    assert_eq!(transposed.ref_parts_mut().unwrap_err(), Error::NonContiguous);
    assert!(TensorRefMut::from_array_view_mut(&mut transposed, TensorElementType::Int64).is_err());
    assert_eq!(transposed.shape(), vec![3, 2]);
    assert!(!transposed.is_standard_layout());

    let mut input = two_by_three();
    {
        let pending =
            TensorRefMut::from_array_view_mut(&mut input, TensorElementType::Int64).unwrap();
        assert!(pending.into_view(Reply { status: Status::Success, out: 0 }).is_err());
    }
    assert_eq!(input.as_slice(), Some(&[1i64, 2, 3, 4, 5, 6][..]));
}

#[test]
fn shared_array_is_kept_alive_by_a_handle() {
    let input: SharedArray<i64> = two_by_three().into_shared();
    assert_eq!(input.shape(), vec![2, 3]);
    let (shape, data, guard) = input.ref_parts().unwrap();
    assert_eq!(shape, vec![2, 3]);
    assert_eq!(data, &[1i64, 2, 3, 4, 5, 6]);
    match guard {
        Some(Backing::SharedArray(kept)) => {
            assert!(std::ptr::eq(kept.as_slice().unwrap(), input.as_slice().unwrap()));
        }
        other => panic!("the shared array is not retained: {:?}", other),
    }
}

#[test]
fn sharing_an_array_copies_nothing() {
    let array = two_by_three();
    let address = array.as_slice().unwrap().as_ptr() as usize;
    let shared = array.into_shared();
    assert_eq!(shared.as_slice().unwrap().as_ptr() as usize, address);
}

#[test]
fn lending_a_non_contiguous_shared_array_is_refused() {
    let input = three_by_two_transposed().into_shared();
    assert_eq!(input.as_slice(), None);
    assert_eq!(input.ref_parts().unwrap_err(), Error::NonContiguous);
}

/// The place in memory of element `k` in logical order: the far ends of the
/// axes that run backwards, and index times stride over the axes.
fn position(shape: &[usize], strides: &[isize], k: usize) -> usize {
    let mut place: i128 = 0;
    let mut rest = k;
    for (d, s) in shape.iter().zip(strides).rev() {
        if *s < 0 && *d > 1 {
            place += -(*s as i128) * (*d as i128 - 1);
        }
        if *d != 0 {
            place += (rest % d) as i128 * *s as i128;
            rest /= d;
        }
    }
    place as usize
}

fn check_layout(shape: &[usize], strides: &[isize], data: Vec<i64>) {
    let count: usize = shape.iter().product();
    let expected: Vec<i64> = (0..count).map(|k| data[position(shape, strides, k)]).collect();
    let array = OwnedArray::from_shape_strides_vec(shape, strides, data).unwrap();
    assert_eq!(array.len(), count);
    let parts = array.into_parts().unwrap();
    assert_eq!(parts.num_elements, count);
    match parts.guard {
        Some(Backing::Array(kept)) => assert_eq!(kept.as_slice(), Some(&expected[..])),
        other => panic!("the array is not retained: {:?}", other),
    }
}

#[test]
fn elements_lie_where_index_times_stride_says() {
    let data: Vec<i64> = (0..24).collect();
    check_layout(&[2, 3, 4], &[12, 4, 1], data.clone());
    check_layout(&[4, 3, 2], &[1, 4, 12], data.clone());
    check_layout(&[3, 2, 4], &[4, 12, 1], data.clone());
    check_layout(&[2, 3, 4], &[-12, 4, 1], data.clone());
    check_layout(&[2, 3, 4], &[12, -4, -1], data.clone());
    check_layout(&[2, 3, 4], &[-12, -4, -1], data.clone());
    check_layout(&[4, 3, 2], &[-1, 4, -12], data.clone());
    check_layout(&[2, 2], &[6, 2], data.clone());
    check_layout(&[3, 1, 2], &[2, -7, 1], data.clone());
    check_layout(&[1, 1], &[-5, 9], data.clone());
    check_layout(&[], &[], data.clone());
    check_layout(&[5], &[-3], data.clone());
    check_layout(&[0, 3], &[3, 1], data.clone());
    check_layout(&[0, 3], &[0, 0], Vec::new());
    check_layout(&[2, 0], &[-1, 1], data);
}
