use ort::error::{Error, ErrorCode, NativeObject};
use ort::native::{Reply, Status, check_handle, status_to_result};
use ort::shape::ToDimensions;

#[test]
fn invalid_dimension_message_counts_from_one() {
    let e = vec![4i64, 0].to_dimensions(None).unwrap_err();
    assert_eq!(
        e.message(),
        "Invalid dimension #2; all dimensions must be >= 1 when creating a tensor from raw data"
    );
    assert_eq!(
        Error::InvalidDimension { index: 120 }.message(),
        "Invalid dimension #120; all dimensions must be >= 1 when creating a tensor from raw data"
    );
}

#[test]
fn too_large_dimension_message_counts_from_one() {
    assert_eq!(
        Error::DimensionTooLarge { index: 3 }.message(),
        "Invalid dimension #3; a dimension must not be greater than 9223372036854775807"
    );
    assert!(Error::DimensionTooLarge { index: 3 }.is_validation_error());
    assert_eq!(Error::DimensionTooLarge { index: 3 }.code(), ErrorCode::InvalidArgument);
}

#[test]
fn mismatch_message_gives_shape_and_both_counts() {
    let e = vec![2i64, 3, 10].to_dimensions(Some(59)).unwrap_err();
    assert_eq!(
        e.message(),
        "Cannot create a tensor from raw data; shape [2, 3, 10] (60 elements) does not match the length of the data provided (59 elements)"
    );
    let e = Error::ElementCountMismatch { shape: vec![-7], computed: 0, expected: 1 };
    assert_eq!(
        e.message(),
        "Cannot create a tensor from raw data; shape [-7] (0 elements) does not match the length of the data provided (1 elements)"
    );
    let e = Error::ElementCountMismatch { shape: vec![i64::MIN, 5], computed: 0, expected: 10 };
    assert_eq!(
        e.message(),
        "Cannot create a tensor from raw data; shape [-9223372036854775808, 5] (0 elements) does not match the length of the data provided (10 elements)"
    );
}

#[test]
fn scalar_mismatch_message() {
    let e = ().to_dimensions(Some(2)).unwrap_err();
    assert_eq!(
        e.message(),
        "Cannot create a tensor from raw data; shape [] (1 elements) does not match the length of the data provided (2 elements)"
    );
    assert_eq!(e.code(), ErrorCode::InvalidArgument);
}

#[test]
fn other_messages() {
    assert_eq!(
        Error::NonContiguous.message(),
        "Array has a non-contiguous layout and cannot be used to construct a Tensor"
    );
    assert_eq!(
        Error::InteriorNul { position: 0 }.message(),
        "nul byte found in provided data at position: 0"
    );
    assert_eq!(
        Error::InteriorNul { position: 1009 }.message(),
        "nul byte found in provided data at position: 1009"
    );
    assert_eq!(
        Error::SizeOverflow.message(),
        "The length of the data in bytes does not fit in usize"
    );
    assert_eq!(
        Error::NullResult { object: NativeObject::Value }.message(),
        "expected the value to not be null"
    );
    assert_eq!(
        Error::NullResult { object: NativeObject::CheckpointState }.message(),
        "expected the checkpoint state to not be null"
    );
    assert_eq!(
        Error::NullResult { object: NativeObject::TensorTypeAndShapeInfo }.message(),
        "expected the tensor type and shape info to not be null"
    );
    assert_eq!(
        Error::TrainingUnavailable.message(),
        "Training is not enabled in this build of the engine"
    );
}

#[test]
fn native_message_is_passed_on_as_it_came() {
    let e = status_to_result(Status::Failure {
        code: ErrorCode::NoModel,
        message: "model.onnx: no such model".to_string(),
    })
    .unwrap_err();
    assert_eq!(e.message(), "model.onnx: no such model");
    assert_eq!(e.code(), ErrorCode::NoModel);
    assert!(!e.is_validation_error());
}

#[test]
fn error_codes_tell_validation_from_engine_failure() {
    assert_eq!(Error::InvalidDimension { index: 1 }.code(), ErrorCode::InvalidArgument);
    assert!(Error::InvalidDimension { index: 1 }.is_validation_error());
    assert!(Error::SizeOverflow.is_validation_error());
    assert_eq!(Error::SizeOverflow.code(), ErrorCode::GenericFailure);
    assert!(!Error::TrainingUnavailable.is_validation_error());
    assert!(!Error::NullResult { object: NativeObject::Value }.is_validation_error());
}

#[test]
fn handle_check_tells_the_three_outcomes_apart() {
    let ok = check_handle(Reply { status: Status::Success, out: 8 }, NativeObject::Value);
    assert_eq!(ok.unwrap().addr(), 8);
    let null = check_handle(Reply { status: Status::Success, out: 0 }, NativeObject::Value);
    assert_eq!(null.unwrap_err(), Error::NullResult { object: NativeObject::Value });
    let failed = check_handle(
        Reply {
            status: Status::Failure { code: ErrorCode::EngineError, message: "x".to_string() },
            out: 8,
        },
        NativeObject::Value,
    );
    assert_eq!(
        failed.unwrap_err(),
        Error::Native { code: ErrorCode::EngineError, message: "x".to_string() }
    );
}
