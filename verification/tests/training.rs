use std::collections::HashMap;

use ort::error::{Error, ErrorCode, NativeObject};
use ort::memory::{Allocator, Handle, MemoryInfo};
use ort::native::{Reply, Status, check_handle, status_to_result};
use ort::tensor::DynTensor;
use ort::training::{
    Checkpoint, LearningRateScheduler, Optimizer, Property, PropertyKind, PropertyRead,
    PropertyValue, TrainingCall, TypeInfoLease, learning_rate, property_read, set_seed,
    training_api,
};
use ort::value::{TensorElementType, Value, ValueType};

fn success(out: usize) -> Reply {
    Reply { status: Status::Success, out }
}

fn no_such(message: &str) -> Status {
    Status::Failure { code: ErrorCode::InvalidArgument, message: message.to_string() }
}

/// The status with which the engine says that a checkpoint holds no
/// property of a name.
fn no_property(name: &str) -> Status {
    Status::Failure {
        code: ErrorCode::RuntimeException,
        message: format!(
            "checkpoint_property.h:91 GetProperty it != named_properties_.end() was false. No property named {}",
            name
        ),
    }
}

fn checkpoint(addr: usize) -> Checkpoint {
    Checkpoint::load(success(addr)).unwrap()
}

/// What a property store answers to a look-up: the status, the kind, and the
/// value as the caller reads it.
fn answer(store: &HashMap<Vec<u8>, Property>, call: TrainingCall) -> Option<Property> {
    let name = match call {
        TrainingCall::GetProperty { name, .. } => name,
        other => panic!("not a look-up: {:?}", other),
    };
    let key = name.as_bytes_with_nul().to_vec();
    let (status, kind) = match store.get(&key) {
        Some(Property::Int(_)) => (Status::Success, PropertyKind::Int),
        Some(Property::Float(_)) => (Status::Success, PropertyKind::Float),
        Some(Property::String(_)) => (Status::Success, PropertyKind::String),
        None => (no_property("asked"), PropertyKind::Int),
    };
    let read = property_read(status, kind).unwrap()?;
    assert_eq!(read.free_after_copy, read.kind == PropertyKind::String);
    store.get(&key).cloned()
}

fn put(store: &mut HashMap<Vec<u8>, Property>, call: TrainingCall) {
    match call {
        TrainingCall::AddProperty { name, value, .. } => {
            let property = match value {
                PropertyValue::Int(v) => Property::Int(v),
                PropertyValue::Float(bits) => Property::Float(bits),
                PropertyValue::String(s) => {
                    let bytes = s.as_bytes_with_nul();
                    Property::String(String::from_utf8(bytes[..bytes.len() - 1].to_vec()).unwrap())
                }
            };
            store.insert(name.as_bytes_with_nul().to_vec(), property);
        }
        other => panic!("not an addition: {:?}", other),
    }
}

#[test]
fn property_round_trip() {
    let mut store = HashMap::new();
    let mut ckpt = checkpoint(0x100);
    put(&mut store, ckpt.add_property("epoch", Property::from(5i64)).unwrap());
    let lookup = ckpt.get_property("epoch").unwrap();
    assert_eq!(answer(&store, lookup.call()), Some(Property::Int(5)));
    let lookup = ckpt.get_property("missing").unwrap();
    assert_eq!(answer(&store, lookup.call()), None);
}

#[test]
fn string_and_float_properties_round_trip() {
    let mut store = HashMap::new();
    let mut ckpt = checkpoint(0x100);
    put(&mut store, ckpt.add_property("name", Property::from("run".to_string())).unwrap());
    put(&mut store, ckpt.add_property("loss", Property::Float(0.5f32.to_bits())).unwrap());
    assert_eq!(
        answer(&store, ckpt.get_property("name").unwrap().call()),
        Some(Property::String("run".to_string()))
    );
    assert_eq!(
        answer(&store, ckpt.get_property("loss").unwrap().call()),
        Some(Property::Float(0x3f00_0000))
    );
}

#[test]
fn add_property_names_the_call() {
    let mut ckpt = checkpoint(0x100);
    match ckpt.add_property("epoch", Property::Int(5)).unwrap() {
        TrainingCall::AddProperty { checkpoint, name, value } => {
            assert_eq!(checkpoint, 0x100);
            assert_eq!(name.as_bytes_with_nul(), b"epoch\0");
            assert_eq!(value, PropertyValue::Int(5));
        }
        other => panic!("{:?}", other),
    }
    match ckpt.add_property("tag", Property::String("a b".to_string())).unwrap() {
        TrainingCall::AddProperty { value: PropertyValue::String(s), .. } => {
            assert_eq!(s.as_bytes_with_nul(), b"a b\0");
        }
        other => panic!("{:?}", other),
    }
}

#[test]
fn add_property_refuses_zero_bytes() {
    let mut ckpt = checkpoint(0x100);
    assert_eq!(
        ckpt.add_property("ep\0ch", Property::Int(5)).unwrap_err(),
        Error::InteriorNul { position: 2 }
    );
    assert_eq!(
        ckpt.add_property("tag", Property::String("\0".to_string())).unwrap_err(),
        Error::InteriorNul { position: 0 }
    );
    assert_eq!(
        ckpt.add_property("a\0", Property::String("b\0".to_string())).unwrap_err(),
        Error::InteriorNul { position: 1 }
    );
}

#[test]
fn name_with_a_zero_byte_names_no_property() {
    let ckpt = checkpoint(0x100);
    assert!(ckpt.get_property("mis\0sing").is_none());
}

#[test]
fn property_is_read_by_kind_and_freed_only_if_a_string() {
    assert_eq!(
        property_read(Status::Success, PropertyKind::Int),
        Ok(Some(PropertyRead { kind: PropertyKind::Int, free_after_copy: false }))
    );
    assert_eq!(
        property_read(Status::Success, PropertyKind::Float),
        Ok(Some(PropertyRead { kind: PropertyKind::Float, free_after_copy: false }))
    );
    assert_eq!(
        property_read(Status::Success, PropertyKind::String),
        Ok(Some(PropertyRead { kind: PropertyKind::String, free_after_copy: true }))
    );
}

#[test]
fn only_a_missing_property_is_no_value() {
    assert_eq!(property_read(no_property("epoch"), PropertyKind::String), Ok(None));
    assert_eq!(property_read(no_property(""), PropertyKind::Int), Ok(None));
}

#[test]
fn other_failures_of_a_look_up_are_errors() {
    assert_eq!(
        property_read(no_such("x"), PropertyKind::String),
        Err(Error::Native { code: ErrorCode::InvalidArgument, message: "x".to_string() })
    );
    let out_of_memory = Status::Failure {
        code: ErrorCode::RuntimeException,
        message: "std::bad_alloc".to_string(),
    };
    assert_eq!(
        property_read(out_of_memory, PropertyKind::Int),
        Err(Error::Native {
            code: ErrorCode::RuntimeException,
            message: "std::bad_alloc".to_string()
        })
    );
    let wrong_code = Status::Failure {
        code: ErrorCode::GenericFailure,
        message: "No property named epoch".to_string(),
    };
    assert_eq!(
        property_read(wrong_code, PropertyKind::Int),
        Err(Error::Native {
            code: ErrorCode::GenericFailure,
            message: "No property named epoch".to_string()
        })
    );
    let cut_short = Status::Failure {
        code: ErrorCode::RuntimeException,
        message: "No property name".to_string(),
    };
    assert!(property_read(cut_short, PropertyKind::Int).is_err());
}

#[test]
fn checkpoint_is_loaded_from_the_engines_answer() {
    assert_eq!(checkpoint(0x100).ptr().addr(), 0x100);
    assert_eq!(Checkpoint::load_from_buffer(success(0x200)).unwrap().ptr().addr(), 0x200);
    assert_eq!(
        Checkpoint::load(success(0)).unwrap_err(),
        Error::NullResult { object: NativeObject::CheckpointState }
    );
    let reply = Reply {
        status: Status::Failure { code: ErrorCode::NoSuchFile, message: "gone".to_string() },
        out: 0,
    };
    assert_eq!(
        Checkpoint::load_from_buffer(reply).unwrap_err(),
        Error::Native { code: ErrorCode::NoSuchFile, message: "gone".to_string() }
    );
}

#[test]
fn checkpoint_is_released_by_giving_it_up() {
    let ckpt = checkpoint(0x100);
    assert_eq!(ckpt.release(), TrainingCall::ReleaseCheckpointState { checkpoint: 0x100 });
}

#[test]
fn save_names_the_call() {
    let ckpt = checkpoint(0x100);
    assert_eq!(
        ckpt.save(true),
        TrainingCall::SaveCheckpoint { checkpoint: 0x100, include_optimizer_state: true }
    );
    assert_eq!(status_to_result(Status::Success), Ok(()));
    assert_eq!(
        status_to_result(no_such("disk")),
        Err(Error::Native { code: ErrorCode::InvalidArgument, message: "disk".to_string() })
    );
}

#[test]
fn parameter_is_fetched_as_an_owned_tensor() {
    let ckpt = checkpoint(0x100);
    match ckpt.get_parameter("fc1.weight", &Allocator::Default).unwrap() {
        TrainingCall::GetParameter { checkpoint, name, allocator } => {
            assert_eq!(checkpoint, 0x100);
            assert_eq!(name.as_bytes_with_nul(), b"fc1.weight\0");
            assert_eq!(allocator, None);
        }
        other => panic!("{:?}", other),
    }
    let handle = check_handle(success(0x300), NativeObject::Value).unwrap();
    let tensor: DynTensor<u8> = DynTensor::from_ptr(
        handle,
        ValueType::tensor(TensorElementType::Float32, vec![4, 4]),
        Some(MemoryInfo::default()),
    );
    assert_eq!(tensor.value().handle().addr(), 0x300);
    assert!(tensor.value().owns_native_resource());
    assert!(tensor.value().retained_backing().is_none());
    assert_eq!(
        ckpt.get_parameter("fc1\0", &Allocator::Default).unwrap_err(),
        Error::InteriorNul { position: 3 }
    );
    assert_eq!(
        check_handle(no_such_reply(), NativeObject::Value).unwrap_err(),
        Error::Native { code: ErrorCode::InvalidArgument, message: "no such parameter".to_string() }
    );
}

fn no_such_reply() -> Reply {
    Reply { status: no_such("no such parameter"), out: 0 }
}

#[test]
fn parameter_is_updated_with_a_values_handle() {
    let mut ckpt = checkpoint(0x100);
    let value = Value::<u8>::new(
        Handle::new(0x400).unwrap(),
        ValueType::tensor(TensorElementType::Uint8, vec![1]),
        None,
        true,
        None,
    );
    match ckpt.update_parameter("bias", &value).unwrap() {
        TrainingCall::UpdateParameter { checkpoint, name, value } => {
            assert_eq!(checkpoint, 0x100);
            assert_eq!(name.as_bytes_with_nul(), b"bias\0");
            assert_eq!(value, 0x400);
        }
        other => panic!("{:?}", other),
    }
    assert!(ckpt.update_parameter("\0", &value).is_err());
}

#[test]
fn type_description_is_released_whatever_was_read() {
    let ckpt = checkpoint(0x100);
    match ckpt.get_parameter_type("bias").unwrap() {
        TrainingCall::GetParameterTypeAndShape { checkpoint, name } => {
            assert_eq!(checkpoint, 0x100);
            assert_eq!(name.as_bytes_with_nul(), b"bias\0");
        }
        other => panic!("{:?}", other),
    }
    let lease = TypeInfoLease::received(success(0x500)).unwrap();
    assert_eq!(lease.info().addr(), 0x500);
    let dtype = ValueType::tensor(TensorElementType::Float32, vec![8]);
    let (read, release) = lease.finish(Ok(dtype.clone()));
    assert_eq!(read, Ok(dtype));
    assert_eq!(release, TrainingCall::ReleaseTensorTypeAndShapeInfo { info: 0x500 });

    let lease = TypeInfoLease::received(success(0x600)).unwrap();
    let (read, release) = lease.finish(Err(Error::SizeOverflow));
    assert_eq!(read, Err(Error::SizeOverflow));
    assert_eq!(release, TrainingCall::ReleaseTensorTypeAndShapeInfo { info: 0x600 });

    assert_eq!(
        TypeInfoLease::received(success(0)).unwrap_err(),
        Error::NullResult { object: NativeObject::TensorTypeAndShapeInfo }
    );
}

#[test]
fn training_needs_its_entry_points() {
    assert_eq!(training_api(0).unwrap_err(), Error::TrainingUnavailable);
    assert_eq!(training_api(0x700).unwrap().table().addr(), 0x700);
    assert_eq!(set_seed(42), TrainingCall::SetSeed { seed: 42 });
}

#[test]
fn optimizer_names_its_calls() {
    let session = Handle::new(0x800).unwrap();
    let options = Handle::new(0x900).unwrap();
    let mut optimizer = Optimizer::new(&session);
    assert_eq!(optimizer.reset_grad(), TrainingCall::LazyResetGrad { session: 0x800 });
    assert_eq!(optimizer.lr(), TrainingCall::GetLearningRate { session: 0x800 });
    assert_eq!(
        optimizer.set_lr(0.25f32.to_bits()),
        TrainingCall::SetLearningRate { session: 0x800, learning_rate: 0x3e80_0000 }
    );
    assert_eq!(
        optimizer.register_scheduler(LearningRateScheduler::Linear {
            warmup_step_count: 10,
            total_step_count: 100,
            initial_lr: 1.0f32.to_bits()
        }),
        TrainingCall::RegisterLinearLRScheduler {
            session: 0x800,
            warmup_step_count: 10,
            total_step_count: 100,
            initial_lr: 0x3f80_0000
        }
    );
    assert_eq!(
        optimizer.step(),
        TrainingCall::OptimizerStep { session: 0x800, run_options: None }
    );
    assert_eq!(
        optimizer.step_with_options(&options),
        TrainingCall::OptimizerStep { session: 0x800, run_options: Some(0x900) }
    );
    assert_eq!(optimizer.step_scheduler(), TrainingCall::SchedulerStep { session: 0x800 });
}

#[test]
fn learning_rate_is_what_the_engine_wrote() {
    assert_eq!(learning_rate(Status::Success, 0.5f32.to_bits()).map(f32::from_bits), Ok(0.5));
    assert_eq!(
        learning_rate(no_such("lr"), 0),
        Err(Error::Native { code: ErrorCode::InvalidArgument, message: "lr".to_string() })
    );
}
