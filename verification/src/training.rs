//! On-device training: the checkpoint, which holds named properties and
//! named parameters, and the optimizer of a training session.
//!
//! Every operation here comes to one call of a training entry point. The
//! operation checks what the caller gave and says which call is to be made,
//! with which arguments; what the engine answers is turned into a result by
//! `status_to_result` and `check_handle`, or by the step that the operation
//! names. A failure of the engine is an error everywhere but in one place: a
//! look-up of a property that the checkpoint does not hold gives no value.

use crate::error::{Error, ErrorCode, NativeObject};
use crate::memory::{Allocator, Handle};
use crate::native::{check_handle, handle_outcome, Reply, Status};
use crate::strings::{contains, find, first_nul_at, has_nul, NativeString};
use vstd::string::StringSliceAdditionalSpecFns;
use crate::value::{Value, ValueType};
use vstd::prelude::*;

verus! {

/// The value of a property as it is handed to the engine.
#[derive(Debug, PartialEq, Eq)]
pub enum PropertyValue {
    Int(i64),
    /// The bits of a single-precision number.
    Float(u32),
    String(NativeString),
}

/// One call of an entry point of the engine, with its arguments. Native
/// objects are given by their addresses.
#[derive(Debug, PartialEq, Eq)]
#[allow(inconsistent_fields)]
pub enum TrainingCall {
    SetSeed { seed: i64 },
    SaveCheckpoint { checkpoint: usize, include_optimizer_state: bool },
    AddProperty { checkpoint: usize, name: NativeString, value: PropertyValue },
    /// The value is allocated by the engine's default allocator.
    GetProperty { checkpoint: usize, name: NativeString },
    /// `allocator` is none for the engine's default allocator.
    GetParameter { checkpoint: usize, name: NativeString, allocator: Option<usize> },
    UpdateParameter { checkpoint: usize, name: NativeString, value: usize },
    GetParameterTypeAndShape { checkpoint: usize, name: NativeString },
    ReleaseTensorTypeAndShapeInfo { info: usize },
    ReleaseCheckpointState { checkpoint: usize },
    LazyResetGrad { session: usize },
    GetLearningRate { session: usize },
    SetLearningRate { session: usize, learning_rate: u32 },
    RegisterLinearLRScheduler {
        session: usize,
        warmup_step_count: i64,
        total_step_count: i64,
        initial_lr: u32,
    },
    /// `run_options` is none for a step without options.
    OptimizerStep { session: usize, run_options: Option<usize> },
    SchedulerStep { session: usize },
}

/// The table of training entry points of an engine that has them.
#[derive(Debug)]
pub struct TrainingApi {
    table: Handle,
}

impl TrainingApi {
    pub closed spec fn view(self) -> usize {
        self.table@
    }

    pub fn table(&self) -> (h: &Handle)
        ensures
            h@ == self@,
    {
        &self.table
    }
}

/// The training entry points, from the address of their table as the engine
/// gave it. An engine that was built without training gives null, which is
/// an error like any other.
pub fn training_api(table: usize) -> (r: Result<TrainingApi, Error>)
    ensures
        match r {
            Ok(api) => table != 0 && api@ == table,
            Err(e) => table == 0 && e == Error::TrainingUnavailable,
        },
{
    match Handle::new(table) {
        Some(table) => Ok(TrainingApi { table }),
        None => Err(Error::TrainingUnavailable),
    }
}

/// Sets the seed of the random numbers that training draws.
pub fn set_seed(seed: i64) -> (call: TrainingCall)
    ensures
        call == (TrainingCall::SetSeed { seed }),
{
    TrainingCall::SetSeed { seed }
}

/// A property of a checkpoint.
#[derive(Debug, Clone, PartialEq, Eq)]
pub enum Property {
    Int(i64),
    /// The bits of a single-precision number.
    Float(u32),
    String(String),
}

impl From<i64> for Property {
    fn from(value: i64) -> (p: Property) {
        Property::Int(value)
    }
}

impl vstd::std_specs::convert::FromSpecImpl<i64> for Property {
    open spec fn obeys_from_spec() -> bool {
        true
    }

    open spec fn from_spec(value: i64) -> Property {
        Property::Int(value)
    }
}

impl From<String> for Property {
    fn from(value: String) -> (p: Property) {
        Property::String(value)
    }
}

impl vstd::std_specs::convert::FromSpecImpl<String> for Property {
    open spec fn obeys_from_spec() -> bool {
        true
    }

    open spec fn from_spec(value: String) -> Property {
        Property::String(value)
    }
}

/// The kind of value that the engine reported for a property.
#[derive(Debug, Clone, Copy, PartialEq, Eq, Structural)]
pub enum PropertyKind {
    Int,
    Float,
    String,
}

/// How to take the value that the engine handed out for a property.
///
/// A number lies where the engine's pointer points and is read from there. A
/// string lies in a buffer that the engine allocated for the caller: it is
/// copied, and the buffer is then freed, once, through the allocator that the
/// call was made with.
#[derive(Debug, Clone, Copy, PartialEq, Eq, Structural)]
pub struct PropertyRead {
    pub kind: PropertyKind,
    pub free_after_copy: bool,
}

/// A property that is being looked up.
#[derive(Debug)]
pub struct PropertyLookup {
    checkpoint: usize,
    name: NativeString,
}

impl PropertyLookup {
    pub closed spec fn checkpoint_spec(self) -> usize {
        self.checkpoint
    }

    pub closed spec fn name_spec(self) -> Seq<u8> {
        self.name@
    }

    /// The call that looks the property up.
    pub fn call(self) -> (call: TrainingCall)
        ensures
            call matches TrainingCall::GetProperty { checkpoint, name } && checkpoint
                == self.checkpoint_spec() && name@ == self.name_spec(),
    {
        TrainingCall::GetProperty { checkpoint: self.checkpoint, name: self.name }
    }
}

/// The words with which the engine says that a checkpoint holds no property
/// of the name that was asked for.
pub open spec fn no_property_words() -> Seq<u8> {
    vstd::utf8::encode_utf8("No property named"@)
}

/// Whether a failure means that the checkpoint holds no property of the
/// name: the engine reports it as a runtime exception whose message holds
/// the words above.
pub open spec fn not_found(code: ErrorCode, message: Seq<char>) -> bool {
    code == ErrorCode::RuntimeException && contains(
        vstd::utf8::encode_utf8(message),
        no_property_words(),
    )
}

/// What there is to take after a look-up. After success the value is taken
/// according to its kind, and freed exactly where it is a string. A failure
/// that means "no property of that name" is no error: there is no value
/// then, nothing to read and nothing to free. Every other failure is the
/// error that the engine gave.
pub fn property_read(status: Status, kind: PropertyKind) -> (r: Result<
    Option<PropertyRead>,
    Error,
>)
    ensures
        status is Success ==> (r matches Ok(Some(read)) && read.kind == kind && (
        read.free_after_copy <==> kind is String)),
        status matches Status::Failure { code, message } ==> if not_found(code, message@) {
            r == Ok::<Option<PropertyRead>, Error>(None)
        } else {
            r == Err::<Option<PropertyRead>, Error>(Error::Native { code, message })
        },
{
    match status {
        Status::Success => Ok(
            Some(
                PropertyRead {
                    kind,
                    free_after_copy: match kind {
                        PropertyKind::String => true,
                        _ => false,
                    },
                },
            ),
        ),
        Status::Failure { code, message } => {
            let missing = match code {
                ErrorCode::RuntimeException => find(
                    message.as_str().as_bytes(),
                    "No property named".as_bytes(),
                ),
                _ => false,
            };
            if missing {
                Ok(None)
            } else {
                Err(Error::Native { code, message })
            }
        },
    }
}

/// What is known of a parameter's type once the engine has been asked: a
/// handle to a description that the engine allocated for the caller.
#[derive(Debug)]
pub struct TypeInfoLease {
    info: Handle,
}

impl TypeInfoLease {
    pub closed spec fn view(self) -> usize {
        self.info@
    }

    /// The description that the engine handed out, from its answer.
    pub fn received(reply: Reply) -> (r: Result<TypeInfoLease, Error>)
        ensures
            match r {
                Ok(lease) => reply.status is Success && reply.out != 0 && lease@ == reply.out,
                Err(e) => handle_outcome(reply, NativeObject::TensorTypeAndShapeInfo, Err(e)),
            },
    {
        match check_handle(reply, NativeObject::TensorTypeAndShapeInfo) {
            Ok(info) => Ok(TypeInfoLease { info }),
            Err(e) => Err(e),
        }
    }

    pub fn info(&self) -> (h: &Handle)
        ensures
            h@ == self@,
    {
        &self.info
    }

    /// Ends the lease with what was read from the description. Whether
    /// reading gave a type or failed, the description is released: the call
    /// that does so comes back beside the result, which is passed on as it
    /// is.
    pub fn finish(self, extracted: Result<ValueType, Error>) -> (r: (
        Result<ValueType, Error>,
        TrainingCall,
    ))
        ensures
            r.0 == extracted,
            r.1 == (TrainingCall::ReleaseTensorTypeAndShapeInfo { info: self@ }),
    {
        (extracted, TrainingCall::ReleaseTensorTypeAndShapeInfo { info: self.info.addr() })
    }
}

/// The state of a training run: named properties and named parameters. The
/// checkpoint owns its native object alone.
#[derive(Debug)]
pub struct Checkpoint {
    ptr: Handle,
}

/// What a call with a name is, when the name can be handed over.
pub open spec fn named(bytes: Seq<u8>, r: Result<NativeString, Error>) -> bool {
    match r {
        Ok(name) => !has_nul(bytes) && name@ == bytes,
        Err(Error::InteriorNul { position }) => first_nul_at(bytes, position as int),
        Err(_) => false,
    }
}

/// What `add_property` comes to for a name and a property.
pub open spec fn property_added(
    checkpoint: usize,
    name: Seq<u8>,
    property: Property,
    r: Result<TrainingCall, Error>,
) -> bool {
    match r {
        Ok(TrainingCall::AddProperty { checkpoint: c, name: n, value }) => {
            &&& c == checkpoint
            &&& !has_nul(name)
            &&& n@ == name
            &&& match property {
                Property::Int(v) => value == PropertyValue::Int(v),
                Property::Float(bits) => value == PropertyValue::Float(bits),
                Property::String(text) => value matches PropertyValue::String(s) && !has_nul(
                    vstd::utf8::encode_utf8(text@),
                ) && s@ == vstd::utf8::encode_utf8(text@),
            }
        },
        Ok(_) => false,
        Err(Error::InteriorNul { position }) => {
            ||| first_nul_at(name, position as int)
            ||| {
                &&& !has_nul(name)
                &&& property matches Property::String(text)
                &&& first_nul_at(vstd::utf8::encode_utf8(text@), position as int)
            }
        },
        Err(_) => false,
    }
}

impl Checkpoint {
    /// The address of the native checkpoint.
    pub closed spec fn view(self) -> usize {
        self.ptr@
    }

    pub fn ptr(&self) -> (h: &Handle)
        ensures
            h@ == self@,
    {
        &self.ptr
    }

    fn adopt(reply: Reply) -> (r: Result<Checkpoint, Error>)
        ensures
            match r {
                Ok(c) => reply.status is Success && reply.out != 0 && c@ == reply.out,
                Err(e) => handle_outcome(reply, NativeObject::CheckpointState, Err(e)),
            },
    {
        match check_handle(reply, NativeObject::CheckpointState) {
            Ok(ptr) => Ok(Checkpoint { ptr }),
            Err(e) => Err(e),
        }
    }

    /// The checkpoint that the engine loaded from a file, from its answer.
    pub fn load(reply: Reply) -> (r: Result<Checkpoint, Error>)
        ensures
            match r {
                Ok(c) => reply.status is Success && reply.out != 0 && c@ == reply.out,
                Err(e) => handle_outcome(reply, NativeObject::CheckpointState, Err(e)),
            },
    {
        Checkpoint::adopt(reply)
    }

    /// The checkpoint that the engine loaded from a serialized image in
    /// memory, from its answer.
    pub fn load_from_buffer(reply: Reply) -> (r: Result<Checkpoint, Error>)
        ensures
            match r {
                Ok(c) => reply.status is Success && reply.out != 0 && c@ == reply.out,
                Err(e) => handle_outcome(reply, NativeObject::CheckpointState, Err(e)),
            },
    {
        Checkpoint::adopt(reply)
    }

    /// Writes the checkpoint to a file, with or without the state that the
    /// optimizer keeps.
    pub fn save(&self, include_optimizer_state: bool) -> (call: TrainingCall)
        ensures
            call == (TrainingCall::SaveCheckpoint { checkpoint: self@, include_optimizer_state }),
    {
        TrainingCall::SaveCheckpoint { checkpoint: self.ptr.addr(), include_optimizer_state }
    }

    /// Adds a property, or replaces the one of that name. Neither the name
    /// nor a string value may hold a zero byte.
    pub fn add_property(&mut self, name: &str, property: Property) -> (r: Result<
        TrainingCall,
        Error,
    >)
        ensures
            final(self)@ == old(self)@,
            property_added(old(self)@, vstd::utf8::encode_utf8(name@), property, r),
    {
        let name = match NativeString::new(name.as_bytes()) {
            Ok(name) => name,
            Err(e) => {
                return Err(e);
            },
        };
        let checkpoint = self.ptr.addr();
        match property {
            Property::Int(value) => Ok(
                TrainingCall::AddProperty { checkpoint, name, value: PropertyValue::Int(value) },
            ),
            Property::Float(bits) => Ok(
                TrainingCall::AddProperty { checkpoint, name, value: PropertyValue::Float(bits) },
            ),
            Property::String(text) => match NativeString::new(text.as_str().as_bytes()) {
                Ok(value) => Ok(
                    TrainingCall::AddProperty {
                        checkpoint,
                        name,
                        value: PropertyValue::String(value),
                    },
                ),
                Err(e) => Err(e),
            },
        }
    }

    /// Looks a property up. A name that holds a zero byte names no
    /// property: there is nothing to look up then.
    pub fn get_property(&self, name: &str) -> (r: Option<PropertyLookup>)
        ensures
            r is Some <==> !has_nul(vstd::utf8::encode_utf8(name@)),
            r matches Some(lookup) ==> lookup.checkpoint_spec() == self@ && lookup.name_spec()
                == vstd::utf8::encode_utf8(name@),
    {
        match NativeString::new(name.as_bytes()) {
            Ok(name) => Some(PropertyLookup { checkpoint: self.ptr.addr(), name }),
            Err(_) => None,
        }
    }

    /// Fetches the parameter of that name as a tensor that `allocator`
    /// allocates.
    pub fn get_parameter(&self, name: &str, allocator: &Allocator) -> (r: Result<
        TrainingCall,
        Error,
    >)
        ensures
            match r {
                Ok(TrainingCall::GetParameter { checkpoint, name: n, allocator: a }) => {
                    &&& checkpoint == self@
                    &&& named(vstd::utf8::encode_utf8(name@), Ok(n))
                    &&& a == allocator.address_spec()
                },
                Ok(_) => false,
                Err(e) => named(vstd::utf8::encode_utf8(name@), Err(e)),
            },
    {
        let address = allocator.address();
        match NativeString::new(name.as_bytes()) {
            Ok(name) => Ok(
                TrainingCall::GetParameter {
                    checkpoint: self.ptr.addr(),
                    name,
                    allocator: address,
                },
            ),
            Err(e) => Err(e),
        }
    }

    /// Puts `value` in the place of the parameter of that name. The engine
    /// refuses a value whose type is not the parameter's.
    pub fn update_parameter<T>(&mut self, name: &str, value: &Value<T>) -> (r: Result<
        TrainingCall,
        Error,
    >)
        ensures
            final(self)@ == old(self)@,
            match r {
                Ok(TrainingCall::UpdateParameter { checkpoint, name: n, value: v }) => {
                    &&& checkpoint == old(self)@
                    &&& named(vstd::utf8::encode_utf8(name@), Ok(n))
                    &&& v == value@.handle
                },
                Ok(_) => false,
                Err(e) => named(vstd::utf8::encode_utf8(name@), Err(e)),
            },
    {
        match NativeString::new(name.as_bytes()) {
            Ok(name) => Ok(
                TrainingCall::UpdateParameter {
                    checkpoint: self.ptr.addr(),
                    name,
                    value: value.handle().addr(),
                },
            ),
            Err(e) => Err(e),
        }
    }

    /// Asks for the type of the parameter of that name: its element kind and
    /// shape, without its data.
    pub fn get_parameter_type(&self, name: &str) -> (r: Result<TrainingCall, Error>)
        ensures
            match r {
                Ok(TrainingCall::GetParameterTypeAndShape { checkpoint, name: n }) => {
                    &&& checkpoint == self@
                    &&& named(vstd::utf8::encode_utf8(name@), Ok(n))
                },
                Ok(_) => false,
                Err(e) => named(vstd::utf8::encode_utf8(name@), Err(e)),
            },
    {
        match NativeString::new(name.as_bytes()) {
            Ok(name) => Ok(
                TrainingCall::GetParameterTypeAndShape { checkpoint: self.ptr.addr(), name },
            ),
            Err(e) => Err(e),
        }
    }

    /// Ends the checkpoint. The native object is released by the call that
    /// comes back; the checkpoint is gone with this, so that it is released
    /// once.
    pub fn release(self) -> (call: TrainingCall)
        ensures
            call == (TrainingCall::ReleaseCheckpointState { checkpoint: self@ }),
    {
        TrainingCall::ReleaseCheckpointState { checkpoint: self.ptr.addr() }
    }
}

/// A schedule for the learning rate.
#[derive(Debug, Clone, PartialEq, Eq)]
pub enum LearningRateScheduler {
    /// The rate rises linearly over `warmup_step_count` steps to
    /// `initial_lr`, which is given by the bits of a single-precision
    /// number, and falls linearly after that until `total_step_count`.
    Linear { warmup_step_count: i64, total_step_count: i64, initial_lr: u32 },
}

/// The optimizer of a training session. It borrows the session for `'s` and
/// releases nothing.
#[derive(Debug)]
pub struct Optimizer<'s> {
    session: &'s Handle,
}

impl<'s> Optimizer<'s> {
    /// The address of the native training session.
    pub closed spec fn view(self) -> usize {
        self.session@
    }

    pub fn new(session: &'s Handle) -> (o: Optimizer<'s>)
        ensures
            o@ == session@,
    {
        Optimizer { session }
    }

    /// Clears the gradients that have gathered. The engine does so when it
    /// next needs them.
    pub fn reset_grad(&mut self) -> (call: TrainingCall)
        ensures
            final(self)@ == old(self)@,
            call == (TrainingCall::LazyResetGrad { session: old(self)@ }),
    {
        TrainingCall::LazyResetGrad { session: self.session.addr() }
    }

    /// Asks for the learning rate.
    pub fn lr(&self) -> (call: TrainingCall)
        ensures
            call == (TrainingCall::GetLearningRate { session: self@ }),
    {
        TrainingCall::GetLearningRate { session: self.session.addr() }
    }

    /// Sets the learning rate, given by the bits of a single-precision
    /// number.
    pub fn set_lr(&mut self, lr: u32) -> (call: TrainingCall)
        ensures
            final(self)@ == old(self)@,
            call == (TrainingCall::SetLearningRate { session: old(self)@, learning_rate: lr }),
    {
        TrainingCall::SetLearningRate { session: self.session.addr(), learning_rate: lr }
    }

    /// Installs a schedule for the learning rate. `step_scheduler` advances
    /// it from then on.
    pub fn register_scheduler(&mut self, scheduler: LearningRateScheduler) -> (call: TrainingCall)
        ensures
            final(self)@ == old(self)@,
            scheduler matches LearningRateScheduler::Linear {
                warmup_step_count,
                total_step_count,
                initial_lr,
            } && call == (TrainingCall::RegisterLinearLRScheduler {
                session: old(self)@,
                warmup_step_count,
                total_step_count,
                initial_lr,
            }),
    {
        match scheduler {
            LearningRateScheduler::Linear { warmup_step_count, total_step_count, initial_lr } => {
                TrainingCall::RegisterLinearLRScheduler {
                    session: self.session.addr(),
                    warmup_step_count,
                    total_step_count,
                    initial_lr,
                }
            },
        }
    }

    /// Applies one update with the gradients that have gathered.
    pub fn step(&mut self) -> (call: TrainingCall)
        ensures
            final(self)@ == old(self)@,
            call == (TrainingCall::OptimizerStep { session: old(self)@, run_options: None }),
    {
        TrainingCall::OptimizerStep { session: self.session.addr(), run_options: None }
    }

    /// Applies one update under the given run options.
    pub fn step_with_options(&mut self, options: &Handle) -> (call: TrainingCall)
        ensures
            final(self)@ == old(self)@,
            call == (TrainingCall::OptimizerStep {
                session: old(self)@,
                run_options: Some(options@),
            }),
    {
        TrainingCall::OptimizerStep {
            session: self.session.addr(),
            run_options: Some(options.addr()),
        }
    }

    /// Advances the schedule of the learning rate by one step.
    pub fn step_scheduler(&mut self) -> (call: TrainingCall)
        ensures
            final(self)@ == old(self)@,
            call == (TrainingCall::SchedulerStep { session: old(self)@ }),
    {
        TrainingCall::SchedulerStep { session: self.session.addr() }
    }
}

/// The learning rate that the engine wrote, as bits, where the call that
/// asked for it succeeded.
pub fn learning_rate(status: Status, written: u32) -> (r: Result<u32, Error>)
    ensures
        match r {
            Ok(bits) => status is Success && bits == written,
            Err(e) => status matches Status::Failure { code, message } && e == (Error::Native {
                code,
                message,
            }),
        },
{
    match status {
        Status::Success => Ok(written),
        Status::Failure { code, message } => Err(Error::Native { code, message }),
    }
}

} // verus!
