//! The value model: what this library knows of one live native value.

use crate::array::{OwnedArray, SharedArray};
use crate::memory::{Handle, MemoryInfo};
use std::sync::Arc;
use vstd::prelude::*;

verus! {

/// The kinds of element that a tensor can hold.
#[derive(Debug, Clone, Copy, PartialEq, Eq, Structural)]
pub enum TensorElementType {
    Float32,
    Uint8,
    Int8,
    Uint16,
    Int16,
    Int32,
    Int64,
    String,
    Bool,
    Float16,
    Float64,
    Uint32,
    Uint64,
    Bfloat16,
}

/// The type that a value was declared with.
#[derive(Debug, Clone, PartialEq, Eq)]
pub enum ValueType {
    Tensor { ty: TensorElementType, dimensions: Vec<i64>, dimension_symbols: Vec<String> },
}

impl ValueType {
    /// The type of a tensor of kind `ty` and of the given shape, none of
    /// whose dimensions has a name.
    pub open spec fn is_tensor_of(self, ty: TensorElementType, shape: Seq<i64>) -> bool {
        &&& self matches ValueType::Tensor { ty: kind, dimensions, dimension_symbols }
        &&& kind == ty
        &&& dimensions@ == shape
        &&& dimension_symbols@.len() == shape.len()
        &&& forall|i: int|
            0 <= i < dimension_symbols@.len() ==> (#[trigger] dimension_symbols@[i])@
                == Seq::<char>::empty()
    }

    pub fn tensor(ty: TensorElementType, dimensions: Vec<i64>) -> (t: ValueType)
        ensures
            t.is_tensor_of(ty, dimensions@),
    {
        let mut dimension_symbols: Vec<String> = Vec::new();
        let mut i: usize = 0;
        while i < dimensions.len()
            invariant
                i <= dimensions@.len(),
                dimension_symbols@.len() == i,
                forall|j: int|
                    0 <= j < i ==> (#[trigger] dimension_symbols@[j])@ == Seq::<char>::empty(),
            decreases dimensions@.len() - i,
        {
            dimension_symbols.push(String::new());
            i += 1;
        }
        ValueType::Tensor { ty, dimensions, dimension_symbols }
    }
}

/// A buffer of the caller's that a value keeps alive, because the engine
/// reads and writes the tensor's data in it.
///
/// Each variant keeps its elements on the heap, so that their address stays
/// the same when the value that holds the buffer is moved.
#[derive(Debug)]
#[verifier::reject_recursive_types(T)]
pub enum Backing<T> {
    Vector(Vec<T>),
    Boxed(Box<[T]>),
    Shared(Arc<[T]>),
    SharedBoxed(Arc<Box<[T]>>),
    Array(OwnedArray<T>),
    SharedArray(SharedArray<T>),
}

impl<T> Backing<T> {
    /// The elements of a buffer that this library can read. An array is read
    /// through the array itself.
    pub open spec fn elements(self) -> Option<Seq<T>> {
        match self {
            Backing::Vector(v) => Some(v@),
            Backing::Boxed(b) => Some(b@),
            Backing::Shared(a) => Some((*a)@),
            Backing::SharedBoxed(a) => Some(a@),
            Backing::Array(_) => None,
            Backing::SharedArray(_) => None,
        }
    }

    /// The elements as they lie in the buffer: what the engine reads, and
    /// what the caller gave.
    pub fn as_slice(&self) -> (s: Option<&[T]>)
        ensures
            match s {
                Some(data) => self.elements() == Some(data@),
                None => self.elements() is None,
            },
    {
        match self {
            Backing::Vector(v) => Some(v.as_slice()),
            Backing::Boxed(b) => Some(&**b),
            Backing::Shared(a) => Some(&**a),
            Backing::SharedBoxed(a) => Some(&***a),
            Backing::Array(_) => None,
            Backing::SharedArray(_) => None,
        }
    }
}

/// What this library knows of a native value.
#[verifier::reject_recursive_types(T)]
pub struct ValueModel<T> {
    /// The address of the native object.
    pub handle: usize,
    pub dtype: ValueType,
    /// Where the data lives, as far as it is known.
    pub memory_info: Option<MemoryInfo>,
    /// Whether the native object is to be released when the value goes.
    pub owns_native_resource: bool,
    pub retained_backing: Option<Backing<T>>,
}

/// One live native value: its handle, its declared type, where its data
/// lives, whether the handle is this value's to release, and the buffer that
/// it keeps alive. `T` is the element type of that buffer.
#[derive(Debug)]
#[verifier::reject_recursive_types(T)]
pub struct Value<T> {
    handle: Handle,
    dtype: ValueType,
    memory_info: Option<MemoryInfo>,
    owns_native_resource: bool,
    retained_backing: Option<Backing<T>>,
}

impl<T> View for Value<T> {
    type V = ValueModel<T>;

    closed spec fn view(&self) -> ValueModel<T> {
        ValueModel {
            handle: self.handle@,
            dtype: self.dtype,
            memory_info: self.memory_info,
            owns_native_resource: self.owns_native_resource,
            retained_backing: self.retained_backing,
        }
    }
}

/// What is left to do when a value goes: the handle to give back to the
/// engine, where the value owned it, and after that the buffer that may be
/// freed.
#[verifier::reject_recursive_types(T)]
pub struct Release<T> {
    pub handle: Option<Handle>,
    pub backing: Option<Backing<T>>,
}

impl<T> Value<T> {
    pub fn new(
        handle: Handle,
        dtype: ValueType,
        memory_info: Option<MemoryInfo>,
        owns_native_resource: bool,
        retained_backing: Option<Backing<T>>,
    ) -> (v: Value<T>)
        ensures
            v@ == (ValueModel {
                handle: handle@,
                dtype,
                memory_info,
                owns_native_resource,
                retained_backing,
            }),
    {
        Value { handle, dtype, memory_info, owns_native_resource, retained_backing }
    }

    pub fn handle(&self) -> (h: &Handle)
        ensures
            h@ == self@.handle,
    {
        &self.handle
    }

    pub fn dtype(&self) -> (t: &ValueType)
        ensures
            *t == self@.dtype,
    {
        &self.dtype
    }

    pub fn memory_info(&self) -> (m: Option<MemoryInfo>)
        ensures
            m == self@.memory_info,
    {
        self.memory_info
    }

    pub fn owns_native_resource(&self) -> (b: bool)
        ensures
            b == self@.owns_native_resource,
    {
        self.owns_native_resource
    }

    pub fn retained_backing(&self) -> (b: &Option<Backing<T>>)
        ensures
            *b == self@.retained_backing,
    {
        &self.retained_backing
    }

    /// Ends the value. The handle comes back exactly where the value owned
    /// the native object, and the buffer with it, to be freed after the
    /// handle has been released.
    pub fn release(self) -> (r: Release<T>)
        ensures
            r.handle is Some <==> self@.owns_native_resource,
            r.handle matches Some(h) ==> h@ == self@.handle,
            r.backing == self@.retained_backing,
    {
        if self.owns_native_resource {
            Release { handle: Some(self.handle), backing: self.retained_backing }
        } else {
            Release { handle: None, backing: self.retained_backing }
        }
    }
}

} // verus!
