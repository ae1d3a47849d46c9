//! Tensors: values whose declared type is a tensor, owned or borrowed.
//!
//! A tensor is seen either without an element type, as the engine hands it
//! out, or with one. Passing from the first to the second changes nothing
//! in the value and is not checked against the declared kind: whoever does
//! it knows the kind from the context.

use crate::memory::{Handle, MemoryInfo};
use crate::value::{Value, ValueModel, ValueType};
use vstd::prelude::*;

verus! {

/// A tensor whose element kind is known from its declared type alone.
#[derive(Debug)]
#[verifier::reject_recursive_types(T)]
pub struct DynTensor<T> {
    value: Value<T>,
}

impl<T> View for DynTensor<T> {
    type V = ValueModel<T>;

    closed spec fn view(&self) -> ValueModel<T> {
        self.value@
    }
}

/// A tensor that is used as one of elements of type `T`.
#[derive(Debug)]
#[verifier::reject_recursive_types(T)]
pub struct Tensor<T> {
    value: Value<T>,
}

impl<T> View for Tensor<T> {
    type V = ValueModel<T>;

    closed spec fn view(&self) -> ValueModel<T> {
        self.value@
    }
}

impl<T> DynTensor<T> {
    pub fn from_value(value: Value<T>) -> (t: DynTensor<T>)
        ensures
            t@ == value@,
    {
        DynTensor { value }
    }

    /// Takes over a tensor that the engine allocated and handed out. The
    /// tensor owns the native object and retains no buffer.
    pub fn from_ptr(handle: Handle, dtype: ValueType, memory_info: Option<MemoryInfo>) -> (t:
        DynTensor<T>)
        ensures
            t@ == (ValueModel::<T> {
                handle: handle@,
                dtype,
                memory_info,
                owns_native_resource: true,
                retained_backing: None,
            }),
    {
        DynTensor { value: Value::new(handle, dtype, memory_info, true, None) }
    }

    pub fn value(&self) -> (v: &Value<T>)
        ensures
            v@ == self@,
    {
        &self.value
    }

    pub fn into_value(self) -> (v: Value<T>)
        ensures
            v@ == self@,
    {
        self.value
    }

    /// The same tensor, used as one of elements of type `T`. Nothing is
    /// copied and nothing is checked: that the declared kind is the kind of
    /// `T` is for the caller to know.
    pub fn transmute_type(self) -> (t: Tensor<T>)
        ensures
            t@ == self@,
    {
        Tensor { value: self.value }
    }
}

impl<T> Tensor<T> {
    pub fn value(&self) -> (v: &Value<T>)
        ensures
            v@ == self@,
    {
        &self.value
    }

    pub fn into_value(self) -> (v: Value<T>)
        ensures
            v@ == self@,
    {
        self.value
    }

    /// The same tensor without its element type.
    pub fn into_dyn(self) -> (t: DynTensor<T>)
        ensures
            t@ == self@,
    {
        DynTensor { value: self.value }
    }
}

/// What is known of a borrowed tensor: the value, whether it may be made an
/// owned one, and the caller's elements that the engine was pointed at.
#[verifier::reject_recursive_types(T)]
pub struct TensorRefModel<T> {
    pub value: ValueModel<T>,
    pub upgradable: bool,
    pub data: Option<Seq<T>>,
}

/// A tensor over elements that the caller lends for `'a`. The engine reads
/// them where they are.
#[derive(Debug)]
#[verifier::reject_recursive_types(T)]
pub struct TensorRef<'a, T> {
    tensor: Tensor<T>,
    upgradable: bool,
    data: &'a [T],
}

impl<'a, T> View for TensorRef<'a, T> {
    type V = TensorRefModel<T>;

    closed spec fn view(&self) -> TensorRefModel<T> {
        TensorRefModel { value: self.tensor@, upgradable: self.upgradable, data: Some(self.data@) }
    }
}

impl<'a, T> TensorRef<'a, T> {
    /// A view of `tensor` over `data`. It may be made an owned tensor until
    /// that is switched off.
    pub fn new(tensor: Tensor<T>, data: &'a [T]) -> (r: TensorRef<'a, T>)
        ensures
            r@ == (TensorRefModel { value: tensor@, upgradable: true, data: Some(data@) }),
    {
        TensorRef { tensor, upgradable: true, data }
    }

    /// The same view, fixed as a view: it is never made an owned tensor.
    pub fn not_upgradable(self) -> (r: TensorRef<'a, T>)
        ensures
            r@ == (TensorRefModel { upgradable: false, ..self@ }),
    {
        TensorRef { tensor: self.tensor, upgradable: false, data: self.data }
    }

    pub fn tensor(&self) -> (t: &Tensor<T>)
        ensures
            t@ == self@.value,
    {
        &self.tensor
    }

    pub fn upgradable(&self) -> (b: bool)
        ensures
            b == self@.upgradable,
    {
        self.upgradable
    }

    /// The elements that the tensor stands on: the caller's own, not a copy.
    pub fn data(&self) -> (d: &'a [T])
        ensures
            Some(d@) == self@.data,
    {
        self.data
    }
}

/// A tensor over elements that the caller lends exclusively for `'a`, or
/// over memory that the caller answers for. What the engine writes lands in
/// the caller's buffer. Such a view is never made an owned tensor: it has no
/// flag that could say otherwise.
#[derive(Debug)]
#[verifier::reject_recursive_types(T)]
pub struct TensorRefMut<'a, T> {
    pub tensor: Tensor<T>,
    /// The caller's elements, which the engine reads and writes; none for
    /// memory that the caller answers for.
    pub data: Option<&'a mut [T]>,
}

impl<'a, T> View for TensorRefMut<'a, T> {
    type V = TensorRefModel<T>;

    open spec fn view(&self) -> TensorRefModel<T> {
        TensorRefModel {
            value: self.tensor@,
            upgradable: false,
            data: match self.data {
                Some(d) => Some(d@),
                None => None,
            },
        }
    }
}

impl<'a, T> TensorRefMut<'a, T> {
    pub fn new(tensor: Tensor<T>, data: Option<&'a mut [T]>) -> (r: TensorRefMut<'a, T>)
        ensures
            r == (TensorRefMut { tensor, data }),
    {
        TensorRefMut { tensor, data }
    }

    pub fn tensor(&self) -> (t: &Tensor<T>)
        ensures
            t@ == self@.value,
    {
        &self.tensor
    }

    /// Whether the view may be made an owned tensor: never.
    pub fn upgradable(&self) -> (b: bool)
        ensures
            !b,
    {
        false
    }

    /// The elements that the tensor stands on, to read and to write: the
    /// caller's own, not a copy. There are none to see for memory that the
    /// caller answers for.
    pub fn data_mut(&mut self) -> (d: Option<&mut [T]>)
        ensures
            final(self)@.value == old(self)@.value,
            match d {
                Some(elements) => old(self)@.data == Some(elements@) && final(self)@.data == Some(
                    final(elements)@,
                ),
                None => old(self)@.data is None && final(self)@.data is None,
            },
    {
        match &mut self.data {
            Some(elements) => Some(&mut **elements),
            None => None,
        }
    }

    /// Ends the view and gives the caller's buffer back, with whatever was
    /// written to it.
    pub fn into_parts(self) -> (r: (Tensor<T>, Option<&'a mut [T]>))
        ensures
            r.0 == self.tensor,
            r.1 == self.data,
    {
        (self.tensor, self.data)
    }
}

} // verus!
