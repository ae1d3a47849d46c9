//! Making tensors from the caller's data.
//!
//! A tensor over caller memory is made in two steps. The first checks the
//! shape against the data, works out the arguments of the engine's entry
//! point, and takes charge of the buffer that has to stay alive. The caller
//! then makes the call. The second step takes what the engine answered and
//! gives the tensor, or the error.

use crate::error::{Error, NativeObject};
use crate::memory::{Allocator, Handle, MemoryInfo};
use crate::native::{check_handle, handle_outcome, Reply, Status};
use crate::shape::{
    all_valid, as_ints, element_count, element_count_spec, shape_product, validated, ToDimensions,
};
use crate::strings::{first_nul_at, has_nul, NativeString, Utf8Data};
use crate::tensor::{DynTensor, Tensor, TensorRef, TensorRefModel, TensorRefMut};
use crate::value::{Backing, TensorElementType, Value, ValueModel, ValueType};
use std::sync::Arc;
use vstd::prelude::*;

verus! {

/// The dimensions as the engine takes them.
pub open spec fn as_shape(dims: Seq<int>) -> Seq<i64> {
    dims.map_values(|d: int| d as i64)
}

/// Whether `dims` is accepted as the shape of data of `len` elements.
pub open spec fn fits(dims: Seq<int>, len: nat) -> bool {
    all_valid(dims) && shape_product(dims) == len
}

/// Validation returns an accepted shape as it was given.
pub proof fn lemma_validated_shape(dims: Seq<int>, len: usize, r: Result<Vec<i64>, Error>)
    requires
        validated(dims, Some(len), r),
    ensures
        r is Ok <==> fits(dims, len as nat),
        r matches Ok(shape) ==> shape@ == as_shape(dims) && element_count_spec(shape@) == len,
{
    match r {
        Ok(shape) => {
            assert(shape@ =~= as_shape(dims)) by {
                assert forall|i: int| 0 <= i < shape@.len() implies shape@[i] == as_shape(
                    dims,
                )[i] by {
                    assert(as_ints(shape@)[i] == dims[i]);
                }
            }
            assert(forall|i: int| 0 <= i < shape@.len() ==> as_ints(shape@)[i] == shape@[i]);
            assert(!exists|i: int| 0 <= i < shape@.len() && shape@[i] < 0) by {
                assert forall|i: int| 0 <= i < shape@.len() implies !(shape@[i] < 0) by {
                    assert(crate::shape::valid_dimension(dims[i]));
                    assert(as_ints(shape@)[i] == dims[i]);
                }
            }
        },
        Err(_) => {},
    }
}

/// What data that is lent comes to: its shape and its elements in standard
/// order.
pub struct Lent<I> {
    pub shape: Seq<i64>,
    pub data: Seq<I>,
}

/// Data that can be lent to a tensor: the engine reads it where it lies.
pub trait TensorArrayData<I> {
    /// The shape and the elements that are lent, and nothing where the data
    /// is refused.
    spec fn lent(&self) -> Option<Lent<I>>;

    /// Whether `guard` is what the tensor has to keep alive.
    spec fn keeps(&self, guard: Option<Backing<I>>) -> bool;

    /// Whether `e` is the error with which the data is refused.
    spec fn refused_with(&self, e: Error) -> bool;

    fn ref_parts(&self) -> (r: Result<(Vec<i64>, &[I], Option<Backing<I>>), Error>)
        ensures
            match r {
                Ok((shape, data, guard)) => self.lent() == Some(
                    Lent { shape: shape@, data: data@ },
                ) && self.keeps(guard),
                Err(e) => self.lent() is None && self.refused_with(e),
            },
    ;
}

/// Data that can be lent to a tensor exclusively: the engine reads and
/// writes it where it lies.
pub trait TensorArrayDataMut<I>: TensorArrayData<I> + Sized {
    /// The parts of the data as it is now. What is written to the elements
    /// is written to the data itself: in the end the data holds what the
    /// elements hold, as many as before and in the same shape. Data that is
    /// refused is left as it is.
    fn ref_parts_mut(&mut self) -> (r: Result<(Vec<i64>, &mut [I], Option<Backing<I>>), Error>)
        ensures
            match r {
                Ok((shape, data, guard)) => {
                    &&& old(self).lent() == Some(Lent { shape: shape@, data: data@ })
                    &&& old(self).keeps(guard)
                    &&& final(data)@.len() == data@.len() ==> final(self).lent() == Some(
                        Lent { shape: shape@, data: final(data)@ },
                    )
                },
                Err(e) => {
                    &&& old(self).lent() is None
                    &&& old(self).refused_with(e)
                    &&& *final(self) == *old(self)
                },
            },
    ;
}

/// What data that is given up comes to: its shape and the number of its
/// elements.
pub struct Given {
    pub shape: Seq<i64>,
    pub num_elements: nat,
}

/// Data that can be given to a tensor, which then keeps it.
pub trait OwnedTensorArrayData<I>: Sized {
    /// The shape and the number of elements that are given, and nothing
    /// where the data is refused.
    spec fn given(self) -> Option<Given>;

    /// Whether `guard` is what the tensor has to keep alive.
    spec fn gives(self, guard: Option<Backing<I>>) -> bool;

    /// Whether `e` is the error with which the data is refused.
    spec fn refused_with(self, e: Error) -> bool;

    fn into_parts(self) -> (r: Result<TensorArrayDataParts<I>, Error>)
        ensures
            match r {
                Ok(parts) => self.given() == Some(
                    Given { shape: parts.shape@, num_elements: parts.num_elements as nat },
                ) && self.gives(parts.guard),
                Err(e) => self.given() is None && self.refused_with(e),
            },
    ;
}

/// The parts of data that was given up: the shape, the number of elements,
/// and the buffer that holds them.
#[derive(Debug)]
#[verifier::reject_recursive_types(I)]
pub struct TensorArrayDataParts<I> {
    pub shape: Vec<i64>,
    pub num_elements: usize,
    pub guard: Option<Backing<I>>,
}

impl<'a, T, D: ToDimensions> TensorArrayData<T> for (D, &'a [T]) {
    open spec fn lent(&self) -> Option<Lent<T>> {
        if fits(self.0.dimensions(), self.1@.len()) {
            Some(Lent { shape: as_shape(self.0.dimensions()), data: self.1@ })
        } else {
            None
        }
    }

    open spec fn keeps(&self, guard: Option<Backing<T>>) -> bool {
        guard is None
    }

    open spec fn refused_with(&self, e: Error) -> bool {
        validated(self.0.dimensions(), Some(self.1@.len() as usize), Err(e))
    }

    fn ref_parts(&self) -> (r: Result<(Vec<i64>, &[T], Option<Backing<T>>), Error>) {
        let r = self.0.to_dimensions(Some(self.1.len()));
        proof {
            lemma_validated_shape(self.0.dimensions(), self.1@.len() as usize, r);
        }
        match r {
            Ok(shape) => Ok((shape, self.1, None)),
            Err(e) => Err(e),
        }
    }
}

impl<'a, T, D: ToDimensions> TensorArrayData<T> for (D, &'a mut [T]) {
    open spec fn lent(&self) -> Option<Lent<T>> {
        if fits(self.0.dimensions(), self.1@.len()) {
            Some(Lent { shape: as_shape(self.0.dimensions()), data: self.1@ })
        } else {
            None
        }
    }

    open spec fn keeps(&self, guard: Option<Backing<T>>) -> bool {
        guard is None
    }

    open spec fn refused_with(&self, e: Error) -> bool {
        validated(self.0.dimensions(), Some(self.1@.len() as usize), Err(e))
    }

    fn ref_parts(&self) -> (r: Result<(Vec<i64>, &[T], Option<Backing<T>>), Error>) {
        let r = self.0.to_dimensions(Some(self.1.len()));
        proof {
            lemma_validated_shape(self.0.dimensions(), self.1@.len() as usize, r);
        }
        match r {
            Ok(shape) => Ok((shape, &*self.1, None)),
            Err(e) => Err(e),
        }
    }
}

impl<'a, T, D: ToDimensions> TensorArrayDataMut<T> for (D, &'a mut [T]) {
    fn ref_parts_mut(&mut self) -> (r: Result<(Vec<i64>, &mut [T], Option<Backing<T>>), Error>) {
        let r = self.0.to_dimensions(Some(self.1.len()));
        proof {
            lemma_validated_shape(self.0.dimensions(), self.1@.len() as usize, r);
        }
        match r {
            Ok(shape) => Ok((shape, &mut *self.1, None)),
            Err(e) => Err(e),
        }
    }
}

impl<T, D: ToDimensions> OwnedTensorArrayData<T> for (D, Vec<T>) {
    open spec fn given(self) -> Option<Given> {
        if fits(self.0.dimensions(), self.1@.len()) {
            Some(Given { shape: as_shape(self.0.dimensions()), num_elements: self.1@.len() })
        } else {
            None
        }
    }

    open spec fn gives(self, guard: Option<Backing<T>>) -> bool {
        guard == Some(Backing::Vector(self.1))
    }

    open spec fn refused_with(self, e: Error) -> bool {
        validated(self.0.dimensions(), Some(self.1@.len() as usize), Err(e))
    }

    fn into_parts(self) -> (r: Result<TensorArrayDataParts<T>, Error>) {
        let r = self.0.to_dimensions(Some(self.1.len()));
        proof {
            lemma_validated_shape(self.0.dimensions(), self.1@.len() as usize, r);
        }
        match r {
            Ok(shape) => {
                let num_elements = self.1.len();
                Ok(TensorArrayDataParts { shape, num_elements, guard: Some(Backing::Vector(self.1)) })
            },
            Err(e) => Err(e),
        }
    }
}

impl<T, D: ToDimensions> OwnedTensorArrayData<T> for (D, Box<[T]>) {
    open spec fn given(self) -> Option<Given> {
        if fits(self.0.dimensions(), self.1@.len()) {
            Some(Given { shape: as_shape(self.0.dimensions()), num_elements: self.1@.len() })
        } else {
            None
        }
    }

    open spec fn gives(self, guard: Option<Backing<T>>) -> bool {
        guard == Some(Backing::Boxed(self.1))
    }

    open spec fn refused_with(self, e: Error) -> bool {
        validated(self.0.dimensions(), Some(self.1@.len() as usize), Err(e))
    }

    fn into_parts(self) -> (r: Result<TensorArrayDataParts<T>, Error>) {
        let r = self.0.to_dimensions(Some(self.1.len()));
        proof {
            lemma_validated_shape(self.0.dimensions(), self.1@.len() as usize, r);
        }
        match r {
            Ok(shape) => {
                let num_elements = self.1.len();
                Ok(TensorArrayDataParts { shape, num_elements, guard: Some(Backing::Boxed(self.1)) })
            },
            Err(e) => Err(e),
        }
    }
}

impl<T, D: ToDimensions> TensorArrayData<T> for (D, Arc<[T]>) {
    open spec fn lent(&self) -> Option<Lent<T>> {
        if fits(self.0.dimensions(), (*self.1)@.len()) {
            Some(Lent { shape: as_shape(self.0.dimensions()), data: (*self.1)@ })
        } else {
            None
        }
    }

    open spec fn keeps(&self, guard: Option<Backing<T>>) -> bool {
        guard == Some(Backing::Shared(self.1))
    }

    open spec fn refused_with(&self, e: Error) -> bool {
        validated(self.0.dimensions(), Some((*self.1)@.len() as usize), Err(e))
    }

    fn ref_parts(&self) -> (r: Result<(Vec<i64>, &[T], Option<Backing<T>>), Error>) {
        let data: &[T] = &*self.1;
        let r = self.0.to_dimensions(Some(data.len()));
        proof {
            lemma_validated_shape(self.0.dimensions(), data@.len() as usize, r);
        }
        match r {
            Ok(shape) => Ok((shape, data, Some(Backing::Shared(Arc::clone(&self.1))))),
            Err(e) => Err(e),
        }
    }
}

impl<T, D: ToDimensions> TensorArrayData<T> for (D, Arc<Box<[T]>>) {
    open spec fn lent(&self) -> Option<Lent<T>> {
        if fits(self.0.dimensions(), self.1@.len()) {
            Some(Lent { shape: as_shape(self.0.dimensions()), data: self.1@ })
        } else {
            None
        }
    }

    open spec fn keeps(&self, guard: Option<Backing<T>>) -> bool {
        guard == Some(Backing::SharedBoxed(self.1))
    }

    open spec fn refused_with(&self, e: Error) -> bool {
        validated(self.0.dimensions(), Some(self.1@.len() as usize), Err(e))
    }

    fn ref_parts(&self) -> (r: Result<(Vec<i64>, &[T], Option<Backing<T>>), Error>) {
        let data: &[T] = &**self.1;
        let r = self.0.to_dimensions(Some(data.len()));
        proof {
            lemma_validated_shape(self.0.dimensions(), data@.len() as usize, r);
        }
        match r {
            Ok(shape) => Ok((shape, data, Some(Backing::SharedBoxed(Arc::clone(&self.1))))),
            Err(e) => Err(e),
        }
    }
}

/// What a tensor over caller memory is going to be made with: the arguments
/// of the entry point that creates a tensor with data, and the buffer that
/// the tensor retains.
#[verifier::reject_recursive_types(T)]
pub struct PendingModel<T> {
    pub memory_info: MemoryInfo,
    /// The length of the data in bytes.
    pub byte_len: usize,
    pub shape: Seq<i64>,
    pub element_type: TensorElementType,
    pub guard: Option<Backing<T>>,
}

/// A tensor over caller memory that is ready to be created.
#[derive(Debug)]
#[verifier::reject_recursive_types(T)]
pub struct PendingTensor<T> {
    memory_info: MemoryInfo,
    byte_len: usize,
    shape: Vec<i64>,
    element_type: TensorElementType,
    guard: Option<Backing<T>>,
}

impl<T> View for PendingTensor<T> {
    type V = PendingModel<T>;

    closed spec fn view(&self) -> PendingModel<T> {
        PendingModel {
            memory_info: self.memory_info,
            byte_len: self.byte_len,
            shape: self.shape@,
            element_type: self.element_type,
            guard: self.guard,
        }
    }
}

/// What the engine's answer makes of a pending tensor: the value, which owns
/// the native object and retains the buffer, or the error.
pub open spec fn made<T>(p: PendingModel<T>, reply: Reply, r: Result<ValueModel<T>, Error>)
    -> bool {
    match r {
        Ok(v) => {
            &&& reply.status is Success
            &&& reply.out != 0
            &&& v.handle == reply.out
            &&& v.dtype.is_tensor_of(p.element_type, p.shape)
            &&& v.memory_info == Some(p.memory_info)
            &&& v.owns_native_resource
            &&& v.retained_backing == p.guard
        },
        Err(e) => handle_outcome(reply, NativeObject::Value, Err(e)),
    }
}

/// Prepares a tensor of `num_elements` elements of `element_size` bytes each
/// in memory described by `memory_info`. The only thing that can fail here
/// is the length in bytes, where `usize` does not hold it.
pub fn tensor_from_array<T>(
    memory_info: MemoryInfo,
    shape: Vec<i64>,
    num_elements: usize,
    element_size: usize,
    element_type: TensorElementType,
    guard: Option<Backing<T>>,
) -> (r: Result<PendingTensor<T>, Error>)
    ensures
        match r {
            Ok(p) => num_elements * element_size <= usize::MAX && p@ == (PendingModel {
                memory_info,
                byte_len: (num_elements * element_size) as usize,
                shape: shape@,
                element_type,
                guard,
            }),
            Err(e) => e == Error::SizeOverflow && num_elements * element_size > usize::MAX,
        },
{
    match num_elements.checked_mul(element_size) {
        Some(byte_len) => Ok(PendingTensor { memory_info, byte_len, shape, element_type, guard }),
        None => Err(Error::SizeOverflow),
    }
}

impl<T> PendingTensor<T> {
    pub fn memory_info(&self) -> (m: MemoryInfo)
        ensures
            m == self@.memory_info,
    {
        self.memory_info
    }

    pub fn byte_len(&self) -> (n: usize)
        ensures
            n == self@.byte_len,
    {
        self.byte_len
    }

    pub fn shape(&self) -> (s: &[i64])
        ensures
            s@ == self@.shape,
    {
        self.shape.as_slice()
    }

    pub fn element_type(&self) -> (t: TensorElementType)
        ensures
            t == self@.element_type,
    {
        self.element_type
    }

    pub fn guard(&self) -> (g: &Option<Backing<T>>)
        ensures
            *g == self@.guard,
    {
        &self.guard
    }

    /// The tensor that the engine created, from its answer. A failure status
    /// is the error, code and message as they came; a null out-pointer
    /// after success is an error too. The buffer goes with the tensor, or is
    /// dropped with the error.
    pub fn complete(self, reply: Reply) -> (r: Result<DynTensor<T>, Error>)
        ensures
            made(
                self@,
                reply,
                match r {
                    Ok(t) => Ok(t@),
                    Err(e) => Err(e),
                },
            ),
    {
        match check_handle(reply, NativeObject::Value) {
            Ok(handle) => {
                let dtype = ValueType::tensor(self.element_type, self.shape);
                Ok(
                    DynTensor::from_value(
                        Value::new(handle, dtype, Some(self.memory_info), true, self.guard),
                    ),
                )
            },
            Err(e) => Err(e),
        }
    }

    /// As `complete`, for a tensor that is used with its element type.
    pub fn into_tensor(self, reply: Reply) -> (r: Result<Tensor<T>, Error>)
        ensures
            made(
                self@,
                reply,
                match r {
                    Ok(t) => Ok(t@),
                    Err(e) => Err(e),
                },
            ),
    {
        match self.complete(reply) {
            Ok(tensor) => Ok(tensor.transmute_type()),
            Err(e) => Err(e),
        }
    }
}

/// What `from_array` makes of data that was given up, for elements of
/// `size` bytes.
pub open spec fn prepared_owned<T>(
    given: Option<Given>,
    size: nat,
    element_type: TensorElementType,
    r: Result<PendingModel<T>, Error>,
) -> bool {
    match r {
        Ok(p) => {
            &&& given matches Some(g)
            &&& g.num_elements * size <= usize::MAX
            &&& p.memory_info == MemoryInfo::host()
            &&& p.byte_len == g.num_elements * size
            &&& p.shape == g.shape
            &&& p.element_type == element_type
        },
        Err(e) => given matches Some(g) ==> e == Error::SizeOverflow && g.num_elements * size
            > usize::MAX,
    }
}

impl<T> Tensor<T> {
    /// Prepares an owned tensor of kind `element_type` from data that the
    /// caller gives up. The tensor will stand on the caller's buffer, which
    /// it keeps; nothing is copied, but for an array that is not in standard
    /// layout.
    pub fn from_array<A: OwnedTensorArrayData<T>>(input: A, element_type: TensorElementType) -> (r:
        Result<PendingTensor<T>, Error>)
        ensures
            prepared_owned(
                input.given(),
                vstd::layout::size_of::<T>(),
                element_type,
                match r {
                    Ok(p) => Ok(p@),
                    Err(e) => Err(e),
                },
            ),
            r matches Ok(p) ==> input.gives(p@.guard),
            r matches Err(e) ==> input.given() is None ==> input.refused_with(e),
    {
        match input.into_parts() {
            Ok(parts) => tensor_from_array(
                MemoryInfo::default(),
                parts.shape,
                parts.num_elements,
                core::mem::size_of::<T>(),
                element_type,
                parts.guard,
            ),
            Err(e) => Err(e),
        }
    }
}

/// A pending tensor over elements that are lent.
#[verifier::reject_recursive_types(T)]
pub struct PendingViewModel<T> {
    pub pending: PendingModel<T>,
    /// The caller's elements, where this library can see them.
    pub data: Option<Seq<T>>,
}

/// A tensor over lent elements that is ready to be created.
#[derive(Debug)]
#[verifier::reject_recursive_types(T)]
pub struct PendingTensorRef<'a, T> {
    pending: PendingTensor<T>,
    data: &'a [T],
}

impl<'a, T> View for PendingTensorRef<'a, T> {
    type V = PendingViewModel<T>;

    closed spec fn view(&self) -> PendingViewModel<T> {
        PendingViewModel { pending: self.pending@, data: Some(self.data@) }
    }
}

/// A tensor over exclusively lent elements, or over memory that the caller
/// answers for, that is ready to be created.
#[derive(Debug)]
#[verifier::reject_recursive_types(T)]
pub struct PendingTensorRefMut<'a, T> {
    pub pending: PendingTensor<T>,
    /// The caller's elements, which the engine is to read and write; none
    /// for memory that the caller answers for.
    pub data: Option<&'a mut [T]>,
}

impl<'a, T> View for PendingTensorRefMut<'a, T> {
    type V = PendingViewModel<T>;

    open spec fn view(&self) -> PendingViewModel<T> {
        PendingViewModel {
            pending: self.pending@,
            data: match self.data {
                Some(d) => Some(d@),
                None => None,
            },
        }
    }
}

/// What the engine's answer makes of a pending view: a tensor that is never
/// made an owned one, over the same elements; or the error.
pub open spec fn made_view<T>(
    p: PendingViewModel<T>,
    reply: Reply,
    r: Result<TensorRefModel<T>, Error>,
) -> bool {
    match r {
        Ok(view) => made(p.pending, reply, Ok(view.value)) && !view.upgradable && view.data
            == p.data,
        Err(e) => handle_outcome(reply, NativeObject::Value, Err(e)),
    }
}

impl<'a, T> PendingTensorRef<'a, T> {
    pub fn pending(&self) -> (p: &PendingTensor<T>)
        ensures
            p@ == self@.pending,
    {
        &self.pending
    }

    /// The elements that the engine is to be pointed at: the caller's own,
    /// not a copy.
    pub fn data(&self) -> (d: &'a [T])
        ensures
            Some(d@) == self@.data,
    {
        self.data
    }

    /// The view that the engine created, from its answer.
    pub fn into_view(self, reply: Reply) -> (r: Result<TensorRef<'a, T>, Error>)
        ensures
            made_view(
                self@,
                reply,
                match r {
                    Ok(view) => Ok(view@),
                    Err(e) => Err(e),
                },
            ),
    {
        match self.pending.into_tensor(reply) {
            Ok(tensor) => Ok(TensorRef::new(tensor, self.data).not_upgradable()),
            Err(e) => Err(e),
        }
    }
}

impl<'a, T> PendingTensorRefMut<'a, T> {
    pub fn pending(&self) -> (p: &PendingTensor<T>)
        ensures
            p@ == self@.pending,
    {
        &self.pending
    }

    /// The elements that the engine is to be pointed at: the caller's own,
    /// not a copy. There are none to see for memory that the caller answers
    /// for.
    pub fn data_mut(&mut self) -> (d: Option<&mut [T]>)
        ensures
            final(self)@.pending == old(self)@.pending,
            match d {
                Some(elements) => old(self)@.data == Some(elements@) && final(self)@.data == Some(
                    final(elements)@,
                ),
                None => old(self)@.data is None && final(self)@.data is None,
            },
    {
        match &mut self.data {
            Some(elements) => Some(&mut **elements),
            None => None,
        }
    }

    /// The view that the engine created, from its answer. The view stands
    /// on the same elements of the caller: what is written through it is
    /// written to them. Where the engine made no tensor, the elements are
    /// left as they are.
    pub fn into_view(self, reply: Reply) -> (r: Result<TensorRefMut<'a, T>, Error>)
        ensures
            made_view(
                self@,
                reply,
                match r {
                    Ok(view) => Ok(view@),
                    Err(e) => Err(e),
                },
            ),
            r matches Ok(view) ==> view.data == self.data,
            r is Err ==> (self.data matches Some(d) ==> final(d)@ == d@),
    {
        match self.pending.into_tensor(reply) {
            Ok(tensor) => Ok(TensorRefMut::new(tensor, self.data)),
            Err(e) => Err(e),
        }
    }
}

/// What a view is prepared as, for data that is lent and elements of `size`
/// bytes: the engine is pointed at host memory that holds the product of the
/// dimensions many elements.
pub open spec fn prepared_view<T>(
    lent: Option<Lent<T>>,
    size: nat,
    element_type: TensorElementType,
    r: Result<PendingViewModel<T>, Error>,
) -> bool {
    match r {
        Ok(p) => {
            &&& lent matches Some(l)
            &&& element_count_spec(l.shape) * size <= usize::MAX
            &&& p.pending.memory_info == MemoryInfo::host()
            &&& p.pending.byte_len == element_count_spec(l.shape) * size
            &&& p.pending.shape == l.shape
            &&& p.pending.element_type == element_type
            &&& p.data == Some(l.data)
        },
        Err(e) => lent matches Some(l) ==> e == Error::SizeOverflow && element_count_spec(l.shape)
            * size > usize::MAX,
    }
}

/// The number of elements to create a tensor of the given shape with, over
/// elements of `element_size` bytes: that which the shape holds, or none
/// where even the length in bytes is more than `usize` holds. Elements that
/// take no room are counted as none.
fn counted_elements(shape: &[i64], element_size: usize) -> (r: Option<usize>)
    ensures
        match r {
            Some(n) => n * element_size == element_count_spec(shape@) * element_size,
            None => element_count_spec(shape@) * element_size > usize::MAX,
        },
{
    match element_count(shape) {
        Some(n) => Some(n),
        None => {
            if element_size == 0 {
                Some(0)
            } else {
                assert(element_count_spec(shape@) * element_size >= element_count_spec(shape@))
                    by (nonlinear_arith)
                    requires
                        element_count_spec(shape@) > 0,
                        element_size >= 1,
                ;
                None
            }
        },
    }
}

impl<'a, T> TensorRef<'a, T> {
    /// Prepares a tensor of kind `element_type` over data that the caller
    /// lends. Nothing is copied: the engine will read the caller's elements
    /// where they lie, and the view cannot outlive them.
    pub fn from_array_view<A: TensorArrayData<T>>(input: &'a A, element_type: TensorElementType) -> (r:
        Result<PendingTensorRef<'a, T>, Error>)
        ensures
            prepared_view(
                input.lent(),
                vstd::layout::size_of::<T>(),
                element_type,
                match r {
                    Ok(p) => Ok(p@),
                    Err(e) => Err(e),
                },
            ),
            r matches Ok(p) ==> input.keeps(p@.pending.guard),
            r matches Err(e) ==> input.lent() is None ==> input.refused_with(e),
    {
        match input.ref_parts() {
            Ok((shape, data, guard)) => {
                let element_size = core::mem::size_of::<T>();
                let num_elements = match counted_elements(shape.as_slice(), element_size) {
                    Some(n) => n,
                    None => {
                        return Err(Error::SizeOverflow);
                    },
                };
                match tensor_from_array(
                    MemoryInfo::default(),
                    shape,
                    num_elements,
                    element_size,
                    element_type,
                    guard,
                ) {
                    Ok(pending) => Ok(PendingTensorRef { pending, data }),
                    Err(e) => Err(e),
                }
            },
            Err(e) => Err(e),
        }
    }
}

/// What a view over memory that the caller answers for is prepared as:
/// nothing of the data is seen here, so the shape alone says how long it is.
pub open spec fn prepared_raw<T>(
    info: MemoryInfo,
    shape: Seq<i64>,
    size: nat,
    element_type: TensorElementType,
    r: Result<PendingViewModel<T>, Error>,
) -> bool {
    match r {
        Ok(p) => element_count_spec(shape) * size <= usize::MAX && p == (PendingViewModel::<T> {
            pending: PendingModel {
                memory_info: info,
                byte_len: (element_count_spec(shape) * size) as usize,
                shape,
                element_type,
                guard: None,
            },
            data: None,
        }),
        Err(e) => e == Error::SizeOverflow && element_count_spec(shape) * size > usize::MAX,
    }
}

impl<'a, T> TensorRefMut<'a, T> {
    /// Prepares a tensor of kind `element_type` over data that the caller
    /// lends exclusively. Nothing is copied: the pending view holds the
    /// caller's own elements, so that what is written to them, by the engine
    /// or through the view, is what the caller's data holds in the end. Data
    /// of which no view is prepared is left as it is.
    pub fn from_array_view_mut<A: TensorArrayDataMut<T>>(
        input: &'a mut A,
        element_type: TensorElementType,
    ) -> (r: Result<PendingTensorRefMut<'a, T>, Error>)
        ensures
            prepared_view(
                old(input).lent(),
                vstd::layout::size_of::<T>(),
                element_type,
                match r {
                    Ok(p) => Ok(p@),
                    Err(e) => Err(e),
                },
            ),
            r matches Ok(p) ==> old(input).keeps(p@.pending.guard),
            r matches Err(e) ==> old(input).lent() is None ==> old(input).refused_with(e),
            r matches Ok(p) ==> (p.data matches Some(d) && (final(d)@.len() == d@.len()
                ==> final(input).lent() == Some(
                Lent { shape: p@.pending.shape, data: final(d)@ },
            ))),
            r is Err ==> final(input).lent() == old(input).lent(),
            r is Err && old(input).lent() is None ==> *final(input) == *old(input),
    {
        match input.ref_parts_mut() {
            Ok((shape, data, guard)) => {
                let element_size = core::mem::size_of::<T>();
                let num_elements = match counted_elements(shape.as_slice(), element_size) {
                    Some(n) => n,
                    None => {
                        return Err(Error::SizeOverflow);
                    },
                };
                match tensor_from_array(
                    MemoryInfo::default(),
                    shape,
                    num_elements,
                    element_size,
                    element_type,
                    guard,
                ) {
                    Ok(pending) => Ok(PendingTensorRefMut { pending, data: Some(data) }),
                    Err(e) => Err(e),
                }
            },
            Err(e) => Err(e),
        }
    }

    /// Prepares a tensor of kind `element_type` over memory that this
    /// library neither sees nor keeps: memory of the space that `info`
    /// describes, which holds the product of the dimensions many elements.
    /// That the memory is there, and stays for as long as the view, is the
    /// caller's to answer for.
    pub fn from_raw(info: MemoryInfo, shape: Vec<i64>, element_type: TensorElementType) -> (r:
        Result<PendingTensorRefMut<'a, T>, Error>)
        ensures
            prepared_raw(
                info,
                shape@,
                vstd::layout::size_of::<T>(),
                element_type,
                match r {
                    Ok(p) => Ok(p@),
                    Err(e) => Err(e),
                },
            ),
    {
        let element_size = core::mem::size_of::<T>();
        let num_elements = match counted_elements(shape.as_slice(), element_size) {
            Some(n) => n,
            None => {
                return Err(Error::SizeOverflow);
            },
        };
        match tensor_from_array(info, shape, num_elements, element_size, element_type, None) {
            Ok(pending) => Ok(PendingTensorRefMut { pending, data: None }),
            Err(e) => Err(e),
        }
    }
}

/// What a tensor that the engine allocates is going to be made with: the
/// arguments of the entry point that creates a tensor without data.
pub struct AllocationModel {
    /// The address of the allocator, or none for the engine's default one.
    pub allocator: Option<usize>,
    pub shape: Seq<i64>,
    pub element_type: TensorElementType,
}

/// A tensor in memory of the engine's that is ready to be created.
#[derive(Debug)]
pub struct PendingAllocation {
    allocator: Option<usize>,
    shape: Vec<i64>,
    element_type: TensorElementType,
}

impl View for PendingAllocation {
    type V = AllocationModel;

    closed spec fn view(&self) -> AllocationModel {
        AllocationModel {
            allocator: self.allocator,
            shape: self.shape@,
            element_type: self.element_type,
        }
    }
}

/// A tensor that the engine has allocated, of which this library does not
/// yet know where its data lives.
#[derive(Debug)]
pub struct Allocated {
    handle: Handle,
    shape: Vec<i64>,
    element_type: TensorElementType,
}

impl PendingAllocation {
    pub fn allocator(&self) -> (a: Option<usize>)
        ensures
            a == self@.allocator,
    {
        self.allocator
    }

    pub fn shape(&self) -> (s: &[i64])
        ensures
            s@ == self@.shape,
    {
        self.shape.as_slice()
    }

    pub fn element_type(&self) -> (t: TensorElementType)
        ensures
            t == self@.element_type,
    {
        self.element_type
    }

    /// The tensor that the engine allocated, from its answer.
    pub fn created(self, reply: Reply) -> (r: Result<Allocated, Error>)
        ensures
            match r {
                Ok(a) => reply.status is Success && reply.out != 0 && a.handle_spec()
                    == reply.out && a.shape_spec() == self@.shape && a.element_type_spec()
                    == self@.element_type,
                Err(e) => handle_outcome(reply, NativeObject::Value, Err(e)),
            },
    {
        match check_handle(reply, NativeObject::Value) {
            Ok(handle) => Ok(
                Allocated { handle, shape: self.shape, element_type: self.element_type },
            ),
            Err(e) => Err(e),
        }
    }
}

impl Allocated {
    pub closed spec fn handle_spec(self) -> usize {
        self.handle@
    }

    pub closed spec fn shape_spec(self) -> Seq<i64> {
        self.shape@
    }

    pub closed spec fn element_type_spec(self) -> TensorElementType {
        self.element_type
    }

    pub fn handle(&self) -> (h: &Handle)
        ensures
            h@ == self.handle_spec(),
    {
        &self.handle
    }

    /// The tensor, once the engine has told where its data lives. It owns
    /// the native object and retains no buffer: the data is the engine's.
    pub fn into_tensor<T>(self, memory_info: Option<MemoryInfo>) -> (t: Tensor<T>)
        ensures
            t@.handle == self.handle_spec(),
            t@.dtype.is_tensor_of(self.element_type_spec(), self.shape_spec()),
            t@.memory_info == memory_info,
            t@.owns_native_resource,
            t@.retained_backing is None,
    {
        let dtype = ValueType::tensor(self.element_type, self.shape);
        DynTensor::from_value(
            Value::new(self.handle, dtype, memory_info, true, None),
        ).transmute_type()
    }
}

impl<T> Tensor<T> {
    /// Prepares a tensor of kind `element_type` and of the given shape that
    /// the engine allocates through `allocator`. Its data is not
    /// initialised.
    pub fn new<D: ToDimensions>(allocator: &Allocator, element_type: TensorElementType, shape: D)
        -> (r: Result<PendingAllocation, Error>)
        ensures
            match r {
                Ok(p) => all_valid(shape.dimensions()) && p@ == (AllocationModel {
                    allocator: allocator.address_spec(),
                    shape: as_shape(shape.dimensions()),
                    element_type,
                }),
                Err(e) => validated(shape.dimensions(), None, Err(e)),
            },
    {
        let address = allocator.address();
        match shape.to_dimensions(None) {
            Ok(shape_given) => {
                proof {
                    lemma_as_shape(shape.dimensions(), shape_given@);
                }
                Ok(PendingAllocation { allocator: address, shape: shape_given, element_type })
            },
            Err(e) => Err(e),
        }
    }
}

/// Dimensions that read as `dims` are `dims` as the engine takes them.
pub proof fn lemma_as_shape(dims: Seq<int>, shape: Seq<i64>)
    requires
        as_ints(shape) =~= dims,
    ensures
        shape == as_shape(dims),
{
    assert(shape =~= as_shape(dims)) by {
        assert forall|i: int| 0 <= i < shape.len() implies shape[i] == as_shape(dims)[i] by {
            assert(as_ints(shape)[i] == dims[i]);
        }
    }
}

/// The UTF-8 bytes of each text.
pub open spec fn texts<T: Utf8Data>(data: Seq<T>) -> Seq<Seq<u8>> {
    data.map_values(|t: T| t.utf8())
}

/// Text `k` is the first that holds a zero byte, and holds its first at
/// `position`.
pub open spec fn first_refused_text(all: Seq<Seq<u8>>, k: int, position: int) -> bool {
    &&& 0 <= k < all.len()
    &&& first_nul_at(all[k], position)
    &&& forall|j: int| 0 <= j < k ==> !has_nul(#[trigger] all[j])
}

/// What a string tensor is going to be made with: the shape that the engine
/// allocates, and the bytes of each element, which are handed over
/// null-terminated.
pub struct StringTensorModel {
    pub shape: Seq<i64>,
    pub strings: Seq<Seq<u8>>,
}

/// A string tensor that is ready to be created: the engine allocates it
/// first and is given the strings after that.
#[derive(Debug)]
pub struct PendingStringTensor {
    shape: Vec<i64>,
    strings: Vec<NativeString>,
}

impl View for PendingStringTensor {
    type V = StringTensorModel;

    closed spec fn view(&self) -> StringTensorModel {
        StringTensorModel {
            shape: self.shape@,
            strings: Seq::new(self.strings@.len(), |i: int| self.strings@[i]@),
        }
    }
}

/// A string tensor that the engine has allocated and that waits for its
/// strings.
#[derive(Debug)]
pub struct StringTensorFill {
    handle: Handle,
    shape: Vec<i64>,
    strings: Vec<NativeString>,
}

/// A native value that was created and did not become a tensor: the error,
/// and the handle that has to be released.
#[derive(Debug)]
pub struct Abandoned {
    pub error: Error,
    pub release: Handle,
}

impl PendingStringTensor {
    pub fn shape(&self) -> (s: &[i64])
        ensures
            s@ == self@.shape,
    {
        self.shape.as_slice()
    }

    /// The tensor that the engine allocated, from its answer.
    pub fn created(self, reply: Reply) -> (r: Result<StringTensorFill, Error>)
        ensures
            match r {
                Ok(fill) => reply.status is Success && reply.out != 0 && fill.handle_spec()
                    == reply.out && fill@ == self@,
                Err(e) => handle_outcome(reply, NativeObject::Value, Err(e)),
            },
    {
        match check_handle(reply, NativeObject::Value) {
            Ok(handle) => Ok(StringTensorFill { handle, shape: self.shape, strings: self.strings }),
            Err(e) => Err(e),
        }
    }
}

impl View for StringTensorFill {
    type V = StringTensorModel;

    closed spec fn view(&self) -> StringTensorModel {
        StringTensorModel {
            shape: self.shape@,
            strings: Seq::new(self.strings@.len(), |i: int| self.strings@[i]@),
        }
    }
}

impl StringTensorFill {
    pub closed spec fn handle_spec(self) -> usize {
        self.handle@
    }

    pub fn handle(&self) -> (h: &Handle)
        ensures
            h@ == self.handle_spec(),
    {
        &self.handle
    }

    /// The strings to fill the tensor with, one for each element and in the
    /// order of the elements.
    pub fn strings(&self) -> (s: &[NativeString])
        ensures
            s@.len() == self@.strings.len(),
            forall|i: int| 0 <= i < s@.len() ==> (#[trigger] s@[i])@ == self@.strings[i],
    {
        self.strings.as_slice()
    }

    /// The tensor, once the engine has taken the strings and has told where
    /// the data lives. Where the engine refused the strings there is no
    /// tensor: the error comes back with the handle, which is still to be
    /// released.
    pub fn filled(self, status: Status, memory_info: Option<MemoryInfo>) -> (r: Result<
        Tensor<String>,
        Abandoned,
    >)
        ensures
            match r {
                Ok(t) => {
                    &&& status is Success
                    &&& t@.handle == self.handle_spec()
                    &&& t@.dtype.is_tensor_of(TensorElementType::String, self@.shape)
                    &&& t@.memory_info == memory_info
                    &&& t@.owns_native_resource
                    &&& t@.retained_backing is None
                },
                Err(abandoned) => {
                    &&& status matches Status::Failure { code, message }
                    &&& abandoned.error == (Error::Native { code, message })
                    &&& abandoned.release@ == self.handle_spec()
                },
            },
    {
        match status {
            Status::Success => {
                let dtype = ValueType::tensor(TensorElementType::String, self.shape);
                Ok(
                    DynTensor::from_value(
                        Value::new(self.handle, dtype, memory_info, true, None),
                    ).transmute_type(),
                )
            },
            Status::Failure { code, message } => Err(
                Abandoned { error: Error::Native { code, message }, release: self.handle },
            ),
        }
    }
}

/// What `from_string_array` makes of texts that are lent.
pub open spec fn prepared_strings<T: Utf8Data>(
    lent: Option<Lent<T>>,
    r: Result<StringTensorModel, Error>,
) -> bool {
    match r {
        Ok(p) => {
            &&& lent matches Some(l)
            &&& p.shape == l.shape
            &&& p.strings == texts(l.data)
            &&& forall|i: int| 0 <= i < p.strings.len() ==> !has_nul(#[trigger] p.strings[i])
        },
        Err(e) => lent matches Some(l) ==> e matches Error::InteriorNul { position } && exists|
            k: int,
        | first_refused_text(texts(l.data), k, position as int),
    }
}

impl Tensor<String> {
    /// Prepares a string tensor from texts that the caller lends. Each text
    /// is copied into a null-terminated buffer before anything is asked of
    /// the engine; a text that holds a zero byte cannot be handed over, and
    /// the first such text is the error.
    pub fn from_string_array<T: Utf8Data, A: TensorArrayData<T>>(input: &A) -> (r: Result<
        PendingStringTensor,
        Error,
    >)
        ensures
            prepared_strings(
                input.lent(),
                match r {
                    Ok(p) => Ok(p@),
                    Err(e) => Err(e),
                },
            ),
            r matches Err(e) ==> input.lent() is None ==> input.refused_with(e),
    {
        match input.ref_parts() {
            Ok((shape, data, _guard)) => {
                let ghost all = texts(data@);
                let mut strings: Vec<NativeString> = Vec::new();
                let mut i: usize = 0;
                while i < data.len()
                    invariant
                        i <= data@.len(),
                        all == texts(data@),
                        input.lent() == Some(Lent { shape: shape@, data: data@ }),
                        strings@.len() == i,
                        forall|j: int| 0 <= j < i ==> (#[trigger] strings@[j])@ == all[j],
                        forall|j: int| 0 <= j < i ==> !has_nul(#[trigger] all[j]),
                    decreases data@.len() - i,
                {
                    match NativeString::new(data[i].as_utf8_bytes()) {
                        Ok(copy) => {
                            strings.push(copy);
                        },
                        Err(e) => {
                            proof {
                                let lent = input.lent()->0;
                                assert(first_refused_text(
                                    texts(lent.data),
                                    i as int,
                                    e->position as int,
                                ));
                            }
                            return Err(e);
                        },
                    }
                    i += 1;
                }
                let pending = PendingStringTensor { shape, strings };
                assert(pending@.strings =~= all);
                Ok(pending)
            },
            Err(e) => Err(e),
        }
    }
}

/// Data whose dimensions are all valid and whose number of elements is not
/// their product cannot become a tensor: preparing one fails with a mismatch
/// that reports the product, as far as `usize` holds it, and the number of
/// elements given.
pub proof fn law_mismatched_data_is_refused<T, D: ToDimensions>(
    input: (D, Vec<T>),
    element_type: TensorElementType,
    r: Result<PendingModel<T>, Error>,
)
    requires
        prepared_owned(input.given(), vstd::layout::size_of::<T>(), element_type, r),
        r matches Err(e) ==> input.given() is None ==> input.refused_with(e),
        input.1@.len() <= usize::MAX,
        all_valid(input.0.dimensions()),
        shape_product(input.0.dimensions()) != input.1@.len(),
    ensures
        r matches Err(Error::ElementCountMismatch { shape, computed, expected }) && as_ints(shape@)
            == input.0.dimensions() && expected == input.1@.len() && computed
            == crate::shape::clamp_count(shape_product(input.0.dimensions())),
        r matches Err(e) && e.code_spec() == crate::error::ErrorCode::InvalidArgument,
{
    match r {
        Err(e) => {
            crate::shape::lemma_valid_is_not_refused(
                input.0.dimensions(),
                Some(input.1@.len() as usize),
                Err(e),
            );
        },
        Ok(_) => {},
    }
}

/// A vector that is given to a tensor comes back out of it: the tensor that
/// the engine creates has the dimensions that were given as its shape, and
/// retains the vector itself, whose elements are those that were given.
pub proof fn law_owned_tensor_keeps_what_was_given<T, D: ToDimensions>(
    input: (D, Vec<T>),
    element_type: TensorElementType,
    pending: PendingModel<T>,
    reply: Reply,
    tensor: ValueModel<T>,
)
    requires
        prepared_owned(input.given(), vstd::layout::size_of::<T>(), element_type, Ok(pending)),
        input.gives(pending.guard),
        made(pending, reply, Ok(tensor)),
    ensures
        tensor.dtype.is_tensor_of(element_type, as_shape(input.0.dimensions())),
        tensor.retained_backing == Some(Backing::Vector(input.1)),
        tensor.retained_backing->0.elements() == Some(input.1@),
        tensor.owns_native_resource,
{
}

} // verus!
