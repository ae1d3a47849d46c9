//! Multi-dimensional arrays as tensor data.
//!
//! An array keeps its elements in some order in memory; the engine needs them
//! contiguous and in standard order, the last index varying fastest. An
//! array that lies so is handed over as it is. One that does not is copied
//! into that order where the caller gives the array up, and refused where
//! the caller only lends it.
//!
//! An array is made over a vector, which it takes without copying, from the
//! lengths of its axes and, where the elements do not lie in standard
//! order, its strides.

use crate::create::{
    Given, Lent, OwnedTensorArrayData, TensorArrayData, TensorArrayDataMut, TensorArrayDataParts,
};
use crate::error::Error;
use crate::shape::shape_product;
use crate::value::Backing;
use ndarray::ShapeBuilder;
use vstd::prelude::*;

verus! {

/// An array of any number of axes that owns its elements.
#[derive(Debug)]
#[verifier::external_body]
#[verifier::reject_recursive_types(T)]
pub struct OwnedArray<T> {
    array: ndarray::ArrayD<T>,
}

/// The lengths of the array's axes, as `shape` returns them.
pub uninterp spec fn array_axes(a: OwnedArray<i64>) -> Seq<usize>;

/// The array's elements in logical order, the last index varying fastest.
pub uninterp spec fn array_elements(a: OwnedArray<i64>) -> Seq<i64>;

/// Whether the elements lie in memory contiguously and in logical order, as
/// `is_standard_layout` tells.
pub uninterp spec fn array_is_standard(a: OwnedArray<i64>) -> bool;

/// How far the logically first element of an array lies from the first
/// element of its memory. Along an axis with a negative stride the indices
/// run backwards through the memory, so the first of them lies at the far
/// end of the axis.
pub open spec fn first_position(shape: Seq<usize>, strides: Seq<isize>) -> int
    decreases shape.len(),
{
    if shape.len() == 0 || strides.len() == 0 {
        0
    } else {
        first_position(shape.drop_last(), strides.drop_last()) + if strides.last() < 0
            && shape.last() > 1 {
            -(strides.last() as int) * (shape.last() - 1)
        } else {
            0
        }
    }
}

/// How far element `k` in logical order, the last index varying fastest,
/// lies from the logically first: the sum over the axes of index times
/// stride.
pub open spec fn offset_of(shape: Seq<usize>, strides: Seq<isize>, k: int) -> int
    decreases shape.len(),
{
    if shape.len() == 0 || strides.len() == 0 || shape.last() == 0 {
        0
    } else {
        (k % (shape.last() as int)) * (strides.last() as int) + offset_of(
            shape.drop_last(),
            strides.drop_last(),
            k / (shape.last() as int),
        )
    }
}

/// The place in memory of element `k` in logical order.
pub open spec fn position(shape: Seq<usize>, strides: Seq<isize>, k: int) -> int {
    first_position(shape, strides) + offset_of(shape, strides, k)
}

/// The elements, in logical order, of the array over `data` with the given
/// axes and the given strides, which count in elements: as many as the
/// product of the axes, each taken from its place in `data`.
pub open spec fn strided_elements(shape: Seq<usize>, strides: Seq<isize>, data: Seq<i64>) -> Seq<
    i64,
> {
    Seq::new(
        shape_product(axes_as_ints(shape)) as nat,
        |k: int| data[position(shape, strides, k)],
    )
}

/// `ArrayBase::from_shape_vec` with a shape in standard order: the array
/// over the vector itself, with the given axes, in standard layout, its
/// elements in logical order being the vector's. The array is made exactly
/// where the product of the axes is the length of the vector and the
/// product of the axes that are not 0 is no more than `isize::MAX`.
#[verifier::external_body]
fn build(shape: &[usize], data: Vec<i64>) -> (r: Option<OwnedArray<i64>>)
    ensures
        r is Some <==> holds(shape@, data@.len()),
        r matches Some(a) ==> {
            &&& array_axes(a) == shape@
            &&& array_elements(a) == data@
            &&& array_is_standard(a)
        },
{
    match ndarray::ArrayD::from_shape_vec(ndarray::IxDyn(shape), data) {
        Ok(array) => Some(OwnedArray { array }),
        Err(_) => None,
    }
}

/// `ArrayBase::from_shape_vec` with a shape and strides of its own, made by
/// `ShapeBuilder::strides`: the array over the vector itself, with the given
/// axes. Its element at an index lies in the vector at the sum of index
/// times stride over the axes, counted from the logically first element,
/// and every such place is within the vector. There is no array where the
/// strides do not fit the axes and the vector. The crate takes the absolute
/// value of each stride, so the least number, which has none, is kept from
/// it.
#[verifier::external_body]
fn build_strided(shape: &[usize], strides: &[isize], data: Vec<i64>) -> (r: Option<
    OwnedArray<i64>,
>)
    requires
        shape@.len() == strides@.len(),
        forall|i: int| 0 <= i < strides@.len() ==> strides@[i] != isize::MIN,
    ensures
        r matches Some(a) ==> {
            &&& array_axes(a) == shape@
            &&& array_elements(a) == strided_elements(shape@, strides@, data@)
            &&& forall|k: int|
                0 <= k < shape_product(axes_as_ints(shape@)) ==> 0 <= #[trigger] position(
                    shape@,
                    strides@,
                    k,
                ) < data@.len()
        },
{
    let steps: Vec<usize> = strides.iter().map(|s| *s as usize).collect();
    let layout = ndarray::IxDyn(shape).strides(ndarray::IxDyn(&steps));
    match ndarray::ArrayD::from_shape_vec(layout, data) {
        Ok(array) => Some(OwnedArray { array }),
        Err(_) => None,
    }
}

/// `ArrayBase::into_shared` of an owned array: the same elements, axes and
/// layout under shared, counted ownership. No element is copied.
#[verifier::external_body]
fn make_shared(a: OwnedArray<i64>) -> (b: SharedArray<i64>)
    ensures
        shared_axes(b) == array_axes(a),
        shared_elements(b) == array_elements(a),
        shared_is_standard(b) == array_is_standard(a),
{
    SharedArray { array: a.array.into_shared() }
}

/// `ArrayBase::shape`: the lengths of the axes.
#[verifier::external_body]
fn axes_of(a: &OwnedArray<i64>) -> (axes: Vec<usize>)
    ensures
        axes@ == array_axes(*a),
{
    a.array.shape().to_vec()
}

/// `ArrayBase::len`: the total number of elements, which is the product of
/// the lengths of the axes.
#[verifier::external_body]
fn len_of(a: &OwnedArray<i64>) -> (n: usize)
    ensures
        n == array_elements(*a).len(),
        n == shape_product(axes_as_ints(array_axes(*a))),
{
    a.array.len()
}

/// `ArrayBase::is_standard_layout`.
#[verifier::external_body]
fn is_standard_layout(a: &OwnedArray<i64>) -> (b: bool)
    ensures
        b == array_is_standard(*a),
{
    a.array.is_standard_layout()
}

/// `ArrayBase::as_slice`: the elements as a slice in logical order, where the
/// array is in standard layout, and nothing where it is not.
#[verifier::external_body]
fn as_slice(a: &OwnedArray<i64>) -> (s: Option<&[i64]>)
    ensures
        s is Some <==> array_is_standard(*a),
        s matches Some(data) ==> data@ == array_elements(*a),
{
    a.array.as_slice()
}

/// `ArrayBase::as_slice_mut`: the elements as a slice to write to, in logical
/// order, where the array is in standard layout, and nothing where it is
/// not. The axes and the layout stay; the elements are what the slice holds
/// in the end. An array that gives no slice is not touched.
#[verifier::external_body]
fn as_slice_mut(a: &mut OwnedArray<i64>) -> (s: Option<&mut [i64]>)
    ensures
        s is Some <==> array_is_standard(*old(a)),
        s matches Some(data) ==> data@ == array_elements(*old(a)),
        array_axes(*final(a)) == array_axes(*old(a)),
        array_is_standard(*final(a)) == array_is_standard(*old(a)),
        match s {
            Some(data) => array_elements(*final(a)) == final(data)@,
            None => *final(a) == *old(a),
        },
{
    a.array.as_slice_mut()
}

/// `ArrayBase::as_standard_layout`, made an owned array by `into_owned`: an
/// array of the same axes and the same elements that is in standard layout.
#[verifier::external_body]
fn into_standard_layout(a: OwnedArray<i64>) -> (b: OwnedArray<i64>)
    ensures
        array_axes(b) == array_axes(a),
        array_elements(b) == array_elements(a),
        array_is_standard(b),
{
    OwnedArray { array: a.array.as_standard_layout().into_owned() }
}

/// The lengths of the axes as numbers.
pub open spec fn axes_as_ints(axes: Seq<usize>) -> Seq<int> {
    axes.map_values(|d: usize| d as int)
}

/// The lengths of the axes as the engine takes them.
pub open spec fn axes_as_shape(axes: Seq<usize>) -> Seq<i64> {
    axes.map_values(|d: usize| d as i64)
}

fn shape_of_axes(axes: &Vec<usize>) -> (shape: Vec<i64>)
    ensures
        shape@ == axes_as_shape(axes@),
{
    let mut shape: Vec<i64> = Vec::new();
    let mut i: usize = 0;
    while i < axes.len()
        invariant
            i <= axes@.len(),
            shape@.len() == i,
            forall|j: int| 0 <= j < i ==> shape@[j] == #[trigger] axes@[j] as i64,
        decreases axes@.len() - i,
    {
        shape.push(#[verifier::truncate] (axes[i] as i64));
        i += 1;
    }
    assert(shape@ =~= axes_as_shape(axes@));
    shape
}

/// The product of the lengths of those axes that are not 0.
pub open spec fn nonzero_product(shape: Seq<usize>) -> int {
    shape_product(shape.map_values(|d: usize| if d == 0 { 1int } else { d as int }))
}

/// Whether axes of these lengths hold exactly `len` elements and make an
/// array: their product is `len`, and the product of those that are not 0
/// is no more than `isize::MAX`.
pub open spec fn holds(shape: Seq<usize>, len: nat) -> bool {
    shape_product(axes_as_ints(shape)) == len && nonzero_product(shape) <= isize::MAX
}

/// There are as many strides as axes, and each stride has an absolute value.
pub open spec fn strides_fit(shape: Seq<usize>, strides: Seq<isize>) -> bool {
    &&& shape.len() == strides.len()
    &&& forall|i: int| 0 <= i < strides.len() ==> strides[i] != isize::MIN
}

impl OwnedArray<i64> {
    /// The array over `data` with the given axes, in standard layout.
    /// Nothing is copied. The array is made exactly where the axes hold the
    /// elements of `data`.
    pub fn from_shape_vec(shape: &[usize], data: Vec<i64>) -> (r: Result<OwnedArray<i64>, Error>)
        ensures
            match r {
                Ok(a) => {
                    &&& holds(shape@, data@.len())
                    &&& array_axes(a) == shape@
                    &&& array_elements(a) == data@
                    &&& array_is_standard(a)
                },
                Err(e) => e == Error::IncompatibleShape && !holds(shape@, data@.len()),
            },
    {
        match build(shape, data) {
            Some(array) => Ok(array),
            None => Err(Error::IncompatibleShape),
        }
    }

    /// The array over `data` with the given axes and, for each axis, the
    /// number of elements from one index to the next. Nothing is copied.
    /// There have to be as many strides as axes, and no stride may be the
    /// least number that `isize` holds.
    pub fn from_shape_strides_vec(shape: &[usize], strides: &[isize], data: Vec<i64>) -> (r:
        Result<OwnedArray<i64>, Error>)
        ensures
            match r {
                Ok(a) => {
                    &&& strides_fit(shape@, strides@)
                    &&& array_axes(a) == shape@
                    &&& array_elements(a) == strided_elements(shape@, strides@, data@)
                    &&& forall|k: int|
                        0 <= k < shape_product(axes_as_ints(shape@)) ==> 0 <= #[trigger] position(
                            shape@,
                            strides@,
                            k,
                        ) < data@.len()
                },
                Err(e) => e == Error::IncompatibleShape,
            },
            !strides_fit(shape@, strides@) ==> r is Err,
    {
        if shape.len() != strides.len() {
            return Err(Error::IncompatibleShape);
        }
        let mut i: usize = 0;
        while i < strides.len()
            invariant
                i <= strides@.len(),
                forall|j: int| 0 <= j < i ==> strides@[j] != isize::MIN,
            decreases strides@.len() - i,
        {
            if strides[i] == isize::MIN {
                return Err(Error::IncompatibleShape);
            }
            i += 1;
        }
        match build_strided(shape, strides, data) {
            Some(array) => Ok(array),
            None => Err(Error::IncompatibleShape),
        }
    }

    /// The lengths of the axes.
    pub fn shape(&self) -> (axes: Vec<usize>)
        ensures
            axes@ == array_axes(*self),
    {
        axes_of(self)
    }

    /// The number of elements, which is the product of the axes.
    pub fn len(&self) -> (n: usize)
        ensures
            n == array_elements(*self).len(),
            n == shape_product(axes_as_ints(array_axes(*self))),
    {
        len_of(self)
    }

    /// Whether the elements lie contiguously and in logical order.
    pub fn is_standard_layout(&self) -> (b: bool)
        ensures
            b == array_is_standard(*self),
    {
        self::is_standard_layout(self)
    }

    /// The elements in logical order, where the array is in standard
    /// layout.
    pub fn as_slice(&self) -> (s: Option<&[i64]>)
        ensures
            s is Some <==> array_is_standard(*self),
            s matches Some(data) ==> data@ == array_elements(*self),
    {
        self::as_slice(self)
    }

    /// The same array under shared ownership. No element is copied.
    pub fn into_shared(self) -> (b: SharedArray<i64>)
        ensures
            shared_axes(b) == array_axes(self),
            shared_elements(b) == array_elements(self),
            shared_is_standard(b) == array_is_standard(self),
    {
        make_shared(self)
    }
}

impl SharedArray<i64> {
    /// The lengths of the axes.
    pub fn shape(&self) -> (axes: Vec<usize>)
        ensures
            axes@ == shared_axes(*self),
    {
        shared_axes_of(self)
    }

    /// The elements in logical order, where the array is in standard
    /// layout.
    pub fn as_slice(&self) -> (s: Option<&[i64]>)
        ensures
            s is Some <==> shared_is_standard(*self),
            s matches Some(data) ==> data@ == shared_elements(*self),
    {
        shared_as_slice(self)
    }
}

/// An array is lent as it lies: one that is not in standard layout is
/// refused, since lending makes no copy.
impl TensorArrayData<i64> for OwnedArray<i64> {
    open spec fn lent(&self) -> Option<Lent<i64>> {
        if array_is_standard(*self) {
            Some(Lent { shape: axes_as_shape(array_axes(*self)), data: array_elements(*self) })
        } else {
            None
        }
    }

    open spec fn keeps(&self, guard: Option<Backing<i64>>) -> bool {
        guard is None
    }

    open spec fn refused_with(&self, e: Error) -> bool {
        e == Error::NonContiguous
    }

    fn ref_parts(&self) -> (r: Result<(Vec<i64>, &[i64], Option<Backing<i64>>), Error>) {
        let shape = shape_of_axes(&axes_of(self));
        match as_slice(self) {
            Some(data) => Ok((shape, data, None)),
            None => Err(Error::NonContiguous),
        }
    }
}

/// An array that is given up is kept as it is where it is in standard
/// layout. Where it is not, a copy in standard layout is kept in its place:
/// the same axes and the same elements.
impl OwnedTensorArrayData<i64> for OwnedArray<i64> {
    open spec fn given(self) -> Option<Given> {
        Some(
            Given {
                shape: axes_as_shape(array_axes(self)),
                num_elements: array_elements(self).len(),
            },
        )
    }

    open spec fn gives(self, guard: Option<Backing<i64>>) -> bool {
        &&& guard matches Some(Backing::Array(kept))
        &&& array_is_standard(kept)
        &&& array_axes(kept) == array_axes(self)
        &&& array_elements(kept) == array_elements(self)
        &&& array_is_standard(self) ==> kept == self
    }

    open spec fn refused_with(self, e: Error) -> bool {
        false
    }

    fn into_parts(self) -> (r: Result<TensorArrayDataParts<i64>, Error>)
        ensures
            r matches Ok(parts) && parts.num_elements == shape_product(
                axes_as_ints(array_axes(self)),
            ),
    {
        if is_standard_layout(&self) {
            let shape = shape_of_axes(&axes_of(&self));
            let num_elements = len_of(&self);
            Ok(TensorArrayDataParts { shape, num_elements, guard: Some(Backing::Array(self)) })
        } else {
            let contiguous = into_standard_layout(self);
            let shape = shape_of_axes(&axes_of(&contiguous));
            let num_elements = len_of(&contiguous);
            Ok(
                TensorArrayDataParts {
                    shape,
                    num_elements,
                    guard: Some(Backing::Array(contiguous)),
                },
            )
        }
    }
}

impl TensorArrayDataMut<i64> for OwnedArray<i64> {
    fn ref_parts_mut(&mut self) -> (r: Result<
        (Vec<i64>, &mut [i64], Option<Backing<i64>>),
        Error,
    >) {
        let shape = shape_of_axes(&axes_of(self));
        match as_slice_mut(self) {
            Some(data) => Ok((shape, data, None)),
            None => Err(Error::NonContiguous),
        }
    }
}

/// An array of any number of axes whose elements are shared and counted.
#[derive(Debug)]
#[verifier::external_body]
#[verifier::reject_recursive_types(T)]
pub struct SharedArray<T> {
    array: ndarray::ArcArray<T, ndarray::IxDyn>,
}

/// The lengths of the array's axes, as `shape` returns them.
pub uninterp spec fn shared_axes(a: SharedArray<i64>) -> Seq<usize>;

/// The array's elements in logical order, the last index varying fastest.
pub uninterp spec fn shared_elements(a: SharedArray<i64>) -> Seq<i64>;

/// Whether the elements lie in memory contiguously and in logical order, as
/// `is_standard_layout` tells.
pub uninterp spec fn shared_is_standard(a: SharedArray<i64>) -> bool;

/// `ArrayBase::shape`: the lengths of the axes.
#[verifier::external_body]
fn shared_axes_of(a: &SharedArray<i64>) -> (axes: Vec<usize>)
    ensures
        axes@ == shared_axes(*a),
{
    a.array.shape().to_vec()
}

/// `ArrayBase::as_slice`: the elements as a slice in logical order, where the
/// array is in standard layout, and nothing where it is not.
#[verifier::external_body]
fn shared_as_slice(a: &SharedArray<i64>) -> (s: Option<&[i64]>)
    ensures
        s is Some <==> shared_is_standard(*a),
        s matches Some(data) ==> data@ == shared_elements(*a),
{
    a.array.as_slice()
}

/// `Clone::clone` of a shared array: another handle to the same elements,
/// with the same axes and layout. No element is copied.
#[verifier::external_body]
fn share(a: &SharedArray<i64>) -> (b: SharedArray<i64>)
    ensures
        shared_axes(b) == shared_axes(*a),
        shared_elements(b) == shared_elements(*a),
        shared_is_standard(b) == shared_is_standard(*a),
{
    SharedArray { array: a.array.clone() }
}

/// A shared array is lent as it lies, and the tensor keeps a handle to it,
/// so that the elements stay while the tensor does.
impl TensorArrayData<i64> for SharedArray<i64> {
    open spec fn lent(&self) -> Option<Lent<i64>> {
        if shared_is_standard(*self) {
            Some(Lent { shape: axes_as_shape(shared_axes(*self)), data: shared_elements(*self) })
        } else {
            None
        }
    }

    open spec fn keeps(&self, guard: Option<Backing<i64>>) -> bool {
        &&& guard matches Some(Backing::SharedArray(kept))
        &&& shared_axes(kept) == shared_axes(*self)
        &&& shared_elements(kept) == shared_elements(*self)
        &&& shared_is_standard(kept)
    }

    open spec fn refused_with(&self, e: Error) -> bool {
        e == Error::NonContiguous
    }

    fn ref_parts(&self) -> (r: Result<(Vec<i64>, &[i64], Option<Backing<i64>>), Error>) {
        let shape = shape_of_axes(&shared_axes_of(self));
        match shared_as_slice(self) {
            Some(data) => Ok((shape, data, Some(Backing::SharedArray(share(self))))),
            None => Err(Error::NonContiguous),
        }
    }
}

/// An array that is given up is accepted whatever its layout. What the
/// tensor keeps is an array in standard layout that holds the elements of
/// the array given, in their logical order: the array itself where it was
/// in standard layout already. The tensor has the axes of the array given,
/// and as many elements as they hold, which is their product.
pub proof fn law_given_array_is_kept_in_standard_layout(
    a: OwnedArray<i64>,
    r: Result<TensorArrayDataParts<i64>, Error>,
)
    requires
        match r {
            Ok(parts) => a.given() == Some(
                Given { shape: parts.shape@, num_elements: parts.num_elements as nat },
            ) && a.gives(parts.guard),
            Err(e) => a.given() is None && a.refused_with(e),
        },
        r matches Ok(parts) && parts.num_elements == shape_product(axes_as_ints(array_axes(a))),
    ensures
        r matches Ok(parts) && parts.guard matches Some(Backing::Array(kept)) && array_is_standard(
            kept,
        ) && array_elements(kept) == array_elements(a) && parts.shape@ == axes_as_shape(
            array_axes(a),
        ) && parts.num_elements == array_elements(a).len() && parts.num_elements
            == shape_product(axes_as_ints(array_axes(a))) && (array_is_standard(a) ==> kept == a),
{
}

} // verus!
