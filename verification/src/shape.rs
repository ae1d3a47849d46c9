//! Shapes: which dimension sequences a tensor may be made with, and how many
//! elements such a shape holds.

use crate::error::{decimal, dimensions_text, Error, ErrorCode};
use vstd::prelude::*;

verus! {

/// What one dimension of a tensor made from raw data may be.
pub open spec fn valid_dimension(d: int) -> bool {
    1 <= d <= i64::MAX
}

/// Every entry is a valid dimension.
pub open spec fn all_valid(dims: Seq<int>) -> bool {
    forall|i: int| 0 <= i < dims.len() ==> valid_dimension(#[trigger] dims[i])
}

/// `at` is the first position whose entry is zero or negative.
pub open spec fn first_non_positive_at(dims: Seq<int>, at: int) -> bool {
    &&& 0 <= at < dims.len()
    &&& dims[at] <= 0
    &&& forall|j: int| 0 <= j < at ==> 1 <= #[trigger] dims[j]
}

/// No entry is zero or negative.
pub open spec fn all_positive(dims: Seq<int>) -> bool {
    forall|i: int| 0 <= i < dims.len() ==> 1 <= #[trigger] dims[i]
}

/// `at` is the first position whose entry is more than `i64` holds.
pub open spec fn first_too_large_at(dims: Seq<int>, at: int) -> bool {
    &&& 0 <= at < dims.len()
    &&& dims[at] > i64::MAX
    &&& forall|j: int| 0 <= j < at ==> #[trigger] dims[j] <= i64::MAX
}

/// The product of all entries; 1 for the empty shape, which is a scalar.
pub open spec fn shape_product(dims: Seq<int>) -> int
    decreases dims.len(),
{
    if dims.len() == 0 {
        1
    } else {
        shape_product(dims.drop_last()) * dims.last()
    }
}

/// A count as far as `usize` can hold it.
pub open spec fn clamp_count(n: int) -> usize {
    if n > usize::MAX {
        usize::MAX
    } else if n < 0 {
        0
    } else {
        n as usize
    }
}

pub open spec fn as_ints(shape: Seq<i64>) -> Seq<int> {
    shape.map_values(|d: i64| d as int)
}

/// What validation of `dims` against an expected element count comes to.
///
/// The dimensions come back unchanged when each is valid and, where a count
/// is expected, their product is that count. Otherwise the first entry that
/// is zero or negative is reported, by its position counted from 1; where
/// there is none, the first entry that is more than `i64` holds; and where
/// all entries are valid, the mismatch of the product and the count.
pub open spec fn validated(dims: Seq<int>, expected: Option<usize>, r: Result<Vec<i64>, Error>)
    -> bool {
    match r {
        Ok(shape) => {
            &&& all_valid(dims)
            &&& as_ints(shape@) =~= dims
            &&& expected matches Some(n) ==> shape_product(dims) == n
        },
        Err(Error::InvalidDimension { index }) => first_non_positive_at(dims, index - 1),
        Err(Error::DimensionTooLarge { index }) => all_positive(dims) && first_too_large_at(
            dims,
            index - 1,
        ),
        Err(Error::ElementCountMismatch { shape, computed, expected: e }) => {
            &&& all_valid(dims)
            &&& as_ints(shape@) =~= dims
            &&& expected == Some(e)
            &&& shape_product(dims) != e
            &&& computed == clamp_count(shape_product(dims))
        },
        Err(_) => false,
    }
}

/// The number of elements that a tensor of this shape holds: the product of
/// the dimensions, and none where a dimension is negative.
pub open spec fn element_count_spec(shape: Seq<i64>) -> int {
    if exists|i: int| 0 <= i < shape.len() && shape[i] < 0 {
        0
    } else {
        shape_product(as_ints(shape))
    }
}

/// The product of a prefix that is one entry longer is the product of the
/// prefix times that entry.
pub proof fn lemma_product_of_prefix(dims: Seq<int>, k: int)
    requires
        0 <= k < dims.len(),
    ensures
        shape_product(dims.take(k + 1)) == shape_product(dims.take(k)) * dims[k],
{
    assert(dims.take(k + 1).drop_last() =~= dims.take(k));
}

/// Valid dimensions never shrink a product: that of any prefix is at least 1
/// and at most that of the whole.
pub proof fn lemma_product_grows(dims: Seq<int>, k: int)
    requires
        0 <= k <= dims.len(),
        forall|i: int| 0 <= i < dims.len() ==> 1 <= #[trigger] dims[i],
    ensures
        1 <= shape_product(dims.take(k)) <= shape_product(dims),
    decreases dims.len() - k,
{
    if k == dims.len() {
        assert(dims.take(k) =~= dims);
        lemma_product_at_least_one(dims);
    } else {
        lemma_product_grows(dims, k + 1);
        lemma_product_of_prefix(dims, k);
        let p = shape_product(dims.take(k));
        let d = dims[k];
        lemma_product_at_least_one(dims.take(k));
        assert(p <= p * d) by (nonlinear_arith)
            requires
                1 <= p,
                1 <= d,
        ;
    }
}

/// The product of entries that are all at least 1 is at least 1.
pub proof fn lemma_product_at_least_one(dims: Seq<int>)
    requires
        forall|i: int| 0 <= i < dims.len() ==> 1 <= #[trigger] dims[i],
    ensures
        1 <= shape_product(dims),
    decreases dims.len(),
{
    if dims.len() > 0 {
        lemma_product_at_least_one(dims.drop_last());
        let p = shape_product(dims.drop_last());
        let d = dims.last();
        assert(1 <= p * d) by (nonlinear_arith)
            requires
                1 <= p,
                1 <= d,
        ;
    }
}

/// One dimension of zero makes the product zero.
pub proof fn lemma_product_with_zero(dims: Seq<int>, at: int)
    requires
        0 <= at < dims.len(),
        dims[at] == 0,
    ensures
        shape_product(dims) == 0,
    decreases dims.len(),
{
    if at == dims.len() - 1 {
        let p = shape_product(dims.drop_last());
        assert(p * 0 == 0) by (nonlinear_arith);
    } else {
        lemma_product_with_zero(dims.drop_last(), at);
        let d = dims.last();
        assert(0 * d == 0) by (nonlinear_arith);
    }
}

/// An integer that can be given as a dimension.
pub trait DimensionValue: Copy {
    spec fn value(self) -> int;

    /// Whether the dimension is at least 1.
    fn is_positive(self) -> (b: bool)
        ensures
            b == (self.value() >= 1),
    ;

    /// The dimension as `i64`, where it is a valid one.
    fn checked(self) -> (r: Option<i64>)
        ensures
            r matches Some(d) ==> valid_dimension(self.value()) && d == self.value(),
            r is None ==> !valid_dimension(self.value()),
    ;
}

impl DimensionValue for i64 {
    open spec fn value(self) -> int {
        self as int
    }

    fn is_positive(self) -> (b: bool) {
        self >= 1
    }

    fn checked(self) -> (r: Option<i64>) {
        if self >= 1 {
            Some(self)
        } else {
            None
        }
    }
}

impl DimensionValue for i32 {
    open spec fn value(self) -> int {
        self as int
    }

    fn is_positive(self) -> (b: bool) {
        self >= 1
    }

    fn checked(self) -> (r: Option<i64>) {
        if self >= 1 {
            Some(self as i64)
        } else {
            None
        }
    }
}

impl DimensionValue for usize {
    open spec fn value(self) -> int {
        self as int
    }

    fn is_positive(self) -> (b: bool) {
        self >= 1
    }

    fn checked(self) -> (r: Option<i64>) {
        if self >= 1 && self as u64 <= 0x7fff_ffff_ffff_ffffu64 {
            Some(self as i64)
        } else {
            None
        }
    }
}

pub open spec fn values_of<I: DimensionValue>(dims: Seq<I>) -> Seq<int> {
    dims.map_values(|d: I| d.value())
}

/// The product of dimensions that are all at least 1, where `usize` holds it.
fn checked_product(shape: &[i64]) -> (r: Option<usize>)
    requires
        forall|i: int| 0 <= i < shape@.len() ==> 1 <= #[trigger] shape@[i],
    ensures
        r matches Some(p) ==> p == shape_product(as_ints(shape@)),
        r is None ==> shape_product(as_ints(shape@)) > usize::MAX,
{
    let ghost dims = as_ints(shape@);
    let mut product: usize = 1;
    let mut i: usize = 0;
    assert(dims.take(0) =~= Seq::<int>::empty());
    while i < shape.len()
        invariant
            i <= shape@.len(),
            dims == as_ints(shape@),
            forall|j: int| 0 <= j < dims.len() ==> 1 <= #[trigger] dims[j],
            product == shape_product(dims.take(i as int)),
        decreases shape@.len() - i,
    {
        let d: i64 = shape[i];
        proof {
            lemma_product_of_prefix(dims, i as int);
            lemma_product_grows(dims, i + 1);
        }
        if d as u64 > usize::MAX as u64 {
            proof {
                let p = shape_product(dims.take(i as int));
                lemma_product_grows(dims, i as int);
                assert(p * dims[i as int] >= dims[i as int]) by (nonlinear_arith)
                    requires
                        1 <= p,
                        1 <= dims[i as int],
                ;
            }
            return None;
        }
        match product.checked_mul(d as usize) {
            Some(next) => {
                product = next;
            },
            None => {
                return None;
            },
        }
        i += 1;
    }
    assert(dims.take(i as int) =~= dims);
    Some(product)
}

/// Checks a sequence of dimensions, against the number of elements that the
/// data holds where one is given.
pub fn validate<I: DimensionValue>(dims: &[I], expected_size: Option<usize>) -> (r: Result<
    Vec<i64>,
    Error,
>)
    ensures
        validated(values_of(dims@), expected_size, r),
{
    let ghost given = values_of(dims@);
    let mut k: usize = 0;
    while k < dims.len()
        invariant
            k <= dims@.len(),
            given == values_of(dims@),
            forall|j: int| 0 <= j < k ==> 1 <= #[trigger] given[j],
        decreases dims@.len() - k,
    {
        if !dims[k].is_positive() {
            return Err(Error::InvalidDimension { index: k + 1 });
        }
        k += 1;
    }
    let mut shape: Vec<i64> = Vec::new();
    let mut i: usize = 0;
    while i < dims.len()
        invariant
            i <= dims@.len(),
            given == values_of(dims@),
            all_positive(given),
            shape@.len() == i,
            forall|j: int| 0 <= j < i ==> valid_dimension(#[trigger] given[j]),
            forall|j: int| 0 <= j < i ==> shape@[j] == #[trigger] given[j],
        decreases dims@.len() - i,
    {
        match dims[i].checked() {
            Some(d) => {
                shape.push(d);
            },
            None => {
                assert(1 <= given[i as int]);
                assert forall|j: int| 0 <= j < i implies #[trigger] given[j] <= i64::MAX by {
                    assert(valid_dimension(given[j]));
                }
                return Err(Error::DimensionTooLarge { index: i + 1 });
            },
        }
        i += 1;
    }
    assert(as_ints(shape@) =~= given);
    assert forall|j: int| 0 <= j < shape@.len() implies 1 <= #[trigger] shape@[j] by {
        assert(valid_dimension(given[j]));
    }
    match expected_size {
        None => Ok(shape),
        Some(expected) => {
            match checked_product(shape.as_slice()) {
                Some(computed) if computed == expected => Ok(shape),
                Some(computed) => Err(Error::ElementCountMismatch { shape, computed, expected }),
                None => Err(
                    Error::ElementCountMismatch { shape, computed: usize::MAX, expected },
                ),
            }
        },
    }
}

/// The number of elements that a tensor of the given shape holds, where
/// `usize` holds it.
pub fn element_count(shape: &[i64]) -> (r: Option<usize>)
    ensures
        r matches Some(n) ==> n == element_count_spec(shape@),
        r is None <==> element_count_spec(shape@) > usize::MAX,
{
    let ghost dims = as_ints(shape@);
    let mut zero_at: Option<usize> = None;
    let mut i: usize = 0;
    while i < shape.len()
        invariant
            i <= shape@.len(),
            forall|j: int| 0 <= j < i ==> 0 <= #[trigger] shape@[j],
            zero_at matches Some(z) ==> z < i && shape@[z as int] == 0,
            zero_at is None ==> forall|j: int| 0 <= j < i ==> 1 <= #[trigger] shape@[j],
        decreases shape@.len() - i,
    {
        if shape[i] < 0 {
            return Some(0);
        }
        if shape[i] == 0 {
            zero_at = Some(i);
        }
        i += 1;
    }
    match zero_at {
        Some(z) => {
            proof {
                lemma_product_with_zero(as_ints(shape@), z as int);
            }
            Some(0)
        },
        None => checked_product(shape),
    }
}

/// What can be given as the shape of a tensor.
pub trait ToDimensions {
    /// The dimensions as given.
    spec fn dimensions(&self) -> Seq<int>;

    /// The dimensions as the engine takes them, checked against the number of
    /// elements where one is expected.
    fn to_dimensions(&self, expected_size: Option<usize>) -> (r: Result<Vec<i64>, Error>)
        ensures
            validated(self.dimensions(), expected_size, r),
    ;
}

/// The empty shape, which is that of a scalar.
impl ToDimensions for () {
    open spec fn dimensions(&self) -> Seq<int> {
        Seq::empty()
    }

    fn to_dimensions(&self, expected_size: Option<usize>) -> (r: Result<Vec<i64>, Error>) {
        let shape: Vec<i64> = Vec::new();
        assert(as_ints(shape@) =~= Seq::<int>::empty());
        match expected_size {
            None => Ok(shape),
            Some(expected) => {
                if expected == 1 {
                    Ok(shape)
                } else {
                    Err(Error::ElementCountMismatch { shape, computed: 1, expected })
                }
            },
        }
    }
}

impl<I: DimensionValue> ToDimensions for &[I] {
    open spec fn dimensions(&self) -> Seq<int> {
        values_of(self@)
    }

    fn to_dimensions(&self, expected_size: Option<usize>) -> (r: Result<Vec<i64>, Error>) {
        validate(*self, expected_size)
    }
}

impl<I: DimensionValue> ToDimensions for Vec<I> {
    open spec fn dimensions(&self) -> Seq<int> {
        values_of(self@)
    }

    fn to_dimensions(&self, expected_size: Option<usize>) -> (r: Result<Vec<i64>, Error>) {
        validate(self.as_slice(), expected_size)
    }
}

impl<I: DimensionValue, const N: usize> ToDimensions for [I; N] {
    open spec fn dimensions(&self) -> Seq<int> {
        values_of(self@)
    }

    fn to_dimensions(&self, expected_size: Option<usize>) -> (r: Result<Vec<i64>, Error>) {
        validate(self.as_slice(), expected_size)
    }
}

/// Dimensions that are all at least 1, and no larger than `i64` holds, are
/// returned unchanged, when no element count is expected or their product is
/// the count expected.
pub proof fn law_valid_dimensions_come_back(
    dims: Seq<int>,
    expected: Option<usize>,
    r: Result<Vec<i64>, Error>,
)
    requires
        validated(dims, expected, r),
        forall|i: int| 0 <= i < dims.len() ==> 1 <= #[trigger] dims[i] <= i64::MAX,
        expected matches Some(n) ==> shape_product(dims) == n,
    ensures
        r matches Ok(shape) && as_ints(shape@) == dims,
{
    lemma_valid_is_not_refused(dims, expected, r);
}

/// Validation of dimensions that are all valid does not fail on one of
/// them.
pub proof fn lemma_valid_is_not_refused(
    dims: Seq<int>,
    expected: Option<usize>,
    r: Result<Vec<i64>, Error>,
)
    requires
        validated(dims, expected, r),
        all_valid(dims),
    ensures
        !(r matches Err(Error::InvalidDimension { .. })),
        !(r matches Err(Error::DimensionTooLarge { .. })),
{
    match r {
        Err(Error::InvalidDimension { index }) => {
            assert(valid_dimension(dims[index - 1]));
        },
        Err(Error::DimensionTooLarge { index }) => {
            assert(valid_dimension(dims[index - 1]));
        },
        _ => {},
    }
}

/// A dimension of zero or less makes validation fail, whatever the other
/// dimensions are and whatever count is expected. The error names the first
/// entry that is zero or negative, by its position counted from 1; it is
/// reported as an invalid argument, and its message gives that position.
pub proof fn law_invalid_dimension_is_named(
    dims: Seq<int>,
    expected: Option<usize>,
    r: Result<Vec<i64>, Error>,
    at: int,
)
    requires
        validated(dims, expected, r),
        0 <= at < dims.len(),
        dims[at] <= 0,
    ensures
        r matches Err(Error::InvalidDimension { index }) && first_non_positive_at(dims, index - 1)
            && index <= at + 1,
        r matches Err(e) && e.code_spec() == ErrorCode::InvalidArgument,
        r matches Err(Error::InvalidDimension { index }) && r->Err_0.message_spec()
            == "Invalid dimension #"@ + decimal(index as nat)
            + "; all dimensions must be >= 1 when creating a tensor from raw data"@,
{
    match r {
        Ok(_) => {
            assert(valid_dimension(dims[at]));
        },
        Err(Error::InvalidDimension { index }) => {
            if index - 1 > at {
                assert(1 <= dims[at]);
            }
        },
        Err(Error::DimensionTooLarge { index }) => {
            assert(1 <= dims[at]);
        },
        Err(Error::ElementCountMismatch { .. }) => {
            assert(valid_dimension(dims[at]));
        },
        Err(_) => {},
    }
}

/// The first dimension that is zero or negative is the one that is named:
/// where entry `k` is the first such, the position in the error is `k + 1`.
pub proof fn law_first_non_positive_dimension_is_named(
    dims: Seq<int>,
    expected: Option<usize>,
    r: Result<Vec<i64>, Error>,
    k: int,
)
    requires
        validated(dims, expected, r),
        first_non_positive_at(dims, k),
    ensures
        r matches Err(Error::InvalidDimension { index }) && index == k + 1,
{
    law_invalid_dimension_is_named(dims, expected, r, k);
    match r {
        Err(Error::InvalidDimension { index }) => {
            if index - 1 < k {
                assert(1 <= dims[index - 1]);
            }
        },
        _ => {},
    }
}

/// Where no dimension is zero or negative, one that is more than `i64` holds
/// makes validation fail; the error names the first such entry, by its
/// position counted from 1.
pub proof fn law_too_large_dimension_is_named(
    dims: Seq<int>,
    expected: Option<usize>,
    r: Result<Vec<i64>, Error>,
    at: int,
)
    requires
        validated(dims, expected, r),
        all_positive(dims),
        0 <= at < dims.len(),
        dims[at] > i64::MAX,
    ensures
        r matches Err(Error::DimensionTooLarge { index }) && first_too_large_at(dims, index - 1),
        r matches Err(e) && e.code_spec() == ErrorCode::InvalidArgument,
{
    match r {
        Ok(_) => {
            assert(valid_dimension(dims[at]));
        },
        Err(Error::InvalidDimension { index }) => {
            assert(1 <= dims[index - 1]);
        },
        Err(Error::ElementCountMismatch { .. }) => {
            assert(valid_dimension(dims[at]));
        },
        _ => {},
    }
}

/// Where every dimension is valid and their product is not the number of
/// elements given, validation fails with a mismatch that reports both
/// counts: the number given, and the product as far as `usize` holds it.
/// The error is reported as an invalid argument, and its message gives the
/// dimensions and both counts in decimal.
pub proof fn law_count_mismatch_is_reported(
    dims: Seq<int>,
    given: usize,
    r: Result<Vec<i64>, Error>,
)
    requires
        validated(dims, Some(given), r),
        all_valid(dims),
        shape_product(dims) != given,
    ensures
        r matches Err(Error::ElementCountMismatch { shape, computed, expected })
            && as_ints(shape@) == dims && expected == given && computed == clamp_count(
            shape_product(dims),
        ),
        r matches Err(e) && e.code_spec() == ErrorCode::InvalidArgument,
        r matches Err(Error::ElementCountMismatch { shape, .. }) && (shape_product(dims)
            <= usize::MAX ==> r->Err_0.message_spec()
            == "Cannot create a tensor from raw data; shape ["@ + dimensions_text(shape@) + "] ("@
            + decimal(shape_product(dims) as nat)
            + " elements) does not match the length of the data provided ("@ + decimal(
            given as nat,
        ) + " elements)"@),
{
    lemma_valid_is_not_refused(dims, Some(given), r);
    lemma_product_at_least_one(dims);
}

/// The empty shape is accepted with exactly one element, or where no count
/// is expected; with none or with more than one it is refused.
pub proof fn law_scalar_holds_one_element(expected: Option<usize>, r: Result<Vec<i64>, Error>)
    requires
        validated(Seq::<int>::empty(), expected, r),
    ensures
        r is Ok <==> (expected is None || expected == Some(1usize)),
        r matches Ok(shape) ==> shape@.len() == 0,
{
    assert(shape_product(Seq::<int>::empty()) == 1);
    match r {
        Ok(shape) => {
            assert(as_ints(shape@).len() == shape@.len());
        },
        _ => {},
    }
}

} // verus!
