//! The error taxonomy: validation errors, which are found before the engine
//! is called, and what can go wrong at the native boundary.

use vstd::prelude::*;

verus! {

/// The status classes that the engine reports.
#[derive(Debug, Clone, Copy, PartialEq, Eq, Structural)]
pub enum ErrorCode {
    GenericFailure,
    InvalidArgument,
    NoSuchFile,
    NoModel,
    EngineError,
    RuntimeException,
    InvalidProtobuf,
    ModelLoaded,
    NotImplemented,
    InvalidGraph,
    ExecutionProviderFailure,
}

/// The native objects whose out-pointer is checked before use.
#[derive(Debug, Clone, Copy, PartialEq, Eq, Structural)]
pub enum NativeObject {
    Value,
    CheckpointState,
    TensorTypeAndShapeInfo,
}

#[derive(Debug, Clone, PartialEq, Eq)]
pub enum Error {
    /// A dimension is zero or negative. `index` counts from 1.
    InvalidDimension { index: usize },
    /// A dimension is larger than `i64` holds. `index` counts from 1.
    DimensionTooLarge { index: usize },
    /// The product of the dimensions is not the number of elements given.
    /// `computed` is the product, or `usize::MAX` where the product is
    /// larger than that.
    ElementCountMismatch { shape: Vec<i64>, computed: usize, expected: usize },
    /// An array is not laid out contiguously in standard order, and no copy
    /// may be made.
    NonContiguous,
    /// Axes, or axes and strides, do not describe an array over the data
    /// given.
    IncompatibleShape,
    /// A string holds a zero byte at `position`, so it has no null-terminated
    /// form.
    InteriorNul { position: usize },
    /// The number of bytes of a buffer does not fit in `usize`.
    SizeOverflow,
    /// An entry point returned a status other than success.
    Native { code: ErrorCode, message: String },
    /// An entry point reported success and handed back a null pointer.
    NullResult { object: NativeObject },
    /// The engine was built without its training entry points.
    TrainingUnavailable,
}

impl Error {
    /// Whether the error was found in the caller's input, before any call
    /// into the engine.
    pub open spec fn is_validation(self) -> bool {
        self is InvalidDimension || self is DimensionTooLarge || self is ElementCountMismatch
            || self is NonContiguous
            || self is IncompatibleShape || self is InteriorNul || self is SizeOverflow
    }

    pub open spec fn code_spec(self) -> ErrorCode {
        match self {
            Error::InvalidDimension { .. } => ErrorCode::InvalidArgument,
            Error::DimensionTooLarge { .. } => ErrorCode::InvalidArgument,
            Error::ElementCountMismatch { .. } => ErrorCode::InvalidArgument,
            Error::Native { code, .. } => code,
            _ => ErrorCode::GenericFailure,
        }
    }

    /// The status class under which the error is reported.
    pub fn code(&self) -> (c: ErrorCode)
        ensures
            c == self.code_spec(),
    {
        match self {
            Error::InvalidDimension { .. } => ErrorCode::InvalidArgument,
            Error::DimensionTooLarge { .. } => ErrorCode::InvalidArgument,
            Error::ElementCountMismatch { .. } => ErrorCode::InvalidArgument,
            Error::Native { code, .. } => *code,
            _ => ErrorCode::GenericFailure,
        }
    }

    pub fn is_validation_error(&self) -> (b: bool)
        ensures
            b == self.is_validation(),
    {
        match self {
            Error::InvalidDimension { .. } => true,
            Error::DimensionTooLarge { .. } => true,
            Error::ElementCountMismatch { .. } => true,
            Error::NonContiguous => true,
            Error::IncompatibleShape => true,
            Error::InteriorNul { .. } => true,
            Error::SizeOverflow => true,
            _ => false,
        }
    }
}

/// A decimal digit as text.
pub open spec fn digit_text(d: int) -> Seq<char> {
    if d == 0 {
        "0"@
    } else if d == 1 {
        "1"@
    } else if d == 2 {
        "2"@
    } else if d == 3 {
        "3"@
    } else if d == 4 {
        "4"@
    } else if d == 5 {
        "5"@
    } else if d == 6 {
        "6"@
    } else if d == 7 {
        "7"@
    } else if d == 8 {
        "8"@
    } else {
        "9"@
    }
}

/// A number in decimal, without leading zeros.
pub open spec fn decimal(n: nat) -> Seq<char>
    decreases n,
{
    if n < 10 {
        digit_text(n as int)
    } else {
        decimal(n / 10) + digit_text((n % 10) as int)
    }
}

/// A number in decimal, with a minus sign where it is negative.
pub open spec fn signed_decimal(v: int) -> Seq<char> {
    if v < 0 {
        "-"@ + decimal((-v) as nat)
    } else {
        decimal(v as nat)
    }
}

/// The dimensions in decimal, with a comma and a blank between them.
pub open spec fn dimensions_text(shape: Seq<i64>) -> Seq<char>
    decreases shape.len(),
{
    if shape.len() == 0 {
        Seq::empty()
    } else if shape.len() == 1 {
        signed_decimal(shape[0] as int)
    } else {
        dimensions_text(shape.drop_last()) + ", "@ + signed_decimal(shape.last() as int)
    }
}

fn digit(d: u64) -> (text: &'static str)
    requires
        d < 10,
    ensures
        text@ == digit_text(d as int),
{
    if d == 0 {
        "0"
    } else if d == 1 {
        "1"
    } else if d == 2 {
        "2"
    } else if d == 3 {
        "3"
    } else if d == 4 {
        "4"
    } else if d == 5 {
        "5"
    } else if d == 6 {
        "6"
    } else if d == 7 {
        "7"
    } else if d == 8 {
        "8"
    } else {
        "9"
    }
}

fn push_decimal(text: &mut String, n: u64)
    ensures
        final(text)@ == old(text)@ + decimal(n as nat),
    decreases n,
{
    if n >= 10 {
        push_decimal(text, n / 10);
    }
    text.append(digit(n % 10));
    assert(text@ =~= old(text)@ + decimal(n as nat));
}

fn push_signed(text: &mut String, v: i64)
    ensures
        final(text)@ == old(text)@ + signed_decimal(v as int),
{
    if v < 0 {
        text.append("-");
        let magnitude: u64 = (-(v + 1)) as u64 + 1;
        push_decimal(text, magnitude);
        assert(text@ =~= old(text)@ + signed_decimal(v as int));
    } else {
        push_decimal(text, v as u64);
    }
}

fn push_dimensions(text: &mut String, shape: &Vec<i64>)
    ensures
        final(text)@ == old(text)@ + dimensions_text(shape@),
{
    let mut i: usize = 0;
    assert(shape@.take(0) =~= Seq::<i64>::empty());
    assert(text@ =~= old(text)@ + dimensions_text(shape@.take(0)));
    while i < shape.len()
        invariant
            i <= shape@.len(),
            text@ == old(text)@ + dimensions_text(shape@.take(i as int)),
        decreases shape@.len() - i,
    {
        let ghost before = text@;
        if i > 0 {
            text.append(", ");
        }
        push_signed(text, shape[i]);
        proof {
            let prefix = shape@.take(i + 1);
            assert(prefix.drop_last() =~= shape@.take(i as int));
            assert(prefix.last() == shape@[i as int]);
            if i == 0 {
                assert(prefix[0] == shape@[0]);
                assert(dimensions_text(shape@.take(0)) =~= Seq::<char>::empty());
            }
            assert(text@ =~= old(text)@ + dimensions_text(prefix));
        }
        i += 1;
    }
    assert(shape@.take(i as int) =~= shape@);
}

impl NativeObject {
    pub open spec fn name_spec(self) -> Seq<char> {
        match self {
            NativeObject::Value => "value"@,
            NativeObject::CheckpointState => "checkpoint state"@,
            NativeObject::TensorTypeAndShapeInfo => "tensor type and shape info"@,
        }
    }

    pub fn name(&self) -> (text: &'static str)
        ensures
            text@ == self.name_spec(),
    {
        match self {
            NativeObject::Value => "value",
            NativeObject::CheckpointState => "checkpoint state",
            NativeObject::TensorTypeAndShapeInfo => "tensor type and shape info",
        }
    }
}

impl Error {
    pub open spec fn message_spec(self) -> Seq<char> {
        match self {
            Error::InvalidDimension { index } => "Invalid dimension #"@ + decimal(index as nat)
                + "; all dimensions must be >= 1 when creating a tensor from raw data"@,
            Error::DimensionTooLarge { index } => "Invalid dimension #"@ + decimal(index as nat)
                + "; a dimension must not be greater than 9223372036854775807"@,
            Error::ElementCountMismatch { shape, computed, expected } =>
                "Cannot create a tensor from raw data; shape ["@ + dimensions_text(shape@) + "] ("@
                    + decimal(computed as nat)
                    + " elements) does not match the length of the data provided ("@ + decimal(
                    expected as nat,
                ) + " elements)"@,
            Error::NonContiguous =>
                "Array has a non-contiguous layout and cannot be used to construct a Tensor"@,
            Error::IncompatibleShape =>
                "The axes and strides do not describe an array over the data provided"@,
            Error::InteriorNul { position } => "nul byte found in provided data at position: "@
                + decimal(position as nat),
            Error::SizeOverflow => "The length of the data in bytes does not fit in usize"@,
            Error::Native { message, .. } => message@,
            Error::NullResult { object } => "expected the "@ + object.name_spec()
                + " to not be null"@,
            Error::TrainingUnavailable => "Training is not enabled in this build of the engine"@,
        }
    }

    /// What went wrong, in words. A dimension is named by its position
    /// counted from 1; a mismatch gives the shape and both counts; an
    /// engine's message is passed on as it came.
    pub fn message(&self) -> (text: String)
        ensures
            text@ == self.message_spec(),
    {
        match self {
            Error::InvalidDimension { index } => {
                let mut text = String::from_str("Invalid dimension #");
                push_decimal(&mut text, *index as u64);
                text.append("; all dimensions must be >= 1 when creating a tensor from raw data");
                text
            },
            Error::DimensionTooLarge { index } => {
                let mut text = String::from_str("Invalid dimension #");
                push_decimal(&mut text, *index as u64);
                text.append("; a dimension must not be greater than 9223372036854775807");
                text
            },
            Error::ElementCountMismatch { shape, computed, expected } => {
                let mut text = String::from_str("Cannot create a tensor from raw data; shape [");
                push_dimensions(&mut text, shape);
                text.append("] (");
                push_decimal(&mut text, *computed as u64);
                text.append(" elements) does not match the length of the data provided (");
                push_decimal(&mut text, *expected as u64);
                text.append(" elements)");
                text
            },
            Error::NonContiguous => String::from_str(
                "Array has a non-contiguous layout and cannot be used to construct a Tensor",
            ),
            Error::IncompatibleShape => String::from_str(
                "The axes and strides do not describe an array over the data provided",
            ),
            Error::InteriorNul { position } => {
                let mut text = String::from_str("nul byte found in provided data at position: ");
                push_decimal(&mut text, *position as u64);
                text
            },
            Error::SizeOverflow => String::from_str(
                "The length of the data in bytes does not fit in usize",
            ),
            Error::Native { message, .. } => message.clone(),
            Error::NullResult { object } => {
                let mut text = String::from_str("expected the ");
                text.append(object.name());
                text.append(" to not be null");
                text
            },
            Error::TrainingUnavailable => String::from_str(
                "Training is not enabled in this build of the engine",
            ),
        }
    }
}

} // verus!
