use vstd::prelude::*;

use crate::error::Error;

verus! {

/// The closed set of hardware-transferable scalar datatypes.  These tags are
/// the only basis for type-checking buffer element types and scalar argument
/// values; no other datatype may flow through a buffer or an argument.
#[derive(Clone, Copy, Debug, PartialEq, Eq, Structural)]
pub enum ScalarType {
    U32,
    I32,
    U64,
    I64,
    F32,
    F64,
}

/// Size in bytes of one value of the given scalar datatype.
pub open spec fn scalar_size(t: ScalarType) -> usize {
    match t {
        ScalarType::U32 => 4,
        ScalarType::I32 => 4,
        ScalarType::F32 => 4,
        ScalarType::U64 => 8,
        ScalarType::I64 => 8,
        ScalarType::F64 => 8,
    }
}

/// Runtime counterpart of [`scalar_size`].
pub fn scalar_size_exec(t: ScalarType) -> (n: usize)
    ensures
        n == scalar_size(t),
{
    match t {
        ScalarType::U32 => 4,
        ScalarType::I32 => 4,
        ScalarType::F32 => 4,
        ScalarType::U64 => 8,
        ScalarType::I64 => 8,
        ScalarType::F64 => 8,
    }
}

/// A capability restricting which element types may instantiate a buffer or
/// an argument: exactly the types whose values the hardware can transfer.
/// Each implementor names its tag in the closed [`ScalarType`] set and its
/// fill value for freshly allocated memory.
pub trait HardwareDatatype: Sized + Copy {
    /// The tag of this type in the closed scalar-type set.
    spec fn spec_type_tag() -> ScalarType;

    /// The value a freshly allocated buffer is filled with.
    spec fn spec_zero() -> Self;

    fn type_tag() -> (t: ScalarType)
        ensures
            t == Self::spec_type_tag(),
    ;

    fn zero() -> (z: Self)
        ensures
            z == Self::spec_zero(),
    ;
}

impl HardwareDatatype for u32 {
    open spec fn spec_type_tag() -> ScalarType {
        ScalarType::U32
    }

    open spec fn spec_zero() -> Self {
        0u32
    }

    fn type_tag() -> (t: ScalarType) {
        ScalarType::U32
    }

    fn zero() -> (z: Self) {
        0u32
    }
}

impl HardwareDatatype for i32 {
    open spec fn spec_type_tag() -> ScalarType {
        ScalarType::I32
    }

    open spec fn spec_zero() -> Self {
        0i32
    }

    fn type_tag() -> (t: ScalarType) {
        ScalarType::I32
    }

    fn zero() -> (z: Self) {
        0i32
    }
}

impl HardwareDatatype for u64 {
    open spec fn spec_type_tag() -> ScalarType {
        ScalarType::U64
    }

    open spec fn spec_zero() -> Self {
        0u64
    }

    fn type_tag() -> (t: ScalarType) {
        ScalarType::U64
    }

    fn zero() -> (z: Self) {
        0u64
    }
}

impl HardwareDatatype for i64 {
    open spec fn spec_type_tag() -> ScalarType {
        ScalarType::I64
    }

    open spec fn spec_zero() -> Self {
        0i64
    }

    fn type_tag() -> (t: ScalarType) {
        ScalarType::I64
    }

    fn zero() -> (z: Self) {
        0i64
    }
}

/// Actual argument data supplied at a kernel call site: either a bare scalar
/// value passed by value, or a reference to host-resident element data.
pub enum Argument<'a, T: HardwareDatatype> {
    Scalar(T),
    Buffer(&'a [T]),
}

/// What one kernel call-site position expects: a scalar passed by value, or
/// a buffer reference whose element type must match the carried tag.
#[derive(Clone, Copy, Debug, PartialEq, Eq, Structural)]
pub enum ArgumentType {
    Scalar,
    Buffer(ScalarType),
}

/// The ordered list of expected argument types for one kernel, indexed
/// identically to the kernel's native argument order.
pub type ArgumentMapping = Vec<ArgumentType>;

/// The expected shape of a supplied argument value.
pub fn argument_type_of<'a, T: HardwareDatatype>(arg: &Argument<'a, T>) -> (t: ArgumentType)
    ensures
        t == (match *arg {
            Argument::Scalar(_) => ArgumentType::Scalar,
            Argument::Buffer(_) => ArgumentType::Buffer(T::spec_type_tag()),
        }),
{
    match arg {
        Argument::Scalar(_) => ArgumentType::Scalar,
        Argument::Buffer(_) => ArgumentType::Buffer(T::type_tag()),
    }
}

/// Whether a supplied argument list matches an expected mapping position by
/// position: same length, and at every position the same kind, with the same
/// element type at buffer positions.
pub open spec fn arguments_match(supplied: Seq<ArgumentType>, expected: Seq<ArgumentType>) -> bool {
    &&& supplied.len() == expected.len()
    &&& forall|i: int| 0 <= i < supplied.len() ==> supplied[i] == expected[i]
}

/// Validates a kernel call's supplied argument shapes against the kernel's
/// stored mapping.  The length is checked first: a list of the wrong length
/// always fails with `ArgumentNumberMismatchError`, before any per-position
/// check.  With matching lengths, any position whose kind or element type
/// disagrees with the mapping fails with `PassVecToScalarArgumentError`.
pub fn validate_arguments(supplied: &Vec<ArgumentType>, expected: &Vec<ArgumentType>) -> (r: Result<
    (),
    Error,
>)
    ensures
        r is Ok <==> arguments_match(supplied@, expected@),
        r == Err::<(), Error>(Error::ArgumentNumberMismatchError) <==> supplied@.len()
            != expected@.len(),
        r == Err::<(), Error>(Error::PassVecToScalarArgumentError) <==> (supplied@.len()
            == expected@.len() && exists|i: int|
            0 <= i < supplied@.len() && supplied@[i] != expected@[i]),
{
    if supplied.len() != expected.len() {
        return Err(Error::ArgumentNumberMismatchError);
    }
    let n = supplied.len();
    for i in 0..n
        invariant
            n == supplied@.len() == expected@.len(),
            forall|j: int| 0 <= j < i ==> supplied@[j] == expected@[j],
    {
        if supplied[i] != expected[i] {
            return Err(Error::PassVecToScalarArgumentError);
        }
    }
    Ok(())
}

} // verus!
