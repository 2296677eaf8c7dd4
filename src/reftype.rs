use crate::value::UntypedVal;
use std::marker::PhantomData;
use vstd::prelude::*;

verus! {

/// A reference type that a 64-bit value slot can hold, with the all-zero
/// pattern as its null reference.
pub trait Reftype: Sized {
    /// The 64-bit pattern of the reference.
    spec fn bits_of(&self) -> u64;

    /// Returns the 64-bit pattern of the reference.
    fn to_bits(&self) -> (r: u64)
        ensures
            r == self.bits_of(),
    ;

    /// Returns the reference that the 64-bit pattern `bits` stands for.
    fn from_bits(bits: u64) -> (r: Self)
        ensures
            r.bits_of() == bits,
    ;

    /// Returns `true` for the null reference.
    fn is_null(&self) -> (r: bool)
        ensures
            r == (self.bits_of() == 0),
    ;

    /// Two references with the same pattern are the same reference.
    proof fn lemma_bits_injective(a: Self, b: Self)
        requires
            a.bits_of() == b.bits_of(),
        ensures
            a == b,
    ;
}

/// A reference to a function, as the handle that the store gave it; zero
/// is the null reference.
#[derive(Debug, Clone, Copy, PartialEq, Eq, Structural)]
pub struct FuncRef(pub u64);

/// A reference to a host value, as the handle that the store gave it; zero
/// is the null reference.
#[derive(Debug, Clone, Copy, PartialEq, Eq, Structural)]
pub struct ExternRef(pub u64);

impl Reftype for FuncRef {
    open spec fn bits_of(&self) -> u64 {
        self.0
    }

    fn to_bits(&self) -> (r: u64) {
        self.0
    }

    fn from_bits(bits: u64) -> (r: Self) {
        FuncRef(bits)
    }

    fn is_null(&self) -> (r: bool) {
        self.0 == 0
    }

    proof fn lemma_bits_injective(a: Self, b: Self) {
    }
}

impl Reftype for ExternRef {
    open spec fn bits_of(&self) -> u64 {
        self.0
    }

    fn to_bits(&self) -> (r: u64) {
        self.0
    }

    fn from_bits(bits: u64) -> (r: Self) {
        ExternRef(bits)
    }

    fn is_null(&self) -> (r: bool) {
        self.0 == 0
    }

    proof fn lemma_bits_injective(a: Self, b: Self) {
    }
}

/// Converts between a reference of type `T` and the 64-bit pattern of a
/// value slot.
pub struct Transposer<T> {
    /// The 64-bit pattern.
    pub value: u64,
    /// The reference type read from and written to the pattern.
    pub reftype: PhantomData<T>,
}

impl<T: Reftype> Transposer<T> {
    /// Creates the null pattern: all bits zero.
    pub fn null() -> (r: Self)
        ensures
            r.value == 0,
    {
        Transposer { value: 0, reftype: PhantomData }
    }

    /// Creates the pattern of `reftype`.
    pub fn new(reftype: T) -> (r: Self)
        ensures
            r.value == reftype.bits_of(),
    {
        Transposer { value: reftype.to_bits(), reftype: PhantomData }
    }

    /// Takes the pattern of a value slot as it is.
    pub fn from_untyped(untyped: UntypedVal) -> (r: Self)
        ensures
            r.value == untyped.bits,
    {
        Transposer { value: u64::from(untyped), reftype: PhantomData }
    }

    /// Reads the pattern as a reference of type `T`.
    pub fn reftype(&self) -> (r: T)
        ensures
            r.bits_of() == self.value,
    {
        T::from_bits(self.value)
    }
}

/// The null pattern, read as a reference of any reference type, is that
/// type's null reference.
pub proof fn lemma_null_reads_as_null<T: Reftype>(t: Transposer<T>, r: T)
    requires
        t.value == 0,
        r.bits_of() == t.value,
    ensures
        r.bits_of() == 0,
{
}

/// Writing a reference into a slot pattern and reading it back gives the
/// same reference, for every reference type.
pub proof fn lemma_reftype_round_trip<T: Reftype>(x: T, t: Transposer<T>, r: T)
    requires
        t.value == x.bits_of(),
        r.bits_of() == t.value,
    ensures
        r == x,
{
    T::lemma_bits_injective(r, x);
}

} // verus!
