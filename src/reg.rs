use crate::error::TranslationError;
use vstd::prelude::*;

verus! {

/// The value of `x` reduced into the 16-bit signed range, as two's complement
/// arithmetic does.
pub open spec fn wrap_i16(x: int) -> i16 {
    (((x + 32768) % 65536) - 32768) as i16
}

/// An index into a register.
///
/// Non-negative indices address a slot of the frame on the value stack,
/// negative ones a function local constant.
#[derive(Debug, Clone, Copy, PartialEq, Eq, Structural, PartialOrd, Ord)]
pub struct Reg(pub i16);

impl From<i16> for Reg {
    fn from(index: i16) -> (r: Self)
        ensures
            r.0 == index,
    {
        Self(index)
    }
}

impl vstd::std_specs::convert::FromSpecImpl<i16> for Reg {
    open spec fn obeys_from_spec() -> bool {
        true
    }

    open spec fn from_spec(index: i16) -> Self {
        Reg(index)
    }
}

impl From<Reg> for i16 {
    fn from(reg: Reg) -> (r: Self)
        ensures
            r == reg.0,
    {
        reg.0
    }
}

impl vstd::std_specs::convert::FromSpecImpl<Reg> for i16 {
    open spec fn obeys_from_spec() -> bool {
        true
    }

    open spec fn from_spec(reg: Reg) -> Self {
        reg.0
    }
}

impl Reg {
    /// Creates a register from a local index, failing where the index does
    /// not fit the 16-bit signed register space.
    pub fn try_from(local_index: u32) -> (r: Result<Self, TranslationError>)
        ensures
            local_index <= i16::MAX ==> r == Ok::<Reg, TranslationError>(Reg(local_index as i16)),
            local_index > i16::MAX ==> r == Err::<Reg, TranslationError>(
                TranslationError::RegisterOutOfBounds,
            ),
    {
        match i16::try_from(local_index) {
            Ok(index) => Ok(Self::from(index)),
            Err(_) => Err(TranslationError::RegisterOutOfBounds),
        }
    }

    /// Returns the `n`-th next register, wrapping around the 16-bit range.
    pub fn next_n(self, n: u16) -> (r: Self)
        ensures
            r.0 == wrap_i16(self.0 + n),
    {
        let sum: i32 = self.0 as i32 + n as i32;
        let wrapped: i32 = if sum > i16::MAX as i32 {
            sum - 65536
        } else {
            sum
        };
        Self(wrapped as i16)
    }

    /// Returns the `n`-th previous register, wrapping around the 16-bit range.
    pub fn prev_n(self, n: u16) -> (r: Self)
        ensures
            r.0 == wrap_i16(self.0 - n),
    {
        let diff: i32 = self.0 as i32 - n as i32;
        let wrapped: i32 = if diff < i16::MIN as i32 {
            diff + 65536
        } else {
            diff
        };
        Self(wrapped as i16)
    }

    /// Returns the register with the next contiguous index.
    pub fn next(self) -> (r: Self)
        ensures
            r.0 == wrap_i16(self.0 + 1),
    {
        self.next_n(1)
    }

    /// Returns the register with the previous contiguous index.
    pub fn prev(self) -> (r: Self)
        ensures
            r.0 == wrap_i16(self.0 - 1),
    {
        self.prev_n(1)
    }

    /// Returns `true` if this register refers to a function local constant.
    pub fn is_const(self) -> (r: bool)
        ensures
            r == (self.0 < 0),
    {
        self.0 < 0
    }
}

/// A contiguous run of registers, given by its first register.
#[derive(Debug, Clone, Copy, PartialEq, Eq, Structural)]
pub struct RegSpan(pub Reg);

impl RegSpan {
    /// Creates a span that starts at `head`.
    pub fn new(head: Reg) -> (r: Self)
        ensures
            r.0 == head,
    {
        Self(head)
    }

    /// Returns the first register of the span.
    pub fn head(self) -> (r: Reg)
        ensures
            r == self.0,
    {
        self.0
    }
}

/// A span of registers together with the number of registers in it.
#[derive(Debug, Clone, Copy, PartialEq, Eq, Structural)]
pub struct BoundedRegSpan {
    /// Where the registers start.
    pub span: RegSpan,
    /// How many registers there are.
    pub len: u16,
}

impl BoundedRegSpan {
    /// Creates a span of `len` registers that starts at `span`'s head.
    pub fn new(span: RegSpan, len: u16) -> (r: Self)
        ensures
            r == (BoundedRegSpan { span, len }),
    {
        Self { span, len }
    }

    /// Returns the span without its length.
    pub fn span(self) -> (r: RegSpan)
        ensures
            r == self.span,
    {
        self.span
    }

    /// Returns the number of registers in the span.
    pub fn len(self) -> (r: u16)
        ensures
            r == self.len,
    {
        self.len
    }
}

/// Stepping `n` registers forward and then `n` back gives the register one
/// started from, wrapping at both ends of the 16-bit range.
pub proof fn lemma_next_prev_inverse(r: Reg, n: u16)
    ensures
        wrap_i16(wrap_i16(r.0 + n) - n) == r.0,
{
}

} // verus!
