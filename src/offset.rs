use crate::error::TranslationError;
use vstd::prelude::*;

verus! {

/// The position of an instruction in a function's instruction sequence.
#[derive(Debug, Clone, Copy, PartialEq, Eq, Structural)]
pub struct Instr(pub u32);

impl Instr {
    /// Creates an instruction position from its index.
    pub fn from_u32(index: u32) -> (r: Self)
        ensures
            r.0 == index,
    {
        Self(index)
    }

    /// Returns the index of the instruction position.
    pub fn into_u32(self) -> (r: u32)
        ensures
            r == self.0,
    {
        self.0
    }
}

/// A signed 32-bit offset for branch instructions.
///
/// The value `0` marks an offset that has not been resolved yet: a branch
/// never targets its own position.
#[derive(Debug, Clone, Copy, PartialEq, Eq, Structural)]
pub struct BranchOffset(pub i32);

impl From<i32> for BranchOffset {
    fn from(offset: i32) -> (r: Self)
        ensures
            r.0 == offset,
    {
        Self(offset)
    }
}

impl vstd::std_specs::convert::FromSpecImpl<i32> for BranchOffset {
    open spec fn obeys_from_spec() -> bool {
        true
    }

    open spec fn from_spec(offset: i32) -> Self {
        BranchOffset(offset)
    }
}

impl BranchOffset {
    /// Creates an unresolved branch offset.
    pub fn uninit() -> (r: Self)
        ensures
            r.0 == 0,
    {
        Self(0)
    }

    /// Creates the resolved offset of a forward branch from `src` to `dst`.
    ///
    /// Fails where the distance does not fit 32 signed bits.
    pub fn from_src_to_dst(src: Instr, dst: Instr) -> (r: Result<Self, TranslationError>)
        requires
            src.0 < dst.0,
        ensures
            dst.0 - src.0 <= i32::MAX ==> r == Ok::<BranchOffset, TranslationError>(
                BranchOffset((dst.0 - src.0) as i32),
            ),
            dst.0 - src.0 > i32::MAX ==> r == Err::<BranchOffset, TranslationError>(
                TranslationError::BranchOffsetOutOfBounds,
            ),
    {
        let src: i64 = src.into_u32() as i64;
        let dst: i64 = dst.into_u32() as i64;
        let offset: i64 = dst - src;
        match i32::try_from(offset) {
            Ok(offset) => Ok(Self(offset)),
            Err(_) => Err(TranslationError::BranchOffsetOutOfBounds),
        }
    }

    /// Returns `true` if the offset has been resolved.
    pub fn is_init(self) -> (r: bool)
        ensures
            r == (self.0 != 0),
    {
        self.to_i32() != 0
    }

    /// Resolves an unresolved offset with a resolved one.
    pub fn init(&mut self, valid_offset: BranchOffset)
        requires
            valid_offset.0 != 0,
            old(self).0 == 0,
        ensures
            *final(self) == valid_offset,
    {
        *self = valid_offset;
    }

    /// Returns the `i32` representation of the offset.
    pub fn to_i32(self) -> (r: i32)
        ensures
            r == self.0,
    {
        self.0
    }
}

/// A signed 16-bit offset for branch instructions, with the same convention
/// for unresolved offsets as [`BranchOffset`].
#[derive(Debug, Clone, Copy, PartialEq, Eq, Structural)]
pub struct BranchOffset16(pub i16);

impl From<i16> for BranchOffset16 {
    fn from(offset: i16) -> (r: Self)
        ensures
            r.0 == offset,
    {
        Self(offset)
    }
}

impl vstd::std_specs::convert::FromSpecImpl<i16> for BranchOffset16 {
    open spec fn obeys_from_spec() -> bool {
        true
    }

    open spec fn from_spec(offset: i16) -> Self {
        BranchOffset16(offset)
    }
}

impl From<BranchOffset16> for BranchOffset {
    fn from(offset: BranchOffset16) -> (r: Self)
        ensures
            r.0 == offset.0,
    {
        Self(offset.to_i16() as i32)
    }
}

impl vstd::std_specs::convert::FromSpecImpl<BranchOffset16> for BranchOffset {
    open spec fn obeys_from_spec() -> bool {
        true
    }

    open spec fn from_spec(offset: BranchOffset16) -> Self {
        BranchOffset(offset.0 as i32)
    }
}

impl BranchOffset16 {
    /// Narrows a 32-bit offset, failing where it does not fit 16 signed bits.
    pub fn try_from(offset: BranchOffset) -> (r: Result<Self, TranslationError>)
        ensures
            i16::MIN <= offset.0 <= i16::MAX ==> r == Ok::<BranchOffset16, TranslationError>(
                BranchOffset16(offset.0 as i16),
            ),
            !(i16::MIN <= offset.0 <= i16::MAX) ==> r == Err::<BranchOffset16, TranslationError>(
                TranslationError::BranchOffsetOutOfBounds,
            ),
    {
        match i16::try_from(offset.to_i32()) {
            Ok(offset16) => Ok(Self(offset16)),
            Err(_) => Err(TranslationError::BranchOffsetOutOfBounds),
        }
    }

    /// Returns `true` if the offset has been resolved.
    pub fn is_init(self) -> (r: bool)
        ensures
            r == (self.0 != 0),
    {
        self.to_i16() != 0
    }

    /// Resolves an unresolved offset with a resolved one.
    ///
    /// Fails, leaving `self` unresolved, where `valid_offset` does not fit
    /// 16 signed bits.
    pub fn init(&mut self, valid_offset: BranchOffset) -> (r: Result<(), TranslationError>)
        requires
            valid_offset.0 != 0,
            old(self).0 == 0,
        ensures
            i16::MIN <= valid_offset.0 <= i16::MAX ==> r is Ok && final(self).0 == valid_offset.0,
            !(i16::MIN <= valid_offset.0 <= i16::MAX) ==> r == Err::<(), TranslationError>(
                TranslationError::BranchOffsetOutOfBounds,
            ) && *final(self) == *old(self),
    {
        let valid_offset16 = Self::try_from(valid_offset)?;
        *self = valid_offset16;
        Ok(())
    }

    /// Returns the `i16` representation of the offset.
    pub fn to_i16(self) -> (r: i16)
        ensures
            r == self.0,
    {
        self.0
    }
}

} // verus!
