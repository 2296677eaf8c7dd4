use crate::error::TranslationError;
use vstd::prelude::*;

verus! {

/// The fuel after adding `amount` to `fuel`, or `None` where the sum
/// exceeds `u32::MAX`.
pub open spec fn bumped(fuel: BlockFuel, amount: int) -> Option<BlockFuel> {
    if fuel.0 + amount <= u32::MAX {
        Some(BlockFuel((fuel.0 + amount) as u32))
    } else {
        None
    }
}

/// The fuel accumulated to execute a block, at most `u32::MAX`.
#[derive(Debug, Clone, Copy, PartialEq, Eq, Structural)]
pub struct BlockFuel(pub u32);

impl BlockFuel {
    /// Narrows an accumulated total, failing where it exceeds `u32::MAX`.
    pub fn try_from(total: u64) -> (r: Result<Self, TranslationError>)
        ensures
            total <= u32::MAX ==> r == Ok::<BlockFuel, TranslationError>(BlockFuel(total as u32)),
            total > u32::MAX ==> r == Err::<BlockFuel, TranslationError>(
                TranslationError::BlockFuelOutOfBounds,
            ),
    {
        match u32::try_from(total) {
            Ok(total) => Ok(Self(total)),
            Err(_) => Err(TranslationError::BlockFuelOutOfBounds),
        }
    }

    /// Adds `amount` to the fuel, failing, with the fuel unchanged, where the
    /// sum exceeds `u32::MAX`.
    pub fn bump_by(&mut self, amount: u64) -> (r: Result<(), TranslationError>)
        ensures
            bumped(*old(self), amount as int) matches Some(f) ==> r is Ok && *final(self) == f,
            bumped(*old(self), amount as int) is None ==> r == Err::<(), TranslationError>(
                TranslationError::BlockFuelOutOfBounds,
            ) && *final(self) == *old(self),
    {
        let new_amount = match self.to_u64().checked_add(amount) {
            Some(sum) => sum,
            None => {
                return Err(TranslationError::BlockFuelOutOfBounds);
            },
        };
        match u32::try_from(new_amount) {
            Ok(total) => {
                self.0 = total;
                Ok(())
            },
            Err(_) => Err(TranslationError::BlockFuelOutOfBounds),
        }
    }

    /// Returns the fuel as `u64`.
    pub fn to_u64(self) -> (r: u64)
        ensures
            r == self.0,
    {
        self.0 as u64
    }
}

/// Bumping by `a` and then by `b` succeeds exactly where bumping by `a + b`
/// does, and both leave the same fuel.
pub proof fn lemma_bump_by_sums(start: BlockFuel, a: u64, b: u64)
    ensures
        (bumped(start, a as int) matches Some(mid) && bumped(mid, b as int) is Some) <==> bumped(
            start,
            a + b,
        ) is Some,
        bumped(start, a as int) matches Some(mid) ==> bumped(mid, b as int) == bumped(start, a + b),
{
}

} // verus!
