use vstd::prelude::*;

verus! {

/// Errors reported while translating a function into bytecode.
#[derive(Debug, Clone, Copy, PartialEq, Eq, Structural)]
pub enum TranslationError {
    /// A register index does not fit the 16-bit signed register space.
    RegisterOutOfBounds,
    /// A branch offset does not fit its encoding.
    BranchOffsetOutOfBounds,
    /// The fuel accumulated for a block does not fit 32 bits.
    BlockFuelOutOfBounds,
}

} // verus!
