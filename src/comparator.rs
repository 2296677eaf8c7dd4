use crate::offset::BranchOffset;
use crate::value::UntypedVal;
use vstd::prelude::*;

verus! {

/// The number of comparators: their codes are `0` up to this bound, exclusive.
pub const NUM_COMPARATORS: u32 = 38;

/// The comparison of a fused compare-and-branch instruction.
#[derive(Debug, Clone, Copy, PartialEq, Eq, Structural)]
pub enum Comparator {
    I32Eq,
    I32Ne,
    I32LtS,
    I32LtU,
    I32LeS,
    I32LeU,
    I32GtS,
    I32GtU,
    I32GeS,
    I32GeU,
    I32And,
    I32Or,
    I32Xor,
    I32AndEqz,
    I32OrEqz,
    I32XorEqz,
    I64Eq,
    I64Ne,
    I64LtS,
    I64LtU,
    I64LeS,
    I64LeU,
    I64GtS,
    I64GtU,
    I64GeS,
    I64GeU,
    F32Eq,
    F32Ne,
    F32Lt,
    F32Le,
    F32Gt,
    F32Ge,
    F64Eq,
    F64Ne,
    F64Lt,
    F64Le,
    F64Gt,
    F64Ge,
}

/// The 32-bit code of a comparator.
pub open spec fn comparator_code(cmp: Comparator) -> u32 {
    match cmp {
        Comparator::I32Eq => 0,
        Comparator::I32Ne => 1,
        Comparator::I32LtS => 2,
        Comparator::I32LtU => 3,
        Comparator::I32LeS => 4,
        Comparator::I32LeU => 5,
        Comparator::I32GtS => 6,
        Comparator::I32GtU => 7,
        Comparator::I32GeS => 8,
        Comparator::I32GeU => 9,
        Comparator::I32And => 10,
        Comparator::I32Or => 11,
        Comparator::I32Xor => 12,
        Comparator::I32AndEqz => 13,
        Comparator::I32OrEqz => 14,
        Comparator::I32XorEqz => 15,
        Comparator::I64Eq => 16,
        Comparator::I64Ne => 17,
        Comparator::I64LtS => 18,
        Comparator::I64LtU => 19,
        Comparator::I64LeS => 20,
        Comparator::I64LeU => 21,
        Comparator::I64GtS => 22,
        Comparator::I64GtU => 23,
        Comparator::I64GeS => 24,
        Comparator::I64GeU => 25,
        Comparator::F32Eq => 26,
        Comparator::F32Ne => 27,
        Comparator::F32Lt => 28,
        Comparator::F32Le => 29,
        Comparator::F32Gt => 30,
        Comparator::F32Ge => 31,
        Comparator::F64Eq => 32,
        Comparator::F64Ne => 33,
        Comparator::F64Lt => 34,
        Comparator::F64Le => 35,
        Comparator::F64Gt => 36,
        Comparator::F64Ge => 37,
    }
}

impl Comparator {
    /// Returns the 32-bit code of the comparator.
    pub fn to_u32(self) -> (r: u32)
        ensures
            r == comparator_code(self),
            r < NUM_COMPARATORS,
    {
        match self {
            Comparator::I32Eq => 0,
            Comparator::I32Ne => 1,
            Comparator::I32LtS => 2,
            Comparator::I32LtU => 3,
            Comparator::I32LeS => 4,
            Comparator::I32LeU => 5,
            Comparator::I32GtS => 6,
            Comparator::I32GtU => 7,
            Comparator::I32GeS => 8,
            Comparator::I32GeU => 9,
            Comparator::I32And => 10,
            Comparator::I32Or => 11,
            Comparator::I32Xor => 12,
            Comparator::I32AndEqz => 13,
            Comparator::I32OrEqz => 14,
            Comparator::I32XorEqz => 15,
            Comparator::I64Eq => 16,
            Comparator::I64Ne => 17,
            Comparator::I64LtS => 18,
            Comparator::I64LtU => 19,
            Comparator::I64LeS => 20,
            Comparator::I64LeU => 21,
            Comparator::I64GtS => 22,
            Comparator::I64GtU => 23,
            Comparator::I64GeS => 24,
            Comparator::I64GeU => 25,
            Comparator::F32Eq => 26,
            Comparator::F32Ne => 27,
            Comparator::F32Lt => 28,
            Comparator::F32Le => 29,
            Comparator::F32Gt => 30,
            Comparator::F32Ge => 31,
            Comparator::F64Eq => 32,
            Comparator::F64Ne => 33,
            Comparator::F64Lt => 34,
            Comparator::F64Le => 35,
            Comparator::F64Gt => 36,
            Comparator::F64Ge => 37,
        }
    }

    /// Returns the comparator with the given code, or `None` if no
    /// comparator has it.
    pub fn from_u32(code: u32) -> (r: Option<Comparator>)
        ensures
            code < NUM_COMPARATORS <==> r is Some,
            r matches Some(cmp) ==> comparator_code(cmp) == code,
    {
        match code {
            0 => Some(Comparator::I32Eq),
            1 => Some(Comparator::I32Ne),
            2 => Some(Comparator::I32LtS),
            3 => Some(Comparator::I32LtU),
            4 => Some(Comparator::I32LeS),
            5 => Some(Comparator::I32LeU),
            6 => Some(Comparator::I32GtS),
            7 => Some(Comparator::I32GtU),
            8 => Some(Comparator::I32GeS),
            9 => Some(Comparator::I32GeU),
            10 => Some(Comparator::I32And),
            11 => Some(Comparator::I32Or),
            12 => Some(Comparator::I32Xor),
            13 => Some(Comparator::I32AndEqz),
            14 => Some(Comparator::I32OrEqz),
            15 => Some(Comparator::I32XorEqz),
            16 => Some(Comparator::I64Eq),
            17 => Some(Comparator::I64Ne),
            18 => Some(Comparator::I64LtS),
            19 => Some(Comparator::I64LtU),
            20 => Some(Comparator::I64LeS),
            21 => Some(Comparator::I64LeU),
            22 => Some(Comparator::I64GtS),
            23 => Some(Comparator::I64GtU),
            24 => Some(Comparator::I64GeS),
            25 => Some(Comparator::I64GeU),
            26 => Some(Comparator::F32Eq),
            27 => Some(Comparator::F32Ne),
            28 => Some(Comparator::F32Lt),
            29 => Some(Comparator::F32Le),
            30 => Some(Comparator::F32Gt),
            31 => Some(Comparator::F32Ge),
            32 => Some(Comparator::F64Eq),
            33 => Some(Comparator::F64Ne),
            34 => Some(Comparator::F64Lt),
            35 => Some(Comparator::F64Le),
            36 => Some(Comparator::F64Gt),
            37 => Some(Comparator::F64Ge),
            _ => None,
        }
    }
}

/// The packed word of a comparator and an offset: the comparator's code
/// shifted into the upper 32 bits, combined by bitwise AND with the offset
/// sign-extended to 64 bits.
///
/// The AND keeps the upper half only where the offset is negative and clears
/// the lower half in every case, so the offset never survives the packing.
pub open spec fn packed_word(cmp: Comparator, offset: BranchOffset) -> u64 {
    ((comparator_code(cmp) as u64) << 32u64) & (offset.0 as u64)
}

/// The comparator and the 32-bit offset of a fallback conditional branch.
#[derive(Debug, Clone, Copy, PartialEq, Eq, Structural)]
pub struct ComparatorAndOffset {
    /// The comparison of the branch.
    pub cmp: Comparator,
    /// The offset of the branch target.
    pub offset: BranchOffset,
}

impl ComparatorAndOffset {
    /// Creates a pair of a comparator and an offset.
    pub fn new(cmp: Comparator, offset: BranchOffset) -> (r: Self)
        ensures
            r == (ComparatorAndOffset { cmp, offset }),
    {
        Self { cmp, offset }
    }

    /// Decodes a packed word: the comparator from the upper 32 bits, the
    /// offset from the lower 32 bits. Returns `None` where the upper half is
    /// no comparator's code.
    pub fn from_u64(value: u64) -> (r: Option<Self>)
        ensures
            (value >> 32u64) < NUM_COMPARATORS as u64 <==> r is Some,
            r matches Some(p) ==> comparator_code(p.cmp) == (value >> 32u64) && p.offset.0 == (
            value & 0xFFFF_FFFFu64) as u32 as i32,
    {
        proof {
            assert((value >> 32u64) <= 0xFFFF_FFFFu64 && (value & 0xFFFF_FFFFu64) <= 0xFFFF_FFFFu64)
                by (bit_vector);
        }
        let hi: u32 = (value >> 32u64) as u32;
        let lo: u32 = (value & 0xFFFF_FFFFu64) as u32;
        let cmp = match Comparator::from_u32(hi) {
            Some(cmp) => cmp,
            None => {
                return None;
            },
        };
        let offset = BranchOffset::from(#[verifier::truncate] (lo as i32));
        Some(Self { cmp, offset })
    }

    /// Decodes a packed word held in a value slot, as
    /// [`ComparatorAndOffset::from_u64`] does.
    pub fn from_untyped(value: UntypedVal) -> (r: Option<Self>)
        ensures
            (value.bits >> 32u64) < NUM_COMPARATORS as u64 <==> r is Some,
            r matches Some(p) ==> comparator_code(p.cmp) == (value.bits >> 32u64) && p.offset.0
                == (value.bits & 0xFFFF_FFFFu64) as u32 as i32,
    {
        Self::from_u64(u64::from(value))
    }

    /// Packs the comparator and the offset into one word.
    pub fn as_u64(&self) -> (r: u64)
        ensures
            r == packed_word(self.cmp, self.offset),
    {
        let hi: u64 = self.cmp.to_u32() as u64;
        let lo: u64 = self.offset.to_i32() as u64;
        (hi << 32u64) & lo
    }

    /// Packs the pair into a value slot, as
    /// [`ComparatorAndOffset::as_u64`] does.
    pub fn to_untyped(&self) -> (r: UntypedVal)
        ensures
            r.bits == packed_word(self.cmp, self.offset),
    {
        UntypedVal::from(self.as_u64())
    }
}

/// What the packing keeps: the comparator's code in the upper half where the
/// offset is negative, and nothing otherwise.
pub proof fn lemma_packed_word(cmp: Comparator, offset: BranchOffset)
    ensures
        offset.0 < 0 ==> packed_word(cmp, offset) == (comparator_code(cmp) as u64) << 32u64,
        offset.0 >= 0 ==> packed_word(cmp, offset) == 0,
{
    let c: u64 = comparator_code(cmp) as u64;
    let o: i32 = offset.0;
    assert(o < 0 ==> (c << 32u64) & (o as u64) == c << 32u64) by (bit_vector)
        requires
            c < 38,
    ;
    assert(o >= 0 ==> (c << 32u64) & (o as u64) == 0) by (bit_vector)
        requires
            c < 38,
    ;
}

/// Decoding a packed pair gives back the comparator only where the offset
/// is negative, and the offset never: a pair comes back as
/// `(cmp, 0)` for a negative offset and as `(I32Eq, 0)` otherwise.
pub proof fn lemma_packing_loses_offset(cmp: Comparator, offset: BranchOffset)
    ensures
        offset.0 < 0 ==> (packed_word(cmp, offset) >> 32u64) == comparator_code(cmp) && (
        packed_word(cmp, offset) & 0xFFFF_FFFFu64) == 0,
        offset.0 >= 0 ==> (packed_word(cmp, offset) >> 32u64) == comparator_code(Comparator::I32Eq)
            && (packed_word(cmp, offset) & 0xFFFF_FFFFu64) == 0,
{
    lemma_packed_word(cmp, offset);
    let c: u64 = comparator_code(cmp) as u64;
    assert(((c << 32u64) >> 32u64) == c && ((c << 32u64) & 0xFFFF_FFFFu64) == 0) by (bit_vector)
        requires
            c < 38,
    ;
    assert((0u64 >> 32u64) == 0u64 && (0u64 & 0xFFFF_FFFFu64) == 0u64) by (bit_vector);
}

} // verus!
