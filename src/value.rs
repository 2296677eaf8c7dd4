use vstd::prelude::*;

verus! {

/// A runtime value as its uniform 64-bit pattern, whatever its type.
#[derive(Debug, Clone, Copy, PartialEq, Eq, Structural)]
pub struct UntypedVal {
    pub bits: u64,
}

impl From<u64> for UntypedVal {
    fn from(bits: u64) -> (r: Self)
        ensures
            r.bits == bits,
    {
        Self { bits }
    }
}

impl vstd::std_specs::convert::FromSpecImpl<u64> for UntypedVal {
    open spec fn obeys_from_spec() -> bool {
        true
    }

    open spec fn from_spec(bits: u64) -> Self {
        UntypedVal { bits }
    }
}

impl From<UntypedVal> for u64 {
    fn from(value: UntypedVal) -> (r: Self)
        ensures
            r == value.bits,
    {
        value.bits
    }
}

impl vstd::std_specs::convert::FromSpecImpl<UntypedVal> for u64 {
    open spec fn obeys_from_spec() -> bool {
        true
    }

    open spec fn from_spec(value: UntypedVal) -> Self {
        value.bits
    }
}

impl From<u32> for UntypedVal {
    /// Zero-extends a 32-bit integer.
    fn from(value: u32) -> (r: Self)
        ensures
            r.bits == value,
    {
        Self { bits: value as u64 }
    }
}

impl vstd::std_specs::convert::FromSpecImpl<u32> for UntypedVal {
    open spec fn obeys_from_spec() -> bool {
        true
    }

    open spec fn from_spec(value: u32) -> Self {
        UntypedVal { bits: value as u64 }
    }
}

impl From<i64> for UntypedVal {
    /// Stores a 64-bit integer as its two's complement pattern.
    fn from(value: i64) -> (r: Self)
        ensures
            r.bits == value as u64,
    {
        Self { bits: value as u64 }
    }
}

impl vstd::std_specs::convert::FromSpecImpl<i64> for UntypedVal {
    open spec fn obeys_from_spec() -> bool {
        true
    }

    open spec fn from_spec(value: i64) -> Self {
        UntypedVal { bits: value as u64 }
    }
}

impl UntypedVal {
    /// Reads the value as a condition: any pattern but zero is `true`.
    pub fn to_bool(self) -> (r: bool)
        ensures
            r == (self.bits != 0),
    {
        self.bits != 0
    }
}

/// A 32-bit immediate whose meaning depends on the type of its use.
#[derive(Debug, Clone, Copy, PartialEq, Eq, Structural)]
pub struct AnyConst32(pub u32);

impl From<u32> for AnyConst32 {
    fn from(bits: u32) -> (r: Self)
        ensures
            r.0 == bits,
    {
        Self(bits)
    }
}

impl vstd::std_specs::convert::FromSpecImpl<u32> for AnyConst32 {
    open spec fn obeys_from_spec() -> bool {
        true
    }

    open spec fn from_spec(bits: u32) -> Self {
        AnyConst32(bits)
    }
}

impl From<AnyConst32> for u32 {
    fn from(value: AnyConst32) -> (r: Self)
        ensures
            r == value.0,
    {
        value.0
    }
}

impl vstd::std_specs::convert::FromSpecImpl<AnyConst32> for u32 {
    open spec fn obeys_from_spec() -> bool {
        true
    }

    open spec fn from_spec(value: AnyConst32) -> Self {
        value.0
    }
}

/// A 64-bit integer immediate that fits 32 signed bits.
#[derive(Debug, Clone, Copy, PartialEq, Eq, Structural)]
pub struct I64Const32(pub i32);

impl From<i32> for I64Const32 {
    fn from(value: i32) -> (r: Self)
        ensures
            r.0 == value,
    {
        Self(value)
    }
}

impl vstd::std_specs::convert::FromSpecImpl<i32> for I64Const32 {
    open spec fn obeys_from_spec() -> bool {
        true
    }

    open spec fn from_spec(value: i32) -> Self {
        I64Const32(value)
    }
}

impl From<I64Const32> for i64 {
    /// Sign-extends the immediate.
    fn from(value: I64Const32) -> (r: Self)
        ensures
            r == value.0,
    {
        value.0 as i64
    }
}

impl vstd::std_specs::convert::FromSpecImpl<I64Const32> for i64 {
    open spec fn obeys_from_spec() -> bool {
        true
    }

    open spec fn from_spec(value: I64Const32) -> Self {
        value.0 as i64
    }
}

} // verus!
