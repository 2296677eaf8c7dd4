use vstd::prelude::*;

verus! {

/// A function index.
#[derive(Debug, Clone, Copy, PartialEq, Eq, Structural)]
pub struct Func(pub u32);

impl From<u32> for Func {
    fn from(index: u32) -> (r: Self)
        ensures
            r.0 == index,
    {
        Self(index)
    }
}

impl vstd::std_specs::convert::FromSpecImpl<u32> for Func {
    open spec fn obeys_from_spec() -> bool {
        true
    }

    open spec fn from_spec(index: u32) -> Self {
        Func(index)
    }
}

impl From<Func> for u32 {
    fn from(index: Func) -> (r: Self)
        ensures
            r == index.0,
    {
        index.0
    }
}

impl vstd::std_specs::convert::FromSpecImpl<Func> for u32 {
    open spec fn obeys_from_spec() -> bool {
        true
    }

    open spec fn from_spec(index: Func) -> Self {
        index.0
    }
}

/// The four bytes of a table index, least significant first, read back as
/// the index.
pub open spec fn index_of_bytes(b: [u8; 4]) -> u32 {
    (b[0] as u32) | ((b[1] as u32) << 8u32) | ((b[2] as u32) << 16u32) | ((b[3] as u32) << 24u32)
}

/// A table index.
///
/// Held as four bytes, so that it needs no alignment inside packed
/// instruction operands. The bytes never leave the process and are read
/// only through `u32::from`, so their order is a private choice: they are
/// kept least significant first on every target, which states the layout
/// once for all machines and lets it be proved, where the machine's own
/// byte order would differ from one target to the next.
#[derive(Debug, Clone, Copy, PartialEq, Eq)]
pub struct Table([u8; 4]);

impl View for Table {
    type V = u32;

    closed spec fn view(&self) -> u32 {
        index_of_bytes(self.0)
    }
}

/// Table indices are equal exactly when the numbers they hold are equal,
/// so a table index built from the number that `t` holds is `t` again:
/// `Table::from(u32::from(t)) == t`.
pub proof fn lemma_table_round_trip(t: Table, r: Table)
    requires
        r@ == t@,
    ensures
        r == t,
{
    let a = t.0;
    let b = r.0;
    let (a0, a1, a2, a3) = (a[0], a[1], a[2], a[3]);
    let (b0, b1, b2, b3) = (b[0], b[1], b[2], b[3]);
    assert(a0 == b0 && a1 == b1 && a2 == b2 && a3 == b3) by (bit_vector)
        requires
            (a0 as u32) | ((a1 as u32) << 8u32) | ((a2 as u32) << 16u32) | ((a3 as u32) << 24u32)
                == (b0 as u32) | ((b1 as u32) << 8u32) | ((b2 as u32) << 16u32) | ((b3 as u32)
                << 24u32),
    ;
    assert(a =~= b);
}

impl Default for Table {
    fn default() -> (r: Self)
        ensures
            r@ == 0,
    {
        Self::from(0u32)
    }
}

impl From<u32> for Table {
    fn from(index: u32) -> (r: Self)
        ensures
            r@ == index,
    {
        let b0: u8 = #[verifier::truncate] (index as u8);
        let b1: u8 = #[verifier::truncate] ((index >> 8u32) as u8);
        let b2: u8 = #[verifier::truncate] ((index >> 16u32) as u8);
        let b3: u8 = #[verifier::truncate] ((index >> 24u32) as u8);
        proof {
            assert((b0 as u32) | ((b1 as u32) << 8u32) | ((b2 as u32) << 16u32) | ((b3 as u32)
                << 24u32) == index) by (bit_vector)
                requires
                    b0 == index as u8,
                    b1 == (index >> 8u32) as u8,
                    b2 == (index >> 16u32) as u8,
                    b3 == (index >> 24u32) as u8,
            ;
        }
        Self([b0, b1, b2, b3])
    }
}

impl vstd::std_specs::convert::FromSpecImpl<u32> for Table {
    open spec fn obeys_from_spec() -> bool {
        false
    }

    open spec fn from_spec(index: u32) -> Self {
        arbitrary()
    }
}

impl From<Table> for u32 {
    fn from(index: Table) -> (r: Self)
        ensures
            r == index@,
    {
        let b: [u8; 4] = index.0;
        (b[0] as u32) | ((b[1] as u32) << 8u32) | ((b[2] as u32) << 16u32) | ((b[3] as u32) << 24u32)
    }
}

impl vstd::std_specs::convert::FromSpecImpl<Table> for u32 {
    open spec fn obeys_from_spec() -> bool {
        true
    }

    open spec fn from_spec(index: Table) -> Self {
        index@
    }
}

/// An index of a unique function signature.
#[derive(Debug, Clone, Copy, PartialEq, Eq, Structural)]
pub struct FuncType(pub u32);

impl From<u32> for FuncType {
    fn from(index: u32) -> (r: Self)
        ensures
            r.0 == index,
    {
        Self(index)
    }
}

impl vstd::std_specs::convert::FromSpecImpl<u32> for FuncType {
    open spec fn obeys_from_spec() -> bool {
        true
    }

    open spec fn from_spec(index: u32) -> Self {
        FuncType(index)
    }
}

impl From<FuncType> for u32 {
    fn from(index: FuncType) -> (r: Self)
        ensures
            r == index.0,
    {
        index.0
    }
}

impl vstd::std_specs::convert::FromSpecImpl<FuncType> for u32 {
    open spec fn obeys_from_spec() -> bool {
        true
    }

    open spec fn from_spec(index: FuncType) -> Self {
        index.0
    }
}

/// A global variable index.
#[derive(Debug, Clone, Copy, PartialEq, Eq, Structural)]
pub struct Global(pub u32);

impl From<u32> for Global {
    fn from(index: u32) -> (r: Self)
        ensures
            r.0 == index,
    {
        Self(index)
    }
}

impl vstd::std_specs::convert::FromSpecImpl<u32> for Global {
    open spec fn obeys_from_spec() -> bool {
        true
    }

    open spec fn from_spec(index: u32) -> Self {
        Global(index)
    }
}

impl From<Global> for u32 {
    fn from(index: Global) -> (r: Self)
        ensures
            r == index.0,
    {
        index.0
    }
}

impl vstd::std_specs::convert::FromSpecImpl<Global> for u32 {
    open spec fn obeys_from_spec() -> bool {
        true
    }

    open spec fn from_spec(index: Global) -> Self {
        index.0
    }
}

/// A data segment index.
#[derive(Debug, Clone, Copy, PartialEq, Eq, Structural)]
pub struct Data(pub u32);

impl From<u32> for Data {
    fn from(index: u32) -> (r: Self)
        ensures
            r.0 == index,
    {
        Self(index)
    }
}

impl vstd::std_specs::convert::FromSpecImpl<u32> for Data {
    open spec fn obeys_from_spec() -> bool {
        true
    }

    open spec fn from_spec(index: u32) -> Self {
        Data(index)
    }
}

impl From<Data> for u32 {
    fn from(index: Data) -> (r: Self)
        ensures
            r == index.0,
    {
        index.0
    }
}

impl vstd::std_specs::convert::FromSpecImpl<Data> for u32 {
    open spec fn obeys_from_spec() -> bool {
        true
    }

    open spec fn from_spec(index: Data) -> Self {
        index.0
    }
}

/// An element segment index.
#[derive(Debug, Clone, Copy, PartialEq, Eq, Structural)]
pub struct Elem(pub u32);

impl From<u32> for Elem {
    fn from(index: u32) -> (r: Self)
        ensures
            r.0 == index,
    {
        Self(index)
    }
}

impl vstd::std_specs::convert::FromSpecImpl<u32> for Elem {
    open spec fn obeys_from_spec() -> bool {
        true
    }

    open spec fn from_spec(index: u32) -> Self {
        Elem(index)
    }
}

impl From<Elem> for u32 {
    fn from(index: Elem) -> (r: Self)
        ensures
            r == index.0,
    {
        index.0
    }
}

impl vstd::std_specs::convert::FromSpecImpl<Elem> for u32 {
    open spec fn obeys_from_spec() -> bool {
        true
    }

    open spec fn from_spec(index: Elem) -> Self {
        index.0
    }
}

/// The sign of a value.
#[derive(Debug, Clone, Copy, PartialEq, Eq, Structural)]
pub enum Sign {
    /// Positive sign.
    Pos,
    /// Negative sign.
    Neg,
}

/// The parameters of an indirect call: the table that holds the callee and
/// the callee's position in it.
#[derive(Debug, Clone, Copy, PartialEq, Eq)]
pub struct CallIndirectParams<T> {
    /// The table which holds the called function.
    pub table: Table,
    /// The index of the called function in the table.
    pub index: T,
}

} // verus!
