//! Register-based bytecode primitives of a WebAssembly interpreter and the
//! return protocol that moves result values between invocation frames.

pub mod comparator;
pub mod error;
pub mod executor;
pub mod fuel;
pub mod index;
pub mod instr;
pub mod offset;
pub mod reftype;
pub mod reg;
pub mod stack;
pub mod value;

pub use comparator::{Comparator, ComparatorAndOffset};
pub use error::TranslationError;
pub use executor::{Executor, ReturnOutcome};
pub use fuel::BlockFuel;
pub use index::{CallIndirectParams, Data, Elem, Func, FuncType, Global, Sign, Table};
pub use instr::{skip_register_list, Instruction};
pub use offset::{BranchOffset, BranchOffset16, Instr};
pub use reftype::{ExternRef, FuncRef, Reftype, Transposer};
pub use reg::{BoundedRegSpan, Reg, RegSpan};
pub use stack::{CallFrame, CallStack, Instance, InstanceCache, ValueStack};
pub use value::{AnyConst32, I64Const32, UntypedVal};
