//! Ownership and call-boundary logic for native in-memory buffers: the life
//! of a buffer handle, the decisions taken on what the native runtime returns,
//! the linker symbol table and the undefined-symbol report.
use vstd::prelude::*;

pub mod handle;
pub mod outcome;
pub mod report;
pub mod symbols;

pub use handle::{BufferHandle, HandleState};
pub use outcome::{Backend, Operation, Unsupported};
pub use symbols::{LinkerSymbols, ERAVM_WORD_SIZE, ETHEREUM_ADDRESS_SIZE};

verus! {

} // verus!
