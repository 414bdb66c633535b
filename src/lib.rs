//! Runtime support for WebAssembly modules compiled ahead of time to native
//! code and hosted by an embedding that expects structured errors.
//!
//! The library has two parts. The trap bridge (`trap`) turns the abrupt exit
//! with which compiled code signals a fault into a typed error, through a
//! per-thread pending-trap slot. The call adapter (`adapter`) checks host
//! arguments against a function signature, marshals them into native slots,
//! and turns the native outcome back into host values or an error; the
//! values themselves and their native slots are in `value`.
//!
//! Beside them stand the support services that compiled code links against:
//! process-wide initialization and the signature registry (`runtime`), and
//! the size accounting of memories and tables (`limits`).

pub mod adapter;
pub mod limits;
pub mod runtime;
pub mod trap;
pub mod value;

pub use trap::{describe, host_trap, strerror, BridgeError, PendingTrap, ScopeExit, TrapCode};
pub use value::{check_args, marshal_args, unmarshal_results, Value, ValueType};
pub use adapter::{complete, invoke, Signature};
pub use runtime::{Runtime, SignatureRegistry};
pub use limits::{Extent, MAX_MEMORY_PAGES};
