//! Version-gated access to the platform's native graphics-buffer interface.
//!
//! The native entry points are looked up at run time and may be missing, so
//! nothing here calls them. The library decides: which lookups to make, which
//! API level the device reports, whether an operation may be invoked and with
//! which arguments, and what an invocation's reply means. The embedding code
//! carries out the lookups and invocations and hands back what it got.

pub mod buffer;
pub mod holder;
pub mod laws;
pub mod level;
pub mod native;
pub mod resolver;
pub mod symbol;

pub use buffer::{BufferDesc, HBRef, LockInfo, Rect};
pub use holder::HBHolder;
pub use symbol::{Operation, Symbol, SymbolTable};
