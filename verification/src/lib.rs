//! Trap and fault classification for a WebAssembly virtual-machine runtime.
//!
//! Whenever compiled guest code, a checked runtime library call, or the
//! allocator detects an abnormal condition, this crate produces a single,
//! uniform value describing what happened: a trap carrying variant-specific
//! evidence, classified by a closed taxonomy of twelve canonical
//! [`TrapCode`]s shared by every code-generation backend.

pub mod harness;
pub mod taxonomy;
pub mod trap;

pub use harness::Compiler;
pub use harness::Engine;
pub use taxonomy::TrapCode;
pub use trap::Trap;
pub use trap::UserError;
