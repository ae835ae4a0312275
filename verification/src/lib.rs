//! Rhythm core: concurrency primitives for a shader tool-chain runtime.
//!
//! The crate centres on a small task-execution core: a spin-based lock, a
//! one-shot [`Task`](task::Task) unit of work, a fixed-size thread-pool
//! configuration with verified scheduling state, a single-thread worker
//! mailbox model, and a lock-friendly fixed-capacity circular buffer.
//! The shader standard-library types (vectors, matrices, swizzles) that the
//! surrounding tool-chain compiles against live alongside it.

pub mod ast;
pub mod buffer;
pub mod math;
pub mod pool;
pub mod products;
pub mod runtime;
pub mod shader;
pub mod spinlock;
pub mod swizzle;
pub mod syntax;
pub mod task;
pub mod types;
pub mod utils;
pub mod worker;
