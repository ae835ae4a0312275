//! The configuration of the process-wide runtime: one thread pool named
//! `"runtime"` with one worker per host CPU. The lazily-initialized
//! singleton that carries this configuration lives with the embedding
//! application, which constructs the pool from the builder fixed here on
//! first use and keeps it for the life of the process.

use crate::pool::ThreadPoolBuilder;
use vstd::prelude::*;

verus! {

/// The builder the runtime's pool is constructed from: named `"runtime"`,
/// with the default worker count of one per host CPU.
pub fn runtime_builder() -> (r: ThreadPoolBuilder)
    ensures
        r.chosen_name() matches Some(name) && name@ == "runtime"@,
        r.worker_count() >= 1,
{
    ThreadPoolBuilder::named("runtime".to_string())
}

} // verus!
