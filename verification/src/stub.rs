//! The no-op variant of the tracer, for builds with tracing compiled out.
//!
//! It presents the same surface as the instrumented tracer but performs
//! no work at all: `trace` never executes the provided closure and leaves
//! the environment exactly as it was, and `emit_new` makes no host call.

use vstd::prelude::*;

use crate::host::HostChannel;
use crate::tracer::TraceEnv;

verus! {

/// The stub tracer: same shape as the instrumented one, no behaviour.
#[derive(Debug, Clone, Copy, PartialEq, Eq, Structural)]
pub struct EvmTracer;

impl EvmTracer {
    /// Creates the stub tracer.
    pub fn new() -> (t: EvmTracer)
        ensures
            t == EvmTracer,
    {
        EvmTracer
    }

    /// Does nothing: the closure is never executed, no subsystem is
    /// touched, and not one host notification is made — the environment
    /// comes back exactly as it went in.
    pub fn trace<F: FnOnce(TraceEnv) -> TraceEnv>(self, _f: F, env: TraceEnv) -> (out: TraceEnv)
        ensures
            out == env,
    {
        env
    }

    /// Does nothing: no `call_list_new` notification is made.
    pub fn emit_new(host: &mut HostChannel)
        ensures
            final(host)@ == old(host)@,
    {
    }
}

} // verus!
