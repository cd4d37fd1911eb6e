//! Event-tracing multiplexer for a virtual-machine execution runtime.
//!
//! Three instrumentation subsystems (op-code execution, gas accounting,
//! call/sub-call tracking) emit events during contract execution.  A single
//! shared tracer receives every event, converts it to its canonical byte
//! form and forwards it to the host channel, in exactly the order the
//! subsystems emitted.

pub mod event;
pub mod host;
pub mod registry;
pub mod laws;
pub mod stub;
pub mod tracer;
