//! The per-subsystem registries: the injected collaborators that own each
//! instrumentation subsystem's enable flag and its current-listener slot.
//!
//! A registry delivers an event only while it is enabled *and* a listener
//! adapter is installed; `trace` turns both on around the traced closure
//! and both off again afterwards.

use vstd::prelude::*;

verus! {

/// The adapter registered with a subsystem: a non-owning handle that
/// forwards the subsystem's events into the one shared tracer.
#[derive(Debug, Clone, Copy, PartialEq, Eq, Structural)]
pub struct ListenerProxy;

/// One subsystem's registry: a global enable flag and the slot holding the
/// currently registered listener adapter, if any.
#[derive(Debug, Clone, Copy)]
pub struct Registry {
    pub enabled: bool,
    pub listener: Option<ListenerProxy>,
}

impl Registry {
    /// A registry that is disabled and has no listener.
    pub fn new() -> (r: Registry)
        ensures
            !r.enabled,
            r.listener is None,
    {
        Registry { enabled: false, listener: None }
    }

    /// Turns the subsystem's tracing on or off.  Idempotent; the listener
    /// slot is untouched.
    pub fn enable_tracing(&mut self, enable: bool)
        ensures
            final(self).enabled == enable,
            final(self).listener == old(self).listener,
    {
        self.enabled = enable;
    }

    /// Registers an adapter as the subsystem's active listener.
    pub fn register_listener(&mut self, proxy: ListenerProxy)
        ensures
            final(self).enabled == old(self).enabled,
            final(self).listener == Some(proxy),
    {
        self.listener = Some(proxy);
    }

    /// Revokes whatever listener registration the subsystem holds.
    pub fn revoke_listener(&mut self)
        ensures
            final(self).enabled == old(self).enabled,
            final(self).listener is None,
    {
        self.listener = None;
    }

    /// The registry delivers events: it is enabled and a listener is in.
    pub open spec fn active(self) -> bool {
        self.enabled && self.listener is Some
    }
}

/// The three subsystem registries, one per instrumentation subsystem.
/// `evm` tracks calls and sub-calls, `gasometer` tracks gas accounting,
/// `runtime` tracks op-code execution.
#[derive(Debug, Clone, Copy)]
pub struct Subsystems {
    pub evm: Registry,
    pub gasometer: Registry,
    pub runtime: Registry,
}

impl Subsystems {
    /// Three fresh registries, all disabled and empty.
    pub fn new() -> (s: Subsystems)
        ensures
            s.all_disabled(),
            s.none_registered(),
    {
        Subsystems { evm: Registry::new(), gasometer: Registry::new(), runtime: Registry::new() }
    }

    /// Every subsystem's tracing flag is off.
    pub open spec fn all_disabled(self) -> bool {
        !self.evm.enabled && !self.gasometer.enabled && !self.runtime.enabled
    }

    /// Every subsystem delivers: enabled with a listener registered.
    pub open spec fn all_active(self) -> bool {
        self.evm.active() && self.gasometer.active() && self.runtime.active()
    }

    /// No subsystem holds a listener registration.
    pub open spec fn none_registered(self) -> bool {
        self.evm.listener is None && self.gasometer.listener is None
            && self.runtime.listener is None
    }

    /// Some subsystem holds a listener registration.
    pub open spec fn any_registered(self) -> bool {
        !self.none_registered()
    }
}

} // verus!
