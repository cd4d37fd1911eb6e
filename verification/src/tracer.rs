//! The tracer dispatcher and the trace orchestration.
//!
//! `trace` enables all three subsystems, installs one listener adapter per
//! subsystem — each a handle to the one shared tracer — runs the traced
//! closure inside the registrations, and unconditionally disables and
//! revokes everything afterwards.  Every event delivered while the
//! registrations are in place is serialized and forwarded to the host
//! channel, in emission order.

use vstd::prelude::*;

use crate::event::encode;
use crate::event::Event;
use crate::event::EventModel;
use crate::host::host_call_of;
use crate::host::HostCallModel;
use crate::host::HostChannel;
use crate::registry::ListenerProxy;
use crate::registry::Registry;
use crate::registry::Subsystems;

verus! {

/// The stateless tracer: the single receiver of all three subsystems'
/// events, routing each to the host channel in its canonical form.
#[derive(Debug, Clone, Copy, PartialEq, Eq, Structural)]
pub struct EvmTracer;

/// The tracing environment handed to a traced closure: the three
/// subsystem registries, the slot holding the one shared tracer, and the
/// host channel receiving the forwarded events.
pub struct TraceEnv {
    pub subsystems: Subsystems,
    pub tracer: Option<EvmTracer>,
    pub host: HostChannel,
}

impl ListenerProxy {
    /// Forwards one subsystem event into the shared tracer, under
    /// exclusive access to it.
    pub fn event(&mut self, event: &Event, tracer: &mut EvmTracer, host: &mut HostChannel)
        ensures
            *final(tracer) == *old(tracer),
            final(host)@ == old(host)@.push(host_call_of(event@)),
    {
        tracer.event(event, host);
    }
}

impl TraceEnv {
    /// An idle environment with a fresh host channel: nothing enabled,
    /// nothing registered, nothing recorded.
    pub fn new() -> (env: TraceEnv)
        ensures
            env.idle(),
            env.subsystems.all_disabled(),
            env.host@ == Seq::<HostCallModel>::empty(),
    {
        TraceEnv { subsystems: Subsystems::new(), tracer: None, host: HostChannel::new() }
    }

    /// No listener is registered anywhere and the shared-tracer slot is
    /// empty: the state between traces.
    pub open spec fn idle(self) -> bool {
        self.subsystems.none_registered() && self.tracer is None
    }

    /// A registered listener always has the shared tracer behind it.
    pub open spec fn wf(self) -> bool {
        self.subsystems.any_registered() ==> self.tracer is Some
    }

    /// The subsystem producing `e` currently delivers its events.
    pub open spec fn delivers(self, e: EventModel) -> bool {
        match e {
            EventModel::Execution(_) => self.subsystems.runtime.active(),
            EventModel::Gas(_) => self.subsystems.gasometer.active(),
            EventModel::Call(_) => self.subsystems.evm.active(),
        }
    }

    /// A subsystem emits one event.  If the subsystem is enabled and a
    /// listener is registered, the event reaches the shared tracer through
    /// the subsystem's adapter and its canonical form is appended to the
    /// host log; otherwise it is dropped.  Registries and registrations
    /// are never changed by delivery.
    pub fn emit(&mut self, event: &Event)
        requires
            old(self).wf(),
        ensures
            final(self).wf(),
            final(self).subsystems == old(self).subsystems,
            final(self).tracer == old(self).tracer,
            old(self).delivers(event@) ==> final(self).host@ == old(self).host@.push(
                host_call_of(event@),
            ),
            !old(self).delivers(event@) ==> final(self).host@ == old(self).host@,
    {
        let deliver = match event {
            Event::Execution(_) => self.subsystems.runtime.enabled
                && self.subsystems.runtime.listener.is_some(),
            Event::Gas(_) => self.subsystems.gasometer.enabled
                && self.subsystems.gasometer.listener.is_some(),
            Event::Call(_) => self.subsystems.evm.enabled
                && self.subsystems.evm.listener.is_some(),
        };
        if deliver {
            let mut proxy = match event {
                Event::Execution(_) => self.subsystems.runtime.listener.unwrap(),
                Event::Gas(_) => self.subsystems.gasometer.listener.unwrap(),
                Event::Call(_) => self.subsystems.evm.listener.unwrap(),
            };
            let mut tracer = self.tracer.unwrap();
            proxy.event(event, &mut tracer, &mut self.host);
            self.tracer = Some(tracer);
        }
    }
}

/// The environment as `trace` hands it to the traced closure: all three
/// subsystems enabled, one adapter registered with each, the shared
/// tracer in its slot, the host log as it stood.
pub open spec fn spec_trace_started(env: TraceEnv) -> TraceEnv {
    TraceEnv {
        subsystems: Subsystems {
            evm: Registry { enabled: true, listener: Some(ListenerProxy) },
            gasometer: Registry { enabled: true, listener: Some(ListenerProxy) },
            runtime: Registry { enabled: true, listener: Some(ListenerProxy) },
        },
        tracer: Some(EvmTracer),
        host: env.host,
    }
}

/// The environment as `trace` returns it: all three subsystems disabled,
/// every registration revoked, the tracer slot empty, the host log as the
/// traced closure left it.
pub open spec fn spec_trace_stopped(env: TraceEnv) -> TraceEnv {
    TraceEnv {
        subsystems: Subsystems {
            evm: Registry { enabled: false, listener: None },
            gasometer: Registry { enabled: false, listener: None },
            runtime: Registry { enabled: false, listener: None },
        },
        tracer: None,
        host: env.host,
    }
}

/// The views of a sequence of events, in order.
pub open spec fn views_of(events: Seq<Event>) -> Seq<EventModel> {
    events.map_values(|e: Event| e@)
}

/// The host notifications that delivering a sequence of events produces:
/// the canonical-encoded form of each event, in the same order.
pub open spec fn encoded_calls(events: Seq<EventModel>) -> Seq<HostCallModel> {
    events.map_values(|e: EventModel| host_call_of(e))
}

impl EvmTracer {
    /// Creates the stateless tracer.
    pub fn new() -> (t: EvmTracer)
        ensures
            t == EvmTracer,
    {
        EvmTracer
    }

    /// Receives one subsystem event: converts it to its canonical byte
    /// form and forwards it on the host-channel call belonging to its
    /// subsystem.  Exactly one notification is appended per event.
    pub fn event(&mut self, event: &Event, host: &mut HostChannel)
        ensures
            *final(self) == *old(self),
            final(host)@ == old(host)@.push(host_call_of(event@)),
    {
        let message = encode(event);
        match event {
            Event::Execution(_) => host.runtime_event(message),
            Event::Gas(_) => host.gasometer_event(message),
            Event::Call(_) => host.evm_event(message),
        }
    }

    /// Enables the three subsystems and registers one adapter per
    /// subsystem, all pointing at this tracer.
    fn begin_trace(self, env: TraceEnv) -> (out: TraceEnv)
        ensures
            out == spec_trace_started(env),
    {
        let ghost env0 = env;
        let mut env = env;
        env.subsystems.evm.enable_tracing(true);
        env.subsystems.gasometer.enable_tracing(true);
        env.subsystems.runtime.enable_tracing(true);

        env.tracer = Some(self);

        env.subsystems.evm.register_listener(ListenerProxy);
        env.subsystems.gasometer.register_listener(ListenerProxy);
        env.subsystems.runtime.register_listener(ListenerProxy);
        env
    }

    /// Revokes every registration and disables the three subsystems,
    /// leaving the host log untouched.
    fn end_trace(env: TraceEnv) -> (out: TraceEnv)
        ensures
            out == spec_trace_stopped(env),
    {
        let mut env = env;
        env.subsystems.evm.revoke_listener();
        env.subsystems.gasometer.revoke_listener();
        env.subsystems.runtime.revoke_listener();

        env.tracer = None;

        env.subsystems.evm.enable_tracing(false);
        env.subsystems.gasometer.enable_tracing(false);
        env.subsystems.runtime.enable_tracing(false);
        env
    }

    /// Sets up the event listeners and executes the provided closure.
    ///
    /// The closure runs with every subsystem enabled and one adapter per
    /// subsystem registered to this tracer; afterwards every subsystem is
    /// disabled and every registration revoked, whatever the closure did.
    /// The host log comes back exactly as the closure's run left it: the
    /// orchestration itself neither adds, drops, nor reorders
    /// notifications.  Nested tracing is not supported: the environment
    /// must be idle.
    pub fn trace<F: FnOnce(TraceEnv) -> TraceEnv>(self, f: F, env: TraceEnv) -> (out: TraceEnv)
        requires
            env.idle(),
            call_requires(f, (spec_trace_started(env),)),
        ensures
            out.idle(),
            out.subsystems.all_disabled(),
            exists|mid: TraceEnv|
                #[trigger] call_ensures(f, (spec_trace_started(env),), mid) && out
                    == spec_trace_stopped(mid),
    {
        let ghost env0 = env;
        let started = self.begin_trace(env);
        let mid = f(started);
        let out = Self::end_trace(mid);
        proof {
            assert(call_ensures(f, (spec_trace_started(env0),), mid) && out
                == spec_trace_stopped(mid));
        }
        out
    }

    /// Runs one whole trace over a script of events: enables and
    /// registers as `trace` does, delivers each event in order, then
    /// disables and revokes.  The host log grows by exactly the
    /// canonical-encoded form of every event, in emission order, with no
    /// drops, duplicates or reordering.
    pub fn trace_events(self, events: &Vec<Event>, env: TraceEnv) -> (out: TraceEnv)
        requires
            env.idle(),
        ensures
            out.idle(),
            out.subsystems.all_disabled(),
            out.host@ == env.host@ + encoded_calls(views_of(events@)),
    {
        let ghost env0 = env;
        let mut env = self.begin_trace(env);
        let mut i: usize = 0;
        while i < events.len()
            invariant
                i <= events.len(),
                env.subsystems == spec_trace_started(env0).subsystems,
                env.tracer == spec_trace_started(env0).tracer,
                env.host@ == env0.host@ + encoded_calls(views_of(events@.subrange(0, i as int))),
            decreases events.len() - i,
        {
            let ghost pre = env.host@;
            env.emit(&events[i]);
            proof {
                assert(views_of(events@.subrange(0, i + 1 as int)) =~= views_of(
                    events@.subrange(0, i as int),
                ).push(events@[i as int]@));
                assert(encoded_calls(
                    views_of(events@.subrange(0, i as int)).push(events@[i as int]@),
                ) =~= encoded_calls(views_of(events@.subrange(0, i as int))).push(
                    host_call_of(events@[i as int]@),
                ));
            }
            i = i + 1;
        }
        proof {
            assert(events@.subrange(0, events@.len() as int) =~= events@);
        }
        Self::end_trace(env)
    }

    /// Signals the host to start a fresh recording context: exactly one
    /// `call_list_new` notification per invocation.
    pub fn emit_new(host: &mut HostChannel)
        ensures
            final(host)@ == old(host)@.push(HostCallModel::ListNew),
    {
        host.call_list_new();
    }
}

} // verus!
