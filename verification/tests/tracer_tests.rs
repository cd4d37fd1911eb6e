use evm_tracer::event::{encode, Event};
use evm_tracer::host::HostCall;
use evm_tracer::stub;
use evm_tracer::tracer::{EvmTracer, TraceEnv};

/// The canonical byte form: tag, 64-bit little-endian length, payload.
fn frame(tag: u8, payload: &[u8]) -> Vec<u8> {
    let mut v = vec![tag];
    v.extend_from_slice(&(payload.len() as u64).to_le_bytes());
    v.extend_from_slice(payload);
    v
}

#[test]
fn encode_execution_event() {
    let e = Event::Execution(vec![0xaa, 0xbb, 0xcc]);
    assert_eq!(encode(&e), frame(0, &[0xaa, 0xbb, 0xcc]));
}

#[test]
fn encode_gas_event() {
    let e = Event::Gas(vec![7, 9]);
    assert_eq!(encode(&e), vec![1, 2, 0, 0, 0, 0, 0, 0, 0, 7, 9]);
}

#[test]
fn encode_call_event_empty_payload() {
    let e = Event::Call(vec![]);
    assert_eq!(encode(&e), vec![2, 0, 0, 0, 0, 0, 0, 0, 0]);
}

#[test]
fn scenario_gas_then_execution_then_call() {
    // One gas event G, one execution event O, one call event Cv, in that
    // order: the host must see gasometer_event(encode(G)),
    // runtime_event(encode(O)), evm_event(encode(Cv)), exactly.
    let tracer = EvmTracer::new();
    let env = TraceEnv::new();
    let out = tracer.trace(
        |mut e: TraceEnv| {
            e.emit(&Event::Gas(vec![1, 2]));
            e.emit(&Event::Execution(vec![3]));
            e.emit(&Event::Call(vec![4, 5, 6]));
            e
        },
        env,
    );
    assert_eq!(
        out.host.calls,
        vec![
            HostCall::GasometerEvent(frame(1, &[1, 2])),
            HostCall::RuntimeEvent(frame(0, &[3])),
            HostCall::EvmEvent(frame(2, &[4, 5, 6])),
        ]
    );
}

#[test]
fn trace_events_keeps_interleaved_order() {
    let tracer = EvmTracer::new();
    let env = TraceEnv::new();
    let events = vec![
        Event::Execution(vec![10]),
        Event::Gas(vec![11]),
        Event::Execution(vec![12]),
        Event::Call(vec![13]),
        Event::Gas(vec![14]),
    ];
    let out = tracer.trace_events(&events, env);
    assert_eq!(
        out.host.calls,
        vec![
            HostCall::RuntimeEvent(frame(0, &[10])),
            HostCall::GasometerEvent(frame(1, &[11])),
            HostCall::RuntimeEvent(frame(0, &[12])),
            HostCall::EvmEvent(frame(2, &[13])),
            HostCall::GasometerEvent(frame(1, &[14])),
        ]
    );
}

#[test]
fn trace_disables_and_unregisters_afterwards() {
    let tracer = EvmTracer::new();
    let env = TraceEnv::new();
    let out = tracer.trace(|e: TraceEnv| e, env);
    assert!(!out.subsystems.evm.enabled);
    assert!(!out.subsystems.gasometer.enabled);
    assert!(!out.subsystems.runtime.enabled);
    assert!(out.subsystems.evm.listener.is_none());
    assert!(out.subsystems.gasometer.listener.is_none());
    assert!(out.subsystems.runtime.listener.is_none());
    assert!(out.tracer.is_none());
}

#[test]
fn subsystems_are_enabled_inside_the_trace() {
    let tracer = EvmTracer::new();
    let env = TraceEnv::new();
    let out = tracer.trace(
        |e: TraceEnv| {
            assert!(e.subsystems.evm.enabled);
            assert!(e.subsystems.gasometer.enabled);
            assert!(e.subsystems.runtime.enabled);
            assert!(e.subsystems.evm.listener.is_some());
            assert!(e.subsystems.gasometer.listener.is_some());
            assert!(e.subsystems.runtime.listener.is_some());
            assert!(e.tracer.is_some());
            e
        },
        env,
    );
    assert!(out.host.calls.is_empty());
}

#[test]
fn sequential_traces_do_not_leak() {
    // Two sequential, non-nested traces: the calls the second trace
    // appends are the same whatever the first trace emitted.
    let second = |mut e: TraceEnv| {
        e.emit(&Event::Call(vec![42]));
        e
    };

    let out_a = {
        let env = TraceEnv::new();
        let env = EvmTracer::new().trace(
            |mut e: TraceEnv| {
                e.emit(&Event::Gas(vec![1]));
                e.emit(&Event::Gas(vec![2]));
                e
            },
            env,
        );
        EvmTracer::new().trace(second, env)
    };
    let out_b = {
        let env = TraceEnv::new();
        let env = EvmTracer::new().trace(|e: TraceEnv| e, env);
        EvmTracer::new().trace(second, env)
    };

    let tail_a = &out_a.host.calls[out_a.host.calls.len() - 1..];
    let tail_b = &out_b.host.calls[out_b.host.calls.len() - 1..];
    assert_eq!(tail_a, tail_b);
    assert_eq!(tail_a, &[HostCall::EvmEvent(frame(2, &[42]))]);
    assert_eq!(out_a.host.calls.len(), 3);
    assert_eq!(out_b.host.calls.len(), 1);
}

#[test]
fn emit_outside_a_trace_is_dropped() {
    let mut env = TraceEnv::new();
    env.emit(&Event::Gas(vec![9]));
    assert!(env.host.calls.is_empty());
}

#[test]
fn emit_delivers_only_for_active_subsystems() {
    let tracer = EvmTracer::new();
    let env = TraceEnv::new();
    // Stop the gas accountant mid-trace: its events are dropped while the
    // other two subsystems keep delivering.
    let out = tracer.trace(
        |mut e: TraceEnv| {
            e.subsystems.gasometer.enable_tracing(false);
            e.emit(&Event::Gas(vec![1]));
            e.emit(&Event::Execution(vec![2]));
            e
        },
        env,
    );
    assert_eq!(out.host.calls, vec![HostCall::RuntimeEvent(frame(0, &[2]))]);
}

#[test]
fn emit_new_makes_exactly_one_notification() {
    let mut env = TraceEnv::new();
    EvmTracer::emit_new(&mut env.host);
    assert_eq!(env.host.calls, vec![HostCall::ListNew]);
    EvmTracer::emit_new(&mut env.host);
    assert_eq!(env.host.calls, vec![HostCall::ListNew, HostCall::ListNew]);
}

#[test]
fn instrumented_trace_runs_the_closure() {
    let mut count: u32 = 0;
    let env = TraceEnv::new();
    let out = EvmTracer::new().trace(
        |e: TraceEnv| {
            count += 1;
            e
        },
        env,
    );
    assert_eq!(count, 1);
    assert!(out.host.calls.is_empty());
}

#[test]
fn stub_trace_never_runs_the_closure() {
    let mut count: u32 = 0;
    let env = TraceEnv::new();
    let out = stub::EvmTracer::new().trace(
        |mut e: TraceEnv| {
            count += 1;
            e.emit(&Event::Gas(vec![1]));
            e
        },
        env,
    );
    assert_eq!(count, 0);
    assert!(out.host.calls.is_empty());
    assert!(!out.subsystems.evm.enabled);
    assert!(out.tracer.is_none());
}

#[test]
fn stub_emit_new_makes_no_notification() {
    let mut env = TraceEnv::new();
    stub::EvmTracer::emit_new(&mut env.host);
    assert!(env.host.calls.is_empty());
}
