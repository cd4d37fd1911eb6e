//! Subsystem events and their canonical byte encoding.
//!
//! Each event is produced by exactly one of the three instrumentation
//! subsystems and carries that subsystem's payload bytes.  The canonical
//! form sent across the host boundary frames the payload with a variant
//! tag and a little-endian length prefix.

use vstd::prelude::*;

verus! {

/// A telemetry event, tagged by the subsystem that produced it.
///
/// `Execution` comes from the op-code interpreter, `Gas` from the gas
/// accountant, `Call` from the call/sub-call tracker.
#[derive(Debug, PartialEq, Eq)]
pub enum Event {
    Execution(Vec<u8>),
    Gas(Vec<u8>),
    Call(Vec<u8>),
}

/// The mathematical model of an [`Event`]: the same tag over a byte sequence.
pub enum EventModel {
    Execution(Seq<u8>),
    Gas(Seq<u8>),
    Call(Seq<u8>),
}

impl View for Event {
    type V = EventModel;

    open spec fn view(&self) -> EventModel {
        match self {
            Event::Execution(p) => EventModel::Execution(p@),
            Event::Gas(p) => EventModel::Gas(p@),
            Event::Call(p) => EventModel::Call(p@),
        }
    }
}

impl EventModel {
    /// The payload bytes, without the subsystem tag.
    pub open spec fn payload(self) -> Seq<u8> {
        match self {
            EventModel::Execution(p) => p,
            EventModel::Gas(p) => p,
            EventModel::Call(p) => p,
        }
    }

    /// The tag byte that opens the canonical form.
    pub open spec fn tag(self) -> u8 {
        match self {
            EventModel::Execution(_) => 0u8,
            EventModel::Gas(_) => 1u8,
            EventModel::Call(_) => 2u8,
        }
    }
}

/// The eight little-endian bytes of a 64-bit length.
pub open spec fn le_bytes(n: u64) -> Seq<u8> {
    seq![
        (n & 0xff) as u8,
        ((n >> 8) & 0xff) as u8,
        ((n >> 16) & 0xff) as u8,
        ((n >> 24) & 0xff) as u8,
        ((n >> 32) & 0xff) as u8,
        ((n >> 40) & 0xff) as u8,
        ((n >> 48) & 0xff) as u8,
        ((n >> 56) & 0xff) as u8,
    ]
}

/// The canonical byte form of an event: tag, length prefix, payload.
pub open spec fn canonical(e: EventModel) -> Seq<u8> {
    seq![e.tag()] + le_bytes(e.payload().len() as u64) + e.payload()
}

/// Serializes an event to its canonical byte form.
pub fn encode(event: &Event) -> (r: Vec<u8>)
    ensures
        r@ == canonical(event@),
{
    let tag: u8 = match event {
        Event::Execution(_) => 0u8,
        Event::Gas(_) => 1u8,
        Event::Call(_) => 2u8,
    };
    let payload: &Vec<u8> = match event {
        Event::Execution(p) => p,
        Event::Gas(p) => p,
        Event::Call(p) => p,
    };
    let n: u64 = payload.len() as u64;
    let mut r: Vec<u8> = Vec::new();
    r.push(tag);
    r.push((n & 0xff) as u8);
    r.push(((n >> 8) & 0xff) as u8);
    r.push(((n >> 16) & 0xff) as u8);
    r.push(((n >> 24) & 0xff) as u8);
    r.push(((n >> 32) & 0xff) as u8);
    r.push(((n >> 40) & 0xff) as u8);
    r.push(((n >> 48) & 0xff) as u8);
    r.push(((n >> 56) & 0xff) as u8);
    let mut i: usize = 0;
    while i < payload.len()
        invariant
            i <= payload.len(),
            n == payload@.len() as u64,
            tag == event@.tag(),
            payload@ == event@.payload(),
            r@ == seq![tag] + le_bytes(n) + payload@.subrange(0, i as int),
        decreases payload.len() - i,
    {
        r.push(payload[i]);
        proof {
            assert(payload@.subrange(0, i + 1 as int) =~= payload@.subrange(0, i as int).push(
                payload@[i as int],
            ));
        }
        i = i + 1;
    }
    proof {
        assert(payload@.subrange(0, payload@.len() as int) =~= payload@);
    }
    r
}

} // verus!
