//! Laws relating whole traces to one another.

use vstd::prelude::*;

use crate::event::EventModel;
use crate::host::HostCallModel;
use crate::tracer::encoded_calls;

verus! {

/// Delivery distributes over composition: the notifications of two event
/// scripts run back to back are the notifications of the first followed
/// by the notifications of the second.
pub proof fn lemma_encoded_calls_concat(first: Seq<EventModel>, second: Seq<EventModel>)
    ensures
        encoded_calls(first + second) == encoded_calls(first) + encoded_calls(second),
{
    assert(encoded_calls(first + second) =~= encoded_calls(first) + encoded_calls(second));
}

/// Two sequential, non-nested traces do not leak state: whatever the
/// host log held before and whatever the first trace emitted, the
/// notifications the second trace appends are exactly the canonical
/// forms of its own events — the second event stream is unaffected by
/// the first.
pub proof fn lemma_second_trace_independent(
    log0: Seq<HostCallModel>,
    first: Seq<EventModel>,
    second: Seq<EventModel>,
)
    ensures
        (log0 + encoded_calls(first) + encoded_calls(second)).skip(
            (log0 + encoded_calls(first)).len() as int,
        ) == encoded_calls(second),
{
    let after_first = log0 + encoded_calls(first);
    assert((after_first + encoded_calls(second)).skip(after_first.len() as int) =~= encoded_calls(
        second,
    ));
}

} // verus!
