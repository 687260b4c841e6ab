//! Whole calls: what the steps of a connection handle add up to.
use vstd::prelude::*;
use crate::connection_handle::{
    attributed,
    failing_stage,
    metrics_after,
    next_step,
    start_call,
    ActionView,
    CallStateView,
    EventView,
    StepView,
};
use crate::error::{classify, FailureCauseView};
use crate::frame::{declared_length, frame, frame_too_big, length_prefix_round_trip};
use crate::message::{MessageView, NodeId};
use crate::metrics::{QuicTransportMetrics, RequestType, Stage};

verus! {

/// A call as far as a sequence of events takes it.
pub struct Run {
    /// The last step taken.
    pub last: StepView,
    /// The stage at which the last step was taken.
    pub stage: Stage,
    /// The metrics after the last step.
    pub metrics: QuicTransportMetrics,
}

/// Feeds events one by one to a call in `state`: `first`, then those of
/// `rest`, each to the state that the step before it gave. It stops at the
/// step that ends the call, or when the events run out.
pub open spec fn run(
    peer_id: NodeId,
    max_frame_length: u32,
    metrics: QuicTransportMetrics,
    state: CallStateView,
    first: EventView,
    rest: Seq<EventView>,
) -> Run
    decreases rest.len(),
{
    let step = next_step(peer_id, max_frame_length, state, first);
    let counted = metrics_after(metrics, state, first, step);
    let here = Run { last: step, stage: failing_stage(state, first), metrics: counted };
    if rest.len() == 0 {
        here
    } else {
        match step {
            StepView::Continue(next, _) => run(
                peer_id,
                max_frame_length,
                counted,
                next,
                rest[0],
                rest.drop_first(),
            ),
            _ => here,
        }
    }
}

/// A call keeps its type from step to step.
pub proof fn call_keeps_its_type(
    peer_id: NodeId,
    max_frame_length: u32,
    state: CallStateView,
    event: EventView,
)
    ensures
        match next_step(peer_id, max_frame_length, state, event) {
            StepView::Continue(next, _) => next.request_type() == state.request_type(),
            _ => true,
        },
{
}

/// A call starts in a state that waits for the operation it asks for.
pub proof fn call_starts_by_opening(peer_id: NodeId, request_type: RequestType, request: MessageView)
    ensures
        ({
            let (state, action) = start_call(peer_id, request_type, request);
            state is Opening && state.awaits(action) && state.request_type() == request_type
        }),
{
}

/// A call that goes on moves one operation forward, in the order open,
/// write, finish, read, and waits for the operation that it asks for.
pub proof fn call_moves_forward(
    peer_id: NodeId,
    max_frame_length: u32,
    state: CallStateView,
    event: EventView,
)
    ensures
        match next_step(peer_id, max_frame_length, state, event) {
            StepView::Continue(next, action) => next.steps_left() + 1 == state.steps_left()
                && next.awaits(action),
            _ => true,
        },
{
}

/// A call is over once as many operations have ended as its state had left:
/// after five from its start, at the latest.
pub proof fn call_ends(
    peer_id: NodeId,
    max_frame_length: u32,
    metrics: QuicTransportMetrics,
    state: CallStateView,
    first: EventView,
    rest: Seq<EventView>,
)
    requires
        rest.len() + 1 >= state.steps_left(),
    ensures
        !(run(peer_id, max_frame_length, metrics, state, first, rest).last is Continue),
    decreases rest.len(),
{
    let step = next_step(peer_id, max_frame_length, state, first);
    call_moves_forward(peer_id, max_frame_length, state, first);
    match step {
        StepView::Continue(next, _) => {
            call_ends(
                peer_id,
                max_frame_length,
                metrics_after(metrics, state, first, step),
                next,
                rest[0],
                rest.drop_first(),
            );
        },
        _ => {},
    }
}

/// A call that fails moves exactly one error counter one step: the one of
/// its type and of the stage at which it failed. A call that does not fail
/// moves no error counter. No step of a call moves a request counter.
pub proof fn call_is_counted_once(
    peer_id: NodeId,
    max_frame_length: u32,
    metrics: QuicTransportMetrics,
    state: CallStateView,
    first: EventView,
    rest: Seq<EventView>,
)
    ensures
        ({
            let r = run(peer_id, max_frame_length, metrics, state, first, rest);
            if r.last is Failed {
                r.metrics == metrics.with_error(state.request_type(), r.stage)
            } else {
                r.metrics == metrics
            }
        }),
        forall|t: RequestType|
            run(peer_id, max_frame_length, metrics, state, first, rest).metrics.requests_total(t)
                == metrics.requests_total(t),
    decreases rest.len(),
{
    let step = next_step(peer_id, max_frame_length, state, first);
    if rest.len() > 0 {
        match step {
            StepView::Continue(next, _) => {
                call_keeps_its_type(peer_id, max_frame_length, state, first);
                call_is_counted_once(
                    peer_id,
                    max_frame_length,
                    metrics,
                    next,
                    rest[0],
                    rest.drop_first(),
                );
            },
            _ => {},
        }
    }
}

/// A whole call, from its start: the request counter of its type moves one
/// step, and so does the error counter of its type and failing stage if the
/// call fails; every other counter stays.
pub proof fn started_call_is_counted(
    peer_id: NodeId,
    max_frame_length: u32,
    metrics: QuicTransportMetrics,
    request_type: RequestType,
    request: MessageView,
    first: EventView,
    rest: Seq<EventView>,
)
    ensures
        ({
            let started = metrics.with_request(request_type);
            let opening = start_call(peer_id, request_type, request).0;
            let r = run(peer_id, max_frame_length, started, opening, first, rest);
            if r.last is Failed {
                r.metrics == metrics.with_request(request_type).with_error(request_type, r.stage)
            } else {
                r.metrics == metrics.with_request(request_type)
            }
        }),
{
    let opening = start_call(peer_id, request_type, request).0;
    call_is_counted_once(
        peer_id,
        max_frame_length,
        metrics.with_request(request_type),
        opening,
        first,
        rest,
    );
}

/// What a call does and returns does not depend on the counters, and so on
/// no other call that moved them.
pub proof fn outcome_ignores_other_calls(
    peer_id: NodeId,
    max_frame_length: u32,
    metrics: QuicTransportMetrics,
    other_metrics: QuicTransportMetrics,
    state: CallStateView,
    first: EventView,
    rest: Seq<EventView>,
)
    ensures
        run(peer_id, max_frame_length, metrics, state, first, rest).last == run(
            peer_id,
            max_frame_length,
            other_metrics,
            state,
            first,
            rest,
        ).last,
        run(peer_id, max_frame_length, metrics, state, first, rest).stage == run(
            peer_id,
            max_frame_length,
            other_metrics,
            state,
            first,
            rest,
        ).stage,
    decreases rest.len(),
{
    let step = next_step(peer_id, max_frame_length, state, first);
    if rest.len() > 0 {
        match step {
            StepView::Continue(next, _) => {
                outcome_ignores_other_calls(
                    peer_id,
                    max_frame_length,
                    metrics_after(metrics, state, first, step),
                    metrics_after(other_metrics, state, first, step),
                    next,
                    rest[0],
                    rest.drop_first(),
                );
            },
            _ => {},
        }
    }
}

/// Two failures are counted to the same end in either order.
pub proof fn errors_commute(
    metrics: QuicTransportMetrics,
    t1: RequestType,
    s1: Stage,
    t2: RequestType,
    s2: Stage,
)
    ensures
        metrics.with_error(t1, s1).with_error(t2, s2) == metrics.with_error(t2, s2).with_error(
            t1,
            s1,
        ),
{
}

/// Two calls that share the counters of one connection leave them the same
/// whichever of the two runs first.
pub proof fn calls_commute(
    peer_id: NodeId,
    max_frame_length: u32,
    metrics: QuicTransportMetrics,
    state_a: CallStateView,
    first_a: EventView,
    rest_a: Seq<EventView>,
    state_b: CallStateView,
    first_b: EventView,
    rest_b: Seq<EventView>,
)
    ensures
        ({
            let a_then = run(peer_id, max_frame_length, metrics, state_a, first_a, rest_a);
            let then_b = run(peer_id, max_frame_length, a_then.metrics, state_b, first_b, rest_b);
            let b_then = run(peer_id, max_frame_length, metrics, state_b, first_b, rest_b);
            let then_a = run(peer_id, max_frame_length, b_then.metrics, state_a, first_a, rest_a);
            a_then.last == then_a.last && b_then.last == then_b.last && then_b.metrics
                == then_a.metrics
        }),
{
    let a_then = run(peer_id, max_frame_length, metrics, state_a, first_a, rest_a);
    let b_then = run(peer_id, max_frame_length, metrics, state_b, first_b, rest_b);
    outcome_ignores_other_calls(
        peer_id,
        max_frame_length,
        metrics,
        b_then.metrics,
        state_a,
        first_a,
        rest_a,
    );
    outcome_ignores_other_calls(
        peer_id,
        max_frame_length,
        metrics,
        a_then.metrics,
        state_b,
        first_b,
        rest_b,
    );
    call_is_counted_once(peer_id, max_frame_length, metrics, state_a, first_a, rest_a);
    call_is_counted_once(peer_id, max_frame_length, metrics, state_b, first_b, rest_b);
    call_is_counted_once(peer_id, max_frame_length, a_then.metrics, state_b, first_b, rest_b);
    call_is_counted_once(peer_id, max_frame_length, b_then.metrics, state_a, first_a, rest_a);
    errors_commute(
        metrics,
        state_a.request_type(),
        a_then.stage,
        state_b.request_type(),
        b_then.stage,
    );
}

/// An rpc against a peer that sends back the bytes it was sent: the frame
/// written is the framed request, the request carries the peer's identity,
/// and when the reads are given that same frame, the length field first and
/// then the payload, the response has the request's body and carries the
/// peer's identity. What the completions of open, write and finish bring is
/// of no account.
pub proof fn rpc_round_trip(
    peer_id: NodeId,
    max_frame_length: u32,
    request: MessageView,
    opened: Seq<u8>,
    written: Seq<u8>,
    finished: Seq<u8>,
)
    requires
        request.body.len() <= max_frame_length,
    ensures
        ({
            let wire = frame(request.body);
            let (opening, open) = start_call(peer_id, RequestType::Rpc, request);
            let writing = CallStateView::Writing { request_type: RequestType::Rpc };
            let finishing = CallStateView::Finishing { request_type: RequestType::Rpc };
            let reading = CallStateView::ReadingPayload { length: request.body.len() as u32 };
            &&& open == ActionView::OpenBidirectional
            &&& opening->request.metadata.contains(peer_id)
            &&& next_step(peer_id, max_frame_length, opening, EventView::Completed(opened))
                == StepView::Continue(writing, ActionView::Write(wire))
            &&& next_step(peer_id, max_frame_length, writing, EventView::Completed(written))
                == StepView::Continue(finishing, ActionView::Finish)
            &&& next_step(peer_id, max_frame_length, finishing, EventView::Completed(finished))
                == StepView::Continue(CallStateView::ReadingLength, ActionView::Read(4))
            &&& next_step(
                peer_id,
                max_frame_length,
                CallStateView::ReadingLength,
                EventView::Completed(wire.subrange(0, 4)),
            ) == StepView::Continue(reading, ActionView::Read(request.body.len()))
            &&& next_step(
                peer_id,
                max_frame_length,
                reading,
                EventView::Completed(wire.subrange(4, wire.len() as int)),
            ) == StepView::Responded(attributed(peer_id, request))
            &&& attributed(peer_id, request).body == request.body
            &&& attributed(peer_id, request).metadata.contains(peer_id)
        }),
{
    let wire = frame(request.body);
    length_prefix_round_trip(request.body.len());
    let header = wire.subrange(0, 4);
    assert(header[0] == wire[0] && header[1] == wire[1] && header[2] == wire[2] && header[3]
        == wire[3]);
    assert(declared_length(header) == request.body.len());
    assert(wire.subrange(4, wire.len() as int) =~= request.body);
}

/// A push is over, and has succeeded, as soon as the write side is
/// finished: it waits for nothing that the peer does.
pub proof fn push_is_delivered_after_finish(
    peer_id: NodeId,
    max_frame_length: u32,
    request: MessageView,
    opened: Seq<u8>,
    written: Seq<u8>,
    finished: Seq<u8>,
)
    requires
        request.body.len() <= max_frame_length,
    ensures
        ({
            let (opening, open) = start_call(peer_id, RequestType::Push, request);
            let writing = CallStateView::Writing { request_type: RequestType::Push };
            let finishing = CallStateView::Finishing { request_type: RequestType::Push };
            &&& open == ActionView::OpenUnidirectional
            &&& opening->request.metadata.contains(peer_id)
            &&& next_step(peer_id, max_frame_length, opening, EventView::Completed(opened))
                == StepView::Continue(writing, ActionView::Write(frame(request.body)))
            &&& next_step(peer_id, max_frame_length, writing, EventView::Completed(written))
                == StepView::Continue(finishing, ActionView::Finish)
            &&& next_step(peer_id, max_frame_length, finishing, EventView::Completed(finished))
                == StepView::Delivered
        }),
{
}

/// A push never reads and never gives a response.
pub proof fn push_never_reads(
    peer_id: NodeId,
    max_frame_length: u32,
    state: CallStateView,
    event: EventView,
)
    requires
        state.request_type() == RequestType::Push,
    ensures
        match next_step(peer_id, max_frame_length, state, event) {
            StepView::Continue(_, action) => !(action is Read),
            StepView::Responded(_) => false,
            _ => true,
        },
{
}

/// An rpc is never over before its response is read: it ends with a
/// response or with a failure.
pub proof fn rpc_ends_with_a_response_or_fails(
    peer_id: NodeId,
    max_frame_length: u32,
    state: CallStateView,
    event: EventView,
)
    requires
        state.request_type() == RequestType::Rpc,
    ensures
        !(next_step(peer_id, max_frame_length, state, event) is Delivered),
{
}

/// No read is asked for that is longer than the length field or than the
/// maximum frame length.
pub proof fn reads_are_bounded(
    peer_id: NodeId,
    max_frame_length: u32,
    state: CallStateView,
    event: EventView,
)
    ensures
        match next_step(peer_id, max_frame_length, state, event) {
            StepView::Continue(_, ActionView::Read(n)) => n == 4 || n <= max_frame_length,
            _ => true,
        },
{
}

/// A response whose length field declares more than the maximum fails the
/// rpc as `Io`, counted against the read, and its payload is never asked
/// for.
pub proof fn oversized_response_fails(
    peer_id: NodeId,
    max_frame_length: u32,
    metrics: QuicTransportMetrics,
    header: Seq<u8>,
)
    requires
        header.len() == 4,
        declared_length(header) > max_frame_length,
    ensures
        ({
            let event = EventView::Completed(header);
            let step = next_step(peer_id, max_frame_length, CallStateView::ReadingLength, event);
            &&& step == StepView::Failed(frame_too_big())
            &&& frame_too_big() is Io
            &&& metrics_after(metrics, CallStateView::ReadingLength, event, step)
                == metrics.with_error(RequestType::Rpc, Stage::Read)
        }),
{
}

/// Every failure reported by the connection ends the call at once, with
/// the error that the classification gives for its cause, counted against
/// the stage of the operation that failed.
pub proof fn failure_ends_the_call(
    peer_id: NodeId,
    max_frame_length: u32,
    metrics: QuicTransportMetrics,
    state: CallStateView,
    cause: FailureCauseView,
)
    ensures
        ({
            let event = EventView::Failed(cause);
            let step = next_step(peer_id, max_frame_length, state, event);
            &&& step == StepView::Failed(classify(cause))
            &&& metrics_after(metrics, state, event, step) == metrics.with_error(
                state.request_type(),
                state.stage(),
            )
        }),
{
}

/// One call among many: the operations it has asked for so far, the state
/// it is in while it goes on, and the step that ended it once it is over.
pub struct Progress {
    /// The operations asked for, first to last.
    pub asked: Seq<ActionView>,
    /// The state of the call; `None` once it is over.
    pub state: Option<CallStateView>,
    /// The step that ended the call; `None` while it goes on.
    pub outcome: Option<StepView>,
}

/// A call that was just started.
pub open spec fn started(peer_id: NodeId, request_type: RequestType, request: MessageView)
    -> Progress {
    let (state, action) = start_call(peer_id, request_type, request);
    Progress { asked: seq![action], state: Some(state), outcome: None }
}

/// A call after one more of its operations ended. A call that is over
/// takes no event.
pub open spec fn advance(
    peer_id: NodeId,
    max_frame_length: u32,
    call: Progress,
    event: EventView,
) -> Progress {
    match call.state {
        None => call,
        Some(state) => match next_step(peer_id, max_frame_length, state, event) {
            StepView::Continue(next, action) => Progress {
                asked: call.asked.push(action),
                state: Some(next),
                outcome: None,
            },
            over => Progress { asked: call.asked, state: None, outcome: Some(over) },
        },
    }
}

/// A call that is given `events` one after the other, with no other call
/// beside it.
pub open spec fn alone(
    peer_id: NodeId,
    max_frame_length: u32,
    call: Progress,
    events: Seq<EventView>,
) -> Progress
    decreases events.len(),
{
    if events.len() == 0 {
        call
    } else {
        alone(
            peer_id,
            max_frame_length,
            advance(peer_id, max_frame_length, call, events[0]),
            events.drop_first(),
        )
    }
}

/// The calls on one connection after the operation of call `index` ended
/// with `event`. An index that names no call changes nothing.
pub open spec fn deliver(
    peer_id: NodeId,
    max_frame_length: u32,
    calls: Seq<Progress>,
    index: int,
    event: EventView,
) -> Seq<Progress> {
    if 0 <= index < calls.len() {
        calls.update(index, advance(peer_id, max_frame_length, calls[index], event))
    } else {
        calls
    }
}

/// The calls on one connection after the events of `schedule`, each given
/// to the call that it names, in the order of the schedule.
pub open spec fn interleave(
    peer_id: NodeId,
    max_frame_length: u32,
    calls: Seq<Progress>,
    schedule: Seq<(int, EventView)>,
) -> Seq<Progress>
    decreases schedule.len(),
{
    if schedule.len() == 0 {
        calls
    } else {
        interleave(
            peer_id,
            max_frame_length,
            deliver(peer_id, max_frame_length, calls, schedule[0].0, schedule[0].1),
            schedule.drop_first(),
        )
    }
}

/// The events of a schedule that are for call `index`, in their order.
pub open spec fn own_events(schedule: Seq<(int, EventView)>, index: int) -> Seq<EventView>
    decreases schedule.len(),
{
    if schedule.len() == 0 {
        Seq::empty()
    } else if schedule[0].0 == index {
        seq![schedule[0].1] + own_events(schedule.drop_first(), index)
    } else {
        own_events(schedule.drop_first(), index)
    }
}

/// Any number of calls on one connection, under any schedule: each call
/// asks for the operations, and ends with the step, that it would alone on
/// the events that are its own. It takes nothing from the events of another
/// call, and the number of calls stays.
pub proof fn interleaved_call_is_as_alone(
    peer_id: NodeId,
    max_frame_length: u32,
    calls: Seq<Progress>,
    schedule: Seq<(int, EventView)>,
    index: int,
)
    requires
        0 <= index < calls.len(),
    ensures
        interleave(peer_id, max_frame_length, calls, schedule).len() == calls.len(),
        interleave(peer_id, max_frame_length, calls, schedule)[index] == alone(
            peer_id,
            max_frame_length,
            calls[index],
            own_events(schedule, index),
        ),
    decreases schedule.len(),
{
    if schedule.len() > 0 {
        let next = deliver(peer_id, max_frame_length, calls, schedule[0].0, schedule[0].1);
        interleaved_call_is_as_alone(
            peer_id,
            max_frame_length,
            next,
            schedule.drop_first(),
            index,
        );
        if schedule[0].0 == index {
            let own = own_events(schedule, index);
            assert(own.drop_first() =~= own_events(schedule.drop_first(), index));
        }
    }
}

/// The events of an rpc on which every operation succeeds and whose reads
/// are given the frame of `response`: the length field, then the payload.
pub open spec fn answered(response: Seq<u8>) -> Seq<EventView> {
    seq![
        EventView::Completed(Seq::empty()),
        EventView::Completed(Seq::empty()),
        EventView::Completed(Seq::empty()),
        EventView::Completed(frame(response).subrange(0, 4)),
        EventView::Completed(frame(response).subrange(4, frame(response).len() as int)),
    ]
}

/// An rpc alone on a stream that answers with the frame of `response`
/// returns `response` with the peer's identity, and asks for one open, one
/// write of the frame of its own request, one finish and the two reads of
/// one frame, and for nothing else.
pub proof fn answered_rpc_alone(
    peer_id: NodeId,
    max_frame_length: u32,
    request: MessageView,
    response: Seq<u8>,
)
    requires
        request.body.len() <= max_frame_length,
        response.len() <= max_frame_length,
    ensures
        ({
            let end = alone(
                peer_id,
                max_frame_length,
                started(peer_id, RequestType::Rpc, request),
                answered(response),
            );
            &&& end.state is None
            &&& end.outcome == Some(
                StepView::Responded(
                    MessageView { body: response, metadata: attributed(peer_id, request).metadata },
                ),
            )
            &&& end.asked == seq![
                ActionView::OpenBidirectional,
                ActionView::Write(frame(request.body)),
                ActionView::Finish,
                ActionView::Read(4),
                ActionView::Read(response.len()),
            ]
        }),
{
    let wire = frame(response);
    length_prefix_round_trip(response.len());
    let header = wire.subrange(0, 4);
    assert(header[0] == wire[0] && header[1] == wire[1] && header[2] == wire[2] && header[3]
        == wire[3]);
    assert(declared_length(header) == response.len());
    assert(wire.subrange(4, wire.len() as int) =~= response);

    let e = answered(response);
    let p0 = started(peer_id, RequestType::Rpc, request);
    let p1 = advance(peer_id, max_frame_length, p0, e[0]);
    let p2 = advance(peer_id, max_frame_length, p1, e[1]);
    let p3 = advance(peer_id, max_frame_length, p2, e[2]);
    let p4 = advance(peer_id, max_frame_length, p3, e[3]);
    let p5 = advance(peer_id, max_frame_length, p4, e[4]);
    let e1 = e.drop_first();
    let e2 = e1.drop_first();
    let e3 = e2.drop_first();
    let e4 = e3.drop_first();
    let e5 = e4.drop_first();
    assert(e1[0] == e[1] && e2[0] == e[2] && e3[0] == e[3] && e4[0] == e[4] && e5.len() == 0);
    assert(alone(peer_id, max_frame_length, p5, e5) == p5);
    assert(alone(peer_id, max_frame_length, p4, e4) == p5);
    assert(alone(peer_id, max_frame_length, p3, e3) == p5);
    assert(alone(peer_id, max_frame_length, p2, e2) == p5);
    assert(alone(peer_id, max_frame_length, p1, e1) == p5);
    assert(alone(peer_id, max_frame_length, p0, e) == p5);
    assert(p5.asked =~= seq![
        ActionView::OpenBidirectional,
        ActionView::Write(frame(request.body)),
        ActionView::Finish,
        ActionView::Read(4),
        ActionView::Read(response.len()),
    ]);
}

/// Any number of rpcs on one connection, each on a stream of its own that
/// answers with one frame, under any schedule: the rpc at `index` returns
/// the response of its own stream, and asks for one open, one write of the
/// frame of its own request, one finish and the reads of its own frame.
pub proof fn concurrent_rpcs_get_their_own_responses(
    peer_id: NodeId,
    max_frame_length: u32,
    calls: Seq<Progress>,
    schedule: Seq<(int, EventView)>,
    index: int,
    request: MessageView,
    response: Seq<u8>,
)
    requires
        0 <= index < calls.len(),
        calls[index] == started(peer_id, RequestType::Rpc, request),
        own_events(schedule, index) == answered(response),
        request.body.len() <= max_frame_length,
        response.len() <= max_frame_length,
    ensures
        ({
            let end = interleave(peer_id, max_frame_length, calls, schedule)[index];
            &&& end.outcome == Some(
                StepView::Responded(
                    MessageView { body: response, metadata: attributed(peer_id, request).metadata },
                ),
            )
            &&& end.asked == seq![
                ActionView::OpenBidirectional,
                ActionView::Write(frame(request.body)),
                ActionView::Finish,
                ActionView::Read(4),
                ActionView::Read(response.len()),
            ]
        }),
{
    interleaved_call_is_as_alone(peer_id, max_frame_length, calls, schedule, index);
    answered_rpc_alone(peer_id, max_frame_length, request, response);
}

} // verus!
