//! The handle of the connection to one peer, and the course of a call on it.
//!
//! A call is a sequence of stream operations: open a stream, write the framed
//! request, finish the write side and, for an rpc, read one framed response.
//! The handle decides; the caller performs each operation that the handle
//! asks for and reports how it ended.
use vstd::prelude::*;
use crate::error::{classify, FailureCause, FailureCauseView, TransportError, TransportErrorView};
use crate::frame::{
    declared_length,
    decode_length,
    encode_frame,
    frame,
    frame_too_big,
    stream_ended_early,
    stream_ended_early_error,
    DEFAULT_MAX_FRAME_LENGTH,
    LENGTH_FIELD_LEN,
};
use crate::message::{MessageView, Metadata, NodeId, Request, Response};
use crate::metrics::{QuicTransportMetrics, RequestType, Stage};

verus! {

/// Where a call stands: the operation whose end it waits for.
#[derive(Clone, Debug, PartialEq, Eq)]
pub enum CallState {
    /// Waiting for the stream to open; holds the request to send on it.
    Opening { request_type: RequestType, request: Request },
    /// Waiting for the framed request to be written.
    Writing { request_type: RequestType },
    /// Waiting for the write side to be finished.
    Finishing { request_type: RequestType },
    /// Waiting for the length field of the response.
    ReadingLength,
    /// Waiting for the payload of the response.
    ReadingPayload { length: u32 },
}

/// Mathematical value of a [`CallState`].
pub enum CallStateView {
    Opening { request_type: RequestType, request: MessageView },
    Writing { request_type: RequestType },
    Finishing { request_type: RequestType },
    ReadingLength,
    ReadingPayload { length: u32 },
}

impl View for CallState {
    type V = CallStateView;

    open spec fn view(&self) -> CallStateView {
        match *self {
            CallState::Opening { request_type, request } => CallStateView::Opening {
                request_type,
                request: request@,
            },
            CallState::Writing { request_type } => CallStateView::Writing { request_type },
            CallState::Finishing { request_type } => CallStateView::Finishing { request_type },
            CallState::ReadingLength => CallStateView::ReadingLength,
            CallState::ReadingPayload { length } => CallStateView::ReadingPayload { length },
        }
    }
}

impl CallStateView {
    /// The type of the call. Only an rpc reads.
    pub open spec fn request_type(self) -> RequestType {
        match self {
            CallStateView::Opening { request_type, .. } => request_type,
            CallStateView::Writing { request_type } => request_type,
            CallStateView::Finishing { request_type } => request_type,
            CallStateView::ReadingLength => RequestType::Rpc,
            CallStateView::ReadingPayload { .. } => RequestType::Rpc,
        }
    }

    /// The most operations that can still end before the call is over.
    pub open spec fn steps_left(self) -> nat {
        match self {
            CallStateView::Opening { .. } => 5,
            CallStateView::Writing { .. } => 4,
            CallStateView::Finishing { .. } => 3,
            CallStateView::ReadingLength => 2,
            CallStateView::ReadingPayload { .. } => 1,
        }
    }

    /// Whether `action` is the operation whose end this state waits for.
    pub open spec fn awaits(self, action: ActionView) -> bool {
        match self {
            CallStateView::Opening { request_type, .. } => match request_type {
                RequestType::Rpc => action is OpenBidirectional,
                RequestType::Push => action is OpenUnidirectional,
            },
            CallStateView::Writing { .. } => action is Write,
            CallStateView::Finishing { .. } => action is Finish,
            CallStateView::ReadingLength => action == ActionView::Read(4),
            CallStateView::ReadingPayload { length } => action == ActionView::Read(length as nat),
        }
    }

    /// The stage against which a failure reported in this state is counted.
    pub open spec fn stage(self) -> Stage {
        match self {
            CallStateView::Opening { .. } => Stage::Open,
            CallStateView::Writing { .. } => Stage::Write,
            CallStateView::Finishing { .. } => Stage::Finish,
            CallStateView::ReadingLength => Stage::Read,
            CallStateView::ReadingPayload { .. } => Stage::Read,
        }
    }
}

/// How a stream operation ended.
#[derive(Clone, Debug, PartialEq, Eq)]
pub enum Event {
    /// It succeeded. A read gives the bytes that it read; any other
    /// operation gives none, and what stands here is not looked at.
    Completed(Vec<u8>),
    /// It failed.
    Failed(FailureCause),
}

/// Mathematical value of an [`Event`].
pub enum EventView {
    Completed(Seq<u8>),
    Failed(FailureCauseView),
}

impl View for Event {
    type V = EventView;

    open spec fn view(&self) -> EventView {
        match *self {
            Event::Completed(bytes) => EventView::Completed(bytes@),
            Event::Failed(cause) => EventView::Failed(cause@),
        }
    }
}

/// A stream operation that the caller is asked to perform.
#[derive(Clone, Debug, PartialEq, Eq)]
pub enum Action {
    /// Open a stream that is written and read.
    OpenBidirectional,
    /// Open a stream that is only written.
    OpenUnidirectional,
    /// Write these bytes to the stream.
    Write(Vec<u8>),
    /// Finish the write side of the stream.
    Finish,
    /// Read exactly this many bytes from the stream.
    Read(usize),
}

/// Mathematical value of an [`Action`].
pub enum ActionView {
    OpenBidirectional,
    OpenUnidirectional,
    Write(Seq<u8>),
    Finish,
    Read(nat),
}

impl View for Action {
    type V = ActionView;

    open spec fn view(&self) -> ActionView {
        match *self {
            Action::OpenBidirectional => ActionView::OpenBidirectional,
            Action::OpenUnidirectional => ActionView::OpenUnidirectional,
            Action::Write(bytes) => ActionView::Write(bytes@),
            Action::Finish => ActionView::Finish,
            Action::Read(n) => ActionView::Read(n as nat),
        }
    }
}

/// What a call does after an operation ended.
#[derive(Clone, Debug, PartialEq, Eq)]
pub enum Step {
    /// The call goes on: its new state and the next operation.
    Continue(CallState, Action),
    /// The rpc is over and this is its response.
    Responded(Response),
    /// The push is over: the request was written and the stream finished.
    Delivered,
    /// The call is over and failed.
    Failed(TransportError),
}

/// Mathematical value of a [`Step`].
pub enum StepView {
    Continue(CallStateView, ActionView),
    Responded(MessageView),
    Delivered,
    Failed(TransportErrorView),
}

impl View for Step {
    type V = StepView;

    open spec fn view(&self) -> StepView {
        match *self {
            Step::Continue(state, action) => StepView::Continue(state@, action@),
            Step::Responded(response) => StepView::Responded(response@),
            Step::Delivered => StepView::Delivered,
            Step::Failed(error) => StepView::Failed(error@),
        }
    }
}

/// The request as it is sent: with the identity of the handle's peer in its
/// metadata.
pub open spec fn attributed(peer_id: NodeId, message: MessageView) -> MessageView {
    MessageView { body: message.body, metadata: Metadata { peer_id: Some(peer_id) } }
}

/// The first state and operation of a call.
pub open spec fn start_call(peer_id: NodeId, request_type: RequestType, request: MessageView) -> (
    CallStateView,
    ActionView,
) {
    (
        CallStateView::Opening { request_type, request: attributed(peer_id, request) },
        match request_type {
            RequestType::Rpc => ActionView::OpenBidirectional,
            RequestType::Push => ActionView::OpenUnidirectional,
        },
    )
}

/// What a call in `state` does when its pending operation ends with `event`.
pub open spec fn next_step(
    peer_id: NodeId,
    max_frame_length: u32,
    state: CallStateView,
    event: EventView,
) -> StepView {
    match event {
        EventView::Failed(cause) => StepView::Failed(classify(cause)),
        EventView::Completed(bytes) => match state {
            CallStateView::Opening { request_type, request } => {
                if request.body.len() <= max_frame_length {
                    StepView::Continue(
                        CallStateView::Writing { request_type },
                        ActionView::Write(frame(request.body)),
                    )
                } else {
                    StepView::Failed(frame_too_big())
                }
            },
            CallStateView::Writing { request_type } => StepView::Continue(
                CallStateView::Finishing { request_type },
                ActionView::Finish,
            ),
            CallStateView::Finishing { request_type } => match request_type {
                RequestType::Rpc => StepView::Continue(
                    CallStateView::ReadingLength,
                    ActionView::Read(4),
                ),
                RequestType::Push => StepView::Delivered,
            },
            CallStateView::ReadingLength => {
                if bytes.len() != 4 {
                    StepView::Failed(stream_ended_early())
                } else if declared_length(bytes) > max_frame_length {
                    StepView::Failed(frame_too_big())
                } else {
                    StepView::Continue(
                        CallStateView::ReadingPayload { length: declared_length(bytes) as u32 },
                        ActionView::Read(declared_length(bytes)),
                    )
                }
            },
            CallStateView::ReadingPayload { length } => {
                if bytes.len() != length {
                    StepView::Failed(stream_ended_early())
                } else {
                    StepView::Responded(
                        MessageView { body: bytes, metadata: Metadata { peer_id: Some(peer_id) } },
                    )
                }
            },
        },
    }
}

/// The stage at which a call in `state` fails when it fails on `event`: the
/// stage of the operation that ended, but for a request too long to frame,
/// which fails at the write before anything is written.
pub open spec fn failing_stage(state: CallStateView, event: EventView) -> Stage {
    if state is Opening && event is Completed {
        Stage::Write
    } else {
        state.stage()
    }
}

/// The metrics after a step: a failed step is counted once, against the
/// type of the call and the stage at which it failed; no other step is
/// counted.
pub open spec fn metrics_after(
    metrics: QuicTransportMetrics,
    state: CallStateView,
    event: EventView,
    step: StepView,
) -> QuicTransportMetrics {
    if step is Failed {
        metrics.with_error(state.request_type(), failing_stage(state, event))
    } else {
        metrics
    }
}

/// The connection to one peer as the calls on it see it.
///
/// A clone of this value carries its own copy of the counters: what one
/// clone counts the other does not see. Handles that are to share one
/// connection and one set of counters share one value of this type, behind
/// whatever the caller uses to share it.
#[derive(Clone, Debug, PartialEq, Eq)]
pub struct ConnectionHandle {
    /// The peer at the other end.
    pub peer_id: NodeId,
    /// Largest payload that is sent or accepted.
    pub max_frame_length: u32,
    /// Counters of the calls made on this handle.
    pub metrics: QuicTransportMetrics,
}

impl ConnectionHandle {
    /// A handle for the connection to `peer_id`, with the default maximum
    /// frame length.
    pub fn new(peer_id: NodeId, metrics: QuicTransportMetrics) -> (r: ConnectionHandle)
        ensures
            r.peer_id == peer_id,
            r.metrics == metrics,
            r.max_frame_length == DEFAULT_MAX_FRAME_LENGTH,
    {
        ConnectionHandle { peer_id, max_frame_length: DEFAULT_MAX_FRAME_LENGTH, metrics }
    }

    /// A handle for the connection to `peer_id` with a maximum frame length
    /// of the caller's choice.
    pub fn with_max_frame_length(
        peer_id: NodeId,
        metrics: QuicTransportMetrics,
        max_frame_length: u32,
    ) -> (r: ConnectionHandle)
        ensures
            r.peer_id == peer_id,
            r.metrics == metrics,
            r.max_frame_length == max_frame_length,
    {
        ConnectionHandle { peer_id, max_frame_length, metrics }
    }

    fn start(&mut self, request_type: RequestType, request: Request) -> (r: (CallState, Action))
        ensures
            (r.0@, r.1@) == start_call(old(self).peer_id, request_type, request@),
            final(self).metrics == old(self).metrics.with_request(request_type),
            final(self).peer_id == old(self).peer_id,
            final(self).max_frame_length == old(self).max_frame_length,
    {
        self.metrics.count_request(request_type);
        let mut request = request;
        request.metadata.insert(self.peer_id);
        let action = match request_type {
            RequestType::Rpc => Action::OpenBidirectional,
            RequestType::Push => Action::OpenUnidirectional,
        };
        (CallState::Opening { request_type, request }, action)
    }

    /// Starts a request that waits for one response: counts it, puts the
    /// peer's identity into its metadata and asks for a bidirectional stream.
    pub fn rpc(&mut self, request: Request) -> (r: (CallState, Action))
        ensures
            (r.0@, r.1@) == start_call(old(self).peer_id, RequestType::Rpc, request@),
            final(self).metrics == old(self).metrics.with_request(RequestType::Rpc),
            final(self).peer_id == old(self).peer_id,
            final(self).max_frame_length == old(self).max_frame_length,
    {
        self.start(RequestType::Rpc, request)
    }

    /// Starts a one-way message: counts it, puts the peer's identity into
    /// its metadata and asks for a unidirectional stream.
    pub fn push(&mut self, request: Request) -> (r: (CallState, Action))
        ensures
            (r.0@, r.1@) == start_call(old(self).peer_id, RequestType::Push, request@),
            final(self).metrics == old(self).metrics.with_request(RequestType::Push),
            final(self).peer_id == old(self).peer_id,
            final(self).max_frame_length == old(self).max_frame_length,
    {
        self.start(RequestType::Push, request)
    }

    fn fail(&mut self, request_type: RequestType, stage: Stage, error: TransportError) -> (r: Step)
        ensures
            r@ == StepView::Failed(error@),
            final(self).metrics == old(self).metrics.with_error(request_type, stage),
            final(self).peer_id == old(self).peer_id,
            final(self).max_frame_length == old(self).max_frame_length,
    {
        self.metrics.count_error(request_type, stage);
        Step::Failed(error)
    }

    /// Fails an rpc whose response payload the caller could not turn into a
    /// response: the failure is classified, and counted against the read,
    /// of which making the response out of the payload is the last part.
    pub fn reject_response(&mut self, cause: FailureCause) -> (r: TransportError)
        ensures
            r@ == classify(cause@),
            final(self).metrics == old(self).metrics.with_error(RequestType::Rpc, Stage::Read),
            final(self).peer_id == old(self).peer_id,
            final(self).max_frame_length == old(self).max_frame_length,
    {
        self.metrics.count_error(RequestType::Rpc, Stage::Read);
        TransportError::from_cause(cause)
    }

    /// Takes a call one step on, after the operation that it waited for
    /// ended with `event`. A failure ends the call at once, classified and
    /// counted against the stage at which it happened.
    pub fn step(&mut self, state: CallState, event: Event) -> (r: Step)
        ensures
            r@ == next_step(old(self).peer_id, old(self).max_frame_length, state@, event@),
            final(self).metrics == metrics_after(old(self).metrics, state@, event@, r@),
            final(self).peer_id == old(self).peer_id,
            final(self).max_frame_length == old(self).max_frame_length,
    {
        match event {
            Event::Failed(cause) => {
                let (request_type, stage) = match state {
                    CallState::Opening { request_type, .. } => (request_type, Stage::Open),
                    CallState::Writing { request_type } => (request_type, Stage::Write),
                    CallState::Finishing { request_type } => (request_type, Stage::Finish),
                    CallState::ReadingLength => (RequestType::Rpc, Stage::Read),
                    CallState::ReadingPayload { .. } => (RequestType::Rpc, Stage::Read),
                };
                self.fail(request_type, stage, TransportError::from_cause(cause))
            },
            Event::Completed(bytes) => match state {
                CallState::Opening { request_type, request } => {
                    match encode_frame(&request.body, self.max_frame_length) {
                        Ok(framed) => Step::Continue(
                            CallState::Writing { request_type },
                            Action::Write(framed),
                        ),
                        Err(error) => self.fail(request_type, Stage::Write, error),
                    }
                },
                CallState::Writing { request_type } => Step::Continue(
                    CallState::Finishing { request_type },
                    Action::Finish,
                ),
                CallState::Finishing { request_type } => match request_type {
                    RequestType::Rpc => Step::Continue(
                        CallState::ReadingLength,
                        Action::Read(LENGTH_FIELD_LEN),
                    ),
                    RequestType::Push => Step::Delivered,
                },
                CallState::ReadingLength => {
                    if bytes.len() != LENGTH_FIELD_LEN {
                        self.fail(RequestType::Rpc, Stage::Read, stream_ended_early_error())
                    } else {
                        match decode_length(&bytes, self.max_frame_length) {
                            Ok(length) => Step::Continue(
                                CallState::ReadingPayload { length },
                                Action::Read(length as usize),
                            ),
                            Err(error) => self.fail(RequestType::Rpc, Stage::Read, error),
                        }
                    }
                },
                CallState::ReadingPayload { length } => {
                    if bytes.len() != length as usize {
                        self.fail(RequestType::Rpc, Stage::Read, stream_ended_early_error())
                    } else {
                        Step::Responded(
                            Response { body: bytes, metadata: Metadata { peer_id: Some(self.peer_id) } },
                        )
                    }
                },
            },
        }
    }
}

} // verus!
