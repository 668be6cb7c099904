//! The per-connection handler: keeps one inbound read armed, sends a message
//! on an outbound substream once per interval, and reports a timeout when a
//! negotiation or a send stalls.
//!
//! The handler owns the substreams and futures, but never polls them itself:
//! a driver hands it a `PollInput`, and it answers with the `PollAction` the
//! driver has to perform next (poll a future, start a send, request a
//! substream, report an event, or suspend). The driver answers each action
//! that hands it a stream or a future with the matching input.

use std::collections::VecDeque;
use vstd::prelude::*;

verus! {

/// Time between two messages on an idle substream, and the longest a send
/// may take, in milliseconds.
pub const SEND_INTERVAL_MS: u64 = 5000;

/// The successful result of processing an inbound or outbound message.
#[derive(Clone, Copy, Debug, PartialEq, Eq, Structural)]
pub enum HelloWorldSuccess {
    /// Received a message.
    Received,
    /// Sent a message.
    Sent,
}

/// An outbound failure.
#[derive(Debug)]
pub enum HelloWorldFailure<E> {
    /// The negotiation or the send timed out.
    Timeout,
    /// The negotiation or the send failed for reasons other than a timeout.
    Other { error: E },
}

impl<E> HelloWorldFailure<E> {
    /// The underlying error of a failure other than a timeout.
    pub fn source(&self) -> (r: Option<&E>)
        ensures
            match self {
                HelloWorldFailure::Timeout => r is None,
                HelloWorldFailure::Other { error } => r == Some(error),
            },
    {
        match self {
            HelloWorldFailure::Timeout => None,
            HelloWorldFailure::Other { error } => Some(error),
        }
    }
}

/// The state of the outbound substream, while one exists or is requested.
#[derive(Debug)]
pub enum OutboundState<S, F> {
    /// A new substream is being negotiated.
    OpenStream,
    /// The substream is idle, waiting to send the next message.
    Idle(S),
    /// A message is being sent.
    HelloWorld(F),
}

/// What the transport reports about the substreams of this connection.
pub enum ConnectionEvent<F, E> {
    /// An inbound substream was negotiated; the future reads its next message.
    FullyNegotiatedInbound(F),
    /// The requested outbound substream was negotiated; the future sends a
    /// message on it.
    FullyNegotiatedOutbound(F),
    /// The requested outbound substream could not be negotiated.
    DialUpgradeError(HelloWorldFailure<E>),
}

/// What the driver hands the handler: the start of a poll, or the outcome
/// of the action the handler asked for last.
pub enum PollInput<S, F, E> {
    /// A new poll begins.
    Start,
    /// The inbound read is still pending; here it is back.
    InboundPending(F),
    /// The inbound read failed.
    InboundFailed,
    /// The inbound read completed; the future reads the next message on the
    /// same substream.
    InboundReceived(F),
    /// The send asked for by `StartSend` was started.
    SendStarted(F),
    /// The send is still pending; here it is back.
    SendPending(F),
    /// The send completed and handed back its substream.
    SendDone(S),
    /// The send failed.
    SendFailed(E),
}

/// What the handler asks the driver to do next.
pub enum PollAction<S, F, E> {
    /// Poll this inbound read, then report with an `Inbound*` input.
    PollInbound(F),
    /// Start a send on this substream, then report with `SendStarted`.
    StartSend(S),
    /// Poll this send, then report with `SendPending`, `SendDone` or
    /// `SendFailed`.
    PollSend(F),
    /// Request a new outbound substream, negotiated within the interval;
    /// the poll ends.
    RequestSubstream,
    /// Report this result upward; the poll ends.
    Notify(Result<HelloWorldSuccess, HelloWorldFailure<E>>),
    /// Nothing to do until a future or the timer wakes the handler; the
    /// poll ends.
    Pending,
}

/// The state of a handler, as the contracts see it.
pub struct HandlerModel<S, F, E> {
    /// When the timer fires, in milliseconds.
    pub deadline: u64,
    /// Failures not yet reported, oldest first.
    pub pending: Seq<HelloWorldFailure<E>>,
    /// The outbound state; `None` when no substream is requested.
    pub outbound: Option<OutboundState<S, F>>,
    /// The armed inbound read, if an inbound substream exists.
    pub inbound: Option<F>,
}

/// The deadline of a timer reset at `now`.
pub open spec fn reset_deadline(now: u64) -> u64 {
    if now + SEND_INTERVAL_MS > u64::MAX {
        u64::MAX
    } else {
        (now + SEND_INTERVAL_MS) as u64
    }
}

/// A handler just created at `now`.
pub open spec fn initial_model<S, F, E>(now: u64) -> HandlerModel<S, F, E> {
    HandlerModel { deadline: reset_deadline(now), pending: Seq::empty(), outbound: None, inbound: None }
}

/// The outbound part of a poll: report the oldest failure first; otherwise
/// hand out the send in flight, start the next send once the timer fired, or
/// request a substream when there is none.
pub open spec fn advance_outbound<S, F, E>(m: HandlerModel<S, F, E>, now: u64) -> (
    HandlerModel<S, F, E>,
    PollAction<S, F, E>,
) {
    if m.pending.len() > 0 {
        (
            HandlerModel { pending: m.pending.drop_first(), ..m },
            PollAction::Notify(Err(m.pending[0])),
        )
    } else {
        match m.outbound {
            Some(OutboundState::HelloWorld(f)) => (
                HandlerModel { outbound: None, ..m },
                PollAction::PollSend(f),
            ),
            Some(OutboundState::Idle(s)) => if now >= m.deadline {
                (
                    HandlerModel { outbound: None, deadline: reset_deadline(now), ..m },
                    PollAction::StartSend(s),
                )
            } else {
                (m, PollAction::Pending)
            },
            Some(OutboundState::OpenStream) => (m, PollAction::Pending),
            None => (
                HandlerModel { outbound: Some(OutboundState::OpenStream), ..m },
                PollAction::RequestSubstream,
            ),
        }
    }
}

/// One step of a poll at time `now`.
pub open spec fn poll_step<S, F, E>(m: HandlerModel<S, F, E>, now: u64, input: PollInput<S, F, E>) -> (
    HandlerModel<S, F, E>,
    PollAction<S, F, E>,
) {
    match input {
        PollInput::Start => match m.inbound {
            Some(f) => (HandlerModel { inbound: None, ..m }, PollAction::PollInbound(f)),
            None => advance_outbound(m, now),
        },
        PollInput::InboundPending(f) => advance_outbound(HandlerModel { inbound: Some(f), ..m }, now),
        PollInput::InboundFailed => advance_outbound(HandlerModel { inbound: None, ..m }, now),
        PollInput::InboundReceived(f) => (
            HandlerModel { inbound: Some(f), ..m },
            PollAction::Notify(Ok(HelloWorldSuccess::Received)),
        ),
        PollInput::SendStarted(f) => advance_outbound(
            HandlerModel { outbound: Some(OutboundState::HelloWorld(f)), ..m },
            now,
        ),
        PollInput::SendPending(f) => if now >= m.deadline {
            advance_outbound(
                HandlerModel {
                    outbound: None,
                    pending: m.pending.push(HelloWorldFailure::Timeout),
                    ..m
                },
                now,
            )
        } else {
            (HandlerModel { outbound: Some(OutboundState::HelloWorld(f)), ..m }, PollAction::Pending)
        },
        PollInput::SendDone(s) => (
            HandlerModel {
                deadline: reset_deadline(now),
                outbound: Some(OutboundState::Idle(s)),
                ..m
            },
            PollAction::Notify(Ok(HelloWorldSuccess::Sent)),
        ),
        PollInput::SendFailed(e) => advance_outbound(
            HandlerModel {
                outbound: None,
                pending: m.pending.push(HelloWorldFailure::Other { error: e }),
                ..m
            },
            now,
        ),
    }
}

/// The effect of a transport event at time `now`.
pub open spec fn connection_step<S, F, E>(
    m: HandlerModel<S, F, E>,
    now: u64,
    event: ConnectionEvent<F, E>,
) -> HandlerModel<S, F, E> {
    match event {
        ConnectionEvent::FullyNegotiatedInbound(f) => HandlerModel { inbound: Some(f), ..m },
        ConnectionEvent::FullyNegotiatedOutbound(f) => HandlerModel {
            deadline: reset_deadline(now),
            outbound: Some(OutboundState::HelloWorld(f)),
            ..m
        },
        ConnectionEvent::DialUpgradeError(e) => HandlerModel {
            outbound: None,
            pending: m.pending.push(e),
            ..m
        },
    }
}

/// Protocol handler that sends a message to the remote once per interval
/// and reads the remote's messages.
pub struct HelloWorldHandler<S, F, E> {
    /// When the timer fires: the next send, or the end of the send in flight.
    timer_deadline: u64,
    /// Outbound failures not yet reported, oldest at the front.
    pending_errors: VecDeque<HelloWorldFailure<E>>,
    /// The outbound state.
    outbound: Option<OutboundState<S, F>>,
    /// While an inbound substream exists, the read of its next message.
    inbound: Option<F>,
}

impl<S, F, E> View for HelloWorldHandler<S, F, E> {
    type V = HandlerModel<S, F, E>;

    closed spec fn view(&self) -> HandlerModel<S, F, E> {
        HandlerModel {
            deadline: self.timer_deadline,
            pending: self.pending_errors@,
            outbound: self.outbound,
            inbound: self.inbound,
        }
    }
}

impl<S, F, E> HelloWorldHandler<S, F, E> {
    /// A handler for a connection opened at `now`: no substream yet, no
    /// failure pending, the timer one interval away.
    pub fn new(now: u64) -> (h: Self)
        ensures
            h@ == initial_model::<S, F, E>(now),
    {
        let h = HelloWorldHandler {
            timer_deadline: now.saturating_add(SEND_INTERVAL_MS),
            pending_errors: VecDeque::new(),
            outbound: None,
            inbound: None,
        };
        assert(h@.pending =~= Seq::empty());
        h
    }

    /// When the timer fires next, so that the driver can wake the handler.
    pub fn deadline(&self) -> (r: u64)
        ensures
            r == self@.deadline,
    {
        self.timer_deadline
    }

    fn drive_outbound(&mut self, now: u64) -> (a: PollAction<S, F, E>)
        ensures
            (final(self)@, a) == advance_outbound(old(self)@, now),
    {
        if let Some(error) = self.pending_errors.pop_front() {
            proof {
                assert(final(self)@.pending =~= old(self)@.pending.drop_first());
            }
            return PollAction::Notify(Err(error));
        }
        match self.outbound.take() {
            Some(OutboundState::HelloWorld(f)) => PollAction::PollSend(f),
            Some(OutboundState::Idle(s)) => {
                if now >= self.timer_deadline {
                    self.timer_deadline = now.saturating_add(SEND_INTERVAL_MS);
                    PollAction::StartSend(s)
                } else {
                    self.outbound = Some(OutboundState::Idle(s));
                    PollAction::Pending
                }
            },
            Some(OutboundState::OpenStream) => {
                self.outbound = Some(OutboundState::OpenStream);
                PollAction::Pending
            },
            None => {
                self.outbound = Some(OutboundState::OpenStream);
                PollAction::RequestSubstream
            },
        }
    }

    /// Advances the handler by one step of a poll at time `now`.
    pub fn poll(&mut self, now: u64, input: PollInput<S, F, E>) -> (a: PollAction<S, F, E>)
        ensures
            (final(self)@, a) == poll_step(old(self)@, now, input),
    {
        match input {
            PollInput::Start => match self.inbound.take() {
                Some(f) => PollAction::PollInbound(f),
                None => self.drive_outbound(now),
            },
            PollInput::InboundPending(f) => {
                self.inbound = Some(f);
                self.drive_outbound(now)
            },
            PollInput::InboundFailed => {
                self.inbound = None;
                self.drive_outbound(now)
            },
            PollInput::InboundReceived(f) => {
                self.inbound = Some(f);
                PollAction::Notify(Ok(HelloWorldSuccess::Received))
            },
            PollInput::SendStarted(f) => {
                self.outbound = Some(OutboundState::HelloWorld(f));
                self.drive_outbound(now)
            },
            PollInput::SendPending(f) => {
                if now >= self.timer_deadline {
                    self.outbound = None;
                    self.pending_errors.push_back(HelloWorldFailure::Timeout);
                    self.drive_outbound(now)
                } else {
                    self.outbound = Some(OutboundState::HelloWorld(f));
                    PollAction::Pending
                }
            },
            PollInput::SendDone(s) => {
                self.timer_deadline = now.saturating_add(SEND_INTERVAL_MS);
                self.outbound = Some(OutboundState::Idle(s));
                PollAction::Notify(Ok(HelloWorldSuccess::Sent))
            },
            PollInput::SendFailed(e) => {
                self.outbound = None;
                self.pending_errors.push_back(HelloWorldFailure::Other { error: e });
                self.drive_outbound(now)
            },
        }
    }

    /// Takes in what the transport reports about this connection's
    /// substreams at time `now`.
    pub fn on_connection_event(&mut self, now: u64, event: ConnectionEvent<F, E>)
        ensures
            final(self)@ == connection_step(old(self)@, now, event),
    {
        match event {
            ConnectionEvent::FullyNegotiatedInbound(f) => {
                self.inbound = Some(f);
            },
            ConnectionEvent::FullyNegotiatedOutbound(f) => {
                self.timer_deadline = now.saturating_add(SEND_INTERVAL_MS);
                self.outbound = Some(OutboundState::HelloWorld(f));
            },
            ConnectionEvent::DialUpgradeError(e) => {
                self.outbound = None;
                self.pending_errors.push_back(e);
            },
        }
    }
}

} // verus!
