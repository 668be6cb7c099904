//! One whole poll of a handler, as a driver performs it, and what holds of
//! runs of polls and transport events.
//!
//! A poll starts with `PollInput::Start`; the driver then performs each
//! action that hands it a future or a stream and reports the outcome, until
//! the handler asks for a substream, reports a result, or suspends. At most
//! one inbound read, one send start and one send are polled on the way.

use crate::handler::{
    connection_step, poll_step, reset_deadline, ConnectionEvent, HandlerModel, HelloWorldFailure,
    HelloWorldSuccess, OutboundState, PollAction, PollInput, SEND_INTERVAL_MS,
};
use vstd::prelude::*;

verus! {

/// How the inbound read turns out when the driver polls it.
pub enum ReadOutcome<F> {
    /// Still pending.
    Pending,
    /// Failed, or the substream closed before a whole message arrived.
    Failed,
    /// A message arrived; the future reads the next one.
    Received(F),
}

/// How the send turns out when the driver polls it.
pub enum SendOutcome<S, E> {
    /// Still pending.
    Pending,
    /// Written and flushed; the substream comes back.
    Done(S),
    /// Failed.
    Failed(E),
}

/// The outcomes the driver meets during one poll, for whichever of them the
/// handler asks for.
pub struct PollOutcomes<S, F, E> {
    /// The inbound read, if polled.
    pub read: ReadOutcome<F>,
    /// The send the driver starts, if asked to start one.
    pub started: F,
    /// The send, if polled.
    pub send: SendOutcome<S, E>,
}

/// What the driver reports after polling the inbound read `f`.
pub open spec fn read_input<S, F, E>(f: F, o: ReadOutcome<F>) -> PollInput<S, F, E> {
    match o {
        ReadOutcome::Pending => PollInput::InboundPending(f),
        ReadOutcome::Failed => PollInput::InboundFailed,
        ReadOutcome::Received(g) => PollInput::InboundReceived(g),
    }
}

/// What the driver reports after polling the send `f`.
pub open spec fn send_input<S, F, E>(f: F, o: SendOutcome<S, E>) -> PollInput<S, F, E> {
    match o {
        SendOutcome::Pending => PollInput::SendPending(f),
        SendOutcome::Done(s) => PollInput::SendDone(s),
        SendOutcome::Failed(e) => PollInput::SendFailed(e),
    }
}

/// One whole poll at time `now`: the handler's state afterwards and the
/// action that ended the poll.
pub open spec fn poll_cycle<S, F, E>(m: HandlerModel<S, F, E>, now: u64, o: PollOutcomes<S, F, E>) -> (
    HandlerModel<S, F, E>,
    PollAction<S, F, E>,
) {
    let (m1, a1) = poll_step(m, now, PollInput::Start);
    let (m2, a2) = match a1 {
        PollAction::PollInbound(f) => poll_step(m1, now, read_input(f, o.read)),
        _ => (m1, a1),
    };
    let (m3, a3) = match a2 {
        PollAction::StartSend(_) => poll_step(m2, now, PollInput::SendStarted(o.started)),
        _ => (m2, a2),
    };
    match a3 {
        PollAction::PollSend(f) => poll_step(m3, now, send_input(f, o.send)),
        _ => (m3, a3),
    }
}

/// An action that ends a poll.
pub open spec fn ends_poll<S, F, E>(a: PollAction<S, F, E>) -> bool {
    a is RequestSubstream || a is Notify || a is Pending
}

/// A poll always ends after at most four steps: the driver never has to
/// poll more than the steps `poll_cycle` shows.
pub proof fn lemma_poll_ends<S, F, E>(m: HandlerModel<S, F, E>, now: u64, o: PollOutcomes<S, F, E>)
    requires
        now < reset_deadline(now),
    ensures
        ends_poll(poll_cycle(m, now, o).1),
{
}

/// Whatever happens at one moment of a connection's life.
pub enum Occurrence<S, F, E> {
    /// The handler is polled.
    Poll(PollOutcomes<S, F, E>),
    /// The transport reports an event.
    Transport(ConnectionEvent<F, E>),
}

/// An occurrence at time `now`, in milliseconds.
pub struct Tick<S, F, E> {
    pub now: u64,
    pub what: Occurrence<S, F, E>,
}

/// The effect of one tick, and the action that ended it if it was a poll.
pub open spec fn tick_step<S, F, E>(m: HandlerModel<S, F, E>, t: Tick<S, F, E>) -> (
    HandlerModel<S, F, E>,
    Option<PollAction<S, F, E>>,
) {
    match t.what {
        Occurrence::Poll(o) => {
            let (m1, a) = poll_cycle(m, t.now, o);
            (m1, Some(a))
        },
        Occurrence::Transport(e) => (connection_step(m, t.now, e), None),
    }
}

/// The handler's state after a run of ticks.
pub open spec fn run<S, F, E>(m: HandlerModel<S, F, E>, trace: Seq<Tick<S, F, E>>) -> HandlerModel<S, F, E>
    decreases trace.len(),
{
    if trace.len() == 0 {
        m
    } else {
        tick_step(run(m, trace.drop_last()), trace.last()).0
    }
}

/// The action that ended the `i`-th tick of a run, if it was a poll.
pub open spec fn report<S, F, E>(m: HandlerModel<S, F, E>, trace: Seq<Tick<S, F, E>>, i: int) -> Option<
    PollAction<S, F, E>,
> {
    tick_step(run(m, trace.take(i)), trace[i]).1
}

proof fn lemma_run_take_succ<S, F, E>(m: HandlerModel<S, F, E>, trace: Seq<Tick<S, F, E>>, i: int)
    requires
        0 <= i < trace.len(),
    ensures
        run(m, trace.take(i + 1)) == tick_step(run(m, trace.take(i)), trace[i]).0,
{
    assert(trace.take(i + 1).drop_last() =~= trace.take(i));
}

/// A poll in which the inbound read completes.
pub open spec fn completes_read<S, F, E>(t: Tick<S, F, E>) -> bool {
    t.what matches Occurrence::Poll(o) && o.read is Received
}

/// Every completed inbound read is reported as `Received` in the poll that
/// completes it, and leaves exactly one read armed: the one that follows it.
pub proof fn lemma_inbound_rearmed<S, F, E>(m: HandlerModel<S, F, E>, trace: Seq<Tick<S, F, E>>)
    requires
        m.inbound is Some,
        forall|i: int|
            0 <= i < trace.len() ==> completes_read(#[trigger] trace[i]),
    ensures
        forall|i: int|
            0 <= i < trace.len() ==> #[trigger] report(m, trace, i) == Some(
                PollAction::<S, F, E>::Notify(Ok(HelloWorldSuccess::Received)),
            ) && run(m, trace.take(i + 1)).inbound == Some(
                trace[i].what->Poll_0.read->Received_0,
            ),
{
    assert forall|i: int| 0 <= i < trace.len() implies #[trigger] report(m, trace, i) == Some(
        PollAction::<S, F, E>::Notify(Ok(HelloWorldSuccess::Received)),
    ) && run(m, trace.take(i + 1)).inbound == Some(trace[i].what->Poll_0.read->Received_0) by {
        lemma_armed_throughout(m, trace, i);
        lemma_run_take_succ(m, trace, i);
    }
}

proof fn lemma_armed_throughout<S, F, E>(m: HandlerModel<S, F, E>, trace: Seq<Tick<S, F, E>>, k: int)
    requires
        m.inbound is Some,
        0 <= k <= trace.len(),
        forall|i: int|
            0 <= i < trace.len() ==> completes_read(#[trigger] trace[i]),
    ensures
        run(m, trace.take(k)).inbound is Some,
    decreases k,
{
    if k == 0 {
        assert(trace.take(0) =~= Seq::<Tick<S, F, E>>::empty());
    } else {
        lemma_armed_throughout(m, trace, k - 1);
        lemma_run_take_succ(m, trace, k - 1);
    }
}

/// A poll in which the inbound read, if there is one, stays pending.
pub open spec fn read_stays_pending<S, F, E>(o: PollOutcomes<S, F, E>) -> bool {
    o.read is Pending
}

/// When the requested substream is not negotiated in time, the next poll
/// reports exactly one `Timeout`, and the poll after it requests a new
/// substream: the handler never stays waiting for the lost one.
pub proof fn lemma_negotiation_timeout_recovery<S, F, E>(
    m: HandlerModel<S, F, E>,
    t0: u64,
    t1: u64,
    o1: PollOutcomes<S, F, E>,
    t2: u64,
    o2: PollOutcomes<S, F, E>,
)
    requires
        m.outbound == Some(OutboundState::<S, F>::OpenStream),
        m.pending.len() == 0,
        read_stays_pending(o1),
        read_stays_pending(o2),
    ensures
        ({
            let m1 = connection_step(
                m,
                t0,
                ConnectionEvent::DialUpgradeError(HelloWorldFailure::Timeout),
            );
            let (m2, a2) = poll_cycle(m1, t1, o1);
            let (m3, a3) = poll_cycle(m2, t2, o2);
            &&& a2 == PollAction::<S, F, E>::Notify(Err(HelloWorldFailure::Timeout))
            &&& m2.pending.len() == 0
            &&& a3 == PollAction::<S, F, E>::RequestSubstream
            &&& m3.outbound == Some(OutboundState::<S, F>::OpenStream)
        }),
{
    let m1 = connection_step(m, t0, ConnectionEvent::DialUpgradeError(HelloWorldFailure::Timeout));
    assert(m1.pending =~= seq![HelloWorldFailure::Timeout]);
    assert(m1.pending.drop_first().len() == 0);
}

/// A send still pending when the timer fires is reported as exactly one
/// `Timeout` in that poll, and the next poll requests a new substream.
pub proof fn lemma_send_timeout_recovery<S, F, E>(
    m: HandlerModel<S, F, E>,
    f: F,
    t1: u64,
    o1: PollOutcomes<S, F, E>,
    t2: u64,
    o2: PollOutcomes<S, F, E>,
)
    requires
        m.outbound == Some(OutboundState::<S, F>::HelloWorld(f)),
        m.pending.len() == 0,
        t1 >= m.deadline,
        read_stays_pending(o1),
        o1.send is Pending,
        read_stays_pending(o2),
    ensures
        ({
            let (m2, a2) = poll_cycle(m, t1, o1);
            let (m3, a3) = poll_cycle(m2, t2, o2);
            &&& a2 == PollAction::<S, F, E>::Notify(Err(HelloWorldFailure::Timeout))
            &&& m2.pending.len() == 0
            &&& a3 == PollAction::<S, F, E>::RequestSubstream
            &&& m3.outbound == Some(OutboundState::<S, F>::OpenStream)
        }),
{
    let e: Seq<HelloWorldFailure<E>> = Seq::empty();
    assert(e.push(HelloWorldFailure::Timeout).drop_first().len() == 0);
}

/// A send is in flight.
pub open spec fn sending<S, F, E>(m: HandlerModel<S, F, E>) -> bool {
    m.outbound matches Some(OutboundState::HelloWorld(_))
}

/// A message is reported in the poll that completes it: a completed read as
/// `Received`, and, when no read completes and no failure waits, a
/// completed send as `Sent`, leaving the substream idle.
pub proof fn lemma_completions_reported<S, F, E>(
    m: HandlerModel<S, F, E>,
    now: u64,
    o: PollOutcomes<S, F, E>,
)
    ensures
        ({
            let (m1, a) = poll_cycle(m, now, o);
            &&& (m.inbound is Some && o.read is Received) ==> a
                == PollAction::<S, F, E>::Notify(Ok(HelloWorldSuccess::Received))
            &&& (m.pending.len() == 0 && !(m.inbound is Some && o.read is Received)
                && sending(m) && o.send is Done) ==> {
                &&& a == PollAction::<S, F, E>::Notify(Ok(HelloWorldSuccess::Sent))
                &&& m1.outbound == Some(OutboundState::<S, F>::Idle(o.send->Done_0))
            }
        }),
{
}

/// A tick a correct transport can produce in state `m`: the outcome of an
/// outbound negotiation comes only while one is requested.
pub open spec fn transport_conforms<S, F, E>(m: HandlerModel<S, F, E>, t: Tick<S, F, E>) -> bool {
    match t.what {
        Occurrence::Transport(ConnectionEvent::FullyNegotiatedOutbound(_)) => m.outbound == Some(
            OutboundState::<S, F>::OpenStream,
        ),
        Occurrence::Transport(ConnectionEvent::DialUpgradeError(_)) => m.outbound == Some(
            OutboundState::<S, F>::OpenStream,
        ),
        _ => true,
    }
}

/// A run as a driver and a transport produce it: times never go back and
/// stay one interval below the largest time, and the transport conforms.
pub open spec fn well_formed_run<S, F, E>(m: HandlerModel<S, F, E>, trace: Seq<Tick<S, F, E>>) -> bool {
    &&& forall|i: int| 0 <= i < trace.len() ==> transport_conforms(run(m, trace.take(i)), #[trigger] trace[i])
    &&& forall|i: int, j: int| 0 <= i <= j < trace.len() ==> #[trigger] trace[i].now <= #[trigger] trace[j].now
    &&& forall|i: int| 0 <= i < trace.len() ==> #[trigger] trace[i].now <= u64::MAX - SEND_INTERVAL_MS
}

/// The report of a failure.
pub open spec fn reports_failure<S, F, E>(a: Option<PollAction<S, F, E>>) -> bool {
    a matches Some(PollAction::Notify(Err(_)))
}

/// The report of a sent message.
pub open spec fn reports_sent<S, F, E>(a: Option<PollAction<S, F, E>>) -> bool {
    a == Some(PollAction::<S, F, E>::Notify(Ok(HelloWorldSuccess::Sent)))
}

/// What holds after a message was sent at `t`, while no failure is
/// reported, when the last tick happened at `last`.
spec fn sent_since<S, F, E>(m: HandlerModel<S, F, E>, t: u64, last: u64) -> bool {
    &&& m.pending.len() == 0
    &&& match m.outbound {
        Some(OutboundState::Idle(_)) => m.deadline >= t + SEND_INTERVAL_MS,
        Some(OutboundState::HelloWorld(_)) => last >= t + SEND_INTERVAL_MS,
        _ => false,
    }
}

proof fn lemma_sent_establishes<S, F, E>(m: HandlerModel<S, F, E>, tk: Tick<S, F, E>)
    requires
        tk.now <= u64::MAX - SEND_INTERVAL_MS,
        reports_sent(tick_step(m, tk).1),
    ensures
        sent_since(tick_step(m, tk).0, tk.now, tk.now),
{
}

proof fn lemma_sent_preserved<S, F, E>(m: HandlerModel<S, F, E>, tk: Tick<S, F, E>, t: u64, last: u64)
    requires
        sent_since(m, t, last),
        last <= tk.now <= u64::MAX - SEND_INTERVAL_MS,
        transport_conforms(m, tk),
        !reports_failure(tick_step(m, tk).1),
    ensures
        sent_since(tick_step(m, tk).0, t, tk.now),
        reports_sent(tick_step(m, tk).1) ==> tk.now >= t + SEND_INTERVAL_MS,
{
}

proof fn lemma_sent_persists<S, F, E>(
    m: HandlerModel<S, F, E>,
    trace: Seq<Tick<S, F, E>>,
    i: int,
    k: int,
)
    requires
        well_formed_run(m, trace),
        0 <= i < k <= trace.len(),
        reports_sent(report(m, trace, i)),
        forall|l: int| i < l < k ==> !reports_failure(#[trigger] report(m, trace, l)),
    ensures
        sent_since(run(m, trace.take(k)), trace[i].now, trace[k - 1].now),
    decreases k,
{
    if k == i + 1 {
        lemma_run_take_succ(m, trace, i);
        lemma_sent_establishes(run(m, trace.take(i)), trace[i]);
    } else {
        lemma_sent_persists(m, trace, i, k - 1);
        lemma_run_take_succ(m, trace, k - 1);
        assert(!reports_failure(report(m, trace, k - 1)));
        lemma_sent_preserved(run(m, trace.take(k - 1)), trace[k - 1], trace[i].now, trace[k - 2].now);
    }
}

/// While no failure is reported, two `Sent` reports of one connection are at
/// least one interval apart, so no interval holds two of them.
pub proof fn lemma_idle_cadence<S, F, E>(
    m: HandlerModel<S, F, E>,
    trace: Seq<Tick<S, F, E>>,
    i: int,
    j: int,
)
    requires
        well_formed_run(m, trace),
        0 <= i < j < trace.len(),
        reports_sent(report(m, trace, i)),
        reports_sent(report(m, trace, j)),
        forall|l: int| i < l < j ==> !reports_failure(#[trigger] report(m, trace, l)),
    ensures
        trace[j].now >= trace[i].now + SEND_INTERVAL_MS,
{
    lemma_sent_persists(m, trace, i, j);
    lemma_sent_preserved(run(m, trace.take(j)), trace[j], trace[i].now, trace[j - 1].now);
}

} // verus!
