use hello_protocol::handler::{
    ConnectionEvent, HelloWorldFailure, HelloWorldHandler, HelloWorldSuccess, PollAction,
    PollInput, SEND_INTERVAL_MS,
};

type Outcome = Result<HelloWorldSuccess, HelloWorldFailure<String>>;

/// A future of the simulated transport: a read or a send on substream `n`.
#[derive(Debug, Clone, Copy, PartialEq)]
enum Fut {
    Read(usize),
    Send(usize),
}

type Handler = HelloWorldHandler<usize, Fut, String>;

/// One direction of a substream: the bytes written and not yet read.
struct Pipe {
    bytes: Vec<u8>,
    closed: bool,
}

/// Two peers, their handlers, the substreams between them, and how the
/// transport misbehaves.
struct Net {
    peers: Vec<Handler>,
    events: Vec<Vec<(u64, Outcome)>>,
    pipes: Vec<Pipe>,
    /// Outstanding substream requests: (requesting peer, time of request).
    requests: Vec<(usize, u64)>,
    hang_negotiation: bool,
    stall_sends: bool,
    fail_sends: bool,
}

impl Net {
    fn new(n: usize) -> Net {
        Net {
            peers: (0..n).map(|_| Handler::new(0)).collect(),
            events: (0..n).map(|_| Vec::new()).collect(),
            pipes: Vec::new(),
            requests: Vec::new(),
            hang_negotiation: false,
            stall_sends: false,
            fail_sends: false,
        }
    }

    fn pipe(&mut self) -> usize {
        self.pipes.push(Pipe { bytes: Vec::new(), closed: false });
        self.pipes.len() - 1
    }

    /// Polls peer `p` until it suspends, as a swarm does.
    fn poll_peer(&mut self, p: usize, now: u64) {
        for _ in 0..16 {
            let mut a = self.peers[p].poll(now, PollInput::Start);
            loop {
                a = match a {
                    PollAction::PollInbound(Fut::Read(n)) => {
                        let pipe = &mut self.pipes[n];
                        let input = if pipe.bytes.len() >= 2 {
                            pipe.bytes.drain(0..2);
                            PollInput::InboundReceived(Fut::Read(n))
                        } else if pipe.closed {
                            PollInput::InboundFailed
                        } else {
                            PollInput::InboundPending(Fut::Read(n))
                        };
                        self.peers[p].poll(now, input)
                    }
                    PollAction::StartSend(n) => self.peers[p].poll(now, PollInput::SendStarted(Fut::Send(n))),
                    PollAction::PollSend(Fut::Send(n)) => {
                        let input = if self.fail_sends {
                            PollInput::SendFailed("broken pipe".to_string())
                        } else if self.stall_sends {
                            PollInput::SendPending(Fut::Send(n))
                        } else {
                            self.pipes[n].bytes.extend_from_slice(b"hi");
                            PollInput::SendDone(n)
                        };
                        self.peers[p].poll(now, input)
                    }
                    PollAction::RequestSubstream => {
                        self.requests.push((p, now));
                        break;
                    }
                    PollAction::Notify(r) => {
                        self.events[p].push((now, r));
                        break;
                    }
                    PollAction::Pending => return,
                    _ => panic!("a future handed to the wrong poll"),
                };
            }
        }
    }

    /// The transport answers the substream requests that are due.
    fn negotiate(&mut self, now: u64) {
        let requests = std::mem::take(&mut self.requests);
        for (p, at) in requests {
            if self.hang_negotiation {
                if now >= at + SEND_INTERVAL_MS {
                    self.peers[p].on_connection_event(
                        now,
                        ConnectionEvent::DialUpgradeError(HelloWorldFailure::Timeout),
                    );
                } else {
                    self.requests.push((p, at));
                }
            } else {
                let n = self.pipe();
                let other = 1 - p;
                self.peers[p].on_connection_event(now, ConnectionEvent::FullyNegotiatedOutbound(Fut::Send(n)));
                self.peers[other].on_connection_event(now, ConnectionEvent::FullyNegotiatedInbound(Fut::Read(n)));
            }
        }
    }

    fn run_until(&mut self, from: u64, to: u64) {
        let mut now = from;
        while now <= to {
            self.negotiate(now);
            for p in 0..self.peers.len() {
                self.poll_peer(p, now);
            }
            now += 100;
        }
    }

    fn count(&self, p: usize, f: impl Fn(&Outcome) -> bool) -> usize {
        self.events[p].iter().filter(|(_, r)| f(r)).count()
    }
}

fn is_sent(r: &Outcome) -> bool {
    matches!(r, Ok(HelloWorldSuccess::Sent))
}

fn is_received(r: &Outcome) -> bool {
    matches!(r, Ok(HelloWorldSuccess::Received))
}

fn is_timeout(r: &Outcome) -> bool {
    matches!(r, Err(HelloWorldFailure::Timeout))
}

#[test]
fn two_peers_exchange_messages_for_twelve_seconds() {
    let mut net = Net::new(2);
    net.run_until(0, 12_000);
    for p in 0..2 {
        assert!(net.count(p, is_sent) >= 2);
        assert!(net.count(p, is_received) >= 2);
        assert_eq!(net.count(p, |r| r.is_err()), 0);
    }
}

#[test]
fn sends_of_one_connection_are_an_interval_apart() {
    let mut net = Net::new(2);
    net.run_until(0, 30_000);
    for p in 0..2 {
        let times: Vec<u64> = net.events[p].iter().filter(|(_, r)| is_sent(r)).map(|(t, _)| *t).collect();
        assert!(times.len() >= 5);
        for w in times.windows(2) {
            assert!(w[1] >= w[0] + SEND_INTERVAL_MS);
        }
    }
}

#[test]
fn a_sent_message_is_received_within_one_interval() {
    let mut net = Net::new(2);
    net.run_until(0, 12_000);
    let sent: Vec<u64> = net.events[0].iter().filter(|(_, r)| is_sent(r)).map(|(t, _)| *t).collect();
    let received: Vec<u64> = net.events[1].iter().filter(|(_, r)| is_received(r)).map(|(t, _)| *t).collect();
    for t in sent {
        assert!(received.iter().any(|r| *r >= t && *r <= t + SEND_INTERVAL_MS));
    }
}

#[test]
fn hanging_negotiation_times_out_once_per_interval() {
    let mut net = Net::new(1);
    net.hang_negotiation = true;
    net.run_until(0, 4_900);
    assert_eq!(net.count(0, is_timeout), 0);
    net.run_until(5_000, 5_000);
    assert_eq!(net.count(0, is_timeout), 1);
    net.run_until(5_100, 9_900);
    assert_eq!(net.count(0, is_timeout), 1);
    net.run_until(10_000, 10_000);
    assert_eq!(net.count(0, is_timeout), 2);
    assert_eq!(net.events[0].len(), 2);
}

#[test]
fn inbound_closed_mid_read_is_silent_and_a_new_substream_resumes() {
    let mut h = Handler::new(0);
    h.on_connection_event(0, ConnectionEvent::FullyNegotiatedInbound(Fut::Read(0)));
    let a = h.poll(10, PollInput::Start);
    assert!(matches!(a, PollAction::PollInbound(Fut::Read(0))));
    // one byte arrived, then the substream closed
    let a = h.poll(10, PollInput::InboundFailed);
    assert!(matches!(a, PollAction::RequestSubstream));
    // no read is armed any more: the next poll goes straight to the outbound side
    let a = h.poll(20, PollInput::Start);
    assert!(matches!(a, PollAction::Pending));
    h.on_connection_event(30, ConnectionEvent::FullyNegotiatedInbound(Fut::Read(1)));
    let a = h.poll(40, PollInput::Start);
    assert!(matches!(a, PollAction::PollInbound(Fut::Read(1))));
    let a = h.poll(40, PollInput::InboundReceived(Fut::Read(1)));
    assert!(matches!(a, PollAction::Notify(Ok(HelloWorldSuccess::Received))));
}

#[test]
fn every_completed_read_is_reported_and_rearmed() {
    let mut h = Handler::new(0);
    h.on_connection_event(0, ConnectionEvent::FullyNegotiatedInbound(Fut::Read(0)));
    for i in 0..5u64 {
        let a = h.poll(i, PollInput::Start);
        assert!(matches!(a, PollAction::PollInbound(Fut::Read(0))));
        let a = h.poll(i, PollInput::InboundReceived(Fut::Read(0)));
        assert!(matches!(a, PollAction::Notify(Ok(HelloWorldSuccess::Received))));
    }
    let a = h.poll(9, PollInput::Start);
    assert!(matches!(a, PollAction::PollInbound(Fut::Read(0))));
}

#[test]
fn stalled_send_times_out_and_a_new_substream_is_requested() {
    let mut net = Net::new(2);
    net.stall_sends = true;
    net.run_until(0, 5_000);
    assert_eq!(net.count(0, is_timeout), 0);
    net.run_until(5_100, 5_100);
    assert_eq!(net.count(0, is_timeout), 1);
    assert_eq!(net.count(0, is_sent), 0);
}

#[test]
fn failed_send_is_reported_as_other() {
    let mut net = Net::new(2);
    net.fail_sends = true;
    net.run_until(0, 0);
    net.run_until(100, 100);
    assert!(matches!(
        &net.events[0][0].1,
        Err(HelloWorldFailure::Other { error }) if error == "broken pipe"
    ));
}

#[test]
fn failures_are_reported_before_outbound_progress() {
    let mut h = Handler::new(0);
    assert!(matches!(h.poll(0, PollInput::Start), PollAction::RequestSubstream));
    h.on_connection_event(1, ConnectionEvent::DialUpgradeError(HelloWorldFailure::Other { error: "refused".to_string() }));
    h.on_connection_event(2, ConnectionEvent::DialUpgradeError(HelloWorldFailure::Timeout));
    assert!(matches!(h.poll(3, PollInput::Start), PollAction::Notify(Err(HelloWorldFailure::Other { .. }))));
    assert!(matches!(h.poll(3, PollInput::Start), PollAction::Notify(Err(HelloWorldFailure::Timeout))));
    assert!(matches!(h.poll(3, PollInput::Start), PollAction::RequestSubstream));
    assert!(matches!(h.poll(3, PollInput::Start), PollAction::Pending));
}

#[test]
fn idle_substream_waits_for_the_timer() {
    let mut h = Handler::new(0);
    assert!(matches!(h.poll(0, PollInput::Start), PollAction::RequestSubstream));
    h.on_connection_event(100, ConnectionEvent::FullyNegotiatedOutbound(Fut::Send(4)));
    assert_eq!(h.deadline(), 5_100);
    assert!(matches!(h.poll(200, PollInput::Start), PollAction::PollSend(Fut::Send(4))));
    assert!(matches!(h.poll(200, PollInput::SendDone(4)), PollAction::Notify(Ok(HelloWorldSuccess::Sent))));
    assert_eq!(h.deadline(), 5_200);
    assert!(matches!(h.poll(5_199, PollInput::Start), PollAction::Pending));
    assert!(matches!(h.poll(5_200, PollInput::Start), PollAction::StartSend(4)));
    assert_eq!(h.deadline(), 10_200);
    assert!(matches!(h.poll(5_200, PollInput::SendStarted(Fut::Send(4))), PollAction::PollSend(Fut::Send(4))));
}

#[test]
fn timer_saturates_at_the_largest_time() {
    let h = Handler::new(u64::MAX - 1);
    assert_eq!(h.deadline(), u64::MAX);
    let h = Handler::new(7);
    assert_eq!(h.deadline(), 5_007);
}

#[test]
fn only_other_failures_have_a_source() {
    let f: HelloWorldFailure<String> = HelloWorldFailure::Other { error: "reset".to_string() };
    assert_eq!(f.source(), Some(&"reset".to_string()));
    let t: HelloWorldFailure<String> = HelloWorldFailure::Timeout;
    assert_eq!(t.source(), None);
}
