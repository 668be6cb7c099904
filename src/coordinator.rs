//! The coordinator: relays the results reported by all connection handlers
//! upward, oldest first.

use crate::handler::{HelloWorldFailure, HelloWorldSuccess};
use std::collections::VecDeque;
use vstd::prelude::*;

verus! {

/// A result reported by the handler of the connection to `peer`.
#[derive(Debug)]
pub struct HelloWorldEvent<P, E> {
    /// The remote peer.
    pub peer: P,
    /// The result of an inbound or outbound message.
    pub result: Result<HelloWorldSuccess, HelloWorldFailure<E>>,
}

/// The events of `q` that concern `peer`, in order.
pub open spec fn events_of<P, E>(q: Seq<HelloWorldEvent<P, E>>, peer: P) -> Seq<HelloWorldEvent<P, E>> {
    q.filter(|e: HelloWorldEvent<P, E>| e.peer == peer)
}

/// Aggregates the events of every connection's handler into one queue.
pub struct HelloWorld<P, E> {
    /// Events not yet handed upward, oldest at the front.
    events: VecDeque<HelloWorldEvent<P, E>>,
}

impl<P, E> View for HelloWorld<P, E> {
    type V = Seq<HelloWorldEvent<P, E>>;

    closed spec fn view(&self) -> Seq<HelloWorldEvent<P, E>> {
        self.events@
    }
}

impl<P, E> HelloWorld<P, E> {
    /// A coordinator with no event queued.
    pub fn new() -> (r: Self)
        ensures
            r@ == Seq::<HelloWorldEvent<P, E>>::empty(),
    {
        HelloWorld { events: VecDeque::new() }
    }

    /// Queues the result that the handler of the connection to `peer`
    /// reported.
    pub fn on_connection_handler_event(
        &mut self,
        peer: P,
        result: Result<HelloWorldSuccess, HelloWorldFailure<E>>,
    )
        ensures
            final(self)@ == old(self)@.push(HelloWorldEvent { peer, result }),
    {
        self.events.push_back(HelloWorldEvent { peer, result });
    }

    /// Hands out the oldest queued event, or `None` when there is none.
    pub fn poll(&mut self) -> (r: Option<HelloWorldEvent<P, E>>)
        ensures
            old(self)@.len() == 0 ==> r is None && final(self)@ == old(self)@,
            old(self)@.len() > 0 ==> r == Some(old(self)@[0]) && final(self)@ == old(
                self,
            )@.drop_first(),
    {
        let r = self.events.pop_front();
        proof {
            assert(old(self)@.len() > 0 ==> final(self)@ =~= old(self)@.drop_first());
        }
        r
    }
}

/// A result queued for one peer leaves the queued results of every other
/// peer as they were: what happens on one connection is never seen on
/// another.
pub proof fn lemma_other_peers_unaffected<P, E>(
    q: Seq<HelloWorldEvent<P, E>>,
    peer: P,
    result: Result<HelloWorldSuccess, HelloWorldFailure<E>>,
    other: P,
)
    requires
        other != peer,
    ensures
        events_of(q.push(HelloWorldEvent { peer, result }), other) == events_of(q, other),
{
    let e = HelloWorldEvent { peer, result };
    reveal(Seq::filter);
    assert(q.push(e).drop_last() =~= q);
}

} // verus!
