//! The decisions of the accept loop. The loop itself never stops: each
//! accepted connection is handed to a handler task of its own, and each failed
//! accept is reported and the loop goes on.
use vstd::prelude::*;

verus! {

/// The result of one accept attempt.
#[derive(Debug, PartialEq, Eq)]
pub enum AcceptEvent<C, E> {
    Connected(C),
    Failed(E),
}

/// What the accept loop does with it before it accepts again.
#[derive(Debug, PartialEq, Eq)]
pub enum AcceptAction<C, E> {
    /// Launch a handler task that owns this connection, without waiting on it.
    Spawn(C),
    /// Report the failure to the log.
    Report(E),
}

pub open spec fn accept_spec<C, E>(event: AcceptEvent<C, E>) -> AcceptAction<C, E> {
    match event {
        AcceptEvent::Connected(c) => AcceptAction::Spawn(c),
        AcceptEvent::Failed(e) => AcceptAction::Report(e),
    }
}

/// The connections handed to handlers, in order, over a run of accept results.
pub open spec fn dispatched<C, E>(events: Seq<AcceptEvent<C, E>>) -> Seq<C>
    decreases events.len(),
{
    if events.len() == 0 {
        Seq::empty()
    } else {
        let rest = dispatched(events.drop_last());
        match accept_spec(events.last()) {
            AcceptAction::Spawn(c) => rest.push(c),
            AcceptAction::Report(_) => rest,
        }
    }
}

/// What to do with one accept result.
pub fn on_accept<C, E>(event: AcceptEvent<C, E>) -> (r: AcceptAction<C, E>)
    ensures
        r == accept_spec(event),
{
    match event {
        AcceptEvent::Connected(c) => AcceptAction::Spawn(c),
        AcceptEvent::Failed(e) => AcceptAction::Report(e),
    }
}

/// A failed accept does not stop the loop: after any run of results,
/// failures included, the next connection that arrives is dispatched, and a
/// failure dispatches nothing.
pub proof fn lemma_accept_continues<C, E>(events: Seq<AcceptEvent<C, E>>, c: C, e: E)
    ensures
        dispatched(events.push(AcceptEvent::Connected(c))) == dispatched(events).push(c),
        dispatched(events.push(AcceptEvent::Failed(e))) == dispatched(events),
{
    assert(events.push(AcceptEvent::Connected(c)).drop_last() =~= events);
    assert(events.push(AcceptEvent::Failed(e)).drop_last() =~= events);
}

} // verus!
