//! The decisions of one connection's handler, as a state machine. The caller
//! performs each action (read, sleep, load, send, close) and hands back what
//! happened as an event; the handler decides what comes next.
use vstd::prelude::*;
use crate::request::{parse_request_line, parse_spec};
use crate::response::{Response, status_line};
use crate::router::{
    Resource,
    RouteRule,
    Router,
    Status,
    SLOW_DELAY_MS,
    accepts,
    get_bytes,
    http11_bytes,
    is_first_match,
    lemma_rejection_not_found,
    root_bytes,
    sleep_bytes,
};

verus! {

/// Where a handler stands in its one request/response cycle.
#[derive(Clone, Copy, Debug, PartialEq, Eq, Structural)]
pub enum HandlerState {
    /// Waiting for the request bytes.
    Reading,
    /// Waiting out the delay of rule `rule` of the table.
    Delaying { rule: usize },
    /// Waiting for the body of rule `rule` of the table.
    Loading { rule: usize },
    /// Waiting for the response to be sent.
    Writing,
    /// The connection is closed; nothing more happens.
    Closed,
}

/// What happened to the last action.
#[derive(Debug, PartialEq, Eq)]
pub enum Event {
    /// The read returned these bytes (none: the peer sent nothing).
    Received(Vec<u8>),
    ReadFailed,
    DelayElapsed,
    BodyLoaded(Vec<u8>),
    BodyMissing,
    Sent,
    SendFailed,
}

/// How a handler ended, for the log.
#[derive(Clone, Copy, Debug, PartialEq, Eq, Structural)]
pub enum Outcome {
    Served,
    /// The read failed or returned no bytes; nothing was sent.
    ReadError,
    /// The rule's body could not be loaded; nothing was sent.
    MissingResource,
    /// The response could not be sent in full.
    WriteError,
    /// An event came that the handler was not waiting for.
    UnexpectedEvent,
}

/// What the caller must do next.
#[derive(Debug, PartialEq, Eq)]
pub enum Action {
    /// Read the request bytes from the connection.
    Read,
    /// Suspend this handler alone for so many milliseconds.
    Sleep(u64),
    /// Load this static resource.
    Load(Resource),
    /// Write these bytes, in full, to the connection.
    Send(Vec<u8>),
    /// Close the connection; the handler is done.
    Close(Outcome),
}

impl HandlerState {
    /// Every rule index the state holds is an index of the table.
    pub open spec fn wf(&self, rules: Seq<RouteRule>) -> bool {
        match *self {
            HandlerState::Delaying { rule } => rule < rules.len(),
            HandlerState::Loading { rule } => rule < rules.len(),
            _ => true,
        }
    }

    /// The rule index the state holds, if any.
    pub open spec fn rule_index(&self) -> int {
        match *self {
            HandlerState::Delaying { rule } => rule as int,
            HandlerState::Loading { rule } => rule as int,
            _ => -1,
        }
    }

    /// Steps left at most before the handler closes.
    pub open spec fn rank(&self) -> nat {
        match *self {
            HandlerState::Reading => 4,
            HandlerState::Delaying { .. } => 3,
            HandlerState::Loading { .. } => 2,
            HandlerState::Writing => 1,
            HandlerState::Closed => 0,
        }
    }
}

/// Once rule `k` is chosen: wait out its delay if it has one, else load its body.
pub open spec fn after_route(rules: Seq<RouteRule>, k: int, next: HandlerState, act: Action) -> bool {
    match rules[k].delay_ms {
        Some(d) => next == (HandlerState::Delaying { rule: k as usize }) && act == Action::Sleep(d),
        None => next == (HandlerState::Loading { rule: k as usize }) && act == Action::Load(
            rules[k].body,
        ),
    }
}

/// The reaction to the request bytes `b`: close on none, else route the
/// parsed request line (or the rejection) to its first matching rule.
pub open spec fn on_received(rules: Seq<RouteRule>, b: Seq<u8>, next: HandlerState, act: Action) -> bool {
    if b.len() == 0 {
        next == HandlerState::Closed && act == Action::Close(Outcome::ReadError)
    } else {
        &&& is_first_match(rules, parse_spec(b), next.rule_index())
        &&& after_route(rules, next.rule_index(), next, act)
    }
}

/// The handler moves from `state` on `event` to `next` and asks for `act`.
pub open spec fn step_spec(
    rules: Seq<RouteRule>,
    state: HandlerState,
    event: Event,
    next: HandlerState,
    act: Action,
) -> bool {
    let closes = |o: Outcome| next == HandlerState::Closed && act == Action::Close(o);
    match state {
        HandlerState::Reading => match event {
            Event::Received(b) => on_received(rules, b@, next, act),
            Event::ReadFailed => closes(Outcome::ReadError),
            _ => closes(Outcome::UnexpectedEvent),
        },
        HandlerState::Delaying { rule } => match event {
            Event::DelayElapsed => next == (HandlerState::Loading { rule }) && act == Action::Load(
                rules[rule as int].body,
            ),
            _ => closes(Outcome::UnexpectedEvent),
        },
        HandlerState::Loading { rule } => match event {
            Event::BodyLoaded(b) => next == HandlerState::Writing && (match act {
                Action::Send(bytes) => bytes@ == status_line(rules[rule as int].status) + b@,
                _ => false,
            }),
            Event::BodyMissing => closes(Outcome::MissingResource),
            _ => closes(Outcome::UnexpectedEvent),
        },
        HandlerState::Writing => match event {
            Event::Sent => closes(Outcome::Served),
            Event::SendFailed => closes(Outcome::WriteError),
            _ => closes(Outcome::UnexpectedEvent),
        },
        HandlerState::Closed => closes(Outcome::UnexpectedEvent),
    }
}

/// A new handler: it first reads the request.
pub fn start() -> (r: (HandlerState, Action))
    ensures
        r.0 == HandlerState::Reading,
        r.1 == Action::Read,
{
    (HandlerState::Reading, Action::Read)
}

fn after_route_exec(router: &Router, k: usize) -> (r: (HandlerState, Action))
    requires
        k < router.rules@.len(),
    ensures
        after_route(router.rules@, k as int, r.0, r.1),
{
    let rule = &router.rules[k];
    match rule.delay_ms {
        Some(d) => (HandlerState::Delaying { rule: k }, Action::Sleep(d)),
        None => (HandlerState::Loading { rule: k }, Action::Load(rule.body)),
    }
}

/// The next state and action of a handler in `state` on `event`.
pub fn step(router: &Router, state: HandlerState, event: Event) -> (r: (HandlerState, Action))
    requires
        router.wf(),
        state.wf(router.rules@),
    ensures
        r.0.wf(router.rules@),
        step_spec(router.rules@, state, event, r.0, r.1),
{
    let closed = HandlerState::Closed;
    match state {
        HandlerState::Reading => match event {
            Event::Received(b) => {
                if b.len() == 0 {
                    (closed, Action::Close(Outcome::ReadError))
                } else {
                    let req = parse_request_line(b.as_slice());
                    let k = router.route(&req);
                    after_route_exec(router, k)
                }
            },
            Event::ReadFailed => (closed, Action::Close(Outcome::ReadError)),
            _ => (closed, Action::Close(Outcome::UnexpectedEvent)),
        },
        HandlerState::Delaying { rule } => match event {
            Event::DelayElapsed => (
                HandlerState::Loading { rule },
                Action::Load(router.rules[rule].body),
            ),
            _ => (closed, Action::Close(Outcome::UnexpectedEvent)),
        },
        HandlerState::Loading { rule } => match event {
            Event::BodyLoaded(b) => {
                let resp = Response::new(&router.rules[rule], b);
                (HandlerState::Writing, Action::Send(resp.to_bytes()))
            },
            Event::BodyMissing => (closed, Action::Close(Outcome::MissingResource)),
            _ => (closed, Action::Close(Outcome::UnexpectedEvent)),
        },
        HandlerState::Writing => match event {
            Event::Sent => (closed, Action::Close(Outcome::Served)),
            Event::SendFailed => (closed, Action::Close(Outcome::WriteError)),
            _ => (closed, Action::Close(Outcome::UnexpectedEvent)),
        },
        HandlerState::Closed => (closed, Action::Close(Outcome::UnexpectedEvent)),
    }
}

/// Every step of a live handler brings it closer to closing, and it asks to
/// close the connection exactly when it enters the closed state: a handler
/// ends, on every path, with the connection closed.
pub proof fn lemma_step_progress(
    rules: Seq<RouteRule>,
    state: HandlerState,
    event: Event,
    next: HandlerState,
    act: Action,
)
    requires
        state != HandlerState::Closed,
        step_spec(rules, state, event, next, act),
    ensures
        next.rank() < state.rank(),
        act is Close <==> next == HandlerState::Closed,
{
}

/// Bytes whose first line does not parse are answered with the not-found
/// rule of the server's table, at once.
pub proof fn lemma_unparsable_not_found(router: Router, b: Seq<u8>, next: HandlerState, act: Action)
    requires
        router.is_standard(),
        b.len() > 0,
        parse_spec(b) is None,
        on_received(router.rules@, b, next, act),
    ensures
        act == Action::Load(Resource::NotFoundPage),
        router.rules@[next.rule_index()].status == Status::NotFound,
{
    lemma_rejection_not_found(router, next.rule_index());
}

/// In the server's table the root request is loaded without delay, while the
/// slow request first waits `SLOW_DELAY_MS`.
pub proof fn lemma_only_slow_route_waits(router: Router, b: Seq<u8>, next: HandlerState, act: Action)
    requires
        router.is_standard(),
        b.len() > 0,
        on_received(router.rules@, b, next, act),
    ensures
        parse_spec(b) == Some((get_bytes(), root_bytes(), http11_bytes())) ==> act == Action::Load(
            Resource::Page,
        ),
        parse_spec(b) == Some((get_bytes(), sleep_bytes(), http11_bytes())) ==> act
            == Action::Sleep(SLOW_DELAY_MS),
{
    let rules = router.rules@;
    let k = next.rule_index();
    if parse_spec(b) == Some((get_bytes(), root_bytes(), http11_bytes())) {
        assert(accepts(rules[0].predicate, parse_spec(b)));
        assert(k == 0);
    }
    if parse_spec(b) == Some((get_bytes(), sleep_bytes(), http11_bytes())) {
        assert(root_bytes()[0] == 47u8 && root_bytes().len() != sleep_bytes().len());
        assert(!accepts(rules[0].predicate, parse_spec(b)));
        assert(accepts(rules[1].predicate, parse_spec(b)));
        assert(k == 1);
    }
}

} // verus!
