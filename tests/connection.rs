use std::time::{Duration, Instant};
use tcp_server::acceptor::{on_accept, AcceptAction, AcceptEvent};
use tcp_server::handler::{start, step, Action, Event, HandlerState, Outcome};
use tcp_server::router::{Predicate, Resource, RouteRule, Router, Status};

/// Runs one handler to its end with `read` as the request and `body` as the
/// loaded resource, returning every action it asked for.
fn run(router: &Router, read: Event, body: Option<&[u8]>, send_ok: bool) -> Vec<Action> {
    let (mut state, first) = start();
    assert_eq!(first, Action::Read);
    let mut actions = vec![];
    let mut event = read;
    loop {
        let (next, act) = step(router, state, event);
        state = next;
        event = match &act {
            Action::Read => panic!("read twice"),
            Action::Sleep(_) => Event::DelayElapsed,
            Action::Load(_) => match body {
                Some(b) => Event::BodyLoaded(b.to_vec()),
                None => Event::BodyMissing,
            },
            Action::Send(_) => {
                if send_ok {
                    Event::Sent
                } else {
                    Event::SendFailed
                }
            }
            Action::Close(_) => {
                assert_eq!(state, HandlerState::Closed);
                actions.push(act);
                return actions;
            }
        };
        actions.push(act);
    }
}

fn received(b: &[u8]) -> Event {
    Event::Received(b.to_vec())
}

#[test]
fn root_request_is_served() {
    let router = Router::standard();
    let acts = run(&router, received(b"GET / HTTP/1.1\r\n\r\n"), Some(b"hello"), true);
    assert_eq!(
        acts,
        vec![
            Action::Load(Resource::Page),
            Action::Send(b"HTTP/1.1 200 OK\r\n\r\nhello".to_vec()),
            Action::Close(Outcome::Served),
        ]
    );
}

#[test]
fn slow_request_waits_then_is_served() {
    let router = Router::standard();
    let acts = run(&router, received(b"GET /sleep HTTP/1.1\r\n"), Some(b"hello"), true);
    assert_eq!(
        acts,
        vec![
            Action::Sleep(2000),
            Action::Load(Resource::Page),
            Action::Send(b"HTTP/1.1 200 OK\r\n\r\nhello".to_vec()),
            Action::Close(Outcome::Served),
        ]
    );
}

#[test]
fn unparsable_first_line_gets_not_found() {
    let router = Router::standard();
    for input in [&b"\r\n"[..], b"GET\r\n", b"   \n", b"GET /x"] {
        let acts = run(&router, received(input), Some(b"gone"), true);
        assert_eq!(
            acts,
            vec![
                Action::Load(Resource::NotFoundPage),
                Action::Send(b"HTTP/1.1 404 NOT FOUND\r\n\r\ngone".to_vec()),
                Action::Close(Outcome::Served),
            ]
        );
    }
}

#[test]
fn empty_read_closes_without_sending() {
    let router = Router::standard();
    assert_eq!(run(&router, received(b""), Some(b"x"), true), vec![Action::Close(Outcome::ReadError)]);
    assert_eq!(run(&router, Event::ReadFailed, Some(b"x"), true), vec![Action::Close(Outcome::ReadError)]);
}

#[test]
fn missing_resource_and_failed_write_close() {
    let router = Router::standard();
    let acts = run(&router, received(b"GET / HTTP/1.1\r\n"), None, true);
    assert_eq!(acts, vec![Action::Load(Resource::Page), Action::Close(Outcome::MissingResource)]);
    let acts = run(&router, received(b"GET /nope HTTP/1.1\r\n"), Some(b"n"), false);
    assert_eq!(acts.last(), Some(&Action::Close(Outcome::WriteError)));
    assert_eq!(acts.len(), 3);
}

#[test]
fn unexpected_event_closes() {
    let router = Router::standard();
    let (s, a) = step(&router, HandlerState::Reading, Event::Sent);
    assert_eq!((s, a), (HandlerState::Closed, Action::Close(Outcome::UnexpectedEvent)));
    let (s, a) = step(&router, HandlerState::Writing, Event::DelayElapsed);
    assert_eq!((s, a), (HandlerState::Closed, Action::Close(Outcome::UnexpectedEvent)));
    let (s, a) = step(&router, HandlerState::Loading { rule: 0 }, Event::Sent);
    assert_eq!((s, a), (HandlerState::Closed, Action::Close(Outcome::UnexpectedEvent)));
}

#[test]
fn failed_accept_does_not_stop_the_next_connection() {
    let first: AcceptAction<u32, &str> = on_accept(AcceptEvent::Failed("refused"));
    assert_eq!(first, AcceptAction::Report("refused"));
    let second: AcceptAction<u32, &str> = on_accept(AcceptEvent::Connected(7));
    assert_eq!(second, AcceptAction::Spawn(7));
    let router = Router::standard();
    let acts = run(&router, received(b"GET / HTTP/1.1\r\n"), Some(b"ok"), true);
    assert_eq!(acts.last(), Some(&Action::Close(Outcome::Served)));
}

#[test]
fn disconnect_mid_read_ends_only_that_handler() {
    let router = Router::standard();
    let dropped = run(&router, Event::ReadFailed, Some(b"x"), true);
    assert_eq!(dropped, vec![Action::Close(Outcome::ReadError)]);
    let next: AcceptAction<u32, ()> = on_accept(AcceptEvent::Connected(2));
    assert_eq!(next, AcceptAction::Spawn(2));
    let served = run(&router, received(b"GET / HTTP/1.1\r\n"), Some(b"ok"), true);
    assert_eq!(served.last(), Some(&Action::Close(Outcome::Served)));
}

/// Drives one handler on the async runtime, sleeping for real on a delay.
async fn drive(router: &Router, request: &[u8]) -> Duration {
    let begin = Instant::now();
    let (mut state, _) = start();
    let mut event = received(request);
    loop {
        let (next, act) = step(router, state, event);
        state = next;
        event = match act {
            Action::Read => panic!("read twice"),
            Action::Sleep(ms) => {
                async_std::task::sleep(Duration::from_millis(ms)).await;
                Event::DelayElapsed
            }
            Action::Load(_) => Event::BodyLoaded(b"page".to_vec()),
            Action::Send(_) => Event::Sent,
            Action::Close(o) => {
                assert_eq!(o, Outcome::Served);
                return begin.elapsed();
            }
        };
    }
}

#[test]
fn delayed_handler_does_not_stall_the_others() {
    let delayed = RouteRule {
        predicate: Predicate::Line {
            method: b"GET".to_vec(),
            target: b"/sleep".to_vec(),
            version: b"HTTP/1.1".to_vec(),
        },
        delay_ms: Some(1000),
        body: Resource::Page,
        status: Status::Found,
    };
    let fallback = RouteRule {
        predicate: Predicate::Always,
        delay_ms: None,
        body: Resource::Page,
        status: Status::Found,
    };
    let router = std::sync::Arc::new(Router::new(vec![delayed, fallback]).unwrap());
    let (ra, rb, rc) = (router.clone(), router.clone(), router.clone());
    let (a, b, c) = async_std::task::block_on(async move {
        let b = async_std::task::spawn(async move { drive(&rb, b"GET /sleep HTTP/1.1\r\n").await });
        let a = async_std::task::spawn(async move { drive(&ra, b"GET / HTTP/1.1\r\n").await });
        let c = async_std::task::spawn(async move { drive(&rc, b"GET / HTTP/1.1\r\n").await });
        (a.await, b.await, c.await)
    });
    assert!(a < Duration::from_millis(500));
    assert!(c < Duration::from_millis(500));
    assert!(b >= Duration::from_millis(1000));
}
