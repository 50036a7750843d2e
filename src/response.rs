//! Responses: a status line, a blank line and the body, unchanged.
use vstd::prelude::*;
use crate::router::{RouteRule, Status};

verus! {

/// `HTTP/1.1 200 OK` or `HTTP/1.1 404 NOT FOUND`, each followed by CR LF and
/// the blank line CR LF.
pub open spec fn status_line(s: Status) -> Seq<u8> {
    match s {
        Status::Found => seq![72u8, 84, 84, 80, 47, 49, 46, 49, 32, 50, 48, 48, 32, 79, 75, 13, 10, 13, 10],
        Status::NotFound => seq![
            72u8, 84, 84, 80, 47, 49, 46, 49, 32, 52, 48, 52, 32, 78, 79, 84, 32, 70, 79, 85, 78,
            68, 13, 10, 13, 10,
        ],
    }
}

fn status_line_bytes(s: Status) -> (r: Vec<u8>)
    ensures
        r@ == status_line(s),
{
    match s {
        Status::Found => {
            let r = vec![72u8, 84, 84, 80, 47, 49, 46, 49, 32, 50, 48, 48, 32, 79, 75, 13, 10, 13, 10];
            assert(r@ =~= status_line(s));
            r
        },
        Status::NotFound => {
            let r = vec![
                72u8, 84, 84, 80, 47, 49, 46, 49, 32, 52, 48, 52, 32, 78, 79, 84, 32, 70, 79, 85,
                78, 68, 13, 10, 13, 10,
            ];
            assert(r@ =~= status_line(s));
            r
        },
    }
}

/// A response, built in full before any byte of it is sent.
pub struct Response {
    pub status: Status,
    pub body: Vec<u8>,
}

impl Response {
    /// The response of `rule` with the body that was loaded for it.
    pub fn new(rule: &RouteRule, body: Vec<u8>) -> (r: Response)
        ensures
            r.status == rule.status,
            r.body@ == body@,
    {
        Response { status: rule.status, body }
    }

    /// The bytes to send: the status line, then the body as it is.
    pub fn to_bytes(&self) -> (r: Vec<u8>)
        ensures
            r@ == status_line(self.status) + self.body@,
    {
        let mut r = status_line_bytes(self.status);
        let mut i: usize = 0;
        while i < self.body.len()
            invariant
                i <= self.body@.len(),
                r@ == status_line(self.status) + self.body@.take(i as int),
            decreases self.body@.len() - i,
        {
            r.push(self.body[i]);
            i = i + 1;
            assert(r@ =~= status_line(self.status) + self.body@.take(i as int));
        }
        assert(self.body@.take(i as int) =~= self.body@);
        r
    }
}

} // verus!
