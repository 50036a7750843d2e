//! The route table: an ordered list of predicate and response pairs, where the
//! first rule whose predicate accepts a request wins.
use vstd::prelude::*;
use crate::request::{RequestLine, request_view};

verus! {

/// How long the slow route waits before it answers, in milliseconds.
pub const SLOW_DELAY_MS: u64 = 2000;

/// The status a rule answers with.
#[derive(Clone, Copy, Debug, PartialEq, Eq, Structural)]
pub enum Status {
    Found,
    NotFound,
}

/// The static resource a rule answers with.
#[derive(Clone, Copy, Debug, PartialEq, Eq, Structural)]
pub enum Resource {
    /// The page served on the root and the slow route.
    Page,
    /// The page served for every request that no other rule takes.
    NotFoundPage,
}

/// Which requests a rule accepts.
pub enum Predicate {
    /// A request line whose three tokens equal these bytes.
    Line { method: Vec<u8>, target: Vec<u8>, version: Vec<u8> },
    /// Every request, including one that could not be parsed.
    Always,
}

pub struct RouteRule {
    pub predicate: Predicate,
    /// Time to wait before answering, in milliseconds.
    pub delay_ms: Option<u64>,
    pub body: Resource,
    pub status: Status,
}

/// Whether predicate `p` accepts the request `req` (`None`: a rejection).
pub open spec fn accepts(p: Predicate, req: Option<(Seq<u8>, Seq<u8>, Seq<u8>)>) -> bool {
    match p {
        Predicate::Always => true,
        Predicate::Line { method, target, version } => match req {
            Some(l) => l == (method@, target@, version@),
            None => false,
        },
    }
}

/// Rule `k` accepts `req` and no earlier rule does.
pub open spec fn is_first_match(
    rules: Seq<RouteRule>,
    req: Option<(Seq<u8>, Seq<u8>, Seq<u8>)>,
    k: int,
) -> bool {
    &&& 0 <= k < rules.len()
    &&& accepts(rules[k].predicate, req)
    &&& forall|j: int| 0 <= j < k ==> !accepts(#[trigger] rules[j].predicate, req)
}

/// `GET`
pub open spec fn get_bytes() -> Seq<u8> {
    seq![71u8, 69, 84]
}

/// `/`
pub open spec fn root_bytes() -> Seq<u8> {
    seq![47u8]
}

/// `/sleep`
pub open spec fn sleep_bytes() -> Seq<u8> {
    seq![47u8, 115, 108, 101, 101, 112]
}

/// `HTTP/1.1`
pub open spec fn http11_bytes() -> Seq<u8> {
    seq![72u8, 84, 84, 80, 47, 49, 46, 49]
}

/// Rule `r` accepts exactly the request line `method target version`.
pub open spec fn is_line_rule(r: RouteRule, method: Seq<u8>, target: Seq<u8>, version: Seq<u8>) -> bool {
    match r.predicate {
        Predicate::Line { method: m, target: t, version: v } => m@ == method && t@ == target
            && v@ == version,
        Predicate::Always => false,
    }
}

pub struct Router {
    pub rules: Vec<RouteRule>,
}

impl Router {
    /// The table is not empty and its last rule accepts every request.
    pub open spec fn wf(&self) -> bool {
        &&& self.rules@.len() > 0
        &&& self.rules@.last().predicate is Always
    }

    /// The server's table: `GET / HTTP/1.1` answers the page at once,
    /// `GET /sleep HTTP/1.1` answers it after `SLOW_DELAY_MS`, and anything
    /// else answers the not-found page.
    pub open spec fn is_standard(&self) -> bool {
        let rs = self.rules@;
        &&& rs.len() == 3
        &&& is_line_rule(rs[0], get_bytes(), root_bytes(), http11_bytes())
        &&& rs[0].delay_ms is None
        &&& rs[0].body == Resource::Page
        &&& rs[0].status == Status::Found
        &&& is_line_rule(rs[1], get_bytes(), sleep_bytes(), http11_bytes())
        &&& rs[1].delay_ms == Some(SLOW_DELAY_MS)
        &&& rs[1].body == Resource::Page
        &&& rs[1].status == Status::Found
        &&& rs[2].predicate is Always
        &&& rs[2].delay_ms is None
        &&& rs[2].body == Resource::NotFoundPage
        &&& rs[2].status == Status::NotFound
    }

    /// A router over `rules`, or `None` when the table is empty or its last
    /// rule does not accept every request.
    pub fn new(rules: Vec<RouteRule>) -> (r: Option<Router>)
        ensures
            r is Some <==> (rules@.len() > 0 && rules@.last().predicate is Always),
            r matches Some(x) ==> x.rules@ == rules@ && x.wf(),
    {
        let n = rules.len();
        if n > 0 && matches!(rules[n - 1].predicate, Predicate::Always) {
            Some(Router { rules })
        } else {
            None
        }
    }

    pub fn standard() -> (r: Router)
        ensures
            r.wf(),
            r.is_standard(),
    {
        let root_target = vec![47u8];
        assert(root_target@ =~= root_bytes());
        let sleep_target = vec![47u8, 115, 108, 101, 101, 112];
        assert(sleep_target@ =~= sleep_bytes());
        let root = RouteRule {
            predicate: Predicate::Line {
                method: get_vec(),
                target: root_target,
                version: http11_vec(),
            },
            delay_ms: None,
            body: Resource::Page,
            status: Status::Found,
        };
        let slow = RouteRule {
            predicate: Predicate::Line {
                method: get_vec(),
                target: sleep_target,
                version: http11_vec(),
            },
            delay_ms: Some(SLOW_DELAY_MS),
            body: Resource::Page,
            status: Status::Found,
        };
        let fallback = RouteRule {
            predicate: Predicate::Always,
            delay_ms: None,
            body: Resource::NotFoundPage,
            status: Status::NotFound,
        };
        let rules = vec![root, slow, fallback];
        let r = Router { rules };
        r
    }

    /// Index of the first rule that accepts `req`; a rejection is `None`.
    pub fn route(&self, req: &Option<RequestLine>) -> (r: usize)
        requires
            self.wf(),
        ensures
            is_first_match(self.rules@, request_view(*req), r as int),
    {
        let n = self.rules.len();
        let mut i: usize = 0;
        while i < n
            invariant
                self.wf(),
                n == self.rules@.len(),
                i <= n,
                forall|j: int| 0 <= j < i ==> !accepts(#[trigger] self.rules@[j].predicate, request_view(*req)),
            decreases n - i,
        {
            if predicate_accepts(&self.rules[i].predicate, req) {
                return i;
            }
            i = i + 1;
        }
        proof {
            assert(accepts(self.rules@[n - 1].predicate, request_view(*req)));
        }
        0
    }
}

fn get_vec() -> (r: Vec<u8>)
    ensures
        r@ == get_bytes(),
{
    let r = vec![71u8, 69, 84];
    assert(r@ =~= get_bytes());
    r
}

fn http11_vec() -> (r: Vec<u8>)
    ensures
        r@ == http11_bytes(),
{
    let r = vec![72u8, 84, 84, 80, 47, 49, 46, 49];
    assert(r@ =~= http11_bytes());
    r
}

fn bytes_eq(a: &Vec<u8>, b: &Vec<u8>) -> (r: bool)
    ensures
        r == (a@ == b@),
{
    if a.len() != b.len() {
        return false;
    }
    let mut i: usize = 0;
    while i < a.len()
        invariant
            a@.len() == b@.len(),
            i <= a@.len(),
            forall|j: int| 0 <= j < i ==> a@[j] == b@[j],
        decreases a@.len() - i,
    {
        if a[i] != b[i] {
            return false;
        }
        i = i + 1;
    }
    assert(a@ =~= b@);
    true
}

fn predicate_accepts(p: &Predicate, req: &Option<RequestLine>) -> (r: bool)
    ensures
        r == accepts(*p, request_view(*req)),
{
    match p {
        Predicate::Always => true,
        Predicate::Line { method, target, version } => match req {
            Some(l) => bytes_eq(method, &l.method) && bytes_eq(target, &l.target) && bytes_eq(
                version,
                &l.version,
            ),
            None => false,
        },
    }
}

/// Exactly one rule is chosen: two first matches of one request are the same
/// rule.
pub proof fn lemma_first_match_unique(
    rules: Seq<RouteRule>,
    req: Option<(Seq<u8>, Seq<u8>, Seq<u8>)>,
    k1: int,
    k2: int,
)
    requires
        is_first_match(rules, req, k1),
        is_first_match(rules, req, k2),
    ensures
        k1 == k2,
{
}

/// If rule `i` accepts `req`, some rule at or before `i` is its first match.
proof fn lemma_first_match_below(
    rules: Seq<RouteRule>,
    req: Option<(Seq<u8>, Seq<u8>, Seq<u8>)>,
    i: int,
)
    requires
        0 <= i < rules.len(),
        accepts(rules[i].predicate, req),
    ensures
        exists|k: int| k <= i && is_first_match(rules, req, k),
    decreases i,
{
    if forall|j: int| 0 <= j < i ==> !accepts(#[trigger] rules[j].predicate, req) {
        assert(is_first_match(rules, req, i));
    } else {
        let j = choose|j: int| 0 <= j < i && accepts(#[trigger] rules[j].predicate, req);
        lemma_first_match_below(rules, req, j);
    }
}

/// Routing is total: in a well-formed table every request line, and a
/// rejection too, has a first matching rule.
pub proof fn lemma_route_total(router: Router, req: Option<(Seq<u8>, Seq<u8>, Seq<u8>)>)
    requires
        router.wf(),
    ensures
        exists|k: int| is_first_match(router.rules@, req, k),
{
    let last = router.rules@.len() - 1;
    assert(accepts(router.rules@[last].predicate, req));
    lemma_first_match_below(router.rules@, req, last);
}

/// In the server's table a rejection is answered by the not-found rule.
pub proof fn lemma_rejection_not_found(router: Router, k: int)
    requires
        router.is_standard(),
        is_first_match(router.rules@, None, k),
    ensures
        router.rules@[k].status == Status::NotFound,
        router.rules@[k].body == Resource::NotFoundPage,
{
    assert(!accepts(router.rules@[0].predicate, None));
    assert(!accepts(router.rules@[1].predicate, None));
}

} // verus!
