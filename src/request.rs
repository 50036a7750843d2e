//! The request line: the first line of the bytes a client sent, split into
//! method, target and version.
use vstd::prelude::*;

verus! {

/// Line feed, which ends the request line.
pub const LINE_FEED: u8 = 10;

/// ASCII whitespace as `u8::is_ascii_whitespace` knows it.
pub open spec fn is_space(b: u8) -> bool {
    b == 32 || b == 9 || b == 10 || b == 12 || b == 13
}

/// First index at or after `i` that holds a line feed, or the length.
pub open spec fn line_end(s: Seq<u8>, i: int) -> int
    decreases s.len() - i,
{
    if i < 0 || i >= s.len() {
        s.len() as int
    } else if s[i] == LINE_FEED {
        i
    } else {
        line_end(s, i + 1)
    }
}

/// The bytes before the first line feed.
pub open spec fn first_line(s: Seq<u8>) -> Seq<u8> {
    s.take(line_end(s, 0))
}

/// First index at or after `i` that is not whitespace, or the length.
pub open spec fn skip_space(s: Seq<u8>, i: int) -> int
    decreases s.len() - i,
{
    if i < 0 || i >= s.len() {
        s.len() as int
    } else if !is_space(s[i]) {
        i
    } else {
        skip_space(s, i + 1)
    }
}

/// First index at or after `i` that is whitespace, or the length.
pub open spec fn word_end(s: Seq<u8>, i: int) -> int
    decreases s.len() - i,
{
    if i < 0 || i >= s.len() {
        s.len() as int
    } else if is_space(s[i]) {
        i
    } else {
        word_end(s, i + 1)
    }
}

/// The request line that `s` holds: the first three whitespace-separated
/// tokens of its first line, or `None` when that line has fewer than three.
/// Tokens after the third are ignored and no token is validated further.
pub open spec fn parse_spec(s: Seq<u8>) -> Option<(Seq<u8>, Seq<u8>, Seq<u8>)> {
    let l = first_line(s);
    let a0 = skip_space(l, 0);
    let a1 = word_end(l, a0);
    let b0 = skip_space(l, a1);
    let b1 = word_end(l, b0);
    let c0 = skip_space(l, b1);
    let c1 = word_end(l, c0);
    if c0 < l.len() {
        Some((l.subrange(a0, a1), l.subrange(b0, b1), l.subrange(c0, c1)))
    } else {
        None
    }
}

/// A parsed request line; immutable once built.
#[derive(Debug, PartialEq, Eq)]
pub struct RequestLine {
    pub method: Vec<u8>,
    pub target: Vec<u8>,
    pub version: Vec<u8>,
}

impl View for RequestLine {
    type V = (Seq<u8>, Seq<u8>, Seq<u8>);

    open spec fn view(&self) -> Self::V {
        (self.method@, self.target@, self.version@)
    }
}

/// The model of a parse result: a request line or a rejection.
pub open spec fn request_view(r: Option<RequestLine>) -> Option<(Seq<u8>, Seq<u8>, Seq<u8>)> {
    match r {
        Some(l) => Some(l@),
        None => None,
    }
}

fn find_line_end(s: &[u8]) -> (r: usize)
    ensures
        r == line_end(s@, 0),
        r <= s@.len(),
{
    let mut i: usize = 0;
    while i < s.len() && s[i] != LINE_FEED
        invariant
            i <= s@.len(),
            line_end(s@, i as int) == line_end(s@, 0),
        decreases s@.len() - i,
    {
        i = i + 1;
    }
    i
}

fn find_skip_space(s: &[u8], from: usize) -> (r: usize)
    requires
        from <= s@.len(),
    ensures
        r == skip_space(s@, from as int),
        from <= r <= s@.len(),
{
    let mut i: usize = from;
    while i < s.len() && is_space_byte(s[i])
        invariant
            from <= i <= s@.len(),
            skip_space(s@, i as int) == skip_space(s@, from as int),
        decreases s@.len() - i,
    {
        i = i + 1;
    }
    i
}

fn find_word_end(s: &[u8], from: usize) -> (r: usize)
    requires
        from <= s@.len(),
    ensures
        r == word_end(s@, from as int),
        from <= r <= s@.len(),
{
    let mut i: usize = from;
    while i < s.len() && !is_space_byte(s[i])
        invariant
            from <= i <= s@.len(),
            word_end(s@, i as int) == word_end(s@, from as int),
        decreases s@.len() - i,
    {
        i = i + 1;
    }
    i
}

fn is_space_byte(b: u8) -> (r: bool)
    ensures
        r == is_space(b),
{
    b == 32 || b == 9 || b == 10 || b == 12 || b == 13
}

/// Copies `s[from..to]` into a new vector.
fn copy_range(s: &[u8], from: usize, to: usize) -> (r: Vec<u8>)
    requires
        from <= to <= s@.len(),
    ensures
        r@ == s@.subrange(from as int, to as int),
{
    let mut r: Vec<u8> = Vec::new();
    let mut i: usize = from;
    while i < to
        invariant
            from <= i <= to <= s@.len(),
            r@ == s@.subrange(from as int, i as int),
        decreases to - i,
    {
        r.push(s[i]);
        i = i + 1;
        assert(r@ =~= s@.subrange(from as int, i as int));
    }
    r
}

/// Parses the request line at the start of `input`. Rejects (returns `None`)
/// exactly when the first line holds fewer than three tokens.
pub fn parse_request_line(input: &[u8]) -> (r: Option<RequestLine>)
    ensures
        request_view(r) == parse_spec(input@),
{
    let end = find_line_end(input);
    let line = &input[0..end];
    assert(line@ =~= first_line(input@));
    let a0 = find_skip_space(line, 0);
    let a1 = find_word_end(line, a0);
    let b0 = find_skip_space(line, a1);
    let b1 = find_word_end(line, b0);
    let c0 = find_skip_space(line, b1);
    let c1 = find_word_end(line, c0);
    if c0 < line.len() {
        Some(
            RequestLine {
                method: copy_range(line, a0, a1),
                target: copy_range(line, b0, b1),
                version: copy_range(line, c0, c1),
            },
        )
    } else {
        None
    }
}

} // verus!
