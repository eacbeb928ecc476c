//! The pure part of the greeting server.
//!
//! A request arrives as lines of text. The server reads the head of the
//! request — the lines before the first empty one — and for each head line
//! that names the slow route it lingers a few seconds. Whatever the request
//! was, the answer is one fixed greeting page, framed with a status line and
//! a `Content-Length` header that gives the body's byte count.
//!
//! Everything here is a function from plain values to plain values; the
//! caller owns the socket, performs the sleeps, and writes the bytes.

use vstd::prelude::*;
use vstd::string::StrSliceExecFns;
use vstd::string::StringSliceAdditionalSpecFns;
use vstd::utf8::encode_utf8;

verus! {

/// Seconds to linger for each head line that asks for the slow route.
pub const SLEEP_SECONDS: u64 = 3;

/// The one request line with behaviour of its own: it asks the server to
/// linger before answering.
pub open spec fn sleep_route() -> Seq<char> {
    "GET /sleep HTTP/1.1"@
}

/// The head of a request: its lines up to, and not including, the first
/// empty one.
pub open spec fn head_of(lines: Seq<Seq<char>>) -> Seq<Seq<char>>
    decreases lines.len(),
{
    if lines.len() == 0 {
        lines
    } else if lines[0].len() == 0 {
        Seq::empty()
    } else {
        seq![lines[0]] + head_of(lines.drop_first())
    }
}

/// How many of the lines ask for the slow route.
pub open spec fn count_sleeps(lines: Seq<Seq<char>>) -> nat
    decreases lines.len(),
{
    if lines.len() == 0 {
        0
    } else {
        count_sleeps(lines.drop_last()) + (if lines.last() == sleep_route() {
            1nat
        } else {
            0nat
        })
    }
}

/// The decimal digits of `n`, most significant first, as ASCII bytes.
pub open spec fn decimal_rep(n: nat) -> Seq<u8>
    decreases n,
{
    if n < 10 {
        seq![(48 + n) as u8]
    } else {
        decimal_rep(n / 10).push((48 + n % 10) as u8)
    }
}

/// The bytes that answer a request with the given body: a status line, a
/// `Content-Length` header giving the body's byte count, a blank line, and
/// the body itself.
pub open spec fn response_bytes(body: Seq<u8>) -> Seq<u8> {
    "HTTP/1.1 200 OK\r\nContent-Length: ".spec_bytes() + decimal_rep(body.len())
        + "\r\n\r\n\n".spec_bytes() + body
}

/// The greeting page that every request is answered with.
pub open spec fn greeting_chars() -> Seq<char> {
    r#"
            <!DOCTYPE html>
            <html lang="en">
                <head>
                    <meta charset="utf-8"/>
                    <title>Hello, Eric!</title>
                </head>
                <body>
                    <h1>Hello, Eric!</h1>
                    <h2 style="color:red">平安喜乐！工作顺利！</h2>
                </body>
            </html>
        "#@
}

/// The greeting page's bytes, as they go on the wire.
pub open spec fn greeting_bytes() -> Seq<u8> {
    encode_utf8(greeting_chars())
}

/// Whether the line asks for the slow route.
pub fn is_sleep_request(line: &str) -> (b: bool)
    ensures
        b == (line@ == sleep_route()),
{
    let route: String = "GET /sleep HTTP/1.1".to_owned();
    let line_owned: String = line.to_owned();
    line_owned == route
}

proof fn lemma_head_of_prefix(lines: Seq<Seq<char>>, i: int)
    requires
        0 <= i <= lines.len(),
        forall|j: int| 0 <= j < i ==> lines[j].len() != 0,
        i == lines.len() || lines[i].len() == 0,
    ensures
        head_of(lines) == lines.take(i),
    decreases lines.len(),
{
    if lines.len() == 0 {
        assert(lines.take(i) =~= lines);
    } else if i == 0 {
        assert(lines.take(0) =~= Seq::<Seq<char>>::empty());
    } else {
        lemma_head_of_prefix(lines.drop_first(), i - 1);
        assert(seq![lines[0]] + lines.drop_first().take(i - 1) =~= lines.take(i));
    }
}

/// Keeps the head of the request: every line before the first empty one.
pub fn request_head(lines: Vec<String>) -> (head: Vec<String>)
    ensures
        head.deep_view() == head_of(lines.deep_view()),
{
    let mut head = lines;
    let ghost orig: Seq<Seq<char>> = head.deep_view();
    let mut i: usize = 0;
    while i < head.len() && !head[i].as_str().is_empty()
        invariant
            i <= head.len(),
            head.deep_view() == orig,
            forall|j: int| 0 <= j < i ==> orig[j].len() != 0,
        decreases head.len() - i,
    {
        i = i + 1;
    }
    proof {
        lemma_head_of_prefix(orig, i as int);
    }
    head.truncate(i);
    proof {
        assert(head.deep_view() =~= orig.take(i as int));
    }
    head
}

/// Counts the lines that ask for the slow route.
pub fn sleep_count(lines: &Vec<String>) -> (n: usize)
    ensures
        n == count_sleeps(lines.deep_view()),
{
    let ghost all: Seq<Seq<char>> = lines.deep_view();
    let mut n: usize = 0;
    let mut i: usize = 0;
    while i < lines.len()
        invariant
            i <= lines.len(),
            n <= i,
            all == lines.deep_view(),
            n == count_sleeps(all.take(i as int)),
        decreases lines.len() - i,
    {
        let hit = is_sleep_request(lines[i].as_str());
        if hit {
            n = n + 1;
        }
        i = i + 1;
        proof {
            assert(all.take(i as int).drop_last() =~= all.take(i - 1));
            assert(all.take(i as int).last() == all[i - 1]);
        }
    }
    proof {
        assert(all.take(all.len() as int) =~= all);
    }
    n
}

/// Writes `n` in decimal, most significant digit first.
pub fn decimal_bytes(n: usize) -> (r: Vec<u8>)
    ensures
        r@ == decimal_rep(n as nat),
    decreases n,
{
    if n < 10 {
        let mut r: Vec<u8> = Vec::new();
        r.push(48 + n as u8);
        proof {
            assert(r@ =~= decimal_rep(n as nat));
        }
        r
    } else {
        proof {
            assert(n / 10 < n) by (nonlinear_arith)
                requires
                    n >= 10,
            ;
        }
        let mut r = decimal_bytes(n / 10);
        r.push(48 + (n % 10) as u8);
        r
    }
}

/// Builds the full answer for a body: status line, `Content-Length`
/// header, blank line, body.
pub fn build_response(body: &Vec<u8>) -> (r: Vec<u8>)
    ensures
        r@ == response_bytes(body@),
{
    let mut r = "HTTP/1.1 200 OK\r\nContent-Length: ".as_bytes_vec();
    let mut digits = decimal_bytes(body.len());
    r.append(&mut digits);
    let mut separator = "\r\n\r\n\n".as_bytes_vec();
    r.append(&mut separator);
    let mut contents = vstd::slice::slice_to_vec(body.as_slice());
    r.append(&mut contents);
    proof {
        assert(r@ =~= response_bytes(body@));
    }
    r
}

/// Hands back the greeting page; every request is answered with it.
pub fn greeting_page() -> (r: String)
    ensures
        r@ == greeting_chars(),
{
    r#"
            <!DOCTYPE html>
            <html lang="en">
                <head>
                    <meta charset="utf-8"/>
                    <title>Hello, Eric!</title>
                </head>
                <body>
                    <h1>Hello, Eric!</h1>
                    <h2 style="color:red">平安喜乐！工作顺利！</h2>
                </body>
            </html>
        "#.to_owned()
}

/// What the server must do for one request: linger so many times, then
/// send these bytes.
pub struct ResponsePlan {
    /// How many times to linger for `SLEEP_SECONDS` before answering.
    pub sleeps: usize,
    /// The bytes of the answer.
    pub response: Vec<u8>,
}

/// Decides a whole request: counts the slow-route lines in its head and
/// builds the greeting response.
pub fn handle_request(lines: Vec<String>) -> (p: ResponsePlan)
    ensures
        p.sleeps == count_sleeps(head_of(lines.deep_view())),
        p.response@ == response_bytes(greeting_bytes()),
{
    let head = request_head(lines);
    let sleeps = sleep_count(&head);
    let page = greeting_page();
    let body = page.as_str().as_bytes_vec();
    let response = build_response(&body);
    ResponsePlan { sleeps, response }
}

} // verus!
