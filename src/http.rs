//! The request side of the server that feeds the pool: which page answers a
//! request line, and the bytes of the response that carries it.

use vstd::prelude::*;

verus! {

/// The two pages the server knows.
#[derive(Clone, Copy, PartialEq, Eq, Structural, Debug)]
pub enum Page {
    /// The home page, served for a plain `GET /`.
    Hello,
    /// The answer to anything else.
    NotFound,
}

/// The bytes of an ASCII text.
pub open spec fn ascii(s: Seq<char>) -> Seq<u8> {
    s.map_values(|c: char| c as u8)
}

/// The one request line that gets the home page.
pub open spec fn root_request_line() -> Seq<u8> {
    ascii("GET / HTTP/1.1"@)
}

pub open spec fn route_spec(request_line: Seq<u8>) -> Page {
    if request_line == root_request_line() {
        Page::Hello
    } else {
        Page::NotFound
    }
}

pub open spec fn status_line_spec(page: Page) -> Seq<char> {
    match page {
        Page::Hello => "HTTP/1.1 200 OK"@,
        Page::NotFound => "HTTP/1.1 404 NOT FOUND"@,
    }
}

pub open spec fn page_file_spec(page: Page) -> Seq<char> {
    match page {
        Page::Hello => "hello.html"@,
        Page::NotFound => "404.html"@,
    }
}

/// The decimal digits of `n`, most significant first, with no leading zero.
pub open spec fn decimal(n: nat) -> Seq<u8>
    decreases n,
{
    if n < 10 {
        seq![(48 + n) as u8]
    } else {
        decimal(n / 10).push((48 + n % 10) as u8)
    }
}

/// A response: the status line, a `Content-Length` header giving the length
/// of the body in bytes, an empty line, then the body.
pub open spec fn response_spec(page: Page, body: Seq<u8>) -> Seq<u8> {
    ascii(status_line_spec(page)) + ascii("\r\nContent-Length: "@) + decimal(body.len())
        + ascii("\r\n\r\n"@) + body
}

/// Appends the bytes of an ASCII literal.
fn push_ascii(out: &mut Vec<u8>, s: &str)
    requires
        vstd::string::is_ascii(s),
    ensures
        final(out)@ == old(out)@ + ascii(s@),
{
    proof {
        vstd::string::is_ascii_spec_bytes(s);
    }
    let b = s.as_bytes();
    let ghost start = out@;
    let mut i: usize = 0;
    while i < b.len()
        invariant
            i <= b@.len(),
            b@ == ascii(s@),
            out@ == start + b@.take(i as int),
        decreases b@.len() - i,
    {
        out.push(b[i]);
        i = i + 1;
        assert(out@ =~= start + b@.take(i as int));
    }
    assert(b@.take(b@.len() as int) =~= b@);
}

/// Appends the decimal digits of `n`.
fn push_decimal(out: &mut Vec<u8>, n: usize)
    ensures
        final(out)@ == old(out)@ + decimal(n as nat),
    decreases n,
{
    if n >= 10 {
        push_decimal(out, n / 10);
    }
    let d: u8 = (n % 10) as u8;
    out.push(48 + d);
    proof {
        if n >= 10 {
            assert(old(out)@ + decimal(n as nat) =~= (old(out)@ + decimal((n / 10) as nat)).push(
                (48 + n % 10) as u8,
            ));
        } else {
            assert(old(out)@ + decimal(n as nat) =~= old(out)@.push((48 + n % 10) as u8));
        }
    }
}

/// The page that answers `request_line` (the first line of a request, its
/// line ending removed): the home page for exactly `GET / HTTP/1.1`, the
/// not-found page for anything else.
pub fn route(request_line: &[u8]) -> (p: Page)
    ensures
        p == route_spec(request_line@),
{
    let root = "GET / HTTP/1.1";
    proof {
        reveal_strlit("GET / HTTP/1.1");
        vstd::string::is_ascii_spec_bytes(root);
    }
    let expected = root.as_bytes();
    assert(expected@ =~= root_request_line());
    if request_line.len() != expected.len() {
        return Page::NotFound;
    }
    let mut i: usize = 0;
    while i < expected.len()
        invariant
            i <= expected@.len(),
            request_line@.len() == expected@.len(),
            expected@ == root_request_line(),
            forall|j: int| 0 <= j < i ==> request_line@[j] == expected@[j],
        decreases expected@.len() - i,
    {
        if request_line[i] != expected[i] {
            assert(request_line@[i as int] != root_request_line()[i as int]);
            return Page::NotFound;
        }
        i = i + 1;
    }
    assert(request_line@ =~= expected@);
    Page::Hello
}

impl Page {
    /// The name of the file that holds the page's text.
    pub fn file_name(self) -> (r: &'static str)
        ensures
            r@ == page_file_spec(self),
    {
        match self {
            Page::Hello => {
                proof {
                    reveal_strlit("hello.html");
                }
                "hello.html"
            },
            Page::NotFound => {
                proof {
                    reveal_strlit("404.html");
                }
                "404.html"
            },
        }
    }
}

/// The full response that serves `body` as `page`.
pub fn response(page: Page, body: &[u8]) -> (r: Vec<u8>)
    ensures
        r@ == response_spec(page, body@),
{
    let mut out: Vec<u8> = Vec::new();
    match page {
        Page::Hello => {
            proof {
                reveal_strlit("HTTP/1.1 200 OK");
            }
            push_ascii(&mut out, "HTTP/1.1 200 OK");
        },
        Page::NotFound => {
            proof {
                reveal_strlit("HTTP/1.1 404 NOT FOUND");
            }
            push_ascii(&mut out, "HTTP/1.1 404 NOT FOUND");
        },
    }
    proof {
        reveal_strlit("\r\nContent-Length: ");
    }
    push_ascii(&mut out, "\r\nContent-Length: ");
    push_decimal(&mut out, body.len());
    proof {
        reveal_strlit("\r\n\r\n");
    }
    push_ascii(&mut out, "\r\n\r\n");
    let ghost before = out@;
    let mut i: usize = 0;
    while i < body.len()
        invariant
            i <= body@.len(),
            out@ == before + body@.take(i as int),
        decreases body@.len() - i,
    {
        out.push(body[i]);
        i = i + 1;
        assert(out@ =~= before + body@.take(i as int));
    }
    assert(body@.take(body@.len() as int) =~= body@);
    out
}

} // verus!
