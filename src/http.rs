//! The toy web server's decisions: which page a request line gets, and the
//! bytes of the response that carries it.
use vstd::prelude::*;
use vstd::string::*;
use crate::search::chars_of;

verus! {

/// How to answer one request.
#[derive(Clone, Copy, Debug, PartialEq, Eq)]
pub struct Route {
    pub status_line: &'static str,
    pub filename: &'static str,
    /// Seconds to wait before answering.
    pub delay_secs: u64,
}

/// Whether two strings hold the same characters.
pub fn same_text(a: &str, b: &str) -> (r: bool)
    ensures
        r == (a@ == b@),
{
    let x = chars_of(a);
    let y = chars_of(b);
    if x.len() != y.len() {
        return false;
    }
    let mut i: usize = 0;
    while i < x.len()
        invariant
            x@ == a@,
            y@ == b@,
            x@.len() == y@.len(),
            i <= x@.len(),
            forall|k: int| 0 <= k < i ==> x@[k] == y@[k],
        decreases x@.len() - i,
    {
        if x[i] != y[i] {
            return false;
        }
        i = i + 1;
    }
    assert(x@ =~= y@);
    true
}

/// The answer to `request_line`: the home page for `GET /`, the same page
/// after five seconds for `GET /sleep`, and the not-found page otherwise.
pub fn route(request_line: &str) -> (r: Route)
    ensures
        request_line@ == "GET / HTTP/1.1"@ ==> r == (Route {
            status_line: "HTTP/1.1 200 OK",
            filename: "hello_http/hello.html",
            delay_secs: 0,
        }),
        request_line@ == "GET /sleep HTTP/1.1"@ ==> r == (Route {
            status_line: "HTTP/1.1 200 OK",
            filename: "hello_http/hello.html",
            delay_secs: 5,
        }),
        request_line@ != "GET / HTTP/1.1"@ && request_line@ != "GET /sleep HTTP/1.1"@ ==> r == (Route {
            status_line: "HTTP/1.1 404 NOT FOUND",
            filename: "hello_http/404.html",
            delay_secs: 0,
        }),
{
    proof {
        reveal_strlit("GET / HTTP/1.1");
        reveal_strlit("GET /sleep HTTP/1.1");
        assert("GET / HTTP/1.1"@.len() != "GET /sleep HTTP/1.1"@.len());
    }
    if same_text(request_line, "GET / HTTP/1.1") {
        Route { status_line: "HTTP/1.1 200 OK", filename: "hello_http/hello.html", delay_secs: 0 }
    } else if same_text(request_line, "GET /sleep HTTP/1.1") {
        Route { status_line: "HTTP/1.1 200 OK", filename: "hello_http/hello.html", delay_secs: 5 }
    } else {
        Route { status_line: "HTTP/1.1 404 NOT FOUND", filename: "hello_http/404.html", delay_secs: 0 }
    }
}

/// The text of one decimal digit.
pub open spec fn digit_text(d: nat) -> Seq<char> {
    if d == 0 {
        "0"@
    } else if d == 1 {
        "1"@
    } else if d == 2 {
        "2"@
    } else if d == 3 {
        "3"@
    } else if d == 4 {
        "4"@
    } else if d == 5 {
        "5"@
    } else if d == 6 {
        "6"@
    } else if d == 7 {
        "7"@
    } else if d == 8 {
        "8"@
    } else {
        "9"@
    }
}

/// `n` written in decimal, without leading zeros.
pub open spec fn decimal(n: nat) -> Seq<char>
    decreases n,
{
    if n < 10 {
        digit_text(n)
    } else {
        decimal(n / 10) + digit_text(n % 10)
    }
}

fn digit_str(d: usize) -> (r: &'static str)
    requires
        d < 10,
    ensures
        r@ == digit_text(d as nat),
{
    if d == 0 {
        "0"
    } else if d == 1 {
        "1"
    } else if d == 2 {
        "2"
    } else if d == 3 {
        "3"
    } else if d == 4 {
        "4"
    } else if d == 5 {
        "5"
    } else if d == 6 {
        "6"
    } else if d == 7 {
        "7"
    } else if d == 8 {
        "8"
    } else {
        "9"
    }
}

/// Appends `n` in decimal to `out`.
fn append_decimal(out: &mut String, n: usize)
    ensures
        final(out)@ == old(out)@ + decimal(n as nat),
    decreases n,
{
    if n < 10 {
        out.append(digit_str(n));
    } else {
        append_decimal(out, n / 10);
        out.append(digit_str(n % 10));
        assert(final(out)@ =~= old(out)@ + decimal(n as nat));
    }
}

/// The response text: the status line, a `Content-Length` header giving
/// the byte length of `contents`, a blank line, then `contents`.
pub fn response(status_line: &str, contents: &str) -> (r: String)
    ensures
        r@ == status_line@ + "\r\nContent-Length: "@ + decimal(contents.len() as nat) + "\r\n\r\n"@
            + contents@,
{
    let mut r = String::new();
    r.append(status_line);
    r.append("\r\nContent-Length: ");
    append_decimal(&mut r, contents.len());
    r.append("\r\n\r\n");
    r.append(contents);
    assert(r@ =~= status_line@ + "\r\nContent-Length: "@ + decimal(contents.len() as nat) + "\r\n\r\n"@
        + contents@);
    r
}

} // verus!
