//! Framing of HTTP responses and routing of request lines.
use vstd::prelude::*;
use vstd::utf8::encode_utf8;

verus! {

/// The ASCII digit for `d`, for `d < 10`.
pub open spec fn digit_char(d: nat) -> char {
    if d == 0 { '0' }
    else if d == 1 { '1' }
    else if d == 2 { '2' }
    else if d == 3 { '3' }
    else if d == 4 { '4' }
    else if d == 5 { '5' }
    else if d == 6 { '6' }
    else if d == 7 { '7' }
    else if d == 8 { '8' }
    else { '9' }
}

/// `n` written in decimal, most significant digit first, without leading zeros.
pub open spec fn decimal(n: nat) -> Seq<char>
    decreases n,
{
    if n < 10 {
        seq![digit_char(n)]
    } else {
        decimal(n / 10) + seq![digit_char(n % 10)]
    }
}

/// The response: status line, `Content-Length` in bytes of the UTF-8 body,
/// a fixed `Content-Type`, a blank line, then the body.
pub open spec fn http_response(status_line: Seq<char>, contents: Seq<char>) -> Seq<char> {
    status_line + "\r\nContent-Length: "@ + decimal(encode_utf8(contents).len())
        + "\r\nContent-Type: text/html; charset=utf-8\r\n\r\n"@ + contents
}

fn digit_str(d: usize) -> (r: &'static str)
    requires
        d < 10,
    ensures
        r@ == seq![digit_char(d as nat)],
{
    proof {
        reveal_strlit("0");
        reveal_strlit("1");
        reveal_strlit("2");
        reveal_strlit("3");
        reveal_strlit("4");
        reveal_strlit("5");
        reveal_strlit("6");
        reveal_strlit("7");
        reveal_strlit("8");
        reveal_strlit("9");
    }
    let r = if d == 0 { "0" }
    else if d == 1 { "1" }
    else if d == 2 { "2" }
    else if d == 3 { "3" }
    else if d == 4 { "4" }
    else if d == 5 { "5" }
    else if d == 6 { "6" }
    else if d == 7 { "7" }
    else if d == 8 { "8" }
    else { "9" };
    assert(r@ =~= seq![digit_char(d as nat)]);
    r
}

/// Appends `n` in decimal to `out`.
pub fn push_decimal(out: &mut String, n: usize)
    ensures
        final(out)@ == old(out)@ + decimal(n as nat),
    decreases n,
{
    if n >= 10 {
        push_decimal(out, n / 10);
        out.append(digit_str(n % 10));
        assert(final(out)@ =~= old(out)@ + decimal(n as nat));
    } else {
        out.append(digit_str(n));
    }
}

/// Frames `contents` as an HTML response under `status_line`.
pub fn build_http_response(status_line: &str, contents: String) -> (r: String)
    ensures
        r@ == http_response(status_line@, contents@),
{
    let length = contents.as_str().as_bytes().len();
    assert(length as nat == encode_utf8(contents@).len());
    let mut r = String::from_str(status_line);
    r.append("\r\nContent-Length: ");
    push_decimal(&mut r, length);
    r.append("\r\nContent-Type: text/html; charset=utf-8\r\n\r\n");
    r.append(contents.as_str());
    assert(r@ =~= http_response(status_line@, contents@));
    r
}

/// Status line of a successful response.
pub const STATUS_OK: &'static str = "HTTP/1.1 200 OK";

/// Status line of a response to an unknown request.
pub const STATUS_NOT_FOUND: &'static str = "HTTP/1.1 404 NOT FOUND";

/// Body of the health report.
pub const HEALTHY_PAGE: &'static str = "
    <!DOCTYPE html>
    <html lang=\"en\">
      <head>
        <meta charset=\"utf-8\">
        <title>Healthy</title>
      </head>
      <body>
        <h1>This Rust application is operating normally.</h1>
      </body>
    </html>
    ";

/// Body of the answer to an unknown request.
pub const NOT_FOUND_PAGE: &'static str = "
    <!DOCTYPE html>
    <html lang=\"en\">
      <head>
        <meta charset=\"utf-8\">
        <title>Sorry</title>
      </head>
      <body>
        <h1>Oops!</h1>
        <p>Sorry, I don't know what you're asking for.</p>
      </body>
    </html>
    ";

/// Which answer a request gets.
#[derive(Clone, Copy, Debug, PartialEq, Eq, Structural)]
pub enum Route {
    /// The page naming the machine's architecture.
    Page,
    /// The health report.
    Health,
    /// The "not found" page.
    NotFound,
}

/// The route of a request line: the root, `/x86` and `/arm64` get the page,
/// `/ishealthy` the health report, anything else "not found".
pub open spec fn route_of(line: Seq<char>) -> Route {
    if line == "GET / HTTP/1.1"@ || line == "GET /x86 HTTP/1.1"@ || line == "GET /arm64 HTTP/1.1"@ {
        Route::Page
    } else if line == "GET /ishealthy HTTP/1.1"@ {
        Route::Health
    } else {
        Route::NotFound
    }
}

/// Whether two strings hold the same characters.
pub fn same_text(a: &str, b: &str) -> (r: bool)
    ensures
        r == (a@ == b@),
{
    let n = a.unicode_len();
    if n != b.unicode_len() {
        return false;
    }
    let mut i: usize = 0;
    while i < n
        invariant
            n == a@.len(),
            n == b@.len(),
            i <= n,
            forall|k: int| 0 <= k < i ==> a@[k] == b@[k],
        decreases n - i,
    {
        if a.get_char(i) != b.get_char(i) {
            return false;
        }
        i = i + 1;
    }
    assert(a@ =~= b@);
    true
}

/// The route of one request line.
pub fn route(request_line: &str) -> (r: Route)
    ensures
        r == route_of(request_line@),
{
    if same_text(request_line, "GET / HTTP/1.1") || same_text(request_line, "GET /x86 HTTP/1.1")
        || same_text(request_line, "GET /arm64 HTTP/1.1") {
        Route::Page
    } else if same_text(request_line, "GET /ishealthy HTTP/1.1") {
        Route::Health
    } else {
        Route::NotFound
    }
}

/// The route of a request, given the lines of its head; `None` when the head
/// has no line at all.
pub fn route_request(head: &Vec<String>) -> (r: Option<Route>)
    ensures
        head@.len() == 0 <==> r is None,
        r is Some ==> r->Some_0 == route_of(head@[0]@),
{
    if head.len() == 0 {
        None
    } else {
        Some(route(head[0].as_str()))
    }
}

/// The health report.
pub fn healthy_response() -> (r: String)
    ensures
        r@ == http_response(STATUS_OK@, HEALTHY_PAGE@),
{
    build_http_response(STATUS_OK, String::from_str(HEALTHY_PAGE))
}

/// The answer to an unknown request.
pub fn error_response() -> (r: String)
    ensures
        r@ == http_response(STATUS_NOT_FOUND@, NOT_FOUND_PAGE@),
{
    build_http_response(STATUS_NOT_FOUND, String::from_str(NOT_FOUND_PAGE))
}

} // verus!
