//! Response rendering: every reply the server writes is a status line,
//! optional headers, a `Connection: close` directive, a blank line, and a
//! body, rendered here to the exact wire text.

use vstd::prelude::*;
use vstd::string::StringExecFns;

verus! {

/// The status of a response to a static-page route.
#[derive(Clone, Copy, Debug, PartialEq, Eq, Structural)]
pub enum Status {
    Success,
    NotFound,
}

/// The logical name of a static page; resolving a name to its byte content is
/// delegated to an external resolver.
#[derive(Clone, Copy, Debug, PartialEq, Eq, Structural)]
pub enum Page {
    Root,
    Login,
    NotFound,
}

/// The resolver key under which each page's content is stored.
pub open spec fn spec_page_name(p: Page) -> Seq<char> {
    match p {
        Page::Root => "hello.html"@,
        Page::Login => "login.html"@,
        Page::NotFound => "404.html"@,
    }
}

/// The resolver key for `p`, handed to the external key-to-bytes resolver.
pub fn page_name(p: Page) -> (s: &'static str)
    ensures
        s@ == spec_page_name(p),
{
    match p {
        Page::Root => "hello.html",
        Page::Login => "login.html",
        Page::NotFound => "404.html",
    }
}

/// Everything that precedes the body of a static-page response: the status
/// line, the `Connection: close` directive, and the blank separator line.
pub open spec fn spec_static_header(s: Status) -> Seq<char> {
    match s {
        Status::Success => "HTTP/1.1 200 OK\r\nConnection: close\r\n\r\n"@,
        Status::NotFound => "HTTP/1.1 404 NOT FOUND\r\nConnection: close\r\n\r\n"@,
    }
}

/// The full wire text of a static-page response: header block, then the
/// resolved page content as the body, unchanged.
pub open spec fn spec_static_response(s: Status, body: Seq<char>) -> Seq<char> {
    spec_static_header(s) + body
}

/// Render the one response written back for a static-page route.
pub fn static_response(status: Status, contents: &str) -> (r: String)
    ensures
        r@ == spec_static_response(status, contents@),
{
    let mut r: String = match status {
        Status::Success => "HTTP/1.1 200 OK\r\nConnection: close\r\n\r\n".to_owned(),
        Status::NotFound => "HTTP/1.1 404 NOT FOUND\r\nConnection: close\r\n\r\n".to_owned(),
    };
    r.append(contents);
    r
}

} // verus!
