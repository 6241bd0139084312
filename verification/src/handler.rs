//! The per-connection protocol: one bounded read, one routing decision, one
//! response, then close. The read and the write are performed outside this
//! crate; the decisions between them are made here.

use vstd::prelude::*;
use crate::response::Page;
use crate::response::Status;
use crate::response::spec_static_response;
use crate::route::LOOKUP_ID;
use crate::route::Route;
use crate::route::classify;
use crate::route::spec_classify;

verus! {

/// Capacity of the single read buffer: a request is captured by one read of
/// at most this many bytes, and anything beyond is never observed.
pub const READ_BUF_LEN: usize = 4096;

/// What the handler decides to do with one captured request: either write a
/// static-page response, or run the record lookup, which then writes its own
/// response.
#[derive(Clone, Copy, Debug, PartialEq, Eq, Structural)]
pub enum Plan {
    Static(Status, Page),
    Lookup(u64),
}

/// What one read of the connection produced: a clean close before any data,
/// some captured request text, or a transport failure.
#[derive(Debug)]
pub enum ReadOutcome {
    Closed,
    Data(String),
    Failed,
}

/// The dispatch decision for a captured request, by route.
pub open spec fn spec_plan(req: Seq<char>) -> Plan {
    match spec_classify(req) {
        Route::Root => Plan::Static(Status::Success, Page::Root),
        Route::Login => Plan::Static(Status::Success, Page::Login),
        Route::UserLookup(id) => Plan::Lookup(id),
        Route::NotFound => Plan::Static(Status::NotFound, Page::NotFound),
    }
}

/// Decide how to answer one captured request.
pub fn plan_request(req: &str) -> (p: Plan)
    ensures
        p == spec_plan(req@),
{
    match classify(req) {
        Route::Root => Plan::Static(Status::Success, Page::Root),
        Route::Login => Plan::Static(Status::Success, Page::Login),
        Route::UserLookup(id) => Plan::Lookup(id),
        Route::NotFound => Plan::Static(Status::NotFound, Page::NotFound),
    }
}

/// The connection decision policy: no data (clean close) and a failed read
/// both end the handler with no response at all; captured data is routed.
pub open spec fn spec_connection_plan(o: ReadOutcome) -> Option<Plan> {
    match o {
        ReadOutcome::Closed => None,
        ReadOutcome::Data(req) => Some(spec_plan(req@)),
        ReadOutcome::Failed => None,
    }
}

/// Decide what one connection gets: `None` means the handler terminates
/// without writing a single byte back.
pub fn connection_plan(o: &ReadOutcome) -> (r: Option<Plan>)
    ensures
        r == spec_connection_plan(*o),
{
    match o {
        ReadOutcome::Closed => None,
        ReadOutcome::Data(req) => Some(plan_request(req.as_str())),
        ReadOutcome::Failed => None,
    }
}

/// Any request whose text starts with `GET / ` is dispatched to the root
/// page with a success status, whatever follows the prefix; and the rendered
/// response is exactly the 200 header block followed, as body, by the root
/// page's resolved content, unchanged.
pub proof fn lemma_root_request(req: Seq<char>, content: Seq<char>)
    requires
        "GET / "@.is_prefix_of(req),
    ensures
        spec_plan(req) == Plan::Static(Status::Success, Page::Root),
        spec_static_response(Status::Success, content) == "HTTP/1.1 200 OK\r\nConnection: close\r\n\r\n"@
            + content,
{
}

/// Any request whose text starts with `GET /login` is dispatched to the
/// login page with a success status, and the rendered response is exactly
/// the 200 header block followed, as body, by the login page's resolved
/// content, unchanged.
pub proof fn lemma_login_request(req: Seq<char>, content: Seq<char>)
    requires
        "GET /login"@.is_prefix_of(req),
    ensures
        spec_plan(req) == Plan::Static(Status::Success, Page::Login),
        spec_static_response(Status::Success, content) == "HTTP/1.1 200 OK\r\nConnection: close\r\n\r\n"@
            + content,
{
    reveal_strlit("GET / ");
    reveal_strlit("GET /login");
    if "GET / "@.is_prefix_of(req) {
        assert("GET / "@ =~= req.subrange(0, 6));
        assert("GET / "@[5] == req.subrange(0, 6)[5]);
        assert(req.subrange(0, 6)[5] == req[5]);
        assert("GET /login"@ =~= req.subrange(0, 10));
        assert("GET /login"@[5] == req.subrange(0, 10)[5]);
        assert(req.subrange(0, 10)[5] == req[5]);
        assert(' ' == 'l');
    }
}

/// A request matching none of the known prefixes is dispatched to the
/// not-found page with a 404 status, and the rendered response is exactly
/// the 404 header block followed, as body, by the not-found page's resolved
/// content, unchanged.
pub proof fn lemma_unknown_request(req: Seq<char>, content: Seq<char>)
    requires
        !"GET / "@.is_prefix_of(req),
        !"GET /login"@.is_prefix_of(req),
        !"GET /users/1 "@.is_prefix_of(req),
    ensures
        spec_plan(req) == Plan::Static(Status::NotFound, Page::NotFound),
        spec_static_response(Status::NotFound, content) == "HTTP/1.1 404 NOT FOUND\r\nConnection: close\r\n\r\n"@
            + content,
{
}

/// The lookup route is recognised, and carries the one record identifier.
pub proof fn lemma_lookup_request(req: Seq<char>)
    requires
        !"GET / "@.is_prefix_of(req),
        !"GET /login"@.is_prefix_of(req),
        "GET /users/1 "@.is_prefix_of(req),
    ensures
        spec_plan(req) == Plan::Lookup(LOOKUP_ID),
{
}

/// A connection that closes before sending any data, or whose read fails,
/// is answered with nothing at all: the handler produces no response.
pub proof fn lemma_silent_termination()
    ensures
        spec_connection_plan(ReadOutcome::Closed) is None,
        spec_connection_plan(ReadOutcome::Failed) is None,
{
}

} // verus!
