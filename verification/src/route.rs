//! Request-line routing: classify a captured request buffer into one of a
//! closed set of routes by inspecting its leading bytes.

use vstd::prelude::*;
use vstd::string::StrSliceExecFns;

verus! {

/// The classification outcome of inspecting a request's first line.
///
/// The set of routes is closed and fixed; the only parameterised route is the
/// record lookup, which carries the (single, hard-coded) record identifier.
#[derive(Clone, Copy, Debug, PartialEq, Eq, Structural)]
pub enum Route {
    Root,
    Login,
    UserLookup(u64),
    NotFound,
}

/// The identifier of the one record the lookup route serves.
pub const LOOKUP_ID: u64 = 1;

/// Route classification, as a pure function of the captured request text.
///
/// The prefixes are tried in this exact priority order; a request matching
/// none of them is `NotFound`.
pub open spec fn spec_classify(req: Seq<char>) -> Route {
    if "GET / "@.is_prefix_of(req) {
        Route::Root
    } else if "GET /login"@.is_prefix_of(req) {
        Route::Login
    } else if "GET /users/1 "@.is_prefix_of(req) {
        Route::UserLookup(LOOKUP_ID)
    } else {
        Route::NotFound
    }
}

/// Does `p` occur at the very start of `s`?
pub fn has_prefix(s: &str, p: &str) -> (b: bool)
    ensures
        b == p@.is_prefix_of(s@),
{
    let p_len = p.unicode_len();
    let s_len = s.unicode_len();
    if s_len < p_len {
        return false;
    }
    let mut i: usize = 0;
    while i < p_len
        invariant
            i <= p_len,
            p_len == p@.len(),
            s_len == s@.len(),
            p_len <= s_len,
            forall|j: int| 0 <= j < i ==> p@[j] == s@[j],
        decreases p_len - i,
    {
        if s.get_char(i) != p.get_char(i) {
            assert(!p@.is_prefix_of(s@)) by {
                assert(p@[i as int] != s@.subrange(0, p@.len() as int)[i as int]);
            }
            return false;
        }
        i += 1;
    }
    assert(p@.is_prefix_of(s@)) by {
        assert(p@ =~= s@.subrange(0, p@.len() as int));
    }
    true
}

/// Classify one captured request by its leading bytes.
pub fn classify(req: &str) -> (r: Route)
    ensures
        r == spec_classify(req@),
{
    if has_prefix(req, "GET / ") {
        Route::Root
    } else if has_prefix(req, "GET /login") {
        Route::Login
    } else if has_prefix(req, "GET /users/1 ") {
        Route::UserLookup(LOOKUP_ID)
    } else {
        Route::NotFound
    }
}

} // verus!
