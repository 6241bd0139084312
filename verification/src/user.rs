//! The record-lookup handler: the persisted record, its hand-built JSON
//! rendering, and the three-way mapping from a lookup outcome to the exact
//! response text.

use vstd::prelude::*;
use vstd::string::StringExecFns;

verus! {

/// The persisted entity served by the lookup route: a unique identifier, a
/// display name, and a contact address.
#[derive(Debug)]
pub struct Record {
    pub id: u64,
    pub name: String,
    pub email: String,
}

/// What the external lookup service reports for one query.
#[derive(Debug)]
pub enum LookupOutcome {
    /// The record exists; here it is.
    Found(Record),
    /// The query succeeded but no record has the identifier.
    NotFound,
    /// The service failed; the detail is for the operator only and must
    /// never reach the client.
    ServiceFailure(String),
}

/// The decimal digit `d` as a character, for `d < 10`.
pub open spec fn digit_char(d: nat) -> char {
    if d == 0 {
        '0'
    } else if d == 1 {
        '1'
    } else if d == 2 {
        '2'
    } else if d == 3 {
        '3'
    } else if d == 4 {
        '4'
    } else if d == 5 {
        '5'
    } else if d == 6 {
        '6'
    } else if d == 7 {
        '7'
    } else if d == 8 {
        '8'
    } else {
        '9'
    }
}

/// The usual decimal rendering of `n`: most significant digit first, no
/// leading zeros (except for `n == 0` itself).
pub open spec fn dec_digits(n: nat) -> Seq<char>
    decreases n,
{
    if n < 10 {
        seq![digit_char(n)]
    } else {
        dec_digits(n / 10) + seq![digit_char(n % 10)]
    }
}

/// The single decimal digit `d` as string text.
fn digit_str(d: u64) -> (s: &'static str)
    requires
        d < 10,
    ensures
        s@ == seq![digit_char(d as nat)],
{
    if d == 0 {
        proof {
            reveal_strlit("0");
            assert("0"@ =~= seq![digit_char(0)]);
        }
        "0"
    } else if d == 1 {
        proof {
            reveal_strlit("1");
            assert("1"@ =~= seq![digit_char(1)]);
        }
        "1"
    } else if d == 2 {
        proof {
            reveal_strlit("2");
            assert("2"@ =~= seq![digit_char(2)]);
        }
        "2"
    } else if d == 3 {
        proof {
            reveal_strlit("3");
            assert("3"@ =~= seq![digit_char(3)]);
        }
        "3"
    } else if d == 4 {
        proof {
            reveal_strlit("4");
            assert("4"@ =~= seq![digit_char(4)]);
        }
        "4"
    } else if d == 5 {
        proof {
            reveal_strlit("5");
            assert("5"@ =~= seq![digit_char(5)]);
        }
        "5"
    } else if d == 6 {
        proof {
            reveal_strlit("6");
            assert("6"@ =~= seq![digit_char(6)]);
        }
        "6"
    } else if d == 7 {
        proof {
            reveal_strlit("7");
            assert("7"@ =~= seq![digit_char(7)]);
        }
        "7"
    } else if d == 8 {
        proof {
            reveal_strlit("8");
            assert("8"@ =~= seq![digit_char(8)]);
        }
        "8"
    } else {
        proof {
            reveal_strlit("9");
            assert("9"@ =~= seq![digit_char(9)]);
        }
        "9"
    }
}

/// Render `n` in decimal.
pub fn to_decimal(n: u64) -> (s: String)
    ensures
        s@ == dec_digits(n as nat),
    decreases n,
{
    if n < 10 {
        digit_str(n).to_owned()
    } else {
        let mut s = to_decimal(n / 10);
        s.append(digit_str(n % 10));
        proof {
            assert(s@ =~= dec_digits(n as nat));
        }
        s
    }
}

/// Text that the minimal JSON rendering below may safely interpolate into a
/// quoted string: nothing that closes the quote or starts an escape.
pub open spec fn json_safe(s: Seq<char>) -> bool {
    forall|i: int| 0 <= i < s.len() ==> s[i] != '"' && s[i] != '\\'
}

/// The hand-built JSON object for a record: exactly the fields `id`
/// (integer), `name` (string) and `email` (string), interpolated directly.
///
/// The interpolation does no escaping, so stored values must contain no
/// characters that would break this minimal rendering (a documented
/// limitation of the lookup handler, deliberately not extended).
pub open spec fn spec_user_json(id: nat, name: Seq<char>, email: Seq<char>) -> Seq<char> {
    "{\"id\": "@ + dec_digits(id) + ", \"name\": \""@ + name + "\", \"email\": \""@ + email
        + "\"}"@
}

/// Render the JSON body for a found record.
pub fn user_json(r: &Record) -> (s: String)
    ensures
        s@ == spec_user_json(r.id as nat, r.name@, r.email@),
{
    let mut s = "{\"id\": ".to_owned();
    let ds = to_decimal(r.id);
    s.append(ds.as_str());
    s.append(", \"name\": \"");
    s.append(r.name.as_str());
    s.append("\", \"email\": \"");
    s.append(r.email.as_str());
    s.append("\"}");
    s
}

/// The exact response text for each lookup outcome: found gives a JSON
/// payload under a 200 status line with a JSON content type; an absent
/// record gives 404 with a fixed plain body; a service failure gives 500
/// with a fixed plain body that carries nothing of the failure detail.
pub open spec fn spec_lookup_response(o: LookupOutcome) -> Seq<char> {
    match o {
        LookupOutcome::Found(r) => {
            "HTTP/1.1 200 OK\r\nContent-Type: application/json\r\nConnection: close\r\n\r\n"@
                + spec_user_json(r.id as nat, r.name@, r.email@)
        },
        LookupOutcome::NotFound => "HTTP/1.1 404 NOT FOUND\r\nConnection: close\r\n\r\nUser not found"@,
        LookupOutcome::ServiceFailure(_) => "HTTP/1.1 500 ERROR\r\nConnection: close\r\n\r\nDatabase error"@,
    }
}

/// Map one lookup outcome to the one response written to the client.
pub fn lookup_response(o: &LookupOutcome) -> (s: String)
    ensures
        s@ == spec_lookup_response(*o),
{
    match o {
        LookupOutcome::Found(r) => {
            let mut s =
                "HTTP/1.1 200 OK\r\nContent-Type: application/json\r\nConnection: close\r\n\r\n".to_owned();
            let body = user_json(r);
            s.append(body.as_str());
            s
        },
        LookupOutcome::NotFound => {
            "HTTP/1.1 404 NOT FOUND\r\nConnection: close\r\n\r\nUser not found".to_owned()
        },
        LookupOutcome::ServiceFailure(_) => {
            "HTTP/1.1 500 ERROR\r\nConnection: close\r\n\r\nDatabase error".to_owned()
        },
    }
}

/// The client-visible text of a failed lookup does not depend on the
/// failure detail: nothing internal is ever echoed to the client.
pub proof fn lemma_failure_detail_not_echoed(d1: String, d2: String)
    ensures
        spec_lookup_response(LookupOutcome::ServiceFailure(d1)) == spec_lookup_response(
            LookupOutcome::ServiceFailure(d2),
        ),
{
}

} // verus!
