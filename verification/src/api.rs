//! The network responder's decisions: the reply for one fetch outcome
//! on the single read route, and the count message it carries.

use vstd::prelude::*;
use vstd::string::StringExecFns;
use crate::errors::Error;
use crate::errors::error_text;
use crate::models::Instrument;

verus! {

/// The digit character for one decimal digit.
pub open spec fn digit_char(d: nat) -> char {
    if d == 0 {
        '0'
    } else if d == 1 {
        '1'
    } else if d == 2 {
        '2'
    } else if d == 3 {
        '3'
    } else if d == 4 {
        '4'
    } else if d == 5 {
        '5'
    } else if d == 6 {
        '6'
    } else if d == 7 {
        '7'
    } else if d == 8 {
        '8'
    } else {
        '9'
    }
}

/// The decimal digits of `n`, most significant first.
pub open spec fn dec_seq(n: nat) -> Seq<char>
    decreases n,
{
    if n < 10 {
        seq![digit_char(n)]
    } else {
        dec_seq(n / 10).push(digit_char(n % 10))
    }
}

/// The digit character for one decimal digit, as text.
fn digit_str(d: usize) -> (r: &'static str)
    requires
        d < 10,
    ensures
        r@ == seq![digit_char(d as nat)],
{
    match d {
        0 => {
            proof {
                reveal_strlit("0");
                assert("0"@ =~= seq![digit_char(0)]);
            }
            "0"
        },
        1 => {
            proof {
                reveal_strlit("1");
                assert("1"@ =~= seq![digit_char(1)]);
            }
            "1"
        },
        2 => {
            proof {
                reveal_strlit("2");
                assert("2"@ =~= seq![digit_char(2)]);
            }
            "2"
        },
        3 => {
            proof {
                reveal_strlit("3");
                assert("3"@ =~= seq![digit_char(3)]);
            }
            "3"
        },
        4 => {
            proof {
                reveal_strlit("4");
                assert("4"@ =~= seq![digit_char(4)]);
            }
            "4"
        },
        5 => {
            proof {
                reveal_strlit("5");
                assert("5"@ =~= seq![digit_char(5)]);
            }
            "5"
        },
        6 => {
            proof {
                reveal_strlit("6");
                assert("6"@ =~= seq![digit_char(6)]);
            }
            "6"
        },
        7 => {
            proof {
                reveal_strlit("7");
                assert("7"@ =~= seq![digit_char(7)]);
            }
            "7"
        },
        8 => {
            proof {
                reveal_strlit("8");
                assert("8"@ =~= seq![digit_char(8)]);
            }
            "8"
        },
        _ => {
            proof {
                reveal_strlit("9");
                assert("9"@ =~= seq![digit_char(9)]);
            }
            "9"
        },
    }
}

/// Writes `n` in decimal.
pub fn to_decimal(n: usize) -> (r: String)
    ensures
        r@ == dec_seq(n as nat),
    decreases n,
{
    if n < 10 {
        let s = String::from_str(digit_str(n));
        proof {
            assert(s@ =~= dec_seq(n as nat));
        }
        s
    } else {
        let mut s = to_decimal(n / 10);
        s.append(digit_str(n % 10));
        proof {
            assert(s@ =~= dec_seq(n as nat));
        }
        s
    }
}

/// The count message for `n` fetched records.
pub open spec fn fetched_message(n: nat) -> Seq<char> {
    "Fetched "@ + dec_seq(n) + " instruments"@
}

/// Writes the count message for `n` fetched records.
pub fn fetch_message(n: usize) -> (r: String)
    ensures
        r@ == fetched_message(n as nat),
{
    let mut s = String::from_str("Fetched ");
    let d = to_decimal(n);
    s.append(d.as_str());
    s.append(" instruments");
    proof {
        assert(s@ =~= fetched_message(n as nat));
    }
    s
}

/// The payload of a successful listing response: the records, and a
/// human-readable count message.
pub struct ApiResponse {
    pub data: Vec<Instrument>,
    pub message: String,
}

/// One reply of the network responder on its read route.
pub struct ApiReply {
    /// 200 exactly on success, 500 on a failed fetch.
    pub status: u16,
    /// The payload, present exactly on success.
    pub body: Option<ApiResponse>,
    /// The error's text, present exactly on failure.
    pub error: Option<String>,
}

/// Builds the reply for one fetch outcome: HTTP 200 with the records
/// and their count message exactly when the fetch succeeded, else HTTP
/// 500 carrying the error's text. A failed fetch is never masked as an
/// empty success, and the failure stays within the one request.
pub fn respond(fetch: Result<Vec<Instrument>, Error>) -> (r: ApiReply)
    ensures
        (r.status == 200) <==> fetch is Ok,
        fetch matches Ok(v) ==> (r.body matches Some(b) && b.data@ == v@ && b.message@
            == fetched_message(v@.len()) && r.error is None),
        fetch matches Err(e) ==> (r.status == 500 && r.body is None && (r.error matches Some(m)
            && m@ == error_text(e))),
{
    match fetch {
        Ok(v) => {
            let message = fetch_message(v.len());
            ApiReply { status: 200, body: Some(ApiResponse { data: v, message }), error: None }
        },
        Err(e) => ApiReply { status: 500, body: None, error: Some(e.message()) },
    }
}

} // verus!
