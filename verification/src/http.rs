//! Requests to the web interface of a gateway.

use crate::text::{decimal, join};
use vstd::prelude::*;

verus! {

/// How long a gateway may take to answer a request.
pub const HTTP_TIMEOUT_SECS: u64 = 8;

/// The text of an HTTP status code, as `reqwest::StatusCode` displays it.
pub uninterp spec fn status_text(code: u16) -> Seq<char>;

/// Calls `reqwest::StatusCode::from_u16`, which takes the codes from 100 to 999, and displays the
/// code. Claims that the text depends on the code alone, and that it is the code in decimal, a
/// space and a reason; which reason belongs to which code is left unsaid.
#[verifier::external_body]
fn display_status(code: u16) -> (text: String)
    requires
        100 <= code <= 999,
    ensures
        text@ == status_text(code),
        (decimal(code as nat) + " "@).is_prefix_of(text@),
{
    reqwest::StatusCode::from_u16(code).unwrap().to_string()
}

/// Whether a status code says that the request went well.
pub open spec fn is_success(code: u16) -> bool {
    200 <= code < 300
}

/// Lets the body of an answer be read where its status says that the request went well; else
/// gives the message that takes its place.
pub fn check_status(code: u16) -> (verdict: Result<(), String>)
    requires
        100 <= code <= 999,
    ensures
        verdict is Ok <==> 200 <= code <= 299,
        match verdict {
            Ok(()) => is_success(code),
            Err(message) => {
                &&& !is_success(code)
                &&& message@ == "status "@ + status_text(code)
                &&& ("status "@ + decimal(code as nat) + " "@).is_prefix_of(message@)
            },
        },
{
    if 200 <= code && code < 300 {
        Ok(())
    } else {
        let text = display_status(code);
        let message = join("status ", text.as_str());
        proof {
            let head = decimal(code as nat) + " "@;
            assert(text@.take(head.len() as int) =~= head);
            assert("status "@ + decimal(code as nat) + " "@ =~= "status "@ + head);
            assert(message@.take(("status "@ + head).len() as int) =~= "status "@ + head);
        }
        Err(message)
    }
}

/// Exactly the codes from 200 to 299 say that a request went well.
pub proof fn success_is_a_code_in_the_two_hundreds(code: u16)
    ensures
        is_success(code) <==> 200 <= code <= 299,
{
}

} // verus!
