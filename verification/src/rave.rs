//! Helpers for the account-shop endpoints: the user agent string, and
//! the classification of responses that are not the JSON the frontend
//! expects, with an explanatory message built from a truncated excerpt.
//!
//! The HTTP requests themselves are an external collaborator; what is
//! decided here is only how a response body is passed on.

use vstd::prelude::*;
use vstd::string::StrSliceExecFns;
use vstd::string::StringExecFns;

use crate::text::dec_of;

verus! {

/// The release tag this client is built for.
pub open spec fn soulfire_version_view() -> Seq<char> {
    "1.0.0"@
}

/// The release tag this client is built for.
pub fn soulfire_version() -> (r: &'static str)
    ensures
        r@ == soulfire_version_view(),
{
    "1.0.0"
}

/// The version string reported to the frontend.
pub fn get_sf_server_version() -> (r: String)
    ensures
        r@ == soulfire_version_view(),
{
    soulfire_version().to_owned()
}

/// The user agent sent with shop requests.
pub fn rave_user_agent() -> (r: String)
    ensures
        r@ == "SoulFire/"@ + soulfire_version_view(),
{
    "SoulFire/".to_owned().concat(soulfire_version())
}

/// `s` cut to at most `max_len` characters, with an ellipsis appended
/// when something was cut.
pub open spec fn truncated_view(s: Seq<char>, max_len: int) -> Seq<char> {
    if s.len() <= max_len {
        s
    } else {
        s.take(max_len) + "..."@
    }
}

/// Cuts `s` to at most `max_len` characters, marking the cut with an
/// ellipsis.
pub fn truncate_string(s: &str, max_len: usize) -> (r: String)
    ensures
        r@ == truncated_view(s@, max_len as int),
{
    let n: usize = s.unicode_len();
    if n <= max_len {
        s.to_owned()
    } else {
        s.substring_char(0, max_len).to_owned().concat("...")
    }
}

/// Whether `s` parses as a JSON document. The parser is outside code;
/// this name stands for its verdict, which depends on `s` alone.
pub uninterp spec fn is_json_text(s: Seq<char>) -> bool;

/// Relies on `serde_json::from_str::<Value>`: whether the text is a
/// JSON document.
#[verifier::external_body]
fn json_is_valid(text: &str) -> (r: bool)
    ensures
        r == is_json_text(text@),
{
    serde_json::from_str::<serde_json::Value>(text).is_ok()
}

/// How many characters of an unexpected response are quoted in the
/// explanatory message.
pub fn rave_excerpt_len() -> (r: usize)
    ensures
        r == 500,
{
    500
}

/// The message explaining an unexpected (non-JSON) shop response.
pub open spec fn fallback_message_view(status: u16, text: Seq<char>) -> Seq<char> {
    "Unexpected response from Rave Alts (HTTP "@ + dec_of(status as nat) + "): "@
        + truncated_view(text, 500)
}

/// A shop response as it is passed on: either the JSON body itself, or
/// the message explaining why it could not be used.
pub enum RaveResponse {
    /// The body, which is a JSON document.
    Json(String),
    /// The explanatory message for a body that is not JSON.
    Fallback(String),
}

/// Classifies a shop response body: a JSON body passes through
/// unchanged, anything else becomes an explanatory message quoting the
/// status and a truncated excerpt.
pub fn rave_response_kind(status: u16, text: String) -> (r: RaveResponse)
    ensures
        is_json_text(text@) ==> (r matches RaveResponse::Json(t) && t@ == text@),
        !is_json_text(text@) ==> (r matches RaveResponse::Fallback(m) && m@
            == fallback_message_view(status, text@)),
{
    if json_is_valid(text.as_str()) {
        RaveResponse::Json(text)
    } else {
        let excerpt = truncate_string(text.as_str(), rave_excerpt_len());
        let m = "Unexpected response from Rave Alts (HTTP ".to_owned().concat(
            crate::text::u64_to_dec(status as u64).as_str(),
        ).concat("): ").concat(excerpt.as_str());
        proof {
            assert(m@ =~= fallback_message_view(status, text@));
        }
        RaveResponse::Fallback(m)
    }
}

} // verus!
