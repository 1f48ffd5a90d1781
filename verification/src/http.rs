//! Replies of the Forma API: telling success from failure, explaining a
//! failure, and turning a decoded body into the operation's result.

use vstd::prelude::*;
use crate::claims::{ClaimsListData, ClaimsListResponse};
use crate::error::{Endpoint, FormaError, FormaErrorView};
use crate::forma::ProfileResponse;
use crate::text::{contains_seq, str_contains};

verus! {

/// What the client keeps of an HTTP reply: the status code and the body text
/// (empty where it could not be read).
#[derive(Debug)]
pub struct HttpReply {
    pub status: u16,
    pub body: String,
}

/// Body of the endpoints that only report whether they succeeded.
#[derive(Debug)]
pub struct GenericSuccessResponse {
    pub success: bool,
}

/// Body of the magic-link exchange endpoint.
#[derive(Debug)]
pub struct MagicLinkExchangeResponse {
    pub success: bool,
    pub data: MagicLinkExchangeData,
}

#[derive(Debug)]
pub struct MagicLinkExchangeData {
    pub auth_token: String,
}

/// The string at member `inner` of member `outer` when `body` is read as a
/// JSON value; `None` where the body is no JSON, either member is missing, or
/// the value found is not a string.
pub uninterp spec fn json_string_at(body: Seq<char>, outer: Seq<char>, inner: Seq<char>) -> Option<Seq<char>>;

/// Calls `serde_json::from_str::<serde_json::Value>` on `body`, then
/// `Value::get(outer)`, `Value::get(inner)` and `Value::as_str`. The contract
/// claims only that the result is a function of the three texts, named
/// `json_string_at`; what that function is on given texts is left to serde_json.
#[verifier::external_body]
fn json_string_at_exec(body: &str, outer: &str, inner: &str) -> (r: Option<String>)
    ensures
        match r {
            Some(m) => json_string_at(body@, outer@, inner@) == Some(m@),
            None => json_string_at(body@, outer@, inner@) is None,
        },
{
    let parsed: serde_json::Value = serde_json::from_str(body).ok()?;
    let found: &str = parsed.get(outer)?.get(inner)?.as_str()?;
    Some(found.to_string())
}

/// The canonical reason phrase of a status code (`OK` for 200, `Not Found` for
/// 404), where the code has one.
pub uninterp spec fn canonical_reason_of(status: u16) -> Option<Seq<char>>;

/// Calls `reqwest::StatusCode::from_u16` (the `http` crate's `StatusCode`),
/// then `StatusCode::canonical_reason`. The contract claims that the result is
/// a function of the status code, named `canonical_reason_of`, and, as
/// `from_u16` documents and its source shows, that codes outside 100..=999 have
/// none; which phrase a valid code has is left to the `http` crate's table.
#[verifier::external_body]
fn status_reason(status: u16) -> (r: Option<String>)
    ensures
        match r {
            Some(p) => canonical_reason_of(status) == Some(p@),
            None => canonical_reason_of(status) is None,
        },
        !(100 <= status <= 999) ==> r is None,
{
    let code = reqwest::StatusCode::from_u16(status).ok()?;
    Some(code.canonical_reason()?.to_string())
}

/// The message that Forma puts into a failure reply: the string at
/// `errors.message` of the body.
pub open spec fn json_error_message(body: Seq<char>) -> Option<Seq<char>> {
    json_string_at(body, "errors"@, "message"@)
}

/// The status code marks success (2xx).
pub open spec fn is_success(status: u16) -> bool {
    200 <= status < 300
}

/// The reason phrase shown for a reply, `unknown status` where there is none.
pub open spec fn reason_text(reason: Option<Seq<char>>) -> Seq<char> {
    match reason {
        Some(r) => r,
        None => "unknown status"@,
    }
}

/// The error for a failure reply, given its status's reason phrase and the
/// message found in its body: an invalid-token error where the message says the
/// JWT token is invalid, the message itself otherwise, and without a message the
/// status, reason and body.
pub open spec fn reply_error(reply: HttpReply, reason: Option<Seq<char>>, message: Option<Seq<char>>) -> FormaErrorView {
    match message {
        Some(m) => if contains_seq(m, "JWT token is invalid"@) {
            FormaErrorView::InvalidToken
        } else {
            FormaErrorView::Api(m)
        },
        None => FormaErrorView::UnexpectedResponse(reply.status, reason_text(reason), reply.body@),
    }
}

/// The error for a failure reply whose status has the reason phrase `reason`
/// and whose body gave `message` at `errors.message`.
pub fn error_for_reply(reply: &HttpReply, reason: Option<String>, message: Option<String>) -> (e: FormaError)
    ensures
        e@ == reply_error(
            *reply,
            match reason { Some(r) => Some(r@), None => None },
            match message { Some(m) => Some(m@), None => None },
        ),
{
    match message {
        Some(m) => {
            if str_contains(m.as_str(), "JWT token is invalid") {
                FormaError::InvalidToken
            } else {
                FormaError::Api(m)
            }
        },
        None => {
            let shown = match reason {
                Some(r) => r,
                None => String::from_str("unknown status"),
            };
            FormaError::UnexpectedResponse(reply.status, shown, reply.body.clone())
        },
    }
}

/// The error for a failure reply, read from its body.
pub fn handle_error_response(reply: &HttpReply) -> (e: FormaError)
    ensures
        e@ == reply_error(*reply, canonical_reason_of(reply.status), json_error_message(reply.body@)),
{
    let reason = status_reason(reply.status);
    let message = json_string_at_exec(reply.body.as_str(), "errors", "message");
    error_for_reply(reply, reason, message)
}

/// The result of a call whose reply is accepted when `accepted` holds and whose
/// body decoded to `parsed`.
pub open spec fn decoded<T>(reply: HttpReply, accepted: bool, parsed: Option<T>, endpoint: Endpoint, r: Result<T, FormaError>) -> bool {
    if !accepted {
        r matches Err(e) && e@ == reply_error(reply, canonical_reason_of(reply.status), json_error_message(reply.body@))
    } else {
        match parsed {
            Some(v) => r == Ok::<T, FormaError>(v),
            None => r matches Err(e) && e@ == FormaErrorView::ParseFailure(endpoint),
        }
    }
}

fn decode_reply<T>(reply: &HttpReply, accepted: bool, parsed: Option<T>, endpoint: Endpoint) -> (r: Result<T, FormaError>)
    ensures
        decoded(*reply, accepted, parsed, endpoint, r),
{
    if !accepted {
        return Err(handle_error_response(reply));
    }
    match parsed {
        Some(v) => Ok(v),
        None => Err(FormaError::ParseFailure(endpoint)),
    }
}

/// The employee's profile from the reply of the profile endpoint, whose body
/// decoded to `parsed`.
pub fn get_profile(reply: &HttpReply, parsed: Option<ProfileResponse>) -> (r: Result<ProfileResponse, FormaError>)
    ensures
        decoded(*reply, is_success(reply.status), parsed, Endpoint::Profile, r),
{
    decode_reply(reply, 200 <= reply.status && reply.status < 300, parsed, Endpoint::Profile)
}

/// A page of claims from the reply of the claims endpoint, whose body decoded
/// to `parsed`.
pub fn fetch_claims_page(reply: &HttpReply, parsed: Option<ClaimsListResponse>) -> (r: Result<ClaimsListData, FormaError>)
    ensures
        if !is_success(reply.status) {
            (r matches Err(e) && e@ == reply_error(*reply, canonical_reason_of(reply.status), json_error_message(reply.body@)))
        } else {
            match parsed {
                None => (r matches Err(e) && e@ == FormaErrorView::ParseFailure(Endpoint::Claims)),
                Some(b) => r == Ok::<ClaimsListData, FormaError>(b.data),
            }
        },
{
    match decode_reply(reply, 200 <= reply.status && reply.status < 300, parsed, Endpoint::Claims) {
        Ok(body) => Ok(body.data),
        Err(e) => Err(e),
    }
}

/// The outcome of submitting a claim: Forma must answer `201 Created` with a
/// body that reports success.
pub fn create_claim(reply: &HttpReply, parsed: Option<GenericSuccessResponse>) -> (r: Result<(), FormaError>)
    ensures
        if reply.status != 201 {
            (r matches Err(e) && e@ == reply_error(*reply, canonical_reason_of(reply.status), json_error_message(reply.body@)))
        } else {
            match parsed {
                None => (r matches Err(e) && e@ == FormaErrorView::ParseFailure(Endpoint::ClaimCreation)),
                Some(b) => if b.success {
                    r is Ok
                } else {
                    (r matches Err(e) && e@ == FormaErrorView::ClaimNotAccepted)
                },
            }
        },
{
    match decode_reply(reply, reply.status == 201, parsed, Endpoint::ClaimCreation) {
        Ok(body) => if body.success { Ok(()) } else { Err(FormaError::ClaimNotAccepted) },
        Err(e) => Err(e),
    }
}

/// The outcome of asking Forma to email a magic link.
pub fn request_magic_link(reply: &HttpReply, parsed: Option<GenericSuccessResponse>) -> (r: Result<(), FormaError>)
    ensures
        if !is_success(reply.status) {
            (r matches Err(e) && e@ == reply_error(*reply, canonical_reason_of(reply.status), json_error_message(reply.body@)))
        } else {
            match parsed {
                None => (r matches Err(e) && e@ == FormaErrorView::ParseFailure(Endpoint::MagicLink)),
                Some(b) => if b.success {
                    r is Ok
                } else {
                    (r matches Err(e) && e@ == FormaErrorView::MagicLinkNotSent)
                },
            }
        },
{
    match decode_reply(reply, 200 <= reply.status && reply.status < 300, parsed, Endpoint::MagicLink) {
        Ok(body) => if body.success { Ok(()) } else { Err(FormaError::MagicLinkNotSent) },
        Err(e) => Err(e),
    }
}

/// The long-lived access token from the reply that exchanges a magic link's
/// `id` and `tk`.
pub fn exchange_id_and_tk_for_access_token(reply: &HttpReply, parsed: Option<MagicLinkExchangeResponse>) -> (r: Result<String, FormaError>)
    ensures
        if !is_success(reply.status) {
            (r matches Err(e) && e@ == reply_error(*reply, canonical_reason_of(reply.status), json_error_message(reply.body@)))
        } else {
            match parsed {
                None => (r matches Err(e) && e@ == FormaErrorView::ParseFailure(Endpoint::MagicLinkExchange)),
                Some(b) => if b.success {
                    r == Ok::<String, FormaError>(b.data.auth_token)
                } else {
                    (r matches Err(e) && e@ == FormaErrorView::TokenExchangeFailed)
                },
            }
        },
{
    match decode_reply(reply, 200 <= reply.status && reply.status < 300, parsed, Endpoint::MagicLinkExchange) {
        Ok(body) => if body.success { Ok(body.data.auth_token) } else { Err(FormaError::TokenExchangeFailed) },
        Err(e) => Err(e),
    }
}

} // verus!
