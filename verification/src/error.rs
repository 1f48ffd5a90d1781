//! Errors that the Forma operations report, with the text shown to users.

use vstd::prelude::*;
use crate::text::{decimal, u64_to_decimal};

verus! {

/// The endpoint whose successful reply could not be decoded.
#[derive(Debug, Clone, Copy, PartialEq, Eq, Structural)]
pub enum Endpoint {
    Profile,
    Claims,
    ClaimCreation,
    MagicLink,
    MagicLinkExchange,
}

/// An error of an operation against the Forma API.
#[derive(Debug, Clone)]
pub enum FormaError {
    /// Forma rejected the access token.
    InvalidToken,
    /// Forma explained the failure with this message.
    Api(String),
    /// A failure reply that carried no message: status code, reason, body.
    UnexpectedResponse(u16, String, String),
    /// A successful reply whose body did not have the expected shape.
    ParseFailure(Endpoint),
    /// No eligible benefit, or no benefit configuration, has this name.
    BenefitNotFound(String),
    /// Forma answered `201 Created` but reported that the claim failed.
    ClaimNotAccepted,
    /// Forma reported that the magic link was not sent.
    MagicLinkNotSent,
    /// Forma reported that the magic link could not be exchanged.
    TokenExchangeFailed,
    /// No access token was given and none is saved.
    NotLoggedIn,
}

/// `FormaError` with its strings taken by their characters.
pub enum FormaErrorView {
    InvalidToken,
    Api(Seq<char>),
    UnexpectedResponse(u16, Seq<char>, Seq<char>),
    ParseFailure(Endpoint),
    BenefitNotFound(Seq<char>),
    ClaimNotAccepted,
    MagicLinkNotSent,
    TokenExchangeFailed,
    NotLoggedIn,
}

impl View for FormaError {
    type V = FormaErrorView;

    open spec fn view(&self) -> FormaErrorView {
        match self {
            FormaError::InvalidToken => FormaErrorView::InvalidToken,
            FormaError::Api(m) => FormaErrorView::Api(m@),
            FormaError::UnexpectedResponse(s, t, b) => FormaErrorView::UnexpectedResponse(*s, t@, b@),
            FormaError::ParseFailure(e) => FormaErrorView::ParseFailure(*e),
            FormaError::BenefitNotFound(n) => FormaErrorView::BenefitNotFound(n@),
            FormaError::ClaimNotAccepted => FormaErrorView::ClaimNotAccepted,
            FormaError::MagicLinkNotSent => FormaErrorView::MagicLinkNotSent,
            FormaError::TokenExchangeFailed => FormaErrorView::TokenExchangeFailed,
            FormaError::NotLoggedIn => FormaErrorView::NotLoggedIn,
        }
    }
}

/// The context line of a reply that could not be decoded.
pub open spec fn parse_failure_text(e: Endpoint) -> Seq<char> {
    match e {
        Endpoint::Profile => "Failed to parse Forma profile response"@,
        Endpoint::Claims => "Failed to parse Forma claims response"@,
        Endpoint::ClaimCreation => "Failed to parse Forma claim creation response"@,
        Endpoint::MagicLink => "Failed to parse Forma magic link response"@,
        Endpoint::MagicLinkExchange => "Failed to parse Forma magic link exchange response"@,
    }
}

/// The text shown to the user for an error.
pub open spec fn error_text(e: FormaErrorView) -> Seq<char> {
    match e {
        FormaErrorView::InvalidToken =>
            "Your Forma access token is invalid. Please log in again with `formanator login`."@,
        FormaErrorView::Api(m) => m,
        FormaErrorView::UnexpectedResponse(s, t, b) =>
            "Received an unexpected "@ + decimal(s as nat) + " "@ + t + " response from Forma: "@ + b,
        FormaErrorView::ParseFailure(p) => parse_failure_text(p),
        FormaErrorView::BenefitNotFound(n) => "Could not find benefit with name `"@ + n + "`."@,
        FormaErrorView::ClaimNotAccepted =>
            "Something went wrong while submitting your claim. Forma returned `201 Created`, but the response body indicated that the request was not successful."@,
        FormaErrorView::MagicLinkNotSent =>
            "Something went wrong while requesting a magic link from Forma."@,
        FormaErrorView::TokenExchangeFailed =>
            "Something went wrong while exchanging the magic link for an access token."@,
        FormaErrorView::NotLoggedIn =>
            "You aren't logged in to Forma. Please run `formanator login` first."@,
    }
}

fn parse_failure_message(e: Endpoint) -> (r: String)
    ensures
        r@ == parse_failure_text(e),
{
    match e {
        Endpoint::Profile => String::from_str("Failed to parse Forma profile response"),
        Endpoint::Claims => String::from_str("Failed to parse Forma claims response"),
        Endpoint::ClaimCreation => String::from_str("Failed to parse Forma claim creation response"),
        Endpoint::MagicLink => String::from_str("Failed to parse Forma magic link response"),
        Endpoint::MagicLinkExchange => String::from_str(
            "Failed to parse Forma magic link exchange response",
        ),
    }
}

impl FormaError {
    /// The text shown to the user for this error.
    pub fn message(&self) -> (r: String)
        ensures
            r@ == error_text(self@),
    {
        match self {
            FormaError::InvalidToken => String::from_str(
                "Your Forma access token is invalid. Please log in again with `formanator login`.",
            ),
            FormaError::Api(m) => m.clone(),
            FormaError::UnexpectedResponse(s, t, b) => {
                let mut r = String::from_str("Received an unexpected ");
                let d = u64_to_decimal(*s as u64);
                r.append(d.as_str());
                r.append(" ");
                r.append(t.as_str());
                r.append(" response from Forma: ");
                r.append(b.as_str());
                r
            },
            FormaError::ParseFailure(p) => parse_failure_message(*p),
            FormaError::BenefitNotFound(n) => {
                let mut r = String::from_str("Could not find benefit with name `");
                r.append(n.as_str());
                r.append("`.");
                r
            },
            FormaError::ClaimNotAccepted => String::from_str(
                "Something went wrong while submitting your claim. Forma returned `201 Created`, but the response body indicated that the request was not successful.",
            ),
            FormaError::MagicLinkNotSent => String::from_str(
                "Something went wrong while requesting a magic link from Forma.",
            ),
            FormaError::TokenExchangeFailed => String::from_str(
                "Something went wrong while exchanging the magic link for an access token.",
            ),
            FormaError::NotLoggedIn => String::from_str(
                "You aren't logged in to Forma. Please run `formanator login` first.",
            ),
        }
    }
}

} // verus!
