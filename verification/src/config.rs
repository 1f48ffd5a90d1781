//! The saved login state and how the access token is chosen.

use vstd::prelude::*;
use crate::error::{FormaError, FormaErrorView};

verus! {

/// The saved login state: the access token, and the email it was requested for.
#[derive(Debug, Clone)]
pub struct Config {
    pub access_token: String,
    pub email: Option<String>,
}

/// The saved access token, where a configuration was saved.
pub fn get_access_token(config: Option<Config>) -> (r: Option<String>)
    ensures
        r == (match config {
            Some(c) => Some(c.access_token),
            None => None::<String>,
        }),
{
    match config {
        Some(c) => Some(c.access_token),
        None => None,
    }
}

/// The token to use: the one given explicitly if any, else the saved one
/// unless it is missing or empty.
pub open spec fn resolved_token(explicit: Option<Seq<char>>, saved: Option<Seq<char>>) -> Option<Seq<char>> {
    match explicit {
        Some(t) => Some(t),
        None => match saved {
            Some(t) => if t.len() > 0 { Some(t) } else { None },
            None => None,
        },
    }
}

/// An explicit token always wins, whatever is saved; a token taken from the
/// saved configuration is never empty.
pub proof fn lemma_token_choice(explicit: Option<Seq<char>>, saved: Option<Seq<char>>)
    ensures
        explicit matches Some(t) ==> resolved_token(explicit, saved) == Some(t),
        explicit is None && resolved_token(explicit, saved) is Some ==> resolved_token(explicit, saved).unwrap().len() > 0,
        explicit is None && resolved_token(explicit, saved) is Some ==> resolved_token(explicit, saved) == saved,
{
}

/// Chooses the access token from an explicit value (command line or
/// environment), falling back to the saved one; fails when neither gives a
/// token.
pub fn resolve_access_token(explicit: Option<&str>, saved: Option<String>) -> (r: Result<String, FormaError>)
    ensures
        match r {
            Ok(t) => resolved_token(
                match explicit { Some(e) => Some(e@), None => None },
                match saved { Some(s) => Some(s@), None => None },
            ) == Some(t@),
            Err(e) => resolved_token(
                match explicit { Some(e) => Some(e@), None => None },
                match saved { Some(s) => Some(s@), None => None },
            ) is None && e@ == FormaErrorView::NotLoggedIn,
        },
{
    match explicit {
        Some(token) => Ok(String::from_str(token)),
        None => match saved {
            Some(t) => {
                if t.as_str().unicode_len() > 0 {
                    Ok(t)
                } else {
                    Err(FormaError::NotLoggedIn)
                }
            },
            None => Err(FormaError::NotLoggedIn),
        },
    }
}

} // verus!
