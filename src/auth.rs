use vstd::prelude::*;

verus! {

/// What a session is opened from.
#[derive(Clone, Debug, PartialEq, Eq)]
pub enum Credentials {
    /// A pre-issued API token, used as it is.
    Token(String),
    /// Email and password, exchanged for a token by a login.
    Password { email: String, password: String },
}

/// The credentials chosen from what the environment offers: a token wins,
/// else email and password together, else there are none.
pub open spec fn chosen_credentials(
    token: Option<String>,
    email: Option<String>,
    password: Option<String>,
) -> Option<Credentials> {
    match token {
        Some(t) => Some(Credentials::Token(t)),
        None => match (email, password) {
            (Some(e), Some(p)) => Some(Credentials::Password { email: e, password: p }),
            _ => None,
        },
    }
}

/// Picks the way to authenticate. `None` means neither a token nor a full
/// pair of email and password is there, which is fatal before any request.
pub fn select_credentials(
    token: Option<String>,
    email: Option<String>,
    password: Option<String>,
) -> (r: Option<Credentials>)
    ensures
        r == chosen_credentials(token, email, password),
{
    match token {
        Some(t) => Some(Credentials::Token(t)),
        None => match email {
            Some(e) => match password {
                Some(p) => Some(Credentials::Password { email: e, password: p }),
                None => None,
            },
            None => None,
        },
    }
}

/// When a token is available, it is used whatever else is there, and no
/// login exchange takes place.
pub proof fn lemma_token_first(token: String, email: Option<String>, password: Option<String>)
    ensures
        chosen_credentials(Some(token), email, password) == Some(Credentials::Token(token)),
        !(chosen_credentials(Some(token), email, password)->0 is Password),
{
}

} // verus!
