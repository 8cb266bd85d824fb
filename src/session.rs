//! The authenticated session: the API's base URL and the bearer token that
//! every request after the token exchange carries.
use vstd::prelude::*;
use vstd::string::StringExecFns;

use crate::models::JamfAuthReponse;

verus! {

/// Why a call against the Jamf API failed; each variant carries the
/// underlying cause as text.
#[derive(Clone, Debug, PartialEq, Eq)]
pub enum JamfClientError {
    /// The credential exchange failed (transport or decoding).
    AuthError(String),
    /// An inventory page or the update catalog could not be retrieved.
    FetchError(String),
}

/// What a session holds.
pub ghost struct SessionView {
    pub base_url: Seq<char>,
    pub bearer_token: Seq<char>,
}

/// An authenticated session, immutable once constructed.
pub struct JamfClientImpl {
    jamf_url: String,
    bearer_token: String,
}

impl View for JamfClientImpl {
    type V = SessionView;

    closed spec fn view(&self) -> SessionView {
        SessionView { base_url: self.jamf_url@, bearer_token: self.bearer_token@ }
    }
}

/// `base` followed by `path`.
pub open spec fn endpoint(base: Seq<char>, path: Seq<char>) -> Seq<char> {
    base + path
}

/// The address of the token endpoint under `jamf_url`.
pub fn token_url(jamf_url: &str) -> (r: String)
    ensures
        r@ == endpoint(jamf_url@, "/api/v1/auth/token"@),
{
    String::from_str(jamf_url).concat("/api/v1/auth/token")
}

impl JamfClientImpl {
    /// Completes the token exchange: a session on `jamf_url` holding the
    /// token that came back, or `AuthError` with the cause of the failure.
    pub fn new(jamf_url: String, token_response: Result<JamfAuthReponse, String>) -> (r: Result<
        Self,
        JamfClientError,
    >)
        ensures
            match token_response {
                Ok(auth) => r is Ok && r->Ok_0@ == (SessionView {
                    base_url: jamf_url@,
                    bearer_token: auth.token@,
                }),
                Err(cause) => r == Err::<Self, JamfClientError>(JamfClientError::AuthError(cause)),
            },
    {
        match token_response {
            Ok(auth) => Ok(JamfClientImpl { jamf_url, bearer_token: auth.token }),
            Err(cause) => Err(JamfClientError::AuthError(cause)),
        }
    }

    /// The base URL of the API.
    pub fn jamf_url(&self) -> (r: &str)
        ensures
            r@ == self@.base_url,
    {
        self.jamf_url.as_str()
    }

    /// The bearer token that authenticates the session's requests.
    pub fn bearer_token(&self) -> (r: &str)
        ensures
            r@ == self@.bearer_token,
    {
        self.bearer_token.as_str()
    }

    /// The address of the computer inventory.
    pub fn inventory_url(&self) -> (r: String)
        ensures
            r@ == endpoint(self@.base_url, "/api/v1/computers-inventory"@),
    {
        self.jamf_url.clone().concat("/api/v1/computers-inventory")
    }

    /// The address of the catalog of available OS updates.
    pub fn updates_url(&self) -> (r: String)
        ensures
            r@ == endpoint(self@.base_url, "/api/v1/managed-software-updates/available-updates"@),
    {
        self.jamf_url.clone().concat("/api/v1/managed-software-updates/available-updates")
    }
}

} // verus!
