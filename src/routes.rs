//! The payloads of the service's small endpoints.
use vstd::prelude::*;
use vstd::string::StringExecFns;

verus! {

/// Credentials as a caller submits them.
#[derive(Clone, Debug, PartialEq, Eq)]
pub struct CredentialsInput {
    pub username: String,
    pub password: String,
    pub url: String,
}

/// Credentials as the service echoes them back.
#[derive(Clone, Debug, PartialEq, Eq)]
pub struct CredentialsOutput {
    pub username: String,
    pub password: String,
    pub url: String,
}

/// The greeting of the service's root endpoint.
#[derive(Clone, Debug, PartialEq, Eq)]
pub struct HelloWorldResponse {
    pub data: String,
}

/// Echoes the submitted credentials unchanged.
pub fn credentials(input: CredentialsInput) -> (r: CredentialsOutput)
    ensures
        r.username == input.username,
        r.password == input.password,
        r.url == input.url,
{
    CredentialsOutput { username: input.username, password: input.password, url: input.url }
}

/// The greeting `hello world`.
pub fn hello_world() -> (r: HelloWorldResponse)
    ensures
        r.data@ == "hello world"@,
{
    HelloWorldResponse { data: String::from_str("hello world") }
}

} // verus!
