//! What the HTTP handlers answer once the outside work is done.

use vstd::prelude::*;

verus! {

/// The answer to "who am I".
#[derive(Debug, PartialEq, Eq)]
pub struct MeResponse {
    pub authenticated: bool,
    pub did: Option<String>,
}

/// The answer to "who am I": signed in when the session has an agent, with
/// the agent's DID when it knows one.
pub fn me_response(has_agent: bool, agent_did: Option<String>) -> (r: MeResponse)
    ensures
        r.authenticated == has_agent,
        r.did == (if has_agent {
            agent_did
        } else {
            None
        }),
{
    if has_agent {
        MeResponse { authenticated: true, did: agent_did }
    } else {
        MeResponse { authenticated: false, did: None }
    }
}

/// An error body.
#[derive(Debug, PartialEq, Eq)]
pub struct ErrorResponse {
    pub error: String,
    pub message: String,
}

/// The body answered when starting the authorization failed with `message`.
pub fn oauth_init_error(message: String) -> (r: ErrorResponse)
    ensures
        r.error@ == "oauth_init_failed"@,
        r.message == message,
{
    ErrorResponse { error: "oauth_init_failed".to_owned(), message }
}

/// The user a "next statement" request is for: the DID of the session's
/// agent, or the error "User not found" when there is no agent or it has
/// no DID.
pub fn requesting_user(has_agent: bool, agent_did: Option<String>) -> (r: Result<String, String>)
    ensures
        match r {
            Ok(d) => has_agent && agent_did == Some(d),
            Err(e) => e@ == "User not found"@ && !(has_agent && agent_did is Some),
        },
{
    if has_agent {
        match agent_did {
            Some(d) => Ok(d),
            None => Err("User not found".to_owned()),
        }
    } else {
        Err("User not found".to_owned())
    }
}

/// The message answered after signing out.
pub fn logout_message() -> (r: String)
    ensures
        r@ == "Logged out successfully"@,
{
    "Logged out successfully".to_owned()
}

} // verus!
