//! The OAuth client's configuration and where the sign-in flow sends the
//! browser back to.

use vstd::prelude::*;

verus! {

/// A scope the OAuth client asks for.
#[derive(Debug, PartialEq, Eq)]
pub enum ScopeSpec {
    /// `atproto`
    Atproto,
    /// `transition:generic`
    TransitionGeneric,
    /// Any other scope, by its text.
    Custom(String),
}

/// The scope that lets the client write poll records.
pub open spec fn poll_write_scope() -> Seq<char> {
    "repo:scot.comhairle.testingPolisPollV1?action=create"@
}

/// The scopes asked for, both when the client is configured and when a
/// user is sent to authorize it: `atproto`, `transition:generic`, and the
/// scope that writes poll records.
pub fn oauth_scopes() -> (r: Vec<ScopeSpec>)
    ensures
        r@.len() == 3,
        r@[0] == ScopeSpec::Atproto,
        r@[1] == ScopeSpec::TransitionGeneric,
        r@[2] matches ScopeSpec::Custom(s) && s@ == poll_write_scope(),
{
    let mut v: Vec<ScopeSpec> = Vec::new();
    v.push(ScopeSpec::Atproto);
    v.push(ScopeSpec::TransitionGeneric);
    v.push(ScopeSpec::Custom("repo:scot.comhairle.testingPolisPollV1?action=create".to_owned()));
    v
}

/// The URI the authorization server sends the browser back to.
pub open spec fn callback_uri() -> Seq<char> {
    "http://127.0.0.1:5173/api/oauth/callback"@
}

/// The redirect URIs the client registers: the callback URI alone.
pub fn redirect_uris() -> (r: Vec<String>)
    ensures
        r@.len() == 1,
        r@[0]@ == callback_uri(),
{
    let mut v: Vec<String> = Vec::new();
    v.push("http://127.0.0.1:5173/api/oauth/callback".to_owned());
    v
}

/// The parameters the authorization server sends back with the browser.
#[derive(Debug, PartialEq, Eq)]
pub struct CallbackQuery {
    pub code: String,
    pub state: Option<String>,
    pub iss: Option<String>,
}

/// An optional string as an optional text.
pub open spec fn opt_text(s: Option<String>) -> Option<Seq<char>> {
    match s {
        Some(t) => Some(t@),
        None => None,
    }
}

/// What parsing a query string as `atrium_oauth::CallbackParams` with
/// `serde_html_form` gives, as plain values (code, state, issuer); `None`
/// where it reports an error.
pub uninterp spec fn callback_query_of(q: Seq<char>) -> Option<
    (Seq<char>, Option<Seq<char>>, Option<Seq<char>>),
>;

/// Parses the callback's query string with `serde_html_form::from_str`
/// into `atrium_oauth::CallbackParams` and keeps its three fields. The
/// contract claims that the outcome is a function of the text, named
/// `callback_query_of`; form decoding itself is left unsaid.
#[verifier::external_body]
pub fn parse_callback_query(query: &str) -> (r: Option<CallbackQuery>)
    ensures
        r is None <==> callback_query_of(query@) is None,
        r matches Some(p) ==> callback_query_of(query@) == Some(
            (p.code@, opt_text(p.state), opt_text(p.iss)),
        ),
{
    let p: atrium_oauth::CallbackParams = serde_html_form::from_str(query).ok()?;
    Some(CallbackQuery { code: p.code, state: p.state, iss: p.iss })
}

/// How handling the authorization server's callback ended.
#[derive(Debug, Clone, Copy, PartialEq, Eq, Structural)]
pub enum CallbackOutcome {
    /// The callback came without query parameters.
    MissingParams,
    /// Exchanging the callback parameters for a session failed.
    OAuthFailed,
    /// The session could not be written.
    SessionError,
    /// The user is signed in.
    Authenticated,
}

/// Where the browser is sent after the callback: `Ok` with the app's page
/// once signed in, `Err` with the app's page and the error otherwise.
pub open spec fn callback_target(outcome: CallbackOutcome) -> Result<Seq<char>, Seq<char>> {
    match outcome {
        CallbackOutcome::MissingParams => Err("http://127.0.0.1:5173/?error=missing_params"@),
        CallbackOutcome::OAuthFailed => Err("http://127.0.0.1:5173/?error=oauth_failed"@),
        CallbackOutcome::SessionError => Err("http://127.0.0.1:5173/?error=session_error"@),
        CallbackOutcome::Authenticated => Ok("http://127.0.0.1:5173/?success=true"@),
    }
}

/// The redirect the callback answers with.
pub fn callback_redirect(outcome: CallbackOutcome) -> (r: Result<String, String>)
    ensures
        match (r, callback_target(outcome)) {
            (Ok(u), Ok(t)) => u@ == t,
            (Err(u), Err(t)) => u@ == t,
            _ => false,
        },
{
    match outcome {
        CallbackOutcome::MissingParams => Err(
            "http://127.0.0.1:5173/?error=missing_params".to_owned(),
        ),
        CallbackOutcome::OAuthFailed => Err("http://127.0.0.1:5173/?error=oauth_failed".to_owned()),
        CallbackOutcome::SessionError => Err(
            "http://127.0.0.1:5173/?error=session_error".to_owned(),
        ),
        CallbackOutcome::Authenticated => Ok("http://127.0.0.1:5173/?success=true".to_owned()),
    }
}

/// The id the signed-in agent is stored under: the browser session's own
/// id when it has one, else the freshly generated one.
pub fn session_id_for(existing: Option<String>, fresh: String) -> (r: String)
    ensures
        r == match existing {
            Some(id) => id,
            None => fresh,
        },
{
    match existing {
        Some(id) => id,
        None => fresh,
    }
}

/// Where handling the authorization server's callback stands.
#[derive(Debug, Clone, Copy, PartialEq, Eq, Structural)]
pub enum CallbackStage {
    /// The callback has just arrived.
    Start,
    /// The callback parameters are being exchanged for a session.
    Exchanging,
    /// The agent is being stored and the user's DID written to the session.
    WritingDid,
    /// The "authenticated" flag is being written to the session.
    WritingFlag,
    /// The agent's session id is being written to the session.
    WritingSessionId,
    /// The browser has been redirected.
    Finished,
}

/// What to do next while handling the callback.
#[derive(Debug, Clone, Copy, PartialEq, Eq, Structural)]
pub enum CallbackAction {
    /// Exchange the query parameters for a session with the authorization server.
    ExchangeCode,
    /// Store the new agent under the session id and write the user's DID to the session.
    StoreAgentAndDid,
    /// Write the "authenticated" flag to the session.
    WriteFlag,
    /// Write the agent's session id to the session.
    WriteSessionId,
    /// Send the browser back with this outcome.
    Redirect(CallbackOutcome),
    /// Nothing is left to do.
    Nothing,
}

/// The next stage and action, given whether the previous step succeeded
/// (at the start: whether the callback came with query parameters).
pub open spec fn callback_transition(stage: CallbackStage, ok: bool) -> (
    CallbackStage,
    CallbackAction,
) {
    match stage {
        CallbackStage::Start => if ok {
            (CallbackStage::Exchanging, CallbackAction::ExchangeCode)
        } else {
            (CallbackStage::Finished, CallbackAction::Redirect(CallbackOutcome::MissingParams))
        },
        CallbackStage::Exchanging => if ok {
            (CallbackStage::WritingDid, CallbackAction::StoreAgentAndDid)
        } else {
            (CallbackStage::Finished, CallbackAction::Redirect(CallbackOutcome::OAuthFailed))
        },
        CallbackStage::WritingDid => if ok {
            (CallbackStage::WritingFlag, CallbackAction::WriteFlag)
        } else {
            (CallbackStage::Finished, CallbackAction::Redirect(CallbackOutcome::SessionError))
        },
        CallbackStage::WritingFlag => if ok {
            (CallbackStage::WritingSessionId, CallbackAction::WriteSessionId)
        } else {
            (CallbackStage::Finished, CallbackAction::Redirect(CallbackOutcome::SessionError))
        },
        CallbackStage::WritingSessionId => if ok {
            (CallbackStage::Finished, CallbackAction::Redirect(CallbackOutcome::Authenticated))
        } else {
            (CallbackStage::Finished, CallbackAction::Redirect(CallbackOutcome::SessionError))
        },
        CallbackStage::Finished => (CallbackStage::Finished, CallbackAction::Nothing),
    }
}

/// One step of handling the callback.
pub fn callback_step(stage: CallbackStage, ok: bool) -> (r: (CallbackStage, CallbackAction))
    ensures
        r == callback_transition(stage, ok),
{
    match stage {
        CallbackStage::Start => if ok {
            (CallbackStage::Exchanging, CallbackAction::ExchangeCode)
        } else {
            (CallbackStage::Finished, CallbackAction::Redirect(CallbackOutcome::MissingParams))
        },
        CallbackStage::Exchanging => if ok {
            (CallbackStage::WritingDid, CallbackAction::StoreAgentAndDid)
        } else {
            (CallbackStage::Finished, CallbackAction::Redirect(CallbackOutcome::OAuthFailed))
        },
        CallbackStage::WritingDid => if ok {
            (CallbackStage::WritingFlag, CallbackAction::WriteFlag)
        } else {
            (CallbackStage::Finished, CallbackAction::Redirect(CallbackOutcome::SessionError))
        },
        CallbackStage::WritingFlag => if ok {
            (CallbackStage::WritingSessionId, CallbackAction::WriteSessionId)
        } else {
            (CallbackStage::Finished, CallbackAction::Redirect(CallbackOutcome::SessionError))
        },
        CallbackStage::WritingSessionId => if ok {
            (CallbackStage::Finished, CallbackAction::Redirect(CallbackOutcome::Authenticated))
        } else {
            (CallbackStage::Finished, CallbackAction::Redirect(CallbackOutcome::SessionError))
        },
        CallbackStage::Finished => (CallbackStage::Finished, CallbackAction::Nothing),
    }
}

/// The outcome the callback handling reaches from `stage` when the steps
/// succeed or fail as `oks` says, one after another; `None` while it has
/// not redirected yet.
pub open spec fn callback_run(stage: CallbackStage, oks: Seq<bool>) -> Option<CallbackOutcome>
    decreases oks.len(),
{
    if oks.len() == 0 {
        None
    } else {
        let (next, action) = callback_transition(stage, oks[0]);
        match action {
            CallbackAction::Redirect(o) => Some(o),
            CallbackAction::Nothing => None,
            _ => callback_run(next, oks.drop_first()),
        }
    }
}

/// Handling a callback redirects within five steps, and it signs the user
/// in exactly when the query was present, the exchange succeeded and all
/// three session writes succeeded; any failure sends the browser back with
/// the error of the step that failed.
pub proof fn lemma_callback_signs_in_only_after_every_step(oks: Seq<bool>)
    requires
        oks.len() >= 5,
    ensures
        callback_run(CallbackStage::Start, oks) is Some,
        callback_run(CallbackStage::Start, oks) == Some(CallbackOutcome::Authenticated) <==> (
        forall|i: int| 0 <= i < 5 ==> #[trigger] oks[i]),
        !oks[0] ==> callback_run(CallbackStage::Start, oks) == Some(CallbackOutcome::MissingParams),
        oks[0] && !oks[1] ==> callback_run(CallbackStage::Start, oks) == Some(
            CallbackOutcome::OAuthFailed,
        ),
{
    let s1 = oks.drop_first();
    let s2 = s1.drop_first();
    let s3 = s2.drop_first();
    let s4 = s3.drop_first();
    assert(s1[0] == oks[1] && s2[0] == oks[2] && s3[0] == oks[3] && s4[0] == oks[4]);
    let r4 = callback_run(CallbackStage::WritingSessionId, s4);
    assert(r4 == Some(
        if oks[4] {
            CallbackOutcome::Authenticated
        } else {
            CallbackOutcome::SessionError
        },
    ));
    let r3 = callback_run(CallbackStage::WritingFlag, s3);
    assert(r3 == if oks[3] {
        r4
    } else {
        Some(CallbackOutcome::SessionError)
    });
    let r2 = callback_run(CallbackStage::WritingDid, s2);
    assert(r2 == if oks[2] {
        r3
    } else {
        Some(CallbackOutcome::SessionError)
    });
    let r1 = callback_run(CallbackStage::Exchanging, s1);
    assert(r1 == if oks[1] {
        r2
    } else {
        Some(CallbackOutcome::OAuthFailed)
    });
    let r0 = callback_run(CallbackStage::Start, oks);
    assert(r0 == if oks[0] {
        r1
    } else {
        Some(CallbackOutcome::MissingParams)
    });
    if !(forall|i: int| 0 <= i < 5 ==> #[trigger] oks[i]) {
        let k = choose|i: int| 0 <= i < 5 && !oks[i];
        assert(!oks[k]);
    }
}

/// The work each unfinished stage of the callback is there to do.
pub open spec fn callback_stage_work(stage: CallbackStage) -> CallbackAction {
    match stage {
        CallbackStage::Start => CallbackAction::Nothing,
        CallbackStage::Exchanging => CallbackAction::ExchangeCode,
        CallbackStage::WritingDid => CallbackAction::StoreAgentAndDid,
        CallbackStage::WritingFlag => CallbackAction::WriteFlag,
        CallbackStage::WritingSessionId => CallbackAction::WriteSessionId,
        CallbackStage::Finished => CallbackAction::Nothing,
    }
}

/// The actions taken from `stage` when the next `n` steps all succeed.
pub open spec fn callback_actions_when_all_succeed(stage: CallbackStage, n: nat) -> Seq<
    CallbackAction,
>
    decreases n,
{
    if n == 0 {
        Seq::empty()
    } else {
        let (next, action) = callback_transition(stage, true);
        seq![action] + callback_actions_when_all_succeed(next, (n - 1) as nat)
    }
}

/// Every step that does not redirect hands out the work of the stage it
/// moves to, a redirect ends the handling, and when every step succeeds the
/// code is exchanged, the agent and DID stored, the flag and the session
/// id written, in that order, before the browser is sent back signed in.
pub proof fn lemma_callback_does_every_step_in_order(stage: CallbackStage, ok: bool)
    ensures
        callback_transition(stage, ok).0 != CallbackStage::Finished ==> callback_transition(
            stage,
            ok,
        ).1 == callback_stage_work(callback_transition(stage, ok).0),
        callback_transition(stage, ok).1 is Redirect ==> callback_transition(stage, ok).0
            == CallbackStage::Finished,
        callback_actions_when_all_succeed(CallbackStage::Start, 5) == seq![
            CallbackAction::ExchangeCode,
            CallbackAction::StoreAgentAndDid,
            CallbackAction::WriteFlag,
            CallbackAction::WriteSessionId,
            CallbackAction::Redirect(CallbackOutcome::Authenticated),
        ],
{
    reveal_with_fuel(callback_actions_when_all_succeed, 6);
    let a4 = callback_actions_when_all_succeed(CallbackStage::WritingSessionId, 1);
    assert(a4 =~= seq![CallbackAction::Redirect(CallbackOutcome::Authenticated)]);
    let a3 = callback_actions_when_all_succeed(CallbackStage::WritingFlag, 2);
    assert(a3 =~= seq![CallbackAction::WriteSessionId] + a4);
    let a2 = callback_actions_when_all_succeed(CallbackStage::WritingDid, 3);
    assert(a2 =~= seq![CallbackAction::WriteFlag] + a3);
    let a1 = callback_actions_when_all_succeed(CallbackStage::Exchanging, 4);
    assert(a1 =~= seq![CallbackAction::StoreAgentAndDid] + a2);
    let a0 = callback_actions_when_all_succeed(CallbackStage::Start, 5);
    assert(a0 =~= seq![CallbackAction::ExchangeCode] + a1);
}

/// Only a signed-in user is sent back to the app's success page; each
/// failure is sent back to its own error page.
pub proof fn lemma_callback_targets(a: CallbackOutcome, b: CallbackOutcome)
    ensures
        callback_target(a) is Ok <==> a == CallbackOutcome::Authenticated,
        a != b ==> callback_target(a) != callback_target(b),
{
    reveal_strlit("http://127.0.0.1:5173/?error=missing_params");
    reveal_strlit("http://127.0.0.1:5173/?error=oauth_failed");
    reveal_strlit("http://127.0.0.1:5173/?error=session_error");
    assert("http://127.0.0.1:5173/?error=missing_params"@.len() == 43);
    assert("http://127.0.0.1:5173/?error=oauth_failed"@.len() == 41);
    assert("http://127.0.0.1:5173/?error=session_error"@.len() == 42);
}

} // verus!
