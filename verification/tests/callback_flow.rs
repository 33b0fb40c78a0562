use std::sync::Arc;
use atpolis::oauth2::{callback_step, CallbackAction, CallbackOutcome, CallbackStage};

fn run(oks: &[bool]) -> Option<CallbackOutcome> {
    let mut stage = CallbackStage::Start;
    for &ok in oks {
        let (next, action) = callback_step(stage, ok);
        stage = next;
        match action {
            CallbackAction::Redirect(o) => return Some(o),
            CallbackAction::Nothing => return None,
            _ => {}
        }
    }
    None
}

#[test]
fn every_step_succeeding_signs_in() {
    assert_eq!(run(&[true, true, true, true, true]), Some(CallbackOutcome::Authenticated));
}

#[test]
fn a_missing_query_is_reported_first() {
    assert_eq!(run(&[false, true, true, true, true]), Some(CallbackOutcome::MissingParams));
}

#[test]
fn a_failed_exchange_is_reported() {
    assert_eq!(run(&[true, false, true, true, true]), Some(CallbackOutcome::OAuthFailed));
}

#[test]
fn a_failed_session_write_is_reported() {
    assert_eq!(run(&[true, true, false]), Some(CallbackOutcome::SessionError));
    assert_eq!(run(&[true, true, true, false]), Some(CallbackOutcome::SessionError));
    assert_eq!(run(&[true, true, true, true, false]), Some(CallbackOutcome::SessionError));
}

#[test]
fn steps_follow_the_flow() {
    assert_eq!(
        callback_step(CallbackStage::Start, true),
        (CallbackStage::Exchanging, CallbackAction::ExchangeCode)
    );
    assert_eq!(
        callback_step(CallbackStage::Exchanging, true),
        (CallbackStage::WritingDid, CallbackAction::StoreAgentAndDid)
    );
    assert_eq!(
        callback_step(CallbackStage::WritingDid, true),
        (CallbackStage::WritingFlag, CallbackAction::WriteFlag)
    );
    assert_eq!(
        callback_step(CallbackStage::WritingFlag, true),
        (CallbackStage::WritingSessionId, CallbackAction::WriteSessionId)
    );
    assert_eq!(
        callback_step(CallbackStage::Finished, true),
        (CallbackStage::Finished, CallbackAction::Nothing)
    );
    assert_eq!(run(&[true, true]), None);
}

#[test]
fn agents_are_found_under_their_session_until_removed() {
    let mut store: atpolis::agents::AgentStore<Arc<u32>> = atpolis::agents::AgentStore::new();
    assert!(store.get("s1").is_none());
    store.insert("s1".to_string(), Arc::new(7));
    store.insert("s2".to_string(), Arc::new(8));
    assert_eq!(store.get("s1").map(|a| **a), Some(7));
    store.insert("s1".to_string(), Arc::new(9));
    assert_eq!(store.get("s1").map(|a| **a), Some(9));
    store.remove("s1");
    assert!(store.get("s1").is_none());
    assert_eq!(store.get("s2").map(|a| **a), Some(8));
}
