//! Tests of the session model and the frame context manager: idempotent
//! close, the always-restore scope protocol, nested chains, and the
//! selector builders.

use sparkle::errors::Error;
use sparkle::frames::{
    finish_frame_action, frame_action_round, frame_not_found_error, switch_into, FrameLocator,
};
use sparkle::session::SessionState;

#[test]
fn close_is_idempotent() {
    let mut session = SessionState::new();
    assert!(!session.is_closed());
    assert_eq!(session.require_open(), Ok(()));

    assert_eq!(session.close(), Ok(()));
    assert!(session.is_closed());
    let after_first = session.clone();

    // Closing again is a no-op: it still succeeds and changes nothing.
    assert_eq!(session.close(), Ok(()));
    assert_eq!(session, after_first);
    assert_eq!(session.require_open(), Err(Error::BrowserClosed));
}

#[test]
fn operations_after_close_observe_browser_closed() {
    let mut session = SessionState::new();
    session.mark_debug_channel_open();
    session.close().unwrap();
    assert_eq!(session.require_open(), Err(Error::BrowserClosed));
    // The debugging channel went down with the session.
    assert!(!session.debug_channel_open);
}

#[test]
fn scope_restored_when_action_fails() {
    // A frame-scoped action whose wrapped action fails (its target
    // selector never matched) still leaves the scope at top level, so an
    // unrelated top-level action can proceed.
    let mut session = SessionState::new();
    let chain = vec!["iframe#outer".to_string()];
    let ok = frame_action_round(&mut session, &chain, false);
    assert!(!ok);
    assert!(session.is_top_level());
    assert_eq!(session.require_open(), Ok(()));
}

#[test]
fn scope_restored_when_action_succeeds() {
    let mut session = SessionState::new();
    let chain = vec!["iframe#outer".to_string(), "iframe#inner".to_string()];
    let ok = frame_action_round(&mut session, &chain, true);
    assert!(ok);
    assert!(session.is_top_level());
}

#[test]
fn nested_two_level_frame_scenario() {
    // A page with an iframe two levels deep: clicking a button inside the
    // innermost frame via a two-level chain succeeds, and a subsequent
    // query against a top-level element in the same session also succeeds.
    let playwright_frame = FrameLocator::new("iframe#level-1".to_string());
    let inner = playwright_frame.frame_locator("iframe#level-2".to_string());
    let button = inner.locator("button#go".to_string());
    assert_eq!(
        button.frame.chain,
        vec!["iframe#level-1".to_string(), "iframe#level-2".to_string()]
    );

    let mut session = SessionState::new();
    // Walk into the chain, click, and restore.
    switch_into(&mut session, &button.frame.chain);
    assert_eq!(session.scope.len(), 2);
    let clicked = finish_frame_action(&mut session, true);
    assert!(clicked);
    // The top-level query finds its element: the scope is the top-level
    // document again, so the session addresses the page, not the frame.
    assert!(session.is_top_level());
    assert_eq!(
        sparkle::locator::single_query_outcome("h1#title", 1),
        Ok(0)
    );
}

#[test]
fn frame_timeout_names_the_selector() {
    match frame_not_found_error("iframe#gone", 30_000) {
        Error::Timeout {
            message,
            timeout_ms,
        } => {
            assert_eq!(message, "iframe not found: iframe#gone");
            assert_eq!(timeout_ms, 30_000);
        }
        other => panic!("expected a timeout, got {:?}", other),
    }
}

#[test]
fn frame_selector_builders() {
    let frame = FrameLocator::new("iframe#f".to_string());
    assert_eq!(frame.frame_selector(), "iframe#f");
    assert_eq!(
        frame.get_by_text("Sign in".to_string()).element_selector,
        "//*[text()='Sign in']"
    );
    assert_eq!(
        frame.get_by_role("button".to_string()).element_selector,
        "[role='button']"
    );
    assert_eq!(
        frame.get_by_label("Email".to_string()).element_selector,
        "label:contains('Email') input, label:contains('Email') textarea"
    );
    assert_eq!(
        frame.get_by_placeholder("Search".to_string()).element_selector,
        "[placeholder='Search']"
    );
    assert_eq!(
        frame.get_by_test_id("submit-button".to_string()).element_selector,
        "[data-testid='submit-button']"
    );
}

#[test]
fn test_frame_locator_creation() {
    let frame = FrameLocator::new("iframe#my-frame".to_string());
    assert_eq!(frame.frame_selector(), "iframe#my-frame");
    assert_eq!(frame.chain.len(), 1);
    let element = frame.locator("button#submit".to_string());
    assert_eq!(element.element_selector, "button#submit");
}

#[test]
fn switch_into_walks_outermost_first() {
    let mut session = SessionState::new();
    session.enter_frame("stale".to_string());
    let chain = vec!["a".to_string(), "b".to_string(), "c".to_string()];
    switch_into(&mut session, &chain);
    assert_eq!(session.scope, chain);
}
