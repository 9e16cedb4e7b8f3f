//! Tests of the load-state tracker: the network-idle quiet window, flag
//! monotonicity, the wait conditions, and the polling fallback decisions.

use sparkle::load_state::{
    load_state_reached, poll_state_decision, wait_description, CdpEvent, LoadTracker,
    IDLE_QUIET_MS, POLL_INTERVAL_MS,
};
use sparkle::options::WaitUntilState;

#[test]
fn network_idle_needs_the_quiet_window() {
    // The synthetic sequence [requestWillBeSent(A), requestWillBeSent(B),
    // loadingFinished(A), loadingFinished(B)]: the network-idle flag stays
    // down through the last loadingFinished and only rises when the idle
    // timer fires after the quiet window of silence.
    let mut tracker = LoadTracker::new();
    tracker.apply_event(&CdpEvent::RequestWillBeSent("A".to_string()));
    tracker.apply_event(&CdpEvent::RequestWillBeSent("B".to_string()));
    assert_eq!(tracker.inflight_count(), 2);
    assert!(!tracker.snapshot().network_idle);
    assert!(!tracker.idle_timer_armed());

    tracker.apply_event(&CdpEvent::LoadingFinished("A".to_string()));
    assert_eq!(tracker.inflight_count(), 1);
    assert!(!tracker.snapshot().network_idle);
    assert!(!tracker.idle_timer_armed());

    tracker.apply_event(&CdpEvent::LoadingFinished("B".to_string()));
    assert_eq!(tracker.inflight_count(), 0);
    // Never immediately upon the last loadingFinished:
    assert!(!tracker.snapshot().network_idle);
    // The quiet window is armed instead.
    assert!(tracker.idle_timer_armed());
    assert_eq!(IDLE_QUIET_MS, 500);

    // Only after the window of silence does the flag rise.
    tracker.idle_timer_fired();
    assert!(tracker.snapshot().network_idle);
    assert!(load_state_reached(WaitUntilState::NetworkIdle, &tracker.snapshot()));
}

#[test]
fn new_request_cancels_the_quiet_window() {
    let mut tracker = LoadTracker::new();
    tracker.apply_event(&CdpEvent::RequestWillBeSent("A".to_string()));
    tracker.apply_event(&CdpEvent::LoadingFinished("A".to_string()));
    assert!(tracker.idle_timer_armed());
    // A new request before the window elapses disarms the timer and keeps
    // the flag down.
    tracker.apply_event(&CdpEvent::RequestWillBeSent("B".to_string()));
    assert!(!tracker.idle_timer_armed());
    assert!(!tracker.snapshot().network_idle);
    assert_eq!(tracker.inflight_count(), 1);
}

#[test]
fn duplicate_request_ids_count_once() {
    let mut tracker = LoadTracker::new();
    tracker.apply_event(&CdpEvent::RequestWillBeSent("A".to_string()));
    tracker.apply_event(&CdpEvent::RequestWillBeSent("A".to_string()));
    assert_eq!(tracker.inflight_count(), 1);
    tracker.apply_event(&CdpEvent::LoadingFinished("A".to_string()));
    assert_eq!(tracker.inflight_count(), 0);
    assert!(tracker.idle_timer_armed());
}

#[test]
fn lifecycle_flags_rise_and_stay() {
    let mut tracker = LoadTracker::new();
    tracker.apply_event(&CdpEvent::Commit);
    tracker.apply_event(&CdpEvent::DomContentLoaded);
    tracker.apply_event(&CdpEvent::Load);
    let s = tracker.snapshot();
    assert!(s.commit && s.domcontentloaded && s.load);
    // More traffic does not lower them.
    tracker.apply_event(&CdpEvent::RequestWillBeSent("A".to_string()));
    let s = tracker.snapshot();
    assert!(s.commit && s.domcontentloaded && s.load);
    assert!(!s.network_idle);
}

#[test]
fn browser_reported_idle_counts() {
    let mut tracker = LoadTracker::new();
    tracker.apply_event(&CdpEvent::NetworkIdleReported);
    assert!(tracker.snapshot().network_idle);
}

#[test]
fn wait_conditions_per_state() {
    let mut tracker = LoadTracker::new();
    tracker.apply_event(&CdpEvent::DomContentLoaded);
    let s = tracker.snapshot();
    assert!(load_state_reached(WaitUntilState::DomContentLoaded, &s));
    // The DOM being ready also satisfies a commit wait, but not a full
    // load or network-idle wait.
    assert!(load_state_reached(WaitUntilState::Commit, &s));
    assert!(!load_state_reached(WaitUntilState::Load, &s));
    assert!(!load_state_reached(WaitUntilState::NetworkIdle, &s));

    let mut loaded = LoadTracker::new();
    loaded.apply_event(&CdpEvent::Load);
    let s = loaded.snapshot();
    // The full load event satisfies the DOM-ready and commit waits too.
    assert!(load_state_reached(WaitUntilState::Load, &s));
    assert!(load_state_reached(WaitUntilState::DomContentLoaded, &s));
    assert!(load_state_reached(WaitUntilState::Commit, &s));
}

#[test]
fn polling_fallback_decisions() {
    assert_eq!(POLL_INTERVAL_MS, 100);
    assert!(poll_state_decision(WaitUntilState::DomContentLoaded, "interactive"));
    assert!(poll_state_decision(WaitUntilState::DomContentLoaded, "complete"));
    assert!(!poll_state_decision(WaitUntilState::DomContentLoaded, "loading"));
    assert!(poll_state_decision(WaitUntilState::NetworkIdle, "complete"));
    assert!(!poll_state_decision(WaitUntilState::NetworkIdle, "interactive"));
    assert!(poll_state_decision(WaitUntilState::Commit, "interactive"));
    assert!(!poll_state_decision(WaitUntilState::Commit, "loading"));
    assert!(poll_state_decision(WaitUntilState::Load, "anything"));
}

#[test]
fn timeout_descriptions_name_the_state() {
    assert_eq!(
        wait_description(WaitUntilState::Load),
        "wait for load state: load"
    );
    assert_eq!(
        wait_description(WaitUntilState::DomContentLoaded),
        "wait for load state: domcontentloaded"
    );
    assert_eq!(
        wait_description(WaitUntilState::NetworkIdle),
        "wait for load state: networkidle"
    );
    assert_eq!(
        wait_description(WaitUntilState::Commit),
        "wait for load state: commit"
    );
}

#[test]
fn default_wait_state_is_load() {
    assert_eq!(WaitUntilState::default(), WaitUntilState::Load);
}
