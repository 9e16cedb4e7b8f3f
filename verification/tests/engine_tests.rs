//! Tests of the locator engine: index selection, single-query outcomes,
//! the retry policy, and the transport-level classification of driver
//! errors.

use sparkle::errors::Error;
use sparkle::locator::{Locator, DEFAULT_TIMEOUT_MS, LAST_MATCH};
use sparkle::retry::{budget_spent_error, retry_verdict, RetryVerdict, RETRY_INTERVAL_MS};
use sparkle::transport::{
    classify_find_all_error, classify_find_error, element_from_response, DriverErrorKind,
};
use sparkle::json::JsonValue;

#[test]
fn test_locator_selector() {
    let locator = Locator::new("button#submit".to_string());
    assert_eq!(locator.selector(), "button#submit");
    assert_eq!(locator.timeout_ms, DEFAULT_TIMEOUT_MS);
    assert_eq!(locator.nth_index, None);
}

#[test]
fn test_locator_timeout_builder() {
    let locator = Locator::new("a".to_string()).timeout(5_000);
    assert_eq!(locator.timeout_ms, 5_000);
    assert_eq!(locator.selector(), "a");
}

#[test]
fn test_nth_creates_indexed_locator() {
    let locator = Locator::new("li".to_string()).nth(2);
    assert_eq!(locator.nth_index, Some(2));
    assert_eq!(locator.selector(), "li");
}

#[test]
fn test_nth_indexing() {
    // Zero-based indexing: nth(n) resolves to position n of the live
    // match list whenever n is in range.
    let base = Locator::new("li".to_string());
    assert_eq!(base.nth(0).resolve_index(3), Ok(0));
    assert_eq!(base.nth(1).resolve_index(3), Ok(1));
    assert_eq!(base.nth(2).resolve_index(3), Ok(2));
    assert!(base.nth(3).resolve_index(3).is_err());
}

#[test]
fn test_first_is_nth_zero() {
    let base = Locator::new("li".to_string());
    assert_eq!(base.first(), base.nth(0));
}

#[test]
fn test_last_uses_special_marker() {
    let base = Locator::new("li".to_string());
    assert_eq!(base.last().nth_index, Some(LAST_MATCH));
}

#[test]
fn never_matching_selector_fails_find_and_empties_find_all() {
    // A selector with no matches: the single query always reports
    // ElementNotFound naming the selector, and the all-elements query is
    // the empty list, never an error.
    let outcome = sparkle::locator::single_query_outcome(".missing", 0);
    match outcome {
        Err(Error::ElementNotFound { selector }) => assert_eq!(selector, ".missing"),
        other => panic!("expected ElementNotFound, got {:?}", other),
    }
    let all = classify_find_all_error(DriverErrorKind::NoSuchElement, String::new()).unwrap();
    assert!(all.is_empty());
    // And every locator over it resolves to nothing, whatever its index.
    for locator in [
        Locator::new(".missing".to_string()),
        Locator::new(".missing".to_string()).nth(0),
        Locator::new(".missing".to_string()).nth(7),
        Locator::new(".missing".to_string()).last(),
    ] {
        assert!(locator.resolve_index(0).is_err());
    }
}

#[test]
fn single_query_returns_first_match() {
    assert_eq!(sparkle::locator::single_query_outcome("p", 3), Ok(0));
}

#[test]
fn nth_beyond_range_is_retryable_not_found() {
    let locator = Locator::new(".item".to_string()).nth(100);
    match locator.resolve_index(5) {
        Err(e @ Error::ElementNotFound { .. }) => {
            assert!(e.is_retryable());
            match e {
                Error::ElementNotFound { selector } => assert_eq!(selector, ".item[100]"),
                _ => unreachable!(),
            }
        }
        other => panic!("expected a retryable miss, got {:?}", other),
    }
}

#[test]
fn last_tracks_the_live_match_count() {
    // The last-match marker resolves at query time: the same locator picks
    // position k-1 for whatever k the live DOM has right now.
    let locator = Locator::new(".item".to_string()).last();
    assert_eq!(locator.resolve_index(5), Ok(4));
    assert_eq!(locator.resolve_index(2), Ok(1));
    assert_eq!(locator.resolve_index(9), Ok(8));
    assert!(locator.resolve_index(0).is_err());
}

#[test]
fn five_items_scenario() {
    // A page with <ul><li>Item 1</li>...<li>Item 5</li></ul>: the locator
    // ".item" sees five matches.
    let texts = [
        "Item 1".to_string(),
        "Item 2".to_string(),
        "Item 3".to_string(),
        "Item 4".to_string(),
        "Item 5".to_string(),
    ];
    let k = texts.len();
    let base = Locator::new(".item".to_string());

    let nth0 = base.nth(0).resolve_index(k).unwrap();
    assert_eq!(texts[nth0], "Item 1");

    let nth4 = base.nth(4).resolve_index(k).unwrap();
    assert_eq!(texts[nth4], "Item 5");

    let last = base.last().resolve_index(k).unwrap();
    assert_eq!(texts[last], "Item 5");

    assert_eq!(base.count_result(k), 5);

    // nth(100) never resolves: every attempt misses, and once the budget
    // is spent the retry loop reports the timeout instead of a result.
    let miss = base.nth(100).resolve_index(k).unwrap_err();
    assert!(miss.is_retryable());
    let verdict = retry_verdict(&miss, DEFAULT_TIMEOUT_MS, DEFAULT_TIMEOUT_MS);
    assert_eq!(verdict, RetryVerdict::GiveUp);
    let timeout = budget_spent_error("element not found".to_string(), DEFAULT_TIMEOUT_MS);
    assert!(matches!(timeout, Error::Timeout { .. }));
}

#[test]
fn retry_policy_decisions() {
    let transient = Error::element_not_found("p".to_string());
    assert_eq!(
        retry_verdict(&transient, 0, 30_000),
        RetryVerdict::RetryAfter(RETRY_INTERVAL_MS)
    );
    assert_eq!(retry_verdict(&transient, 30_000, 30_000), RetryVerdict::GiveUp);
    assert_eq!(retry_verdict(&transient, 40_000, 30_000), RetryVerdict::GiveUp);
    // Session-closed conditions are terminal at once, however much budget
    // is left.
    assert_eq!(
        retry_verdict(&Error::BrowserClosed, 0, 30_000),
        RetryVerdict::Terminal
    );
    assert_eq!(
        retry_verdict(&Error::PageClosed, 0, 30_000),
        RetryVerdict::Terminal
    );
    // Hard protocol failures surface unchanged too.
    assert_eq!(
        retry_verdict(&Error::Serialization("bad payload".to_string()), 0, 30_000),
        RetryVerdict::Terminal
    );
}

#[test]
fn find_error_classification() {
    match classify_find_error("div.x", DriverErrorKind::NoSuchElement, String::new()) {
        Error::ElementNotFound { selector } => assert_eq!(selector, "div.x"),
        other => panic!("expected ElementNotFound, got {:?}", other),
    }
    match classify_find_error("div.x", DriverErrorKind::Other, "boom".to_string()) {
        Error::WebDriver(m) => assert_eq!(m, "boom"),
        other => panic!("expected a transport error, got {:?}", other),
    }
    assert!(classify_find_all_error(DriverErrorKind::NotFound, String::new())
        .unwrap()
        .is_empty());
    assert!(classify_find_all_error(DriverErrorKind::Other, "boom".to_string()).is_err());
}

#[test]
fn element_reference_parsing_outcomes() {
    let ok = JsonValue::Obj(vec![(
        "element-6066-11e4-a52e-4f735466cecf".to_string(),
        JsonValue::Str("node-1".to_string()),
    )]);
    assert_eq!(element_from_response(&ok).unwrap().element_id, "node-1");

    let bad = JsonValue::Obj(vec![("unrelated".to_string(), JsonValue::Int(3))]);
    match element_from_response(&bad) {
        Err(Error::ActionFailed(m)) => assert_eq!(m, "Failed to parse element reference"),
        other => panic!("expected ActionFailed, got {:?}", other),
    }
}
