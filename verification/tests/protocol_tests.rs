//! Tests of the protocol payload logic: the JSON model, element-reference
//! extraction, target selection, event classification, version parsing,
//! command envelopes, origins and storage scripts.

use sparkle::json::{json_string_literal, JsonValue};
use sparkle::load_state::CdpEvent;
use sparkle::protocol::{
    cdp_command, debugger_address_from_capabilities, extract_browser_version, extract_element_id,
    origin_string, parse_cdp_event, select_page_target, version_from_product,
    version_from_user_agent, websocket_url_of_target,
};
use sparkle::options::StealthOptions;
use sparkle::stealth::stealth_setup_plan;
use sparkle::storage::{dedup_origin_states, entries_from_pairs, storage_item_script, NameValue, OriginState};
use sparkle::text::{contains_substr, find_substr, u64_to_string};

fn obj(fields: Vec<(&str, JsonValue)>) -> JsonValue {
    JsonValue::Obj(
        fields
            .into_iter()
            .map(|(k, v)| (k.to_string(), v))
            .collect(),
    )
}

fn s(text: &str) -> JsonValue {
    JsonValue::Str(text.to_string())
}

#[test]
fn json_member_lookup() {
    let v = obj(vec![("a", JsonValue::Int(1)), ("b", s("two"))]);
    assert_eq!(v.get("a"), Some(&JsonValue::Int(1)));
    assert_eq!(v.get_str("b"), Some("two"));
    assert_eq!(v.get("c"), None);
    assert_eq!(JsonValue::Null.get("a"), None);
    assert!(JsonValue::Null.is_null());
    assert_eq!(JsonValue::Bool(true).as_bool(), Some(true));
    assert_eq!(JsonValue::Int(7).as_i64(), Some(7));
}

#[test]
fn element_id_under_each_key() {
    let w3c = obj(vec![(
        "element-6066-11e4-a52e-4f735466cecf",
        s("node-w3c"),
    )]);
    assert_eq!(extract_element_id(&w3c), Some("node-w3c".to_string()));

    let shadow = obj(vec![(
        "shadow-6066-11e4-a52e-4f735466cecf",
        s("node-shadow"),
    )]);
    assert_eq!(extract_element_id(&shadow), Some("node-shadow".to_string()));

    let legacy = obj(vec![("ELEMENT", s("node-legacy"))]);
    assert_eq!(extract_element_id(&legacy), Some("node-legacy".to_string()));

    // A bare string is itself the reference.
    assert_eq!(
        extract_element_id(&s("node-bare")),
        Some("node-bare".to_string())
    );

    // A nested reference object is searched recursively.
    let nested = obj(vec![(
        "element-6066-11e4-a52e-4f735466cecf",
        obj(vec![("ELEMENT", s("node-nested"))]),
    )]);
    assert_eq!(extract_element_id(&nested), Some("node-nested".to_string()));

    // The current key wins over the legacy key.
    let both = obj(vec![
        ("ELEMENT", s("old")),
        ("element-6066-11e4-a52e-4f735466cecf", s("new")),
    ]);
    assert_eq!(extract_element_id(&both), Some("new".to_string()));

    assert_eq!(extract_element_id(&JsonValue::Int(4)), None);
    assert_eq!(extract_element_id(&obj(vec![("other", s("x"))])), None);
}

#[test]
fn capability_extraction() {
    let caps = obj(vec![("browserVersion", s("121.0.3"))]);
    assert_eq!(extract_browser_version(&caps), Some("121.0.3".to_string()));
    let snake = obj(vec![("browser_version", s("120.0.1"))]);
    assert_eq!(extract_browser_version(&snake), Some("120.0.1".to_string()));
    assert_eq!(extract_browser_version(&obj(vec![])), None);

    let with_debugger = obj(vec![(
        "goog:chromeOptions",
        obj(vec![("debuggerAddress", s("localhost:9222"))]),
    )]);
    assert_eq!(
        debugger_address_from_capabilities(&with_debugger),
        Some("localhost:9222".to_string())
    );
    let edge = obj(vec![(
        "ms:edgeOptions",
        obj(vec![("debuggerAddress", s("localhost:9333"))]),
    )]);
    assert_eq!(
        debugger_address_from_capabilities(&edge),
        Some("localhost:9333".to_string())
    );
    assert_eq!(debugger_address_from_capabilities(&obj(vec![])), None);
}

#[test]
fn page_target_selection() {
    let targets = vec![
        obj(vec![("type", s("service_worker")), ("url", s("https://a/"))]),
        obj(vec![("type", s("page")), ("url", s("https://other/"))]),
        obj(vec![
            ("type", s("page")),
            ("url", s("https://current/")),
            ("webSocketDebuggerUrl", s("ws://sock/1")),
        ]),
    ];
    // The page matching the session's URL wins.
    assert_eq!(select_page_target(&targets, "https://current/"), Some(2));
    assert_eq!(
        websocket_url_of_target(&targets[2]),
        Some("ws://sock/1".to_string())
    );
    // With no exact match, the first page target is the fallback.
    assert_eq!(select_page_target(&targets, "https://elsewhere/"), Some(1));
    // With no page target at all, nothing is selected.
    let none = vec![obj(vec![("type", s("service_worker"))])];
    assert_eq!(select_page_target(&none, "https://current/"), None);
}

fn event(method: &str, params: Vec<(&str, JsonValue)>) -> JsonValue {
    obj(vec![("method", s(method)), ("params", obj(params))])
}

#[test]
fn event_classification() {
    assert_eq!(
        parse_cdp_event(&event("Page.domContentEventFired", vec![])),
        CdpEvent::DomContentLoaded
    );
    assert_eq!(
        parse_cdp_event(&event("Page.loadEventFired", vec![])),
        CdpEvent::Load
    );
    assert_eq!(
        parse_cdp_event(&event("Page.frameNavigated", vec![])),
        CdpEvent::Commit
    );
    assert_eq!(
        parse_cdp_event(&event("Page.frameStartedLoading", vec![])),
        CdpEvent::Commit
    );
    assert_eq!(
        parse_cdp_event(&event("Page.lifecycleEvent", vec![("name", s("DOMContentLoaded"))])),
        CdpEvent::DomContentLoaded
    );
    assert_eq!(
        parse_cdp_event(&event("Page.lifecycleEvent", vec![("name", s("load"))])),
        CdpEvent::Load
    );
    assert_eq!(
        parse_cdp_event(&event("Page.lifecycleEvent", vec![("name", s("networkIdle"))])),
        CdpEvent::NetworkIdleReported
    );
    assert_eq!(
        parse_cdp_event(&event("Page.lifecycleEvent", vec![("name", s("networkAlmostIdle"))])),
        CdpEvent::NetworkIdleReported
    );
    assert_eq!(
        parse_cdp_event(&event("Page.lifecycleEvent", vec![("name", s("commit"))])),
        CdpEvent::Commit
    );
    assert_eq!(
        parse_cdp_event(&event("Page.lifecycleEvent", vec![("name", s("firstPaint"))])),
        CdpEvent::Ignored
    );
    assert_eq!(
        parse_cdp_event(&event("Network.requestWillBeSent", vec![("requestId", s("R1"))])),
        CdpEvent::RequestWillBeSent("R1".to_string())
    );
    assert_eq!(
        parse_cdp_event(&event("Network.loadingFinished", vec![("requestId", s("R1"))])),
        CdpEvent::LoadingFinished("R1".to_string())
    );
    assert_eq!(
        parse_cdp_event(&event("Network.loadingFailed", vec![("requestId", s("R2"))])),
        CdpEvent::LoadingFinished("R2".to_string())
    );
    // A network event without a request id is ignored.
    assert_eq!(
        parse_cdp_event(&event("Network.requestWillBeSent", vec![])),
        CdpEvent::Ignored
    );
    assert_eq!(
        parse_cdp_event(&event("Inspector.detached", vec![])),
        CdpEvent::Ignored
    );
    assert_eq!(parse_cdp_event(&obj(vec![])), CdpEvent::Ignored);
}

#[test]
fn command_envelope() {
    let envelope = cdp_command(3, "Page.enable".to_string(), JsonValue::Obj(vec![]));
    assert_eq!(envelope.get("id"), Some(&JsonValue::Int(3)));
    assert_eq!(envelope.get_str("method"), Some("Page.enable"));
    assert_eq!(envelope.get("params"), Some(&JsonValue::Obj(vec![])));
}

#[test]
fn version_parsing() {
    assert_eq!(
        version_from_product("Chrome/121.0.6167.85"),
        Some("121.0.6167.85".to_string())
    );
    assert_eq!(version_from_product("HeadlessChrome/99.1"), Some("99.1".to_string()));
    assert_eq!(version_from_product("no-slash"), None);

    let ua = "Mozilla/5.0 (X11; Linux x86_64) AppleWebKit/537.36 (KHTML, like Gecko) Chrome/121.0.6167.85 Safari/537.36";
    assert_eq!(version_from_user_agent(ua), "121.0.6167.85");
    let edge = "Mozilla/5.0 Edg/120.0.2210.61";
    assert_eq!(version_from_user_agent(edge), "120.0.2210.61");
    assert_eq!(version_from_user_agent("SomethingElse/1.0"), "SomethingElse/1.0");
}

#[test]
fn origin_building() {
    assert_eq!(
        origin_string("https", "example.com", None),
        "https://example.com"
    );
    assert_eq!(
        origin_string("http", "localhost", Some(9222)),
        "http://localhost:9222"
    );
}

#[test]
fn storage_pairs_and_scripts() {
    let pairs = vec![
        vec!["token".to_string(), "abc".to_string()],
        vec!["malformed".to_string()],
        vec!["theme".to_string(), "dark".to_string()],
    ];
    let entries = entries_from_pairs(&pairs);
    assert_eq!(entries.len(), 2);
    assert_eq!(entries[0].name, "token");
    assert_eq!(entries[0].value, "abc");
    assert_eq!(entries[1].name, "theme");
    assert_eq!(entries[1].value, "dark");

    assert_eq!(
        storage_item_script(true, "user", "jo"),
        r#"localStorage.setItem("user", "jo");"#
    );
    assert_eq!(
        storage_item_script(false, "temp", "1"),
        r#"sessionStorage.setItem("temp", "1");"#
    );
    // Quoting is real JSON escaping, not the input handed back.
    assert_eq!(
        storage_item_script(true, "a\"b", "line\nbreak"),
        "localStorage.setItem(\"a\\\"b\", \"line\\nbreak\");"
    );
    assert_eq!(json_string_literal("plain"), "\"plain\"");
}

#[test]
fn text_utilities() {
    assert!(contains_substr("--enable-automation=true", "--enable-automation"));
    assert!(!contains_substr("--window-size", "--enable-automation"));
    assert!(contains_substr("anything", ""));
    assert_eq!(find_substr("hello world", "world"), Some(6));
    assert_eq!(find_substr("hello", "xyz"), None);
    assert_eq!(u64_to_string(0), "0");
    assert_eq!(u64_to_string(42), "42");
    assert_eq!(u64_to_string(100500), "100500");
    assert_eq!(u64_to_string(u64::MAX), "18446744073709551615");
}

#[test]
fn stealth_setup_plan_structure() {
    let full = StealthOptions {
        timezone_id: Some("Europe/London".to_string()),
        locale: Some("en-GB".to_string()),
        ..StealthOptions::default()
    };
    let plan = stealth_setup_plan(&full, "121.0.2");
    let names: Vec<&str> = plan.iter().map(|(m, _)| m.as_str()).collect();
    assert_eq!(
        names,
        vec![
            "Network.setUserAgentOverride",
            "Emulation.setTimezoneOverride",
            "Emulation.setLocaleOverride",
            "Page.addScriptToEvaluateOnNewDocument",
        ]
    );
    assert_eq!(
        plan[0].1.get_str("acceptLanguage"),
        Some("en-GB,en;q=0.9")
    );
    assert_eq!(plan[1].1.get_str("timezoneId"), Some("Europe/London"));
    let source = plan[3].1.get_str("source").unwrap();
    assert!(source.contains("navigator.webdriver"));
    assert_eq!(plan[3].1.get("runImmediately"), Some(&JsonValue::Bool(true)));

    let bare = StealthOptions {
        header_alignment: false,
        ..StealthOptions::default()
    };
    let plan = stealth_setup_plan(&bare, "121.0.2");
    assert_eq!(plan.len(), 1);
    assert_eq!(plan[0].0, "Page.addScriptToEvaluateOnNewDocument");
}

#[test]
fn origin_states_first_wins() {
    let first = OriginState {
        origin: "https://a".to_string(),
        local_storage: vec![NameValue {
            name: "k".to_string(),
            value: "1".to_string(),
        }],
        session_storage: vec![],
    };
    let repeat = OriginState {
        origin: "https://a".to_string(),
        local_storage: vec![NameValue {
            name: "k".to_string(),
            value: "2".to_string(),
        }],
        session_storage: vec![],
    };
    let other = OriginState {
        origin: "https://b".to_string(),
        local_storage: vec![],
        session_storage: vec![],
    };
    let deduped = dedup_origin_states(vec![first.clone(), repeat, other.clone()]);
    assert_eq!(deduped, vec![first, other]);
}
