//! Reading the two browser protocols' payloads: element references out of
//! control-protocol responses, capability fields, debugger addresses,
//! version strings, page targets of the debugging endpoint, and the push
//! events that drive the load-state tracker.

use vstd::prelude::*;

use crate::json::JsonValue;
use crate::json::spec_get;
use crate::json::spec_obj_get_from;
use crate::load_state::CdpEvent;
use crate::text::spec_first_occurrence;
use crate::text::spec_first_split;
use crate::text::spec_until_char;
use crate::text::find_char;
use crate::text::find_substr;
use crate::text::str_eq;

verus! {

/// A member of an object sits strictly inside it, so recursion into it
/// terminates.
proof fn lemma_member_smaller(v: JsonValue, key: Seq<char>, m: JsonValue)
    requires
        spec_get(v, key) == Some(m),
    ensures
        decreases_to!(v => m),
{
    match v {
        JsonValue::Obj(fields) => {
            let j = lemma_obj_get_witness(fields@, key, 0, m);
            assert(decreases_to!(v => fields));
            assert(decreases_to!(fields => fields@));
            assert(decreases_to!(fields@ => fields@[j]));
            assert(decreases_to!(fields@[j] => fields@[j].1));
        },
        _ => {
            assert(false);
        },
    }
}

/// A successful object lookup names one of the object's fields.
proof fn lemma_obj_get_witness(
    fields: Seq<(String, JsonValue)>,
    key: Seq<char>,
    i: int,
    m: JsonValue,
) -> (j: int)
    requires
        0 <= i,
        spec_obj_get_from(fields, key, i) == Some(m),
    ensures
        i <= j < fields.len(),
        fields[j].1 == m,
    decreases fields.len() - i,
{
    if i < fields.len() && fields[i].0@ == key {
        i
    } else {
        lemma_obj_get_witness(fields, key, i + 1, m)
    }
}

/// The element id named by a control-protocol value, under one reference
/// key: the member's characters when it is a string, the id found inside it
/// when it is itself an object, nothing otherwise.
pub open spec fn spec_id_under_key(v: JsonValue, key: Seq<char>) -> Option<Seq<char>>
    decreases v, 0int,
    via spec_id_under_key_decreases
{
    match spec_get(v, key) {
        Some(nested) => match nested {
            JsonValue::Str(s) => Some(s@),
            JsonValue::Obj(_) => spec_element_id(nested),
            _ => None,
        },
        None => None,
    }
}

#[via_fn]
proof fn spec_id_under_key_decreases(v: JsonValue, key: Seq<char>) {
    match spec_get(v, key) {
        Some(nested) => {
            lemma_member_smaller(v, key, nested);
        },
        None => {},
    }
}

/// The element id a control-protocol value denotes: the first id found
/// under the current, shadow or legacy reference key, and otherwise the
/// value's own characters when it is a bare string.
pub open spec fn spec_element_id(v: JsonValue) -> Option<Seq<char>>
    decreases v, 1int,
{
    if spec_id_under_key(v, "element-6066-11e4-a52e-4f735466cecf"@) is Some {
        spec_id_under_key(v, "element-6066-11e4-a52e-4f735466cecf"@)
    } else if spec_id_under_key(v, "shadow-6066-11e4-a52e-4f735466cecf"@) is Some {
        spec_id_under_key(v, "shadow-6066-11e4-a52e-4f735466cecf"@)
    } else if spec_id_under_key(v, "ELEMENT"@) is Some {
        spec_id_under_key(v, "ELEMENT"@)
    } else {
        match v {
            JsonValue::Str(s) => Some(s@),
            _ => None,
        }
    }
}

/// The element id under one reference key, as [`spec_id_under_key`] says.
fn id_under_key(v: &JsonValue, key: &str) -> (r: Option<String>)
    ensures
        match r {
            Some(s) => spec_id_under_key(*v, key@) == Some(s@),
            None => spec_id_under_key(*v, key@) is None,
        },
    decreases *v, 0int,
{
    match v.get(key) {
        Some(nested) => {
            proof {
                lemma_member_smaller(*v, key@, *nested);
            }
            match nested {
                JsonValue::Str(s) => Some(s.clone()),
                JsonValue::Obj(_) => extract_element_id(nested),
                _ => None,
            }
        },
        None => None,
    }
}

/// Extract the remote element reference a control-protocol response value
/// denotes, exactly as [`spec_element_id`] says: the current W3C reference
/// key first, then the shadow key, then the legacy key, then a bare string.
pub fn extract_element_id(v: &JsonValue) -> (r: Option<String>)
    ensures
        match r {
            Some(s) => spec_element_id(*v) == Some(s@),
            None => spec_element_id(*v) is None,
        },
    decreases *v, 1int,
{
    match id_under_key(v, "element-6066-11e4-a52e-4f735466cecf") {
        Some(s) => Some(s),
        None => match id_under_key(v, "shadow-6066-11e4-a52e-4f735466cecf") {
            Some(s) => Some(s),
            None => match id_under_key(v, "ELEMENT") {
                Some(s) => Some(s),
                None => match v {
                    JsonValue::Str(s) => Some(s.clone()),
                    _ => None,
                },
            },
        },
    }
}

/// The capability object inside a session response: its "capabilities"
/// member, or failing that its "capability" member.
pub fn capabilities_of_response<'a>(v: &'a JsonValue) -> (r: Option<&'a JsonValue>)
    ensures
        match r {
            Some(m) => spec_get(*v, "capabilities"@) == Some(*m) || (spec_get(*v, "capabilities"@)
                is None && spec_get(*v, "capability"@) == Some(*m)),
            None => spec_get(*v, "capabilities"@) is None && spec_get(*v, "capability"@) is None,
        },
{
    match v.get("capabilities") {
        Some(m) => Some(m),
        None => v.get("capability"),
    }
}

/// The member of `v` named `key`, when it is a string.
pub open spec fn spec_member_str(v: JsonValue, key: Seq<char>) -> Option<Seq<char>> {
    match spec_get(v, key) {
        Some(m) => match m {
            JsonValue::Str(s) => Some(s@),
            _ => None,
        },
        _ => None,
    }
}

/// The browser version a capability object reports: its "browserVersion"
/// string, or failing that its "browser_version" string.
pub fn extract_browser_version(capabilities: &JsonValue) -> (r: Option<String>)
    ensures
        match r {
            Some(s) => spec_member_str(*capabilities, "browserVersion"@) == Some(s@)
                || (spec_member_str(*capabilities, "browserVersion"@) is None && spec_member_str(
                *capabilities,
                "browser_version"@,
            ) == Some(s@)),
            None => spec_member_str(*capabilities, "browserVersion"@) is None && spec_member_str(
                *capabilities,
                "browser_version"@,
            ) is None,
        },
{
    match capabilities.get_str("browserVersion") {
        Some(s) => Some(s.to_owned()),
        None => match capabilities.get_str("browser_version") {
            Some(s) => Some(s.to_owned()),
            None => None,
        },
    }
}

/// The debugger address inside a capability object, under the given
/// vendor-options key.
pub open spec fn spec_debugger_address_under(v: JsonValue, vendor_key: Seq<char>) -> Option<
    Seq<char>,
> {
    match spec_get(v, vendor_key) {
        Some(options) => spec_member_str(options, "debuggerAddress"@),
        None => None,
    }
}

/// The debugging endpoint address a capability object names: the
/// "debuggerAddress" string under the Chrome vendor options, or failing
/// that under the Edge vendor options.
pub fn debugger_address_from_capabilities(capabilities: &JsonValue) -> (r: Option<String>)
    ensures
        match r {
            Some(s) => spec_debugger_address_under(*capabilities, "goog:chromeOptions"@) == Some(
                s@,
            ) || (spec_debugger_address_under(*capabilities, "goog:chromeOptions"@) is None
                && spec_debugger_address_under(*capabilities, "ms:edgeOptions"@) == Some(s@)),
            None => spec_debugger_address_under(*capabilities, "goog:chromeOptions"@) is None
                && spec_debugger_address_under(*capabilities, "ms:edgeOptions"@) is None,
        },
{
    let chrome = match capabilities.get("goog:chromeOptions") {
        Some(options) => match options.get_str("debuggerAddress") {
            Some(s) => Some(s.to_owned()),
            None => None,
        },
        None => None,
    };
    match chrome {
        Some(s) => Some(s),
        None => match capabilities.get("ms:edgeOptions") {
            Some(options) => match options.get_str("debuggerAddress") {
                Some(s) => Some(s.to_owned()),
                None => None,
            },
            None => None,
        },
    }
}

/// Whether a debugging-endpoint target describes a page.
pub open spec fn spec_is_page(t: JsonValue) -> bool {
    spec_member_str(t, "type"@) == Some("page"@)
}

/// Whether a target is a page whose URL is exactly `url`.
pub open spec fn spec_page_matches(t: JsonValue, url: Seq<char>) -> bool {
    spec_is_page(t) && spec_member_str(t, "url"@) == Some(url)
}

/// The first page target with URL `url`, from position `i` on.
pub open spec fn spec_first_matching_page(ts: Seq<JsonValue>, url: Seq<char>, i: int) -> Option<
    int,
>
    decreases ts.len() - i,
{
    if i < 0 || i >= ts.len() {
        None
    } else if spec_page_matches(ts[i], url) {
        Some(i)
    } else {
        spec_first_matching_page(ts, url, i + 1)
    }
}

/// The first page target, from position `i` on.
pub open spec fn spec_first_page(ts: Seq<JsonValue>, i: int) -> Option<int>
    decreases ts.len() - i,
{
    if i < 0 || i >= ts.len() {
        None
    } else if spec_is_page(ts[i]) {
        Some(i)
    } else {
        spec_first_page(ts, i + 1)
    }
}

/// Whether a target describes a page.
fn is_page_target(t: &JsonValue) -> (r: bool)
    ensures
        r == spec_is_page(*t),
{
    match t.get_str("type") {
        Some(s) => str_eq(s, "page"),
        None => false,
    }
}

/// Select the debugging-endpoint target for the session's current page: the
/// first page target whose URL equals `current_url`, and failing an exact
/// match the first page target at all.
pub fn select_page_target(targets: &Vec<JsonValue>, current_url: &str) -> (r: Option<usize>)
    ensures
        match spec_first_matching_page(targets@, current_url@, 0) {
            Some(i) => r == Some(i as usize),
            None => match spec_first_page(targets@, 0) {
                Some(i) => r == Some(i as usize),
                None => r is None,
            },
        },
{
    let mut fallback: Option<usize> = None;
    let mut i: usize = 0;
    while i < targets.len()
        invariant
            i <= targets@.len(),
            spec_first_matching_page(targets@, current_url@, 0) == spec_first_matching_page(
                targets@,
                current_url@,
                i as int,
            ),
            match fallback {
                Some(f) => spec_first_page(targets@, 0) == Some(f as int) && (f as int) < i,
                None => spec_first_page(targets@, 0) == spec_first_page(targets@, i as int),
            },
        decreases targets@.len() - i,
    {
        let t = &targets[i];
        if is_page_target(t) {
            if fallback.is_none() {
                fallback = Some(i);
            }
            let matches_url = match t.get_str("url") {
                Some(u) => str_eq(u, current_url),
                None => false,
            };
            if matches_url {
                assert(spec_page_matches(targets@[i as int], current_url@));
                return Some(i);
            }
            assert(!spec_page_matches(targets@[i as int], current_url@));
        }
        i = i + 1;
    }
    fallback
}

/// The socket address a target advertises for its debugging channel.
pub fn websocket_url_of_target(t: &JsonValue) -> (r: Option<String>)
    ensures
        match r {
            Some(s) => spec_member_str(*t, "webSocketDebuggerUrl"@) == Some(s@),
            None => spec_member_str(*t, "webSocketDebuggerUrl"@) is None,
        },
{
    match t.get_str("webSocketDebuggerUrl") {
        Some(s) => Some(s.to_owned()),
        None => None,
    }
}

/// The member of the "params" object of `v` named `key`, when it is a
/// string.
pub open spec fn spec_param_str(v: JsonValue, key: Seq<char>) -> Option<Seq<char>> {
    match spec_get(v, "params"@) {
        Some(p) => spec_member_str(p, key),
        None => None,
    }
}

/// The `key` member of the event's "params" object, when it is a string.
fn param_str<'a>(msg: &'a JsonValue, key: &str) -> (r: Option<&'a str>)
    ensures
        match r {
            Some(s) => spec_param_str(*msg, key@) == Some(s@),
            None => spec_param_str(*msg, key@) is None,
        },
{
    match msg.get("params") {
        Some(p) => p.get_str(key),
        None => None,
    }
}

/// What a push message means to the load-state tracker, with the request
/// id abstracted away.
#[derive(Debug, Clone, Copy, PartialEq, Eq, Structural)]
pub enum CdpEventKind {
    DomContentLoaded,
    Load,
    NetworkIdleReported,
    Commit,
    RequestWillBeSent,
    LoadingFinished,
    Ignored,
}

/// The kind of a tracker event.
pub open spec fn spec_kind_of(e: CdpEvent) -> CdpEventKind {
    match e {
        CdpEvent::DomContentLoaded => CdpEventKind::DomContentLoaded,
        CdpEvent::Load => CdpEventKind::Load,
        CdpEvent::NetworkIdleReported => CdpEventKind::NetworkIdleReported,
        CdpEvent::Commit => CdpEventKind::Commit,
        CdpEvent::RequestWillBeSent(_) => CdpEventKind::RequestWillBeSent,
        CdpEvent::LoadingFinished(_) => CdpEventKind::LoadingFinished,
        CdpEvent::Ignored => CdpEventKind::Ignored,
    }
}

/// How a push message classifies, given its method string, the "name"
/// member of its parameters, and whether its parameters carry a request id:
/// the direct DOM-content and load events, the lifecycle events by name,
/// the two frame events as commits, the network request lifecycle when a
/// request id is present. Anything else is ignored.
pub open spec fn spec_classify_event(
    method: Option<Seq<char>>,
    name: Option<Seq<char>>,
    has_request_id: bool,
) -> CdpEventKind {
    match method {
        None => CdpEventKind::Ignored,
        Some(m) => if m == "Page.domContentEventFired"@ {
            CdpEventKind::DomContentLoaded
        } else if m == "Page.loadEventFired"@ {
            CdpEventKind::Load
        } else if m == "Page.frameNavigated"@ || m == "Page.frameStartedLoading"@ {
            CdpEventKind::Commit
        } else if m == "Page.lifecycleEvent"@ {
            match name {
                Some(n) => if n == "DOMContentLoaded"@ {
                    CdpEventKind::DomContentLoaded
                } else if n == "load"@ {
                    CdpEventKind::Load
                } else if n == "networkIdle"@ || n == "networkAlmostIdle"@ {
                    CdpEventKind::NetworkIdleReported
                } else if n == "commit"@ {
                    CdpEventKind::Commit
                } else {
                    CdpEventKind::Ignored
                },
                None => CdpEventKind::Ignored,
            }
        } else if m == "Network.requestWillBeSent"@ {
            if has_request_id {
                CdpEventKind::RequestWillBeSent
            } else {
                CdpEventKind::Ignored
            }
        } else if m == "Network.loadingFinished"@ || m == "Network.loadingFailed"@ {
            if has_request_id {
                CdpEventKind::LoadingFinished
            } else {
                CdpEventKind::Ignored
            }
        } else {
            CdpEventKind::Ignored
        },
    }
}

/// Classify one push message of the debugging protocol into the event the
/// load-state tracker reacts to, exactly as [`spec_classify_event`] says of
/// its method, its lifecycle name and its request id; the id-carrying
/// events take their id from the message's parameters.
pub fn parse_cdp_event(msg: &JsonValue) -> (r: CdpEvent)
    ensures
        spec_kind_of(r) == spec_classify_event(
            spec_member_str(*msg, "method"@),
            spec_param_str(*msg, "name"@),
            spec_param_str(*msg, "requestId"@) is Some,
        ),
        r matches CdpEvent::RequestWillBeSent(s) ==> Some(s@) == spec_param_str(
            *msg,
            "requestId"@,
        ),
        r matches CdpEvent::LoadingFinished(s) ==> Some(s@) == spec_param_str(*msg, "requestId"@),
{
    let method = match msg.get_str("method") {
        Some(m) => m,
        None => {
            return CdpEvent::Ignored;
        },
    };
    if str_eq(method, "Page.domContentEventFired") {
        CdpEvent::DomContentLoaded
    } else if str_eq(method, "Page.loadEventFired") {
        CdpEvent::Load
    } else if str_eq(method, "Page.frameNavigated") || str_eq(method, "Page.frameStartedLoading") {
        CdpEvent::Commit
    } else if str_eq(method, "Page.lifecycleEvent") {
        match param_str(msg, "name") {
            Some(name) => {
                if str_eq(name, "DOMContentLoaded") {
                    CdpEvent::DomContentLoaded
                } else if str_eq(name, "load") {
                    CdpEvent::Load
                } else if str_eq(name, "networkIdle") || str_eq(name, "networkAlmostIdle") {
                    CdpEvent::NetworkIdleReported
                } else if str_eq(name, "commit") {
                    CdpEvent::Commit
                } else {
                    CdpEvent::Ignored
                }
            },
            None => CdpEvent::Ignored,
        }
    } else if str_eq(method, "Network.requestWillBeSent") {
        match param_str(msg, "requestId") {
            Some(id) => CdpEvent::RequestWillBeSent(id.to_owned()),
            None => CdpEvent::Ignored,
        }
    } else if str_eq(method, "Network.loadingFinished") || str_eq(method, "Network.loadingFailed") {
        match param_str(msg, "requestId") {
            Some(id) => CdpEvent::LoadingFinished(id.to_owned()),
            None => CdpEvent::Ignored,
        }
    } else {
        CdpEvent::Ignored
    }
}

/// One request envelope of the debugging protocol: its id, its method name
/// and its parameter object, as the socket writer serializes them.
pub fn cdp_command(id: u64, method: String, params: JsonValue) -> (r: JsonValue)
    requires
        id <= i64::MAX as u64,
    ensures
        spec_get(r, "id"@) == Some(JsonValue::Int(id as i64)),
        spec_get(r, "method"@) == Some(JsonValue::Str(method)),
        spec_get(r, "params"@) == Some(params),
{
    proof {
        reveal_strlit("id");
        reveal_strlit("method");
        reveal_strlit("params");
    }
    let mut fields: Vec<(String, JsonValue)> = Vec::new();
    fields.push(("id".to_owned(), JsonValue::Int(id as i64)));
    fields.push(("method".to_owned(), JsonValue::Str(method)));
    fields.push(("params".to_owned(), params));
    let r = JsonValue::Obj(fields);
    proof {
        reveal_with_fuel(spec_obj_get_from, 4);
        assert("id"@ != "method"@ && "id"@ != "params"@) by {
            assert("id"@.len() == 2);
            assert("method"@.len() == 6);
            assert("params"@.len() == 6);
        }
        assert("method"@ != "params"@) by {
            assert("method"@[0] == 'm');
            assert("params"@[0] == 'p');
        }
    }
    r
}

/// The version inside a product string such as "Chrome/114.0.5735.90":
/// the characters between the first slash and the next slash or the end;
/// nothing when the string has no slash.
pub fn version_from_product(product: &str) -> (r: Option<String>)
    ensures
        match spec_first_split(product@, '/') {
            Some(i) => r matches Some(v) && v@ == spec_until_char(
                product@.skip(i + 1),
                '/',
            ),
            None => r is None,
        },
{
    match find_char(product, '/') {
        Some(i) => {
            proof {
                crate::text::lemma_first_split_some(product@, '/', i as int);
            }
            let n = product.unicode_len();
            let rest = product.substring_char(i + 1, n);
            proof {
                assert(rest@ =~= product@.skip(i + 1));
            }
            let v = crate::text::prefix_before_char(rest, '/');
            Some(v.to_owned())
        },
        None => {
            proof {
                crate::text::lemma_first_split_none(product@, '/');
            }
            None
        },
    }
}

/// The version a user-agent string reports: the characters after "Chrome/"
/// up to the next space or the end; failing that the same after "Edg/";
/// failing both, the whole user-agent string.
#[verifier::rlimit(50)]
pub fn version_from_user_agent(ua: &str) -> (r: String)
    ensures
        match spec_first_occurrence(ua@, "Chrome/"@) {
            Some(i) => r@ == spec_until_char(ua@.skip(i + 7), ' '),
            None => match spec_first_occurrence(ua@, "Edg/"@) {
                Some(i) => r@ == spec_until_char(ua@.skip(i + 4), ' '),
                None => r@ == ua@,
            },
        },
{
    proof {
        reveal_strlit("Chrome/");
        reveal_strlit("Edg/");
    }
    let n = ua.unicode_len();
    match find_substr(ua, "Chrome/") {
        Some(i) => {
            let rest = ua.substring_char(i + 7, n);
            proof {
                assert(rest@ =~= ua@.skip(i + 7));
            }
            crate::text::prefix_before_char(rest, ' ').to_owned()
        },
        None => match find_substr(ua, "Edg/") {
            Some(i) => {
                let rest = ua.substring_char(i + 4, n);
                proof {
                    assert(rest@ =~= ua@.skip(i + 4));
                }
                crate::text::prefix_before_char(rest, ' ').to_owned()
            },
            None => ua.to_owned(),
        },
    }
}

/// The origin of a page address: scheme, "://", host, and the port with a
/// colon when one is given.
pub fn origin_string(scheme: &str, host: &str, port: Option<u16>) -> (r: String)
    ensures
        match port {
            Some(p) => r@ == scheme@ + "://"@ + host@ + ":"@ + crate::text::spec_decimal(p as nat),
            None => r@ == scheme@ + "://"@ + host@,
        },
{
    let mut r = scheme.to_owned();
    r.append("://");
    r.append(host);
    match port {
        Some(p) => {
            r.append(":");
            r.append(crate::text::u64_to_string(p as u64).as_str());
        },
        None => {},
    }
    r
}

} // verus!
