//! A browser-automation client core: the session, locator, frame-context and
//! load-state logic that drives a remote browser through a WebDriver-style
//! control protocol and a DevTools-style debugging protocol.
//!
//! The crate holds the decision logic of the automation engine — which element
//! a locator resolves to, when a retry loop gives up, how the page-lifecycle
//! state machine reacts to protocol events, and how the frame addressing scope
//! is switched and restored — together with the pure builders for selectors,
//! protocol payloads and stealth headers. The process, network and filesystem
//! plumbing around it lives outside the library and feeds it plain values.

pub mod browser_api;
pub mod capabilities;
pub mod errors;
pub mod frames;
pub mod headers;
pub mod json;
pub mod load_state;
pub mod locator;
pub mod options;
pub mod platform;
pub mod protocol;
pub mod retry;
pub mod session;
pub mod stealth;
pub mod storage;
pub mod text;
pub mod transport;
