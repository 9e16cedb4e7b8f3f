//! Error values for every operation of the automation core.
//!
//! Every fallible operation of the library returns one of these kinds. The
//! retry loops of the locator and frame engines consult [`Error::is_retryable`]
//! and [`Error::is_session_closed`] to decide between another attempt, a
//! timeout, and an immediate terminal failure.

use vstd::prelude::*;

verus! {

/// The error type for automation operations.
#[derive(Debug, Clone, PartialEq, Eq)]
pub enum Error {
    /// A wait or retry budget expired; carries what was waited for and the
    /// budget in milliseconds.
    Timeout { message: String, timeout_ms: u64 },
    /// A single-resolution query matched nothing.
    ElementNotFound { selector: String },
    /// Multiple elements matched where exactly one was expected.
    StrictModeViolation { selector: String, count: usize },
    /// The underlying control-protocol driver reported an error.
    WebDriver(String),
    /// A network-level failure.
    Network(String),
    /// A navigation failed.
    Navigation(String),
    /// A payload from the browser could not be decoded into the expected shape.
    Serialization(String),
    /// An invalid argument was handed to an operation.
    InvalidArgument(String),
    /// The browser session has been closed; always terminal.
    BrowserClosed,
    /// The browser context has been closed; always terminal.
    ContextClosed,
    /// The page has been closed; always terminal.
    PageClosed,
    /// The frame has been detached from the page.
    FrameDetached,
    /// The element is no longer attached to the document.
    ElementNotAttached,
    /// The element exists but is not visible.
    ElementNotVisible { selector: String },
    /// The element exists but is not enabled.
    ElementNotEnabled { selector: String },
    /// The element exists but is not editable.
    ElementNotEditable { selector: String },
    /// A script evaluation failed in the page.
    JsEvaluation(String),
    /// Could not connect to a remote control endpoint.
    ConnectionFailed(String),
    /// No installed browser could be located.
    BrowserNotFound(String),
    /// The requested feature is not implemented for this browser.
    NotImplemented(String),
    /// A protocol call completed but the browser reported a failure.
    ActionFailed(String),
    /// An internal error that should not normally occur.
    Internal(String),
}

impl Error {
    /// Create a timeout error.
    pub fn timeout(message: String, timeout_ms: u64) -> (r: Error)
        ensures
            r == (Error::Timeout { message, timeout_ms }),
    {
        Error::Timeout { message, timeout_ms }
    }

    /// Create an element-not-found error.
    pub fn element_not_found(selector: String) -> (r: Error)
        ensures
            r == (Error::ElementNotFound { selector }),
    {
        Error::ElementNotFound { selector }
    }

    /// Create a strict-mode violation error.
    pub fn strict_mode_violation(selector: String, count: usize) -> (r: Error)
        ensures
            r == (Error::StrictModeViolation { selector, count }),
    {
        Error::StrictModeViolation { selector, count }
    }

    /// Create a network error.
    pub fn network(message: String) -> (r: Error)
        ensures
            r == Error::Network(message),
    {
        Error::Network(message)
    }

    /// Create a navigation error.
    pub fn navigation(message: String) -> (r: Error)
        ensures
            r == Error::Navigation(message),
    {
        Error::Navigation(message)
    }

    /// Create an invalid-argument error.
    pub fn invalid_argument(message: String) -> (r: Error)
        ensures
            r == Error::InvalidArgument(message),
    {
        Error::InvalidArgument(message)
    }

    /// Create a connection-failed error.
    pub fn connection_failed(message: String) -> (r: Error)
        ensures
            r == Error::ConnectionFailed(message),
    {
        Error::ConnectionFailed(message)
    }

    /// Create a not-implemented error.
    pub fn not_implemented(feature: String) -> (r: Error)
        ensures
            r == Error::NotImplemented(feature),
    {
        Error::NotImplemented(feature)
    }

    /// Create an internal error.
    pub fn internal(message: String) -> (r: Error)
        ensures
            r == Error::Internal(message),
    {
        Error::Internal(message)
    }

    /// Whether this error means the session (or one of its contexts) is gone.
    /// Such an error is terminal: retry loops return it at once.
    pub open spec fn spec_is_session_closed(self) -> bool {
        self is BrowserClosed || self is ContextClosed || self is PageClosed
    }

    /// Runtime check for [`Self::spec_is_session_closed`].
    pub fn is_session_closed(&self) -> (r: bool)
        ensures
            r == self.spec_is_session_closed(),
    {
        match self {
            Error::BrowserClosed => true,
            Error::ContextClosed => true,
            Error::PageClosed => true,
            _ => false,
        }
    }

    /// Whether a retry loop may try again after seeing this error: a missed
    /// element and a failed action are transient; everything else either
    /// means the session is gone or is a hard protocol failure.
    pub open spec fn spec_is_retryable(self) -> bool {
        self is ElementNotFound || self is ActionFailed || self is ElementNotVisible
            || self is ElementNotEnabled || self is ElementNotEditable
    }

    /// Runtime check for [`Self::spec_is_retryable`].
    pub fn is_retryable(&self) -> (r: bool)
        ensures
            r == self.spec_is_retryable(),
    {
        match self {
            Error::ElementNotFound { .. } => true,
            Error::ActionFailed(_) => true,
            Error::ElementNotVisible { .. } => true,
            Error::ElementNotEnabled { .. } => true,
            Error::ElementNotEditable { .. } => true,
            _ => false,
        }
    }
}

impl Error {
    /// The human-readable description of this error.
    pub fn message(&self) -> (r: String)
        ensures
            r@ == spec_error_message(*self),
    {
        match self {
            Error::Timeout { message, .. } => concat_str("Timeout: ", message.as_str()),
            Error::ElementNotFound { selector } => concat_str(
                "Element not found: ",
                selector.as_str(),
            ),
            Error::StrictModeViolation { selector, count } => {
                let mut r: String = "Multiple elements found matching selector: ".to_owned();
                r.append(selector.as_str());
                r.append(" (found ");
                r.append(crate::text::usize_to_string(*count).as_str());
                r.append(" elements)");
                r
            },
            Error::WebDriver(m) => concat_str("WebDriver error: ", m.as_str()),
            Error::Network(m) => concat_str("Network error: ", m.as_str()),
            Error::Navigation(m) => concat_str("Navigation failed: ", m.as_str()),
            Error::Serialization(m) => concat_str("Serialization error: ", m.as_str()),
            Error::InvalidArgument(m) => concat_str("Invalid argument: ", m.as_str()),
            Error::BrowserClosed => "Browser has been closed".to_owned(),
            Error::ContextClosed => "Browser context has been closed".to_owned(),
            Error::PageClosed => "Page has been closed".to_owned(),
            Error::FrameDetached => "Frame has been detached".to_owned(),
            Error::ElementNotAttached => "Element is not attached to the DOM".to_owned(),
            Error::ElementNotVisible { selector } => concat_str(
                "Element is not visible: ",
                selector.as_str(),
            ),
            Error::ElementNotEnabled { selector } => concat_str(
                "Element is not enabled: ",
                selector.as_str(),
            ),
            Error::ElementNotEditable { selector } => concat_str(
                "Element is not editable: ",
                selector.as_str(),
            ),
            Error::JsEvaluation(m) => concat_str("JavaScript evaluation failed: ", m.as_str()),
            Error::ConnectionFailed(m) => concat_str("Connection failed: ", m.as_str()),
            Error::BrowserNotFound(m) => concat_str("Browser not found: ", m.as_str()),
            Error::NotImplemented(m) => concat_str("Feature not implemented: ", m.as_str()),
            Error::ActionFailed(m) => concat_str("Action failed: ", m.as_str()),
            Error::Internal(m) => concat_str("Internal error: ", m.as_str()),
        }
    }
}

/// The description [`Error::message`] renders for each kind.
pub open spec fn spec_error_message(e: Error) -> Seq<char> {
    match e {
        Error::Timeout { message, .. } => "Timeout: "@ + message@,
        Error::ElementNotFound { selector } => "Element not found: "@ + selector@,
        Error::StrictModeViolation { selector, count } => "Multiple elements found matching selector: "@
            + selector@ + " (found "@ + crate::text::spec_decimal(count as nat) + " elements)"@,
        Error::WebDriver(m) => "WebDriver error: "@ + m@,
        Error::Network(m) => "Network error: "@ + m@,
        Error::Navigation(m) => "Navigation failed: "@ + m@,
        Error::Serialization(m) => "Serialization error: "@ + m@,
        Error::InvalidArgument(m) => "Invalid argument: "@ + m@,
        Error::BrowserClosed => "Browser has been closed"@,
        Error::ContextClosed => "Browser context has been closed"@,
        Error::PageClosed => "Page has been closed"@,
        Error::FrameDetached => "Frame has been detached"@,
        Error::ElementNotAttached => "Element is not attached to the DOM"@,
        Error::ElementNotVisible { selector } => "Element is not visible: "@ + selector@,
        Error::ElementNotEnabled { selector } => "Element is not enabled: "@ + selector@,
        Error::ElementNotEditable { selector } => "Element is not editable: "@ + selector@,
        Error::JsEvaluation(m) => "JavaScript evaluation failed: "@ + m@,
        Error::ConnectionFailed(m) => "Connection failed: "@ + m@,
        Error::BrowserNotFound(m) => "Browser not found: "@ + m@,
        Error::NotImplemented(m) => "Feature not implemented: "@ + m@,
        Error::ActionFailed(m) => "Action failed: "@ + m@,
        Error::Internal(m) => "Internal error: "@ + m@,
    }
}

/// A prefix followed by a message.
fn concat_str(prefix: &str, rest: &str) -> (r: String)
    ensures
        r@ == prefix@ + rest@,
{
    let mut r = prefix.to_owned();
    r.append(rest);
    r
}

/// Result type alias used throughout the crate.
pub type AutomationResult<T> = Result<T, Error>;

} // verus!
