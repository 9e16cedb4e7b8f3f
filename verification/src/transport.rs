//! Session-transport decisions: how driver-level query outcomes map onto
//! the library's errors and element references.
//!
//! The layer that speaks the control protocol hands the results in as plain
//! values — the response payload of a query, or the kind and text of the
//! driver error — and the functions here decide what the caller sees: a
//! typed element reference, an `ElementNotFound`, an empty match list, or a
//! transport failure.

use vstd::prelude::*;

use crate::errors::Error;
use crate::json::JsonValue;
use crate::protocol::extract_element_id;
use crate::protocol::spec_element_id;

verus! {

/// An opaque reference to one remote DOM element, bound to the node at the
/// time it was resolved. A weak handle: the node may go away, and every
/// dereference must be prepared to fail.
#[derive(Debug, Clone, PartialEq, Eq)]
pub struct ElementRef {
    /// The protocol-level element id.
    pub element_id: String,
}

/// The kinds of driver error a find query can come back with, as the
/// control-protocol layer reports them.
#[derive(Debug, Clone, Copy, PartialEq, Eq, Structural)]
pub enum DriverErrorKind {
    /// The driver found no such element.
    NoSuchElement,
    /// The driver reported the resource as missing.
    NotFound,
    /// Any other driver failure.
    Other,
}

/// The element reference a single-element query response denotes: the
/// parsed element id, or `ActionFailed` when the payload holds none.
pub fn element_from_response(value: &JsonValue) -> (r: Result<ElementRef, Error>)
    ensures
        match spec_element_id(*value) {
            Some(id) => r matches Ok(e) && e.element_id@ == id,
            None => r matches Err(e) && e matches Error::ActionFailed(m) && m@
                == "Failed to parse element reference"@,
        },
{
    match extract_element_id(value) {
        Some(id) => Ok(ElementRef { element_id: id }),
        None => Err(Error::ActionFailed("Failed to parse element reference".to_owned())),
    }
}

/// The error a single-element query reports: a missing element becomes
/// `ElementNotFound` naming the selector — the retryable signal the locator
/// engine waits on — and any other driver failure passes through as a
/// transport error with its message.
pub fn classify_find_error(selector: &str, kind: DriverErrorKind, message: String) -> (r: Error)
    ensures
        kind == DriverErrorKind::NoSuchElement ==> (r matches Error::ElementNotFound {
            selector: s,
        } && s@ == selector@),
        kind != DriverErrorKind::NoSuchElement ==> r == Error::WebDriver(message),
{
    match kind {
        DriverErrorKind::NoSuchElement => Error::ElementNotFound { selector: selector.to_owned() },
        _ => Error::WebDriver(message),
    }
}

/// The outcome an all-elements query reports on a driver error: a missing
/// element or missing resource means the match list is simply empty — never
/// an error, so callers can tell "nothing there" from "must retry" — while
/// any other driver failure passes through as a transport error.
pub fn classify_find_all_error(kind: DriverErrorKind, message: String) -> (r: Result<
    Vec<ElementRef>,
    Error,
>)
    ensures
        kind == DriverErrorKind::NoSuchElement || kind == DriverErrorKind::NotFound ==> (r matches
            Ok(v) && v@.len() == 0),
        !(kind == DriverErrorKind::NoSuchElement || kind == DriverErrorKind::NotFound) ==> r
            == Err::<Vec<ElementRef>, Error>(Error::WebDriver(message)),
{
    match kind {
        DriverErrorKind::NoSuchElement => Ok(Vec::new()),
        DriverErrorKind::NotFound => Ok(Vec::new()),
        DriverErrorKind::Other => Err(Error::WebDriver(message)),
    }
}

} // verus!
