//! The element-location engine: locators, match selection and single-query
//! outcomes.
//!
//! A [`Locator`] is a value — a selector, an optional zero-based index and a
//! per-operation timeout. It carries no live element reference: each action
//! resolves it afresh against the current match list, which is what gives
//! actions their auto-wait and retry semantics. The reserved index
//! [`LAST_MATCH`] means "the last match at the moment of the query".

use vstd::prelude::*;

use crate::errors::Error;
use crate::text::spec_decimal;
use crate::text::usize_to_string;

verus! {

/// Reserved index marker meaning "the last match"; never a real index, since
/// a match list holds at most `usize::MAX` elements and indices are zero-based.
pub const LAST_MATCH: usize = usize::MAX;

/// Default per-operation timeout, in milliseconds.
pub const DEFAULT_TIMEOUT_MS: u64 = 30000;

/// A re-resolvable description of zero, one or many elements: selector plus
/// optional zero-based index plus timeout. Cheap to clone; resolution happens
/// fresh on every action.
#[derive(Debug, Clone, PartialEq, Eq)]
pub struct Locator {
    /// The structural selector this locator queries.
    pub selector: String,
    /// Per-operation timeout in milliseconds.
    pub timeout_ms: u64,
    /// `None` = first-match semantics; `Some(n)` = the nth match (zero-based);
    /// `Some(LAST_MATCH)` = the last match at query time.
    pub nth_index: Option<usize>,
}

/// Which match a locator selects out of `k` live matches, if any.
///
/// - no index: the first match, when one exists;
/// - index `LAST_MATCH`: the match at position `k - 1`, when one exists;
/// - index `n < k`: the match at position `n`;
/// - index `n >= k`: nothing (the attempt fails and may be retried).
pub open spec fn spec_selected_index(k: nat, nth: Option<usize>) -> Option<int> {
    match nth {
        None => if k > 0 {
            Some(0int)
        } else {
            None
        },
        Some(n) => if n == LAST_MATCH {
            if k > 0 {
                Some(k - 1)
            } else {
                None
            }
        } else {
            if (n as nat) < k {
                Some(n as int)
            } else {
                None
            }
        },
    }
}

impl Locator {
    /// Create a locator for `selector` with the default timeout and
    /// first-match semantics.
    pub fn new(selector: String) -> (r: Locator)
        ensures
            r.selector == selector,
            r.timeout_ms == DEFAULT_TIMEOUT_MS,
            r.nth_index is None,
    {
        Locator { selector, timeout_ms: DEFAULT_TIMEOUT_MS, nth_index: None }
    }

    /// Set the timeout for this locator, in milliseconds.
    pub fn timeout(self, timeout_ms: u64) -> (r: Locator)
        ensures
            r.selector == self.selector,
            r.timeout_ms == timeout_ms,
            r.nth_index == self.nth_index,
    {
        Locator { selector: self.selector, timeout_ms, nth_index: self.nth_index }
    }

    /// The selector string.
    pub fn selector(&self) -> (r: &str)
        ensures
            r@ == self.selector@,
    {
        self.selector.as_str()
    }

    /// The locator for the nth match (zero-based): `nth(0)` is the first.
    pub fn nth(&self, index: usize) -> (r: Locator)
        ensures
            r.selector == self.selector,
            r.timeout_ms == self.timeout_ms,
            r.nth_index == Some(index),
    {
        Locator {
            selector: self.selector.clone(),
            timeout_ms: self.timeout_ms,
            nth_index: Some(index),
        }
    }

    /// The locator for the first match; the same as `nth(0)`.
    pub fn first(&self) -> (r: Locator)
        ensures
            r.selector == self.selector,
            r.timeout_ms == self.timeout_ms,
            r.nth_index == Some(0usize),
    {
        self.nth(0)
    }

    /// The locator for the last match at the moment of each query, marked
    /// with the reserved [`LAST_MATCH`] index so that it tracks DOM changes
    /// instead of freezing a count at construction time.
    pub fn last(&self) -> (r: Locator)
        ensures
            r.selector == self.selector,
            r.timeout_ms == self.timeout_ms,
            r.nth_index == Some(LAST_MATCH),
    {
        Locator {
            selector: self.selector.clone(),
            timeout_ms: self.timeout_ms,
            nth_index: Some(LAST_MATCH),
        }
    }

    /// Decide which of `k` current matches this locator resolves to.
    ///
    /// Returns the selected position, or the error for this attempt — a
    /// retryable `ElementNotFound` naming the selector (suffixed with the
    /// requested position when an index was set and missed).
    pub fn resolve_index(&self, k: usize) -> (r: Result<usize, Error>)
        ensures
            match spec_selected_index(k as nat, self.nth_index) {
                Some(i) => r == Ok::<usize, Error>(i as usize),
                None => r matches Err(e) && e matches Error::ElementNotFound { selector: s }
                    && s@ == spec_miss_description(self.selector@, k as nat, self.nth_index),
            },
    {
        match self.nth_index {
            None => {
                if k > 0 {
                    Ok(0)
                } else {
                    Err(Error::ElementNotFound { selector: self.selector.clone() })
                }
            },
            Some(n) => {
                if k == 0 {
                    Err(Error::ElementNotFound { selector: self.selector.clone() })
                } else if n == LAST_MATCH {
                    Ok(k - 1)
                } else if n < k {
                    Ok(n)
                } else {
                    let mut s = self.selector.clone();
                    s.append("[");
                    s.append(usize_to_string(n).as_str());
                    s.append("]");
                    proof {
                        reveal_strlit("[");
                        reveal_strlit("]");
                    }
                    Err(Error::ElementNotFound { selector: s })
                }
            },
        }
    }

    /// Count semantics: a count query asks for the whole match list once,
    /// without retrying, and its result is the list's length — zero included.
    pub fn count_result(&self, k: usize) -> (r: usize)
        ensures
            r == k,
    {
        k
    }
}

/// The selector description reported when an attempt finds no usable match:
/// the bare selector when the list was empty or no index was set, and the
/// selector with the requested position appended when an index missed.
pub open spec fn spec_miss_description(selector: Seq<char>, k: nat, nth: Option<usize>) -> Seq<
    char,
> {
    match nth {
        None => selector,
        Some(n) => if k == 0 || n == LAST_MATCH {
            selector
        } else {
            selector + seq!['['] + spec_decimal(n as nat) + seq![']']
        },
    }
}

/// A single-resolution query at the transport layer: with `k` live matches it
/// succeeds with the first match exactly when at least one exists, and fails
/// with `ElementNotFound` naming the selector exactly when none does. No
/// retrying happens at this layer.
pub fn single_query_outcome(selector: &str, k: usize) -> (r: Result<usize, Error>)
    ensures
        k > 0 ==> r == Ok::<usize, Error>(0usize),
        k == 0 ==> (r matches Err(e) && e matches Error::ElementNotFound { selector: s }
            && s@ == selector@),
{
    if k > 0 {
        Ok(0)
    } else {
        Err(Error::ElementNotFound { selector: selector.to_owned() })
    }
}

/// A never-matching selector makes `find` fail with `ElementNotFound` and
/// leaves `find_all` with the empty list rather than an error: for every
/// locator over such a selector the match count is zero, so every single
/// resolution errs with `ElementNotFound` and the count result is zero.
pub proof fn lemma_no_match_semantics(locator: Locator)
    ensures
        spec_selected_index(0, locator.nth_index) is None,
        spec_miss_description(locator.selector@, 0, locator.nth_index) == locator.selector@,
{
}

/// Zero-based index semantics over a live match list of length `k`:
/// `nth(n)` resolves to position `n` exactly when `n < k`; otherwise the
/// attempt selects nothing (and is retried until the budget expires); the
/// last-match marker resolves to position `k - 1` whenever the list is
/// non-empty, whatever the list looked like when the locator was built.
pub proof fn lemma_nth_semantics(k: nat, n: usize)
    ensures
        n != LAST_MATCH && (n as nat) < k ==> spec_selected_index(k, Some(n)) == Some(n as int),
        n != LAST_MATCH && (n as nat) >= k ==> spec_selected_index(k, Some(n)) is None,
        k > 0 ==> spec_selected_index(k, Some(LAST_MATCH)) == Some(k - 1),
        k == 0 ==> spec_selected_index(k, Some(LAST_MATCH)) is None,
{
}

} // verus!
