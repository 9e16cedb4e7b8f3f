//! The frame context manager: nested iframe chains, the selector builders
//! layered on them, and the scope-switching protocol.
//!
//! A [`FrameLocator`] names a possibly-nested iframe by the chain of frame
//! selectors from the outermost frame to the innermost. Before a child action
//! the session's addressing scope walks the chain ([`switch_into`]); after
//! the action the scope is restored to the top-level document
//! ([`finish_frame_action`]) no matter how the action ended — that is a hard
//! postcondition, not cleanup, so a failure inside a frame never leaves the
//! scope pointed at a stale frame for the next caller.

use vstd::prelude::*;

use crate::errors::Error;
use crate::locator::DEFAULT_TIMEOUT_MS;
use crate::session::SessionState;

verus! {

/// A view into a possibly-nested iframe: the chain of frame selectors from
/// outermost to innermost, and the timeout for operations inside it.
#[derive(Debug, Clone, PartialEq, Eq)]
pub struct FrameLocator {
    /// Frame selectors, outermost first; never empty.
    pub chain: Vec<String>,
    /// Per-operation timeout in milliseconds.
    pub timeout_ms: u64,
}

/// An element addressed inside a frame: the frame chain plus the element's
/// own selector.
#[derive(Debug, Clone, PartialEq, Eq)]
pub struct ElementInFrame {
    /// The frame the element lives in.
    pub frame: FrameLocator,
    /// Selector of the element within the frame.
    pub element_selector: String,
    /// Per-operation timeout in milliseconds.
    pub timeout_ms: u64,
}

impl FrameLocator {
    /// A locator for a top-level iframe matched by `frame_selector`.
    pub fn new(frame_selector: String) -> (r: FrameLocator)
        ensures
            r.chain@.len() == 1,
            r.chain@[0] == frame_selector,
            r.timeout_ms == DEFAULT_TIMEOUT_MS,
    {
        let mut chain: Vec<String> = Vec::new();
        chain.push(frame_selector);
        FrameLocator { chain, timeout_ms: DEFAULT_TIMEOUT_MS }
    }

    /// Set the timeout for operations within this frame, in milliseconds.
    pub fn timeout(self, timeout_ms: u64) -> (r: FrameLocator)
        ensures
            r.chain@ == self.chain@,
            r.timeout_ms == timeout_ms,
    {
        FrameLocator { chain: self.chain, timeout_ms }
    }

    /// The selector of this locator's own (innermost) frame.
    pub fn frame_selector(&self) -> (r: &str)
        requires
            self.chain@.len() > 0,
        ensures
            r@ == self.chain@[self.chain@.len() - 1]@,
    {
        self.chain[self.chain.len() - 1].as_str()
    }

    /// A locator for an iframe nested inside this frame: the child's chain
    /// is this chain with `selector` appended.
    pub fn frame_locator(&self, selector: String) -> (r: FrameLocator)
        ensures
            r.chain@ == self.chain@.push(selector),
            r.timeout_ms == self.timeout_ms,
    {
        let mut child = self.clone_value();
        child.chain.push(selector);
        FrameLocator { chain: child.chain, timeout_ms: self.timeout_ms }
    }

    /// An element inside this frame, addressed by its own selector.
    pub fn locator(&self, selector: String) -> (r: ElementInFrame)
        ensures
            r.frame.chain@ == self.chain@,
            r.frame.timeout_ms == self.timeout_ms,
            r.element_selector == selector,
            r.timeout_ms == self.timeout_ms,
    {
        ElementInFrame {
            frame: self.clone_value(),
            element_selector: selector,
            timeout_ms: self.timeout_ms,
        }
    }

    /// An element inside this frame located by its exact text content.
    pub fn get_by_text(&self, text: String) -> (r: ElementInFrame)
        ensures
            r.frame.chain@ == self.chain@,
            r.frame.timeout_ms == self.timeout_ms,
            r.timeout_ms == self.timeout_ms,
            r.element_selector@ == "//*[text()='"@ + text@ + "']"@,
    {
        let mut s: String = "//*[text()='".to_owned();
        s.append(text.as_str());
        s.append("']");
        self.locator(s)
    }

    /// An element inside this frame located by its ARIA role.
    pub fn get_by_role(&self, role: String) -> (r: ElementInFrame)
        ensures
            r.frame.chain@ == self.chain@,
            r.frame.timeout_ms == self.timeout_ms,
            r.timeout_ms == self.timeout_ms,
            r.element_selector@ == "[role='"@ + role@ + "']"@,
    {
        let mut s: String = "[role='".to_owned();
        s.append(role.as_str());
        s.append("']");
        self.locator(s)
    }

    /// An input or textarea inside this frame located by its label text.
    pub fn get_by_label(&self, text: String) -> (r: ElementInFrame)
        ensures
            r.frame.chain@ == self.chain@,
            r.frame.timeout_ms == self.timeout_ms,
            r.timeout_ms == self.timeout_ms,
            r.element_selector@ == "label:contains('"@ + text@ + "') input, label:contains('"@
                + text@ + "') textarea"@,
    {
        let mut s: String = "label:contains('".to_owned();
        s.append(text.as_str());
        s.append("') input, label:contains('");
        s.append(text.as_str());
        s.append("') textarea");
        self.locator(s)
    }

    /// An element inside this frame located by its placeholder text.
    pub fn get_by_placeholder(&self, text: String) -> (r: ElementInFrame)
        ensures
            r.frame.chain@ == self.chain@,
            r.frame.timeout_ms == self.timeout_ms,
            r.timeout_ms == self.timeout_ms,
            r.element_selector@ == "[placeholder='"@ + text@ + "']"@,
    {
        let mut s: String = "[placeholder='".to_owned();
        s.append(text.as_str());
        s.append("']");
        self.locator(s)
    }

    /// An element inside this frame located by its test-id attribute.
    pub fn get_by_test_id(&self, test_id: String) -> (r: ElementInFrame)
        ensures
            r.frame.chain@ == self.chain@,
            r.frame.timeout_ms == self.timeout_ms,
            r.timeout_ms == self.timeout_ms,
            r.element_selector@ == "[data-testid='"@ + test_id@ + "']"@,
    {
        let mut s: String = "[data-testid='".to_owned();
        s.append(test_id.as_str());
        s.append("']");
        self.locator(s)
    }

    /// A structural clone of this locator.
    fn clone_value(&self) -> (r: FrameLocator)
        ensures
            r.chain@ == self.chain@,
            r.timeout_ms == self.timeout_ms,
    {
        let mut chain: Vec<String> = Vec::new();
        let mut i: usize = 0;
        while i < self.chain.len()
            invariant
                i <= self.chain@.len(),
                chain@.len() == i,
                forall|k: int| 0 <= k < i ==> chain@[k] == self.chain@[k],
            decreases self.chain@.len() - i,
        {
            let ghost before = chain@;
            chain.push(self.chain[i].clone());
            proof {
                assert(chain@ == before.push(self.chain@[i as int]));
            }
            i = i + 1;
        }
        proof {
            assert(chain@ =~= self.chain@);
        }
        FrameLocator { chain, timeout_ms: self.timeout_ms }
    }
}

/// Walk the session's addressing scope into `chain`: first back to the
/// top-level document, then into each frame selector, outermost first.
pub fn switch_into(session: &mut SessionState, chain: &Vec<String>)
    requires
        !old(session).closed,
    ensures
        final(session).closed == old(session).closed,
        final(session).debug_channel_open == old(session).debug_channel_open,
        final(session).scope@.len() == chain@.len(),
        forall|i: int| 0 <= i < chain@.len() ==> final(session).scope@[i]@ == chain@[i]@,
{
    session.reset_scope();
    let mut i: usize = 0;
    while i < chain.len()
        invariant
            !session.closed,
            session.closed == old(session).closed,
            session.debug_channel_open == old(session).debug_channel_open,
            i <= chain@.len(),
            session.scope@.len() == i,
            forall|k: int| 0 <= k < i ==> session.scope@[k]@ == chain@[k]@,
        decreases chain@.len() - i,
    {
        session.enter_frame(chain[i].clone());
        i = i + 1;
    }
}

/// One frame-scoped action over the session model: the scope walks into the
/// frame chain, the wrapped action runs and ends well or badly, and the
/// scope is restored to the top-level document unconditionally. Whatever
/// `action_ok` was — including when the action's target selector never
/// matched — the session comes out at top level, ready for an unrelated
/// top-level action.
pub fn frame_action_round(
    session: &mut SessionState,
    chain: &Vec<String>,
    action_ok: bool,
) -> (r: bool)
    requires
        !old(session).closed,
    ensures
        final(session).spec_is_top_level(),
        final(session).closed == old(session).closed,
        final(session).debug_channel_open == old(session).debug_channel_open,
        r == action_ok,
{
    switch_into(session, chain);
    finish_frame_action(session, action_ok)
}

/// The unconditional epilogue of every frame-scoped action: reset the scope
/// to the top-level document and pass the action's outcome through.
pub fn finish_frame_action(session: &mut SessionState, action_ok: bool) -> (r: bool)
    ensures
        final(session).spec_is_top_level(),
        final(session).closed == old(session).closed,
        final(session).debug_channel_open == old(session).debug_channel_open,
        r == action_ok,
{
    session.reset_scope();
    action_ok
}

/// The timeout error reported when a frame of the chain never appears: it
/// names the frame selector and carries the budget.
pub fn frame_not_found_error(frame_selector: &str, timeout_ms: u64) -> (r: Error)
    ensures
        r matches Error::Timeout { message, timeout_ms: t } && message@ == "iframe not found: "@
            + frame_selector@ && t == timeout_ms,
{
    let mut message: String = "iframe not found: ".to_owned();
    message.append(frame_selector);
    Error::Timeout { message, timeout_ms }
}

/// After a frame-scoped action the scope is top-level, and a top-level scope
/// is exactly what an unrelated top-level action needs: switching into an
/// empty chain (the top-level document itself) leaves the scope untouched at
/// top level, so the next action addresses the page, not a stale frame.
pub proof fn lemma_top_level_ready(s: SessionState)
    requires
        s.spec_is_top_level(),
    ensures
        s.scope@ =~= Seq::<String>::empty(),
{
}

} // verus!
