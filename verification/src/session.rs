//! The session model: one logical connection to one running browser.
//!
//! A [`SessionState`] tracks what the transport layer may assume about the
//! session — whether the control handle is still there, whether the lazily
//! created debugging command channel is up, and which frame the session's
//! addressing scope currently points at. Every transport call first consults
//! [`SessionState::require_open`]; teardown goes through
//! [`SessionState::close`], which is idempotent and never fails.

use vstd::prelude::*;

use crate::errors::Error;

verus! {

/// The state of one browser session, as the transport layer sees it.
///
/// The `closed` flag is monotonic: once set it never clears, and every
/// subsequent operation observes `BrowserClosed`. The scope path is the chain
/// of frame selectors the addressing scope has entered, outermost first; an
/// empty path is the top-level document.
#[derive(Debug, Clone, PartialEq, Eq)]
pub struct SessionState {
    /// Whether `close` has run; never cleared afterwards.
    pub closed: bool,
    /// Whether the debugging-protocol command channel has been established.
    pub debug_channel_open: bool,
    /// The frame selectors the addressing scope has entered, outermost first.
    pub scope: Vec<String>,
}

impl SessionState {
    /// Whether the addressing scope points at the top-level document.
    pub open spec fn spec_is_top_level(self) -> bool {
        self.scope@.len() == 0
    }

    /// A fresh session: open, no debugging channel yet, top-level scope.
    pub fn new() -> (r: SessionState)
        ensures
            !r.closed,
            !r.debug_channel_open,
            r.spec_is_top_level(),
    {
        SessionState { closed: false, debug_channel_open: false, scope: Vec::new() }
    }

    /// Gate for every operation against the session: succeeds exactly while
    /// the session is open, and reports `BrowserClosed` once it is not.
    pub fn require_open(&self) -> (r: Result<(), Error>)
        ensures
            !self.closed ==> r == Ok::<(), Error>(()),
            self.closed ==> r == Err::<(), Error>(Error::BrowserClosed),
    {
        if self.closed {
            Err(Error::BrowserClosed)
        } else {
            Ok(())
        }
    }

    /// Record that the debugging command channel has been established. The
    /// channel is opened lazily by the first raw debugging command and then
    /// cached, so this may only happen while the session is open.
    pub fn mark_debug_channel_open(&mut self)
        requires
            !old(self).closed,
        ensures
            final(self).closed == old(self).closed,
            final(self).debug_channel_open,
            final(self).scope@ == old(self).scope@,
    {
        self.debug_channel_open = true;
    }

    /// Close the session: tear down the debugging channel, then the control
    /// handle. Idempotent — closing an already-closed session is a no-op,
    /// and it never fails either way.
    pub fn close(&mut self) -> (r: Result<(), Error>)
        ensures
            r == Ok::<(), Error>(()),
            spec_is_closed_session(*final(self)),
    {
        self.debug_channel_open = false;
        self.closed = true;
        self.scope = Vec::new();
        Ok(())
    }

    /// Move the addressing scope into the frame matched by `selector`,
    /// nesting one level deeper.
    pub fn enter_frame(&mut self, selector: String)
        requires
            !old(self).closed,
        ensures
            final(self).closed == old(self).closed,
            final(self).debug_channel_open == old(self).debug_channel_open,
            final(self).scope@ == old(self).scope@.push(selector),
    {
        self.scope.push(selector);
    }

    /// Reset the addressing scope to the top-level document, from any depth.
    pub fn reset_scope(&mut self)
        ensures
            final(self).closed == old(self).closed,
            final(self).debug_channel_open == old(self).debug_channel_open,
            final(self).spec_is_top_level(),
    {
        self.scope = Vec::new();
    }

    /// Runtime check for [`Self::spec_is_top_level`].
    pub fn is_top_level(&self) -> (r: bool)
        ensures
            r == self.spec_is_top_level(),
    {
        self.scope.len() == 0
    }

    /// Whether the session has been closed.
    pub fn is_closed(&self) -> (r: bool)
        ensures
            r == self.closed,
    {
        self.closed
    }
}

/// The one shape every closed session has: handle flag set, debugging
/// channel gone, scope back at the top level. `close` establishes it from
/// any starting state.
pub open spec fn spec_is_closed_session(s: SessionState) -> bool {
    s.closed && !s.debug_channel_open && s.scope@.len() == 0
}

/// Closing is idempotent: `close` always succeeds and lands in the closed
/// shape, and a session already in that shape is left exactly as it was by
/// another `close` — nothing is double-freed, because the closed shape holds
/// no handle, no channel and no scope to tear down.
pub proof fn lemma_close_idempotent(s: SessionState)
    requires
        spec_is_closed_session(s),
    ensures
        s.closed,
        !s.debug_channel_open,
        s.scope@ =~= Seq::<String>::empty(),
{
}

} // verus!
