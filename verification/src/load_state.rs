//! The page-lifecycle and network-quiescence state machine.
//!
//! A [`LoadTracker`] is fed the push events of the debugging protocol, one at
//! a time, by whatever task reads the event socket. It keeps four lifecycle
//! flags and the set of in-flight network request ids; the network-idle flag
//! rises only when the idle timer fires over an empty in-flight set (or the
//! browser itself reports an idle lifecycle event), never directly upon a
//! request finishing. When the event channel cannot be had, the waiter falls
//! back to polling the document ready state; those decisions live here too.

use vstd::prelude::*;

use crate::options::WaitUntilState;
use crate::text::str_eq;

verus! {

/// How long the network must stay silent before it counts as idle,
/// in milliseconds.
pub const IDLE_QUIET_MS: u64 = 500;

/// Polling interval of the ready-state fallback, in milliseconds.
pub const POLL_INTERVAL_MS: u64 = 100;

/// The four lifecycle flags of one navigation.
#[derive(Debug, Clone, Copy, PartialEq, Eq, Structural)]
pub struct LoadStateSnapshot {
    /// The DOM is ready.
    pub domcontentloaded: bool,
    /// The full load event has fired.
    pub load: bool,
    /// The network has been quiet for the idle window.
    pub network_idle: bool,
    /// The navigation has been committed.
    pub commit: bool,
}

impl Default for LoadStateSnapshot {
    /// All four flags down.
    fn default() -> (r: LoadStateSnapshot)
        ensures
            r == spec_snapshot_initial(),
    {
        LoadStateSnapshot { domcontentloaded: false, load: false, network_idle: false, commit: false }
    }
}

/// The snapshot a tracker starts from: all flags down.
pub open spec fn spec_snapshot_initial() -> LoadStateSnapshot {
    LoadStateSnapshot { domcontentloaded: false, load: false, network_idle: false, commit: false }
}

/// One push event of the debugging protocol, as the tracker reads it.
#[derive(Debug, Clone, PartialEq, Eq)]
pub enum CdpEvent {
    /// The DOM-content event fired (directly or as a lifecycle event).
    DomContentLoaded,
    /// The load event fired (directly or as a lifecycle event).
    Load,
    /// The browser itself reported the network idle (lifecycle event).
    NetworkIdleReported,
    /// The navigation was committed (lifecycle, frame-navigated or
    /// frame-started-loading event).
    Commit,
    /// A network request with this id was sent.
    RequestWillBeSent(String),
    /// The network request with this id finished or failed.
    LoadingFinished(String),
    /// Anything the tracker does not react to.
    Ignored,
}

/// How one event changes the four lifecycle flags. The DOM, load and commit
/// flags only ever rise; the network-idle flag is cleared by a new request
/// and raised only by the browser's own idle report — the idle timer, not an
/// event, raises it otherwise.
pub open spec fn spec_apply_flags(s: LoadStateSnapshot, e: CdpEvent) -> LoadStateSnapshot {
    match e {
        CdpEvent::DomContentLoaded => LoadStateSnapshot { domcontentloaded: true, ..s },
        CdpEvent::Load => LoadStateSnapshot { load: true, ..s },
        CdpEvent::NetworkIdleReported => LoadStateSnapshot { network_idle: true, ..s },
        CdpEvent::Commit => LoadStateSnapshot { commit: true, ..s },
        CdpEvent::RequestWillBeSent(_) => LoadStateSnapshot { network_idle: false, ..s },
        CdpEvent::LoadingFinished(_) => s,
        CdpEvent::Ignored => s,
    }
}

/// The tracker: lifecycle flags, the in-flight request ids, and whether the
/// idle timer is armed. The timer is armed exactly while the in-flight set
/// is empty and the quiet window is running.
#[derive(Debug, Clone, PartialEq, Eq)]
pub struct LoadTracker {
    /// The four lifecycle flags.
    pub snapshot: LoadStateSnapshot,
    /// Ids of requests sent but not yet finished or failed; no duplicates.
    pub inflight: Vec<String>,
    /// Whether the idle timer is currently armed.
    pub idle_armed: bool,
}

/// Whether some string in `v` reads `x`.
pub open spec fn spec_has_id(v: Seq<String>, x: Seq<char>) -> bool {
    exists|i: int| 0 <= i < v.len() && v[i]@ == x
}

/// Whether the tracker counts request `id` as in flight.
pub open spec fn spec_tracks(t: LoadTracker, id: Seq<char>) -> bool {
    spec_has_id(t.inflight@, id)
}

proof fn lemma_has_id_push(v: Seq<String>, s: String, x: Seq<char>)
    ensures
        spec_has_id(v.push(s), x) <==> (spec_has_id(v, x) || s@ == x),
{
    if spec_has_id(v.push(s), x) {
        let i = choose|i: int| 0 <= i < v.push(s).len() && v.push(s)[i]@ == x;
        if i < v.len() {
            assert(v[i]@ == x);
        } else {
            assert(v.push(s)[i] == s);
        }
    }
    if spec_has_id(v, x) {
        let i = choose|i: int| 0 <= i < v.len() && v[i]@ == x;
        assert(v.push(s)[i]@ == x);
    }
    if s@ == x {
        assert(v.push(s)[v.len() as int]@ == x);
    }
}

impl LoadTracker {
    /// A fresh tracker: no flags, nothing in flight, timer unarmed.
    pub fn new() -> (r: LoadTracker)
        ensures
            r.snapshot == spec_snapshot_initial(),
            r.inflight@.len() == 0,
            !r.idle_armed,
    {
        LoadTracker {
            snapshot: LoadStateSnapshot {
                domcontentloaded: false,
                load: false,
                network_idle: false,
                commit: false,
            },
            inflight: Vec::new(),
            idle_armed: false,
        }
    }

    /// Whether request `id` is currently counted as in flight.
    fn tracks(&self, id: &str) -> (r: bool)
        ensures
            r == spec_tracks(*self, id@),
    {
        let mut i: usize = 0;
        while i < self.inflight.len()
            invariant
                i <= self.inflight@.len(),
                forall|k: int| 0 <= k < i ==> self.inflight@[k]@ != id@,
            decreases self.inflight@.len() - i,
        {
            if str_eq(self.inflight[i].as_str(), id) {
                return true;
            }
            i = i + 1;
        }
        false
    }

    /// Drop every occurrence of `id` from the in-flight list.
    fn untrack(&mut self, id: &str)
        ensures
            final(self).snapshot == old(self).snapshot,
            final(self).idle_armed == old(self).idle_armed,
            forall|x: Seq<char>|
                #[trigger] spec_tracks(*final(self), x) <==> (spec_tracks(*old(self), x) && x
                    != id@),
    {
        let ghost prev = self.inflight@;
        let mut kept: Vec<String> = Vec::new();
        let mut i: usize = 0;
        while i < self.inflight.len()
            invariant
                i <= prev.len(),
                self.inflight@ == prev,
                self.snapshot == old(self).snapshot,
                self.idle_armed == old(self).idle_armed,
                forall|x: Seq<char>|
                    #[trigger] spec_has_id(kept@, x) <==> (spec_has_id(prev.take(i as int), x)
                        && x != id@),
            decreases prev.len() - i,
        {
            let ghost kept_before = kept@;
            let is_id = str_eq(self.inflight[i].as_str(), id);
            let ghost mut pushed = prev[i as int];
            if !is_id {
                let s = self.inflight[i].clone();
                proof {
                    pushed = s;
                }
                kept.push(s);
            }
            proof {
                assert(prev.take(i + 1) =~= prev.take(i as int).push(prev[i as int]));
                assert forall|x: Seq<char>|
                    #[trigger] spec_has_id(kept@, x) <==> (spec_has_id(prev.take(i + 1), x) && x
                        != id@) by {
                    lemma_has_id_push(prev.take(i as int), prev[i as int], x);
                    if !is_id {
                        assert(kept@ == kept_before.push(pushed));
                        assert(pushed@ == prev[i as int]@);
                        lemma_has_id_push(kept_before, pushed, x);
                    }
                }
            }
            i = i + 1;
        }
        proof {
            assert(prev.take(prev.len() as int) =~= prev);
        }
        self.inflight = kept;
    }

    /// Feed one event to the state machine.
    ///
    /// The lifecycle flags change exactly as [`spec_apply_flags`] says. A new
    /// request joins the in-flight set, clears the network-idle flag and
    /// disarms the idle timer; a finished or failed request leaves the set,
    /// and the timer is armed exactly when the set is empty afterwards —
    /// the network-idle flag itself stays untouched until the timer fires.
    pub fn apply_event(&mut self, event: &CdpEvent)
        ensures
            final(self).snapshot == spec_apply_flags(old(self).snapshot, *event),
            match *event {
                CdpEvent::RequestWillBeSent(id) => {
                    &&& !final(self).idle_armed
                    &&& forall|x: Seq<char>|
                        #[trigger] spec_tracks(*final(self), x) <==> (spec_tracks(*old(self), x)
                            || x == id@)
                },
                CdpEvent::LoadingFinished(id) => {
                    &&& forall|x: Seq<char>|
                        #[trigger] spec_tracks(*final(self), x) <==> (spec_tracks(*old(self), x)
                            && x != id@)
                    &&& final(self).idle_armed == (old(self).idle_armed
                        || final(self).inflight@.len() == 0)
                },
                _ => {
                    &&& final(self).idle_armed == old(self).idle_armed
                    &&& forall|x: Seq<char>|
                        #[trigger] spec_tracks(*final(self), x) <==> spec_tracks(*old(self), x)
                },
            },
    {
        match event {
            CdpEvent::DomContentLoaded => {
                self.snapshot.domcontentloaded = true;
            },
            CdpEvent::Load => {
                self.snapshot.load = true;
            },
            CdpEvent::NetworkIdleReported => {
                self.snapshot.network_idle = true;
            },
            CdpEvent::Commit => {
                self.snapshot.commit = true;
            },
            CdpEvent::RequestWillBeSent(id) => {
                self.snapshot.network_idle = false;
                self.idle_armed = false;
                if !self.tracks(id.as_str()) {
                    self.inflight.push(id.clone());
                    proof {
                        let prev = old(self).inflight@;
                        let now = self.inflight@;
                        assert(now.len() == prev.len() + 1);
                        assert(now[prev.len() as int]@ == id@);
                        assert forall|x: Seq<char>|
                            #[trigger] spec_tracks(*self, x) <==> (spec_tracks(*old(self), x) || x
                                == id@) by {
                            if spec_tracks(*self, x) {
                                let i = choose|i: int| 0 <= i < now.len() && now[i]@ == x;
                                if i < prev.len() {
                                    assert(prev[i]@ == x);
                                }
                            }
                            if spec_tracks(*old(self), x) {
                                let i = choose|i: int| 0 <= i < prev.len() && prev[i]@ == x;
                                assert(now[i]@ == x);
                            }
                            if x == id@ {
                                assert(now[prev.len() as int]@ == x);
                            }
                        }
                    }
                } else {
                    proof {
                        assert(spec_tracks(*self, id@));
                        assert forall|x: Seq<char>|
                            #[trigger] spec_tracks(*self, x) <==> (spec_tracks(*old(self), x) || x
                                == id@) by {}
                    }
                }
            },
            CdpEvent::LoadingFinished(id) => {
                self.untrack(id.as_str());
                let ghost mid = *self;
                if self.inflight.len() == 0 && !self.idle_armed {
                    self.idle_armed = true;
                }
                proof {
                    assert forall|x: Seq<char>|
                        #[trigger] spec_tracks(*self, x) <==> (spec_tracks(*old(self), x) && x
                            != id@) by {
                        assert(self.inflight@ == mid.inflight@);
                        assert(spec_tracks(mid, x) <==> (spec_tracks(*old(self), x) && x != id@));
                    }
                }
            },
            CdpEvent::Ignored => {},
        }
    }

    /// The armed idle timer fires after the quiet window: if the in-flight
    /// set is still empty, the network counts as idle from here on; the
    /// timer itself is spent either way.
    pub fn idle_timer_fired(&mut self)
        requires
            old(self).idle_armed,
        ensures
            final(self).snapshot.domcontentloaded == old(self).snapshot.domcontentloaded,
            final(self).snapshot.load == old(self).snapshot.load,
            final(self).snapshot.commit == old(self).snapshot.commit,
            final(self).snapshot.network_idle == (old(self).snapshot.network_idle
                || old(self).inflight@.len() == 0),
            !final(self).idle_armed,
            final(self).inflight@ == old(self).inflight@,
    {
        if self.inflight.len() == 0 {
            self.snapshot.network_idle = true;
        }
        self.idle_armed = false;
    }

    /// Whether the idle timer is currently armed.
    pub fn idle_timer_armed(&self) -> (r: bool)
        ensures
            r == self.idle_armed,
    {
        self.idle_armed
    }

    /// How many requests are currently in flight.
    pub fn inflight_count(&self) -> (r: usize)
        ensures
            r == self.inflight@.len(),
    {
        self.inflight.len()
    }

    /// The current lifecycle flags.
    pub fn snapshot(&self) -> (r: LoadStateSnapshot)
        ensures
            r == self.snapshot,
    {
        self.snapshot
    }
}

/// Whether a snapshot satisfies a requested wait state: the full load event
/// also satisfies a DOM-ready wait, and either also satisfies a commit wait.
pub open spec fn spec_state_reached(state: WaitUntilState, s: LoadStateSnapshot) -> bool {
    match state {
        WaitUntilState::Load => s.load,
        WaitUntilState::DomContentLoaded => s.domcontentloaded || s.load,
        WaitUntilState::NetworkIdle => s.network_idle,
        WaitUntilState::Commit => s.commit || s.domcontentloaded || s.load,
    }
}

/// Runtime check for [`spec_state_reached`].
pub fn load_state_reached(state: WaitUntilState, snapshot: &LoadStateSnapshot) -> (r: bool)
    ensures
        r == spec_state_reached(state, *snapshot),
{
    match state {
        WaitUntilState::Load => snapshot.load,
        WaitUntilState::DomContentLoaded => snapshot.domcontentloaded || snapshot.load,
        WaitUntilState::NetworkIdle => snapshot.network_idle,
        WaitUntilState::Commit => snapshot.commit || snapshot.domcontentloaded || snapshot.load,
    }
}

/// The ready-state polling fallback, used when no event channel can be had:
/// a DOM-ready wait is satisfied once the document left the "loading" phase
/// for "interactive" or "complete"; a network-idle wait needs "complete"
/// (confirmed again after the quiet window by the caller); a commit wait is
/// satisfied by anything but "loading"; a load wait is satisfied by the
/// control protocol having answered the probe at all.
pub fn poll_state_decision(state: WaitUntilState, ready_state: &str) -> (r: bool)
    ensures
        state == WaitUntilState::Load ==> r,
        state == WaitUntilState::DomContentLoaded ==> r == (ready_state@ == "interactive"@
            || ready_state@ == "complete"@),
        state == WaitUntilState::NetworkIdle ==> r == (ready_state@ == "complete"@),
        state == WaitUntilState::Commit ==> r == (ready_state@ != "loading"@),
{
    match state {
        WaitUntilState::Load => true,
        WaitUntilState::DomContentLoaded => str_eq(ready_state, "interactive") || str_eq(
            ready_state,
            "complete",
        ),
        WaitUntilState::NetworkIdle => str_eq(ready_state, "complete"),
        WaitUntilState::Commit => !str_eq(ready_state, "loading"),
    }
}

/// The operation description a load-state timeout reports.
pub fn wait_description(state: WaitUntilState) -> (r: String)
    ensures
        state == WaitUntilState::Load ==> r@ == "wait for load state: load"@,
        state == WaitUntilState::DomContentLoaded ==> r@
            == "wait for load state: domcontentloaded"@,
        state == WaitUntilState::NetworkIdle ==> r@ == "wait for load state: networkidle"@,
        state == WaitUntilState::Commit ==> r@ == "wait for load state: commit"@,
{
    match state {
        WaitUntilState::Load => "wait for load state: load".to_owned(),
        WaitUntilState::DomContentLoaded => "wait for load state: domcontentloaded".to_owned(),
        WaitUntilState::NetworkIdle => "wait for load state: networkidle".to_owned(),
        WaitUntilState::Commit => "wait for load state: commit".to_owned(),
    }
}

/// The DOM, load and commit flags are monotonic: no event lowers one of
/// them for the navigation being tracked.
pub proof fn lemma_flags_monotonic(s: LoadStateSnapshot, e: CdpEvent)
    ensures
        s.domcontentloaded ==> spec_apply_flags(s, e).domcontentloaded,
        s.load ==> spec_apply_flags(s, e).load,
        s.commit ==> spec_apply_flags(s, e).commit,
{
}

/// Network idle needs the quiet window: no request-lifecycle event raises
/// the network-idle flag — a finished or failed request only arms the idle
/// timer, and a new request clears the flag — so with the flag down it can
/// only rise when the timer fires over an empty in-flight set, or when the
/// browser itself reports idleness as a lifecycle event.
pub proof fn lemma_network_idle_needs_quiet(s: LoadStateSnapshot, e: CdpEvent)
    requires
        !s.network_idle,
        !(e is NetworkIdleReported),
    ensures
        !spec_apply_flags(s, e).network_idle,
{
}

/// Reaching a state is monotonic in the flags: once a snapshot satisfies a
/// wait state, feeding the tracker more non-request events keeps it
/// satisfied, except that a new network request may retract network
/// idleness.
pub proof fn lemma_reached_stable(state: WaitUntilState, s: LoadStateSnapshot, e: CdpEvent)
    requires
        spec_state_reached(state, s),
        !(e is RequestWillBeSent),
    ensures
        spec_state_reached(state, spec_apply_flags(s, e)),
{
}

} // verus!
