//! Cooperative cancellation: a signal that is shared between its holders,
//! and the controller that sets it.
//!
//! A signal records whether an abort was asked for, and with what reason.
//! The first abort is the one that counts: later ones change nothing. The
//! record sits behind a lock, so that holders in several threads may set and
//! read it.

use std::sync::Arc;
use vstd::prelude::*;
use vstd::rwlock::{RwLock, RwLockPredicate};
use vstd::string::*;

verus! {

/// What a signal records.
#[derive(Debug)]
pub struct AbortState {
    /// Whether an abort was asked for.
    pub aborted: bool,
    /// The reason given with the first abort, if one was given.
    pub reason: Option<String>,
}

impl AbortState {
    /// The record before any abort.
    pub open spec fn idle() -> AbortState {
        AbortState { aborted: false, reason: None }
    }

    /// The record of an abort with the given reason.
    pub open spec fn stopped(reason: Option<String>) -> AbortState {
        AbortState { aborted: true, reason }
    }

    /// The record after an abort was asked for: the first abort sets it, a
    /// later one changes nothing.
    pub open spec fn after_abort(self, reason: Option<String>) -> AbortState {
        if self.aborted {
            self
        } else {
            AbortState::stopped(reason)
        }
    }

    /// Whether this record may come after the earlier one: an abort that the
    /// earlier one holds is still there, with its reason.
    pub open spec fn follows(self, earlier: AbortState) -> bool {
        earlier.aborted ==> self.aborted && self.reason == earlier.reason
    }

    /// The record before any abort.
    pub fn new() -> (r: Self)
        ensures
            r == AbortState::idle(),
    {
        AbortState { aborted: false, reason: None }
    }

    /// Records an abort: sets the flag and the reason, unless an abort is
    /// recorded already.
    pub fn record(&mut self, reason: Option<String>)
        ensures
            *final(self) == old(self).after_abort(reason),
    {
        if !self.aborted {
            self.aborted = true;
            self.reason = reason;
        }
    }

    /// A record of its own with the same content.
    pub fn duplicate(&self) -> (r: Self)
        ensures
            r == *self,
    {
        let reason = match &self.reason {
            Some(text) => Some(text.clone()),
            None => None,
        };
        AbortState { aborted: self.aborted, reason }
    }
}

/// An abort, once recorded, stays: whatever is asked for afterwards, the
/// record keeps its flag and its first reason.
pub proof fn law_first_abort_stays(
    state: AbortState,
    first: Option<String>,
    second: Option<String>,
)
    ensures
        state.after_abort(first).aborted,
        state.after_abort(first).follows(state),
        state.after_abort(first).after_abort(second) == state.after_abort(first),
        !state.aborted ==> state.after_abort(first).after_abort(second).reason == first,
{
}

/// `follows` is an order on records: each follows itself, and what follows a
/// follower follows the first.
pub proof fn law_follows_order(a: AbortState, b: AbortState, c: AbortState)
    ensures
        a.follows(a),
        c.follows(b) && b.follows(a) ==> c.follows(a),
        a.follows(AbortState::idle()),
{
}

/// What is known of a shared record for good: the record it had when this
/// became known. Every later record follows it.
pub struct Since {
    /// The record at that time.
    pub floor: AbortState,
}

impl RwLockPredicate<AbortState> for Since {
    open spec fn inv(self, v: AbortState) -> bool {
        v.follows(self.floor)
    }
}

/// Another handle on the same shared record.
///
/// Trusted: this is `Arc::clone` of the standard library, which hands out a
/// further pointer to the same allocation, so that both point at one value.
#[verifier::external_body]
fn share(cell: &Arc<RwLock<AbortState, Since>>) -> (r: Arc<RwLock<AbortState, Since>>)
    ensures
        r == *cell,
{
    Arc::clone(cell)
}

/// A signal that tells whether an operation was aborted. Its clones share one
/// record: an abort through any of them shows in all.
pub struct AbortSignal {
    cell: Arc<RwLock<AbortState, Since>>,
}

impl AbortSignal {
    /// What is known of the signal for good, whatever its other holders do:
    /// the record that it was made with.
    pub closed spec fn known(&self) -> AbortState {
        self.cell.pred().floor
    }

    /// Whether two signals share one record.
    pub closed spec fn shares_with(&self, other: &AbortSignal) -> bool {
        *self.cell == *other.cell
    }

    /// A signal that is not aborted and has no reason.
    pub fn new() -> (r: Self)
        ensures
            r.known() == AbortState::idle(),
    {
        let ghost since = Since { floor: AbortState::idle() };
        AbortSignal { cell: Arc::new(RwLock::new(AbortState::new(), Ghost(since))) }
    }

    /// A signal that is aborted from the start, with the given reason.
    pub fn abort(reason: Option<String>) -> (r: Self)
        ensures
            r.known() == AbortState::stopped(reason),
    {
        let state = AbortState { aborted: true, reason };
        let ghost since = Since { floor: state };
        AbortSignal { cell: Arc::new(RwLock::new(state, Ghost(since))) }
    }

    /// The record as it is now.
    pub fn state(&self) -> (r: AbortState)
        ensures
            r.follows(self.known()),
    {
        let handle = self.cell.acquire_read();
        let r = handle.borrow().duplicate();
        handle.release_read();
        r
    }

    /// Whether the signal is aborted. A signal that was made aborted is so
    /// for good.
    pub fn aborted(&self) -> (r: bool)
        ensures
            self.known().aborted ==> r,
    {
        self.state().aborted
    }

    /// The reason of the abort, if one was given. A signal that was made
    /// aborted keeps the reason that it was made with.
    pub fn reason(&self) -> (r: Option<String>)
        ensures
            self.known().aborted ==> r == self.known().reason,
    {
        self.state().reason
    }

    /// Aborts the signal with the given reason, unless it is aborted already:
    /// then nothing changes. Returns the record as this call left it: it
    /// holds an abort, and that of the record that the signal was made with,
    /// if that held one.
    pub fn do_abort(&self, reason: Option<String>) -> (r: AbortState)
        ensures
            r.aborted,
            r.follows(self.known()),
    {
        let (mut state, handle) = self.cell.acquire_write();
        state.record(reason);
        let r = state.duplicate();
        handle.release_write(state);
        r
    }
}

impl Clone for AbortSignal {
    /// A further handle on the same record.
    fn clone(&self) -> (r: Self)
        ensures
            r == *self,
            r.shares_with(self),
            r.known() == self.known(),
    {
        AbortSignal { cell: share(&self.cell) }
    }
}

impl Default for AbortSignal {
    /// A signal that is not aborted and has no reason.
    fn default() -> (r: Self)
        ensures
            r.known() == AbortState::idle(),
    {
        AbortSignal::new()
    }
}

/// The owner of one signal, which it alone aborts.
pub struct AbortController {
    signal: AbortSignal,
}

impl View for AbortController {
    type V = AbortSignal;

    /// The signal of the controller.
    closed spec fn view(&self) -> AbortSignal {
        self.signal
    }
}

impl AbortController {
    /// A controller with a signal of its own, which is not aborted.
    pub fn new() -> (r: Self)
        ensures
            r@.known() == AbortState::idle(),
    {
        AbortController { signal: AbortSignal::new() }
    }

    /// The signal of the controller.
    pub fn signal(&self) -> (r: &AbortSignal)
        ensures
            *r == self@,
    {
        &self.signal
    }

    /// Aborts the signal with the reason `AbortError`, unless it is aborted
    /// already: then nothing changes. Returns the record as this call left
    /// it.
    pub fn abort(&self) -> (r: AbortState)
        ensures
            r.aborted,
            r.follows(self@.known()),
    {
        self.signal.do_abort(Some(String::from_str("AbortError")))
    }
}

impl Default for AbortController {
    /// A controller with a signal of its own, which is not aborted.
    fn default() -> (r: Self)
        ensures
            r@.known() == AbortState::idle(),
    {
        AbortController::new()
    }
}

} // verus!
