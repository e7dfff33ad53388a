//! Idempotent session control for playback.
//!
//! The engine's caller performs the actual device work — acquiring an
//! output stream, releasing it — while this state machine makes the
//! decisions: a start request on an already active session is a no-op (a
//! duplicate would double-acquire the output device), and a stop with no
//! active session is a no-op too. Device acquisition can fail; the caller
//! reports that failure and commits nothing, so the session stays inactive
//! and usable.

use vstd::prelude::*;

verus! {

/// Whether a playback session is currently active.
pub struct SessionState {
    active: bool,
}

impl SessionState {
    pub closed spec fn is_active(&self) -> bool {
        self.active
    }

    /// The whole start operation as a transition: a start request on an
    /// active session changes nothing; otherwise the session becomes
    /// active exactly when the output device was acquired.
    pub closed spec fn start_outcome(self, acquired: bool) -> SessionState {
        if self.active {
            self
        } else if acquired {
            SessionState { active: true }
        } else {
            self
        }
    }

    /// The whole stop operation as a transition: active or not, no session
    /// remains afterwards.
    pub closed spec fn stop_outcome(self) -> SessionState {
        SessionState { active: false }
    }

    /// No session is active at process start.
    pub fn new() -> (s: SessionState)
        ensures
            !s.is_active(),
    {
        SessionState { active: false }
    }

    /// The decision for a start request: acquire an output stream only
    /// when no session is active.
    pub fn should_acquire(&self) -> (go: bool)
        ensures
            go == !self.is_active(),
    {
        !self.active
    }

    /// Commits a successful acquisition: the session is now the one active
    /// session.
    pub fn commit_start(&mut self)
        requires
            !old(self).is_active(),
        ensures
            *final(self) == old(self).start_outcome(true),
            final(self).is_active(),
    {
        self.active = true;
    }

    /// Stops the session: reports whether one was active (and its
    /// resources must be released together); afterwards none is.
    pub fn commit_stop(&mut self) -> (was_active: bool)
        ensures
            *final(self) == old(self).stop_outcome(),
            !final(self).is_active(),
            was_active == old(self).is_active(),
    {
        let was_active = self.active;
        self.active = false;
        was_active
    }
}

/// Law (idempotent start): once a start has led to an active session, a
/// further start request — whether its acquisition would have succeeded or
/// not — changes nothing: exactly one session stays active.
pub proof fn lemma_start_idempotent(s: SessionState, first_acquired: bool, second_acquired: bool)
    ensures
        s.start_outcome(first_acquired).is_active() ==> s.start_outcome(first_acquired)
            .start_outcome(second_acquired) == s.start_outcome(first_acquired),
{
}

/// Law (idempotent stop): stopping leaves no active session, and a second
/// stop changes nothing.
pub proof fn lemma_stop_idempotent(s: SessionState)
    ensures
        !s.stop_outcome().is_active(),
        s.stop_outcome().stop_outcome() == s.stop_outcome(),
{
}

} // verus!
