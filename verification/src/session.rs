//! The start/stop control of a capture session.
//!
//! The session is either running or not. Starting succeeds exactly when the
//! capture handle opened — a failed open leaves the session not running, with
//! nothing half-initialised — and stopping is idempotent: stopping a stopped
//! or never-started session changes nothing and faults nothing.

use vstd::prelude::*;

verus! {

/// The consumer-visible state of one capture session.
#[derive(Debug, Clone, Copy, PartialEq, Eq, Structural)]
pub struct Session {
    /// Whether a capture is running.
    pub active: bool,
    /// Whether the running capture discards every packet that is not
    /// HTTP(S), decided when the session started.
    pub discard_non_http: bool,
}

/// What stopping does to a session: it is no longer active, and nothing else
/// about it changes.
pub open spec fn spec_stop(s: Session) -> Session {
    Session { active: false, ..s }
}

impl Session {
    /// A session that never started.
    pub fn new() -> (r: Session)
        ensures
            !r.active,
            !r.discard_non_http,
    {
        Session { active: false, discard_non_http: false }
    }

    /// Record the outcome of starting a capture: `opened` reports whether
    /// the capture handle could be opened on the chosen interface. The
    /// session runs exactly when the open succeeded; a failure leaves it not
    /// running.
    pub fn start(&mut self, opened: bool, discard_non_http: bool)
        ensures
            final (self).active == opened,
            final (self).discard_non_http == discard_non_http,
    {
        self.active = opened;
        self.discard_non_http = discard_non_http;
    }

    /// Stop the session. Stopping is total and idempotent: on a session that
    /// is already stopped, or never started, it has no observable effect.
    pub fn stop(&mut self)
        ensures
            *final (self) == spec_stop(*old(self)),
            !final (self).active,
            !old(self).active ==> *final (self) == *old(self),
    {
        self.active = false;
    }

    /// Whether a capture is running.
    pub fn is_active(&self) -> (r: bool)
        ensures
            r == self.active,
    {
        self.active
    }
}

/// Idempotent stop: stopping twice is stopping once, and stopping a session
/// that is not active leaves it exactly as it was.
pub proof fn lemma_stop_idempotent(s: Session)
    ensures
        spec_stop(spec_stop(s)) == spec_stop(s),
        !s.active ==> spec_stop(s) == s,
{
}

} // verus!
