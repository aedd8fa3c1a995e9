//! The ownership binding between a host window and its embedding session.
//!
//! The window stores exactly one slot.  A resize event forwards the new
//! client size to the stored session and is a safe no-op when the slot is
//! empty.  A destroy event reclaims the session from the slot exactly
//! once and yields the ordered teardown steps; the slot reads empty from
//! then on, so no second teardown and no resize of a dead session can
//! happen.

use vstd::prelude::*;

use crate::session::EmbeddingSession;

verus! {

/// One step of an ordered session teardown.
#[derive(Clone, Copy, PartialEq, Eq, Structural, Debug)]
pub enum TeardownStep {
    UnregisterListener { listener_token: u64 },
    CloseController { controller_handle: u64 },
    ReleaseContent { content_handle: u64 },
    ReleaseEnvironment { environment_handle: u64 },
}

/// The teardown order of a session: the listener goes first, so that no
/// message can be delivered into a half-torn-down session, then the
/// controller closes, then the content and environment handles go.
pub open spec fn spec_teardown_steps(s: EmbeddingSession) -> Seq<TeardownStep> {
    seq![
        TeardownStep::UnregisterListener { listener_token: s.listener_token },
        TeardownStep::CloseController { controller_handle: s.controller_handle },
        TeardownStep::ReleaseContent { content_handle: s.content_handle },
        TeardownStep::ReleaseEnvironment { environment_handle: s.environment_handle },
    ]
}

/// The ordered teardown steps of the given session.
pub fn teardown_steps(s: &EmbeddingSession) -> (r: Vec<TeardownStep>)
    ensures
        r@ == spec_teardown_steps(*s),
{
    let mut r: Vec<TeardownStep> = Vec::new();
    r.push(TeardownStep::UnregisterListener { listener_token: s.listener_token });
    r.push(TeardownStep::CloseController { controller_handle: s.controller_handle });
    r.push(TeardownStep::ReleaseContent { content_handle: s.content_handle });
    r.push(TeardownStep::ReleaseEnvironment { environment_handle: s.environment_handle });
    proof {
        assert(r@ =~= spec_teardown_steps(*s));
    }
    r
}

/// The window's single storage slot for its active session.
pub struct WindowSlot {
    pub session: Option<EmbeddingSession>,
}

impl WindowSlot {
    /// The slot as it stands after a resize event: the stored session's
    /// surface fills the new client area; an empty slot stays untouched.
    pub open spec fn spec_after_resize(self, width: i32, height: i32) -> WindowSlot {
        match self.session {
            None => self,
            Some(s) => WindowSlot { session: Some(s.spec_resized(width, height)) },
        }
    }

    /// A fresh, empty slot.
    pub fn new() -> (r: WindowSlot)
        ensures
            r.session is None,
    {
        WindowSlot { session: None }
    }

    /// Store the one active session.  The slot must be empty: a window
    /// owns at most one live session, and never rebuilds one in place.
    pub fn install(&mut self, session: EmbeddingSession)
        requires
            old(self).session is None,
        ensures
            final(self).session == Some(session),
    {
        self.session = Some(session);
    }

    /// Forward a resize event to the stored session; a safe no-op when
    /// the slot is empty.  Reports whether a session was resized.
    pub fn on_resize(&mut self, width: i32, height: i32) -> (forwarded: bool)
        ensures
            *final(self) == old(self).spec_after_resize(width, height),
            forwarded == (old(self).session is Some),
    {
        match &mut self.session {
            Some(s) => {
                s.resize(width, height);
                true
            },
            None => false,
        }
    }

    /// Reclaim the session on window destruction — exactly once — and
    /// yield its ordered teardown steps.  The slot reads empty afterwards,
    /// so a second destroy event yields nothing.
    pub fn on_destroy(&mut self) -> (r: Option<Vec<TeardownStep>>)
        ensures
            final(self).session is None,
            match old(self).session {
                None => r is None,
                Some(s) => r matches Some(steps) && steps@ == spec_teardown_steps(s),
            },
    {
        let taken = self.session.take();
        match taken {
            Some(session) => Some(teardown_steps(&session)),
            None => None,
        }
    }
}

/// After teardown the slot reads empty, and a resize event then leaves it
/// exactly as it is: a safe no-op, never a dangling dereference.
pub proof fn lemma_resize_after_teardown(slot: WindowSlot, width: i32, height: i32)
    requires
        slot.session is None,
    ensures
        slot.spec_after_resize(width, height) == slot,
{
}

} // verus!
