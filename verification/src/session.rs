//! The embedding session and its staged construction.
//!
//! Building a session runs through three stages — the engine environment,
//! the surface controller, and the content setup with its navigation —
//! each completed asynchronously by the host.  The builder here is the
//! decision core of that sequence: the host performs one stage at a time
//! and reports its outcome, and the builder either advances or fails with
//! an error tagged by the stage that failed.  A session value exists only
//! once every stage has succeeded; there is no half-built session.

use vstd::prelude::*;

verus! {

/// The creation step a setup failure is tagged with.
#[derive(Clone, Copy, PartialEq, Eq, Structural, Debug)]
pub enum BuildStage {
    Environment,
    Controller,
    Navigate,
}

/// A setup-fatal error: which stage failed, and the host's description.
#[derive(Debug)]
pub struct EmbeddingError {
    pub stage: BuildStage,
    pub detail: String,
}

/// Where the rendering surface sits inside the host window's client area.
#[derive(Clone, Copy, PartialEq, Eq, Structural, Debug)]
pub struct SurfaceBounds {
    pub left: i32,
    pub top: i32,
    pub right: i32,
    pub bottom: i32,
}

/// One live hosted rendering surface: the engine handles it was built
/// from, the listener registration, the window that owns it, and the
/// bounds its surface currently fills.
#[derive(Debug)]
pub struct EmbeddingSession {
    pub environment_handle: u64,
    pub controller_handle: u64,
    pub content_handle: u64,
    pub listener_token: u64,
    pub owning_window_id: u64,
    pub bounds: SurfaceBounds,
}

impl EmbeddingSession {
    /// The session as it stands after a resize: the surface exactly fills
    /// the new client area, and nothing else changes.
    pub open spec fn spec_resized(self, width: i32, height: i32) -> EmbeddingSession {
        EmbeddingSession {
            bounds: SurfaceBounds { left: 0, top: 0, right: width, bottom: height },
            ..self
        }
    }

    /// Reposition the rendering surface to exactly fill the client area.
    pub fn resize(&mut self, width: i32, height: i32)
        ensures
            *final(self) == old(self).spec_resized(width, height),
    {
        self.bounds = SurfaceBounds { left: 0, top: 0, right: width, bottom: height };
    }
}

/// Resizing is idempotent: a second resize to the same size leaves the
/// session exactly as the first one left it.
pub proof fn lemma_resize_idempotent(s: EmbeddingSession, width: i32, height: i32)
    ensures
        s.spec_resized(width, height).spec_resized(width, height) == s.spec_resized(
            width,
            height,
        ),
{
}

/// How far the construction sequence has come.
pub enum BuildPhase {
    /// The environment request is out; nothing exists yet.
    AwaitingEnvironment,
    /// The environment exists; the controller request is out.
    AwaitingController { environment_handle: u64 },
    /// Environment and controller exist; the content setup remains.
    AwaitingContent { environment_handle: u64, controller_handle: u64 },
    /// A stage failed; the sequence is over.
    Failed { stage: BuildStage },
}

/// The decision core of the construction sequence.  The host drives it:
/// it performs each stage and reports the outcome, and the builder tracks
/// the handles collected so far.
pub struct SessionBuilder {
    pub window_id: u64,
    pub data_directory: String,
    pub initial_url: String,
    pub width: i32,
    pub height: i32,
    pub phase: BuildPhase,
}

impl SessionBuilder {
    /// The session the builder assembles once the content stage succeeds.
    pub open spec fn spec_assembled(self, content_handle: u64, listener_token: u64) -> EmbeddingSession {
        match self.phase {
            BuildPhase::AwaitingContent { environment_handle, controller_handle } => {
                EmbeddingSession {
                    environment_handle,
                    controller_handle,
                    content_handle,
                    listener_token,
                    owning_window_id: self.window_id,
                    bounds: SurfaceBounds {
                        left: 0,
                        top: 0,
                        right: self.width,
                        bottom: self.height,
                    },
                }
            },
            _ => arbitrary(),
        }
    }

    /// Begin the sequence: the environment request for the given data
    /// directory is the first stage the host performs.
    pub fn start(
        window_id: u64,
        data_directory: String,
        initial_url: String,
        width: i32,
        height: i32,
    ) -> (r: SessionBuilder)
        ensures
            r.window_id == window_id,
            r.data_directory@ == data_directory@,
            r.initial_url@ == initial_url@,
            r.width == width,
            r.height == height,
            r.phase is AwaitingEnvironment,
    {
        SessionBuilder {
            window_id,
            data_directory,
            initial_url,
            width,
            height,
            phase: BuildPhase::AwaitingEnvironment,
        }
    }

    /// Record the environment stage's outcome.  On failure the whole
    /// sequence fails with an error tagged by the environment stage — an
    /// unusable data directory can go no further — and no session exists.
    pub fn environment_completed(&mut self, outcome: Result<u64, String>) -> (r: Result<
        (),
        EmbeddingError,
    >)
        requires
            old(self).phase is AwaitingEnvironment,
        ensures
            final(self).window_id == old(self).window_id,
            final(self).data_directory@ == old(self).data_directory@,
            final(self).initial_url@ == old(self).initial_url@,
            final(self).width == old(self).width,
            final(self).height == old(self).height,
            match outcome {
                Ok(environment_handle) => {
                    &&& final(self).phase == (BuildPhase::AwaitingController { environment_handle })
                    &&& r is Ok
                },
                Err(detail) => {
                    &&& final(self).phase == (BuildPhase::Failed { stage: BuildStage::Environment })
                    &&& r matches Err(e) && e.stage is Environment && e.detail@ == detail@
                },
            },
    {
        match outcome {
            Ok(environment_handle) => {
                self.phase = BuildPhase::AwaitingController { environment_handle };
                Ok(())
            },
            Err(detail) => {
                self.phase = BuildPhase::Failed { stage: BuildStage::Environment };
                Err(EmbeddingError { stage: BuildStage::Environment, detail })
            },
        }
    }

    /// Record the controller stage's outcome.  On failure the sequence
    /// fails with an error tagged by the controller stage.
    pub fn controller_completed(&mut self, outcome: Result<u64, String>) -> (r: Result<
        (),
        EmbeddingError,
    >)
        requires
            old(self).phase is AwaitingController,
        ensures
            final(self).window_id == old(self).window_id,
            final(self).data_directory@ == old(self).data_directory@,
            final(self).initial_url@ == old(self).initial_url@,
            final(self).width == old(self).width,
            final(self).height == old(self).height,
            match outcome {
                Ok(controller_handle) => {
                    &&& final(self).phase matches BuildPhase::AwaitingContent {
                        environment_handle,
                        controller_handle: c,
                    } && environment_handle == old(self).phase->AwaitingController_environment_handle
                        && c == controller_handle
                    &&& r is Ok
                },
                Err(detail) => {
                    &&& final(self).phase == (BuildPhase::Failed { stage: BuildStage::Controller })
                    &&& r matches Err(e) && e.stage is Controller && e.detail@ == detail@
                },
            },
    {
        let environment_handle = match self.phase {
            BuildPhase::AwaitingController { environment_handle } => environment_handle,
            _ => 0,
        };
        match outcome {
            Ok(controller_handle) => {
                self.phase = BuildPhase::AwaitingContent { environment_handle, controller_handle };
                Ok(())
            },
            Err(detail) => {
                self.phase = BuildPhase::Failed { stage: BuildStage::Controller };
                Err(EmbeddingError { stage: BuildStage::Controller, detail })
            },
        }
    }

    /// Finish the sequence with the content stage: the content handle was
    /// retrieved, navigation to the initial URL either succeeded or
    /// failed, and the listener registration produced a token.  Only a
    /// fully successful sequence yields a session, with its surface set to
    /// fill the requested client area.
    pub fn content_ready(
        self,
        content_handle: u64,
        navigation: Result<(), String>,
        listener_token: u64,
    ) -> (r: Result<EmbeddingSession, EmbeddingError>)
        requires
            self.phase is AwaitingContent,
        ensures
            match navigation {
                Ok(_) => r matches Ok(s) && s == self.spec_assembled(
                    content_handle,
                    listener_token,
                ),
                Err(detail) => r matches Err(e) && e.stage is Navigate && e.detail@ == detail@,
            },
    {
        let (environment_handle, controller_handle) = match self.phase {
            BuildPhase::AwaitingContent { environment_handle, controller_handle } => (
                environment_handle,
                controller_handle,
            ),
            _ => (0, 0),
        };
        match navigation {
            Ok(_) => Ok(
                EmbeddingSession {
                    environment_handle,
                    controller_handle,
                    content_handle,
                    listener_token,
                    owning_window_id: self.window_id,
                    bounds: SurfaceBounds { left: 0, top: 0, right: self.width, bottom: self.height },
                },
            ),
            Err(detail) => Err(EmbeddingError { stage: BuildStage::Navigate, detail }),
        }
    }
}

} // verus!
