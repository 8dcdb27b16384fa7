//! The frame pacer: the state machine that decides when to redraw.
//!
//! One cycle is `AwaitingFrameCallback -> Rendering -> Committing ->
//! AwaitingFrameCallback`; startup runs one unconditional cycle from
//! `Idle`. The caller performs the actual rasterization between
//! [`FramePacer::frame_signaled`] and [`FramePacer::render_done`], and the
//! attach/damage/commit plus the re-arming of the next one-shot frame
//! notification between [`FramePacer::render_done`] and
//! [`FramePacer::commit_done`]. The counters make the pacing contract
//! visible: every frame notification leads to exactly one render and one
//! commit, in strict alternation, plus the single startup cycle.

use vstd::prelude::*;

verus! {

/// Where the pacer stands in its cycle.
#[derive(Clone, Copy, PartialEq, Eq, Structural, Debug)]
pub enum PacerState {
    /// Startup only: no render has happened yet.
    Idle,
    /// Suspended until the presentation surface signals "frame done".
    AwaitingFrameCallback,
    /// A render pass is in progress.
    Rendering,
    /// The rendered buffer is being attached, damaged and committed.
    Committing,
}

/// The frame-pacing state machine, with counters for how many renders,
/// commits and frame notifications have happened.
pub struct FramePacer {
    pub state: PacerState,
    pub renders: u64,
    pub commits: u64,
    pub frames_signaled: u64,
}

impl FramePacer {
    /// The pacing invariant: the counters are pinned to the state of the
    /// cycle, so a render can never run twice without a commit between,
    /// nor a commit without its render, and each frame notification
    /// accounts for exactly one cycle beyond the startup one.
    pub open spec fn wf(self) -> bool {
        match self.state {
            PacerState::Idle => self.renders == 0 && self.commits == 0 && self.frames_signaled
                == 0,
            PacerState::Rendering => self.renders == self.frames_signaled && self.commits
                == self.frames_signaled,
            PacerState::Committing => self.renders == self.frames_signaled + 1 && self.commits
                == self.frames_signaled,
            PacerState::AwaitingFrameCallback => self.renders == self.frames_signaled + 1
                && self.commits == self.frames_signaled + 1,
        }
    }

    /// A fresh pacer, before the startup render.
    pub fn new() -> (p: FramePacer)
        ensures
            p.wf(),
            p.state == PacerState::Idle,
            p.renders == 0,
            p.commits == 0,
            p.frames_signaled == 0,
    {
        FramePacer {
            state: PacerState::Idle,
            renders: 0,
            commits: 0,
            frames_signaled: 0,
        }
    }

    /// Startup: enter the one unconditional render that precedes the
    /// first frame notification.
    pub fn begin_startup_render(&mut self)
        requires
            old(self).wf(),
            old(self).state == PacerState::Idle,
        ensures
            final(self).wf(),
            final(self).state == PacerState::Rendering,
            final(self).renders == old(self).renders,
            final(self).commits == old(self).commits,
            final(self).frames_signaled == old(self).frames_signaled,
    {
        self.state = PacerState::Rendering;
    }

    /// The one-shot frame notification fired: leave the suspended state
    /// and enter the render pass for this cycle.
    pub fn frame_signaled(&mut self)
        requires
            old(self).wf(),
            old(self).state == PacerState::AwaitingFrameCallback,
        ensures
            final(self).wf(),
            final(self).state == PacerState::Rendering,
            final(self).frames_signaled == old(self).frames_signaled + 1,
            final(self).renders == old(self).renders,
            final(self).commits == old(self).commits,
    {
        self.state = PacerState::Rendering;
        self.frames_signaled = self.frames_signaled + 1;
    }

    /// The render pass completed: move on to committing the buffer.
    pub fn render_done(&mut self)
        requires
            old(self).wf(),
            old(self).state == PacerState::Rendering,
            old(self).renders < u64::MAX,
        ensures
            final(self).wf(),
            final(self).state == PacerState::Committing,
            final(self).renders == old(self).renders + 1,
            final(self).commits == old(self).commits,
            final(self).frames_signaled == old(self).frames_signaled,
    {
        self.state = PacerState::Committing;
        self.renders = self.renders + 1;
    }

    /// The commit was submitted and the next one-shot frame notification
    /// re-armed: suspend until it fires.
    pub fn commit_done(&mut self)
        requires
            old(self).wf(),
            old(self).state == PacerState::Committing,
        ensures
            final(self).wf(),
            final(self).state == PacerState::AwaitingFrameCallback,
            final(self).commits == old(self).commits + 1,
            final(self).renders == old(self).renders,
            final(self).frames_signaled == old(self).frames_signaled,
    {
        self.state = PacerState::AwaitingFrameCallback;
        self.commits = self.commits + 1;
    }

    /// One render and one commit per frame cycle: whenever the pacer is
    /// suspended waiting for the next notification, it has rendered and
    /// committed exactly once per notification fired, plus the one
    /// startup cycle.
    pub proof fn lemma_one_render_per_frame(self)
        requires
            self.wf(),
            self.state == PacerState::AwaitingFrameCallback,
        ensures
            self.renders == self.frames_signaled + 1,
            self.commits == self.frames_signaled + 1,
            self.renders == self.commits,
    {
    }

    /// Strict alternation: renders and commits never drift apart by more
    /// than the single render of the cycle in progress.
    pub proof fn lemma_strict_alternation(self)
        requires
            self.wf(),
        ensures
            self.commits <= self.renders,
            self.renders <= self.commits + 1,
    {
    }
}

} // verus!
