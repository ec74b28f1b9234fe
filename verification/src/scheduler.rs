use vstd::prelude::*;

use crate::controls::Controls;
use crate::controls::LogicalAction;
use crate::controls::SceneUpdate;
use crate::controls::pan_direction;

verus! {

/// How the host event loop should wait for its next event: busy-poll while
/// the picture keeps changing, for the smoothest possible motion, or block
/// until the next OS event while the application is idle.
#[derive(Clone, Copy, Debug, PartialEq, Eq, Structural)]
pub enum WaitMode {
    Poll,
    Wait,
}

/// Everything one frame of the host loop must do after a tick: integrate the
/// scene by `scene`, draw if `render` is set, then wait for events in `mode`.
#[derive(Clone, Copy, Debug, PartialEq, Eq, Structural)]
pub struct FrameDecision {
    /// Integration step for this tick, if an activity run was open.
    pub scene: Option<SceneUpdate>,
    /// The frame must be drawn: a redraw was requested from outside, or held
    /// actions keep changing the picture.
    pub render: bool,
    /// Wait mode for the host loop until the next tick.
    pub mode: WaitMode,
}

/// Per-frame coordinator of the event loop: remembers whether the windowing
/// system asked for a redraw and turns each loop iteration into one
/// `FrameDecision`.
pub struct FrameScheduler {
    redraw_requested: bool,
}

impl FrameScheduler {
    /// An externally requested redraw (resize, occlusion restore, explicit
    /// request) is still pending.
    pub closed spec fn redraw_pending(self) -> bool {
        self.redraw_requested
    }

    /// Fresh scheduler. The very first frame must always be drawn, so a
    /// redraw starts out pending.
    pub fn new() -> (scheduler: FrameScheduler)
        ensures
            scheduler.redraw_pending(),
    {
        FrameScheduler { redraw_requested: true }
    }

    /// Records a redraw request from the windowing system.
    pub fn request_redraw(&mut self)
        ensures
            final(self).redraw_pending(),
    {
        self.redraw_requested = true;
    }

    /// Whether a redraw request is still pending.
    pub fn is_redraw_pending(&self) -> (pending: bool)
        ensures
            pending == self.redraw_pending(),
    {
        self.redraw_requested
    }

    /// One iteration of the host loop at monotonic time `now` (nanoseconds):
    /// advances `controls`, decides whether this frame must be drawn, consumes
    /// any pending redraw request, and picks the next wait mode — `Poll`
    /// exactly while some action is held, `Wait` otherwise.
    pub fn tick(&mut self, controls: &mut Controls, now: u64) -> (decision: FrameDecision)
        requires
            old(controls).clock_started_by(now),
        ensures
            forall|a: LogicalAction|
                final(controls).action_held(a) == old(controls).action_held(a),
            final(controls).outdated() == (if old(controls).any_action_held() {
                Some(now)
            } else {
                None::<u64>
            }),
            final(controls).wf(),
            decision.scene is Some <==> old(controls).outdated() is Some,
            decision.scene matches Some(u) ==> {
                &&& u.dt_nanos == now - old(controls).outdated()->0
                &&& u.pan_x as int == pan_direction(
                    old(controls).action_held(LogicalAction::PanRight),
                    old(controls).action_held(LogicalAction::PanLeft),
                )
                &&& u.pan_y as int == pan_direction(
                    old(controls).action_held(LogicalAction::PanUp),
                    old(controls).action_held(LogicalAction::PanDown),
                )
                &&& u.zoom_in == old(controls).action_held(LogicalAction::ZoomIn)
                &&& u.zoom_out == old(controls).action_held(LogicalAction::ZoomOut)
                &&& u.increase_detail == old(controls).action_held(
                    LogicalAction::IncreaseDetail,
                )
                &&& u.decrease_detail == old(controls).action_held(
                    LogicalAction::DecreaseDetail,
                )
            },
            decision.render == (old(self).redraw_pending() || old(controls).any_action_held()),
            !final(self).redraw_pending(),
            decision.mode == (if old(controls).any_action_held() {
                WaitMode::Poll
            } else {
                WaitMode::Wait
            }),
    {
        let scene = controls.advance(now);
        let render = self.redraw_requested || controls.picture_changes();
        self.redraw_requested = false;
        let mode = if controls.picture_changes() {
            WaitMode::Poll
        } else {
            WaitMode::Wait
        };
        FrameDecision { scene, render, mode }
    }
}

} // verus!
