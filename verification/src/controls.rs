use vstd::prelude::*;

verus! {

/// One logical input action a user can hold down. The mapping from physical
/// key codes to these actions belongs to the event-source adapter around the
/// library, not to the control core itself.
#[derive(Clone, Copy, Debug, PartialEq, Eq, Structural)]
pub enum LogicalAction {
    PanLeft,
    PanRight,
    PanUp,
    PanDown,
    ZoomIn,
    ZoomOut,
    IncreaseDetail,
    DecreaseDetail,
}

/// Keeps track of which actions are held and decides how much the scene must
/// move from one frame to the next.
///
/// `outdated_since` is the start of the current unbroken run of activity, as a
/// nanosecond count on the caller's monotonic clock: `None` while the picture
/// is up to date with the input state, `Some(t0)` while held keys demand
/// further integration before the next render.
pub struct Controls {
    outdated_since: Option<u64>,
    up: bool,
    down: bool,
    left: bool,
    right: bool,
    zoom_in: bool,
    zoom_out: bool,
    inc_iter: bool,
    dec_iter: bool,
}

impl Controls {
    /// The flag recording whether `action` is currently held.
    pub closed spec fn action_held(self, action: LogicalAction) -> bool {
        match action {
            LogicalAction::PanLeft => self.left,
            LogicalAction::PanRight => self.right,
            LogicalAction::PanUp => self.up,
            LogicalAction::PanDown => self.down,
            LogicalAction::ZoomIn => self.zoom_in,
            LogicalAction::ZoomOut => self.zoom_out,
            LogicalAction::IncreaseDetail => self.inc_iter,
            LogicalAction::DecreaseDetail => self.dec_iter,
        }
    }

    /// At least one of the eight action flags is held.
    pub open spec fn any_action_held(self) -> bool {
        ||| self.action_held(LogicalAction::PanLeft)
        ||| self.action_held(LogicalAction::PanRight)
        ||| self.action_held(LogicalAction::PanUp)
        ||| self.action_held(LogicalAction::PanDown)
        ||| self.action_held(LogicalAction::ZoomIn)
        ||| self.action_held(LogicalAction::ZoomOut)
        ||| self.action_held(LogicalAction::IncreaseDetail)
        ||| self.action_held(LogicalAction::DecreaseDetail)
    }

    /// Start of the current activity run, if any.
    pub closed spec fn outdated(self) -> Option<u64> {
        self.outdated_since
    }

    /// Well-formedness: whenever an action is held, the activity clock runs.
    pub open spec fn wf(self) -> bool {
        self.any_action_held() ==> self.outdated() is Some
    }

    /// The activity run, if any, started no later than `now`.
    pub open spec fn clock_started_by(self, now: u64) -> bool {
        self.outdated() matches Some(t0) ==> t0 <= now
    }

    /// Fresh control state: nothing held, picture up to date.
    pub fn new() -> (controls: Controls)
        ensures
            forall|a: LogicalAction| !controls.action_held(a),
            controls.outdated() is None,
            controls.wf(),
    {
        Controls {
            outdated_since: None,
            up: false,
            down: false,
            left: false,
            right: false,
            zoom_in: false,
            zoom_out: false,
            inc_iter: false,
            dec_iter: false,
        }
    }

    /// True iff any held action demands that the picture keep changing.
    pub fn picture_changes(&self) -> (changed: bool)
        ensures
            changed == self.any_action_held(),
    {
        self.up || self.down || self.left || self.right || self.zoom_in || self.zoom_out
            || self.inc_iter || self.dec_iter
    }

    /// Records that `action` was pressed (`pressed == true`) or released.
    /// `now` is the current reading of the caller's monotonic clock, in
    /// nanoseconds. If this event starts activity while the picture was up to
    /// date, the activity clock starts at `now`; an already running clock is
    /// left alone.
    pub fn handle_key_event(&mut self, action: LogicalAction, pressed: bool, now: u64)
        ensures
            final(self).action_held(action) == pressed,
            forall|a: LogicalAction|
                a != action ==> final(self).action_held(a) == old(self).action_held(a),
            final(self).outdated() == (if old(self).outdated() is None
                && final(self).any_action_held() {
                Some(now)
            } else {
                old(self).outdated()
            }),
            old(self).wf() ==> final(self).wf(),
    {
        match action {
            LogicalAction::PanLeft => self.left = pressed,
            LogicalAction::PanRight => self.right = pressed,
            LogicalAction::PanUp => self.up = pressed,
            LogicalAction::PanDown => self.down = pressed,
            LogicalAction::ZoomIn => self.zoom_in = pressed,
            LogicalAction::ZoomOut => self.zoom_out = pressed,
            LogicalAction::IncreaseDetail => self.inc_iter = pressed,
            LogicalAction::DecreaseDetail => self.dec_iter = pressed,
        }
        if self.outdated_since.is_none() && self.picture_changes() {
            self.outdated_since = Some(now);
        }
    }

    /// Whether `action` is currently held.
    pub fn is_held(&self, action: LogicalAction) -> (held: bool)
        ensures
            held == self.action_held(action),
    {
        match action {
            LogicalAction::PanLeft => self.left,
            LogicalAction::PanRight => self.right,
            LogicalAction::PanUp => self.up,
            LogicalAction::PanDown => self.down,
            LogicalAction::ZoomIn => self.zoom_in,
            LogicalAction::ZoomOut => self.zoom_out,
            LogicalAction::IncreaseDetail => self.inc_iter,
            LogicalAction::DecreaseDetail => self.dec_iter,
        }
    }

    /// Start of the current activity run, if any, in caller clock nanoseconds.
    pub fn outdated_since(&self) -> (r: Option<u64>)
        ensures
            r == self.outdated(),
    {
        self.outdated_since
    }

    /// One integration tick at monotonic time `now` (nanoseconds).
    ///
    /// While an activity run is open, the returned update carries the full
    /// elapsed time since the run started — not since the last tick — together
    /// with the directions the held actions demand; with no open run there is
    /// nothing to integrate. Afterwards the activity clock is refreshed to
    /// `now` while any action stays held, and cleared once none is: after
    /// every tick the state is outdated exactly when an action is held.
    pub fn advance(&mut self, now: u64) -> (update: Option<SceneUpdate>)
        requires
            old(self).clock_started_by(now),
        ensures
            forall|a: LogicalAction|
                final(self).action_held(a) == old(self).action_held(a),
            final(self).outdated() == (if old(self).any_action_held() {
                Some(now)
            } else {
                None::<u64>
            }),
            final(self).wf(),
            update is Some <==> old(self).outdated() is Some,
            update matches Some(u) ==> {
                &&& u.dt_nanos == now - old(self).outdated()->0
                &&& u.pan_x as int == pan_direction(
                    old(self).action_held(LogicalAction::PanRight),
                    old(self).action_held(LogicalAction::PanLeft),
                )
                &&& u.pan_y as int == pan_direction(
                    old(self).action_held(LogicalAction::PanUp),
                    old(self).action_held(LogicalAction::PanDown),
                )
                &&& u.zoom_in == old(self).action_held(LogicalAction::ZoomIn)
                &&& u.zoom_out == old(self).action_held(LogicalAction::ZoomOut)
                &&& u.increase_detail == old(self).action_held(LogicalAction::IncreaseDetail)
                &&& u.decrease_detail == old(self).action_held(LogicalAction::DecreaseDetail)
            },
    {
        let update: Option<SceneUpdate> = match self.outdated_since {
            Some(t0) => {
                let mut pan_x: i8 = 0;
                let mut pan_y: i8 = 0;
                if self.right {
                    pan_x = pan_x + 1;
                }
                if self.left {
                    pan_x = pan_x - 1;
                }
                if self.up {
                    pan_y = pan_y + 1;
                }
                if self.down {
                    pan_y = pan_y - 1;
                }
                Some(SceneUpdate {
                    dt_nanos: now - t0,
                    pan_x,
                    pan_y,
                    zoom_in: self.zoom_in,
                    zoom_out: self.zoom_out,
                    increase_detail: self.inc_iter,
                    decrease_detail: self.dec_iter,
                })
            },
            None => None,
        };
        if self.picture_changes() {
            self.outdated_since = Some(now);
        } else {
            self.outdated_since = None;
        }
        update
    }
}

/// Exact description of one integration tick, handed to the floating-point
/// shell around the library: how long the scene has been outdated and in which
/// directions it must move.
#[derive(Clone, Copy, Debug, PartialEq, Eq, Structural)]
pub struct SceneUpdate {
    /// Wall-clock time since the start of the activity run, in nanoseconds.
    pub dt_nanos: u64,
    /// Net horizontal pan direction: pan-right minus pan-left, in `-1..=1`.
    pub pan_x: i8,
    /// Net vertical pan direction: pan-up minus pan-down, in `-1..=1`.
    pub pan_y: i8,
    /// Zoom in was held at this tick.
    pub zoom_in: bool,
    /// Zoom out was held at this tick.
    pub zoom_out: bool,
    /// Increase-detail was held at this tick.
    pub increase_detail: bool,
    /// Decrease-detail was held at this tick.
    pub decrease_detail: bool,
}

/// Net direction of a pair of opposed held flags: `1` if only `toward` is
/// held, `-1` if only `away`, `0` otherwise.
pub open spec fn pan_direction(toward: bool, away: bool) -> int {
    (if toward { 1int } else { 0int }) - (if away { 1int } else { 0int })
}

} // verus!
