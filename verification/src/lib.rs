//! Control core of an interactive fractal viewer.
//!
//! A user pans and zooms a camera and adjusts render quality by holding keys.
//! This crate holds the part of that loop that can be reasoned about exactly:
//! which logical actions are currently held, since when the displayed picture
//! has been outdated, how much wall-clock time a tick must integrate, and
//! whether the host loop should redraw and busy-poll or sleep. Timestamps are
//! plain nanosecond counts from a monotonic clock, supplied by the caller.
//!
//! The floating-point application of a tick (camera translation and zoom,
//! log-space iteration count) and all window/GPU plumbing live outside this
//! crate; they consume the exact per-tick commands computed here.

mod controls;
mod scheduler;

pub use controls::Controls;
pub use controls::LogicalAction;
pub use controls::SceneUpdate;
pub use scheduler::FrameDecision;
pub use scheduler::FrameScheduler;
pub use scheduler::WaitMode;
