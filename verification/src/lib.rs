//! Touchpad multi-finger gesture recognition and action dispatch.
//!
//! The crate consumes streams of incremental gesture samples (swipe deltas,
//! pinch scale factors, hold timestamps), decides irreversibly what gesture
//! is occurring, and maps a terminated, decided gesture to at most one
//! discrete action (a key sequence or a window-management command).
//!
//! Motion is measured in whole touchpad units; pinch scale factors are
//! fixed-point with three decimal places, so a factor of one is stored
//! as `1000`. Timestamps are monotonic milliseconds.
//!
//! The caller performs the actions: each reducer records the actions it
//! dispatches in the owning [`state::State`]'s action log, and the embedding
//! event loop drains the log and forwards each entry to the compositor or
//! the key-injection facility.

pub mod actions;
pub mod cells;
pub mod state;

pub use actions::{Action, DispatchContext, KeyAction};
pub use cells::{GestureDirection, GestureState, HoldGesture, PinchGesture, SwipeGesture};
pub use state::{MyTouchpadGesture, State};
