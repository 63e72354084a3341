//! The gesture registry, the reducers driven by the input stack, and
//! the action dispatch rules for terminated gestures.
//!
//! Each reducer mutates exactly one cell of the registry, appends the
//! actions it dispatches to the action log, and reports whether it
//! consumed the event. The six cells are mutually independent: no
//! reducer reads or writes any cell but its own.

use vstd::prelude::*;

use crate::actions::{Action, DispatchContext, KeyAction};
use crate::cells::{
    hold_initial, pinch_initial, pinch_update_next, sat_add, swipe_initial, GestureDirection,
    GestureState, HoldGesture, PinchGesture, SwipeGesture,
};

verus! {

/// The fixed registry of six independent gesture cells, one per
/// (kind, finger count) pair. Created once at startup, reset
/// continuously, never destroyed until shutdown.
#[derive(PartialEq, Eq, Clone, Copy, Debug, Structural)]
pub struct MyTouchpadGesture {
    pub swipe_3f: SwipeGesture,
    pub swipe_4f: SwipeGesture,
    pub pinch_3f: PinchGesture,
    pub pinch_4f: PinchGesture,
    pub hold_3f: HoldGesture,
    pub hold_4f: HoldGesture,
}

/// The mutable input state the reducers run against: the gesture
/// registry and the log of dispatched, not yet performed actions.
#[derive(PartialEq, Eq, Debug)]
pub struct State {
    pub my_touchpad_gesture: MyTouchpadGesture,
    pub pending_actions: Vec<Action>,
}

/// The registry with every cell idle.
pub open spec fn registry_initial() -> MyTouchpadGesture {
    MyTouchpadGesture {
        swipe_3f: swipe_initial(),
        swipe_4f: swipe_initial(),
        pinch_3f: pinch_initial(),
        pinch_4f: pinch_initial(),
        hold_3f: hold_initial(),
        hold_4f: hold_initial(),
    }
}

/// Pinch dead zone judged at gesture end: a final magnitude this close
/// to one is treated as an accidental, neutral pinch and suppresses the
/// terminal action. Fixed-point bounds for the interval from 0.7
/// inclusive to 1.3 exclusive.
pub open spec fn pinch_end_dead_zone(scale: u32) -> bool {
    700 <= scale < 1300
}

/// A swipe cell after its gesture ends: an idle cell stays untouched
/// (end without begin is a no-op); any active cell is reset.
pub open spec fn swipe_end_next(c: SwipeGesture) -> SwipeGesture {
    if c.decision == GestureState::Unknown {
        c
    } else {
        swipe_initial()
    }
}

/// A pinch cell after its gesture ends, in the same way.
pub open spec fn pinch_end_next(c: PinchGesture) -> PinchGesture {
    if c.decision == GestureState::Unknown {
        c
    } else {
        pinch_initial()
    }
}

/// A hold cell after its gesture ends: only a committed hold is
/// active, so only a committed hold is reset.
pub open spec fn hold_end_next(c: HoldGesture) -> HoldGesture {
    if c.decision == GestureState::Decided {
        hold_initial()
    } else {
        c
    }
}

/// The four-finger swipe cell after one live update. Only a committed
/// horizontal swipe with the target application focused accumulates:
/// the delta is added to the re-arming accumulator, which resets to
/// zero on the update that pushes it past the trigger magnitude so
/// that one continuous swipe can trigger repeatedly.
pub open spec fn swipe_4f_live_next(c: SwipeGesture, dx: i64, focused_is_target: bool)
    -> SwipeGesture {
    if c.decision == GestureState::Decided && c.direction == GestureDirection::Horizontal
        && focused_is_target {
        let ncx = sat_add(c.cx as int, dx as int);
        if ncx > 150 || ncx < -150 {
            SwipeGesture { cx: 0, ..c }
        } else {
            SwipeGesture { cx: ncx as i64, ..c }
        }
    } else {
        c
    }
}

/// What one live four-finger swipe update dispatches: exactly one tab
/// switch on the update whose accumulator passes 150 units of
/// horizontal motion, towards the previous tab for leftward motion and
/// the next tab for rightward.
pub open spec fn swipe_4f_live_emits(c: SwipeGesture, dx: i64, focused_is_target: bool) -> Seq<
    Action,
> {
    if c.decision == GestureState::Decided && c.direction == GestureDirection::Horizontal
        && focused_is_target {
        let ncx = sat_add(c.cx as int, dx as int);
        if ncx < -150 {
            seq![Action::SendKeys(KeyAction::PreviousTab)]
        } else if ncx > 150 {
            seq![Action::SendKeys(KeyAction::NextTab)]
        } else {
            Seq::empty()
        }
    } else {
        Seq::empty()
    }
}

/// What a terminated three-finger pinch dispatches: a width toggle of
/// the window under the cursor — shrink for `In`, grow otherwise —
/// provided the pinch committed, was not cancelled, its final
/// magnitude lies outside the dead zone, and a window is under the
/// cursor. In every other case, nothing.
pub open spec fn pinch_3f_end_emits(c: PinchGesture, cancelled: bool, ctx: DispatchContext) -> Seq<
    Action,
> {
    if c.decision == GestureState::Decided && !cancelled && !pinch_end_dead_zone(c.scale) {
        match ctx.window_under_cursor {
            Some(w) => seq![
                Action::ToggleWindowWidth { window: w, grow: c.direction != GestureDirection::In },
            ],
            None => Seq::empty(),
        }
    } else {
        Seq::empty()
    }
}

/// What a terminated four-finger pinch dispatches: a key sequence into
/// the focused application — back for `In`, refresh otherwise —
/// provided the pinch committed, was not cancelled, its final
/// magnitude lies outside the dead zone, and the focused window
/// belongs to the target application. In every other case, nothing.
pub open spec fn pinch_4f_end_emits(c: PinchGesture, cancelled: bool, ctx: DispatchContext) -> Seq<
    Action,
> {
    if c.decision == GestureState::Decided && !cancelled && !pinch_end_dead_zone(c.scale)
        && ctx.focused_is_target {
        if c.direction == GestureDirection::In {
            seq![Action::SendKeys(KeyAction::Back)]
        } else {
            seq![Action::SendKeys(KeyAction::Refresh)]
        }
    } else {
        Seq::empty()
    }
}

/// What a terminated four-finger hold dispatches, provided it was held
/// at least 300 milliseconds and not cancelled: close-tab keys when
/// the target application is focused, otherwise a close request to the
/// window under the cursor, if any. In every other case, nothing.
pub open spec fn hold_4f_end_emits(c: HoldGesture, ts: u32, cancelled: bool, ctx: DispatchContext)
    -> Seq<Action> {
    if c.decision == GestureState::Decided && ts as int >= c.begin_ts as int + 300 && !cancelled {
        if ctx.focused_is_target {
            seq![Action::SendKeys(KeyAction::CloseTab)]
        } else {
            match ctx.window_under_cursor {
                Some(w) => seq![Action::RequestClose { window: w }],
                None => Seq::empty(),
            }
        }
    } else {
        Seq::empty()
    }
}

impl MyTouchpadGesture {
    /// A registry with every cell idle.
    pub fn new() -> (r: Self)
        ensures
            r == registry_initial(),
    {
        Self {
            swipe_3f: SwipeGesture::new(),
            swipe_4f: SwipeGesture::new(),
            pinch_3f: PinchGesture::new(),
            pinch_4f: PinchGesture::new(),
            hold_3f: HoldGesture::new(),
            hold_4f: HoldGesture::new(),
        }
    }
}

impl State {
    /// A fresh input state: idle registry, empty action log.
    pub fn new() -> (r: Self)
        ensures
            r.my_touchpad_gesture == registry_initial(),
            r.pending_actions@ == Seq::<Action>::empty(),
    {
        Self { my_touchpad_gesture: MyTouchpadGesture::new(), pending_actions: Vec::new() }
    }

    /// Drop every logged action, after the caller has performed them.
    pub fn clear_actions(&mut self)
        ensures
            final(self).my_touchpad_gesture == old(self).my_touchpad_gesture,
            final(self).pending_actions@ == Seq::<Action>::empty(),
    {
        self.pending_actions = Vec::new();
    }

    /// Live update of a committed three-finger swipe: a reserved
    /// extension point with no behavior; the event is never consumed.
    pub fn swipe_3f_on_update(&mut self) -> (handled: bool)
        ensures
            *final(self) == *old(self),
            handled == false,
    {
        if self.my_touchpad_gesture.swipe_3f.decision != GestureState::Decided {
            return false;
        }
        false
    }

    /// Live update of a committed four-finger swipe. The event is
    /// consumed exactly when the swipe has committed horizontally; the
    /// vertical delta plays no part. With the target application
    /// focused, the horizontal delta feeds the re-arming accumulator
    /// and a tab switch is dispatched each time it passes 150 units.
    pub fn swipe_4f_on_update(&mut self, dx: i64, _dy: i64, ctx: &DispatchContext) -> (handled:
        bool)
        ensures
            handled == (old(self).my_touchpad_gesture.swipe_4f.decision == GestureState::Decided
                && old(self).my_touchpad_gesture.swipe_4f.direction
                == GestureDirection::Horizontal),
            (final(self).my_touchpad_gesture == MyTouchpadGesture {
                swipe_4f: swipe_4f_live_next(
                    old(self).my_touchpad_gesture.swipe_4f,
                    dx,
                    ctx.focused_is_target,
                ),
                ..old(self).my_touchpad_gesture
            }),
            final(self).pending_actions@ == old(self).pending_actions@ + swipe_4f_live_emits(
                old(self).my_touchpad_gesture.swipe_4f,
                dx,
                ctx.focused_is_target,
            ),
    {
        proof {
            assert(old(self).pending_actions@ + Seq::<Action>::empty() =~= old(
                self,
            ).pending_actions@);
        }
        if self.my_touchpad_gesture.swipe_4f.decision != GestureState::Decided {
            return false;
        }
        if self.my_touchpad_gesture.swipe_4f.direction == GestureDirection::Horizontal {
            if ctx.focused_is_target {
                let ncx: i64 = crate::cells::sat_add_i64(self.my_touchpad_gesture.swipe_4f.cx, dx);
                self.my_touchpad_gesture.swipe_4f.cx = ncx;
                if ncx > 150 || ncx < -150 {
                    if ncx < 0 {
                        self.pending_actions.push(Action::SendKeys(KeyAction::PreviousTab));
                        proof {
                            assert(self.pending_actions@ =~= old(self).pending_actions@
                                + seq![Action::SendKeys(KeyAction::PreviousTab)]);
                        }
                    } else {
                        self.pending_actions.push(Action::SendKeys(KeyAction::NextTab));
                        proof {
                            assert(self.pending_actions@ =~= old(self).pending_actions@
                                + seq![Action::SendKeys(KeyAction::NextTab)]);
                        }
                    }
                    self.my_touchpad_gesture.swipe_4f.cx = 0;
                }
            }
            return true;
        }
        false
    }

    /// End of a four-finger swipe: no terminal action beyond what
    /// already fired live; an active cell is reset, an idle cell
    /// reports that there was nothing to do.
    pub fn swipe_4f_on_end(&mut self, _cancelled: bool) -> (handled: bool)
        ensures
            handled == (old(self).my_touchpad_gesture.swipe_4f.decision != GestureState::Unknown),
            (final(self).my_touchpad_gesture == MyTouchpadGesture {
                swipe_4f: swipe_end_next(old(self).my_touchpad_gesture.swipe_4f),
                ..old(self).my_touchpad_gesture
            }),
            final(self).pending_actions@ == old(self).pending_actions@,
    {
        if self.my_touchpad_gesture.swipe_4f.decision == GestureState::Unknown {
            return false;
        }
        self.my_touchpad_gesture.swipe_4f.reset();
        true
    }

    /// Scale sample for the three-finger pinch; pure classification,
    /// no action can fire before the gesture ends.
    pub fn pinch_3f_on_update(&mut self, scale: u32) -> (handled: bool)
        ensures
            handled == (old(self).my_touchpad_gesture.pinch_3f.decision != GestureState::Unknown),
            (final(self).my_touchpad_gesture == MyTouchpadGesture {
                pinch_3f: pinch_update_next(old(self).my_touchpad_gesture.pinch_3f, scale),
                ..old(self).my_touchpad_gesture
            }),
            final(self).pending_actions@ == old(self).pending_actions@,
    {
        self.my_touchpad_gesture.pinch_3f.update_and_maybe_decide(scale)
    }

    /// End of a three-finger pinch: dispatches the width toggle the
    /// dead-zone and cancellation rules allow, then resets an active
    /// cell unconditionally.
    pub fn pinch_3f_on_end(&mut self, cancelled: bool, ctx: &DispatchContext) -> (handled: bool)
        ensures
            handled == (old(self).my_touchpad_gesture.pinch_3f.decision != GestureState::Unknown),
            (final(self).my_touchpad_gesture == MyTouchpadGesture {
                pinch_3f: pinch_end_next(old(self).my_touchpad_gesture.pinch_3f),
                ..old(self).my_touchpad_gesture
            }),
            final(self).pending_actions@ == old(self).pending_actions@ + pinch_3f_end_emits(
                old(self).my_touchpad_gesture.pinch_3f,
                cancelled,
                *ctx,
            ),
    {
        proof {
            assert(old(self).pending_actions@ + Seq::<Action>::empty() =~= old(
                self,
            ).pending_actions@);
        }
        match self.my_touchpad_gesture.pinch_3f.decision {
            GestureState::Unknown => {
                return false;
            },
            GestureState::Deciding => {},
            GestureState::Decided => {
                let scale: u32 = self.my_touchpad_gesture.pinch_3f.scale;
                if !cancelled && !(700 <= scale && scale < 1300) {
                    match ctx.window_under_cursor {
                        Some(w) => {
                            let grow: bool = self.my_touchpad_gesture.pinch_3f.direction
                                != GestureDirection::In;
                            self.pending_actions.push(Action::ToggleWindowWidth { window: w, grow });
                            proof {
                                assert(self.pending_actions@ =~= old(self).pending_actions@
                                    + pinch_3f_end_emits(
                                    old(self).my_touchpad_gesture.pinch_3f,
                                    cancelled,
                                    *ctx,
                                ));
                            }
                        },
                        None => {},
                    }
                }
            },
        }
        self.my_touchpad_gesture.pinch_3f.reset();
        true
    }

    /// Scale sample for the four-finger pinch; pure classification,
    /// no action can fire before the gesture ends.
    pub fn pinch_4f_on_update(&mut self, scale: u32) -> (handled: bool)
        ensures
            handled == (old(self).my_touchpad_gesture.pinch_4f.decision != GestureState::Unknown),
            (final(self).my_touchpad_gesture == MyTouchpadGesture {
                pinch_4f: pinch_update_next(old(self).my_touchpad_gesture.pinch_4f, scale),
                ..old(self).my_touchpad_gesture
            }),
            final(self).pending_actions@ == old(self).pending_actions@,
    {
        self.my_touchpad_gesture.pinch_4f.update_and_maybe_decide(scale)
    }

    /// End of a four-finger pinch: dispatches the key sequence the
    /// dead-zone, cancellation and target-application rules allow,
    /// then resets an active cell unconditionally.
    pub fn pinch_4f_on_end(&mut self, cancelled: bool, ctx: &DispatchContext) -> (handled: bool)
        ensures
            handled == (old(self).my_touchpad_gesture.pinch_4f.decision != GestureState::Unknown),
            (final(self).my_touchpad_gesture == MyTouchpadGesture {
                pinch_4f: pinch_end_next(old(self).my_touchpad_gesture.pinch_4f),
                ..old(self).my_touchpad_gesture
            }),
            final(self).pending_actions@ == old(self).pending_actions@ + pinch_4f_end_emits(
                old(self).my_touchpad_gesture.pinch_4f,
                cancelled,
                *ctx,
            ),
    {
        proof {
            assert(old(self).pending_actions@ + Seq::<Action>::empty() =~= old(
                self,
            ).pending_actions@);
        }
        match self.my_touchpad_gesture.pinch_4f.decision {
            GestureState::Unknown => {
                return false;
            },
            GestureState::Deciding => {},
            GestureState::Decided => {
                let scale: u32 = self.my_touchpad_gesture.pinch_4f.scale;
                if !cancelled && !(700 <= scale && scale < 1300) && ctx.focused_is_target {
                    if self.my_touchpad_gesture.pinch_4f.direction == GestureDirection::In {
                        self.pending_actions.push(Action::SendKeys(KeyAction::Back));
                        proof {
                            assert(self.pending_actions@ =~= old(self).pending_actions@
                                + seq![Action::SendKeys(KeyAction::Back)]);
                        }
                    } else {
                        self.pending_actions.push(Action::SendKeys(KeyAction::Refresh));
                        proof {
                            assert(self.pending_actions@ =~= old(self).pending_actions@
                                + seq![Action::SendKeys(KeyAction::Refresh)]);
                        }
                    }
                }
            },
        }
        self.my_touchpad_gesture.pinch_4f.reset();
        true
    }

    /// End of a four-finger hold: dispatches the close action the
    /// duration, cancellation and target-application rules allow, then
    /// resets the committed cell.
    pub fn hold_4f_on_end(&mut self, ts: u32, cancelled: bool, ctx: &DispatchContext) -> (handled:
        bool)
        ensures
            handled == (old(self).my_touchpad_gesture.hold_4f.decision == GestureState::Decided),
            (final(self).my_touchpad_gesture == MyTouchpadGesture {
                hold_4f: hold_end_next(old(self).my_touchpad_gesture.hold_4f),
                ..old(self).my_touchpad_gesture
            }),
            final(self).pending_actions@ == old(self).pending_actions@ + hold_4f_end_emits(
                old(self).my_touchpad_gesture.hold_4f,
                ts,
                cancelled,
                *ctx,
            ),
    {
        proof {
            assert(old(self).pending_actions@ + Seq::<Action>::empty() =~= old(
                self,
            ).pending_actions@);
        }
        if self.my_touchpad_gesture.hold_4f.decision != GestureState::Decided {
            return false;
        }
        if (ts as u64) < (self.my_touchpad_gesture.hold_4f.begin_ts as u64) + 300 {
            // Held too briefly: accidental touch, no action.
        } else if cancelled {
            // Cancelled by the input stack: no action.
        } else if ctx.focused_is_target {
            self.pending_actions.push(Action::SendKeys(KeyAction::CloseTab));
            proof {
                assert(self.pending_actions@ =~= old(self).pending_actions@ + seq![
                    Action::SendKeys(KeyAction::CloseTab),
                ]);
            }
        } else {
            match ctx.window_under_cursor {
                Some(w) => {
                    self.pending_actions.push(Action::RequestClose { window: w });
                    proof {
                        assert(self.pending_actions@ =~= old(self).pending_actions@ + seq![
                            Action::RequestClose { window: w },
                        ]);
                    }
                },
                None => {},
            }
        }
        self.my_touchpad_gesture.hold_4f.reset();
        true
    }
}

/// Ending a four-finger swipe is idempotent: after any end the cell is
/// idle, and a further end changes nothing and reports nothing to do.
pub proof fn lemma_swipe_4f_end_idempotent(c: SwipeGesture)
    ensures
        swipe_end_next(c).decision == GestureState::Unknown,
        swipe_end_next(swipe_end_next(c)) == swipe_end_next(c),
{
}

/// Ending a three-finger pinch is idempotent: after any end the cell
/// is idle, and a further end changes nothing, reports nothing to do,
/// and dispatches no action — so no action can fire twice.
pub proof fn lemma_pinch_3f_end_idempotent(
    c: PinchGesture,
    cancelled: bool,
    ctx: DispatchContext,
)
    ensures
        pinch_end_next(c).decision == GestureState::Unknown,
        pinch_end_next(pinch_end_next(c)) == pinch_end_next(c),
        pinch_3f_end_emits(pinch_end_next(c), cancelled, ctx) == Seq::<Action>::empty(),
{
}

/// Ending a four-finger pinch is idempotent, in the same way.
pub proof fn lemma_pinch_4f_end_idempotent(
    c: PinchGesture,
    cancelled: bool,
    ctx: DispatchContext,
)
    ensures
        pinch_end_next(c).decision == GestureState::Unknown,
        pinch_end_next(pinch_end_next(c)) == pinch_end_next(c),
        pinch_4f_end_emits(pinch_end_next(c), cancelled, ctx) == Seq::<Action>::empty(),
{
}

/// Ending a four-finger hold is idempotent: after any end the cell is
/// no longer committed, and a further end changes nothing, reports
/// nothing to do, and dispatches no action.
pub proof fn lemma_hold_4f_end_idempotent(c: HoldGesture, ts: u32, cancelled: bool,
    ctx: DispatchContext)
    ensures
        hold_end_next(c).decision != GestureState::Decided,
        hold_end_next(hold_end_next(c)) == hold_end_next(c),
        hold_4f_end_emits(hold_end_next(c), ts, cancelled, ctx) == Seq::<Action>::empty(),
{
}

/// A three-finger pinch whose final magnitude lies inside the dead
/// zone never toggles a window's width, whatever its direction, its
/// cancellation flag or the window context.
pub proof fn lemma_pinch_3f_dead_zone_no_action(
    c: PinchGesture,
    cancelled: bool,
    ctx: DispatchContext,
)
    requires
        pinch_end_dead_zone(c.scale),
    ensures
        pinch_3f_end_emits(c, cancelled, ctx) == Seq::<Action>::empty(),
{
}

} // verus!
