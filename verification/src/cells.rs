//! Gesture state cells and the pure direction/scale classifier.
//!
//! One cell exists per gesture kind and finger count. A cell accumulates
//! evidence (summed swipe deltas, the last pinch scale sample, a hold
//! begin timestamp) and owns the decision phase of the gesture:
//! `Unknown` (idle) to `Deciding` (evidence accumulating) to `Decided`
//! (classification committed, irreversible until reset).

use vstd::prelude::*;

verus! {

/// Decision phase of a gesture cell. The phase moves linearly:
/// `Unknown` to `Deciding` on begin, `Deciding` to `Decided` when the
/// commit threshold is crossed, and back to `Unknown` on end or reset.
/// A hold gesture skips `Deciding` and commits at begin.
#[derive(PartialEq, Eq, Clone, Copy, Debug, Structural)]
pub enum GestureState {
    Unknown,
    Deciding,
    Decided,
}

/// Committed classification of a gesture. Swipes commit to `Horizontal`
/// or `Vertical` only; pinches commit to `In` or `Out` only. The finer
/// variants are reserved extension points. `Unknown` means "not yet
/// classified".
#[derive(PartialEq, Eq, Clone, Copy, Debug, Structural)]
pub enum GestureDirection {
    Up,
    Down,
    Left,
    Right,
    Horizontal,
    Vertical,
    In,
    Out,
    Unknown,
}

/// Swipe cell: accumulated displacement in whole touchpad units, the
/// committed direction, and the decision phase.
///
/// `(cx, cy)` serve two purposes in turn: while `Deciding` they hold the
/// displacement the classifier judges; once `Decided`, the four-finger
/// live dispatcher reuses `cx` as an independent re-arming accumulator.
/// This reuse is deliberate; both uses share the reset-at-threshold
/// semantics.
#[derive(PartialEq, Eq, Clone, Copy, Debug, Structural)]
pub struct SwipeGesture {
    pub cx: i64,
    pub cy: i64,
    pub direction: GestureDirection,
    pub decision: GestureState,
}

/// Pinch cell: the last scale sample seen after commit (fixed-point,
/// a factor of one is `1000`; zero until a post-commit sample arrives),
/// the committed direction, and the decision phase.
#[derive(PartialEq, Eq, Clone, Copy, Debug, Structural)]
pub struct PinchGesture {
    pub scale: u32,
    pub direction: GestureDirection,
    pub decision: GestureState,
}

/// Hold cell: the monotonic millisecond timestamp at which the hold
/// began, and the decision phase. Holds decide immediately at begin;
/// only duration and cancellation are judged at end.
#[derive(PartialEq, Eq, Clone, Copy, Debug, Structural)]
pub struct HoldGesture {
    pub begin_ts: u32,
    pub decision: GestureState,
}

/// Addition on `i64` values clamped to the representable range, the
/// saturation model used for every displacement accumulator.
pub open spec fn sat_add(a: int, b: int) -> int {
    if a + b > i64::MAX as int {
        i64::MAX as int
    } else if a + b < i64::MIN as int {
        i64::MIN as int
    } else {
        a + b
    }
}

/// A swipe commits once its accumulated squared displacement reaches
/// 256, i.e. a Euclidean displacement of 16 units.
pub open spec fn swipe_committed(cx: int, cy: int) -> bool {
    cx * cx + cy * cy >= 256
}

/// Tie-break at commit: strictly more horizontal than vertical motion
/// classifies as `Horizontal`; everything else, equal magnitudes
/// included, classifies as `Vertical`.
pub open spec fn swipe_direction_of(cx: int, cy: int) -> GestureDirection {
    if vstd::math::abs(cx) > vstd::math::abs(cy) {
        GestureDirection::Horizontal
    } else {
        GestureDirection::Vertical
    }
}

/// What the swipe classifier answers for an accumulated displacement:
/// `None` while the evidence is below the commit threshold, otherwise
/// the committed direction.
pub open spec fn spec_decide(cx: int, cy: int) -> Option<GestureDirection> {
    if swipe_committed(cx, cy) {
        Some(swipe_direction_of(cx, cy))
    } else {
        None
    }
}

/// The idle swipe cell: zero displacement, nothing classified.
pub open spec fn swipe_initial() -> SwipeGesture {
    SwipeGesture {
        cx: 0,
        cy: 0,
        direction: GestureDirection::Unknown,
        decision: GestureState::Unknown,
    }
}

/// The idle pinch cell: no scale sample, nothing classified.
pub open spec fn pinch_initial() -> PinchGesture {
    PinchGesture { scale: 0, direction: GestureDirection::Unknown, decision: GestureState::Unknown }
}

/// The idle hold cell.
pub open spec fn hold_initial() -> HoldGesture {
    HoldGesture { begin_ts: 0, decision: GestureState::Unknown }
}

/// The swipe cell after one classification update: deltas are added to
/// the accumulators (saturating), and the cell commits on the exact
/// update whose accumulated squared displacement reaches the threshold.
/// A cell that is not `Deciding` ignores the sample.
pub open spec fn swipe_update_next(c: SwipeGesture, dx: i64, dy: i64) -> SwipeGesture {
    if c.decision != GestureState::Deciding {
        c
    } else {
        let ncx = sat_add(c.cx as int, dx as int);
        let ncy = sat_add(c.cy as int, dy as int);
        if swipe_committed(ncx, ncy) {
            SwipeGesture {
                cx: ncx as i64,
                cy: ncy as i64,
                direction: swipe_direction_of(ncx, ncy),
                decision: GestureState::Decided,
            }
        } else {
            SwipeGesture { cx: ncx as i64, cy: ncy as i64, ..c }
        }
    }
}

/// What one swipe classification update reports: the direction exactly
/// once, on the committing update, and `None` otherwise.
pub open spec fn swipe_update_result(c: SwipeGesture, dx: i64, dy: i64) -> Option<
    GestureDirection,
> {
    if c.decision != GestureState::Deciding {
        None
    } else {
        spec_decide(sat_add(c.cx as int, dx as int), sat_add(c.cy as int, dy as int))
    }
}

/// The pinch cell after one scale sample. While `Deciding`, a sample
/// below 0.9 commits `In` and one above 1.1 commits `Out`; the dead
/// zone between them leaves the cell unchanged, waiting for more data.
/// Once `Decided`, samples only refresh `scale`, so the terminal
/// handler sees the final magnitude, not the one at commit time. An
/// idle cell ignores the sample.
pub open spec fn pinch_update_next(c: PinchGesture, scale: u32) -> PinchGesture {
    match c.decision {
        GestureState::Unknown => c,
        GestureState::Deciding => if scale < 900 {
            PinchGesture { direction: GestureDirection::In, decision: GestureState::Decided, ..c }
        } else if scale > 1100 {
            PinchGesture { direction: GestureDirection::Out, decision: GestureState::Decided, ..c }
        } else {
            c
        },
        GestureState::Decided => PinchGesture { scale, ..c },
    }
}

/// Saturating addition on `i64`, the accumulator arithmetic.
pub fn sat_add_i64(a: i64, b: i64) -> (r: i64)
    ensures
        r as int == sat_add(a as int, b as int),
{
    match a.checked_add(b) {
        Some(s) => s,
        None => if b >= 0 {
            i64::MAX
        } else {
            i64::MIN
        },
    }
}

/// Tie-break half of the classifier: the committed direction for an
/// accumulated displacement.
pub fn direction_of(cx: i64, cy: i64) -> (r: GestureDirection)
    ensures
        r == swipe_direction_of(cx as int, cy as int),
{
    let ax: i128 = if cx < 0 {
        -(cx as i128)
    } else {
        cx as i128
    };
    let ay: i128 = if cy < 0 {
        -(cy as i128)
    } else {
        cy as i128
    };
    if ax > ay {
        GestureDirection::Horizontal
    } else {
        GestureDirection::Vertical
    }
}

/// The swipe classifier: decides whether an accumulated displacement is
/// enough evidence to commit, and to what direction.
pub fn decide(cx: i64, cy: i64) -> (r: Option<GestureDirection>)
    ensures
        r == spec_decide(cx as int, cy as int),
{
    if cx >= 16 || cx <= -16 || cy >= 16 || cy <= -16 {
        proof {
            assert(swipe_committed(cx as int, cy as int)) by (nonlinear_arith)
                requires
                    cx as int >= 16 || cx as int <= -16 || cy as int >= 16 || cy as int <= -16,
            ;
        }
        Some(direction_of(cx, cy))
    } else {
        proof {
            assert(-16 * 16 <= (cx as int) * (cx as int) <= 16 * 16 && -16 * 16 <= (cy as int) * (
            cy as int) <= 16 * 16) by (nonlinear_arith)
                requires
                    -16 <= cx as int <= 16,
                    -16 <= cy as int <= 16,
            ;
        }
        let sq: i64 = cx * cx + cy * cy;
        if sq >= 256 {
            Some(direction_of(cx, cy))
        } else {
            None
        }
    }
}

impl SwipeGesture {
    /// A fresh, idle swipe cell.
    pub fn new() -> (r: Self)
        ensures
            r == swipe_initial(),
    {
        Self {
            cx: 0,
            cy: 0,
            direction: GestureDirection::Unknown,
            decision: GestureState::Unknown,
        }
    }

    /// Return the cell to idle, clearing all accumulated evidence.
    pub fn reset(&mut self)
        ensures
            *final(self) == swipe_initial(),
    {
        self.cx = 0;
        self.cy = 0;
        self.direction = GestureDirection::Unknown;
        self.decision = GestureState::Unknown;
    }

    /// Start tracking a swipe: accumulators cleared, phase `Deciding`.
    pub fn begin(&mut self)
        ensures
            *final(self) == (SwipeGesture {
                cx: 0,
                cy: 0,
                direction: GestureDirection::Unknown,
                decision: GestureState::Deciding,
            }),
    {
        self.cx = 0;
        self.cy = 0;
        self.direction = GestureDirection::Unknown;
        self.decision = GestureState::Deciding;
    }

    /// Feed one pair of raw deltas to the classifier. Returns the
    /// committed direction exactly once, on the update that crosses the
    /// commit threshold; `None` while undecided (keep feeding updates)
    /// and `None` ever after commit.
    pub fn update_and_maybe_decide(&mut self, delta_x: i64, delta_y: i64) -> (r: Option<
        GestureDirection,
    >)
        ensures
            *final(self) == swipe_update_next(*old(self), delta_x, delta_y),
            r == swipe_update_result(*old(self), delta_x, delta_y),
    {
        if self.decision != GestureState::Deciding {
            return None;
        }
        self.cx = sat_add_i64(self.cx, delta_x);
        self.cy = sat_add_i64(self.cy, delta_y);
        match decide(self.cx, self.cy) {
            Some(d) => {
                self.direction = d;
                self.decision = GestureState::Decided;
                Some(d)
            },
            None => None,
        }
    }
}

impl PinchGesture {
    /// A fresh, idle pinch cell.
    pub fn new() -> (r: Self)
        ensures
            r == pinch_initial(),
    {
        Self { scale: 0, direction: GestureDirection::Unknown, decision: GestureState::Unknown }
    }

    /// Return the cell to idle, clearing all accumulated evidence.
    pub fn reset(&mut self)
        ensures
            *final(self) == pinch_initial(),
    {
        self.scale = 0;
        self.direction = GestureDirection::Unknown;
        self.decision = GestureState::Unknown;
    }

    /// Start tracking a pinch: sample cleared, phase `Deciding`.
    pub fn begin(&mut self)
        ensures
            *final(self) == (PinchGesture {
                scale: 0,
                direction: GestureDirection::Unknown,
                decision: GestureState::Deciding,
            }),
    {
        self.scale = 0;
        self.direction = GestureDirection::Unknown;
        self.decision = GestureState::Deciding;
    }

    /// Feed one scale sample. Commits `In` below 0.9 and `Out` above
    /// 1.1 while `Deciding`; in the dead zone the cell stays `Deciding`
    /// and asks for more data. After commit the sample only refreshes
    /// the stored magnitude. Reports whether the cell consumed the
    /// sample, which it does whenever a gesture has begun.
    pub fn update_and_maybe_decide(&mut self, scale: u32) -> (handled: bool)
        ensures
            *final(self) == pinch_update_next(*old(self), scale),
            handled == (old(self).decision != GestureState::Unknown),
    {
        match self.decision {
            GestureState::Unknown => false,
            GestureState::Deciding => {
                if scale < 900 {
                    self.direction = GestureDirection::In;
                    self.decision = GestureState::Decided;
                } else if scale > 1100 {
                    self.direction = GestureDirection::Out;
                    self.decision = GestureState::Decided;
                }
                true
            },
            GestureState::Decided => {
                self.scale = scale;
                true
            },
        }
    }
}

impl HoldGesture {
    /// A fresh, idle hold cell.
    pub fn new() -> (r: Self)
        ensures
            r == hold_initial(),
    {
        Self { begin_ts: 0, decision: GestureState::Unknown }
    }

    /// Return the cell to idle.
    pub fn reset(&mut self)
        ensures
            *final(self) == hold_initial(),
    {
        self.begin_ts = 0;
        self.decision = GestureState::Unknown;
    }

    /// Start a hold: the begin timestamp is recorded and the cell
    /// commits immediately; only duration and cancellation remain to be
    /// judged at end.
    pub fn begin(&mut self, ts: u32)
        ensures
            *final(self) == (HoldGesture { begin_ts: ts, decision: GestureState::Decided }),
    {
        self.begin_ts = ts;
        self.decision = GestureState::Decided;
    }
}

/// Commit is exact: while `Deciding`, an update whose accumulated
/// squared displacement stays below the threshold never commits and
/// leaves the cell `Deciding`; the update that reaches it commits on
/// that exact update; and once the cell is out of `Deciding`, updates
/// never change it, so a commit is never reported a second time.
pub proof fn lemma_swipe_commit_exact(c: SwipeGesture, dx: i64, dy: i64)
    ensures
        c.decision == GestureState::Deciding && !swipe_committed(
            sat_add(c.cx as int, dx as int),
            sat_add(c.cy as int, dy as int),
        ) ==> swipe_update_result(c, dx, dy) is None && swipe_update_next(c, dx, dy).decision
            == GestureState::Deciding,
        c.decision == GestureState::Deciding && swipe_committed(
            sat_add(c.cx as int, dx as int),
            sat_add(c.cy as int, dy as int),
        ) ==> swipe_update_result(c, dx, dy) == Some(
            swipe_direction_of(sat_add(c.cx as int, dx as int), sat_add(c.cy as int, dy as int)),
        ) && swipe_update_next(c, dx, dy).decision == GestureState::Decided,
        c.decision != GestureState::Deciding ==> swipe_update_result(c, dx, dy) is None
            && swipe_update_next(c, dx, dy) == c,
{
}

/// A dead-zone sample never moves a deciding pinch cell: for any scale
/// between the two commit thresholds the cell is left exactly as it
/// was, still `Deciding`, however often such samples repeat.
pub proof fn lemma_pinch_dead_zone_keeps_deciding(c: PinchGesture, scale: u32)
    requires
        c.decision == GestureState::Deciding,
        900 <= scale <= 1100,
    ensures
        pinch_update_next(c, scale) == c,
{
}

} // verus!
