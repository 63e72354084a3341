//! Actions a terminated gesture can dispatch, and the window context a
//! dispatch decision is conditioned on.
//!
//! The crate never performs an action itself: reducers append [`Action`]
//! values to the owning state's log, and the embedding event loop
//! performs each entry (best-effort, fire-and-forget).

use vstd::prelude::*;

verus! {

/// One of the five predefined key sequences the dispatcher can inject
/// into the focused application.
#[derive(PartialEq, Eq, Clone, Copy, Debug, Structural)]
pub enum KeyAction {
    CloseTab,
    PreviousTab,
    NextTab,
    Refresh,
    Back,
}

/// A terminal action of a gesture. Windows are named by the opaque
/// numeric handles under which the embedding compositor knows them.
#[derive(PartialEq, Eq, Clone, Copy, Debug, Structural)]
pub enum Action {
    /// Inject a predefined key sequence into the focused application.
    SendKeys(KeyAction),
    /// Shrink (`grow == false`) or grow the width of a window.
    ToggleWindowWidth { window: u64, grow: bool },
    /// Ask a window to close.
    RequestClose { window: u64 },
}

/// Snapshot of the window context at the moment a reducer runs, taken
/// by the caller from the compositor: whether the focused window
/// belongs to the single configured target application, and which
/// window, if any, is under the cursor.
#[derive(PartialEq, Eq, Clone, Copy, Debug, Structural)]
pub struct DispatchContext {
    pub focused_is_target: bool,
    pub window_under_cursor: Option<u64>,
}

/// The press/release tokens of a key sequence: evdev key code paired
/// with `true` for press, `false` for release.
pub open spec fn spec_key_sequence(k: KeyAction) -> Seq<(u16, bool)> {
    match k {
        // Ctrl down, W down, W up, Ctrl up
        KeyAction::CloseTab => seq![(29u16, true), (17u16, true), (17u16, false), (29u16, false)],
        // Ctrl down, Shift down, Tab down, Tab up, Shift up, Ctrl up
        KeyAction::PreviousTab => seq![
            (29u16, true),
            (42u16, true),
            (15u16, true),
            (15u16, false),
            (42u16, false),
            (29u16, false),
        ],
        // Ctrl down, Tab down, Tab up, Ctrl up
        KeyAction::NextTab => seq![(29u16, true), (15u16, true), (15u16, false), (29u16, false)],
        // Ctrl down, R down, R up, Ctrl up
        KeyAction::Refresh => seq![(29u16, true), (19u16, true), (19u16, false), (29u16, false)],
        // Back down, Back up
        KeyAction::Back => seq![(158u16, true), (158u16, false)],
    }
}

/// The fixed press/release token sequence of a key action, in injection
/// order, resolved at call time from compiled-in tables.
pub fn key_sequence(k: KeyAction) -> (r: Vec<(u16, bool)>)
    ensures
        r@ == spec_key_sequence(k),
{
    let r: Vec<(u16, bool)> = match k {
        KeyAction::CloseTab => vec![(29u16, true), (17u16, true), (17u16, false), (29u16, false)],
        KeyAction::PreviousTab => vec![
            (29u16, true),
            (42u16, true),
            (15u16, true),
            (15u16, false),
            (42u16, false),
            (29u16, false),
        ],
        KeyAction::NextTab => vec![(29u16, true), (15u16, true), (15u16, false), (29u16, false)],
        KeyAction::Refresh => vec![(29u16, true), (19u16, true), (19u16, false), (29u16, false)],
        KeyAction::Back => vec![(158u16, true), (158u16, false)],
    };
    proof {
        assert(r@ =~= spec_key_sequence(k));
    }
    r
}

} // verus!
