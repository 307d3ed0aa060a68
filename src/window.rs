use vstd::prelude::*;

verus! {

/// What the toggle does to the window.
#[derive(Clone, Copy, Debug, PartialEq, Eq, Structural)]
pub enum WindowAction {
    /// Show it, un-minimize it and give it focus (each step best-effort).
    Show,
    /// Hide it.
    Hide,
}

/// The two-state view of the window: shown means visible and not minimized.
pub open spec fn is_shown(minimized: bool, visible: bool) -> bool {
    visible && !minimized
}

/// The toggle's decision on the answers of the window queries; a failed
/// query (`None`) counts as "not minimized" and "visible".
pub open spec fn toggle_decision(minimized: Option<bool>, visible: Option<bool>) -> WindowAction {
    let m = match minimized {
        Some(b) => b,
        None => false,
    };
    let v = match visible {
        Some(b) => b,
        None => true,
    };
    if is_shown(m, v) {
        WindowAction::Hide
    } else {
        WindowAction::Show
    }
}

/// Whether the window is shown once the action has fully taken effect.
pub open spec fn shown_after(a: WindowAction) -> bool {
    a == WindowAction::Show
}

/// Decide the toggle: a window that is minimized or hidden is brought back
/// (shown, un-minimized, focused); a shown one is hidden.
pub fn toggle_action(minimized: Option<bool>, visible: Option<bool>) -> (r: WindowAction)
    ensures
        r == toggle_decision(minimized, visible),
        minimized == Some(true) ==> r == WindowAction::Show,
        visible == Some(false) ==> r == WindowAction::Show,
        (minimized == Some(false) && visible == Some(true)) ==> r == WindowAction::Hide,
{
    let m = match minimized {
        Some(b) => b,
        None => false,
    };
    let v = match visible {
        Some(b) => b,
        None => true,
    };
    if m || !v {
        WindowAction::Show
    } else {
        WindowAction::Hide
    }
}

} // verus!
