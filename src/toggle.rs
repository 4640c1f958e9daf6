//! The bidirectional focus toggle: which window a trigger chord activates,
//! given the foreground window and the two registered target handles.

use std::sync::atomic::{AtomicIsize, Ordering};
use vstd::prelude::*;

verus! {

/// Message identifier of a key-down event in the low-level keyboard stream.
pub const WM_KEYDOWN: u32 = 0x0100;

/// Virtual key code of the trigger key (`I`).
pub const VK_TRIGGER: u32 = 0x49;

/// A handle value of `0` means that the target is not registered (yet).
pub const UNSET_HWND: isize = 0;

/// The two toggle targets as read at one moment.
#[derive(Clone, Copy, Debug, PartialEq, Eq, Structural)]
pub struct ToggleTargets {
    /// The terminal window, `UNSET_HWND` while unknown.
    pub terminal_hwnd: isize,
    /// The helper window, `UNSET_HWND` until its window exists.
    pub helper_hwnd: isize,
}

/// What the interceptor does with a key event.
#[derive(Clone, Copy, Debug, PartialEq, Eq, Structural)]
pub enum HookDecision {
    /// Hand the event on to the next interceptor untouched.
    Forward,
    /// Activate the given window and consume the event.
    Activate(isize),
}

/// The toggle rule. Only when one of the two registered windows is in the
/// foreground does the chord act; any other context passes it through.
pub open spec fn toggle_decision(
    chord_down: bool,
    foreground: isize,
    targets: ToggleTargets,
) -> HookDecision {
    if !chord_down || targets.terminal_hwnd == UNSET_HWND {
        HookDecision::Forward
    } else if foreground == targets.terminal_hwnd {
        if targets.helper_hwnd != UNSET_HWND {
            HookDecision::Activate(targets.helper_hwnd)
        } else {
            HookDecision::Forward
        }
    } else if targets.helper_hwnd != UNSET_HWND && foreground == targets.helper_hwnd {
        HookDecision::Activate(targets.terminal_hwnd)
    } else {
        HookDecision::Forward
    }
}

/// Whether a raw low-level keyboard event is a key-down of the trigger key
/// (a negative `code` means the event must be passed on unexamined).
pub fn is_toggle_key(code: i32, message: u32, vk_code: u32) -> (r: bool)
    ensures
        r == (code >= 0 && message == WM_KEYDOWN && vk_code == VK_TRIGGER),
{
    code >= 0 && message == WM_KEYDOWN && vk_code == VK_TRIGGER
}

/// Decide what a trigger-key event does. `ctrl_state` is the instantaneous
/// state of the control modifier as the platform reports it: the key is
/// held exactly when the most significant bit is set, i.e. the value is
/// negative.
pub fn decide_toggle(ctrl_state: i16, foreground: isize, targets: ToggleTargets) -> (r:
    HookDecision)
    ensures
        r == toggle_decision(ctrl_state < 0, foreground, targets),
{
    if ctrl_state >= 0 || targets.terminal_hwnd == UNSET_HWND {
        HookDecision::Forward
    } else if foreground == targets.terminal_hwnd {
        if targets.helper_hwnd != UNSET_HWND {
            HookDecision::Activate(targets.helper_hwnd)
        } else {
            HookDecision::Forward
        }
    } else if targets.helper_hwnd != UNSET_HWND && foreground == targets.helper_hwnd {
        HookDecision::Activate(targets.terminal_hwnd)
    } else {
        HookDecision::Forward
    }
}

/// With both targets registered and distinct, the chord swaps focus between
/// them: from the terminal it activates the helper, from the helper it
/// activates the terminal (one activation each, the event consumed), and
/// with any third window in front it activates nothing and is forwarded.
pub proof fn lemma_toggle_between_pair(terminal: isize, helper: isize, other: isize)
    requires
        terminal != UNSET_HWND,
        helper != UNSET_HWND,
        terminal != helper,
        other != terminal,
        other != helper,
    ensures
        toggle_decision(true, terminal, ToggleTargets { terminal_hwnd: terminal, helper_hwnd: helper })
            == HookDecision::Activate(helper),
        toggle_decision(true, helper, ToggleTargets { terminal_hwnd: terminal, helper_hwnd: helper })
            == HookDecision::Activate(terminal),
        toggle_decision(true, other, ToggleTargets { terminal_hwnd: terminal, helper_hwnd: helper })
            == HookDecision::Forward,
{
}

/// While the terminal target is unset, every chord is forwarded, whatever
/// window is in front and whatever the helper target holds.
pub proof fn lemma_unset_terminal_forwards(foreground: isize, helper: isize)
    ensures
        toggle_decision(true, foreground, ToggleTargets { terminal_hwnd: UNSET_HWND, helper_hwnd: helper })
            == HookDecision::Forward,
{
}

/// Process-wide slots for the two targets, shared between the thread that
/// registers windows and the interceptor's thread. Each slot is an
/// independent atomic word; no lock couples them.
///
/// Another thread may store into a slot at any moment, so nothing is
/// promised about the value a read returns beyond its being one that was
/// stored (or the initial `UNSET_HWND`).
pub struct TargetSlots {
    terminal: AtomicIsize,
    helper: AtomicIsize,
}

impl TargetSlots {
    /// Both slots start unset.
    pub fn new() -> (r: TargetSlots) {
        TargetSlots { terminal: AtomicIsize::new(UNSET_HWND), helper: AtomicIsize::new(UNSET_HWND) }
    }

    /// Register the terminal window.
    pub fn set_terminal_hwnd(&self, hwnd: isize) {
        self.terminal.store(hwnd, Ordering::SeqCst);
    }

    /// Register the helper's own window.
    pub fn set_own_moji_hwnd(&self, hwnd: isize) {
        self.helper.store(hwnd, Ordering::SeqCst);
    }

    /// The terminal window currently registered.
    pub fn get_terminal_hwnd(&self) -> isize {
        self.terminal.load(Ordering::SeqCst)
    }

    /// The helper window currently registered.
    pub fn get_own_moji_hwnd(&self) -> isize {
        self.helper.load(Ordering::SeqCst)
    }

    /// Read both slots, one after the other.
    pub fn snapshot(&self) -> (r: ToggleTargets) {
        let terminal_hwnd = self.terminal.load(Ordering::SeqCst);
        let helper_hwnd = self.helper.load(Ordering::SeqCst);
        ToggleTargets { terminal_hwnd, helper_hwnd }
    }
}

} // verus!
