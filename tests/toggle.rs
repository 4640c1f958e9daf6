use moji_bridge::toggle::{
    decide_toggle, is_toggle_key, HookDecision, TargetSlots, ToggleTargets, UNSET_HWND, VK_TRIGGER,
    WM_KEYDOWN,
};

const CTRL_DOWN: i16 = -32768;
const CTRL_UP: i16 = 0;

fn pair(terminal: isize, helper: isize) -> ToggleTargets {
    ToggleTargets { terminal_hwnd: terminal, helper_hwnd: helper }
}

#[test]
fn toggles_between_registered_pair() {
    let t = pair(0xAA, 0xBB);
    assert_eq!(decide_toggle(CTRL_DOWN, 0xAA, t), HookDecision::Activate(0xBB));
    assert_eq!(decide_toggle(CTRL_DOWN, 0xBB, t), HookDecision::Activate(0xAA));
    assert_eq!(decide_toggle(CTRL_DOWN, 0xCC, t), HookDecision::Forward);
    assert_eq!(decide_toggle(CTRL_DOWN, 0, t), HookDecision::Forward);
}

#[test]
fn unset_terminal_forwards_everything() {
    for fg in [0, 0xAA, 0xBB, -5] {
        assert_eq!(decide_toggle(CTRL_DOWN, fg, pair(UNSET_HWND, 0xBB)), HookDecision::Forward);
        assert_eq!(decide_toggle(CTRL_DOWN, fg, pair(UNSET_HWND, UNSET_HWND)), HookDecision::Forward);
    }
}

#[test]
fn unset_helper_forwards_from_terminal() {
    assert_eq!(decide_toggle(CTRL_DOWN, 0xAA, pair(0xAA, UNSET_HWND)), HookDecision::Forward);
}

#[test]
fn modifier_released_forwards() {
    assert_eq!(decide_toggle(CTRL_UP, 0xAA, pair(0xAA, 0xBB)), HookDecision::Forward);
    assert_eq!(decide_toggle(1, 0xBB, pair(0xAA, 0xBB)), HookDecision::Forward);
}

#[test]
fn recognises_trigger_key_down() {
    assert!(is_toggle_key(0, WM_KEYDOWN, VK_TRIGGER));
    assert!(!is_toggle_key(-1, WM_KEYDOWN, VK_TRIGGER));
    assert!(!is_toggle_key(0, 0x0101, VK_TRIGGER));
    assert!(!is_toggle_key(0, WM_KEYDOWN, 0x4A));
}

#[test]
fn slots_start_unset_and_keep_stores() {
    let slots = TargetSlots::new();
    assert_eq!(slots.get_terminal_hwnd(), UNSET_HWND);
    assert_eq!(slots.snapshot(), pair(UNSET_HWND, UNSET_HWND));
    slots.set_terminal_hwnd(0xAA);
    slots.set_own_moji_hwnd(0xBB);
    assert_eq!(slots.get_terminal_hwnd(), 0xAA);
    assert_eq!(slots.get_own_moji_hwnd(), 0xBB);
    slots.set_own_moji_hwnd(0xCC);
    assert_eq!(slots.snapshot(), pair(0xAA, 0xCC));
}
