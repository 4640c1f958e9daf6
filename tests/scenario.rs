use moji_bridge::delivery::{Delivery, DeliveryAction, DeliveryMode, StepOutcome};
use moji_bridge::process::{find_terminal_in, ProcessNode, TerminalTracking};
use moji_bridge::toggle::{decide_toggle, HookDecision, TargetSlots};
use moji_bridge::window::{get_window_by_pid, WindowOwner};

#[test]
fn end_to_end_toggle_from_terminal_to_helper() {
    let snapshot = vec![
        ProcessNode { pid: 9000, parent_pid: Some(8000), executable_name: "moji-bridge.exe".to_string() },
        ProcessNode { pid: 8000, parent_pid: Some(4321), executable_name: "node.exe".to_string() },
        ProcessNode { pid: 4321, parent_pid: Some(1), executable_name: "powershell.exe".to_string() },
        ProcessNode { pid: 1, parent_pid: None, executable_name: "explorer.exe".to_string() },
    ];
    let terminal_pid = find_terminal_in(&snapshot, 9000);
    assert_eq!(terminal_pid, Some(4321));
    let mut tracking = TerminalTracking::new();
    tracking.record(terminal_pid);

    let windows = vec![
        WindowOwner { hwnd: 0x77, pid: 1 },
        WindowOwner { hwnd: 0xAA, pid: 4321 },
        WindowOwner { hwnd: 0xBB, pid: 9000 },
    ];
    let terminal_hwnd = get_window_by_pid(&windows, tracking.get_terminal_pid().unwrap());
    assert_eq!(terminal_hwnd, Some(0xAA));

    let slots = TargetSlots::new();
    slots.set_terminal_hwnd(terminal_hwnd.unwrap());
    slots.set_own_moji_hwnd(0xBB);

    let decision = decide_toggle(i16::MIN, 0xAA, slots.snapshot());
    assert_eq!(decision, HookDecision::Activate(0xBB));

    let mut delivery = Delivery::start(DeliveryMode::Paste, None, tracking.get_terminal_pid());
    assert_eq!(delivery.next_action(), Some(DeliveryAction::FindWindow(4321)));
    delivery.advance(StepOutcome::Window(get_window_by_pid(&windows, 4321)));
    assert_eq!(delivery.next_action(), Some(DeliveryAction::Activate(0xAA)));
}
