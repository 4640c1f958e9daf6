use moji_bridge::process::{
    find_terminal_in, find_terminal_pid, init_terminal_tracking, is_terminal_process_name,
    names_match, ProcessNode, TerminalTracking,
};

fn node(pid: u32, parent: Option<u32>, name: &str) -> ProcessNode {
    ProcessNode { pid, parent_pid: parent, executable_name: name.to_string() }
}

/// A chain 100 -> 101 -> ... where process `100 + k` has parent `101 + k`.
fn chain(len: u32, terminal_at: Option<u32>) -> Vec<ProcessNode> {
    (0..len)
        .map(|k| {
            let name = if Some(k) == terminal_at { "cmd.exe" } else { "node.exe" };
            node(100 + k, Some(101 + k), name)
        })
        .collect()
}

#[test]
fn finds_terminal_within_bound() {
    for k in 0..10 {
        assert_eq!(find_terminal_in(&chain(20, Some(k)), 100), Some(100 + k));
    }
}

#[test]
fn terminal_beyond_bound_is_not_found() {
    assert_eq!(find_terminal_in(&chain(20, Some(10)), 100), None);
    assert_eq!(find_terminal_in(&chain(20, Some(15)), 100), None);
}

#[test]
fn nearest_terminal_wins() {
    let mut nodes = chain(20, Some(3));
    nodes[1].executable_name = "pwsh.exe".to_string();
    assert_eq!(find_terminal_in(&nodes, 100), Some(101));
}

#[test]
fn cycle_returns_none() {
    let nodes = vec![
        node(1, Some(2), "a.exe"),
        node(2, Some(3), "b.exe"),
        node(3, Some(1), "c.exe"),
    ];
    assert_eq!(find_terminal_in(&nodes, 1), None);
    let self_loop = vec![node(7, Some(7), "bash")];
    assert_eq!(find_terminal_in(&self_loop, 7), None);
}

#[test]
fn missing_parent_link_returns_none() {
    let nodes = vec![node(1, Some(2), "a.exe"), node(2, Some(99), "b.exe")];
    assert_eq!(find_terminal_in(&nodes, 1), None);
    let rootless = vec![node(1, None, "a.exe")];
    assert_eq!(find_terminal_in(&rootless, 1), None);
    assert_eq!(find_terminal_in(&Vec::new(), 1), None);
}

#[test]
fn names_compare_ignoring_ascii_case() {
    assert!(names_match("PowerShell.EXE", "powershell.exe"));
    assert!(!names_match("powershell.ex", "powershell.exe"));
    assert!(is_terminal_process_name("windowsterminal.exe"));
    assert!(is_terminal_process_name("WEZTERM-GUI.EXE"));
    assert!(!is_terminal_process_name("explorer.exe"));
    let nodes = vec![node(5, Some(6), "x"), node(6, Some(0), "ALACRITTY.exe")];
    assert_eq!(find_terminal_in(&nodes, 5), Some(6));
}

#[test]
fn later_snapshot_entry_for_a_pid_wins() {
    let nodes = vec![node(1, None, "cmd.exe"), node(1, Some(2), "a.exe"), node(2, None, "mintty.exe")];
    assert_eq!(find_terminal_in(&nodes, 1), Some(2));
}

#[test]
fn tracking_keeps_the_first_pid() {
    let mut t = TerminalTracking::new();
    assert_eq!(t.get_terminal_pid(), None);
    t.record(None);
    assert_eq!(t.get_terminal_pid(), None);
    t.record(Some(4321));
    t.record(Some(99));
    assert_eq!(t.get_terminal_pid(), Some(4321));
}

#[test]
fn live_search_completes() {
    let found = find_terminal_pid();
    let mut t = TerminalTracking::new();
    init_terminal_tracking(&mut t);
    assert!(found.is_none() || t.get_terminal_pid().is_some());
}
