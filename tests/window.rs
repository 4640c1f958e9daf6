use moji_bridge::window::{get_foreground_window, get_window_by_pid, get_window_title, WindowOwner};

fn owners() -> Vec<WindowOwner> {
    vec![
        WindowOwner { hwnd: 0x10, pid: 7 },
        WindowOwner { hwnd: 0xAA, pid: 4321 },
        WindowOwner { hwnd: 0xAB, pid: 4321 },
    ]
}

#[test]
fn first_owned_window_wins() {
    assert_eq!(get_window_by_pid(&owners(), 4321), Some(0xAA));
    assert_eq!(get_window_by_pid(&owners(), 7), Some(0x10));
}

#[test]
fn unowned_pid_is_absent_every_time() {
    for _ in 0..100 {
        assert_eq!(get_window_by_pid(&owners(), 99), None);
    }
    assert_eq!(get_window_by_pid(&Vec::new(), 99), None);
}

#[test]
fn null_foreground_is_absent() {
    assert_eq!(get_foreground_window(0), None);
    assert_eq!(get_foreground_window(0xAA), Some(0xAA));
}

#[test]
fn title_decodes_reported_units() {
    let mut buffer = [0u16; 256];
    for (i, u) in "Windows PowerShell".encode_utf16().enumerate() {
        buffer[i] = u;
    }
    assert_eq!(get_window_title(&buffer, 18), "Windows PowerShell");
    assert_eq!(get_window_title(&buffer, 7), "Windows");
    assert_eq!(get_window_title(&buffer, 0), "");
}

#[test]
fn title_replaces_invalid_units() {
    let buffer = [0x48u16, 0xD800, 0x69];
    assert_eq!(get_window_title(&buffer, 3), "H\u{FFFD}i");
}
