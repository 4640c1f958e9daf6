use moji_bridge::resident::{
    powershell_command, resident_args, resident_window_title, status_is_error, PollDecision,
    ResidentConfig, RetryPolicy,
};
use moji_bridge::text::normalize_submission;

#[test]
fn title_is_unique_per_terminal() {
    assert_eq!(resident_window_title(&ResidentConfig { terminal_hwnd: Some(170) }), "MojiBridge-170");
    assert_eq!(resident_window_title(&ResidentConfig { terminal_hwnd: None }), "MojiBridge-0");
    assert_eq!(resident_window_title(&ResidentConfig { terminal_hwnd: Some(-42) }), "MojiBridge--42");
}

#[test]
fn relaunch_arguments() {
    assert_eq!(resident_args(&None, None), vec!["--resident".to_string()]);
    assert_eq!(
        resident_args(&Some("work".to_string()), Some(1234)),
        vec!["--resident", "--label", "work", "--terminal-hwnd", "1234"]
            .into_iter()
            .map(String::from)
            .collect::<Vec<_>>()
    );
}

#[test]
fn relaunch_command_quotes_each_argument() {
    let args = resident_args(&None, Some(99));
    assert_eq!(
        powershell_command("C:\\bin\\moji.exe", &args),
        "Start-Process 'C:\\bin\\moji.exe' -ArgumentList '--resident','--terminal-hwnd','99' -WindowStyle Hidden"
    );
}

#[test]
fn status_tone_follows_error_words() {
    assert!(status_is_error("Send error: Failed to set foreground window"));
    assert!(status_is_error("Error"));
    assert!(!status_is_error("Sent"));
    assert!(!status_is_error("ERROR"));
    assert!(!status_is_error(""));
}

#[test]
fn submission_is_normalised() {
    assert_eq!(normalize_submission("a\r\nb  \r\n"), Some("a\nb".to_string()));
    assert_eq!(normalize_submission("  keep leading"), Some("  keep leading".to_string()));
    assert_eq!(normalize_submission("x\r\r\ny"), Some("x\r\ny".to_string()));
    assert_eq!(normalize_submission("end\r"), Some("end".to_string()));
    assert_eq!(normalize_submission(" \r\n\t\u{3000}"), None);
    assert_eq!(normalize_submission(""), None);
}

#[test]
fn helper_window_search_is_bounded() {
    let p = RetryPolicy::helper_window();
    assert_eq!(p.interval_ms, 100);
    assert_eq!(p.max_attempts, 50);
    assert_eq!(p.decide(0, Some(0xBB)), PollDecision::Register(0xBB));
    assert_eq!(p.decide(0, None), PollDecision::Retry(100));
    assert_eq!(p.decide(48, None), PollDecision::Retry(100));
    assert_eq!(p.decide(49, None), PollDecision::GiveUp);
    let mut attempts = 0u32;
    loop {
        match p.decide(attempts, None) {
            PollDecision::Retry(_) => attempts += 1,
            _ => break,
        }
    }
    assert_eq!(attempts + 1, 50);
}
