use moji_bridge::delivery::{
    Delivery, DeliveryAction, DeliveryMode, InputKey, StepOutcome, ACTIVATION_SETTLE_MS,
    PASTE_SETTLE_MS, TYPED_SETTLE_MS,
};

/// Run a delivery, answering each action with `answer`, and return the
/// actions asked for and the result.
fn run(
    mut d: Delivery,
    mut answer: impl FnMut(&DeliveryAction) -> StepOutcome,
) -> (Vec<DeliveryAction>, Result<(), String>) {
    let mut actions = Vec::new();
    while let Some(a) = d.next_action() {
        actions.push(a);
        let o = answer(&a);
        d.advance(o);
    }
    assert!(d.is_finished());
    (actions, d.into_result().unwrap())
}

#[test]
fn paste_runs_in_strict_order() {
    let d = Delivery::start(DeliveryMode::Paste, Some(0xAA), None);
    let (actions, result) = run(d, |_| StepOutcome::Done);
    assert_eq!(
        actions,
        vec![
            DeliveryAction::Activate(0xAA),
            DeliveryAction::Sleep(ACTIVATION_SETTLE_MS),
            DeliveryAction::OpenInput,
            DeliveryAction::Press(InputKey::Control),
            DeliveryAction::Click(InputKey::V),
            DeliveryAction::Release(InputKey::Control),
            DeliveryAction::Sleep(PASTE_SETTLE_MS),
            DeliveryAction::Click(InputKey::Return),
        ]
    );
    assert_eq!(ACTIVATION_SETTLE_MS, 150);
    assert_eq!(PASTE_SETTLE_MS, 100);
    assert_eq!(result, Ok(()));
}

#[test]
fn trigger_types_prefix_then_submits() {
    let d = Delivery::start(DeliveryMode::Trigger, Some(0x42), Some(1));
    let (actions, result) = run(d, |_| StepOutcome::Done);
    assert_eq!(
        actions,
        vec![
            DeliveryAction::Activate(0x42),
            DeliveryAction::Sleep(150),
            DeliveryAction::OpenInput,
            DeliveryAction::TypeTrigger,
            DeliveryAction::Sleep(TYPED_SETTLE_MS),
            DeliveryAction::Click(InputKey::Return),
        ]
    );
    assert_eq!(TYPED_SETTLE_MS, 50);
    assert_eq!(result, Ok(()));
}

#[test]
fn activation_failure_aborts_before_keystrokes() {
    let d = Delivery::start(DeliveryMode::Paste, Some(0xAA), None);
    let (actions, result) = run(d, |a| match a {
        DeliveryAction::Activate(_) => StepOutcome::Failed("denied".to_string()),
        _ => StepOutcome::Done,
    });
    assert_eq!(actions, vec![DeliveryAction::Activate(0xAA)]);
    assert_eq!(result, Err("Failed to set foreground window".to_string()));
}

#[test]
fn terminal_window_is_looked_up_without_override() {
    let d = Delivery::start(DeliveryMode::Paste, None, Some(4321));
    let (actions, result) = run(d, |a| match a {
        DeliveryAction::FindWindow(4321) => StepOutcome::Window(Some(0xAA)),
        _ => StepOutcome::Done,
    });
    assert_eq!(actions[0], DeliveryAction::FindWindow(4321));
    assert_eq!(actions[1], DeliveryAction::Activate(0xAA));
    assert_eq!(actions.len(), 9);
    assert_eq!(result, Ok(()));
}

#[test]
fn missing_terminal_window_is_an_error() {
    let d = Delivery::start(DeliveryMode::Paste, None, Some(4321));
    let (actions, result) = run(d, |_| StepOutcome::Window(None));
    assert_eq!(actions, vec![DeliveryAction::FindWindow(4321)]);
    assert_eq!(result, Err("Could not find window for terminal PID 4321".to_string()));
}

#[test]
fn untracked_terminal_fails_at_once() {
    let d = Delivery::start(DeliveryMode::Paste, None, None);
    let (actions, result) = run(d, |_| StepOutcome::Done);
    assert!(actions.is_empty());
    assert_eq!(
        result,
        Err("Terminal process not found. Was init_terminal_tracking() called?".to_string())
    );
}

#[test]
fn keystroke_failure_reports_the_key() {
    let d = Delivery::start(DeliveryMode::Paste, Some(1), None);
    let (actions, result) = run(d, |a| match a {
        DeliveryAction::Click(InputKey::V) => StepOutcome::Failed("blocked".to_string()),
        _ => StepOutcome::Done,
    });
    assert_eq!(actions.len(), 5);
    assert_eq!(result, Err("Failed to press V: blocked".to_string()));
}

#[test]
fn submit_failure_is_reported_after_paste() {
    let d = Delivery::start(DeliveryMode::Paste, Some(1), None);
    let (actions, result) = run(d, |a| match a {
        DeliveryAction::Click(InputKey::Return) => StepOutcome::Failed("x".to_string()),
        _ => StepOutcome::Done,
    });
    assert_eq!(actions.len(), 8);
    assert_eq!(result, Err("Failed to press Enter: x".to_string()));
}

#[test]
fn input_creation_and_typing_failures() {
    let d = Delivery::start(DeliveryMode::Trigger, Some(1), None);
    let (_, result) = run(d, |a| match a {
        DeliveryAction::OpenInput => StepOutcome::Failed("no display".to_string()),
        _ => StepOutcome::Done,
    });
    assert_eq!(result, Err("Failed to create input simulator: no display".to_string()));
    let d = Delivery::start(DeliveryMode::Trigger, Some(1), None);
    let (_, result) = run(d, |a| match a {
        DeliveryAction::TypeTrigger => StepOutcome::Failed("e".to_string()),
        _ => StepOutcome::Done,
    });
    assert_eq!(result, Err("Failed to type text: e".to_string()));
    let d = Delivery::start(DeliveryMode::Paste, Some(1), None);
    let (_, result) = run(d, |a| match a {
        DeliveryAction::Release(InputKey::Control) => StepOutcome::Failed("r".to_string()),
        _ => StepOutcome::Done,
    });
    assert_eq!(result, Err("Failed to release Ctrl: r".to_string()));
}
