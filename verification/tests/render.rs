use scene::render::{drain_events, step, InputEvent, KeyAction, KeyCode, LoopState};

#[test]
fn escape_press_closes() {
    let r = step(
        LoopState::Running,
        &InputEvent::Key(KeyCode::Escape, KeyAction::Press),
    );
    assert_eq!(r, LoopState::Closing);
}

#[test]
fn other_key_press_keeps_running() {
    let r = step(
        LoopState::Running,
        &InputEvent::Key(KeyCode::Other, KeyAction::Press),
    );
    assert_eq!(r, LoopState::Running);
}

#[test]
fn escape_release_keeps_running() {
    let r = step(
        LoopState::Running,
        &InputEvent::Key(KeyCode::Escape, KeyAction::Release),
    );
    assert_eq!(r, LoopState::Running);
}

#[test]
fn escape_repeat_keeps_running() {
    let r = step(
        LoopState::Running,
        &InputEvent::Key(KeyCode::Escape, KeyAction::Repeat),
    );
    assert_eq!(r, LoopState::Running);
}

#[test]
fn non_key_event_keeps_running() {
    let r = step(LoopState::Running, &InputEvent::Other);
    assert_eq!(r, LoopState::Running);
}

#[test]
fn closing_is_final() {
    let r = step(
        LoopState::Closing,
        &InputEvent::Key(KeyCode::Other, KeyAction::Release),
    );
    assert_eq!(r, LoopState::Closing);
}

#[test]
fn batch_with_escape_closes() {
    let evs = vec![
        InputEvent::Other,
        InputEvent::Key(KeyCode::Other, KeyAction::Press),
        InputEvent::Key(KeyCode::Escape, KeyAction::Press),
        InputEvent::Key(KeyCode::Other, KeyAction::Release),
    ];
    assert_eq!(drain_events(LoopState::Running, &evs), LoopState::Closing);
}

#[test]
fn batch_without_escape_keeps_state() {
    let evs = vec![
        InputEvent::Other,
        InputEvent::Key(KeyCode::Other, KeyAction::Press),
        InputEvent::Key(KeyCode::Escape, KeyAction::Release),
    ];
    assert_eq!(drain_events(LoopState::Running, &evs), LoopState::Running);
}

#[test]
fn empty_batch_keeps_state() {
    assert_eq!(drain_events(LoopState::Running, &vec![]), LoopState::Running);
    assert_eq!(drain_events(LoopState::Closing, &vec![]), LoopState::Closing);
}
