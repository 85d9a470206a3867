//! Tests of the gamepad button diffing and naming.

use keymacro::engine::MacroEvent;
use keymacro::gamepad::{
    button_to_key_name, check_button_changes, forward_gamepad_event, gamepad_slot_step,
    GamepadEvent, GP_A, GP_B, GP_DPAD_UP, GP_START, GP_Y,
};

fn names(evs: &[GamepadEvent]) -> Vec<(bool, String)> {
    evs.iter()
        .map(|e| match e {
            GamepadEvent::ButtonPressed { button } => (true, button.clone()),
            GamepadEvent::ButtonReleased { button } => (false, button.clone()),
        })
        .collect()
}

#[test]
fn no_change_yields_no_events() {
    assert!(check_button_changes(0, 0).is_empty());
    assert!(check_button_changes(GP_A, GP_A).is_empty());
    assert!(check_button_changes(0xFFFF, 0xFFFF).is_empty());
}

#[test]
fn single_press_and_release() {
    assert_eq!(names(&check_button_changes(0, GP_A)), vec![(true, "A".to_string())]);
    assert_eq!(names(&check_button_changes(GP_A, 0)), vec![(false, "A".to_string())]);
}

#[test]
fn simultaneous_changes_come_in_table_order() {
    // D-pad up goes down, Start goes up, Y goes down: events follow the
    // fixed button table order, not the bit values' numeric order.
    let prev = GP_START;
    let cur = GP_DPAD_UP | GP_Y;
    assert_eq!(
        names(&check_button_changes(prev, cur)),
        vec![
            (true, "DUp".to_string()),
            (false, "Start".to_string()),
            (true, "Y".to_string()),
        ]
    );
}

#[test]
fn press_and_release_swap() {
    let evs = check_button_changes(GP_A, GP_B);
    assert_eq!(
        names(&evs),
        vec![(false, "A".to_string()), (true, "B".to_string())]
    );
}

#[test]
fn slot_step_diffs_connected_samples() {
    let (mask, connected, evs) = gamepad_slot_step(0, true, Some(GP_A));
    assert_eq!(mask, GP_A);
    assert!(connected);
    assert_eq!(names(&evs), vec![(true, "A".to_string())]);
}

#[test]
fn slot_step_resets_mask_on_disconnect() {
    let (mask, connected, evs) = gamepad_slot_step(GP_A, true, None);
    assert_eq!(mask, 0);
    assert!(!connected);
    assert!(evs.is_empty());

    // A slot that stays disconnected keeps its stored mask untouched.
    let (mask, connected, evs) = gamepad_slot_step(GP_A, false, None);
    assert_eq!(mask, GP_A);
    assert!(!connected);
    assert!(evs.is_empty());
}

#[test]
fn button_names_map_to_xbox_scheme() {
    assert_eq!(button_to_key_name("South"), "A");
    assert_eq!(button_to_key_name("East"), "B");
    assert_eq!(button_to_key_name("West"), "X");
    assert_eq!(button_to_key_name("North"), "Y");
    assert_eq!(button_to_key_name("Select"), "Back");
    assert_eq!(button_to_key_name("DPadLeft"), "DLeft");
    assert_eq!(button_to_key_name("Mode"), "Guide");
    assert_eq!(button_to_key_name("A"), "A");
    assert_eq!(button_to_key_name("Anything"), "Anything");
}

#[test]
fn forwarded_events_keep_their_button() {
    let m = forward_gamepad_event(GamepadEvent::ButtonPressed { button: "A".to_string() });
    match m {
        MacroEvent::GamepadButtonPressed { button } => assert_eq!(button, "A"),
        _ => panic!("expected a gamepad press"),
    }
    let m = forward_gamepad_event(GamepadEvent::ButtonReleased { button: "LS".to_string() });
    match m {
        MacroEvent::GamepadButtonReleased { button } => assert_eq!(button, "LS"),
        _ => panic!("expected a gamepad release"),
    }
}
