//! Tests of the configuration lookup.

use keymacro::config::{
    ActionParams, Config, HotkeyConfig, KeyAction, SequenceParams, Step, TypeTextParams,
};

fn type_text_hotkey(key: &str, text: &str) -> HotkeyConfig {
    HotkeyConfig {
        key: key.to_string(),
        action: "type_text".to_string(),
        params: ActionParams::TypeText(TypeTextParams { text: text.to_string(), speed: None }),
    }
}

#[test]
fn find_hotkey_is_case_insensitive() {
    let config = Config { hotkeys: vec![type_text_hotkey("F2", "hello")] };
    assert!(config.find_hotkey("f2").is_some());
    assert!(config.find_hotkey("F2").is_some());
    assert!(config.find_hotkey("F3").is_none());
}

#[test]
fn find_hotkey_returns_first_match() {
    let config = Config {
        hotkeys: vec![
            type_text_hotkey("a", "first"),
            type_text_hotkey("A", "second"),
        ],
    };
    let hit = config.find_hotkey("A").expect("lookup should hit");
    if let ActionParams::TypeText(p) = &hit.params {
        assert_eq!(p.text, "first");
    } else {
        panic!("expected type-text params");
    }
}

#[test]
fn find_hotkey_on_empty_config() {
    let config = Config { hotkeys: vec![] };
    assert!(config.find_hotkey("A").is_none());
}

#[test]
fn key_action_defaults_to_complete() {
    assert_eq!(KeyAction::default(), KeyAction::Complete);
}

#[test]
fn sequence_steps_carry_their_fields() {
    let params = SequenceParams {
        steps: vec![
            Step::Key { value: "a".to_string(), delay: Some(50), action: None },
            Step::Wait { value: 100 },
            Step::Text { value: "done".to_string(), delay: None },
        ],
    };
    match &params.steps[0] {
        Step::Key { value, delay, action } => {
            assert_eq!(value, "a");
            assert_eq!(*delay, Some(50));
            assert!(action.is_none());
        }
        _ => panic!("expected a key step"),
    }
    match &params.steps[1] {
        Step::Wait { value } => assert_eq!(*value, 100),
        _ => panic!("expected a wait step"),
    }
}
