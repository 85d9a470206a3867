//! Tests of the macro interpreters: the plans they compile and the delays
//! those plans sleep.

use keymacro::config::{KeyAction, SequenceParams, Step, TypeTextParams};
use keymacro::executor::{execute_sequence, execute_type_text, simulate_unicode_char};
use keymacro::synth::{KeyEventType, SynthCommand, SYNTHETIC_TAG};
use keymacro::MacroError;

fn sleep_total(plan: &[SynthCommand]) -> u64 {
    plan.iter()
        .map(|c| match c {
            SynthCommand::SleepMs { ms } => *ms,
            _ => 0,
        })
        .sum()
}

fn key_events(plan: &[SynthCommand]) -> Vec<(u16, KeyEventType)> {
    plan.iter()
        .filter_map(|c| match c {
            SynthCommand::Key { vk, event, .. } => Some((*vk, *event)),
            _ => None,
        })
        .collect()
}

fn type_text(text: &str, speed: Option<&str>) -> Vec<SynthCommand> {
    execute_type_text(&TypeTextParams {
        text: text.to_string(),
        speed: speed.map(|s| s.to_string()),
    })
}

#[test]
fn fastest_speed_uses_5ms() {
    let plan = type_text("ab", Some("fastest"));
    // Per character: press, sleep 5, release, sleep 5.
    assert_eq!(plan.len(), 8);
    assert_eq!(plan[1], SynthCommand::SleepMs { ms: 5 });
    assert_eq!(plan[3], SynthCommand::SleepMs { ms: 5 });
    assert_eq!(sleep_total(&plan), 20);
}

#[test]
fn unset_speed_defaults_to_10ms() {
    let plan = type_text("ab", None);
    assert_eq!(plan.len(), 8);
    assert_eq!(plan[1], SynthCommand::SleepMs { ms: 10 });
    // Four sleeps of the default delay: the elapsed time of typing "ab" is
    // at least four times the inter-key delay.
    assert_eq!(sleep_total(&plan), 40);
}

#[test]
fn remaining_speed_presets() {
    assert_eq!(sleep_total(&type_text("a", Some("fast"))), 20);
    assert_eq!(sleep_total(&type_text("a", Some("normal"))), 40);
    assert_eq!(sleep_total(&type_text("a", Some("slow"))), 100);
    assert_eq!(sleep_total(&type_text("a", Some("warp"))), 20);
}

#[test]
fn type_text_orders_press_before_release() {
    let plan = type_text("ab", None);
    assert_eq!(
        key_events(&plan),
        vec![
            (0x41, KeyEventType::Press),
            (0x41, KeyEventType::Release),
            (0x42, KeyEventType::Press),
            (0x42, KeyEventType::Release),
        ]
    );
}

#[test]
fn unsupported_character_is_skipped_and_text_continues() {
    let plan = type_text("a€b", None);
    assert_eq!(
        key_events(&plan),
        vec![
            (0x41, KeyEventType::Press),
            (0x41, KeyEventType::Release),
            (0x42, KeyEventType::Press),
            (0x42, KeyEventType::Release),
        ]
    );
}

#[test]
fn simulate_unicode_char_always_fails() {
    assert_eq!(simulate_unicode_char('€'), Err(MacroError::UnsupportedCharacter));
    assert_eq!(simulate_unicode_char('a'), Err(MacroError::UnsupportedCharacter));
}

#[test]
fn every_key_command_carries_the_synthetic_tag() {
    let plan = type_text("hello world", Some("slow"));
    for cmd in &plan {
        if let SynthCommand::Key { tag, .. } = cmd {
            assert_eq!(*tag, SYNTHETIC_TAG);
        }
    }
}

fn key_step(value: &str, action: Option<KeyAction>) -> Step {
    Step::Key { value: value.to_string(), delay: None, action }
}

#[test]
fn shift_a_sequence_synthesizes_four_events_in_order() {
    // Shift down, a down, wait 50, a up, Shift up: exactly four key events
    // in that order, with a 50 ms gap before the third.
    let params = SequenceParams {
        steps: vec![
            key_step("Shift", Some(KeyAction::Press)),
            key_step("a", Some(KeyAction::Press)),
            Step::Wait { value: 50 },
            key_step("a", Some(KeyAction::Release)),
            key_step("Shift", Some(KeyAction::Release)),
        ],
    };
    let plan = execute_sequence(&params);
    assert_eq!(
        plan,
        vec![
            SynthCommand::Key { vk: 0x10, event: KeyEventType::Press, tag: SYNTHETIC_TAG },
            SynthCommand::Key { vk: 0x41, event: KeyEventType::Press, tag: SYNTHETIC_TAG },
            SynthCommand::SleepMs { ms: 50 },
            SynthCommand::Key { vk: 0x41, event: KeyEventType::Release, tag: SYNTHETIC_TAG },
            SynthCommand::Key { vk: 0x10, event: KeyEventType::Release, tag: SYNTHETIC_TAG },
        ]
    );
    assert_eq!(key_events(&plan).len(), 4);
    assert!(sleep_total(&plan) >= 50);
}

#[test]
fn complete_key_step_presses_then_releases() {
    // The optional delay is slept after the step, whatever the action.
    let params = SequenceParams {
        steps: vec![Step::Key { value: "b".to_string(), delay: Some(25), action: None }],
    };
    let plan = execute_sequence(&params);
    assert_eq!(
        plan,
        vec![
            SynthCommand::Key { vk: 0x42, event: KeyEventType::Press, tag: SYNTHETIC_TAG },
            SynthCommand::Key { vk: 0x42, event: KeyEventType::Release, tag: SYNTHETIC_TAG },
            SynthCommand::SleepMs { ms: 25 },
        ]
    );
}

#[test]
fn unresolvable_key_step_is_skipped() {
    let params = SequenceParams {
        steps: vec![
            key_step("NoSuchKey", None),
            Step::Wait { value: 7 },
        ],
    };
    let plan = execute_sequence(&params);
    assert_eq!(plan, vec![SynthCommand::SleepMs { ms: 7 }]);
}

#[test]
fn text_step_uses_its_own_delay_between_press_and_release() {
    let params = SequenceParams {
        steps: vec![Step::Text { value: "ok".to_string(), delay: Some(5) }],
    };
    let plan = execute_sequence(&params);
    assert_eq!(
        plan,
        vec![
            SynthCommand::Key { vk: 0x4F, event: KeyEventType::Press, tag: SYNTHETIC_TAG },
            SynthCommand::SleepMs { ms: 5 },
            SynthCommand::Key { vk: 0x4F, event: KeyEventType::Release, tag: SYNTHETIC_TAG },
            SynthCommand::Key { vk: 0x4B, event: KeyEventType::Press, tag: SYNTHETIC_TAG },
            SynthCommand::SleepMs { ms: 5 },
            SynthCommand::Key { vk: 0x4B, event: KeyEventType::Release, tag: SYNTHETIC_TAG },
        ]
    );
}

#[test]
fn text_step_without_delay_does_not_sleep() {
    let params = SequenceParams {
        steps: vec![Step::Text { value: "x".to_string(), delay: None }],
    };
    let plan = execute_sequence(&params);
    assert_eq!(
        plan,
        vec![
            SynthCommand::Key { vk: 0x58, event: KeyEventType::Press, tag: SYNTHETIC_TAG },
            SynthCommand::Key { vk: 0x58, event: KeyEventType::Release, tag: SYNTHETIC_TAG },
        ]
    );
}

#[test]
fn empty_sequence_compiles_to_nothing() {
    let plan = execute_sequence(&SequenceParams { steps: vec![] });
    assert!(plan.is_empty());
    let plan = type_text("", None);
    assert!(plan.is_empty());
}
