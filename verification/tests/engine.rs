//! Tests of the engine state machine and the executor-side event handling:
//! the at-most-one rule, the toggle gate and the error taxonomy.

use keymacro::config::{
    ActionParams, Config, HotkeyConfig, SequenceParams, Step, TypeTextParams,
};
use keymacro::engine::{EngineState, MacroEvent, MacroPhase};
use keymacro::handler::{execute_hotkey_action, execute_hotkey_release, handle_event};
use keymacro::synth::SynthCommand;
use keymacro::MacroError;

fn hotkey(key: &str, action: &str, params: ActionParams) -> HotkeyConfig {
    HotkeyConfig { key: key.to_string(), action: action.to_string(), params }
}

fn engine_with(hotkeys: Vec<HotkeyConfig>) -> EngineState {
    let mut state = EngineState::new();
    state.set_config(Config { hotkeys });
    state
}

fn text_params(text: &str) -> ActionParams {
    ActionParams::TypeText(TypeTextParams { text: text.to_string(), speed: None })
}

fn wait_sequence(ms: u64) -> ActionParams {
    ActionParams::Sequence(SequenceParams { steps: vec![Step::Wait { value: ms }] })
}

fn pressed(key: &str) -> MacroEvent {
    MacroEvent::HotkeyPressed { key_name: key.to_string() }
}

fn released(key: &str) -> MacroEvent {
    MacroEvent::HotkeyReleased { key_name: key.to_string() }
}

fn key_event_count(plan: &[SynthCommand]) -> usize {
    plan.iter()
        .filter(|c| matches!(c, SynthCommand::Key { .. }))
        .count()
}

#[test]
fn press_wins_test_and_set_and_compiles() {
    let mut state = engine_with(vec![hotkey("F2", "type_text", text_params("hi"))]);
    let plan = handle_event(&mut state, &pressed("F2")).expect("press should compile");
    assert_eq!(state.phase, MacroPhase::Executing);
    assert_eq!(key_event_count(&plan), 4);
}

#[test]
fn press_while_executing_is_dropped() {
    // The authoritative at-most-one guarantee: while a macro executes, a
    // press of any hotkey yields no synthesis at all.
    let mut state = engine_with(vec![
        hotkey("F2", "type_text", text_params("hi")),
        hotkey("F3", "type_text", text_params("other")),
    ]);
    let first = handle_event(&mut state, &pressed("F2")).expect("press should compile");
    assert_eq!(key_event_count(&first), 4);
    let second = handle_event(&mut state, &pressed("F3")).expect("drop is silent");
    assert!(second.is_empty());
    assert_eq!(state.phase, MacroPhase::Executing);
}

#[test]
fn gamepad_press_mid_sequence_is_dropped() {
    // A gamepad "A" press/release arriving while the engine is mid-sequence
    // for a different hotkey produces no synthesis.
    let mut state = engine_with(vec![
        hotkey("F2", "sequence", wait_sequence(1000)),
        hotkey("GP:A", "type_text", text_params("boom")),
    ]);
    let first = handle_event(&mut state, &pressed("F2")).expect("press should compile");
    assert_eq!(first, vec![SynthCommand::SleepMs { ms: 1000 }]);

    let gp_press = MacroEvent::GamepadButtonPressed { button: "A".to_string() };
    let dropped = handle_event(&mut state, &gp_press).expect("drop is silent");
    assert!(dropped.is_empty());
    assert_eq!(state.phase, MacroPhase::Executing);

    let gp_release = MacroEvent::GamepadButtonReleased { button: "A".to_string() };
    let nothing = handle_event(&mut state, &gp_release).expect("release compiles to nothing");
    assert!(nothing.is_empty());
    assert_eq!(state.phase, MacroPhase::Idle);
}

#[test]
fn gamepad_press_resolves_under_gp_prefix() {
    let mut state = engine_with(vec![hotkey("GP:A", "type_text", text_params("x"))]);
    let ev = MacroEvent::GamepadButtonPressed { button: "A".to_string() };
    let plan = handle_event(&mut state, &ev).expect("press should compile");
    assert_eq!(key_event_count(&plan), 2);
    assert_eq!(state.phase, MacroPhase::Executing);
}

#[test]
fn release_returns_engine_to_idle() {
    let mut state = engine_with(vec![hotkey("F2", "type_text", text_params("hi"))]);
    handle_event(&mut state, &pressed("F2")).expect("press should compile");
    assert_eq!(state.phase, MacroPhase::Executing);
    let plan = handle_event(&mut state, &released("F2")).expect("release never fails");
    assert!(plan.is_empty());
    assert_eq!(state.phase, MacroPhase::Idle);

    // A redundant release is dropped silently.
    let plan = handle_event(&mut state, &released("F2")).expect("release never fails");
    assert!(plan.is_empty());
    assert_eq!(state.phase, MacroPhase::Idle);
}

#[test]
fn disabled_engine_ignores_events_but_keeps_state() {
    // Disabling the toggle suppresses new emissions only: the phase of a
    // running macro is untouched, so the run is not aborted.
    let mut state = engine_with(vec![hotkey("F2", "type_text", text_params("hi"))]);
    handle_event(&mut state, &pressed("F2")).expect("press should compile");
    assert_eq!(state.phase, MacroPhase::Executing);

    state.set_macro_enabled(false);
    assert_eq!(state.phase, MacroPhase::Executing);

    let plan = handle_event(&mut state, &pressed("F2")).expect("ignored silently");
    assert!(plan.is_empty());
    assert_eq!(state.phase, MacroPhase::Executing);

    state.set_macro_enabled(true);
    handle_event(&mut state, &released("F2")).expect("release never fails");
    assert_eq!(state.phase, MacroPhase::Idle);
}

#[test]
fn press_without_config_reports_config_missing() {
    let mut state = EngineState::new();
    let r = handle_event(&mut state, &pressed("F2"));
    assert_eq!(r, Err(MacroError::ConfigMissing));
    // The phase stays set until the symmetric release arrives.
    assert_eq!(state.phase, MacroPhase::Executing);
}

#[test]
fn press_of_unbound_key_reports_hotkey_not_found() {
    let mut state = engine_with(vec![hotkey("F2", "type_text", text_params("hi"))]);
    let r = handle_event(&mut state, &pressed("F9"));
    assert_eq!(r, Err(MacroError::HotkeyNotFound));
    assert_eq!(state.phase, MacroPhase::Executing);
    handle_event(&mut state, &released("F9")).expect("release never fails");
    assert_eq!(state.phase, MacroPhase::Idle);
}

#[test]
fn unknown_action_kind_reports_error() {
    let mut state = engine_with(vec![hotkey("F2", "launch_missiles", text_params("hi"))]);
    let r = handle_event(&mut state, &pressed("F2"));
    assert_eq!(r, Err(MacroError::UnknownActionType));
}

#[test]
fn mismatched_params_compile_to_nothing() {
    let mut state = engine_with(vec![hotkey("F2", "sequence", text_params("hi"))]);
    let plan = handle_event(&mut state, &pressed("F2")).expect("mismatch is a no-op");
    assert!(plan.is_empty());
}

#[test]
fn direct_action_and_release_calls() {
    let mut state = engine_with(vec![hotkey("a", "type_text", text_params("z"))]);
    let plan = execute_hotkey_action(&mut state, "A").expect("press should compile");
    assert_eq!(key_event_count(&plan), 2);
    assert_eq!(state.phase, MacroPhase::Executing);
    execute_hotkey_release(&mut state, "A");
    assert_eq!(state.phase, MacroPhase::Idle);
}

#[test]
fn engine_state_accessors() {
    let mut state = EngineState::new();
    assert!(state.get_toggle_state());
    assert!(state.get_config().is_none());
    assert_eq!(state.phase, MacroPhase::Idle);

    state.set_macro_enabled(false);
    assert!(!state.get_toggle_state());

    state.set_config(Config { hotkeys: vec![hotkey("F2", "type_text", text_params("hi"))] });
    let cfg = state.get_config().expect("config was set");
    assert_eq!(cfg.hotkeys.len(), 1);
}
