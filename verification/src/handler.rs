//! Event handling: the classifier that runs inside the hook callback, and
//! the executor-side dispatch that owns the phase state machine.
//!
//! The classifier makes a fast, non-blocking decision per keyboard event —
//! pass it through or swallow it, and optionally emit a macro event onto the
//! channel. The executor drains the channel strictly in arrival order and
//! turns each event into a synthetic key-event plan under the at-most-one
//! rule of the phase state machine.

use vstd::prelude::*;
use crate::MacroError;
use crate::config::{ActionParams, Config, spec_find_hotkey};
use crate::engine::{EngineState, MacroEvent, MacroPhase};
use crate::executor::{
    execute_sequence, execute_type_text, sequence_cmds, speed_delay, type_text_cmds,
};
use crate::keycodes::{str_eq, vk_is_mapped, vk_mapped, vk_name, vk_to_key_name};
use crate::synth::{plan_tagged, KeyEventType, SynthCommand, SYNTHETIC_TAG};
use vstd::string::StringExecFns;

verus! {

/// Whether a hook event reports a key going down or up.
#[derive(Debug, Clone, Copy, PartialEq, Eq, Structural)]
pub enum KeyTransition {
    Down,
    Up,
}

/// One keyboard event as the hook callback sees it.
#[derive(Debug, Clone, Copy, PartialEq, Eq, Structural)]
pub struct KeyHookEvent {
    /// The virtual-key code.
    pub vk: u32,
    /// Down or up.
    pub transition: KeyTransition,
    /// Set when the event is the auto-repeat of a held key.
    pub repeat: bool,
    /// The event's auxiliary data; the engine's own injected events carry
    /// `SYNTHETIC_TAG` here.
    pub extra_info: u64,
}

/// What the hook callback does with the original event.
#[derive(Debug, Clone, Copy, PartialEq, Eq, Structural)]
pub enum HookDecision {
    /// Hand the event on to the next hook.
    PassThrough,
    /// Block the original event.
    Swallow,
}

/// The kind of macro event the classifier emits.
#[derive(Debug, Clone, Copy, PartialEq, Eq, Structural)]
pub enum EmitKind {
    Pressed,
    Released,
}

/// The classifier's verdict on one keyboard event.
#[derive(Debug)]
pub struct Classification {
    pub decision: HookDecision,
    pub emit: Option<MacroEvent>,
}

/// Whether the configuration binds a hotkey to the canonical name of `vk`.
/// A code outside the mapped set is never looked up: its raw fallback name
/// is guaranteed never to match user configuration, whatever that
/// configuration holds.
pub open spec fn spec_hotkey_matched(config: Option<Config>, vk: u32) -> bool {
    vk_mapped(vk) && match config {
        Some(cfg) => spec_find_hotkey(cfg.hotkeys@, vk_name(vk)) is Some,
        None => false,
    }
}

/// What the hook does with the original event: synthetic events, events
/// while the engine is off and events for unbound keys — every code outside
/// the mapped set among them — pass through, as does the auto-repeat of a
/// held key; every other event of a bound key is swallowed.
pub open spec fn spec_decision(
    toggle: bool,
    phase: MacroPhase,
    config: Option<Config>,
    ev: KeyHookEvent,
) -> HookDecision {
    if ev.extra_info == SYNTHETIC_TAG {
        HookDecision::PassThrough
    } else if !toggle {
        HookDecision::PassThrough
    } else if !spec_hotkey_matched(config, ev.vk) {
        HookDecision::PassThrough
    } else if ev.transition is Down && ev.repeat {
        HookDecision::PassThrough
    } else {
        HookDecision::Swallow
    }
}

/// What the classifier emits: a press only for the first down of a bound key
/// while the engine is idle, a release only while a macro is executing;
/// synthetic events, disabled-engine events, unbound keys and auto-repeats
/// emit nothing.
pub open spec fn spec_emit(
    toggle: bool,
    phase: MacroPhase,
    config: Option<Config>,
    ev: KeyHookEvent,
) -> Option<EmitKind> {
    if ev.extra_info == SYNTHETIC_TAG || !toggle || !spec_hotkey_matched(config, ev.vk) {
        None
    } else if ev.transition is Down {
        if ev.repeat {
            None
        } else if phase is Idle {
            Some(EmitKind::Pressed)
        } else {
            None
        }
    } else {
        if phase is Executing {
            Some(EmitKind::Released)
        } else {
            None
        }
    }
}

/// Classifies one keyboard event against the engine state. Runs inside the
/// hook callback: it only reads the state and never blocks or sleeps.
pub fn classify(state: &EngineState, ev: &KeyHookEvent) -> (r: Classification)
    ensures
        r.decision == spec_decision(state.toggle, state.phase, state.config, *ev),
        match r.emit {
            None => spec_emit(state.toggle, state.phase, state.config, *ev) is None,
            Some(MacroEvent::HotkeyPressed { key_name }) => spec_emit(
                state.toggle,
                state.phase,
                state.config,
                *ev,
            ) == Some(EmitKind::Pressed) && key_name@ == vk_name(ev.vk),
            Some(MacroEvent::HotkeyReleased { key_name }) => spec_emit(
                state.toggle,
                state.phase,
                state.config,
                *ev,
            ) == Some(EmitKind::Released) && key_name@ == vk_name(ev.vk),
            Some(_) => false,
        },
{
    if ev.extra_info == SYNTHETIC_TAG {
        return Classification { decision: HookDecision::PassThrough, emit: None };
    }
    if !state.toggle {
        return Classification { decision: HookDecision::PassThrough, emit: None };
    }
    let cfg = match &state.config {
        Some(c) => c,
        None => {
            return Classification { decision: HookDecision::PassThrough, emit: None };
        },
    };
    if !vk_is_mapped(ev.vk) {
        return Classification { decision: HookDecision::PassThrough, emit: None };
    }
    let key_name = vk_to_key_name(ev.vk);
    if cfg.find_hotkey(key_name.as_str()).is_none() {
        return Classification { decision: HookDecision::PassThrough, emit: None };
    }
    match ev.transition {
        KeyTransition::Down => {
            if ev.repeat {
                Classification { decision: HookDecision::PassThrough, emit: None }
            } else if state.phase == MacroPhase::Executing {
                Classification { decision: HookDecision::Swallow, emit: None }
            } else {
                Classification {
                    decision: HookDecision::Swallow,
                    emit: Some(MacroEvent::HotkeyPressed { key_name }),
                }
            }
        },
        KeyTransition::Up => {
            if state.phase == MacroPhase::Executing {
                Classification {
                    decision: HookDecision::Swallow,
                    emit: Some(MacroEvent::HotkeyReleased { key_name }),
                }
            } else {
                Classification { decision: HookDecision::Swallow, emit: None }
            }
        },
    }
}

/// An event that carries the synthetic tag is never reclassified as a
/// hotkey: whatever the toggle, the phase and the configuration, it passes
/// through and emits nothing. Since every key command of a compiled plan
/// carries that tag, a macro's own output cannot re-trigger a hotkey.
pub proof fn lemma_synthetic_never_reclassified(
    toggle: bool,
    phase: MacroPhase,
    config: Option<Config>,
    ev: KeyHookEvent,
)
    requires
        ev.extra_info == SYNTHETIC_TAG,
    ensures
        spec_decision(toggle, phase, config, ev) == HookDecision::PassThrough,
        spec_emit(toggle, phase, config, ev) is None,
{
}

/// The keyboard event an injected key command re-enters the hook as: the
/// same key, the matching transition, no repeat flag, and the command's tag
/// in the auxiliary field.
pub open spec fn spec_reentry_event(cmd: SynthCommand) -> KeyHookEvent
    recommends
        cmd is Key,
{
    match cmd {
        SynthCommand::Key { vk, event, tag } => KeyHookEvent {
            vk: vk as u32,
            transition: if event is Press {
                KeyTransition::Down
            } else {
                KeyTransition::Up
            },
            repeat: false,
            extra_info: tag,
        },
        SynthCommand::SleepMs { ms } => KeyHookEvent {
            vk: 0,
            transition: KeyTransition::Down,
            repeat: false,
            extra_info: 0,
        },
    }
}

/// Replaying a fully tagged plan cannot re-trigger a hotkey: every key
/// command of such a plan re-enters the hook as an event that is passed
/// through without an emission, whatever the toggle, the phase and the
/// configuration at that moment.
pub proof fn lemma_plan_reentry_ignored(
    plan: Seq<SynthCommand>,
    toggle: bool,
    phase: MacroPhase,
    config: Option<Config>,
    i: int,
)
    requires
        plan_tagged(plan),
        0 <= i < plan.len(),
        plan[i] is Key,
    ensures
        spec_decision(toggle, phase, config, spec_reentry_event(plan[i]))
            == HookDecision::PassThrough,
        spec_emit(toggle, phase, config, spec_reentry_event(plan[i])) is None,
{
}

/// A held key's auto-repeat storm yields exactly one press emission: with
/// the engine enabled and idle, the first down of a bound key emits a press,
/// and every repeat-flagged down after it emits nothing — whatever the phase
/// has become meanwhile — until a release is observed.
pub proof fn lemma_repeat_down_emits_once(
    toggle: bool,
    phases: Seq<MacroPhase>,
    config: Option<Config>,
    evs: Seq<KeyHookEvent>,
)
    requires
        evs.len() >= 1,
        phases.len() == evs.len(),
        toggle,
        phases[0] is Idle,
        evs[0].repeat == false,
        spec_hotkey_matched(config, evs[0].vk),
        forall|i: int| 0 <= i < evs.len() ==> (#[trigger] evs[i]).transition is Down,
        forall|i: int| 0 <= i < evs.len() ==> (#[trigger] evs[i]).extra_info != SYNTHETIC_TAG,
        forall|i: int| 1 <= i < evs.len() ==> (#[trigger] evs[i]).repeat,
    ensures
        spec_emit(toggle, phases[0], config, evs[0]) == Some(EmitKind::Pressed),
        forall|i: int|
            1 <= i < evs.len() ==> spec_emit(toggle, phases[i], config, #[trigger] evs[i]) is None,
{
}

/// The plan or error a press produces once it has won the test-and-set:
/// no configuration and unbound keys are errors, a bound hotkey compiles by
/// its action kind, and a binding whose parameters do not fit its kind
/// compiles to nothing.
pub open spec fn spec_action_result(config: Option<Config>, key: Seq<char>) -> Result<
    Seq<SynthCommand>,
    MacroError,
> {
    match config {
        None => Err(MacroError::ConfigMissing),
        Some(cfg) => match spec_find_hotkey(cfg.hotkeys@, key) {
            None => Err(MacroError::HotkeyNotFound),
            Some(h) => {
                if h.action@ == "type_text"@ {
                    match h.params {
                        ActionParams::TypeText(p) => Ok(
                            type_text_cmds(p.text@, speed_delay(p.speed)),
                        ),
                        _ => Ok(Seq::empty()),
                    }
                } else if h.action@ == "sequence"@ {
                    match h.params {
                        ActionParams::Sequence(p) => Ok(sequence_cmds(p.steps@)),
                        _ => Ok(Seq::empty()),
                    }
                } else {
                    Err(MacroError::UnknownActionType)
                }
            },
        },
    }
}

/// Whether an executable result carries exactly the plan or error the
/// specification names.
pub open spec fn result_matches(
    r: Result<Vec<SynthCommand>, MacroError>,
    s: Result<Seq<SynthCommand>, MacroError>,
) -> bool {
    match (r, s) {
        (Ok(v), Ok(p)) => v@ == p,
        (Err(e), Err(f)) => e == f,
        _ => false,
    }
}

/// Handles a press: the test-and-set out of `Idle`, the hotkey lookup and
/// the compilation of the bound action. A press that arrives while a macro
/// is executing is dropped silently — this is the authoritative
/// at-most-one-concurrent-execution guarantee. A failed lookup leaves the
/// phase `Executing` until the symmetric release arrives.
pub fn execute_hotkey_action(state: &mut EngineState, key_name: &str) -> (r: Result<
    Vec<SynthCommand>,
    MacroError,
>)
    ensures
        final(state).toggle == old(state).toggle,
        final(state).config == old(state).config,
        old(state).phase is Executing ==> final(state).phase == old(state).phase && (r matches Ok(v)
            && v@ == Seq::<SynthCommand>::empty()),
        old(state).phase is Idle ==> final(state).phase is Executing && result_matches(
            r,
            spec_action_result(old(state).config, key_name@),
        ),
{
    if state.phase == MacroPhase::Executing {
        return Ok(Vec::new());
    }
    state.phase = MacroPhase::Executing;
    let cfg = match &state.config {
        Some(c) => c,
        None => {
            return Err(MacroError::ConfigMissing);
        },
    };
    let hk = match cfg.find_hotkey(key_name) {
        Some(h) => h,
        None => {
            return Err(MacroError::HotkeyNotFound);
        },
    };
    if str_eq(hk.action.as_str(), "type_text") {
        match &hk.params {
            ActionParams::TypeText(p) => Ok(execute_type_text(p)),
            _ => Ok(Vec::new()),
        }
    } else if str_eq(hk.action.as_str(), "sequence") {
        match &hk.params {
            ActionParams::Sequence(p) => Ok(execute_sequence(p)),
            _ => Ok(Vec::new()),
        }
    } else {
        Err(MacroError::UnknownActionType)
    }
}

/// Handles a release: the test-and-set back to `Idle`. A release while the
/// engine is already idle is dropped silently. Nothing but the phase
/// changes.
pub fn execute_hotkey_release(state: &mut EngineState, _key_name: &str)
    ensures
        final(state).toggle == old(state).toggle,
        final(state).config == old(state).config,
        final(state).phase is Idle,
{
    if state.phase == MacroPhase::Executing {
        state.phase = MacroPhase::Idle;
    }
}

/// The key a macro event is looked up under: gamepad buttons are prefixed
/// with `GP:` so the keyboard and gamepad namespaces coexist.
pub open spec fn spec_event_key(ev: MacroEvent) -> Seq<char> {
    match ev {
        MacroEvent::HotkeyPressed { key_name } => key_name@,
        MacroEvent::HotkeyReleased { key_name } => key_name@,
        MacroEvent::GamepadButtonPressed { button } => "GP:"@ + button@,
        MacroEvent::GamepadButtonReleased { button } => "GP:"@ + button@,
    }
}

/// Whether an event is a press (keyboard or gamepad).
pub open spec fn is_press_event(ev: MacroEvent) -> bool {
    ev is HotkeyPressed || ev is GamepadButtonPressed
}

/// The phase automaton one executor step follows: with the engine toggled
/// off nothing changes, a press leaves the phase `Executing` and a release
/// leaves it `Idle`.
pub open spec fn spec_phase_step(phase: MacroPhase, toggle: bool, press: bool) -> MacroPhase {
    if !toggle {
        phase
    } else if press {
        MacroPhase::Executing
    } else {
        MacroPhase::Idle
    }
}

/// Whether an executor step grants execution: only a press that finds the
/// engine enabled and idle may start a macro body.
pub open spec fn spec_grants(phase: MacroPhase, toggle: bool, press: bool) -> bool {
    toggle && press && phase is Idle
}

/// One step of the executor thread: takes the next event off the channel
/// and turns it into a synthetic key-event plan.
///
/// At most one macro body executes at any instant: a press yields a
/// non-empty plan only by winning the test-and-set out of `Idle`, and every
/// press that arrives while the phase is `Executing` — keyboard or gamepad —
/// yields no synthesis at all. With the engine toggled off the event is
/// ignored outright, while a plan already handed out is unaffected.
pub fn handle_event(state: &mut EngineState, event: &MacroEvent) -> (r: Result<
    Vec<SynthCommand>,
    MacroError,
>)
    ensures
        final(state).toggle == old(state).toggle,
        final(state).config == old(state).config,
        !old(state).toggle ==> final(state).phase == old(state).phase && (r matches Ok(v) && v@
            == Seq::<SynthCommand>::empty()),
        old(state).toggle && is_press_event(*event) ==> {
            &&& old(state).phase is Executing ==> final(state).phase == old(state).phase && (
            r matches Ok(v) && v@ == Seq::<SynthCommand>::empty())
            &&& old(state).phase is Idle ==> final(state).phase is Executing && result_matches(
                r,
                spec_action_result(old(state).config, spec_event_key(*event)),
            )
        },
        old(state).toggle && !is_press_event(*event) ==> final(state).phase is Idle && (
        r matches Ok(v) && v@ == Seq::<SynthCommand>::empty()),
        final(state).phase == spec_phase_step(
            old(state).phase,
            old(state).toggle,
            is_press_event(*event),
        ),
        !spec_grants(old(state).phase, old(state).toggle, is_press_event(*event)) ==> (
        r matches Ok(v) && v@ == Seq::<SynthCommand>::empty()),
{
    if !state.get_toggle_state() {
        return Ok(Vec::new());
    }
    match event {
        MacroEvent::HotkeyPressed { key_name } => execute_hotkey_action(state, key_name.as_str()),
        MacroEvent::HotkeyReleased { key_name } => {
            execute_hotkey_release(state, key_name.as_str());
            Ok(Vec::new())
        },
        MacroEvent::GamepadButtonPressed { button } => {
            let key_name = "GP:".to_owned().concat(button.as_str());
            execute_hotkey_action(state, key_name.as_str())
        },
        MacroEvent::GamepadButtonReleased { button } => {
            let key_name = "GP:".to_owned().concat(button.as_str());
            execute_hotkey_release(state, key_name.as_str());
            Ok(Vec::new())
        },
    }
}

/// The phase before step `i` of a trace of executor steps, each step a pair
/// of the toggle it saw and whether it was a press, folded from an idle
/// start through the phase automaton.
pub open spec fn spec_trace_phase(evs: Seq<(bool, bool)>, i: int) -> MacroPhase
    decreases i,
{
    if i <= 0 {
        MacroPhase::Idle
    } else {
        spec_phase_step(spec_trace_phase(evs, i - 1), evs[i - 1].0, evs[i - 1].1)
    }
}

/// Whether step `i` of a trace grants execution.
pub open spec fn spec_trace_grants(evs: Seq<(bool, bool)>, i: int) -> bool {
    evs[i].0 && evs[i].1 && spec_trace_phase(evs, i) is Idle
}

proof fn lemma_executing_persists(evs: Seq<(bool, bool)>, i: int, j: int)
    requires
        0 <= i <= j <= evs.len(),
        spec_trace_phase(evs, i) is Executing,
        forall|k: int| i <= k < j ==> !((#[trigger] evs[k]).0 && !evs[k].1),
    ensures
        spec_trace_phase(evs, j) is Executing,
    decreases j - i,
{
    if i < j {
        lemma_executing_persists(evs, i, j - 1);
    }
}

/// At most one macro body executes at any instant, over every trace of
/// executor steps: between any two steps that both start a macro there lies
/// a release handled with the engine enabled. Each `handle_event` call
/// follows this automaton (its `spec_phase_step` and `spec_grants` clauses),
/// and a step that grants no execution yields no synthesis.
pub proof fn lemma_at_most_one_executing(evs: Seq<(bool, bool)>, i: int, j: int)
    requires
        0 <= i < j < evs.len(),
        spec_trace_grants(evs, i),
        spec_trace_grants(evs, j),
    ensures
        exists|k: int| i < k < j && (#[trigger] evs[k]).0 && !evs[k].1,
{
    if !(exists|k: int| i < k < j && (#[trigger] evs[k]).0 && !evs[k].1) {
        assert(spec_trace_phase(evs, i + 1) is Executing);
        assert(forall|k: int| i + 1 <= k < j ==> !((#[trigger] evs[k]).0 && !evs[k].1));
        lemma_executing_persists(evs, i + 1, j);
    }
}

} // verus!
