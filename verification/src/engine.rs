//! The shared engine state: the toggle flag, the execution phase and the
//! configuration snapshot. The state is one explicit object handed by shared
//! handle to the hook callback and the executor thread; the host keeps it
//! under a short-held lock and never holds the lock across sleeping or
//! injection.

use vstd::prelude::*;
use crate::config::Config;

verus! {

/// The engine's mutual-exclusion phase: exactly one macro body may run at a
/// time, enforced by a test-and-set on the transition out of `Idle`.
#[derive(Debug, Clone, Copy, PartialEq, Eq, Structural)]
pub enum MacroPhase {
    Idle,
    Executing,
}

/// One event on the engine's channel, produced by the classifier or the
/// gamepad forwarder and consumed by the executor in arrival order.
#[derive(Debug, Clone)]
pub enum MacroEvent {
    HotkeyPressed { key_name: String },
    HotkeyReleased { key_name: String },
    GamepadButtonPressed { button: String },
    GamepadButtonReleased { button: String },
}

/// The shared engine state.
pub struct EngineState {
    /// When false, keyboard events pass through and executor events are
    /// ignored; the hook stays installed.
    pub toggle: bool,
    /// The mutual-exclusion phase.
    pub phase: MacroPhase,
    /// The configuration snapshot, replaced wholesale and never partially
    /// mutated.
    pub config: Option<Config>,
}

impl EngineState {
    /// A fresh engine: enabled, idle, with no configuration loaded.
    pub fn new() -> (s: Self)
        ensures
            s.toggle == true,
            s.phase == MacroPhase::Idle,
            s.config is None,
    {
        EngineState { toggle: true, phase: MacroPhase::Idle, config: None }
    }

    /// Replaces the configuration snapshot. Nothing else changes.
    pub fn set_config(&mut self, config: Config)
        ensures
            final(self).config == Some(config),
            final(self).toggle == old(self).toggle,
            final(self).phase == old(self).phase,
    {
        self.config = Some(config);
    }

    /// Enables or disables the engine. Only the toggle changes: the phase
    /// and the configuration are untouched, so disabling the engine
    /// mid-sequence never aborts a plan already handed to the performer —
    /// it only suppresses new emissions.
    pub fn set_macro_enabled(&mut self, enabled: bool)
        ensures
            final(self).toggle == enabled,
            final(self).phase == old(self).phase,
            final(self).config == old(self).config,
    {
        self.toggle = enabled;
    }

    /// Reads the toggle.
    pub fn get_toggle_state(&self) -> (b: bool)
        ensures
            b == self.toggle,
    {
        self.toggle
    }

    /// Reads the configuration snapshot.
    pub fn get_config(&self) -> (c: Option<&Config>)
        ensures
            match c {
                Some(cfg) => self.config == Some(*cfg),
                None => self.config is None,
            },
    {
        match &self.config {
            Some(cfg) => Some(cfg),
            None => None,
        }
    }
}

} // verus!
