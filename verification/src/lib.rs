//! A verified global-hotkey macro engine.
//!
//! The library holds the pure core of an input macro system: the key-name
//! codec, the hook-event classifier, the mutual-exclusion phase state
//! machine, the macro interpreters that compile actions into synthetic
//! key-event plans, and the gamepad button diffing. Everything that touches
//! the operating system (the low-level keyboard hook, input injection,
//! sleeping, controller polling) lives outside the library and exchanges
//! plain values with it.

use vstd::prelude::*;

pub mod config;
pub mod engine;
pub mod executor;
pub mod gamepad;
pub mod handler;
pub mod keycodes;
pub mod synth;

verus! {

/// Errors the macro engine can report. Every error is recovered locally:
/// nothing in the engine is fatal.
#[derive(Debug, Clone, Copy, PartialEq, Eq, Structural)]
pub enum MacroError {
    /// Installing the OS keyboard hook failed at startup.
    HookInstallFailed,
    /// Uninstalling the OS keyboard hook failed at shutdown.
    HookUninstallFailed,
    /// A press event arrived before any configuration was loaded.
    ConfigMissing,
    /// A press event named a key with no configured hotkey.
    HotkeyNotFound,
    /// A hotkey's action kind is neither `type_text` nor `sequence`.
    UnknownActionType,
    /// A character has no key-code mapping and cannot be synthesized.
    UnsupportedCharacter,
    /// The platform rejected an input-injection call.
    InjectionFailed,
}

} // verus!
