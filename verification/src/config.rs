//! The configuration snapshot: an ordered list of hotkey bindings, each a
//! case-insensitive symbolic key name bound to an action. Lookup is linear
//! and returns the first match.

use vstd::prelude::*;
use crate::keycodes::{eq_ignore_ascii_case, key_matches};

verus! {

/// The configuration root: the ordered list of hotkey bindings.
#[derive(Debug, Clone)]
pub struct Config {
    pub hotkeys: Vec<HotkeyConfig>,
}

/// One hotkey binding.
#[derive(Debug, Clone)]
pub struct HotkeyConfig {
    /// The trigger key, a symbolic name such as `F2`, matched without regard
    /// to ASCII case.
    pub key: String,
    /// The action kind: `type_text` or `sequence`.
    pub action: String,
    /// The action's parameters.
    pub params: ActionParams,
}

/// The parameters of an action, matching its kind.
#[derive(Debug, Clone)]
pub enum ActionParams {
    TypeText(TypeTextParams),
    Sequence(SequenceParams),
}

/// Parameters of a type-text action.
#[derive(Debug, Clone)]
pub struct TypeTextParams {
    pub text: String,
    /// A speed preset: `fastest`, `fast`, `normal` or `slow`.
    pub speed: Option<String>,
}

/// Parameters of a sequence action.
#[derive(Debug, Clone)]
pub struct SequenceParams {
    pub steps: Vec<Step>,
}

/// How a key step drives the key.
#[derive(Debug, Clone, Copy, PartialEq, Eq, Structural)]
pub enum KeyAction {
    /// Press only.
    Press,
    /// Release only.
    Release,
    /// Press, then release.
    Complete,
}

impl Default for KeyAction {
    fn default() -> (r: Self)
        ensures
            r == KeyAction::Complete,
    {
        KeyAction::Complete
    }
}

/// One step of a sequence action.
#[derive(Debug, Clone)]
pub enum Step {
    /// Drive a named key, optionally sleeping `delay` milliseconds after the
    /// press.
    Key { value: String, delay: Option<u64>, action: Option<KeyAction> },
    /// Sleep for `value` milliseconds.
    Wait { value: u64 },
    /// Type a piece of text, optionally sleeping `delay` milliseconds
    /// between press and release.
    Text { value: String, delay: Option<u64> },
}

/// The first binding whose key matches, searched front to back.
pub open spec fn spec_find_hotkey(hotkeys: Seq<HotkeyConfig>, key: Seq<char>) -> Option<HotkeyConfig>
    decreases hotkeys.len(),
{
    if hotkeys.len() == 0 {
        None
    } else if key_matches(hotkeys[0].key@, key) {
        Some(hotkeys[0])
    } else {
        spec_find_hotkey(hotkeys.drop_first(), key)
    }
}

impl Config {
    /// Looks up the first binding for `key`, without regard to ASCII case.
    pub fn find_hotkey<'a>(&'a self, key: &str) -> (r: Option<&'a HotkeyConfig>)
        ensures
            match r {
                Some(h) => spec_find_hotkey(self.hotkeys@, key@) == Some(*h),
                None => spec_find_hotkey(self.hotkeys@, key@) is None,
            },
    {
        let n = self.hotkeys.len();
        let mut i: usize = 0;
        proof {
            assert(self.hotkeys@.skip(0) =~= self.hotkeys@);
        }
        while i < n
            invariant
                i <= n,
                n == self.hotkeys@.len(),
                spec_find_hotkey(self.hotkeys@, key@) == spec_find_hotkey(
                    self.hotkeys@.skip(i as int),
                    key@,
                ),
            decreases n - i,
        {
            let h = &self.hotkeys[i];
            if eq_ignore_ascii_case(h.key.as_str(), key) {
                proof {
                    assert(self.hotkeys@.skip(i as int)[0] == self.hotkeys@[i as int]);
                }
                return Some(h);
            }
            proof {
                assert(self.hotkeys@.skip(i as int)[0] == self.hotkeys@[i as int]);
                assert(self.hotkeys@.skip(i as int).drop_first() =~= self.hotkeys@.skip(
                    i as int + 1,
                ));
            }
            i = i + 1;
        }
        proof {
            assert(self.hotkeys@.skip(i as int).len() == 0);
        }
        None
    }
}

} // verus!
