//! Gamepad input: diffing the button bitmask of a controller slot between
//! two polls into press and release events. The poller thread that queries
//! the platform at ~60 Hz lives outside the library and feeds each sample
//! through `gamepad_slot_step`.

use vstd::prelude::*;
use crate::engine::MacroEvent;
use crate::keycodes::str_eq;

verus! {

// XInput button masks. These values are fixed by the platform's controller
// interface.
pub const GP_DPAD_UP: u16 = 0x0001;
pub const GP_DPAD_DOWN: u16 = 0x0002;
pub const GP_DPAD_LEFT: u16 = 0x0004;
pub const GP_DPAD_RIGHT: u16 = 0x0008;
pub const GP_START: u16 = 0x0010;
pub const GP_BACK: u16 = 0x0020;
pub const GP_LEFT_THUMB: u16 = 0x0040;
pub const GP_RIGHT_THUMB: u16 = 0x0080;
pub const GP_LEFT_SHOULDER: u16 = 0x0100;
pub const GP_RIGHT_SHOULDER: u16 = 0x0200;
pub const GP_A: u16 = 0x1000;
pub const GP_B: u16 = 0x2000;
pub const GP_X: u16 = 0x4000;
pub const GP_Y: u16 = 0x8000;

/// One gamepad event: a named button went down or up.
#[derive(Debug, Clone)]
pub enum GamepadEvent {
    ButtonPressed { button: String },
    ButtonReleased { button: String },
}

/// The bitmask of the button at position `i` of the fixed button table.
pub open spec fn button_mask(i: int) -> u16 {
    if i == 0 {
        GP_DPAD_UP
    } else if i == 1 {
        GP_DPAD_DOWN
    } else if i == 2 {
        GP_DPAD_LEFT
    } else if i == 3 {
        GP_DPAD_RIGHT
    } else if i == 4 {
        GP_START
    } else if i == 5 {
        GP_BACK
    } else if i == 6 {
        GP_LEFT_THUMB
    } else if i == 7 {
        GP_RIGHT_THUMB
    } else if i == 8 {
        GP_LEFT_SHOULDER
    } else if i == 9 {
        GP_RIGHT_SHOULDER
    } else if i == 10 {
        GP_A
    } else if i == 11 {
        GP_B
    } else if i == 12 {
        GP_X
    } else {
        GP_Y
    }
}

/// The name of the button at position `i` of the fixed button table.
pub open spec fn button_name(i: int) -> Seq<char> {
    if i == 0 {
        "DUp"@
    } else if i == 1 {
        "DDown"@
    } else if i == 2 {
        "DLeft"@
    } else if i == 3 {
        "DRight"@
    } else if i == 4 {
        "Start"@
    } else if i == 5 {
        "Back"@
    } else if i == 6 {
        "LS"@
    } else if i == 7 {
        "RS"@
    } else if i == 8 {
        "LB"@
    } else if i == 9 {
        "RB"@
    } else if i == 10 {
        "A"@
    } else if i == 11 {
        "B"@
    } else if i == 12 {
        "X"@
    } else {
        "Y"@
    }
}

/// The transitions of the first `n` table buttons between two bitmask
/// samples, in table order: a pair of the new level and the button name for
/// every button whose bit differs.
pub open spec fn spec_button_changes_upto(prev: u16, cur: u16, n: int) -> Seq<(bool, Seq<char>)>
    decreases n,
{
    if n <= 0 {
        Seq::empty()
    } else {
        spec_button_changes_upto(prev, cur, n - 1) + (
        if (prev ^ cur) & button_mask(n - 1) != 0 {
            seq![((cur & button_mask(n - 1)) != 0, button_name(n - 1))]
        } else {
            Seq::empty()
        })
    }
}

/// All button transitions between two bitmask samples.
pub open spec fn spec_button_changes(prev: u16, cur: u16) -> Seq<(bool, Seq<char>)> {
    spec_button_changes_upto(prev, cur, 14)
}

/// Whether a gamepad event reports exactly the transition a pair names.
pub open spec fn gp_event_matches(e: GamepadEvent, p: (bool, Seq<char>)) -> bool {
    match e {
        GamepadEvent::ButtonPressed { button } => p.0 == true && button@ == p.1,
        GamepadEvent::ButtonReleased { button } => p.0 == false && button@ == p.1,
    }
}

/// Whether a list of gamepad events reports exactly the named transitions,
/// in order.
pub open spec fn gp_events_match(evs: Seq<GamepadEvent>, s: Seq<(bool, Seq<char>)>) -> bool {
    evs.len() == s.len() && forall|i: int|
        0 <= i < s.len() ==> gp_event_matches(#[trigger] evs[i], s[i])
}

fn button_entry(i: usize) -> (r: (u16, &'static str))
    requires
        i < 14,
    ensures
        r.0 == button_mask(i as int),
        r.1@ == button_name(i as int),
{
    match i {
        0 => (GP_DPAD_UP, "DUp"),
        1 => (GP_DPAD_DOWN, "DDown"),
        2 => (GP_DPAD_LEFT, "DLeft"),
        3 => (GP_DPAD_RIGHT, "DRight"),
        4 => (GP_START, "Start"),
        5 => (GP_BACK, "Back"),
        6 => (GP_LEFT_THUMB, "LS"),
        7 => (GP_RIGHT_THUMB, "RS"),
        8 => (GP_LEFT_SHOULDER, "LB"),
        9 => (GP_RIGHT_SHOULDER, "RB"),
        10 => (GP_A, "A"),
        11 => (GP_B, "B"),
        12 => (GP_X, "X"),
        _ => (GP_Y, "Y"),
    }
}

/// Diffs two button bitmask samples into press and release events, one for
/// every button whose bit changed, in the fixed table order.
pub fn check_button_changes(prev: u16, current: u16) -> (evs: Vec<GamepadEvent>)
    ensures
        gp_events_match(evs@, spec_button_changes(prev, current)),
{
    let changed = prev ^ current;
    let mut evs: Vec<GamepadEvent> = Vec::new();
    let mut i: usize = 0;
    while i < 14
        invariant
            i <= 14,
            changed == prev ^ current,
            gp_events_match(evs@, spec_button_changes_upto(prev, current, i as int)),
        decreases 14 - i,
    {
        let (mask, name) = button_entry(i);
        let ghost evs0 = evs@;
        let ghost s_old = spec_button_changes_upto(prev, current, i as int);
        let ghost s_new = spec_button_changes_upto(prev, current, i as int + 1);
        if changed & mask != 0 {
            if current & mask != 0 {
                evs.push(GamepadEvent::ButtonPressed { button: name.to_owned() });
            } else {
                evs.push(GamepadEvent::ButtonReleased { button: name.to_owned() });
            }
            proof {
                let item = ((current & button_mask(i as int)) != 0, button_name(i as int));
                assert(s_new == s_old + seq![item]);
                assert(evs@ == evs0.push(evs@[evs0.len() as int]));
                assert forall|j: int| 0 <= j < s_new.len() implies gp_event_matches(
                    #[trigger] evs@[j],
                    s_new[j],
                ) by {
                    if j < s_old.len() {
                        assert(evs@[j] == evs0[j]);
                        assert(s_new[j] == s_old[j]);
                    } else {
                        assert(s_new[j] == item);
                    }
                }
            }
        } else {
            proof {
                assert(s_new =~= s_old);
            }
        }
        i = i + 1;
    }
    evs
}

/// One poll tick for one controller slot: a connected sample is diffed
/// against the stored bitmask, a disconnection resets the stored bitmask.
/// Returns the new stored bitmask, the new connection flag and the events of
/// this tick.
pub fn gamepad_slot_step(prev_mask: u16, connected: bool, sample: Option<u16>) -> (r: (
    u16,
    bool,
    Vec<GamepadEvent>,
))
    ensures
        match sample {
            Some(cur) => r.0 == cur && r.1 == true && gp_events_match(
                r.2@,
                spec_button_changes(prev_mask, cur),
            ),
            None => r.0 == (if connected {
                0u16
            } else {
                prev_mask
            }) && r.1 == false && r.2@ == Seq::<GamepadEvent>::empty(),
        },
{
    match sample {
        Some(cur) => {
            let evs = check_button_changes(prev_mask, cur);
            (cur, true, evs)
        },
        None => {
            if connected {
                (0, false, Vec::new())
            } else {
                (prev_mask, false, Vec::new())
            }
        },
    }
}

/// The key name a gamepad button resolves to in a configuration written for
/// the Xbox naming scheme; a name with no entry is kept as it is.
pub open spec fn spec_button_key_name(b: Seq<char>) -> Seq<char> {
    if b == "South"@ {
        "A"@
    } else if b == "East"@ {
        "B"@
    } else if b == "West"@ {
        "X"@
    } else if b == "North"@ {
        "Y"@
    } else if b == "LeftTrigger"@ {
        "LT"@
    } else if b == "RightTrigger"@ {
        "RT"@
    } else if b == "LeftTrigger2"@ {
        "LB"@
    } else if b == "RightTrigger2"@ {
        "RB"@
    } else if b == "Select"@ {
        "Back"@
    } else if b == "Start"@ {
        "Start"@
    } else if b == "Mode"@ {
        "Guide"@
    } else if b == "LeftThumb"@ {
        "LS"@
    } else if b == "RightThumb"@ {
        "RS"@
    } else if b == "DPadUp"@ {
        "DUp"@
    } else if b == "DPadDown"@ {
        "DDown"@
    } else if b == "DPadLeft"@ {
        "DLeft"@
    } else if b == "DPadRight"@ {
        "DRight"@
    } else {
        b
    }
}

/// Maps a gamepad button name to the key name it is looked up under.
pub fn button_to_key_name(button: &str) -> (r: String)
    ensures
        r@ == spec_button_key_name(button@),
{
    if str_eq(button, "South") {
        "A".to_owned()
    } else if str_eq(button, "East") {
        "B".to_owned()
    } else if str_eq(button, "West") {
        "X".to_owned()
    } else if str_eq(button, "North") {
        "Y".to_owned()
    } else if str_eq(button, "LeftTrigger") {
        "LT".to_owned()
    } else if str_eq(button, "RightTrigger") {
        "RT".to_owned()
    } else if str_eq(button, "LeftTrigger2") {
        "LB".to_owned()
    } else if str_eq(button, "RightTrigger2") {
        "RB".to_owned()
    } else if str_eq(button, "Select") {
        "Back".to_owned()
    } else if str_eq(button, "Start") {
        "Start".to_owned()
    } else if str_eq(button, "Mode") {
        "Guide".to_owned()
    } else if str_eq(button, "LeftThumb") {
        "LS".to_owned()
    } else if str_eq(button, "RightThumb") {
        "RS".to_owned()
    } else if str_eq(button, "DPadUp") {
        "DUp".to_owned()
    } else if str_eq(button, "DPadDown") {
        "DDown".to_owned()
    } else if str_eq(button, "DPadLeft") {
        "DLeft".to_owned()
    } else if str_eq(button, "DPadRight") {
        "DRight".to_owned()
    } else {
        button.to_owned()
    }
}

/// Wraps a gamepad event as the macro event the executor consumes.
pub fn forward_gamepad_event(ev: GamepadEvent) -> (m: MacroEvent)
    ensures
        (ev matches GamepadEvent::ButtonPressed { button } ==> m matches
            MacroEvent::GamepadButtonPressed { button: b } && b@ == button@),
        (ev matches GamepadEvent::ButtonReleased { button } ==> m matches
            MacroEvent::GamepadButtonReleased { button: b } && b@ == button@),
{
    match ev {
        GamepadEvent::ButtonPressed { button } => MacroEvent::GamepadButtonPressed { button },
        GamepadEvent::ButtonReleased { button } => MacroEvent::GamepadButtonReleased { button },
    }
}

} // verus!
