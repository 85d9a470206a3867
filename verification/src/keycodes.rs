//! The key-name codec: the pure mapping between platform virtual-key codes
//! and canonical symbolic key names, plus the string comparisons the rest of
//! the engine needs.

use vstd::prelude::*;
use vstd::string::StrSliceExecFns;

verus! {

// Virtual-key codes of the platform. These values are fixed by the Windows
// keyboard interface.
pub const VK_BACK: u16 = 0x08;
pub const VK_TAB: u16 = 0x09;
pub const VK_RETURN: u16 = 0x0D;
pub const VK_SHIFT: u16 = 0x10;
pub const VK_CONTROL: u16 = 0x11;
pub const VK_MENU: u16 = 0x12;
pub const VK_ESCAPE: u16 = 0x1B;
pub const VK_SPACE: u16 = 0x20;
/// The backtick key.
pub const VK_OEM_3: u16 = 0xC0;
/// The apostrophe key.
pub const VK_OEM_7: u16 = 0xDE;

/// The code point of a character with ASCII lower-case letters folded to
/// upper case; every other character is left as it is.
pub open spec fn upper_code(c: char) -> u32 {
    if 97 <= c as u32 <= 122 {
        (c as u32 - 32) as u32
    } else {
        c as u32
    }
}

/// A string as its sequence of case-folded code points.
pub open spec fn upper_seq(s: Seq<char>) -> Seq<u32> {
    s.map_values(|c: char| upper_code(c))
}

/// Two key names match when they are equal up to ASCII case.
pub open spec fn key_matches(a: Seq<char>, b: Seq<char>) -> bool {
    upper_seq(a) == upper_seq(b)
}

/// Exact string equality.
pub fn str_eq(a: &str, b: &str) -> (r: bool)
    ensures
        r == (a@ == b@),
{
    let alen = a.unicode_len();
    let blen = b.unicode_len();
    if alen != blen {
        return false;
    }
    let mut i: usize = 0;
    while i < alen
        invariant
            i <= alen,
            alen == a@.len(),
            blen == b@.len(),
            alen == blen,
            forall|j: int| 0 <= j < i ==> a@[j] == b@[j],
        decreases alen - i,
    {
        let ca = a.get_char(i);
        let cb = b.get_char(i);
        if ca != cb {
            return false;
        }
        i = i + 1;
    }
    proof {
        assert(a@ =~= b@);
    }
    true
}

/// String equality up to ASCII case.
pub fn eq_ignore_ascii_case(a: &str, b: &str) -> (r: bool)
    ensures
        r == key_matches(a@, b@),
{
    let alen = a.unicode_len();
    let blen = b.unicode_len();
    if alen != blen {
        proof {
            assert(upper_seq(a@).len() != upper_seq(b@).len());
        }
        return false;
    }
    let mut i: usize = 0;
    while i < alen
        invariant
            i <= alen,
            alen == a@.len(),
            blen == b@.len(),
            alen == blen,
            forall|j: int| 0 <= j < i ==> upper_code(a@[j]) == upper_code(b@[j]),
        decreases alen - i,
    {
        let ca = a.get_char(i) as u32;
        let cb = b.get_char(i) as u32;
        let ua = if 97 <= ca && ca <= 122 { ca - 32 } else { ca };
        let ub = if 97 <= cb && cb <= 122 { cb - 32 } else { cb };
        if ua != ub {
            proof {
                assert(upper_seq(a@)[i as int] != upper_seq(b@)[i as int]);
            }
            return false;
        }
        i = i + 1;
    }
    proof {
        assert(upper_seq(a@) =~= upper_seq(b@));
    }
    true
}

/// The virtual-key code of a single symbolic character: letters (either
/// case) and digits carry their upper-case ASCII code, everything else has
/// no code.
pub open spec fn single_key_code(c: char) -> Option<u16> {
    let u = upper_code(c);
    if 65 <= u <= 90 || 48 <= u <= 57 {
        Some(u as u16)
    } else {
        None
    }
}

/// The virtual-key code a character of text is typed with: ASCII letters,
/// digits, space, carriage return, line feed and tab are mapped, everything
/// else is unsupported.
pub open spec fn char_vk(c: char) -> Option<u16> {
    let x = c as u32;
    if 97 <= x <= 122 {
        Some((x - 32) as u16)
    } else if 65 <= x <= 90 || 48 <= x <= 57 {
        Some(x as u16)
    } else if x == 32 {
        Some(VK_SPACE)
    } else if x == 13 || x == 10 {
        Some(VK_RETURN)
    } else if x == 9 {
        Some(VK_TAB)
    } else {
        None
    }
}

/// Maps a character of text to the virtual-key code it is typed with.
pub fn char_to_vk(ch: char) -> (r: Option<u16>)
    ensures
        r == char_vk(ch),
{
    let x = ch as u32;
    if 97 <= x && x <= 122 {
        Some((x - 32) as u16)
    } else if (65 <= x && x <= 90) || (48 <= x && x <= 57) {
        Some(x as u16)
    } else if x == 32 {
        Some(VK_SPACE)
    } else if x == 13 || x == 10 {
        Some(VK_RETURN)
    } else if x == 9 {
        Some(VK_TAB)
    } else {
        None
    }
}

/// One upper-case hexadecimal digit.
pub open spec fn hex_digit_seq(d: int) -> Seq<char> {
    if d == 0 {
        "0"@
    } else if d == 1 {
        "1"@
    } else if d == 2 {
        "2"@
    } else if d == 3 {
        "3"@
    } else if d == 4 {
        "4"@
    } else if d == 5 {
        "5"@
    } else if d == 6 {
        "6"@
    } else if d == 7 {
        "7"@
    } else if d == 8 {
        "8"@
    } else if d == 9 {
        "9"@
    } else if d == 10 {
        "A"@
    } else if d == 11 {
        "B"@
    } else if d == 12 {
        "C"@
    } else if d == 13 {
        "D"@
    } else if d == 14 {
        "E"@
    } else {
        "F"@
    }
}

/// A number rendered as upper-case hexadecimal digits, most significant
/// first and without leading zeros.
pub open spec fn hex_seq(n: nat) -> Seq<char>
    decreases n,
{
    if n < 16 {
        hex_digit_seq(n as int)
    } else {
        hex_seq(n / 16) + hex_digit_seq((n % 16) as int)
    }
}

fn hex_digit_str(d: u32) -> (r: &'static str)
    requires
        d < 16,
    ensures
        r@ == hex_digit_seq(d as int),
{
    match d {
        0 => "0",
        1 => "1",
        2 => "2",
        3 => "3",
        4 => "4",
        5 => "5",
        6 => "6",
        7 => "7",
        8 => "8",
        9 => "9",
        10 => "A",
        11 => "B",
        12 => "C",
        13 => "D",
        14 => "E",
        _ => "F",
    }
}

/// The canonical symbolic name of a virtual-key code: letters, digits,
/// F1 through F24, the numpad digits, the named control keys and the two
/// punctuation keys. Every unmapped code renders to a raw fallback of the
/// form `VK_` followed by the code in hexadecimal.
pub open spec fn vk_name(vk: u32) -> Seq<char> {
    if vk == 0x41 {
        "A"@
    } else if vk == 0x42 {
        "B"@
    } else if vk == 0x43 {
        "C"@
    } else if vk == 0x44 {
        "D"@
    } else if vk == 0x45 {
        "E"@
    } else if vk == 0x46 {
        "F"@
    } else if vk == 0x47 {
        "G"@
    } else if vk == 0x48 {
        "H"@
    } else if vk == 0x49 {
        "I"@
    } else if vk == 0x4A {
        "J"@
    } else if vk == 0x4B {
        "K"@
    } else if vk == 0x4C {
        "L"@
    } else if vk == 0x4D {
        "M"@
    } else if vk == 0x4E {
        "N"@
    } else if vk == 0x4F {
        "O"@
    } else if vk == 0x50 {
        "P"@
    } else if vk == 0x51 {
        "Q"@
    } else if vk == 0x52 {
        "R"@
    } else if vk == 0x53 {
        "S"@
    } else if vk == 0x54 {
        "T"@
    } else if vk == 0x55 {
        "U"@
    } else if vk == 0x56 {
        "V"@
    } else if vk == 0x57 {
        "W"@
    } else if vk == 0x58 {
        "X"@
    } else if vk == 0x59 {
        "Y"@
    } else if vk == 0x5A {
        "Z"@
    } else if 0x30 <= vk <= 0x39 {
        hex_digit_seq(vk - 0x30)
    } else if 0x60 <= vk <= 0x69 {
        "Numpad"@ + hex_digit_seq(vk - 0x60)
    } else if 0x70 <= vk <= 0x87 {
        "F"@ + dec_seq(vk - 0x6F)
    } else if vk == VK_OEM_3 as u32 {
        "`"@
    } else if vk == VK_OEM_7 as u32 {
        "'"@
    } else if vk == VK_SPACE as u32 {
        "Space"@
    } else if vk == VK_RETURN as u32 {
        "Enter"@
    } else if vk == VK_TAB as u32 {
        "Tab"@
    } else if vk == VK_BACK as u32 {
        "Backspace"@
    } else if vk == VK_ESCAPE as u32 {
        "Escape"@
    } else if vk == VK_SHIFT as u32 {
        "Shift"@
    } else if vk == VK_CONTROL as u32 {
        "Ctrl"@
    } else if vk == VK_MENU as u32 {
        "Alt"@
    } else {
        "VK_"@ + hex_seq(vk as nat)
    }
}

/// Whether a virtual-key code belongs to the mapped set of the codec:
/// letters, digits, the numpad digits, F1 through F24, the named control
/// keys and the two punctuation keys. Every other code renders only to the
/// raw fallback name, which the classifier never looks up, so a fallback
/// name can never match user configuration.
pub open spec fn vk_mapped(vk: u32) -> bool {
    ||| 0x41 <= vk <= 0x5A
    ||| 0x30 <= vk <= 0x39
    ||| 0x60 <= vk <= 0x69
    ||| 0x70 <= vk <= 0x87
    ||| vk == VK_OEM_3 as u32
    ||| vk == VK_OEM_7 as u32
    ||| vk == VK_SPACE as u32
    ||| vk == VK_RETURN as u32
    ||| vk == VK_TAB as u32
    ||| vk == VK_BACK as u32
    ||| vk == VK_ESCAPE as u32
    ||| vk == VK_SHIFT as u32
    ||| vk == VK_CONTROL as u32
    ||| vk == VK_MENU as u32
}

/// Decides whether a virtual-key code has a canonical symbolic name.
pub fn vk_is_mapped(vk: u32) -> (r: bool)
    ensures
        r == vk_mapped(vk),
{
    (0x41 <= vk && vk <= 0x5A) || (0x30 <= vk && vk <= 0x39) || (0x60 <= vk && vk <= 0x69) || (
    0x70 <= vk && vk <= 0x87) || vk == VK_OEM_3 as u32 || vk == VK_OEM_7 as u32 || vk
        == VK_SPACE as u32 || vk == VK_RETURN as u32 || vk == VK_TAB as u32 || vk == VK_BACK as u32
        || vk == VK_ESCAPE as u32 || vk == VK_SHIFT as u32 || vk == VK_CONTROL as u32 || vk
        == VK_MENU as u32
}

/// A number below 100 rendered as decimal digits without leading zeros.
pub open spec fn dec_seq(n: int) -> Seq<char>
    recommends
        0 <= n < 100,
{
    if n < 10 {
        hex_digit_seq(n)
    } else {
        hex_digit_seq(n / 10) + hex_digit_seq(n % 10)
    }
}

fn dec_string(n: u32) -> (r: String)
    requires
        n < 100,
    ensures
        r@ == dec_seq(n as int),
{
    if n < 10 {
        hex_digit_str(n).to_owned()
    } else {
        hex_digit_str(n / 10).to_owned().concat(hex_digit_str(n % 10))
    }
}

/// Renders a virtual-key code as its canonical symbolic name.
pub fn vk_to_key_name(vk: u32) -> (r: String)
    ensures
        r@ == vk_name(vk),
{
    if vk == 0x41 {
        "A".to_owned()
    } else if vk == 0x42 {
        "B".to_owned()
    } else if vk == 0x43 {
        "C".to_owned()
    } else if vk == 0x44 {
        "D".to_owned()
    } else if vk == 0x45 {
        "E".to_owned()
    } else if vk == 0x46 {
        "F".to_owned()
    } else if vk == 0x47 {
        "G".to_owned()
    } else if vk == 0x48 {
        "H".to_owned()
    } else if vk == 0x49 {
        "I".to_owned()
    } else if vk == 0x4A {
        "J".to_owned()
    } else if vk == 0x4B {
        "K".to_owned()
    } else if vk == 0x4C {
        "L".to_owned()
    } else if vk == 0x4D {
        "M".to_owned()
    } else if vk == 0x4E {
        "N".to_owned()
    } else if vk == 0x4F {
        "O".to_owned()
    } else if vk == 0x50 {
        "P".to_owned()
    } else if vk == 0x51 {
        "Q".to_owned()
    } else if vk == 0x52 {
        "R".to_owned()
    } else if vk == 0x53 {
        "S".to_owned()
    } else if vk == 0x54 {
        "T".to_owned()
    } else if vk == 0x55 {
        "U".to_owned()
    } else if vk == 0x56 {
        "V".to_owned()
    } else if vk == 0x57 {
        "W".to_owned()
    } else if vk == 0x58 {
        "X".to_owned()
    } else if vk == 0x59 {
        "Y".to_owned()
    } else if vk == 0x5A {
        "Z".to_owned()
    } else if 0x30 <= vk && vk <= 0x39 {
        hex_digit_str(vk - 0x30).to_owned()
    } else if 0x60 <= vk && vk <= 0x69 {
        "Numpad".to_owned().concat(hex_digit_str(vk - 0x60))
    } else if 0x70 <= vk && vk <= 0x87 {
        let num = dec_string(vk - 0x6F);
        "F".to_owned().concat(num.as_str())
    } else if vk == VK_OEM_3 as u32 {
        "`".to_owned()
    } else if vk == VK_OEM_7 as u32 {
        "'".to_owned()
    } else if vk == VK_SPACE as u32 {
        "Space".to_owned()
    } else if vk == VK_RETURN as u32 {
        "Enter".to_owned()
    } else if vk == VK_TAB as u32 {
        "Tab".to_owned()
    } else if vk == VK_BACK as u32 {
        "Backspace".to_owned()
    } else if vk == VK_ESCAPE as u32 {
        "Escape".to_owned()
    } else if vk == VK_SHIFT as u32 {
        "Shift".to_owned()
    } else if vk == VK_CONTROL as u32 {
        "Ctrl".to_owned()
    } else if vk == VK_MENU as u32 {
        "Alt".to_owned()
    } else {
        let hex = hex_string(vk);
        "VK_".to_owned().concat(hex.as_str())
    }
}

/// The virtual-key code a symbolic key name resolves to: a single-character
/// name is a letter or digit, a longer name is one of the named control
/// keys, matched without regard to ASCII case.
pub open spec fn key_code(s: Seq<char>) -> Option<u16> {
    if s.len() == 1 {
        single_key_code(s[0])
    } else if key_matches(s, "SPACE"@) {
        Some(VK_SPACE)
    } else if key_matches(s, "ENTER"@) {
        Some(VK_RETURN)
    } else if key_matches(s, "TAB"@) {
        Some(VK_TAB)
    } else if key_matches(s, "BACKSPACE"@) {
        Some(VK_BACK)
    } else if key_matches(s, "ESC"@) {
        Some(VK_ESCAPE)
    } else if key_matches(s, "SHIFT"@) {
        Some(VK_SHIFT)
    } else if key_matches(s, "CTRL"@) {
        Some(VK_CONTROL)
    } else if key_matches(s, "ALT"@) {
        Some(VK_MENU)
    } else {
        None
    }
}

/// Resolves a symbolic key name to its virtual-key code.
pub fn parse_key_string(key: &str) -> (r: Option<u16>)
    ensures
        r == key_code(key@),
{
    let n = key.unicode_len();
    if n == 1 {
        let c = key.get_char(0);
        let u = {
            let x = c as u32;
            if 97 <= x && x <= 122 {
                x - 32
            } else {
                x
            }
        };
        if (65 <= u && u <= 90) || (48 <= u && u <= 57) {
            Some(u as u16)
        } else {
            None
        }
    } else if eq_ignore_ascii_case(key, "SPACE") {
        Some(VK_SPACE)
    } else if eq_ignore_ascii_case(key, "ENTER") {
        Some(VK_RETURN)
    } else if eq_ignore_ascii_case(key, "TAB") {
        Some(VK_TAB)
    } else if eq_ignore_ascii_case(key, "BACKSPACE") {
        Some(VK_BACK)
    } else if eq_ignore_ascii_case(key, "ESC") {
        Some(VK_ESCAPE)
    } else if eq_ignore_ascii_case(key, "SHIFT") {
        Some(VK_SHIFT)
    } else if eq_ignore_ascii_case(key, "CTRL") {
        Some(VK_CONTROL)
    } else if eq_ignore_ascii_case(key, "ALT") {
        Some(VK_MENU)
    } else {
        None
    }
}

fn hex_string(n: u32) -> (r: String)
    ensures
        r@ == hex_seq(n as nat),
    decreases n,
{
    if n < 16 {
        hex_digit_str(n).to_owned()
    } else {
        let rest = hex_string(n / 16);
        rest.concat(hex_digit_str(n % 16))
    }
}

} // verus!
