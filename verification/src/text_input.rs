//! External (hardware) keyboard support for iOS: `UIKeyboardHIDUsage` codes
//! and `UIKeyModifierFlags` bitmasks become string-keyed keystrokes.

use vstd::prelude::*;
use crate::strings::{char_to_string, push_char, push_hex, str_eq, hex_lower_2};

verus! {

/// Keyboard-modifier state decoded from `UIKeyModifierFlags`.
#[derive(Copy, Clone, Debug, PartialEq, Eq)]
pub struct Modifiers {
    pub control: bool,
    pub alt: bool,
    pub shift: bool,
    /// The Command key (the "platform" modifier).
    pub platform: bool,
    pub function: bool,
}

impl Modifiers {
    /// No modifier held.
    pub open spec fn none() -> Modifiers {
        Modifiers { control: false, alt: false, shift: false, platform: false, function: false }
    }
}

impl Default for Modifiers {
    fn default() -> (m: Self)
        ensures
            m == Modifiers::none(),
    {
        Modifiers { control: false, alt: false, shift: false, platform: false, function: false }
    }
}

/// Shift bit of `UIKeyModifierFlags` (bit 17).
pub const FLAG_SHIFT: u32 = 0x20000;
/// Control bit of `UIKeyModifierFlags` (bit 18).
pub const FLAG_CONTROL: u32 = 0x40000;
/// Alternate (Option) bit of `UIKeyModifierFlags` (bit 19).
pub const FLAG_ALT: u32 = 0x80000;
/// Command bit of `UIKeyModifierFlags` (bit 20).
pub const FLAG_COMMAND: u32 = 0x100000;

/// The modifiers that a flag word encodes.
pub open spec fn spec_modifiers(flags: u32) -> Modifiers {
    Modifiers {
        control: flags & FLAG_CONTROL != 0,
        alt: flags & FLAG_ALT != 0,
        shift: flags & FLAG_SHIFT != 0,
        platform: flags & FLAG_COMMAND != 0,
        function: false,
    }
}

/// Decode a `UIKeyModifierFlags` bitmask into a [`Modifiers`] value.
pub fn modifier_flags_to_modifiers(flags: u32) -> (m: Modifiers)
    ensures
        m == spec_modifiers(flags),
{
    Modifiers {
        control: flags & FLAG_CONTROL != 0,
        alt: flags & FLAG_ALT != 0,
        shift: flags & FLAG_SHIFT != 0,
        platform: flags & FLAG_COMMAND != 0,
        function: false,
    }
}

/// The name of a special key, or the empty sequence when `code` names none.
pub open spec fn special_key_name(code: u32) -> Seq<char> {
    match code {
        0x28 => "enter"@,
        0x29 => "escape"@,
        0x2A => "backspace"@,
        0x2B => "tab"@,
        0x2C => " "@,
        0x2D => "-"@,
        0x2E => "="@,
        0x2F => "["@,
        0x30 => "]"@,
        0x31 => "\\"@,
        0x32 => "#"@,
        0x33 => ";"@,
        0x34 => "'"@,
        0x35 => "`"@,
        0x36 => ","@,
        0x37 => "."@,
        0x38 => "/"@,
        0x39 => "caps_lock"@,
        0x3A => "f1"@,
        0x3B => "f2"@,
        0x3C => "f3"@,
        0x3D => "f4"@,
        0x3E => "f5"@,
        0x3F => "f6"@,
        0x40 => "f7"@,
        0x41 => "f8"@,
        0x42 => "f9"@,
        0x43 => "f10"@,
        0x44 => "f11"@,
        0x45 => "f12"@,
        0x49 => "insert"@,
        0x4A => "home"@,
        0x4B => "pageup"@,
        0x4C => "delete"@,
        0x4D => "end"@,
        0x4E => "pagedown"@,
        0x4F => "right"@,
        0x50 => "left"@,
        0x51 => "down"@,
        0x52 => "up"@,
        0x53 => "num_lock"@,
        0x54 => "numpad_/"@,
        0x55 => "numpad_*"@,
        0x56 => "numpad_-"@,
        0x57 => "numpad_+"@,
        0x58 => "numpad_enter"@,
        0x59 => "numpad_1"@,
        0x5A => "numpad_2"@,
        0x5B => "numpad_3"@,
        0x5C => "numpad_4"@,
        0x5D => "numpad_5"@,
        0x5E => "numpad_6"@,
        0x5F => "numpad_7"@,
        0x60 => "numpad_8"@,
        0x61 => "numpad_9"@,
        0x62 => "numpad_0"@,
        0x63 => "numpad_."@,
        0x68 => "f13"@,
        0x69 => "f14"@,
        0x6A => "f15"@,
        0x6B => "f16"@,
        0x6C => "f17"@,
        0x6D => "f18"@,
        0x6E => "f19"@,
        0x6F => "f20"@,
        0x70 => "f21"@,
        0x71 => "f22"@,
        0x72 => "f23"@,
        0x73 => "f24"@,
        0xE0 => "control"@,
        0xE1 => "shift"@,
        0xE2 => "alt"@,
        0xE3 => "meta"@,
        0xE4 => "control"@,
        0xE5 => "shift"@,
        0xE6 => "alt"@,
        0xE7 => "meta"@,
        _ => Seq::empty(),
    }
}

/// The canonical GPUI key name of a HID usage code: lower-case letters and
/// digits, named special keys, and `unknown-XX` (hex) for anything else.
pub open spec fn key_name(code: u32) -> Seq<char> {
    if 0x04 <= code <= 0x1D {
        seq![(('a' as nat) + (code - 0x04)) as char]
    } else if 0x1E <= code <= 0x26 {
        seq![(('1' as nat) + (code - 0x1E)) as char]
    } else if code == 0x27 {
        seq!['0']
    } else if special_key_name(code).len() > 0 {
        special_key_name(code)
    } else {
        "unknown-"@ + hex_lower_2(code as nat)
    }
}

fn special_key_string(code: u32) -> (r: Option<String>)
    ensures
        match r {
            Some(s) => s@ == special_key_name(code) && s@.len() > 0,
            None => special_key_name(code).len() == 0,
        },
{
    let lit: &str = match code {
        0x28 => "enter",
        0x29 => "escape",
        0x2A => "backspace",
        0x2B => "tab",
        0x2C => " ",
        0x2D => "-",
        0x2E => "=",
        0x2F => "[",
        0x30 => "]",
        0x31 => "\\",
        0x32 => "#",
        0x33 => ";",
        0x34 => "'",
        0x35 => "`",
        0x36 => ",",
        0x37 => ".",
        0x38 => "/",
        0x39 => "caps_lock",
        0x3A => "f1",
        0x3B => "f2",
        0x3C => "f3",
        0x3D => "f4",
        0x3E => "f5",
        0x3F => "f6",
        0x40 => "f7",
        0x41 => "f8",
        0x42 => "f9",
        0x43 => "f10",
        0x44 => "f11",
        0x45 => "f12",
        0x49 => "insert",
        0x4A => "home",
        0x4B => "pageup",
        0x4C => "delete",
        0x4D => "end",
        0x4E => "pagedown",
        0x4F => "right",
        0x50 => "left",
        0x51 => "down",
        0x52 => "up",
        0x53 => "num_lock",
        0x54 => "numpad_/",
        0x55 => "numpad_*",
        0x56 => "numpad_-",
        0x57 => "numpad_+",
        0x58 => "numpad_enter",
        0x59 => "numpad_1",
        0x5A => "numpad_2",
        0x5B => "numpad_3",
        0x5C => "numpad_4",
        0x5D => "numpad_5",
        0x5E => "numpad_6",
        0x5F => "numpad_7",
        0x60 => "numpad_8",
        0x61 => "numpad_9",
        0x62 => "numpad_0",
        0x63 => "numpad_.",
        0x68 => "f13",
        0x69 => "f14",
        0x6A => "f15",
        0x6B => "f16",
        0x6C => "f17",
        0x6D => "f18",
        0x6E => "f19",
        0x6F => "f20",
        0x70 => "f21",
        0x71 => "f22",
        0x72 => "f23",
        0x73 => "f24",
        0xE0 => "control",
        0xE1 => "shift",
        0xE2 => "alt",
        0xE3 => "meta",
        0xE4 => "control",
        0xE5 => "shift",
        0xE6 => "alt",
        0xE7 => "meta",
        _ => {
            return None;
        },
    };
    proof {
        reveal_strlit("enter");
        reveal_strlit("escape");
        reveal_strlit("backspace");
        reveal_strlit("tab");
        reveal_strlit(" ");
        reveal_strlit("-");
        reveal_strlit("=");
        reveal_strlit("[");
        reveal_strlit("]");
        reveal_strlit("\\");
        reveal_strlit("#");
        reveal_strlit(";");
        reveal_strlit("'");
        reveal_strlit("`");
        reveal_strlit(",");
        reveal_strlit(".");
        reveal_strlit("/");
        reveal_strlit("caps_lock");
        reveal_strlit("f1");
        reveal_strlit("f2");
        reveal_strlit("f3");
        reveal_strlit("f4");
        reveal_strlit("f5");
        reveal_strlit("f6");
        reveal_strlit("f7");
        reveal_strlit("f8");
        reveal_strlit("f9");
        reveal_strlit("f10");
        reveal_strlit("f11");
        reveal_strlit("f12");
        reveal_strlit("insert");
        reveal_strlit("home");
        reveal_strlit("pageup");
        reveal_strlit("delete");
        reveal_strlit("end");
        reveal_strlit("pagedown");
        reveal_strlit("right");
        reveal_strlit("left");
        reveal_strlit("down");
        reveal_strlit("up");
        reveal_strlit("num_lock");
        reveal_strlit("numpad_/");
        reveal_strlit("numpad_*");
        reveal_strlit("numpad_-");
        reveal_strlit("numpad_+");
        reveal_strlit("numpad_enter");
        reveal_strlit("numpad_1");
        reveal_strlit("numpad_2");
        reveal_strlit("numpad_3");
        reveal_strlit("numpad_4");
        reveal_strlit("numpad_5");
        reveal_strlit("numpad_6");
        reveal_strlit("numpad_7");
        reveal_strlit("numpad_8");
        reveal_strlit("numpad_9");
        reveal_strlit("numpad_0");
        reveal_strlit("numpad_.");
        reveal_strlit("f13");
        reveal_strlit("f14");
        reveal_strlit("f15");
        reveal_strlit("f16");
        reveal_strlit("f17");
        reveal_strlit("f18");
        reveal_strlit("f19");
        reveal_strlit("f20");
        reveal_strlit("f21");
        reveal_strlit("f22");
        reveal_strlit("f23");
        reveal_strlit("f24");
        reveal_strlit("control");
        reveal_strlit("shift");
        reveal_strlit("alt");
        reveal_strlit("meta");
    }
    Some(String::from_str(lit))
}

/// Convert a `UIKeyboardHIDUsage` code into the canonical GPUI key string.
pub fn key_code_to_string(code: u32) -> (s: String)
    ensures
        s@ == key_name(code),
{
    if 0x04 <= code && code <= 0x1D {
        let c = (97u8 + ((code - 0x04) as u8)) as char;
        char_to_string(c)
    } else if 0x1E <= code && code <= 0x26 {
        let c = (49u8 + ((code - 0x1E) as u8)) as char;
        char_to_string(c)
    } else if code == 0x27 {
        char_to_string('0')
    } else {
        match special_key_string(code) {
            Some(s) => s,
            None => {
                let prefix = "unknown-";
                proof {
                    reveal_strlit("unknown-");
                }
                let mut s = String::from_str(prefix);
                if code < 16 {
                    push_char(&mut s, '0');
                }
                push_hex(&mut s, code);
                assert(s@ =~= key_name(code));
                s
            },
        }
    }
}

/// A fully-decoded keystroke.
#[derive(Clone, Debug, PartialEq, Eq)]
pub struct Keystroke {
    pub modifiers: Modifiers,
    /// The key name (e.g. `"a"`, `"enter"`, `"f5"`, `"up"`).
    pub key: String,
    /// The printable character produced by this keystroke, if any.
    pub key_char: Option<String>,
}

/// A key-down event.
#[derive(Clone, Debug)]
pub struct KeyDownEvent {
    pub keystroke: Keystroke,
    /// `true` when the key is being held and this is a repeat event.
    pub is_held: bool,
    /// When `true`, consumers should prefer raw character input over
    /// key-binding lookup.
    pub prefer_character_input: bool,
}

/// A key-up event.
#[derive(Clone, Debug)]
pub struct KeyUpEvent {
    pub keystroke: Keystroke,
}

/// A platform-level keyboard event.
#[derive(Clone, Debug)]
pub enum PlatformKeyEvent {
    KeyDown(KeyDownEvent),
    KeyUp(KeyUpEvent),
}

/// ASCII letter.
pub open spec fn is_ascii_letter(c: char) -> bool {
    ('a' <= c && c <= 'z') || ('A' <= c && c <= 'Z')
}

/// ASCII upper-case of `c` (other characters unchanged).
pub open spec fn ascii_upper(c: char) -> char {
    if 'a' <= c && c <= 'z' {
        ((c as nat) - 32) as char
    } else {
        c
    }
}

/// The text that a key named `key` types under `modifiers`: none under
/// Control or Command, the (shifted) character for single-character keys,
/// and none otherwise.
pub open spec fn printable_char(key: Seq<char>, modifiers: Modifiers) -> Option<Seq<char>> {
    if modifiers.control || modifiers.platform {
        None
    } else if key.len() == 1 {
        if is_ascii_letter(key[0]) && modifiers.shift {
            Some(seq![ascii_upper(key[0])])
        } else {
            Some(key)
        }
    } else if key == " "@ {
        Some(" "@)
    } else {
        None
    }
}

/// The view of an optional string.
pub open spec fn opt_view(o: Option<String>) -> Option<Seq<char>> {
    match o {
        Some(s) => Some(s@),
        None => None,
    }
}

fn printable_key_char(key: &str, modifiers: &Modifiers) -> (r: Option<String>)
    ensures
        opt_view(r) == printable_char(key@, *modifiers),
{
    if modifiers.control || modifiers.platform {
        return None;
    }
    if key.unicode_len() == 1 {
        let c = key.get_char(0);
        let is_letter = ('a' <= c && c <= 'z') || ('A' <= c && c <= 'Z');
        if is_letter && modifiers.shift {
            let u = if 'a' <= c && c <= 'z' {
                ((c as u8) - 32) as char
            } else {
                c
            };
            return Some(char_to_string(u));
        }
        return Some(String::from_str(key));
    }
    let space = " ";
    if str_eq(key, space) {
        let mut s = String::new();
        push_char(&mut s, ' ');
        proof {
            reveal_strlit(" ");
        }
        assert(s@ =~= " "@);
        return Some(s);
    }
    None
}

/// The keystroke that `key_code` and `modifier_flags` describe.
pub open spec fn spec_keystroke(k: Keystroke, key_code: u32, modifier_flags: u32) -> bool {
    &&& k.modifiers == spec_modifiers(modifier_flags)
    &&& k.key@ == key_name(key_code)
    &&& opt_view(k.key_char) == printable_char(key_name(key_code), spec_modifiers(modifier_flags))
}

/// Build a key-down event for a character typed on the soft keyboard.
pub fn character_to_key_down(c: char) -> (e: PlatformKeyEvent)
    ensures
        e matches PlatformKeyEvent::KeyDown(d) && {
            &&& d.keystroke.modifiers == Modifiers::none()
            &&& d.keystroke.key@ == seq![c]
            &&& opt_view(d.keystroke.key_char) == Some(seq![c])
            &&& !d.is_held
            &&& d.prefer_character_input
        },
{
    let s = char_to_string(c);
    let key_char = char_to_string(c);
    PlatformKeyEvent::KeyDown(KeyDownEvent {
        keystroke: Keystroke { modifiers: Modifiers::default(), key: s, key_char: Some(key_char) },
        is_held: false,
        prefer_character_input: true,
    })
}

/// Build a backspace key-down event.
pub fn backspace_key_down() -> (e: PlatformKeyEvent)
    ensures
        e matches PlatformKeyEvent::KeyDown(d) && {
            &&& d.keystroke.modifiers == Modifiers::none()
            &&& d.keystroke.key@ == "backspace"@
            &&& d.keystroke.key_char is None
            &&& !d.is_held
            &&& !d.prefer_character_input
        },
{
    PlatformKeyEvent::KeyDown(KeyDownEvent {
        keystroke: Keystroke {
            modifiers: Modifiers::default(),
            key: String::from_str("backspace"),
            key_char: None,
        },
        is_held: false,
        prefer_character_input: false,
    })
}

/// Build a key-down event from a HID usage code and modifier flags.
pub fn key_code_to_key_down(key_code: u32, modifier_flags: u32) -> (e: PlatformKeyEvent)
    ensures
        e matches PlatformKeyEvent::KeyDown(d) && {
            &&& spec_keystroke(d.keystroke, key_code, modifier_flags)
            &&& !d.is_held
            &&& !d.prefer_character_input
        },
{
    let modifiers = modifier_flags_to_modifiers(modifier_flags);
    let key = key_code_to_string(key_code);
    let key_char = printable_key_char(key.as_str(), &modifiers);
    PlatformKeyEvent::KeyDown(KeyDownEvent {
        keystroke: Keystroke { modifiers, key, key_char },
        is_held: false,
        prefer_character_input: false,
    })
}

/// Build a key-up event from a HID usage code and modifier flags.
pub fn key_code_to_key_up(key_code: u32, modifier_flags: u32) -> (e: PlatformKeyEvent)
    ensures
        e matches PlatformKeyEvent::KeyUp(u) && spec_keystroke(u.keystroke, key_code, modifier_flags),
{
    let modifiers = modifier_flags_to_modifiers(modifier_flags);
    let key = key_code_to_string(key_code);
    let key_char = printable_key_char(key.as_str(), &modifiers);
    PlatformKeyEvent::KeyUp(KeyUpEvent { keystroke: Keystroke { modifiers, key, key_char } })
}

/// Modifiers combine flag by flag: the flags `a | b` hold a modifier exactly
/// when `a` or `b` holds it, and a flag word without the four modifier bits
/// holds none.
pub proof fn lemma_modifier_flags_combine(a: u32, b: u32)
    ensures
        spec_modifiers(a | b).shift == (spec_modifiers(a).shift || spec_modifiers(b).shift),
        spec_modifiers(a | b).control == (spec_modifiers(a).control || spec_modifiers(b).control),
        spec_modifiers(a | b).alt == (spec_modifiers(a).alt || spec_modifiers(b).alt),
        spec_modifiers(a | b).platform == (spec_modifiers(a).platform || spec_modifiers(b).platform),
        a & (FLAG_SHIFT | FLAG_CONTROL | FLAG_ALT | FLAG_COMMAND) == 0 ==> spec_modifiers(a) == Modifiers::none(),
{
    assert((a | b) & 0x20000u32 != 0 <==> (a & 0x20000u32 != 0 || b & 0x20000u32 != 0)) by (bit_vector);
    assert((a | b) & 0x40000u32 != 0 <==> (a & 0x40000u32 != 0 || b & 0x40000u32 != 0)) by (bit_vector);
    assert((a | b) & 0x80000u32 != 0 <==> (a & 0x80000u32 != 0 || b & 0x80000u32 != 0)) by (bit_vector);
    assert((a | b) & 0x100000u32 != 0 <==> (a & 0x100000u32 != 0 || b & 0x100000u32 != 0)) by (bit_vector);
    assert(a & (0x20000u32 | 0x40000u32 | 0x80000u32 | 0x100000u32) == 0 ==> {
        &&& a & 0x20000u32 == 0
        &&& a & 0x40000u32 == 0
        &&& a & 0x80000u32 == 0
        &&& a & 0x100000u32 == 0
    }) by (bit_vector);
}

/// The key-up and key-down events of one code and flag word carry the same
/// keystroke: a release matches its press.
pub proof fn lemma_key_up_matches_key_down(down: Keystroke, up: Keystroke, key_code: u32, modifier_flags: u32)
    requires
        spec_keystroke(down, key_code, modifier_flags),
        spec_keystroke(up, key_code, modifier_flags),
    ensures
        up.modifiers == down.modifiers,
        up.key@ == down.key@,
        opt_view(up.key_char) == opt_view(down.key_char),
{
}

/// Each modifier is decided by its own flag bit alone: a flag word holding
/// one modifier bit decodes to exactly that modifier, the empty word to none,
/// and every modifier of any word is what its own bit, taken by itself,
/// decodes to.  `function` is never set by the flags.
pub proof fn lemma_each_modifier_has_its_own_bit(flags: u32)
    ensures
        spec_modifiers(0) == (Modifiers { control: false, alt: false, shift: false, platform: false, function: false }),
        spec_modifiers(0x20000) == (Modifiers { control: false, alt: false, shift: true, platform: false, function: false }),
        spec_modifiers(0x40000) == (Modifiers { control: true, alt: false, shift: false, platform: false, function: false }),
        spec_modifiers(0x80000) == (Modifiers { control: false, alt: true, shift: false, platform: false, function: false }),
        spec_modifiers(0x100000) == (Modifiers { control: false, alt: false, shift: false, platform: true, function: false }),
        spec_modifiers(flags).shift == spec_modifiers(flags & 0x20000).shift,
        spec_modifiers(flags).control == spec_modifiers(flags & 0x40000).control,
        spec_modifiers(flags).alt == spec_modifiers(flags & 0x80000).alt,
        spec_modifiers(flags).platform == spec_modifiers(flags & 0x100000).platform,
        !spec_modifiers(flags).function,
{
    assert(0u32 & 0x20000u32 == 0 && 0u32 & 0x40000u32 == 0 && 0u32 & 0x80000u32 == 0 && 0u32 & 0x100000u32 == 0)
        by (bit_vector);
    assert(0x20000u32 & 0x20000u32 != 0 && 0x20000u32 & 0x40000u32 == 0 && 0x20000u32 & 0x80000u32 == 0
        && 0x20000u32 & 0x100000u32 == 0) by (bit_vector);
    assert(0x40000u32 & 0x20000u32 == 0 && 0x40000u32 & 0x40000u32 != 0 && 0x40000u32 & 0x80000u32 == 0
        && 0x40000u32 & 0x100000u32 == 0) by (bit_vector);
    assert(0x80000u32 & 0x20000u32 == 0 && 0x80000u32 & 0x40000u32 == 0 && 0x80000u32 & 0x80000u32 != 0
        && 0x80000u32 & 0x100000u32 == 0) by (bit_vector);
    assert(0x100000u32 & 0x20000u32 == 0 && 0x100000u32 & 0x40000u32 == 0 && 0x100000u32 & 0x80000u32 == 0
        && 0x100000u32 & 0x100000u32 != 0) by (bit_vector);
    assert((flags & 0x20000u32) & 0x20000u32 == flags & 0x20000u32) by (bit_vector);
    assert((flags & 0x40000u32) & 0x40000u32 == flags & 0x40000u32) by (bit_vector);
    assert((flags & 0x80000u32) & 0x80000u32 == flags & 0x80000u32) by (bit_vector);
    assert((flags & 0x100000u32) & 0x100000u32 == flags & 0x100000u32) by (bit_vector);
}

/// Holding Option (Alternate) changes only the `alt` modifier of a
/// keystroke, never the key or the text it types: Option+A still types
/// "a".  Holding Control or Command suppresses the text of every key.
pub proof fn lemma_option_keeps_typed_text(key_code: u32, flags: u32)
    ensures
        spec_modifiers(flags | 0x80000).alt,
        spec_modifiers(flags | 0x80000).control == spec_modifiers(flags).control,
        spec_modifiers(flags | 0x80000).shift == spec_modifiers(flags).shift,
        spec_modifiers(flags | 0x80000).platform == spec_modifiers(flags).platform,
        printable_char(key_name(key_code), spec_modifiers(flags | 0x80000))
            == printable_char(key_name(key_code), spec_modifiers(flags)),
        flags & (0x40000u32 | 0x100000u32) != 0 ==> (printable_char(key_name(key_code), spec_modifiers(flags)) is None),
{
    assert((flags | 0x80000u32) & 0x80000u32 != 0) by (bit_vector);
    assert(((flags | 0x80000u32) & 0x40000u32 != 0) == (flags & 0x40000u32 != 0)) by (bit_vector);
    assert(((flags | 0x80000u32) & 0x20000u32 != 0) == (flags & 0x20000u32 != 0)) by (bit_vector);
    assert(((flags | 0x80000u32) & 0x100000u32 != 0) == (flags & 0x100000u32 != 0)) by (bit_vector);
    assert(flags & (0x40000u32 | 0x100000u32) != 0 ==> (flags & 0x40000u32 != 0 || flags & 0x100000u32 != 0))
        by (bit_vector);
}

/// Letter keys 0x04..=0x1D are `a`..`z` in order and type their letter,
/// upper-case under Shift; digit keys 0x1E..=0x26 are `1`..`9`, 0x27 is `0`,
/// and they type their digit with or without Shift.  Control or Command
/// suppresses the text (see [`lemma_option_keeps_typed_text`]).
pub proof fn lemma_letter_and_digit_keys(code: u32, flags: u32)
    ensures
        0x04 <= code <= 0x1D ==> key_name(code) == seq![(97 + (code - 0x04)) as char],
        0x1E <= code <= 0x26 ==> key_name(code) == seq![(49 + (code - 0x1E)) as char],
        key_name(0x27) == seq!['0'],
        (0x04 <= code <= 0x1D && flags & (0x40000u32 | 0x100000u32) == 0) ==> printable_char(
            key_name(code),
            spec_modifiers(flags),
        ) == Some(seq![(if flags & 0x20000u32 != 0 { 65 + (code - 0x04) } else { 97 + (code - 0x04) }) as char]),
        (0x1E <= code <= 0x27 && flags & (0x40000u32 | 0x100000u32) == 0)
            ==> printable_char(key_name(code), spec_modifiers(flags)) == Some(key_name(code)),
{
    assert(flags & (0x40000u32 | 0x100000u32) == 0 ==> (flags & 0x40000u32 == 0 && flags & 0x100000u32 == 0))
        by (bit_vector);
    if 0x04 <= code <= 0x1D {
        let n: nat = (97 + (code - 0x04)) as nat;
        assert(('a' as nat) == 97);
        let c = n as char;
        assert(c as nat == n);
        assert('a' <= c && c <= 'z');
        if flags & 0x20000u32 != 0 {
            assert(ascii_upper(c) == (n - 32) as char);
        }
    }
    if 0x1E <= code <= 0x26 {
        assert(('1' as nat) == 49);
        let c = ((49 + (code - 0x1E)) as nat) as char;
        assert(c as nat == 49 + (code - 0x1E));
        assert(!is_ascii_letter(c));
    }
}

} // verus!
