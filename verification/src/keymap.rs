//! From X keysyms (what ibus sends as `keyval`) to the keys the handlers know.

use vstd::prelude::*;

use crate::keys::CommandKey;

verus! {

/// One translated key.
#[derive(Debug, Clone, Copy, PartialEq, Eq, Structural)]
pub enum Key {
    /// A printable character (case already decided by the modifiers).
    Char(char),
    /// An editing or navigation key.
    Command(CommandKey),
    /// Shift pressed or released.
    Shift,
    /// Control pressed or released.
    Control,
    /// Another modifier (Alt, Super, locks, level shifts).
    Modifier,
}

// X keysyms (keysymdef.h) the table below names.
pub const XK_SPACE: u32 = 0x20;
pub const XK_KP_SPACE: u32 = 0xff80;
pub const XK_BACKSPACE: u32 = 0xff08;
pub const XK_DELETE: u32 = 0xffff;
pub const XK_KP_DELETE: u32 = 0xff9f;
pub const XK_RETURN: u32 = 0xff0d;
pub const XK_KP_ENTER: u32 = 0xff8d;
pub const XK_LINEFEED: u32 = 0xff0a;
pub const XK_ESCAPE: u32 = 0xff1b;
pub const XK_TAB: u32 = 0xff09;
pub const XK_KP_TAB: u32 = 0xff89;
pub const XK_ISO_LEFT_TAB: u32 = 0xfe20;
pub const XK_UP: u32 = 0xff52;
pub const XK_KP_UP: u32 = 0xff97;
pub const XK_DOWN: u32 = 0xff54;
pub const XK_KP_DOWN: u32 = 0xff99;
pub const XK_LEFT: u32 = 0xff51;
pub const XK_KP_LEFT: u32 = 0xff96;
pub const XK_RIGHT: u32 = 0xff53;
pub const XK_KP_RIGHT: u32 = 0xff98;
pub const XK_HOME: u32 = 0xff50;
pub const XK_KP_HOME: u32 = 0xff95;
pub const XK_END: u32 = 0xff57;
pub const XK_KP_END: u32 = 0xff9c;
pub const XK_PRIOR: u32 = 0xff55;
pub const XK_KP_PRIOR: u32 = 0xff9a;
pub const XK_NEXT: u32 = 0xff56;
pub const XK_KP_NEXT: u32 = 0xff9b;
pub const XK_SHIFT_L: u32 = 0xffe1;
pub const XK_SHIFT_R: u32 = 0xffe2;
pub const XK_SHIFT_LOCK: u32 = 0xffe6;
pub const XK_CONTROL_L: u32 = 0xffe3;
pub const XK_CONTROL_R: u32 = 0xffe4;
pub const XK_ALT_L: u32 = 0xffe9;
pub const XK_ALT_R: u32 = 0xffea;
pub const XK_META_L: u32 = 0xffe7;
pub const XK_META_R: u32 = 0xffe8;
pub const XK_SUPER_L: u32 = 0xffeb;
pub const XK_SUPER_R: u32 = 0xffec;
pub const XK_HYPER_L: u32 = 0xffed;
pub const XK_HYPER_R: u32 = 0xffee;
pub const XK_CAPS_LOCK: u32 = 0xffe5;
pub const XK_NUM_LOCK: u32 = 0xff7f;
pub const XK_ISO_LEVEL3_SHIFT: u32 = 0xfe03;
pub const XK_ISO_LEVEL5_SHIFT: u32 = 0xfe11;
pub const XK_KP_MULTIPLY: u32 = 0xffaa;
pub const XK_KP_ADD: u32 = 0xffab;
pub const XK_KP_SUBTRACT: u32 = 0xffad;
pub const XK_KP_DIVIDE: u32 = 0xffaf;
pub const XK_KP_DECIMAL: u32 = 0xffae;
pub const XK_KP_SEPARATOR: u32 = 0xffac;
pub const XK_KP_0: u32 = 0xffb0;
pub const XK_KP_9: u32 = 0xffb9;

/// Keysyms of the command keys.
pub open spec fn command_of(k: u32) -> Option<CommandKey> {
    if k == XK_BACKSPACE {
        Some(CommandKey::Backspace)
    } else if k == XK_DELETE || k == XK_KP_DELETE {
        Some(CommandKey::Delete)
    } else if k == XK_RETURN || k == XK_KP_ENTER || k == XK_LINEFEED {
        Some(CommandKey::Enter)
    } else if k == XK_ESCAPE {
        Some(CommandKey::Escape)
    } else if k == XK_TAB || k == XK_KP_TAB || k == XK_ISO_LEFT_TAB {
        // GTK clients send Shift+Tab as ISO_Left_Tab.
        Some(CommandKey::Tab)
    } else if k == XK_UP || k == XK_KP_UP {
        Some(CommandKey::Up)
    } else if k == XK_DOWN || k == XK_KP_DOWN {
        Some(CommandKey::Down)
    } else if k == XK_LEFT || k == XK_KP_LEFT {
        Some(CommandKey::Left)
    } else if k == XK_RIGHT || k == XK_KP_RIGHT {
        Some(CommandKey::Right)
    } else if k == XK_HOME || k == XK_KP_HOME {
        Some(CommandKey::Home)
    } else if k == XK_END || k == XK_KP_END {
        Some(CommandKey::End)
    } else if k == XK_PRIOR || k == XK_KP_PRIOR {
        Some(CommandKey::PageUp)
    } else if k == XK_NEXT || k == XK_KP_NEXT {
        Some(CommandKey::PageDown)
    } else {
        None
    }
}

/// Keysyms of modifiers other than Shift and Control.
pub open spec fn is_other_modifier(k: u32) -> bool {
    k == XK_ALT_L || k == XK_ALT_R || k == XK_META_L || k == XK_META_R || k == XK_SUPER_L
        || k == XK_SUPER_R || k == XK_HYPER_L || k == XK_HYPER_R || k == XK_CAPS_LOCK
        || k == XK_NUM_LOCK || k == XK_ISO_LEVEL3_SHIFT || k == XK_ISO_LEVEL5_SHIFT
}

/// Keypad operators and decimal point, as the characters they type.
pub open spec fn keypad_char(k: u32) -> Option<char> {
    if k == XK_KP_MULTIPLY {
        Some('*')
    } else if k == XK_KP_ADD {
        Some('+')
    } else if k == XK_KP_SUBTRACT {
        Some('-')
    } else if k == XK_KP_DIVIDE {
        Some('/')
    } else if k == XK_KP_DECIMAL || k == XK_KP_SEPARATOR {
        Some('.')
    } else {
        None
    }
}

/// The key a keysym stands for; `None` for keys left to the application
/// (function keys, non-Latin layouts).
pub open spec fn key_of(k: u32) -> Option<Key> {
    if k == XK_SPACE || k == XK_KP_SPACE {
        Some(Key::Char(' '))
    } else if command_of(k) is Some {
        Some(Key::Command(command_of(k)->0))
    } else if k == XK_SHIFT_L || k == XK_SHIFT_R || k == XK_SHIFT_LOCK {
        Some(Key::Shift)
    } else if k == XK_CONTROL_L || k == XK_CONTROL_R {
        Some(Key::Control)
    } else if is_other_modifier(k) {
        Some(Key::Modifier)
    } else if keypad_char(k) is Some {
        Some(Key::Char(keypad_char(k)->0))
    } else if XK_KP_0 <= k <= XK_KP_9 {
        // Keypad digits are plain digits.
        Some(Key::Char(((k - XK_KP_0) + ('0' as u32)) as char))
    } else if 0x20 <= k <= 0x7e {
        // Printable ASCII keysyms equal their character.
        Some(Key::Char(k as char))
    } else {
        None
    }
}

fn command_key(k: u32) -> (r: Option<CommandKey>)
    ensures
        r == command_of(k),
{
    if k == XK_BACKSPACE {
        Some(CommandKey::Backspace)
    } else if k == XK_DELETE || k == XK_KP_DELETE {
        Some(CommandKey::Delete)
    } else if k == XK_RETURN || k == XK_KP_ENTER || k == XK_LINEFEED {
        Some(CommandKey::Enter)
    } else if k == XK_ESCAPE {
        Some(CommandKey::Escape)
    } else if k == XK_TAB || k == XK_KP_TAB || k == XK_ISO_LEFT_TAB {
        Some(CommandKey::Tab)
    } else if k == XK_UP || k == XK_KP_UP {
        Some(CommandKey::Up)
    } else if k == XK_DOWN || k == XK_KP_DOWN {
        Some(CommandKey::Down)
    } else if k == XK_LEFT || k == XK_KP_LEFT {
        Some(CommandKey::Left)
    } else if k == XK_RIGHT || k == XK_KP_RIGHT {
        Some(CommandKey::Right)
    } else if k == XK_HOME || k == XK_KP_HOME {
        Some(CommandKey::Home)
    } else if k == XK_END || k == XK_KP_END {
        Some(CommandKey::End)
    } else if k == XK_PRIOR || k == XK_KP_PRIOR {
        Some(CommandKey::PageUp)
    } else if k == XK_NEXT || k == XK_KP_NEXT {
        Some(CommandKey::PageDown)
    } else {
        None
    }
}

/// Translates an X keysym into a key.
///
/// Character keys that come with Ctrl / Alt / Super are still translated; the caller
/// decides (by the modifier state) to leave such shortcuts to the application.
pub fn translate(keyval: u32) -> (r: Option<Key>)
    ensures
        r == key_of(keyval),
{
    let k = keyval;
    if k == XK_SPACE || k == XK_KP_SPACE {
        return Some(Key::Char(' '));
    }
    if let Some(command) = command_key(k) {
        return Some(Key::Command(command));
    }
    if k == XK_SHIFT_L || k == XK_SHIFT_R || k == XK_SHIFT_LOCK {
        return Some(Key::Shift);
    }
    if k == XK_CONTROL_L || k == XK_CONTROL_R {
        return Some(Key::Control);
    }
    if k == XK_ALT_L || k == XK_ALT_R || k == XK_META_L || k == XK_META_R || k == XK_SUPER_L
        || k == XK_SUPER_R || k == XK_HYPER_L || k == XK_HYPER_R || k == XK_CAPS_LOCK
        || k == XK_NUM_LOCK || k == XK_ISO_LEVEL3_SHIFT || k == XK_ISO_LEVEL5_SHIFT
    {
        return Some(Key::Modifier);
    }
    if k == XK_KP_MULTIPLY {
        return Some(Key::Char('*'));
    }
    if k == XK_KP_ADD {
        return Some(Key::Char('+'));
    }
    if k == XK_KP_SUBTRACT {
        return Some(Key::Char('-'));
    }
    if k == XK_KP_DIVIDE {
        return Some(Key::Char('/'));
    }
    if k == XK_KP_DECIMAL || k == XK_KP_SEPARATOR {
        return Some(Key::Char('.'));
    }
    if XK_KP_0 <= k && k <= XK_KP_9 {
        let digit = ((k - XK_KP_0) + 0x30) as u8;
        return Some(Key::Char(digit as char));
    }
    if 0x20 <= k && k <= 0x7e {
        let byte = k as u8;
        return Some(Key::Char(byte as char));
    }
    None
}

/// The digit 1..9 of a digit-row key, by X keycode (evdev + 8: 10..18), the convention
/// of GTK clients.
///
/// Modifier + digit shortcuts are recognised by the physical key: Shift turns the
/// digit row's keysyms into `!@#$…`.
pub fn digit_key(keycode: u32) -> (r: Option<usize>)
    ensures
        10 <= keycode <= 18 <==> r is Some,
        r matches Some(d) ==> d == keycode - 9 && 1 <= d <= 9,
{
    if 10 <= keycode && keycode <= 18 {
        Some((keycode - 9) as usize)
    } else {
        None
    }
}

/// Whether `c` is what the digit-9 key of the digit row gives, plain or shifted (US).
pub open spec fn is_nine_key_char(c: char) -> bool {
    c == '9' || c == '('
}

/// The digit 1..9 a modifier + digit chord names, from the character and the physical
/// keycode. Clients send the keycode in one of two conventions: X keycodes (10..18 for
/// the digits 1..9; GTK) or raw evdev codes (2..10; gnome-shell's text-input path).
/// No X keycode below 10 gives a character, so 2..9 are evdev; 11..18 are X; at 10 the
/// two meet (X: 1, evdev: 9) and the character tells them apart.
pub open spec fn chord_digit_of(c: char, keycode: u32) -> Option<int> {
    if 2 <= keycode <= 9 {
        Some(keycode - 1)
    } else if keycode == 10 {
        if is_nine_key_char(c) {
            Some(9)
        } else {
            Some(1)
        }
    } else if 11 <= keycode <= 18 {
        Some(keycode - 9)
    } else {
        None
    }
}

/// The digit of a modifier + digit chord: `chord_digit_of`.
pub fn chord_digit(c: char, keycode: u32) -> (r: Option<usize>)
    ensures
        match r {
            Some(d) => chord_digit_of(c, keycode) == Some(d as int),
            None => chord_digit_of(c, keycode) is None,
        },
{
    if 2 <= keycode && keycode <= 9 {
        Some((keycode - 1) as usize)
    } else if keycode == 10 {
        if c == '9' || c == '(' {
            Some(9)
        } else {
            Some(1)
        }
    } else {
        digit_key(keycode)
    }
}

} // verus!
