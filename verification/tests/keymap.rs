use qingjian_linux::keymap as k;
use qingjian_linux::keymap::{chord_digit, digit_key, translate, Key};
use qingjian_linux::keys::CommandKey;
use xkeysym::{KeyCode, Keysym};

fn tr(keysym: Keysym) -> Option<Key> {
    translate(keysym.raw())
}

fn digit(code: KeyCode) -> Option<usize> {
    digit_key(code.raw())
}

#[test]
fn letters_and_digits_become_chars() {
    assert_eq!(tr(Keysym::a), Some(Key::Char('a')));
    assert_eq!(tr(Keysym::A), Some(Key::Char('A')));
    assert_eq!(tr(Keysym::_1), Some(Key::Char('1')));
    assert_eq!(tr(Keysym::KP_5), Some(Key::Char('5')));
    assert_eq!(tr(Keysym::space), Some(Key::Char(' ')));
}

#[test]
fn commands_map_to_the_right_kind() {
    assert_eq!(tr(Keysym::Return), Some(Key::Command(CommandKey::Enter)));
    assert_eq!(tr(Keysym::BackSpace), Some(Key::Command(CommandKey::Backspace)));
    assert_eq!(tr(Keysym::Prior), Some(Key::Command(CommandKey::PageUp)));
    assert_eq!(tr(Keysym::Left), Some(Key::Command(CommandKey::Left)));
}

#[test]
fn modifiers_are_recognized_and_f_keys_pass() {
    assert_eq!(tr(Keysym::Shift_L), Some(Key::Shift));
    assert_eq!(tr(Keysym::Control_L), Some(Key::Control));
    assert_eq!(tr(Keysym::Caps_Lock), Some(Key::Modifier));
    assert_eq!(tr(Keysym::Alt_L), Some(Key::Modifier));
    assert_eq!(tr(Keysym::F1), None);
}

#[test]
fn shifted_tab_and_numpad_space_map_like_their_plain_forms() {
    assert_eq!(tr(Keysym::ISO_Left_Tab), Some(Key::Command(CommandKey::Tab)));
    assert_eq!(tr(Keysym::KP_Space), Some(Key::Char(' ')));
}

#[test]
fn digit_row_keycodes_map_to_digits() {
    assert_eq!(digit(KeyCode::new(10)), Some(1));
    assert_eq!(digit(KeyCode::new(14)), Some(5));
    assert_eq!(digit(KeyCode::new(18)), Some(9));
    assert_eq!(digit(KeyCode::new(19)), None, "0 不算");
    assert_eq!(digit(KeyCode::new(9)), None);
    assert_eq!(digit(KeyCode::new(0)), None, "客户端没给键码");
}

#[test]
fn keypad_and_printable_ascii_map_to_their_characters() {
    assert_eq!(tr(Keysym::KP_0), Some(Key::Char('0')));
    assert_eq!(tr(Keysym::KP_9), Some(Key::Char('9')));
    assert_eq!(tr(Keysym::KP_Multiply), Some(Key::Char('*')));
    assert_eq!(tr(Keysym::KP_Add), Some(Key::Char('+')));
    assert_eq!(tr(Keysym::KP_Subtract), Some(Key::Char('-')));
    assert_eq!(tr(Keysym::KP_Divide), Some(Key::Char('/')));
    assert_eq!(tr(Keysym::KP_Decimal), Some(Key::Char('.')));
    assert_eq!(tr(Keysym::KP_Separator), Some(Key::Char('.')));
    for raw in 0x21u32..=0x7e {
        assert_eq!(translate(raw), Some(Key::Char(char::from_u32(raw).unwrap())));
    }
    // Non-Latin keysyms go to the application.
    assert_eq!(tr(Keysym::Cyrillic_a), None);
    assert_eq!(translate(0x7f), None);
}

#[test]
fn every_named_keysym_matches_xkeysym() {
    let pairs = [
        (k::XK_SPACE, Keysym::space),
        (k::XK_KP_SPACE, Keysym::KP_Space),
        (k::XK_BACKSPACE, Keysym::BackSpace),
        (k::XK_DELETE, Keysym::Delete),
        (k::XK_KP_DELETE, Keysym::KP_Delete),
        (k::XK_RETURN, Keysym::Return),
        (k::XK_KP_ENTER, Keysym::KP_Enter),
        (k::XK_LINEFEED, Keysym::Linefeed),
        (k::XK_ESCAPE, Keysym::Escape),
        (k::XK_TAB, Keysym::Tab),
        (k::XK_KP_TAB, Keysym::KP_Tab),
        (k::XK_ISO_LEFT_TAB, Keysym::ISO_Left_Tab),
        (k::XK_UP, Keysym::Up),
        (k::XK_KP_UP, Keysym::KP_Up),
        (k::XK_DOWN, Keysym::Down),
        (k::XK_KP_DOWN, Keysym::KP_Down),
        (k::XK_LEFT, Keysym::Left),
        (k::XK_KP_LEFT, Keysym::KP_Left),
        (k::XK_RIGHT, Keysym::Right),
        (k::XK_KP_RIGHT, Keysym::KP_Right),
        (k::XK_HOME, Keysym::Home),
        (k::XK_KP_HOME, Keysym::KP_Home),
        (k::XK_END, Keysym::End),
        (k::XK_KP_END, Keysym::KP_End),
        (k::XK_PRIOR, Keysym::Prior),
        (k::XK_KP_PRIOR, Keysym::KP_Prior),
        (k::XK_NEXT, Keysym::Next),
        (k::XK_KP_NEXT, Keysym::KP_Next),
        (k::XK_SHIFT_L, Keysym::Shift_L),
        (k::XK_SHIFT_R, Keysym::Shift_R),
        (k::XK_SHIFT_LOCK, Keysym::Shift_Lock),
        (k::XK_CONTROL_L, Keysym::Control_L),
        (k::XK_CONTROL_R, Keysym::Control_R),
        (k::XK_ALT_L, Keysym::Alt_L),
        (k::XK_ALT_R, Keysym::Alt_R),
        (k::XK_META_L, Keysym::Meta_L),
        (k::XK_META_R, Keysym::Meta_R),
        (k::XK_SUPER_L, Keysym::Super_L),
        (k::XK_SUPER_R, Keysym::Super_R),
        (k::XK_HYPER_L, Keysym::Hyper_L),
        (k::XK_HYPER_R, Keysym::Hyper_R),
        (k::XK_CAPS_LOCK, Keysym::Caps_Lock),
        (k::XK_NUM_LOCK, Keysym::Num_Lock),
        (k::XK_ISO_LEVEL3_SHIFT, Keysym::ISO_Level3_Shift),
        (k::XK_ISO_LEVEL5_SHIFT, Keysym::ISO_Level5_Shift),
        (k::XK_KP_MULTIPLY, Keysym::KP_Multiply),
        (k::XK_KP_ADD, Keysym::KP_Add),
        (k::XK_KP_SUBTRACT, Keysym::KP_Subtract),
        (k::XK_KP_DIVIDE, Keysym::KP_Divide),
        (k::XK_KP_DECIMAL, Keysym::KP_Decimal),
        (k::XK_KP_SEPARATOR, Keysym::KP_Separator),
        (k::XK_KP_0, Keysym::KP_0),
        (k::XK_KP_9, Keysym::KP_9),
    ];
    for (ours, theirs) in pairs {
        assert_eq!(ours, theirs.raw(), "{theirs:?}");
    }
}

#[test]
fn chord_digits_follow_both_keycode_conventions() {
    // X keycodes (GTK): 10..18 are the digits 1..9.
    assert_eq!(chord_digit('!', 10), Some(1));
    assert_eq!(chord_digit('1', 10), Some(1));
    assert_eq!(chord_digit('%', 14), Some(5));
    assert_eq!(chord_digit('(', 18), Some(9));
    // Raw evdev codes (gnome-shell): 2..10 are the digits 1..9.
    assert_eq!(chord_digit('!', 2), Some(1));
    assert_eq!(chord_digit('@', 3), Some(2));
    assert_eq!(chord_digit('*', 9), Some(8));
    // 10 is X's 1 and evdev's 9: the character decides.
    assert_eq!(chord_digit('(', 10), Some(9));
    assert_eq!(chord_digit('9', 10), Some(9));
    // Outside both digit rows.
    assert_eq!(chord_digit('!', 0), None);
    assert_eq!(chord_digit('!', 1), None);
    assert_eq!(chord_digit(')', 19), None);
}
