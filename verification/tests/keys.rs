use kaku_win32::input::{KeyCode, Modifiers, MouseButtons};
use kaku_win32::keycodes::{
    current_modifiers, layout_key, mouse_buttons_from_wparam, vkey_to_char, vkey_to_keycode,
    KeyStates,
};
use kaku_win32::letters::to_lower_case;
use kaku_win32::words::{
    as_signed, lparam_high, lparam_low, wparam_high, wparam_i32, wparam_u32,
};

fn keys(shift: i16, control: i16, menu: i16, left_win: i16, right_win: i16) -> KeyStates {
    KeyStates { shift, control, menu, left_win, right_win }
}

#[test]
fn modifiers_follow_the_sign_bit() {
    assert_eq!(current_modifiers(&keys(0, 0, 0, 0, 0)), Modifiers::none());
    // A toggled key that is not held has its low bit set.
    assert_eq!(current_modifiers(&keys(1, 1, 1, 1, 1)), Modifiers::none());
    let held = current_modifiers(&keys(-128, -127, i16::MIN, 0, 0));
    assert_eq!(held, Modifiers { shift: true, ctrl: true, alt: true, super_key: false });
    for (l, r) in [(-1, 0), (0, -1), (-1, -1)] {
        let held = current_modifiers(&keys(0, 0, 0, l, r));
        assert_eq!(held, Modifiers { shift: false, ctrl: false, alt: false, super_key: true });
    }
}

#[test]
fn navigation_keys_are_translated() {
    let expected = [
        (0x21, KeyCode::PageUp),
        (0x22, KeyCode::PageDown),
        (0x23, KeyCode::End),
        (0x24, KeyCode::Home),
        (0x25, KeyCode::LeftArrow),
        (0x26, KeyCode::UpArrow),
        (0x27, KeyCode::RightArrow),
        (0x28, KeyCode::DownArrow),
        (0x2d, KeyCode::Insert),
        (0x2e, KeyCode::Char('\u{7f}')),
    ];
    for (vk, key) in expected {
        assert_eq!(vkey_to_keycode(vk), Some(key));
    }
}

#[test]
fn function_keys_are_numbered_from_one() {
    assert_eq!(vkey_to_keycode(0x6f), None);
    for n in 0..24 {
        assert_eq!(vkey_to_keycode(0x70 + n), Some(KeyCode::Function(n as u8 + 1)));
    }
    assert_eq!(vkey_to_keycode(0x88), None);
}

#[test]
fn text_keys_are_not_translated() {
    for vk in (0x30..=0x39).chain(0x41..=0x5a) {
        assert_eq!(vkey_to_keycode(vk), None);
    }
    for vk in [0, 0x08, 0x09, 0x0d, 0x1b, 0x20, 0xbc, -1, i32::MIN, i32::MAX] {
        assert_eq!(vkey_to_keycode(vk), None);
    }
}

#[test]
fn each_key_code_has_one_virtual_key() {
    let mut seen: Vec<KeyCode> = Vec::new();
    for vk in -300..300 {
        if let Some(key) = vkey_to_keycode(vk) {
            assert!(!seen.contains(&key));
            seen.push(key);
        }
    }
    assert_eq!(seen.len(), 34);
}

#[test]
fn letters_are_lower_case_and_ignore_the_layout() {
    for mapped in [0, 0x41, 0x51, u32::MAX] {
        for (i, c) in ('a'..='z').enumerate() {
            assert_eq!(vkey_to_char(0x41 + i as i32, mapped), Some(c));
        }
        for (i, c) in ('0'..='9').enumerate() {
            assert_eq!(vkey_to_char(0x30 + i as i32, mapped), Some(c));
        }
    }
}

#[test]
fn other_keys_ask_the_layout() {
    assert_eq!(vkey_to_char(0xbc, ',' as u32), Some(','));
    assert_eq!(vkey_to_char(0xba, 0xdc), Some('\u{fc}'));
    assert_eq!(vkey_to_char(0xc0, 0xd6), Some('\u{f6}'));
    assert_eq!(vkey_to_char(0xba, 0x416), Some('\u{436}'));
    assert_eq!(vkey_to_char(0xdb, 0x110), Some('\u{111}'));
    // The top bit marks a dead key and is dropped.
    assert_eq!(vkey_to_char(0xdd, 0x8000_0000 | '^' as u32), Some('^'));
    assert_eq!(vkey_to_char(0xdd, 0x8000), None);
    assert_eq!(vkey_to_char(0x10, 0), None);
}

#[test]
fn control_characters_are_no_base_characters() {
    for mapped in 0..0x8000_u32 {
        let c = char::from_u32(mapped).unwrap();
        let is_base = mapped != 0 && !c.is_control();
        let expected = if is_base { Some(to_lower_case(c)) } else { None };
        assert_eq!(vkey_to_char(0xff, mapped), expected);
    }
}

#[test]
fn base_characters_are_in_lower_case() {
    for mapped in 0..0x8000_u32 {
        if let Some(c) = vkey_to_char(0xff, mapped) {
            assert_eq!(to_lower_case(c), c);
            assert_eq!(c.to_lowercase().next(), Some(c));
        }
    }
}

#[test]
fn lower_case_agrees_with_std_on_all_layout_characters() {
    for n in 0..0x8000_u32 {
        let c = char::from_u32(n).unwrap();
        assert_eq!(Some(to_lower_case(c)), c.to_lowercase().next(), "{:x}", n);
    }
    for n in 0x8000..=0x10_ffff_u32 {
        if let Some(c) = char::from_u32(n) {
            assert_eq!(to_lower_case(c), c);
        }
    }
}

#[test]
fn capitals_of_every_alphabet_have_small_letters() {
    for (capital, small) in [
        (0x190, '\u{25b}'),
        (0x186, '\u{254}'),
        (0x1b1, '\u{28a}'),
        (0x220, '\u{19e}'),
        (0x23a, '\u{2c65}'),
        (0x130, 'i'),
        (0x386, '\u{3ac}'),
        (0x3ff, '\u{37d}'),
        (0x4c0, '\u{4cf}'),
        (0x531, '\u{561}'),
        (0x10a0, '\u{2d00}'),
        (0x13a0, '\u{ab70}'),
        (0x1c90, '\u{10d0}'),
        (0x1e9e, '\u{df}'),
        (0x1f59, '\u{1f51}'),
        (0x1ffc, '\u{1ff3}'),
        (0x212a, 'k'),
        (0x24b6, '\u{24d0}'),
        (0x2c00, '\u{2c30}'),
        (0x2c7e, '\u{23f}'),
        (0x2c80, '\u{2c81}'),
    ] {
        assert_eq!(vkey_to_char(0xc0, capital), Some(small));
    }
    // A sign between capitals, and signs beside them.
    assert_eq!(vkey_to_char(0xc0, 0xd7), Some('\u{d7}'));
    assert_eq!(vkey_to_char(0xc0, 0x40), Some('@'));
    assert_eq!(vkey_to_char(0xc0, 0x5b), Some('['));
}

#[test]
fn layout_is_asked_for_keys_that_are_no_letter_or_digit() {
    assert_eq!(layout_key(0x41), None);
    assert_eq!(layout_key(0x5a), None);
    assert_eq!(layout_key(0x30), None);
    assert_eq!(layout_key(0x39), None);
    assert_eq!(layout_key(0x3a), Some(0x3a));
    assert_eq!(layout_key(0x5b), Some(0x5b));
    assert_eq!(layout_key(0xbc), Some(0xbc));
    assert_eq!(layout_key(-1), Some(u32::MAX));
}

#[test]
fn mouse_buttons_are_bits() {
    let none = MouseButtons { left: false, right: false, middle: false };
    assert_eq!(mouse_buttons_from_wparam(0), none);
    assert_eq!(mouse_buttons_from_wparam(0xec), none);
    assert_eq!(mouse_buttons_from_wparam(0x01), MouseButtons { left: true, ..none });
    assert_eq!(mouse_buttons_from_wparam(0x02), MouseButtons { right: true, ..none });
    assert_eq!(mouse_buttons_from_wparam(0x10), MouseButtons { middle: true, ..none });
    let all = MouseButtons { left: true, right: true, middle: true };
    assert_eq!(mouse_buttons_from_wparam(0x13), all);
    assert_eq!(mouse_buttons_from_wparam(usize::MAX), all);
}

#[test]
fn words_agree_with_casts() {
    for l in [0isize, 1, -1, 0x1234_5678, -0x1234_5678, 0x7fff_ffff, isize::MIN, isize::MAX] {
        assert_eq!(lparam_low(l), (l & 0xffff) as u16);
        assert_eq!(lparam_high(l), ((l >> 16) & 0xffff) as u16);
        assert_eq!(as_signed(lparam_low(l)), (l & 0xffff) as i16);
        let w = l as usize;
        assert_eq!(wparam_high(w), ((w >> 16) & 0xffff) as u16);
        assert_eq!(wparam_i32(w), w as i32);
        assert_eq!(wparam_u32(w), w as u32);
    }
}
