//! Virtual-key, modifier and mouse-button translation.
//!
//! Keys that produce text arrive as `WM_CHAR`, with the keyboard layout
//! already applied. This module covers the navigation and function keys, which
//! produce no `WM_CHAR`, the base character of a key that is pressed together
//! with Ctrl or Alt, and the modifiers and mouse buttons that are held.
use vstd::prelude::*;

use crate::input::KeyCode;
use crate::input::Modifiers;
use crate::input::MouseButtons;
use crate::letters::to_lower_case;
use crate::utf16::is_scalar;
use crate::win32::MK_LBUTTON;
use crate::win32::MK_MBUTTON;
use crate::win32::MK_RBUTTON;
use crate::win32::VK_DELETE;
use crate::win32::VK_DOWN;
use crate::win32::VK_END;
use crate::win32::VK_F1;
use crate::win32::VK_F24;
use crate::win32::VK_HOME;
use crate::win32::VK_INSERT;
use crate::win32::VK_LEFT;
use crate::win32::VK_NEXT;
use crate::win32::VK_PRIOR;
use crate::win32::VK_RIGHT;
use crate::win32::VK_UP;

verus! {

/// What the system reports of each modifier key: negative while it is held.
#[derive(Debug, Clone, Copy, PartialEq, Eq, Structural)]
pub struct KeyStates {
    pub shift: i16,
    pub control: i16,
    pub menu: i16,
    pub left_win: i16,
    pub right_win: i16,
}

/// The modifiers that a snapshot of the keyboard shows as held.
pub open spec fn held_modifiers(keys: KeyStates) -> Modifiers {
    Modifiers {
        shift: keys.shift < 0,
        ctrl: keys.control < 0,
        alt: keys.menu < 0,
        super_key: keys.left_win < 0 || keys.right_win < 0,
    }
}

/// The modifiers that are held in a snapshot of the keyboard.
pub fn current_modifiers(keys: &KeyStates) -> (mods: Modifiers)
    ensures
        mods == held_modifiers(*keys),
        mods.shift <==> keys.shift < 0,
        mods.ctrl <==> keys.control < 0,
        mods.alt <==> keys.menu < 0,
        mods.super_key <==> (keys.left_win < 0 || keys.right_win < 0),
{
    let mut mods = Modifiers::none();
    if keys.shift < 0 {
        mods.shift = true;
    }
    if keys.control < 0 {
        mods.ctrl = true;
    }
    if keys.menu < 0 {
        mods.alt = true;
    }
    if keys.left_win < 0 || keys.right_win < 0 {
        mods.super_key = true;
    }
    mods
}

/// A virtual key of a letter or a digit.
pub open spec fn is_alphanumeric_key(vk: int) -> bool {
    0x41 <= vk <= 0x5a || 0x30 <= vk <= 0x39
}

/// The key code of each virtual key that produces no `WM_CHAR`.
pub open spec fn keycode_of(vk: int) -> Option<KeyCode> {
    if vk == VK_LEFT {
        Some(KeyCode::LeftArrow)
    } else if vk == VK_RIGHT {
        Some(KeyCode::RightArrow)
    } else if vk == VK_UP {
        Some(KeyCode::UpArrow)
    } else if vk == VK_DOWN {
        Some(KeyCode::DownArrow)
    } else if vk == VK_HOME {
        Some(KeyCode::Home)
    } else if vk == VK_END {
        Some(KeyCode::End)
    } else if vk == VK_PRIOR {
        Some(KeyCode::PageUp)
    } else if vk == VK_NEXT {
        Some(KeyCode::PageDown)
    } else if vk == VK_INSERT {
        Some(KeyCode::Insert)
    } else if vk == VK_DELETE {
        Some(KeyCode::Char('\u{7f}'))
    } else if VK_F1 <= vk <= VK_F24 {
        Some(KeyCode::Function((vk - VK_F1 + 1) as u8))
    } else {
        None
    }
}

/// The key code of a virtual key that produces no `WM_CHAR`: the arrows, the
/// navigation keys, the function keys and Delete, which is delivered as DEL.
/// `None` for a key whose text is delivered by `WM_CHAR`.
pub fn vkey_to_keycode(vk: i32) -> (key: Option<KeyCode>)
    ensures
        key == keycode_of(vk as int),
{
    let key = if vk == VK_LEFT {
        KeyCode::LeftArrow
    } else if vk == VK_RIGHT {
        KeyCode::RightArrow
    } else if vk == VK_UP {
        KeyCode::UpArrow
    } else if vk == VK_DOWN {
        KeyCode::DownArrow
    } else if vk == VK_HOME {
        KeyCode::Home
    } else if vk == VK_END {
        KeyCode::End
    } else if vk == VK_PRIOR {
        KeyCode::PageUp
    } else if vk == VK_NEXT {
        KeyCode::PageDown
    } else if vk == VK_INSERT {
        KeyCode::Insert
    } else if vk == VK_DELETE {
        KeyCode::Char('\u{7f}')
    } else if vk >= VK_F1 && vk <= VK_F24 {
        KeyCode::Function((vk - VK_F1 + 1) as u8)
    } else {
        return None;
    };
    Some(key)
}

/// A control character: the C0 controls, DEL and the C1 controls.
pub open spec fn is_control(c: char) -> bool {
    c as int <= 0x1f || 0x7f <= c as int <= 0x9f
}

/// The base character of a virtual key, where `mapped` is what the active
/// keyboard layout answers for it: letters in lower case, digits, and else the
/// low 15 bits of the answer, in lower case, unless they are zero or a control
/// character.
pub open spec fn char_of(vk: int, mapped: u32) -> Option<char> {
    if 0x41 <= vk <= 0x5a {
        Some((vk - 0x41 + 'a' as int) as char)
    } else if 0x30 <= vk <= 0x39 {
        Some((vk - 0x30 + '0' as int) as char)
    } else {
        let c = (mapped as int % 0x8000) as char;
        if c == '\0' || is_control(c) {
            None
        } else {
            Some(crate::letters::lower_case(c))
        }
    }
}

/// The virtual key to ask the keyboard layout about, if the base character of
/// `vk` depends on the layout: neither letters nor digits do.
pub fn layout_key(vk: i32) -> (asked: Option<u32>)
    ensures
        asked is None <==> is_alphanumeric_key(vk as int),
        asked is None <==> (0x41 <= vk <= 0x5a || 0x30 <= vk <= 0x39),
        asked matches Some(key) ==> key == vk as int % 0x1_0000_0000,
{
    assert(vk >= 0 ==> vk as u32 == vk) by (bit_vector);
    assert(vk < 0 ==> vk as u32 == vk + 0x1_0000_0000) by (bit_vector);
    if (0x41 <= vk && vk <= 0x5a) || (0x30 <= vk && vk <= 0x39) {
        None
    } else {
        Some(vk as u32)
    }
}

/// The base (unshifted, lower-case) character of a virtual key, for key bindings
/// with Ctrl or Alt. `mapped` is the layout's answer for the key that
/// `layout_key` names; it is not read for the keys of A to Z and of the digits.
/// No character that has a small letter comes out as a capital, so that Shift
/// stays an explicit modifier.
/// `None` for a key without a character.
pub fn vkey_to_char(vk: i32, mapped: u32) -> (c: Option<char>)
    ensures
        c == char_of(vk as int, mapped),
{
    if 0x41 <= vk && vk <= 0x5a {
        Some((0x61 + (vk - 0x41) as u8) as char)
    } else if 0x30 <= vk && vk <= 0x39 {
        Some((0x30 + (vk - 0x30) as u8) as char)
    } else {
        assert(mapped & 0x7fff == mapped % 0x8000) by (bit_vector);
        let n: u32 = mapped & 0x7fff;
        if n == 0 {
            return None;
        }
        match char::from_u32(n) {
            Some(c) => {
                proof {
                    vstd::utf8::char_u32_cast(c, n);
                }
                if n <= 0x1f || (0x7f <= n && n <= 0x9f) {
                    None
                } else {
                    Some(to_lower_case(c))
                }
            },
            None => {
                assert(is_scalar(n as int));
                None
            },
        }
    }
}

/// The mouse buttons of a message, by the `MK_*` bits of its `wparam`.
pub open spec fn pressed_buttons(wparam: int) -> MouseButtons {
    MouseButtons {
        left: wparam % 2 == 1,
        right: wparam / 2 % 2 == 1,
        middle: wparam / 16 % 2 == 1,
    }
}

/// The mouse buttons that are held, from the `MK_*` flags in a message's `wparam`.
pub fn mouse_buttons_from_wparam(wparam: usize) -> (buttons: MouseButtons)
    ensures
        buttons == pressed_buttons(wparam as int),
        buttons.left <==> wparam & 0x01 != 0,
        buttons.right <==> wparam & 0x02 != 0,
        buttons.middle <==> wparam & 0x10 != 0,
{
    assert((wparam & 1 != 0) == (wparam % 2 == 1)) by (bit_vector);
    assert((wparam & 2 != 0) == (wparam / 2 % 2 == 1)) by (bit_vector);
    assert((wparam & 0x10 != 0) == (wparam / 16 % 2 == 1)) by (bit_vector);
    MouseButtons {
        left: wparam & MK_LBUTTON != 0,
        right: wparam & MK_RBUTTON != 0,
        middle: wparam & MK_MBUTTON != 0,
    }
}

/// No key has two meanings: a key that is translated on `WM_KEYDOWN` is never a
/// letter or a digit, whose text is left to `WM_CHAR`.
pub proof fn law_translated_keys_are_no_text_keys(vk: int)
    ensures
        keycode_of(vk) is Some ==> !is_alphanumeric_key(vk),
{
}

/// No two keys are confused: each key code comes from one virtual key.
pub proof fn law_keycodes_are_distinct(a: int, b: int)
    requires
        keycode_of(a) is Some,
        keycode_of(a) == keycode_of(b),
    ensures
        a == b,
{
}

/// The character of a letter or a digit does not depend on the keyboard layout.
pub proof fn law_alphanumeric_keys_ignore_layout(vk: int, one: u32, other: u32)
    requires
        is_alphanumeric_key(vk),
    ensures
        char_of(vk, one) == char_of(vk, other),
        char_of(vk, one) is Some,
{
}

/// A key binding is never handed a base character that has a small letter of
/// its own.
pub proof fn law_base_chars_are_in_lower_case(vk: int, mapped: u32)
    ensures
        char_of(vk, mapped) matches Some(c) ==> crate::letters::lower_case(c) == c,
{
    crate::letters::law_lower_case_is_final((mapped as int % 0x8000) as char);
}

/// A key binding is never handed a control character as a base character.
pub proof fn law_base_chars_are_no_controls(vk: int, mapped: u32)
    ensures
        char_of(vk, mapped) matches Some(c) ==> !is_control(c),
{
    let c = (mapped as int % 0x8000) as char;
    if !is_control(c) {
        crate::letters::law_lower_case_makes_no_control(c);
    }
}

/// Each modifier is held if and only if the system reports its key as negative,
/// whatever it reports of the others; either of its two keys holds the last.
pub proof fn law_each_modifier_has_its_key(keys: KeyStates)
    ensures
        held_modifiers(keys).shift <==> keys.shift < 0,
        held_modifiers(keys).ctrl <==> keys.control < 0,
        held_modifiers(keys).alt <==> keys.menu < 0,
        held_modifiers(keys).super_key <==> (keys.left_win < 0 || keys.right_win < 0),
{
}

/// Each button is held if and only if its own bit is set, whatever the other bits.
pub proof fn law_each_button_has_its_bit(wparam: usize)
    ensures
        pressed_buttons(wparam as int).left <==> wparam & 0x01 != 0,
        pressed_buttons(wparam as int).right <==> wparam & 0x02 != 0,
        pressed_buttons(wparam as int).middle <==> wparam & 0x10 != 0,
{
    assert((wparam & 0x01 != 0) == (wparam % 2 == 1)) by (bit_vector);
    assert((wparam & 0x02 != 0) == (wparam / 2 % 2 == 1)) by (bit_vector);
    assert((wparam & 0x10 != 0) == (wparam / 16 % 2 == 1)) by (bit_vector);
}

/// A key code names its virtual key, and every virtual key that a key code names
/// is translated to that key code.
pub proof fn law_key_codes_name_virtual_keys(vk: int, key: KeyCode)
    ensures
        keycode_of(vk) == Some(key) <==> match key {
            KeyCode::PageUp => vk == 0x21,
            KeyCode::PageDown => vk == 0x22,
            KeyCode::End => vk == 0x23,
            KeyCode::Home => vk == 0x24,
            KeyCode::LeftArrow => vk == 0x25,
            KeyCode::UpArrow => vk == 0x26,
            KeyCode::RightArrow => vk == 0x27,
            KeyCode::DownArrow => vk == 0x28,
            KeyCode::Insert => vk == 0x2d,
            KeyCode::Char(c) => c as int == 0x7f && vk == 0x2e,
            KeyCode::Function(n) => 1 <= n <= 24 && vk == 0x6f + n,
        },
{
}

/// The keys of A to Z stand for their small letters and the keys of the digits for
/// their digits, whatever the layout answers.
pub proof fn law_letters_and_digits_stand_for_themselves(vk: int, mapped: u32)
    ensures
        0x41 <= vk <= 0x5a ==> char_of(vk, mapped) is Some && char_of(vk, mapped)->0 as int == vk
            + 0x20,
        0x30 <= vk <= 0x39 ==> char_of(vk, mapped) is Some && char_of(vk, mapped)->0 as int == vk,
{
}

/// Every other key stands for the character in the low 15 bits of the layout's
/// answer, in lower case. It stands for none where these bits are zero or a control
/// character.
pub proof fn law_other_keys_follow_the_layout(vk: int, mapped: u32)
    requires
        !(0x41 <= vk <= 0x5a),
        !(0x30 <= vk <= 0x39),
    ensures
        ({
            let n = mapped as int % 0x8000;
            &&& char_of(vk, mapped) is None <==> (n <= 0x1f || 0x7f <= n <= 0x9f)
            &&& char_of(vk, mapped) is Some ==> char_of(vk, mapped)->0
                == crate::letters::lower_case(n as char)
        }),
{
}


} // verus!
