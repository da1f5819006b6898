//! What each native message is for: the events that a window's receiver gets, by
//! the fields of the message and of the event.
use vstd::prelude::*;

use crate::gui::GuiState;
use crate::input::KeyCode;
use crate::input::MouseCursor;
use crate::input::MouseEventKind;
use crate::input::MousePress;
use crate::input::WindowEvent;
use crate::keycodes::KeyStates;
use crate::wnd_proc::Action;
use crate::wnd_proc::Message;
use crate::wnd_proc::Outcome;

verus! {

/// Every id but zero names the window that is registered under it, and zero none.
pub proof fn law_messages_are_routed_by_id<E>(state: GuiState<E>, id: usize)
    ensures
        id == 0 ==> state.routed(id) is None,
        id != 0 ==> state.routed(id) == state.window(id),
{
}

/// A message for a window that is not registered is left to the system.
pub proof fn law_unknown_window_is_left_to_the_system<E>(
    state: GuiState<E>,
    id: usize,
    m: Message,
    keys: KeyStates,
    mapped: u32,
)
    requires
        id == 0 || state.window(id) is None,
    ensures
        state.answer(id, m, keys, mapped).0.len() == 0,
        state.answer(id, m, keys, mapped).1 == Outcome::Default,
        state.after_read(id, m) == state,
{
}

/// A navigation or function key is reported on its `WM_KEYDOWN`, with every
/// modifier that is held and none other, and with the number of its repeats in the low
/// word of `lparam`. Nothing else happens.
pub proof fn law_named_key_is_reported<E>(
    state: GuiState<E>,
    id: usize,
    m: Message,
    keys: KeyStates,
    mapped: u32,
    key: KeyCode,
)
    requires
        id != 0,
        state.window(id) is Some,
        m.msg == 0x0100,
        ({
            let vk = m.wparam as int % 0x1_0000_0000;
            match key {
                KeyCode::PageUp => vk == 0x21,
                KeyCode::PageDown => vk == 0x22,
                KeyCode::End => vk == 0x23,
                KeyCode::Home => vk == 0x24,
                KeyCode::LeftArrow => vk == 0x25,
                KeyCode::UpArrow => vk == 0x26,
                KeyCode::RightArrow => vk == 0x27,
                KeyCode::DownArrow => vk == 0x28,
                KeyCode::Insert => vk == 0x2d,
                KeyCode::Char(c) => c as int == 0x7f && vk == 0x2e,
                KeyCode::Function(n) => 1 <= n <= 24 && vk == 0x6f + n,
            }
        }),
    ensures
        state.answer(id, m, keys, mapped).1 == Outcome::Return(0),
        state.answer(id, m, keys, mapped).0.len() == 1,
        state.answer(id, m, keys, mapped).0[0] matches Action::Dispatch(WindowEvent::KeyEvent(e))
            && {
            &&& e.key == key
            &&& e.modifiers.shift <==> keys.shift < 0
            &&& e.modifiers.ctrl <==> keys.control < 0
            &&& e.modifiers.alt <==> keys.menu < 0
            &&& e.modifiers.super_key <==> (keys.left_win < 0 || keys.right_win < 0)
            &&& e.repeat_count == m.lparam as int % 0x10000
            &&& e.key_is_down
            &&& e.raw is None
            &&& e.win32_uni_char is None
            &&& !e.leds.caps_lock
            &&& !e.leds.num_lock
        },
{
}

/// A key that is pressed together with Ctrl or Alt is reported on its
/// `WM_KEYDOWN` as its base character, with every modifier that is held and none
/// other; then the next `WM_CHAR` is noted as its duplicate. The base character is
/// the small letter or the digit of the key, and of every other key the lower case
/// of what the layout answers.
pub proof fn law_combination_is_reported_with_its_modifiers<E>(
    state: GuiState<E>,
    id: usize,
    m: Message,
    keys: KeyStates,
    mapped: u32,
    c: char,
)
    requires
        id != 0,
        state.window(id) is Some,
        m.msg == 0x0100,
        keys.control < 0 || keys.menu < 0,
        ({
            let vk = m.wparam as int % 0x1_0000_0000;
            let n = mapped as int % 0x8000;
            if 0x41 <= vk <= 0x5a {
                c as int == vk + 0x20
            } else if 0x30 <= vk <= 0x39 {
                c as int == vk
            } else {
                &&& !(0x21 <= vk <= 0x28 || vk == 0x2d || vk == 0x2e || 0x70 <= vk <= 0x87)
                &&& !(n <= 0x1f || 0x7f <= n <= 0x9f)
                &&& c == crate::letters::lower_case(n as char)
            }
        }),
    ensures
        state.answer(id, m, keys, mapped).1 == Outcome::Return(0),
        state.answer(id, m, keys, mapped).0.len() == 2,
        state.answer(id, m, keys, mapped).0[0] matches Action::Dispatch(WindowEvent::KeyEvent(e))
            && {
            &&& e.key == KeyCode::Char(c)
            &&& e.modifiers.shift <==> keys.shift < 0
            &&& e.modifiers.ctrl <==> keys.control < 0
            &&& e.modifiers.alt <==> keys.menu < 0
            &&& e.modifiers.super_key <==> (keys.left_win < 0 || keys.right_win < 0)
            &&& e.repeat_count == m.lparam as int % 0x10000
            &&& e.key_is_down
            &&& e.raw is None
            &&& e.win32_uni_char is None
            &&& !e.leds.caps_lock
            &&& !e.leds.num_lock
        },
        state.answer(id, m, keys, mapped).0[1] == Action::SwallowNextChar,
{
    crate::words::law_signed_bits_are_congruent(m.wparam as int);
}

/// Every other key press is left to the system, which sends its character: a key
/// that is neither a navigation nor a function key, without Ctrl and Alt or without
/// a base character.
pub proof fn law_other_keys_are_left_to_the_system<E>(
    state: GuiState<E>,
    id: usize,
    m: Message,
    keys: KeyStates,
    mapped: u32,
)
    requires
        m.msg == 0x0100,
        ({
            let vk = m.wparam as int % 0x1_0000_0000;
            let n = mapped as int % 0x8000;
            &&& !(0x21 <= vk <= 0x28 || vk == 0x2d || vk == 0x2e || 0x70 <= vk <= 0x87)
            &&& !(keys.control < 0 || keys.menu < 0) || (!(0x41 <= vk <= 0x5a || 0x30 <= vk <= 0x39)
                && (n <= 0x1f || 0x7f <= n <= 0x9f))
        }),
    ensures
        state.answer(id, m, keys, mapped).0.len() == 0,
        state.answer(id, m, keys, mapped).1 == Outcome::Default,
{
    crate::words::law_signed_bits_are_congruent(m.wparam as int);
}

/// A `WM_CHAR` reports the character in its low 32 bits as it is, once, without
/// modifiers, unless it is a duplicate. A duplicate, a zero and what is no
/// character are dropped. The system is never asked to handle it.
pub proof fn law_character_is_reported_as_it_is<E>(
    state: GuiState<E>,
    id: usize,
    m: Message,
    keys: KeyStates,
    mapped: u32,
)
    requires
        id != 0,
        state.window(id) is Some,
        m.msg == 0x0102,
    ensures
        ({
            let n = m.wparam as int % 0x1_0000_0000;
            let is_text = 0 < n <= 0x10ffff && !(0xd800 <= n <= 0xdfff);
            let actions = state.answer(id, m, keys, mapped).0;
            &&& state.answer(id, m, keys, mapped).1 == Outcome::Return(0)
            &&& state.swallow_next_char || !is_text ==> actions.len() == 0
            &&& !state.swallow_next_char && is_text ==> {
                &&& actions.len() == 1
                &&& actions[0] matches Action::Dispatch(WindowEvent::KeyEvent(e)) && {
                    &&& e.key is Char
                    &&& e.key->Char_0 as int == n
                    &&& e.win32_uni_char is Some
                    &&& e.win32_uni_char->0 as int == n
                    &&& !e.modifiers.shift
                    &&& !e.modifiers.ctrl
                    &&& !e.modifiers.alt
                    &&& !e.modifiers.super_key
                    &&& e.repeat_count == 1
                    &&& e.key_is_down
                    &&& e.raw is None
                    &&& !e.leds.caps_lock
                    &&& !e.leds.num_lock
                }
            }
        }),
{
}

/// Every mouse message is reported once, with the modifiers that are held and none
/// other, with the buttons whose bits are set in `wparam`, and at the two signed
/// words of `lparam`, in the client area and on the screen alike.
pub proof fn law_mouse_is_reported_with_buttons_and_modifiers<E>(
    state: GuiState<E>,
    id: usize,
    m: Message,
    keys: KeyStates,
    mapped: u32,
    x: int,
    y: int,
)
    requires
        id != 0,
        state.window(id) is Some,
        0x0200 <= m.msg <= 0x0202 || 0x0204 <= m.msg <= 0x0205 || 0x0207 <= m.msg <= 0x0208
            || m.msg == 0x020a,
        -0x8000 <= x < 0x8000,
        -0x8000 <= y < 0x8000,
        m.lparam as int % 0x1_0000_0000 == (y % 0x10000) * 0x10000 + x % 0x10000,
    ensures
        state.answer(id, m, keys, mapped).1 == Outcome::Return(0),
        state.answer(id, m, keys, mapped).0.len() == 1,
        state.answer(id, m, keys, mapped).0[0] matches Action::Dispatch(WindowEvent::MouseEvent(e))
            && {
            &&& e.coords.x == x
            &&& e.coords.y == y
            &&& e.screen_coords.x == x
            &&& e.screen_coords.y == y
            &&& e.modifiers.shift <==> keys.shift < 0
            &&& e.modifiers.ctrl <==> keys.control < 0
            &&& e.modifiers.alt <==> keys.menu < 0
            &&& e.modifiers.super_key <==> (keys.left_win < 0 || keys.right_win < 0)
            &&& e.mouse_buttons.left <==> m.wparam & 0x01 != 0
            &&& e.mouse_buttons.right <==> m.wparam & 0x02 != 0
            &&& e.mouse_buttons.middle <==> m.wparam & 0x10 != 0
            &&& e.platform_click_count == 0
        },
{
    crate::keycodes::law_each_button_has_its_bit(m.wparam);
    crate::window_laws::lemma_words(m.lparam as int, y % 0x10000, x % 0x10000);
    crate::window_laws::lemma_signed_word(x);
    crate::window_laws::lemma_signed_word(y);
}

/// What happened to the mouse is what its message says: a move, or the press or
/// release of one button.
pub proof fn law_mouse_message_says_what_happened<E>(
    state: GuiState<E>,
    id: usize,
    m: Message,
    keys: KeyStates,
    mapped: u32,
    kind: MouseEventKind,
)
    requires
        id != 0,
        state.window(id) is Some,
        match kind {
            MouseEventKind::Move => m.msg == 0x0200,
            MouseEventKind::Press(MousePress::Left) => m.msg == 0x0201,
            MouseEventKind::Release(MousePress::Left) => m.msg == 0x0202,
            MouseEventKind::Press(MousePress::Right) => m.msg == 0x0204,
            MouseEventKind::Release(MousePress::Right) => m.msg == 0x0205,
            MouseEventKind::Press(MousePress::Middle) => m.msg == 0x0207,
            MouseEventKind::Release(MousePress::Middle) => m.msg == 0x0208,
            MouseEventKind::VertWheel(_) => false,
        },
    ensures
        state.answer(id, m, keys, mapped).0.len() == 1,
        state.answer(id, m, keys, mapped).0[0] matches Action::Dispatch(WindowEvent::MouseEvent(e))
            && e.kind == kind,
{
}

/// The wheel reports the whole notches of its turn, in the direction of the turn: what
/// is left over is less than a notch and points in the same direction.
pub proof fn law_wheel_reports_whole_notches<E>(
    state: GuiState<E>,
    id: usize,
    m: Message,
    keys: KeyStates,
    mapped: u32,
    delta: int,
    low: int,
)
    requires
        id != 0,
        state.window(id) is Some,
        m.msg == 0x020a,
        -0x8000 <= delta < 0x8000,
        0 <= low < 0x10000,
        m.wparam as int % 0x1_0000_0000 == (delta % 0x10000) * 0x10000 + low,
    ensures
        state.answer(id, m, keys, mapped).0.len() == 1,
        state.answer(id, m, keys, mapped).0[0] matches Action::Dispatch(WindowEvent::MouseEvent(e))
            && e.kind is VertWheel && {
            let notches = e.kind->VertWheel_0;
            &&& delta >= 0 ==> 0 <= delta - notches * 120 < 120
            &&& delta < 0 ==> -120 < delta - notches * 120 <= 0
        },
{
    crate::window_laws::lemma_words(m.wparam as int, delta % 0x10000, low);
    crate::window_laws::lemma_signed_word(delta);
    assert(delta >= 0 ==> 0 <= delta - (delta / 120) * 120 < 120);
    assert(delta < 0 ==> -120 < delta + ((-delta) / 120) * 120 <= 0);
    assert(-0x8000 <= crate::wnd_proc::div_toward_zero(delta, 120) < 0x8000);
}

/// A `WM_PAINT` is acknowledged to the system before the window is asked to paint.
pub proof fn law_paint_is_acknowledged_first<E>(
    state: GuiState<E>,
    id: usize,
    m: Message,
    keys: KeyStates,
    mapped: u32,
)
    requires
        id != 0,
        state.window(id) is Some,
        m.msg == 0x000f,
    ensures
        state.answer(id, m, keys, mapped).1 == Outcome::Return(0),
        state.answer(id, m, keys, mapped).0.len() == 2,
        state.answer(id, m, keys, mapped).0[0] == Action::ValidateRect,
        state.answer(id, m, keys, mapped).0[1] == Action::Dispatch(WindowEvent::NeedRepaint),
{
}

/// A `WM_SIZE` is remembered before it is reported, with the same size: the two words
/// of `lparam`, at 96 DPI. The window counts as an ordinary one, and as being resized
/// unless it was minimized or maximized.
pub proof fn law_size_is_remembered_and_reported<E>(
    state: GuiState<E>,
    id: usize,
    m: Message,
    keys: KeyStates,
    mapped: u32,
)
    requires
        id != 0,
        state.window(id) is Some,
        m.msg == 0x0005,
    ensures
        state.answer(id, m, keys, mapped).1 == Outcome::Return(0),
        state.answer(id, m, keys, mapped).0.len() == 2,
        state.answer(id, m, keys, mapped).0[0] matches Action::StoreDimensions(d) && {
            &&& d.pixel_width < 0x10000
            &&& d.pixel_height < 0x10000
            &&& m.lparam as int % 0x1_0000_0000 == d.pixel_height * 0x10000 + d.pixel_width
            &&& d.dpi == 96
            &&& state.answer(id, m, keys, mapped).0[1] matches Action::Dispatch(
                WindowEvent::Resized { dimensions, window_state, live_resizing, screen_changed },
            ) && {
                &&& dimensions == d
                &&& !window_state.full_screen
                &&& !window_state.maximized
                &&& !window_state.hidden
                &&& live_resizing <==> m.wparam == 0
                &&& !screen_changed
            }
        },
{
    crate::words::law_words_make_up_the_number(m.lparam as int);
}

/// Over the client area the pointer gets the window's own shape, and the message is
/// answered; elsewhere the system chooses.
pub proof fn law_pointer_has_the_shape_of_its_window<E>(
    state: GuiState<E>,
    id: usize,
    m: Message,
    keys: KeyStates,
    mapped: u32,
)
    requires
        id != 0,
        state.window(id) is Some,
        m.msg == 0x0020,
    ensures
        ({
            let (actions, outcome) = state.answer(id, m, keys, mapped);
            let shape = state.window(id)->0.cursor;
            &&& m.lparam as int % 0x10000 != 1 ==> actions.len() == 0 && outcome == Outcome::Default
            &&& m.lparam as int % 0x10000 == 1 ==> {
                &&& outcome == Outcome::Return(1)
                &&& actions.len() == 1
                &&& actions[0] matches Action::ApplyCursor(name) && match shape {
                    Some(MouseCursor::Text) => name == 32513,
                    Some(MouseCursor::SizeLeftRight) => name == 32644,
                    Some(MouseCursor::SizeUpDown) => name == 32645,
                    Some(MouseCursor::Grabbing) => name == 32646,
                    Some(MouseCursor::Hand) => name == 32649,
                    Some(MouseCursor::Arrow) => name == 32512,
                    None => name == 32512,
                }
            }
        }),
{
}

/// A window is told when it gets and when it loses the focus, and when it is asked to
/// close. Being asked to close does not close it.
pub proof fn law_focus_and_close_are_reported<E>(
    state: GuiState<E>,
    id: usize,
    m: Message,
    keys: KeyStates,
    mapped: u32,
)
    requires
        id != 0,
        state.window(id) is Some,
        m.msg == 0x0007 || m.msg == 0x0008 || m.msg == 0x0010,
    ensures
        state.answer(id, m, keys, mapped).1 == Outcome::Return(0),
        state.answer(id, m, keys, mapped).0.len() == 1,
        m.msg == 0x0007 ==> state.answer(id, m, keys, mapped).0[0] == Action::Dispatch(
            WindowEvent::FocusChanged(true),
        ),
        m.msg == 0x0008 ==> state.answer(id, m, keys, mapped).0[0] == Action::Dispatch(
            WindowEvent::FocusChanged(false),
        ),
        m.msg == 0x0010 ==> state.answer(id, m, keys, mapped).0[0] == Action::Dispatch(
            WindowEvent::CloseRequested,
        ),
{
}

/// A window hears that it is destroyed before it is forgotten.
pub proof fn law_destruction_is_reported_then_forgotten<E>(
    state: GuiState<E>,
    id: usize,
    m: Message,
    keys: KeyStates,
    mapped: u32,
)
    requires
        id != 0,
        state.window(id) is Some,
        m.msg == 0x0002,
    ensures
        state.answer(id, m, keys, mapped).1 == Outcome::Return(0),
        state.answer(id, m, keys, mapped).0.len() == 2,
        state.answer(id, m, keys, mapped).0[0] == Action::Dispatch(WindowEvent::Destroyed),
        state.answer(id, m, keys, mapped).0[1] == Action::Forget,
{
}

/// Every message that the backend does not know is left to the system.
pub proof fn law_unknown_message_is_left_to_the_system<E>(
    state: GuiState<E>,
    id: usize,
    m: Message,
    keys: KeyStates,
    mapped: u32,
)
    requires
        m.msg != 0x0002,
        m.msg != 0x0005,
        m.msg != 0x0007,
        m.msg != 0x0008,
        m.msg != 0x000f,
        m.msg != 0x0010,
        m.msg != 0x0020,
        m.msg != 0x0100,
        m.msg != 0x0102,
        !(0x0200 <= m.msg <= 0x0202),
        !(0x0204 <= m.msg <= 0x0205),
        !(0x0207 <= m.msg <= 0x0208),
        m.msg != 0x020a,
    ensures
        state.answer(id, m, keys, mapped).0.len() == 0,
        state.answer(id, m, keys, mapped).1 == Outcome::Default,
{
}

/// Reading a message changes no window. It uses up the note on duplicates where it is
/// a `WM_CHAR` of a registered window, and leaves it otherwise.
pub proof fn law_reading_uses_up_the_note_alone<E>(state: GuiState<E>, id: usize, m: Message)
    ensures
        state.after_read(id, m).connection == state.connection,
        state.after_read(id, m).swallow_next_char <==> (state.swallow_next_char && !(m.msg == 0x0102
            && id != 0 && state.window(id) is Some)),
{
}

/// A size that is stored becomes the size of its window, which is otherwise as it was;
/// a window that is gone stays gone. To forget a window ends that window alone. The note
/// on duplicates is made by its own action alone, and the actions that the system or
/// the receiver sees change nothing.
pub proof fn law_actions_do_what_they_say<E>(
    state: GuiState<E>,
    id: usize,
    action: Action,
    other: usize,
)
    requires
        state.connection is Some,
    ensures
        ({
            let after = state.after_action(id, action);
            let before = state.window(id);
            &&& after.connection is Some
            &&& after.connection->0.next_window_id == state.connection->0.next_window_id
            &&& other != id ==> after.window(other) == state.window(other)
            &&& after.swallow_next_char <==> (state.swallow_next_char || action
                == Action::SwallowNextChar)
            &&& match action {
                Action::StoreDimensions(dimensions) => {
                    &&& after.window(id) is Some <==> before is Some
                    &&& before is Some ==> {
                        &&& after.window(id)->0.dimensions == dimensions
                        &&& after.window(id)->0.hwnd == before->0.hwnd
                        &&& after.window(id)->0.events == before->0.events
                        &&& after.window(id)->0.cursor == before->0.cursor
                        &&& after.window(id)->0.window_id == before->0.window_id
                    }
                },
                Action::Forget => after.window(id) is None,
                _ => after.window(id) == before,
            }
        }),
{
}

} // verus!
