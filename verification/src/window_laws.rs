//! What holds of windows and their messages over several calls.
use vstd::prelude::*;

use crate::connection::WindowInner;
use crate::gui::GuiState;
use crate::input::KeyCode;
use crate::input::KeyEvent;
use crate::input::KeyboardLedStatus;
use crate::input::Modifiers;
use crate::input::MouseCursor;
use crate::input::MouseEventKind;
use crate::input::WindowEvent;
use crate::keycodes::KeyStates;
use crate::win32::WM_CHAR;
use crate::win32::WM_DESTROY;
use crate::win32::WM_KEYDOWN;
use crate::win32::WM_MOUSEWHEEL;
use crate::win32::WM_SIZE;
use crate::window::ResolvedGeometry;
use crate::wnd_proc::Action;
use crate::wnd_proc::Message;
use crate::wnd_proc::Outcome;

verus! {

/// Unfolds an answer of at most two actions.
pub(crate) proof fn lemma_after_message<E>(
    state: GuiState<E>,
    id: usize,
    m: Message,
    keys: KeyStates,
    mapped: u32,
)
    ensures
        state.answer(id, m, keys, mapped).0.len() <= 2,
        ({
            let actions = state.answer(id, m, keys, mapped).0;
            let read = state.after_read(id, m);
            state.after_message(id, m, keys, mapped) == (if actions.len() == 0 {
                read
            } else if actions.len() == 1 {
                read.after_action(id, actions[0])
            } else {
                read.after_action(id, actions[0]).after_action(id, actions[1])
            })
        }),
{
    let actions = state.answer(id, m, keys, mapped).0;
    reveal_with_fuel(GuiState::after_actions, 3);
    if actions.len() == 2 {
        assert(actions.drop_first()[0] == actions[1]);
    }
}

/// A message that is left to the system has no other effect.
pub proof fn law_default_messages_do_nothing<E>(
    state: GuiState<E>,
    id: usize,
    m: Message,
    keys: KeyStates,
    mapped: u32,
)
    requires
        state.answer(id, m, keys, mapped).1 == Outcome::Default,
    ensures
        state.answer(id, m, keys, mapped).0 == Seq::<Action>::empty(),
        state.after_message(id, m, keys, mapped) == state,
{
    lemma_after_message(state, id, m, keys, mapped);
}

/// A message reports at most one event.
pub proof fn law_at_most_one_event<E>(
    state: GuiState<E>,
    id: usize,
    m: Message,
    keys: KeyStates,
    mapped: u32,
    i: int,
    j: int,
)
    requires
        0 <= i < state.answer(id, m, keys, mapped).0.len(),
        0 <= j < state.answer(id, m, keys, mapped).0.len(),
        state.answer(id, m, keys, mapped).0[i] is Dispatch,
        state.answer(id, m, keys, mapped).0[j] is Dispatch,
    ensures
        i == j,
{
}

/// Messages keep the registry well formed.
pub proof fn law_messages_keep_registry_well_formed<E>(
    state: GuiState<E>,
    id: usize,
    m: Message,
    keys: KeyStates,
    mapped: u32,
)
    requires
        state.well_formed(),
    ensures
        state.after_message(id, m, keys, mapped).well_formed(),
{
    lemma_after_message(state, id, m, keys, mapped);
}

/// Messages keep the thread's connection and the counter of ids.
pub proof fn law_messages_keep_the_counter<E>(
    state: GuiState<E>,
    id: usize,
    m: Message,
    keys: KeyStates,
    mapped: u32,
)
    ensures
        state.after_message(id, m, keys, mapped).connection is Some <==> state.connection is Some,
        state.connection is Some ==> state.after_message(
            id,
            m,
            keys,
            mapped,
        ).connection->0.next_window_id == state.connection->0.next_window_id,
{
    lemma_after_message(state, id, m, keys, mapped);
}

/// A message for one window leaves every other window as it was.
pub proof fn law_other_windows_are_untouched<E>(
    state: GuiState<E>,
    id: usize,
    other: usize,
    m: Message,
    keys: KeyStates,
    mapped: u32,
)
    requires
        other != id,
    ensures
        state.after_message(id, m, keys, mapped).window(other) == state.window(other),
{
    lemma_after_message(state, id, m, keys, mapped);
}

/// A message leaves its own window as it was, but for `WM_SIZE`, which changes
/// the remembered size alone, and `WM_DESTROY`, which forgets the window.
pub proof fn law_what_messages_change<E>(
    state: GuiState<E>,
    id: usize,
    m: Message,
    keys: KeyStates,
    mapped: u32,
)
    ensures
        ({
            let after = state.after_message(id, m, keys, mapped).window(id);
            match state.routed(id) {
                Some(inner) => if m.msg == WM_DESTROY {
                    after is None
                } else if m.msg == WM_SIZE {
                    after == Some(
                        WindowInner {
                            dimensions: crate::wnd_proc::reported_dimensions(m.lparam),
                            ..inner
                        },
                    )
                } else {
                    after == Some(inner)
                },
                None => after == state.window(id),
            }
        }),
{
    lemma_after_message(state, id, m, keys, mapped);
}

/// Once the message loop has ended, no window is registered, and every message
/// is left to the system.
pub proof fn law_no_window_survives_the_loop<E>(
    state: GuiState<E>,
    id: usize,
    m: Message,
    keys: KeyStates,
    mapped: u32,
)
    ensures
        state.without_windows().window(id) is None,
        state.well_formed() ==> state.without_windows().well_formed(),
        state.without_windows().answer(id, m, keys, mapped) == (
            Seq::<Action>::empty(),
            Outcome::Default,
        ),
{
}

/// A new window gets an id that is not zero and that no window has, leaves all
/// other windows as they were, and keeps the registry well formed; the next
/// window gets a larger id. The counter of ids must not be at its end.
pub proof fn law_new_window_is_fresh<E>(
    state: GuiState<E>,
    hwnd: isize,
    geometry: ResolvedGeometry,
    dpi: usize,
    events: E,
    other: usize,
)
    requires
        state.well_formed(),
        state.connection is Some,
        state.connection->0.next_window_id < usize::MAX,
        hwnd != 0,
    ensures
        ({
            let id = state.connection->0.next_window_id;
            let after = state.with_new_window(hwnd, geometry, dpi, events);
            &&& id != 0
            &&& state.window(id) is None
            &&& after.routed(id) is Some
            &&& after.window(id)->0.hwnd == hwnd
            &&& other != id ==> after.window(other) == state.window(other)
            &&& after.well_formed()
            &&& after.connection->0.next_window_id > id
        }),
{
}

/// The id zero of a native window that is not registered yet names no window.
pub proof fn law_zero_is_no_window<E>(state: GuiState<E>)
    requires
        state.well_formed(),
    ensures
        state.window(0) is None,
        forall|id: usize| #[trigger] state.routed(id) == state.window(id),
{
}

/// Setting the pointer shape of a registered window keeps the registry well
/// formed and every other window as it was.
pub proof fn law_set_cursor_touches_one_window<E>(
    state: GuiState<E>,
    id: usize,
    cursor: Option<MouseCursor>,
    other: usize,
)
    requires
        state.window(id) is Some,
        other != id,
    ensures
        ({
            let set = state.with_window(id, WindowInner { cursor, ..state.window(id)->0 });
            &&& set.window(id) == Some(WindowInner { cursor, ..state.window(id)->0 })
            &&& set.window(other) == state.window(other)
            &&& state.well_formed() ==> set.well_formed()
        }),
{
}

/// A key press that produces text, without Ctrl and Alt, is reported once: its
/// `WM_KEYDOWN` reports nothing, goes to the system, which posts a `WM_CHAR`,
/// and that one reports the character in its low 32 bits, without modifiers.
pub proof fn law_text_is_reported_once<E>(
    state: GuiState<E>,
    id: usize,
    key: Message,
    keys: KeyStates,
    mapped: u32,
    m: Message,
)
    requires
        state.routed(id) is Some,
        !state.swallow_next_char,
        key.msg == WM_KEYDOWN,
        crate::keycodes::keycode_of(crate::words::signed32(key.wparam as int)) is None,
        keys.control >= 0,
        keys.menu >= 0,
        m.msg == WM_CHAR,
        m.wparam as int % 0x1_0000_0000 != 0,
        crate::utf16::is_scalar(m.wparam as int % 0x1_0000_0000),
    ensures
        state.answer(id, key, keys, mapped) == (Seq::<Action>::empty(), Outcome::Default),
        state.after_message(id, key, keys, mapped) == state,
        state.answer(id, m, keys, mapped) == (
            seq![
                Action::Dispatch(
                    WindowEvent::KeyEvent(
                        KeyEvent {
                            key: KeyCode::Char((m.wparam as int % 0x1_0000_0000) as char),
                            modifiers: Modifiers {
                                shift: false,
                                ctrl: false,
                                alt: false,
                                super_key: false,
                            },
                            leds: KeyboardLedStatus { caps_lock: false, num_lock: false },
                            repeat_count: 1,
                            key_is_down: true,
                            raw: None,
                            win32_uni_char: Some((m.wparam as int % 0x1_0000_0000) as char),
                        },
                    ),
                ),
            ],
            Outcome::Return(0),
        ),
{
    lemma_after_message(state, id, key, keys, mapped);
}

/// A navigation or function key is reported on its `WM_KEYDOWN`, and no
/// `WM_CHAR` is dropped on its account.
pub proof fn law_translated_key_drops_no_char<E>(
    state: GuiState<E>,
    id: usize,
    key: Message,
    keys: KeyStates,
    mapped: u32,
)
    requires
        state.routed(id) is Some,
        key.msg == WM_KEYDOWN,
        crate::keycodes::keycode_of(crate::words::signed32(key.wparam as int)) is Some,
    ensures
        state.answer(id, key, keys, mapped) == (
            seq![
                Action::Dispatch(
                    WindowEvent::KeyEvent(
                        KeyEvent {
                            key: crate::keycodes::keycode_of(crate::words::signed32(key.wparam as int))->0,
                            modifiers: Modifiers {
                                shift: keys.shift < 0,
                                ctrl: keys.control < 0,
                                alt: keys.menu < 0,
                                super_key: keys.left_win < 0 || keys.right_win < 0,
                            },
                            leds: KeyboardLedStatus { caps_lock: false, num_lock: false },
                            repeat_count: (key.lparam as int % 0x10000) as u16,
                            key_is_down: true,
                            raw: None,
                            win32_uni_char: None,
                        },
                    ),
                ),
            ],
            Outcome::Return(0),
        ),
        state.after_message(id, key, keys, mapped) == state,
{
    lemma_after_message(state, id, key, keys, mapped);
}

/// A key press that is reported as a character: one together with Ctrl or Alt
/// of a key that is not translated and has a base character.
pub open spec fn is_combination(m: Message, keys: KeyStates, mapped: u32) -> bool {
    let vk = crate::words::signed32(m.wparam as int);
    &&& m.msg == WM_KEYDOWN
    &&& crate::keycodes::keycode_of(vk) is None
    &&& crate::wnd_proc::combo_char(vk, keys, mapped) is Some
}

/// The note that a `WM_CHAR` is a duplicate is made by a combination with Ctrl
/// or Alt alone, and used up by the next `WM_CHAR`.
pub proof fn law_duplicate_note<E>(
    state: GuiState<E>,
    id: usize,
    m: Message,
    keys: KeyStates,
    mapped: u32,
)
    ensures
        ({
            let after = state.after_message(id, m, keys, mapped);
            after.swallow_next_char == if state.routed(id) is Some && is_combination(
                m,
                keys,
                mapped,
            ) {
                true
            } else if state.routed(id) is Some && m.msg == WM_CHAR {
                false
            } else {
                state.swallow_next_char
            }
        }),
{
    lemma_after_message(state, id, m, keys, mapped);
}

/// The state of the modifier keys matters for key presses and mouse messages only.
pub proof fn law_keyboard_is_read_where_it_matters<E>(
    state: GuiState<E>,
    id: usize,
    m: Message,
    keys: KeyStates,
    other: KeyStates,
    mapped: u32,
)
    requires
        m.msg != WM_KEYDOWN,
        crate::wnd_proc::mouse_kind(m) is None,
    ensures
        state.answer(id, m, keys, mapped) == state.answer(id, m, other, mapped),
{
}

/// The keyboard layout matters only for a combination with Ctrl or Alt of a key
/// that is neither translated nor a letter or a digit.
pub proof fn law_layout_is_asked_where_it_matters<E>(
    state: GuiState<E>,
    id: usize,
    m: Message,
    keys: KeyStates,
    mapped: u32,
    other: u32,
)
    requires
        !({
            let vk = crate::words::signed32(m.wparam as int);
            let mods = crate::keycodes::held_modifiers(keys);
            &&& state.routed(id) is Some
            &&& m.msg == WM_KEYDOWN
            &&& crate::keycodes::keycode_of(vk) is None
            &&& mods.ctrl || mods.alt
            &&& !crate::keycodes::is_alphanumeric_key(vk)
        }),
    ensures
        state.answer(id, m, keys, mapped) == state.answer(id, m, keys, other),
{
}

/// The coordinates of the mouse, positive or negative, are the two signed words
/// that were packed into `lparam`.
pub proof fn law_mouse_coordinates_are_unpacked(
    x: i16,
    y: i16,
    kind: MouseEventKind,
    wparam: usize,
    lparam: isize,
    keys: KeyStates,
)
    requires
        lparam as int % 0x1_0000_0000 == (y as int % 0x10000) * 0x10000 + x as int % 0x10000,
    ensures
        crate::wnd_proc::mouse_event(kind, wparam, lparam, keys).coords.x == x,
        crate::wnd_proc::mouse_event(kind, wparam, lparam, keys).coords.y == y,
        crate::wnd_proc::mouse_event(kind, wparam, lparam, keys).screen_coords.x == x,
        crate::wnd_proc::mouse_event(kind, wparam, lparam, keys).screen_coords.y == y,
{
}

/// The size of the client area is the two words that were packed into `lparam`.
pub proof fn law_size_is_unpacked(width: u16, height: u16, lparam: isize)
    requires
        lparam as int % 0x1_0000_0000 == height * 0x10000 + width,
    ensures
        crate::wnd_proc::reported_dimensions(lparam).pixel_width == width,
        crate::wnd_proc::reported_dimensions(lparam).pixel_height == height,
{
    lemma_words(lparam as int, height as int, width as int);
}

/// Every notch of the wheel, in either direction, is counted, whatever the
/// buttons in the low word of `wparam`.
pub proof fn law_wheel_counts_notches(notches: i16, buttons: u16, m: Message)
    requires
        m.msg == WM_MOUSEWHEEL,
        -273 <= notches <= 273,
        m.wparam as int % 0x1_0000_0000 == (notches * 120) % 0x10000 * 0x10000 + buttons,
    ensures
        crate::wnd_proc::mouse_kind(m) == Some(MouseEventKind::VertWheel(notches)),
{
    let delta = notches * 120;
    lemma_words(m.wparam as int, delta % 0x10000, buttons as int);
    lemma_signed_word(delta);
    lemma_div_multiple(notches as int);
}

/// The words of a number are what its low 32 bits are made of.
pub(crate) proof fn lemma_words(n: int, high: int, low: int)
    requires
        n % 0x1_0000_0000 == high * 0x10000 + low,
        0 <= high < 0x10000,
        0 <= low < 0x10000,
    ensures
        crate::words::high_word(n) == high,
        crate::words::low_word(n) == low,
{
    let m = n % 0x1_0000_0000;
    let q = n / 0x1_0000_0000;
    assert(n == q * 0x1_0000_0000 + high * 0x10000 + low);
    assert(n / 0x10000 == q * 0x10000 + high);
}

/// A signed number of 16 bits is what its word stands for.
pub(crate) proof fn lemma_signed_word(n: int)
    requires
        -0x8000 <= n < 0x8000,
    ensures
        crate::words::signed16(n % 0x10000) == n,
{
}

/// A multiple of the wheel's unit is that many units.
proof fn lemma_div_multiple(n: int)
    ensures
        crate::wnd_proc::div_toward_zero(n * 120, 120) == n,
{
}

} // verus!
