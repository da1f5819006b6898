//! The window procedure: what each native message does.
//!
//! A message is answered in two parts. `wnd_proc` decides, from the state of
//! the GUI thread and the message alone, which actions follow and what the
//! native caller is told. The caller then carries the actions out in order and
//! hands each one to `perform`, which keeps the state up to date. No part of
//! the state is in use while an event is dispatched, so the receiver of an
//! event may cause further messages.
use vstd::prelude::*;

use crate::connection::WindowInner;
use crate::gui::GuiState;
use crate::gui::GuiThread;
use crate::input::Dimensions;
use crate::input::KeyCode;
use crate::input::KeyEvent;
use crate::input::KeyboardLedStatus;
use crate::input::Modifiers;
use crate::input::MouseCursor;
use crate::input::MouseEvent;
use crate::input::MouseEventKind;
use crate::input::MousePress;
use crate::input::WindowEvent;
use crate::input::WindowState;
use crate::keycodes::current_modifiers;
use crate::keycodes::layout_key;
use crate::keycodes::mouse_buttons_from_wparam;
use crate::keycodes::vkey_to_char;
use crate::keycodes::vkey_to_keycode;
use crate::keycodes::KeyStates;
use crate::screen::DEFAULT_DPI;
use crate::win32::HTCLIENT;
use crate::win32::SIZE_RESTORED;
use crate::win32::WHEEL_DELTA;
use crate::win32::WM_CHAR;
use crate::win32::WM_CLOSE;
use crate::win32::WM_DESTROY;
use crate::win32::WM_KEYDOWN;
use crate::win32::WM_KILLFOCUS;
use crate::win32::WM_LBUTTONDOWN;
use crate::win32::WM_LBUTTONUP;
use crate::win32::WM_MBUTTONDOWN;
use crate::win32::WM_MBUTTONUP;
use crate::win32::WM_MOUSEMOVE;
use crate::win32::WM_MOUSEWHEEL;
use crate::win32::WM_PAINT;
use crate::win32::WM_RBUTTONDOWN;
use crate::win32::WM_RBUTTONUP;
use crate::win32::WM_SETCURSOR;
use crate::win32::WM_SETFOCUS;
use crate::win32::WM_SIZE;
use crate::window::cursor_to_hcursor;
use crate::words::as_signed;
use crate::words::lparam_high;
use crate::words::lparam_low;
use crate::words::wparam_high;
use crate::words::wparam_i32;
use crate::words::wparam_u32;

verus! {

/// A native message.
#[derive(Debug, Clone, Copy, PartialEq, Eq, Structural)]
pub struct Message {
    pub msg: u32,
    pub wparam: usize,
    pub lparam: isize,
}

/// A step of the answer to a message.
#[derive(Debug, Clone, Copy, PartialEq, Eq)]
pub enum Action {
    /// Tell the system that the client area is up to date.
    ValidateRect,
    /// Remember the size of the client area.
    StoreDimensions(Dimensions),
    /// Report an event to the window's receiver.
    Dispatch(WindowEvent),
    /// Show a system cursor.
    ApplyCursor(u16),
    /// Treat the next `WM_CHAR` as a duplicate.
    SwallowNextChar,
    /// Forget the window.
    Forget,
}

/// What the native caller is told.
#[derive(Debug, Clone, Copy, PartialEq, Eq, Structural)]
pub enum Outcome {
    /// The message is answered with this number.
    Return(isize),
    /// The message goes to the system's default procedure.
    Default,
}

/// The answer to a message: the actions, in order, and then the outcome.
#[derive(Debug, PartialEq, Eq)]
pub struct Reply {
    pub actions: Vec<Action>,
    pub outcome: Outcome,
}

/// The report of a key press.
pub open spec fn key_press(
    key: KeyCode,
    modifiers: Modifiers,
    repeat_count: u16,
    win32_uni_char: Option<char>,
) -> WindowEvent {
    WindowEvent::KeyEvent(
        KeyEvent {
            key,
            modifiers,
            leds: crate::input::no_leds(),
            repeat_count,
            key_is_down: true,
            raw: None,
            win32_uni_char,
        },
    )
}

/// Division that rounds toward zero, by a positive number.
pub open spec fn div_toward_zero(n: int, d: int) -> int {
    if n >= 0 {
        n / d
    } else {
        -((-n) / d)
    }
}

/// What happened to the mouse, for each mouse message.
pub open spec fn mouse_kind(m: Message) -> Option<MouseEventKind> {
    if m.msg == WM_MOUSEMOVE {
        Some(MouseEventKind::Move)
    } else if m.msg == WM_LBUTTONDOWN {
        Some(MouseEventKind::Press(MousePress::Left))
    } else if m.msg == WM_LBUTTONUP {
        Some(MouseEventKind::Release(MousePress::Left))
    } else if m.msg == WM_RBUTTONDOWN {
        Some(MouseEventKind::Press(MousePress::Right))
    } else if m.msg == WM_RBUTTONUP {
        Some(MouseEventKind::Release(MousePress::Right))
    } else if m.msg == WM_MBUTTONDOWN {
        Some(MouseEventKind::Press(MousePress::Middle))
    } else if m.msg == WM_MBUTTONUP {
        Some(MouseEventKind::Release(MousePress::Middle))
    } else if m.msg == WM_MOUSEWHEEL {
        let delta = crate::words::signed16(crate::words::high_word(m.wparam as int));
        Some(MouseEventKind::VertWheel(div_toward_zero(delta, WHEEL_DELTA as int) as i16))
    } else {
        None
    }
}

/// The mouse event of a message: the signed words of `lparam` are its
/// coordinates, in the client area and on the screen alike.
pub open spec fn mouse_event(
    kind: MouseEventKind,
    wparam: usize,
    lparam: isize,
    keys: KeyStates,
) -> MouseEvent {
    let x = crate::words::signed16(crate::words::low_word(lparam as int)) as isize;
    let y = crate::words::signed16(crate::words::high_word(lparam as int)) as isize;
    MouseEvent {
        kind,
        coords: crate::input::point(x, y),
        screen_coords: crate::input::screen_point(x, y),
        mouse_buttons: crate::keycodes::pressed_buttons(wparam as int),
        modifiers: crate::keycodes::held_modifiers(keys),
        platform_click_count: 0,
    }
}

/// The size that a `WM_SIZE` reports.
pub open spec fn reported_dimensions(lparam: isize) -> Dimensions {
    Dimensions {
        pixel_width: crate::words::low_word(lparam as int) as usize,
        pixel_height: crate::words::high_word(lparam as int) as usize,
        dpi: DEFAULT_DPI as usize,
    }
}

/// The answer to a `WM_CHAR`: the duplicate of a key press that was already
/// reported is dropped, as is anything that is no character.
pub open spec fn char_response(swallow: bool, wparam: usize) -> (Seq<Action>, Outcome) {
    let n = wparam as int % 0x1_0000_0000;
    let actions = if !swallow && n != 0 && crate::utf16::is_scalar(n) {
        let c = n as char;
        seq![
            Action::Dispatch(key_press(KeyCode::Char(c), Modifiers::spec_none(), 1, Some(c))),
        ]
    } else {
        seq![]
    };
    (actions, Outcome::Return(0))
}

/// A key press that is reported on `WM_KEYDOWN` as a character: one together
/// with Ctrl or Alt that has a base character.
pub open spec fn combo_char(vk: int, keys: KeyStates, mapped: u32) -> Option<char> {
    let mods = crate::keycodes::held_modifiers(keys);
    if mods.ctrl || mods.alt {
        crate::keycodes::char_of(vk, mapped)
    } else {
        None
    }
}

/// The answer to a `WM_KEYDOWN`: keys without a `WM_CHAR` are reported, then
/// combinations with Ctrl or Alt, whose `WM_CHAR` is to be dropped. All other
/// keys are left to the system, which sends their `WM_CHAR`.
pub open spec fn key_response(m: Message, keys: KeyStates, mapped: u32) -> (
    Seq<Action>,
    Outcome,
) {
    let vk = crate::words::signed32(m.wparam as int);
    let mods = crate::keycodes::held_modifiers(keys);
    let repeat = crate::words::low_word(m.lparam as int) as u16;
    match crate::keycodes::keycode_of(vk) {
        Some(key) => (
            seq![Action::Dispatch(key_press(key, mods, repeat, None))],
            Outcome::Return(0),
        ),
        None => match combo_char(vk, keys, mapped) {
            Some(c) => (
                seq![
                    Action::Dispatch(key_press(KeyCode::Char(c), mods, repeat, None)),
                    Action::SwallowNextChar,
                ],
                Outcome::Return(0),
            ),
            None => (seq![], Outcome::Default),
        },
    }
}

/// The answer to a message of a registered window that has the pointer shape
/// `cursor`, while the next `WM_CHAR` is a duplicate if `swallow` holds.
pub open spec fn response(
    cursor: Option<MouseCursor>,
    swallow: bool,
    m: Message,
    keys: KeyStates,
    mapped: u32,
) -> (Seq<Action>, Outcome) {
    if m.msg == WM_PAINT {
        (
            seq![Action::ValidateRect, Action::Dispatch(WindowEvent::NeedRepaint)],
            Outcome::Return(0),
        )
    } else if m.msg == WM_SIZE {
        let dimensions = reported_dimensions(m.lparam);
        (
            seq![
                Action::StoreDimensions(dimensions),
                Action::Dispatch(
                    WindowEvent::Resized {
                        dimensions,
                        window_state: crate::input::plain_state(),
                        live_resizing: m.wparam == SIZE_RESTORED,
                        screen_changed: false,
                    },
                ),
            ],
            Outcome::Return(0),
        )
    } else if m.msg == WM_SETCURSOR {
        if crate::words::low_word(m.lparam as int) == HTCLIENT {
            (seq![Action::ApplyCursor(crate::window::system_cursor(cursor))], Outcome::Return(1))
        } else {
            (seq![], Outcome::Default)
        }
    } else if m.msg == WM_SETFOCUS {
        (seq![Action::Dispatch(WindowEvent::FocusChanged(true))], Outcome::Return(0))
    } else if m.msg == WM_KILLFOCUS {
        (seq![Action::Dispatch(WindowEvent::FocusChanged(false))], Outcome::Return(0))
    } else if m.msg == WM_CHAR {
        char_response(swallow, m.wparam)
    } else if m.msg == WM_KEYDOWN {
        key_response(m, keys, mapped)
    } else if mouse_kind(m) is Some {
        (
            seq![
                Action::Dispatch(
                    WindowEvent::MouseEvent(
                        mouse_event(mouse_kind(m)->0, m.wparam, m.lparam, keys),
                    ),
                ),
            ],
            Outcome::Return(0),
        )
    } else if m.msg == WM_CLOSE {
        (seq![Action::Dispatch(WindowEvent::CloseRequested)], Outcome::Return(0))
    } else if m.msg == WM_DESTROY {
        (
            seq![Action::Dispatch(WindowEvent::Destroyed), Action::Forget],
            Outcome::Return(0),
        )
    } else {
        (seq![], Outcome::Default)
    }
}

impl<E> GuiState<E> {
    /// The window that a message is routed to: none for the id zero, which
    /// stands for a native window that is not registered yet.
    pub open spec fn routed(self, id: usize) -> Option<WindowInner<E>> {
        if id == 0 {
            None
        } else {
            self.window(id)
        }
    }

    /// The state right after a message is read: a `WM_CHAR` uses up the note
    /// that it is a duplicate.
    pub open spec fn after_read(self, id: usize, m: Message) -> GuiState<E> {
        if self.routed(id) is Some && m.msg == WM_CHAR {
            GuiState { swallow_next_char: false, ..self }
        } else {
            self
        }
    }

    /// The answer to a message.
    pub open spec fn answer(self, id: usize, m: Message, keys: KeyStates, mapped: u32) -> (
        Seq<Action>,
        Outcome,
    ) {
        match self.routed(id) {
            Some(inner) => response(inner.cursor, self.swallow_next_char, m, keys, mapped),
            None => (seq![], Outcome::Default),
        }
    }

    /// The state after an action of an answer for window `id`.
    pub open spec fn after_action(self, id: usize, action: Action) -> GuiState<E> {
        match action {
            Action::StoreDimensions(dimensions) => match self.window(id) {
                Some(inner) => self.with_window(id, WindowInner { dimensions, ..inner }),
                None => self,
            },
            Action::SwallowNextChar => GuiState { swallow_next_char: true, ..self },
            Action::Forget => self.without_window(id),
            _ => self,
        }
    }

    /// The state after the actions of an answer for window `id`.
    pub open spec fn after_actions(self, id: usize, actions: Seq<Action>) -> GuiState<E>
        decreases actions.len(),
    {
        if actions.len() == 0 {
            self
        } else {
            self.after_action(id, actions[0]).after_actions(id, actions.drop_first())
        }
    }

    /// The state after a message has been answered in full, when no other
    /// message comes between its actions.
    pub open spec fn after_message(self, id: usize, m: Message, keys: KeyStates, mapped: u32) -> GuiState<
        E,
    > {
        self.after_read(id, m).after_actions(id, self.answer(id, m, keys, mapped).0)
    }
}

/// The mouse event of a message.
///
/// The coordinates of a `WM_MOUSEWHEEL` are relative to the screen, those of
/// every other mouse message to the client area; both are reported as they are.
pub fn make_mouse(kind: MouseEventKind, wparam: usize, lparam: isize, keys: &KeyStates) -> (event:
    MouseEvent)
    ensures
        event == mouse_event(kind, wparam, lparam, *keys),
{
    let x: isize = as_signed(lparam_low(lparam)) as isize;
    let y: isize = as_signed(lparam_high(lparam)) as isize;
    MouseEvent {
        kind,
        coords: euclid::Point2D::new(x, y),
        screen_coords: euclid::Point2D::new(x, y),
        mouse_buttons: mouse_buttons_from_wparam(wparam),
        modifiers: current_modifiers(keys),
        platform_click_count: 0,
    }
}

/// What happened to the mouse, for a mouse message.
pub fn mouse_event_kind(m: &Message) -> (kind: Option<MouseEventKind>)
    ensures
        kind == mouse_kind(*m),
{
    let kind = if m.msg == WM_MOUSEMOVE {
        MouseEventKind::Move
    } else if m.msg == WM_LBUTTONDOWN {
        MouseEventKind::Press(MousePress::Left)
    } else if m.msg == WM_LBUTTONUP {
        MouseEventKind::Release(MousePress::Left)
    } else if m.msg == WM_RBUTTONDOWN {
        MouseEventKind::Press(MousePress::Right)
    } else if m.msg == WM_RBUTTONUP {
        MouseEventKind::Release(MousePress::Right)
    } else if m.msg == WM_MBUTTONDOWN {
        MouseEventKind::Press(MousePress::Middle)
    } else if m.msg == WM_MBUTTONUP {
        MouseEventKind::Release(MousePress::Middle)
    } else if m.msg == WM_MOUSEWHEEL {
        let delta: i32 = as_signed(wparam_high(m.wparam)) as i32;
        let notches: i32 = if delta >= 0 {
            delta / 120
        } else {
            -((-delta) / 120)
        };
        MouseEventKind::VertWheel(notches as i16)
    } else {
        return None;
    };
    Some(kind)
}

/// The report of a key press.
fn key_event(
    key: KeyCode,
    modifiers: Modifiers,
    repeat_count: u16,
    win32_uni_char: Option<char>,
) -> (event: WindowEvent)
    ensures
        event == key_press(key, modifiers, repeat_count, win32_uni_char),
{
    WindowEvent::KeyEvent(
        KeyEvent {
            key,
            modifiers,
            leds: KeyboardLedStatus { caps_lock: false, num_lock: false },
            repeat_count,
            key_is_down: true,
            raw: None,
            win32_uni_char,
        },
    )
}

/// The answer of these actions and this number.
fn answered(actions: Vec<Action>, value: isize) -> (reply: Reply)
    ensures
        reply.actions == actions,
        reply.outcome == Outcome::Return(value),
{
    Reply { actions, outcome: Outcome::Return(value) }
}

/// The answer that leaves a message to the system.
fn defaulted() -> (reply: Reply)
    ensures
        reply.actions@ == Seq::<Action>::empty(),
        reply.outcome == Outcome::Default,
{
    Reply { actions: Vec::new(), outcome: Outcome::Default }
}

/// The answer to a `WM_CHAR`.
fn char_reply(swallow: bool, wparam: usize) -> (reply: Reply)
    ensures
        (reply.actions@, reply.outcome) == char_response(swallow, wparam),
{
    if swallow {
        return answered(Vec::new(), 0);
    }
    let n: u32 = wparam_u32(wparam);
    if let Some(c) = char::from_u32(n) {
        proof {
            vstd::utf8::char_u32_cast(c, n);
        }
        if n != 0 {
            return answered(
                vec![Action::Dispatch(key_event(KeyCode::Char(c), Modifiers::none(), 1, Some(c)))],
                0,
            );
        }
    }
    answered(Vec::new(), 0)
}

/// The answer to a `WM_KEYDOWN`.
fn key_reply(m: &Message, keys: &KeyStates, mapped: u32) -> (reply: Reply)
    ensures
        (reply.actions@, reply.outcome) == key_response(*m, *keys, mapped),
{
    let vk: i32 = wparam_i32(m.wparam);
    let mods = current_modifiers(keys);
    let repeat: u16 = lparam_low(m.lparam);
    if let Some(key) = vkey_to_keycode(vk) {
        return answered(vec![Action::Dispatch(key_event(key, mods, repeat, None))], 0);
    }
    if mods.ctrl || mods.alt {
        if let Some(c) = vkey_to_char(vk, mapped) {
            return answered(
                vec![
                    Action::Dispatch(key_event(KeyCode::Char(c), mods, repeat, None)),
                    Action::SwallowNextChar,
                ],
                0,
            );
        }
    }
    defaulted()
}

impl<E> GuiThread<E> {
    /// Whether the answer to a message reads the state of the modifier keys.
    pub fn reads_keyboard(m: &Message) -> (reads: bool)
        ensures
            reads == (m.msg == WM_KEYDOWN || mouse_kind(*m) is Some),
            reads <==> (m.msg == 0x0100 || 0x0200 <= m.msg <= 0x0202 || 0x0204 <= m.msg <= 0x0205
                || 0x0207 <= m.msg <= 0x0208 || m.msg == 0x020a),
    {
        m.msg == WM_KEYDOWN || mouse_event_kind(m).is_some()
    }

    /// The virtual key to ask the keyboard layout about before a message is
    /// answered, if the answer depends on the layout.
    pub fn layout_query(&self, window_id: usize, m: &Message, keys: &KeyStates) -> (asked: Option<
        u32,
    >)
        ensures
            asked is Some <==> {
                let vk = crate::words::signed32(m.wparam as int);
                let mods = crate::keycodes::held_modifiers(*keys);
                &&& self@.routed(window_id) is Some
                &&& m.msg == WM_KEYDOWN
                &&& crate::keycodes::keycode_of(vk) is None
                &&& mods.ctrl || mods.alt
                &&& !crate::keycodes::is_alphanumeric_key(vk)
            },
            asked matches Some(key) ==> key == m.wparam as int % 0x1_0000_0000,
    {
        if window_id == 0 || self.window(window_id).is_none() || m.msg != WM_KEYDOWN {
            return None;
        }
        let vk: i32 = wparam_i32(m.wparam);
        let mods = current_modifiers(keys);
        if vkey_to_keycode(vk).is_some() || !(mods.ctrl || mods.alt) {
            return None;
        }
        layout_key(vk)
    }

    /// Answers a native message for the window with this id, as its native
    /// window holds it. `keys` is the state of the modifier keys, where
    /// `reads_keyboard` says that it is read, and `mapped` the layout's answer
    /// to `layout_query`.
    pub fn wnd_proc(&mut self, window_id: usize, m: &Message, keys: &KeyStates, mapped: u32) -> (reply:
        Reply)
        ensures
            (reply.actions@, reply.outcome) == old(self)@.answer(window_id, *m, *keys, mapped),
            final(self)@ == old(self)@.after_read(window_id, *m),
    {
        if window_id == 0 {
            return defaulted();
        }
        let cursor = match self.window(window_id) {
            Some(inner) => inner.cursor,
            None => {
                return defaulted();
            },
        };
        if m.msg == WM_PAINT {
            answered(
                vec![Action::ValidateRect, Action::Dispatch(WindowEvent::NeedRepaint)],
                0,
            )
        } else if m.msg == WM_SIZE {
            let dimensions = Dimensions {
                pixel_width: lparam_low(m.lparam) as usize,
                pixel_height: lparam_high(m.lparam) as usize,
                dpi: DEFAULT_DPI as usize,
            };
            answered(
                vec![
                    Action::StoreDimensions(dimensions),
                    Action::Dispatch(
                        WindowEvent::Resized {
                            dimensions,
                            window_state: WindowState {
                                full_screen: false,
                                maximized: false,
                                hidden: false,
                            },
                            live_resizing: m.wparam == SIZE_RESTORED,
                            screen_changed: false,
                        },
                    ),
                ],
                0,
            )
        } else if m.msg == WM_SETCURSOR {
            if lparam_low(m.lparam) == HTCLIENT {
                answered(vec![Action::ApplyCursor(cursor_to_hcursor(cursor))], 1)
            } else {
                defaulted()
            }
        } else if m.msg == WM_SETFOCUS {
            answered(vec![Action::Dispatch(WindowEvent::FocusChanged(true))], 0)
        } else if m.msg == WM_KILLFOCUS {
            answered(vec![Action::Dispatch(WindowEvent::FocusChanged(false))], 0)
        } else if m.msg == WM_CHAR {
            char_reply(self.replace_swallow(false), m.wparam)
        } else if m.msg == WM_KEYDOWN {
            key_reply(m, keys, mapped)
        } else if let Some(kind) = mouse_event_kind(m) {
            answered(
                vec![
                    Action::Dispatch(
                        WindowEvent::MouseEvent(make_mouse(kind, m.wparam, m.lparam, keys)),
                    ),
                ],
                0,
            )
        } else if m.msg == WM_CLOSE {
            answered(vec![Action::Dispatch(WindowEvent::CloseRequested)], 0)
        } else if m.msg == WM_DESTROY {
            answered(vec![Action::Dispatch(WindowEvent::Destroyed), Action::Forget], 0)
        } else {
            defaulted()
        }
    }

    /// Keeps the state up to date with an action that is being carried out for
    /// a window. The actions that only the system sees leave the state alone.
    pub fn perform(&mut self, window_id: usize, action: &Action)
        ensures
            final(self)@ == old(self)@.after_action(window_id, *action),
    {
        match action {
            Action::StoreDimensions(dimensions) => {
                let dimensions = *dimensions;
                let f = |inner: WindowInner<E>| -> (r: (WindowInner<E>, Result<(), ()>))
                    ensures
                        r == (WindowInner { dimensions, ..inner }, Ok::<(), ()>(())),
                    {
                        let mut inner = inner;
                        inner.dimensions = dimensions;
                        (inner, Ok(()))
                    };
                let _ = self.with_window_inner(window_id, f);
            },
            Action::SwallowNextChar => {
                let _ = self.replace_swallow(true);
            },
            Action::Forget => {
                if let Some(mut conn) = self.disconnect() {
                    let _ = conn.remove(window_id);
                    self.connect(conn);
                }
            },
            _ => {},
        }
    }
}

} // verus!
