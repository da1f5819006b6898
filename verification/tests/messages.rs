use kaku_win32::connection::Connection;
use kaku_win32::gui::GuiThread;
use kaku_win32::input::{
    Dimensions, KeyCode, KeyEvent, KeyboardLedStatus, Modifiers, MouseButtons, MouseCursor,
    MouseEvent, MouseEventKind, MousePress, Point, ScreenPoint, WindowEvent, WindowState,
};
use kaku_win32::keycodes::KeyStates;
use kaku_win32::win32;
use kaku_win32::window::{ResolvedGeometry, Window};
use kaku_win32::wnd_proc::{Action, Message, Outcome, Reply};

const NO_KEYS: KeyStates =
    KeyStates { shift: 0, control: 0, menu: 0, left_win: 0, right_win: 0 };
const CTRL: KeyStates =
    KeyStates { shift: 0, control: -1, menu: 0, left_win: 0, right_win: 0 };
const SHIFT: KeyStates =
    KeyStates { shift: -1, control: 0, menu: 0, left_win: 0, right_win: 0 };

fn gui_with_window() -> GuiThread<()> {
    let mut gui = GuiThread::new();
    gui.connect(Connection::create_new());
    let geometry = ResolvedGeometry { width: 100, height: 50, x: None, y: None };
    Window::new_window(&mut gui, 0x100, &geometry, 192, ()).unwrap();
    gui
}

fn message(msg: u32, wparam: usize, lparam: isize) -> Message {
    Message { msg, wparam, lparam }
}

/// Answers a message and performs its actions.
fn send(gui: &mut GuiThread<()>, id: usize, m: Message, keys: &KeyStates, mapped: u32) -> Reply {
    let reply = gui.wnd_proc(id, &m, keys, mapped);
    for action in &reply.actions {
        gui.perform(id, action);
    }
    reply
}

fn key(key: KeyCode, modifiers: Modifiers, repeat_count: u16, uni: Option<char>) -> Action {
    Action::Dispatch(WindowEvent::KeyEvent(KeyEvent {
        key,
        modifiers,
        leds: KeyboardLedStatus { caps_lock: false, num_lock: false },
        repeat_count,
        key_is_down: true,
        raw: None,
        win32_uni_char: uni,
    }))
}

fn handled(actions: Vec<Action>) -> Reply {
    Reply { actions, outcome: Outcome::Return(0) }
}

fn defaulted() -> Reply {
    Reply { actions: vec![], outcome: Outcome::Default }
}

fn ctrl() -> Modifiers {
    Modifiers { ctrl: true, ..Modifiers::none() }
}

#[test]
fn unregistered_windows_are_left_to_the_system() {
    let m = message(win32::WM_PAINT, 0, 0);
    let mut gui = gui_with_window();
    assert_eq!(send(&mut gui, 0, m, &NO_KEYS, 0), defaulted());
    assert_eq!(send(&mut gui, 2, m, &NO_KEYS, 0), defaulted());
    let mut unconnected: GuiThread<()> = GuiThread::new();
    assert_eq!(send(&mut unconnected, 1, m, &NO_KEYS, 0), defaulted());
    assert_eq!(send(&mut gui, 1, message(0x9999, 1, 1), &NO_KEYS, 0), defaulted());
}

#[test]
fn paint_is_validated_then_reported() {
    let reply = send(&mut gui_with_window(), 1, message(win32::WM_PAINT, 0, 0), &NO_KEYS, 0);
    assert_eq!(
        reply,
        handled(vec![Action::ValidateRect, Action::Dispatch(WindowEvent::NeedRepaint)])
    );
}

#[test]
fn size_is_stored_then_reported() {
    let mut gui = gui_with_window();
    let reply = send(&mut gui, 1, message(win32::WM_SIZE, 0, 0x0258_0320), &NO_KEYS, 0);
    let dimensions = Dimensions { pixel_width: 800, pixel_height: 600, dpi: 96 };
    let resized = |live_resizing| {
        Action::Dispatch(WindowEvent::Resized {
            dimensions,
            window_state: WindowState { full_screen: false, maximized: false, hidden: false },
            live_resizing,
            screen_changed: false,
        })
    };
    assert_eq!(reply, handled(vec![Action::StoreDimensions(dimensions), resized(true)]));
    assert_eq!(gui.window(1).unwrap().dimensions, dimensions);
    let reply = send(&mut gui, 1, message(win32::WM_SIZE, 2, 0x0258_0320), &NO_KEYS, 0);
    assert_eq!(reply.actions[1], resized(false));
}

#[test]
fn size_words_are_unsigned() {
    let mut gui = gui_with_window();
    send(&mut gui, 1, message(win32::WM_SIZE, 0, -1), &NO_KEYS, 0);
    let dimensions = Dimensions { pixel_width: 65535, pixel_height: 65535, dpi: 96 };
    assert_eq!(gui.window(1).unwrap().dimensions, dimensions);
}

#[test]
fn cursor_is_shown_over_the_client_area() {
    let mut gui = gui_with_window();
    let over_client = message(win32::WM_SETCURSOR, 0, 0x0200_0001);
    let arrow = Reply { actions: vec![Action::ApplyCursor(32512)], outcome: Outcome::Return(1) };
    assert_eq!(send(&mut gui, 1, over_client, &NO_KEYS, 0), arrow);
    Window::for_test(1).set_cursor(&mut gui, Some(MouseCursor::Text)).unwrap();
    send(&mut gui, 1, message(win32::WM_SIZE, 0, 0), &NO_KEYS, 0);
    let text = Reply { actions: vec![Action::ApplyCursor(32513)], outcome: Outcome::Return(1) };
    assert_eq!(send(&mut gui, 1, over_client, &NO_KEYS, 0), text);
    let over_caption = message(win32::WM_SETCURSOR, 0, 0x0200_0002);
    assert_eq!(send(&mut gui, 1, over_caption, &NO_KEYS, 0), defaulted());
}

#[test]
fn focus_is_reported() {
    let mut gui = gui_with_window();
    assert_eq!(
        send(&mut gui, 1, message(win32::WM_SETFOCUS, 0, 0), &NO_KEYS, 0),
        handled(vec![Action::Dispatch(WindowEvent::FocusChanged(true))])
    );
    assert_eq!(
        send(&mut gui, 1, message(win32::WM_KILLFOCUS, 0, 0), &NO_KEYS, 0),
        handled(vec![Action::Dispatch(WindowEvent::FocusChanged(false))])
    );
}

#[test]
fn characters_are_reported_without_modifiers() {
    let mut gui = gui_with_window();
    let reply = send(&mut gui, 1, message(win32::WM_CHAR, 0xe9, 5), &SHIFT, 0);
    let expected = key(KeyCode::Char('\u{e9}'), Modifiers::none(), 1, Some('\u{e9}'));
    assert_eq!(reply, handled(vec![expected]));
    for nothing in [0, 0xd800, 0xdfff, 0x11_0000] {
        let reply = send(&mut gui, 1, message(win32::WM_CHAR, nothing, 1), &NO_KEYS, 0);
        assert_eq!(reply, handled(vec![]));
    }
}

#[test]
fn navigation_keys_are_reported_with_modifiers() {
    let mut gui = gui_with_window();
    let reply = send(&mut gui, 1, message(win32::WM_KEYDOWN, 0x25, 0x0001_0003), &CTRL, 0);
    assert_eq!(reply, handled(vec![key(KeyCode::LeftArrow, ctrl(), 3, None)]));
    assert!(!gui.swallows_next_char());
    let reply = send(&mut gui, 1, message(win32::WM_KEYDOWN, 0x7b, 1), &NO_KEYS, 0);
    assert_eq!(reply, handled(vec![key(KeyCode::Function(12), Modifiers::none(), 1, None)]));
}

#[test]
fn plain_text_keys_wait_for_their_character() {
    let mut gui = gui_with_window();
    let down = message(win32::WM_KEYDOWN, 0x43, 1);
    assert_eq!(send(&mut gui, 1, down, &NO_KEYS, 0x43), defaulted());
    assert_eq!(send(&mut gui, 1, down, &SHIFT, 0x43), defaulted());
    let reply = send(&mut gui, 1, message(win32::WM_CHAR, 'C' as usize, 1), &SHIFT, 0);
    assert_eq!(
        reply,
        handled(vec![key(KeyCode::Char('C'), Modifiers::none(), 1, Some('C'))])
    );
}

#[test]
fn combinations_are_reported_once() {
    let mut gui = gui_with_window();
    let reply = send(&mut gui, 1, message(win32::WM_KEYDOWN, 0x43, 1), &CTRL, 0);
    assert_eq!(
        reply,
        handled(vec![key(KeyCode::Char('c'), ctrl(), 1, None), Action::SwallowNextChar])
    );
    assert!(gui.swallows_next_char());
    // The posted control character is dropped, the one after it is not.
    assert_eq!(send(&mut gui, 1, message(win32::WM_CHAR, 3, 1), &CTRL, 0), handled(vec![]));
    assert!(!gui.swallows_next_char());
    let reply = send(&mut gui, 1, message(win32::WM_CHAR, 'x' as usize, 1), &NO_KEYS, 0);
    assert_eq!(
        reply,
        handled(vec![key(KeyCode::Char('x'), Modifiers::none(), 1, Some('x'))])
    );
}

#[test]
fn duplicate_note_outlives_other_messages() {
    let mut gui = gui_with_window();
    send(&mut gui, 1, message(win32::WM_KEYDOWN, 0x43, 1), &CTRL, 0);
    send(&mut gui, 1, message(win32::WM_PAINT, 0, 0), &NO_KEYS, 0);
    // A message for no registered window uses nothing up.
    send(&mut gui, 9, message(win32::WM_CHAR, 3, 1), &NO_KEYS, 0);
    assert!(gui.swallows_next_char());
}

#[test]
fn alt_combinations_ask_the_layout() {
    let mut gui = gui_with_window();
    let alt = KeyStates { menu: -1, ..NO_KEYS };
    let comma = message(win32::WM_KEYDOWN, 0xbc, 1);
    assert_eq!(gui.layout_query(1, &comma, &alt), Some(0xbc));
    assert_eq!(gui.layout_query(1, &comma, &NO_KEYS), None);
    assert_eq!(gui.layout_query(9, &comma, &alt), None);
    assert_eq!(gui.layout_query(0, &comma, &alt), None);
    assert_eq!(gui.layout_query(1, &message(win32::WM_KEYDOWN, 0x43, 1), &alt), None);
    assert_eq!(gui.layout_query(1, &message(win32::WM_KEYDOWN, 0x25, 1), &alt), None);
    assert_eq!(gui.layout_query(1, &message(win32::WM_CHAR, 0xbc, 1), &alt), None);
    let reply = send(&mut gui, 1, comma, &alt, ',' as u32);
    let mods = Modifiers { alt: true, ..Modifiers::none() };
    assert_eq!(
        reply,
        handled(vec![key(KeyCode::Char(','), mods, 1, None), Action::SwallowNextChar])
    );
    // A key without a character goes to the system.
    gui.replace_swallow(false);
    let shift = message(win32::WM_KEYDOWN, 0x10, 1);
    assert_eq!(send(&mut gui, 1, shift, &alt, 0), defaulted());
    assert!(!gui.swallows_next_char());
}

#[test]
fn keyboard_is_read_for_keys_and_mouse() {
    let reads = |msg| GuiThread::<()>::reads_keyboard(&message(msg, 0, 0));
    assert!(reads(win32::WM_KEYDOWN));
    assert!(reads(win32::WM_MOUSEMOVE));
    assert!(reads(win32::WM_MOUSEWHEEL));
    assert!(!reads(win32::WM_CHAR));
    assert!(!reads(win32::WM_PAINT));
}

#[test]
fn mouse_buttons_are_pressed_and_released() {
    let mut gui = gui_with_window();
    let kinds = [
        (win32::WM_MOUSEMOVE, MouseEventKind::Move),
        (win32::WM_LBUTTONDOWN, MouseEventKind::Press(MousePress::Left)),
        (win32::WM_LBUTTONUP, MouseEventKind::Release(MousePress::Left)),
        (win32::WM_RBUTTONDOWN, MouseEventKind::Press(MousePress::Right)),
        (win32::WM_RBUTTONUP, MouseEventKind::Release(MousePress::Right)),
        (win32::WM_MBUTTONDOWN, MouseEventKind::Press(MousePress::Middle)),
        (win32::WM_MBUTTONUP, MouseEventKind::Release(MousePress::Middle)),
    ];
    for (msg, kind) in kinds {
        let reply = send(&mut gui, 1, message(msg, 0x11, 0x0014_000a), &CTRL, 0);
        let event = MouseEvent {
            kind,
            coords: Point::new(10, 20),
            screen_coords: ScreenPoint::new(10, 20),
            mouse_buttons: MouseButtons { left: true, right: false, middle: true },
            modifiers: ctrl(),
            platform_click_count: 0,
        };
        assert_eq!(reply, handled(vec![Action::Dispatch(WindowEvent::MouseEvent(event))]));
    }
}

fn mouse(gui: &mut GuiThread<()>, m: Message) -> MouseEvent {
    match send(gui, 1, m, &NO_KEYS, 0).actions[0] {
        Action::Dispatch(WindowEvent::MouseEvent(event)) => event,
        _ => panic!("no mouse event"),
    }
}

#[test]
fn mouse_coordinates_may_be_negative() {
    let mut gui = gui_with_window();
    for x in [i16::MIN, -300, -1, 0, 1, 299, i16::MAX] {
        for y in [i16::MIN, -7, 0, 8, i16::MAX] {
            let lparam = ((y as u16 as u32) << 16 | x as u16 as u32) as isize;
            let event = mouse(&mut gui, message(win32::WM_MOUSEMOVE, 0, lparam));
            assert_eq!(event.coords, Point::new(x as isize, y as isize));
            assert_eq!(event.screen_coords, ScreenPoint::new(x as isize, y as isize));
        }
    }
}

#[test]
fn wheel_counts_whole_notches() {
    let mut gui = gui_with_window();
    let cases = [
        (120, 1),
        (-120, -1),
        (360, 3),
        (119, 0),
        (-119, 0),
        (-121, -1),
        (239, 1),
        (i16::MAX, 273),
        (i16::MIN, -273),
    ];
    for (delta, notches) in cases {
        let wparam = (delta as u16 as usize) << 16 | 0x10;
        let event = mouse(&mut gui, message(win32::WM_MOUSEWHEEL, wparam, 0));
        assert_eq!(event.kind, MouseEventKind::VertWheel(notches));
        assert!(event.mouse_buttons.middle);
    }
}

#[test]
fn close_is_a_request() {
    let mut gui = gui_with_window();
    let reply = send(&mut gui, 1, message(win32::WM_CLOSE, 0, 0), &NO_KEYS, 0);
    assert_eq!(reply, handled(vec![Action::Dispatch(WindowEvent::CloseRequested)]));
    assert!(gui.window(1).is_some());
}

#[test]
fn destroyed_windows_are_forgotten_after_the_report() {
    let mut gui = gui_with_window();
    let geometry = ResolvedGeometry { width: 1, height: 1, x: None, y: None };
    Window::new_window(&mut gui, 0x200, &geometry, 96, ()).unwrap();
    let reply = send(&mut gui, 1, message(win32::WM_DESTROY, 0, 0), &NO_KEYS, 0);
    assert_eq!(
        reply,
        handled(vec![Action::Dispatch(WindowEvent::Destroyed), Action::Forget])
    );
    assert!(gui.window(1).is_none());
    assert_eq!(Window::for_test(2).hwnd(&gui), Some(0x200));
    assert_eq!(send(&mut gui, 1, message(win32::WM_PAINT, 0, 0), &NO_KEYS, 0), defaulted());
    // Ids are not used again.
    let window = Window::new_window(&mut gui, 0x300, &geometry, 96, ()).unwrap();
    assert_eq!(window.id(), 3);
}

/// Messages of every kind that leave a window registered.
const HARMLESS: [u32; 8] = [
    win32::WM_PAINT,
    win32::WM_SIZE,
    win32::WM_SETFOCUS,
    win32::WM_KILLFOCUS,
    win32::WM_CHAR,
    win32::WM_KEYDOWN,
    win32::WM_MOUSEMOVE,
    win32::WM_CLOSE,
];

#[test]
fn cursor_outlives_many_messages_and_other_windows() {
    let mut gui = gui_with_window();
    let geometry = ResolvedGeometry { width: 1, height: 1, x: None, y: None };
    Window::for_test(1).set_cursor(&mut gui, Some(MouseCursor::Hand)).unwrap();
    let second = Window::new_window(&mut gui, 0x200, &geometry, 96, ()).unwrap();
    second.set_cursor(&mut gui, Some(MouseCursor::Text)).unwrap();
    for msg in HARMLESS {
        send(&mut gui, 1, message(msg, 0x41, 0x0003_0004), &CTRL, 0);
        send(&mut gui, 2, message(msg, 0x41, 0x0003_0004), &NO_KEYS, 0);
    }
    send(&mut gui, 2, message(win32::WM_DESTROY, 0, 0), &NO_KEYS, 0);
    let over_client = message(win32::WM_SETCURSOR, 0, 0x0200_0001);
    let hand = Reply { actions: vec![Action::ApplyCursor(32649)], outcome: Outcome::Return(1) };
    assert_eq!(send(&mut gui, 1, over_client, &NO_KEYS, 0), hand);
}

#[test]
fn destroyed_windows_stay_silent() {
    let mut gui = gui_with_window();
    send(&mut gui, 1, message(win32::WM_DESTROY, 0, 0), &NO_KEYS, 0);
    let geometry = ResolvedGeometry { width: 1, height: 1, x: None, y: None };
    for hwnd in 1..5 {
        Window::new_window(&mut gui, hwnd, &geometry, 96, ()).unwrap();
        for msg in HARMLESS {
            send(&mut gui, 2, message(msg, 0x41, 1), &CTRL, 0);
            assert_eq!(send(&mut gui, 1, message(msg, 0x41, 1), &CTRL, 0), defaulted());
        }
    }
    assert_eq!(send(&mut gui, 1, message(win32::WM_DESTROY, 0, 0), &NO_KEYS, 0), defaulted());
    assert!(Window::for_test(1).set_cursor(&mut gui, None).is_err());
}

#[test]
fn characters_are_the_low_32_bits() {
    let mut gui = gui_with_window();
    let high = (1_usize << (usize::BITS - 1)) & !0xffff_ffff_usize;
    let reply = send(&mut gui, 1, message(win32::WM_CHAR, high | 0x1_f600, 1), &NO_KEYS, 0);
    let expected = key(KeyCode::Char('\u{1f600}'), Modifiers::none(), 1, Some('\u{1f600}'));
    assert_eq!(reply, handled(vec![expected]));
    let reply = send(&mut gui, 1, message(win32::WM_CHAR, high, 1), &NO_KEYS, 0);
    assert_eq!(reply, handled(vec![]));
}

#[test]
fn layout_letters_reach_key_bindings_in_lower_case() {
    let mut gui = gui_with_window();
    let reply = send(&mut gui, 1, message(win32::WM_KEYDOWN, 0xc0, 1), &CTRL, 0xd6);
    assert_eq!(
        reply,
        handled(vec![key(KeyCode::Char('\u{f6}'), ctrl(), 1, None), Action::SwallowNextChar])
    );
}

#[test]
fn duplicates_are_dropped_after_any_number_of_messages() {
    let mut gui = gui_with_window();
    let geometry = ResolvedGeometry { width: 1, height: 1, x: None, y: None };
    send(&mut gui, 1, message(win32::WM_KEYDOWN, 0x56, 1), &CTRL, 0);
    // No message but a `WM_CHAR` for a registered window uses up the note.
    let second = Window::new_window(&mut gui, 0x200, &geometry, 96, ()).unwrap();
    for msg in HARMLESS {
        if msg != win32::WM_CHAR {
            send(&mut gui, 1, message(msg, 0x41, 1), &NO_KEYS, 0);
            send(&mut gui, 2, message(msg, 0x41, 1), &NO_KEYS, 0);
        }
    }
    send(&mut gui, 9, message(win32::WM_CHAR, 0x41, 1), &NO_KEYS, 0);
    second.set_cursor(&mut gui, Some(MouseCursor::Hand)).unwrap();
    send(&mut gui, 1, message(win32::WM_KEYDOWN, 0x57, 1), &CTRL, 0);
    assert_eq!(send(&mut gui, 2, message(win32::WM_CHAR, 0x16, 1), &NO_KEYS, 0), handled(vec![]));
    // From then on every character is reported.
    for msg in [win32::WM_PAINT, win32::WM_SETFOCUS, win32::WM_MOUSEMOVE] {
        send(&mut gui, 1, message(msg, 0, 0), &CTRL, 0);
        let reply = send(&mut gui, 1, message(win32::WM_CHAR, 0x61, 1), &NO_KEYS, 0);
        let expected = key(KeyCode::Char('a'), Modifiers::none(), 1, Some('a'));
        assert_eq!(reply, handled(vec![expected]));
    }
}

#[test]
fn messages_between_the_actions_of_another_do_no_harm() {
    let mut gui = gui_with_window();
    let geometry = ResolvedGeometry { width: 1, height: 1, x: None, y: None };
    Window::for_test(1).set_cursor(&mut gui, Some(MouseCursor::Text)).unwrap();
    // While the event of a size is delivered, the window is destroyed.
    let size = gui.wnd_proc(1, &message(win32::WM_SIZE, 0, 0x0002_0003), &NO_KEYS, 0);
    let destroy = gui.wnd_proc(1, &message(win32::WM_DESTROY, 0, 0), &NO_KEYS, 0);
    gui.perform(1, &destroy.actions[0]);
    let over_client = message(win32::WM_SETCURSOR, 0, 0x0200_0001);
    let text = Reply { actions: vec![Action::ApplyCursor(32513)], outcome: Outcome::Return(1) };
    assert_eq!(send(&mut gui, 1, over_client, &NO_KEYS, 0), text);
    gui.perform(1, &destroy.actions[1]);
    let second = Window::new_window(&mut gui, 0x200, &geometry, 96, ()).unwrap();
    for action in &size.actions {
        gui.perform(1, action);
    }
    assert_eq!(second.id(), 2);
    assert!(gui.window(1).is_none());
    assert_eq!(send(&mut gui, 1, over_client, &NO_KEYS, 0), defaulted());
    let third = Window::new_window(&mut gui, 0x300, &geometry, 96, ()).unwrap();
    assert_eq!(third.id(), 3);
    // A character that is read while a combination is delivered is reported; the
    // one after the delivery is the duplicate.
    let combination = gui.wnd_proc(2, &message(win32::WM_KEYDOWN, 0x56, 1), &CTRL, 0);
    gui.perform(2, &combination.actions[0]);
    let reply = send(&mut gui, 3, message(win32::WM_CHAR, 0x61, 1), &NO_KEYS, 0);
    assert_eq!(reply.actions.len(), 1);
    gui.perform(2, &combination.actions[1]);
    assert_eq!(send(&mut gui, 3, message(win32::WM_CHAR, 0x16, 1), &NO_KEYS, 0), handled(vec![]));
}
