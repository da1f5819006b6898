use kaku_win32::connection::{Connection, WindowInner};
use kaku_win32::gui::{GuiThread, WindowInnerError};
use kaku_win32::input::{Dimensions, MouseCursor};
use kaku_win32::window::{
    create_request, cursor_to_hcursor, id_from_user_data, register_class, resize_request,
    user_data_of_id, ClassRegistration, Delivery, HandleError, NewWindowError, ResolvedGeometry, Win32Handle, Window,
    WindowCommand, WindowRect,
};

fn geometry(width: usize, height: usize) -> ResolvedGeometry {
    ResolvedGeometry { width, height, x: None, y: None }
}

fn connected() -> GuiThread<&'static str> {
    let mut gui = GuiThread::new();
    gui.connect(Connection::create_new());
    gui
}

#[test]
fn ids_start_at_one_and_count_up() {
    let mut conn: Connection<()> = Connection::create_new();
    assert_eq!(conn.next_window_id(), 1);
    assert_eq!(conn.next_window_id(), 2);
    assert_eq!(conn.next_window_id(), 3);
    assert!(conn.window_by_id(1).is_none());
    assert_eq!(conn.first_window(), None);
}

#[test]
fn new_window_needs_a_connection() {
    let mut gui: GuiThread<&str> = GuiThread::new();
    assert_eq!(
        Window::new_client_area(&gui, &geometry(10, 20)),
        Err(NewWindowError::NoConnection)
    );
    let window = Window::new_window(&mut gui, 7, &geometry(10, 20), 96, "one");
    assert_eq!(window, Err(NewWindowError::NoConnection));
}

#[test]
fn new_window_reports_a_refusal() {
    let mut gui = connected();
    let window = Window::new_window(&mut gui, 0, &geometry(10, 20), 96, "one");
    assert_eq!(window, Err(NewWindowError::CreateFailed));
    assert!(gui.main_window().is_none());
    // No id was used up.
    let window = Window::new_window(&mut gui, 7, &geometry(10, 20), 96, "one").unwrap();
    assert_eq!(window.id(), 1);
}

#[test]
fn new_window_is_registered() {
    let mut gui = connected();
    let one = Window::new_window(&mut gui, 0x100, &geometry(640, 480), 192, "one").unwrap();
    let two = Window::new_window(&mut gui, 0x200, &geometry(10, 20), 96, "two").unwrap();
    assert_eq!((one.id(), two.id()), (1, 2));
    assert_eq!(one.hwnd(&gui), Some(0x100));
    assert_eq!(two.hwnd(&gui), Some(0x200));
    let inner = gui.window(1).unwrap();
    assert_eq!(inner.events, "one");
    assert_eq!(inner.cursor, None);
    assert_eq!(inner.window_id, 1);
    assert_eq!(inner.dimensions, Dimensions { pixel_width: 640, pixel_height: 480, dpi: 192 });
    assert_eq!(gui.main_window(), Some(0x100));
}

#[test]
fn main_window_is_the_first_one() {
    let mut gui = connected();
    assert_eq!(gui.main_window(), None);
    let mut windows = Vec::new();
    for i in 0..40 {
        windows.push(Window::new_window(&mut gui, 0x100 + i, &geometry(1, 1), 96, "w").unwrap());
        assert_eq!(gui.main_window(), Some(0x100));
    }
    // Windows leave from the front: the oldest that is left is the first.
    let mut conn = gui.disconnect().unwrap();
    for (i, window) in windows.iter().enumerate() {
        assert_eq!(conn.first_window(), Some(window.id()));
        assert_eq!(conn.window_by_id(window.id()).unwrap().hwnd, 0x100 + i as isize);
        assert!(conn.remove(window.id()).is_some());
    }
    assert_eq!(conn.first_window(), None);
    // One from the middle changes nothing.
    conn.insert(7, inner(7));
    conn.insert(9, inner(9));
    conn.insert(8, inner(8));
    conn.remove(8);
    assert_eq!(conn.first_window(), Some(7));
}

fn inner(id: usize) -> WindowInner<&'static str> {
    WindowInner {
        hwnd: id as isize,
        events: "inner",
        dimensions: Dimensions { pixel_width: 1, pixel_height: 1, dpi: 96 },
        cursor: None,
        window_id: id,
    }
}

#[test]
fn ids_are_not_used_again() {
    let mut gui = connected();
    let mut seen = Vec::new();
    for i in 1..20 {
        let window = Window::new_window(&mut gui, i, &geometry(1, 1), 96, "w").unwrap();
        assert!(!seen.contains(&window.id()));
        seen.push(window.id());
        if i % 3 == 0 {
            let mut conn = gui.disconnect().unwrap();
            conn.clear();
            gui.connect(conn);
        } else if i % 3 == 1 {
            let mut conn = gui.disconnect().unwrap();
            conn.remove(window.id());
            gui.connect(conn);
        }
    }
}

#[test]
fn new_window_errors_have_messages() {
    assert_eq!(
        NewWindowError::NoConnection.message("ignored"),
        "new_window called without a connection"
    );
    assert_eq!(
        NewWindowError::CreateFailed.message("Access is denied. (os error 5)"),
        "CreateWindowExW failed: Access is denied. (os error 5)"
    );
}

#[test]
fn class_is_registered_once() {
    let mut registration = ClassRegistration::new();
    assert_eq!(registration.class_to_register(), Some(register_class()));
    assert_eq!(registration.class_to_register(), None);
    assert_eq!(registration.class_to_register(), None);
}

#[test]
fn client_area_starts_at_the_origin() {
    let gui = connected();
    let rect = Window::new_client_area(&gui, &geometry(640, 480)).unwrap();
    assert_eq!(rect, WindowRect { left: 0, top: 0, right: 640, bottom: 480 });
    let rect = WindowRect::client_area(0x1_8000_0000_u64 as usize, usize::MAX);
    assert_eq!(rect.bottom, -1);
    assert_eq!(rect.right, 0x1_8000_0000_u64 as usize as i32);
}

#[test]
fn create_request_adds_the_frame() {
    let outer = WindowRect { left: -8, top: -31, right: 648, bottom: 488 };
    let request = create_request("tab \u{1f600}", &geometry(640, 480), outer);
    assert_eq!((request.width, request.height), (656, 519));
    assert_eq!((request.x, request.y), (i32::MIN, i32::MIN));
    assert_eq!(request.style, 0x00cf_0000);
    assert_eq!(request.title, vec![0x74, 0x61, 0x62, 0x20, 0xd83d, 0xde00, 0]);
    assert_eq!(request.class_name, register_class().class_name);

    let placed = ResolvedGeometry { width: 1, height: 1, x: Some(-5), y: Some(9) };
    let request = create_request("", &placed, outer);
    assert_eq!((request.x, request.y), (-5, 9));
    assert_eq!(request.title, vec![0]);
}

#[test]
fn resize_request_leaves_position_and_order() {
    let outer = WindowRect { left: -8, top: -31, right: 648, bottom: 488 };
    let request = resize_request(outer);
    assert_eq!((request.width, request.height, request.flags), (656, 519, 0x16));
}

#[test]
fn window_class_is_fixed() {
    let class = register_class();
    assert_eq!(class.style, 0x23);
    assert_eq!(class.cursor, 32512);
    let name: Vec<u16> = "KakuWindowClass\0".encode_utf16().collect();
    assert_eq!(class.class_name, name);
}

#[test]
fn cursors_are_system_cursors() {
    assert_eq!(cursor_to_hcursor(None), 32512);
    assert_eq!(cursor_to_hcursor(Some(MouseCursor::Arrow)), 32512);
    assert_eq!(cursor_to_hcursor(Some(MouseCursor::Text)), 32513);
    assert_eq!(cursor_to_hcursor(Some(MouseCursor::SizeLeftRight)), 32644);
    assert_eq!(cursor_to_hcursor(Some(MouseCursor::SizeUpDown)), 32645);
    assert_eq!(cursor_to_hcursor(Some(MouseCursor::Grabbing)), 32646);
    assert_eq!(cursor_to_hcursor(Some(MouseCursor::Hand)), 32649);
}

#[test]
fn user_data_holds_the_id() {
    for id in [0, 1, 2, 77, isize::MAX as usize, isize::MAX as usize + 1, usize::MAX] {
        assert_eq!(user_data_of_id(id), id as isize);
        assert_eq!(id_from_user_data(user_data_of_id(id)), id);
    }
}

#[test]
fn operations_become_commands() {
    let window = Window::for_test(3);
    assert_eq!(window.show(), WindowCommand::Show(5));
    assert_eq!(window.hide_window(), WindowCommand::Show(0));
    assert_eq!(window.close(), WindowCommand::Destroy);
    assert_eq!(window.focus(), WindowCommand::SetForeground);
    assert_eq!(window.invalidate(), WindowCommand::Invalidate);
    assert_eq!(window.set_title("ab"), WindowCommand::SetText(vec![0x61, 0x62, 0]));
    let rect = WindowRect { left: 0, top: 0, right: 30, bottom: 40 };
    assert_eq!(window.set_inner_size(30, 40), WindowCommand::ResizeClient(rect));
}

#[test]
fn commands_need_a_registered_window() {
    let mut gui = connected();
    let window = Window::new_window(&mut gui, 0x100, &geometry(1, 1), 96, "one").unwrap();
    let todo = window.run_on_main_with_hwnd(&gui, window.focus());
    assert_eq!(todo, Some((0x100, WindowCommand::SetForeground)));
    let gone = Window::for_test(9);
    assert_eq!(gone.run_on_main_with_hwnd(&gui, gone.close()), None);
    let unconnected: GuiThread<&str> = GuiThread::new();
    assert_eq!(window.run_on_main_with_hwnd(&unconnected, window.show()), None);
}

#[test]
fn notifications_go_to_the_receiver() {
    let mut gui = connected();
    let window = Window::new_window(&mut gui, 0x100, &geometry(1, 1), 96, "one").unwrap();
    assert_eq!(window.notify(&gui, 42), Some((&"one", Delivery::Notification(42))));
    assert_eq!(Window::for_test(9).notify(&gui, 42), None);
}

#[test]
fn set_cursor_is_remembered() {
    let mut gui = connected();
    let window = Window::new_window(&mut gui, 0x100, &geometry(1, 1), 96, "one").unwrap();
    assert_eq!(window.set_cursor(&mut gui, Some(MouseCursor::Hand)), Ok(32649));
    assert_eq!(gui.window(1).unwrap().cursor, Some(MouseCursor::Hand));
    assert_eq!(window.set_cursor(&mut gui, None), Ok(32512));
    assert_eq!(gui.window(1).unwrap().cursor, None);
    assert_eq!(gui.window(1).unwrap().events, "one");
}

#[test]
fn set_cursor_on_a_missing_window_is_an_error() {
    let mut gui = connected();
    let gone = Window::for_test(12);
    let error = gone.set_cursor(&mut gui, None).unwrap_err();
    assert_eq!(error, WindowInnerError::InvalidWindowId(12));
    assert_eq!(error.message(), Some("invalid window id 12".to_string()));

    let mut unconnected: GuiThread<&str> = GuiThread::new();
    let error = gone.set_cursor(&mut unconnected, None).unwrap_err();
    assert_eq!(error, WindowInnerError::NotInitialized);
    assert_eq!(error.message(), Some("window connection is not initialized".to_string()));
}

#[test]
fn operation_on_a_window_may_fail() {
    let mut gui = connected();
    Window::new_window(&mut gui, 0x100, &geometry(1, 1), 96, "one").unwrap();
    let result: Result<(), _> = gui.with_window_inner(1, |mut inner| {
        inner.dimensions.dpi = 7;
        (inner, Err("no"))
    });
    assert_eq!(result, Err(WindowInnerError::Failed("no")));
    assert_eq!(result.unwrap_err().message(), None);
    assert_eq!(gui.window(1).unwrap().dimensions.dpi, 7);
    let result: Result<isize, WindowInnerError<()>> =
        gui.with_window_inner(1, |inner| (inner, Ok(5)));
    assert_eq!(result, Ok(5));
}

#[test]
fn raw_handle_needs_a_native_handle() {
    let mut gui = connected();
    let window = Window::new_window(&mut gui, 0x100, &geometry(1, 1), 96, "one").unwrap();
    assert_eq!(
        window.raw_handle(&gui, 0x40),
        Ok(Win32Handle { hwnd: 0x100, hinstance: Some(0x40) })
    );
    assert_eq!(window.raw_handle(&gui, 0), Ok(Win32Handle { hwnd: 0x100, hinstance: None }));
    assert_eq!(Window::for_test(9).raw_handle(&gui, 0x40), Err(HandleError::Unavailable));
}

#[test]
fn window_handle_holds_the_numbers() {
    let mut gui = connected();
    let window = Window::new_window(&mut gui, -0x100, &geometry(1, 1), 96, "one").unwrap();
    let handle = window.window_handle(&gui, 0x40).unwrap();
    assert_eq!(handle.hwnd.get(), -0x100);
    assert_eq!(handle.hinstance.map(|h| h.get()), Some(0x40));
    let handle = window.window_handle(&gui, 0).unwrap();
    assert_eq!(handle.hwnd.get(), -0x100);
    assert_eq!(handle.hinstance, None);
    assert_eq!(Window::for_test(9).window_handle(&gui, 1), Err(HandleError::Unavailable));
}

#[test]
fn opengl_is_refused() {
    let result: Result<(), String> = Window::for_test(1).enable_opengl();
    assert_eq!(
        result,
        Err("the OpenGL front_end is not yet implemented on Windows; set front_end = \"WebGpu\""
            .to_string())
    );
}

#[test]
fn windows_compare_by_id() {
    assert_eq!(Window::for_test(1), Window::for_test(1).clone());
    assert!(Window::for_test(1) < Window::for_test(2));
}
