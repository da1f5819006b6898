use kaku_win32::clipboard::{
    get_clipboard_data, ClipboardData, ClipboardRead, ClipboardWrite, ReadAction, WriteAction,
};
use kaku_win32::connection::Connection;
use kaku_win32::event::{EventCall, EventHandle, EventNotCreated};
use kaku_win32::gui::GuiThread;
use kaku_win32::hotkey::{
    configured_global_hotkey, registration_failed, sync_global_hotkey, toggle_main_window,
    HotkeyRegistration, HotkeySetting,
};
use kaku_win32::message_loop::{LoopAction, MessageLoop};
use kaku_win32::screen::{screens, system_dpi, Scale, ScreenRect};
use kaku_win32::system::{
    get_appearance, is_running_in_rdp_session, name, read_apps_use_light_theme, Appearance,
};
use kaku_win32::toast::{
    show_notif, toast_request, Timeout, ToastDuration, ToastNotification,
};
use kaku_win32::win32::{WM_HOTKEY, WM_PAINT, WM_QUIT};
use kaku_win32::window::{ResolvedGeometry, Window, WindowCommand};

/// Writes `text`; each call succeeds but the one with the number `failing`.
/// Returns the calls and the memory that was given to the clipboard.
fn write(text: &str, failing: Option<usize>) -> (Vec<WriteAction>, Option<Vec<u16>>) {
    let mut write = ClipboardWrite::set_clipboard_text(text);
    let mut calls = Vec::new();
    let mut memory = Vec::new();
    let mut given = None;
    loop {
        let action = write.action();
        calls.push(action);
        match action {
            WriteAction::Done => return (calls, given),
            WriteAction::CopyUnits(_) => memory = write.units().to_vec(),
            WriteAction::SetData(_, _) => given = Some(memory.clone()),
            _ => {}
        }
        let result = if failing == Some(calls.len() - 1) { 0 } else { 0x10 + calls.len() as isize };
        write.advance(result);
    }
}

/// Reads `memory`; each call succeeds but the one with the number `failing`.
fn read(memory: &[u16], failing: Option<usize>) -> (Vec<ReadAction>, String) {
    let mut read = ClipboardRead::new();
    let mut calls = Vec::new();
    loop {
        let action = read.action();
        calls.push(action);
        let result = match action {
            ReadAction::Done => return (calls, read.get_clipboard_text()),
            ReadAction::ReadUnit(_, i) => memory[i] as isize,
            _ if failing == Some(calls.len() - 1) => 0,
            _ => 0x10 + calls.len() as isize,
        };
        read.advance(result);
    }
}

#[test]
fn clipboard_write_makes_its_calls_in_order() {
    let (calls, given) = write("ab", None);
    assert_eq!(
        calls,
        vec![
            WriteAction::OpenClipboard,
            WriteAction::EmptyClipboard,
            WriteAction::Alloc(2, 6),
            WriteAction::Lock(0x13),
            WriteAction::CopyUnits(0x14),
            WriteAction::Unlock(0x13),
            WriteAction::SetData(13, 0x13),
            WriteAction::CloseClipboard,
            WriteAction::Done,
        ]
    );
    assert_eq!(given, Some(vec![0x61, 0x62, 0]));
}

#[test]
fn clipboard_write_closes_what_it_opened() {
    let (calls, given) = write("ab", Some(0));
    assert_eq!(calls, vec![WriteAction::OpenClipboard, WriteAction::Done]);
    assert_eq!(given, None);
    for (failing, length) in [(2, 5), (3, 6)] {
        let (calls, given) = write("ab", Some(failing));
        assert_eq!(calls.len(), length);
        assert_eq!(calls[length - 2], WriteAction::CloseClipboard);
        assert_eq!(given, None);
    }
    // The results of these calls are not looked at.
    for ignored in [1, 4, 5, 6, 7] {
        assert_eq!(write("ab", Some(ignored)).1, Some(vec![0x61, 0x62, 0]));
    }
}

#[test]
fn clipboard_read_makes_its_calls_in_order() {
    let (calls, text) = read(&[0x61, 0, 0x62], None);
    assert_eq!(
        calls,
        vec![
            ReadAction::OpenClipboard,
            ReadAction::GetData(13),
            ReadAction::Lock(0x12),
            ReadAction::ReadUnit(0x13, 0),
            ReadAction::ReadUnit(0x13, 1),
            ReadAction::Unlock(0x12),
            ReadAction::CloseClipboard,
            ReadAction::Done,
        ]
    );
    assert_eq!(text, "a");
}

#[test]
fn failed_clipboard_read_is_empty() {
    let memory = [0x61, 0];
    let (calls, text) = read(&memory, Some(0));
    assert_eq!((calls.len(), text.as_str()), (2, ""));
    for failing in [1, 2] {
        let (calls, text) = read(&memory, Some(failing));
        assert_eq!(calls[calls.len() - 2], ReadAction::CloseClipboard);
        assert_eq!(text, "");
    }
}

#[test]
fn clipboard_gives_the_text_back() {
    for text in ["", "plain", "two\r\nlines", "\u{5f71} \u{1f600}", "\u{fffd}\u{10ffff}"] {
        let mut memory = write(text, None).1.unwrap();
        memory.extend([0x7a, 0]);
        assert_eq!(read(&memory, None).1, text);
    }
    let memory = write("cut\0here", None).1.unwrap();
    assert_eq!(read(&memory, None).1, "cut");
    assert_eq!(read(&[0xd800, 0x62, 0], None).1, "\u{fffd}b");
}

#[test]
fn clipboard_data_is_text() {
    let data = get_clipboard_data("t".to_string());
    assert_eq!(data, ClipboardData::Text("t".to_string()));
}

/// The actions of a loop that takes these messages, with no message after them.
fn run_loop(gui: &mut GuiThread<()>, mut messages: Vec<Option<u32>>, steps: usize) -> Vec<LoopAction> {
    messages.reverse();
    let mut l = MessageLoop::new();
    let mut actions = Vec::new();
    for _ in 0..steps {
        let action = l.action();
        actions.push(action);
        let peeked = if action == LoopAction::PeekMessage {
            messages.pop().unwrap_or(None)
        } else {
            Some(WM_QUIT)
        };
        l.run_message_loop(gui, peeked);
    }
    actions
}

fn gui_with_window() -> GuiThread<()> {
    let mut gui = GuiThread::new();
    gui.connect(Connection::create_new());
    let geometry = ResolvedGeometry { width: 100, height: 50, x: None, y: None };
    Window::new_window(&mut gui, 0x100, &geometry, 96, ()).unwrap();
    gui
}

#[test]
fn idle_loop_runs_the_queue_twice_and_waits() {
    let mut gui = gui_with_window();
    let actions = run_loop(&mut gui, vec![], 6);
    assert_eq!(
        actions,
        vec![
            LoopAction::RunSpawnQueue,
            LoopAction::PeekMessage,
            LoopAction::RunSpawnQueueAgain,
            LoopAction::Wait,
            LoopAction::RunSpawnQueue,
            LoopAction::PeekMessage,
        ]
    );
    assert!(gui.window(1).is_some());
}

#[test]
fn loop_drains_all_messages() {
    let mut gui = gui_with_window();
    let actions = run_loop(&mut gui, vec![Some(WM_PAINT), Some(WM_HOTKEY), Some(WM_PAINT)], 12);
    assert_eq!(
        actions,
        vec![
            LoopAction::RunSpawnQueue,
            LoopAction::PeekMessage,
            LoopAction::TranslateMessage,
            LoopAction::DispatchMessage,
            LoopAction::PeekMessage,
            LoopAction::ToggleMainWindow,
            LoopAction::PeekMessage,
            LoopAction::TranslateMessage,
            LoopAction::DispatchMessage,
            LoopAction::PeekMessage,
            LoopAction::RunSpawnQueueAgain,
            LoopAction::Wait,
        ]
    );
}

#[test]
fn quit_ends_the_loop_and_forgets_the_windows() {
    let mut gui = gui_with_window();
    let actions = run_loop(&mut gui, vec![Some(WM_QUIT)], 4);
    assert_eq!(
        actions,
        vec![
            LoopAction::RunSpawnQueue,
            LoopAction::PeekMessage,
            LoopAction::Return,
            LoopAction::Return,
        ]
    );
    assert!(gui.window(1).is_none());
    assert!(gui.main_window().is_none());
    assert!(gui.connection().is_some());
}

#[test]
fn hotkey_needs_a_key_and_a_modifier() {
    assert_eq!(configured_global_hotkey(None), None);
    let setting = |vk, mods| Some(HotkeySetting { vk, mods });
    assert_eq!(configured_global_hotkey(setting(None, 2)), None);
    assert_eq!(configured_global_hotkey(setting(Some(0x4b), 0)), None);
    assert_eq!(configured_global_hotkey(setting(Some(0x4b), 3)), Some((0x4b, 3)));
}

#[test]
fn hotkey_is_registered_without_repeat() {
    let calls = sync_global_hotkey(Some((0x4b, 3)));
    assert_eq!(calls.unregister, 1);
    assert_eq!(
        calls.register,
        Some(HotkeyRegistration { id: 1, modifiers: 0x4003, vk: 0x4b })
    );
    let calls = sync_global_hotkey(Some((0x4b, 0x4003)));
    assert_eq!(calls.register.map(|r| r.modifiers), Some(0x4003));
    assert_eq!(sync_global_hotkey(None).register, None);
    assert_eq!(sync_global_hotkey(None).unregister, 1);
    assert!(registration_failed(0));
    assert!(!registration_failed(1));
}

#[test]
fn toggling_hides_only_a_visible_foreground_window() {
    let hidden = vec![WindowCommand::Show(0)];
    let shown = || vec![WindowCommand::Show(5), WindowCommand::SetForeground];
    assert_eq!(toggle_main_window(7, 1, 7), hidden);
    assert_eq!(toggle_main_window(7, 0, 7), shown());
    assert_eq!(toggle_main_window(7, 1, 8), shown());
    assert_eq!(toggle_main_window(7, 0, 0), shown());
}

#[test]
fn dpi_has_a_default() {
    assert_eq!(system_dpi(0), 96);
    assert_eq!(system_dpi(192), 192);
}

#[test]
fn primary_screen_is_the_only_one() {
    let all = screens(1920, 1080, 192);
    let rect: ScreenRect = euclid::rect(0, 0, 1920, 1080);
    assert_eq!(all.main.name, "primary");
    assert_eq!(all.main.rect, rect);
    assert_eq!(all.main.scale, Scale { dpi: 192, base: 96 });
    assert_eq!(all.main.max_fps, None);
    assert_eq!(all.main.effective_dpi, Some(192));
    assert_eq!(all.active, all.main);
    assert_eq!(all.by_name.len(), 1);
    assert_eq!(all.by_name[0].0, "primary");
    assert_eq!(all.by_name[0].1, all.main);
    assert_eq!(all.virtual_rect, rect);
    assert_eq!(screens(1, 1, 0).main.effective_dpi, Some(96));
}

#[test]
fn apps_are_dark_only_on_request() {
    assert_eq!(get_appearance(read_apps_use_light_theme(Some(0))), Appearance::Dark);
    assert_eq!(get_appearance(read_apps_use_light_theme(Some(1))), Appearance::Light);
    assert_eq!(get_appearance(read_apps_use_light_theme(Some(9))), Appearance::Light);
    assert_eq!(get_appearance(read_apps_use_light_theme(None)), Appearance::Light);
}

#[test]
fn session_is_remote_for_any_nonzero_metric() {
    assert!(!is_running_in_rdp_session(0));
    assert!(is_running_in_rdp_session(1));
    assert!(is_running_in_rdp_session(-1));
}

#[test]
fn backend_has_a_name() {
    assert_eq!(name(), "Windows");
}

#[test]
fn event_keeps_its_handle() {
    assert_eq!(EventHandle::new_manual_reset(0).unwrap_err(), EventNotCreated);
    let request = EventHandle::create_request();
    assert_eq!((request.manual_reset, request.initial_state), (1, 0));
    let event = EventHandle::new_manual_reset(0x44).unwrap();
    assert_eq!(event.handle(), 0x44);
    assert_eq!(event.set_event(), EventCall::Signal(0x44));
    assert_eq!(event.reset_event(), EventCall::Unsignal(0x44));
    assert_eq!(event.close(), EventCall::Close(0x44));
}

#[test]
fn event_calls_all_name_one_handle() {
    let event = EventHandle::new_manual_reset(-3).unwrap();
    for _ in 0..3 {
        assert_eq!(event.set_event(), EventCall::Signal(-3));
        assert_eq!(event.set_event(), EventCall::Signal(-3));
        assert_eq!(event.reset_event(), EventCall::Unsignal(-3));
        assert_eq!(event.handle(), -3);
    }
}

fn notification(timeout: Option<Timeout>) -> ToastNotification {
    ToastNotification {
        title: "Bell".to_string(),
        message: "tab <2> rang".to_string(),
        url: None,
        timeout,
    }
}

#[test]
fn toasts_of_nine_seconds_are_long() {
    let duration = |secs, subsec_nanos| {
        toast_request(&notification(Some(Timeout { secs, subsec_nanos }))).duration
    };
    assert_eq!(duration(9, 0), ToastDuration::Long);
    assert_eq!(duration(8, 999_999_999), ToastDuration::Short);
    assert_eq!(duration(u64::MAX, 0), ToastDuration::Long);
    assert_eq!(toast_request(&notification(None)).duration, ToastDuration::Short);
}

#[test]
fn toasts_show_title_and_message() {
    let request = toast_request(&notification(None));
    assert_eq!(request.app_id, "sh.kaku.Kaku");
    assert_eq!(request.title, "Bell");
    assert_eq!(request.text1, "tab <2> rang");
}

#[test]
fn notifications_become_toasts() {
    let toast = show_notif(&notification(Some(Timeout { secs: 9, subsec_nanos: 0 })));
    // A toast can be changed further before it is shown.
    let _: winrt_notification::Toast = toast.text2("later");
}
