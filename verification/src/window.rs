//! Windows: the handle that callers hold, the operations on it, and the
//! creation of a native window.
//!
//! An operation may be called on any thread. It is a request that the GUI
//! thread carries out if the window is still registered when it gets there.
use vstd::prelude::*;

use crate::connection::WindowInner;
use crate::gui::GuiThread;
use crate::gui::WindowInnerError;
use crate::input::Dimensions;
use crate::input::MouseCursor;
use crate::utf16::wide;
use crate::win32::CS_HREDRAW;
use crate::win32::CS_OWNDC;
use crate::win32::CS_VREDRAW;
use crate::win32::CW_USEDEFAULT;
use crate::win32::IDC_ARROW;
use crate::win32::IDC_HAND;
use crate::win32::IDC_IBEAM;
use crate::win32::IDC_SIZEALL;
use crate::win32::IDC_SIZENS;
use crate::win32::IDC_SIZEWE;
use crate::win32::SWP_NOACTIVATE;
use crate::win32::SWP_NOMOVE;
use crate::win32::SWP_NOZORDER;
use crate::win32::SW_HIDE;
use crate::win32::SW_SHOW;
use crate::win32::WS_OVERLAPPEDWINDOW;

verus! {

/// `raw_window_handle::Win32WindowHandle`: the handle that a graphics library renders to.
#[verifier::external_type_specification]
#[verifier::external_body]
pub struct ExWin32WindowHandle(raw_window_handle::Win32WindowHandle);

/// The `raw_window_handle::Win32WindowHandle` of a native window and, where
/// there is one, of its instance.
pub uninterp spec fn win32_window_handle(
    hwnd: isize,
    hinstance: Option<isize>,
) -> raw_window_handle::Win32WindowHandle;

/// `raw_window_handle::Win32WindowHandle::new`, with its public field for the
/// instance: the handle is made of these two numbers alone. Its fields are hidden
/// from the verifier, so the contract names the handle by what it is made of.
/// `NonZeroIsize::new` accepts every number but zero.
#[verifier::external_body]
fn new_win32_window_handle(handle: Win32Handle) -> (raw: raw_window_handle::Win32WindowHandle)
    requires
        handle.hwnd != 0,
        handle.hinstance != Some(0isize),
    ensures
        raw == win32_window_handle(handle.hwnd, handle.hinstance),
{
    let hwnd = core::num::NonZeroIsize::new(handle.hwnd).unwrap();
    let mut raw = raw_window_handle::Win32WindowHandle::new(hwnd);
    raw.hinstance = handle.hinstance.and_then(core::num::NonZeroIsize::new);
    raw
}

/// The name of the native window class.
pub const WINDOW_CLASS_NAME: &'static str = "KakuWindowClass";

/// A native rectangle.
#[derive(Debug, Clone, Copy, PartialEq, Eq, Structural)]
pub struct WindowRect {
    pub left: i32,
    pub top: i32,
    pub right: i32,
    pub bottom: i32,
}

impl WindowRect {
    /// The extents of the rectangle can be told in 32 bits.
    pub open spec fn spans_fit(self) -> bool {
        &&& i32::MIN <= self.right - self.left <= i32::MAX
        &&& i32::MIN <= self.bottom - self.top <= i32::MAX
    }

    /// The rectangle at the origin that has the low 32 bits of these extents.
    pub open spec fn is_client_area(self, width: usize, height: usize) -> bool {
        &&& self.left == 0
        &&& self.top == 0
        &&& self.right == crate::words::signed32(width as int)
        &&& self.bottom == crate::words::signed32(height as int)
    }

    /// The rectangle of a client area of this size.
    pub fn client_area(width: usize, height: usize) -> (rect: WindowRect)
        ensures
            rect.is_client_area(width, height),
            rect.left == 0 && rect.top == 0,
            width <= i32::MAX ==> rect.right == width,
            height <= i32::MAX ==> rect.bottom == height,
            (width - rect.right) % 0x1_0000_0000 == 0,
            (height - rect.bottom) % 0x1_0000_0000 == 0,
    {
        WindowRect {
            left: 0,
            top: 0,
            right: crate::words::wparam_i32(width),
            bottom: crate::words::wparam_i32(height),
        }
    }
}

/// The size and the position that a new window gets; a position that is not
/// given is left to the system.
#[derive(Debug, Clone, Copy, PartialEq, Eq)]
pub struct ResolvedGeometry {
    pub width: usize,
    pub height: usize,
    pub x: Option<i32>,
    pub y: Option<i32>,
}

/// The native window class.
#[derive(Debug, PartialEq, Eq)]
pub struct WindowClass {
    pub style: u32,
    pub class_name: Vec<u16>,
    pub cursor: u16,
}

/// The arguments of the call that creates a native window.
#[derive(Debug, PartialEq, Eq)]
pub struct CreateRequest {
    pub class_name: Vec<u16>,
    pub title: Vec<u16>,
    pub style: u32,
    pub x: i32,
    pub y: i32,
    pub width: i32,
    pub height: i32,
}

/// The arguments of the call that resizes a native window.
#[derive(Debug, Clone, Copy, PartialEq, Eq, Structural)]
pub struct ResizeRequest {
    pub width: i32,
    pub height: i32,
    pub flags: u32,
}

/// What the GUI thread does to a native window.
#[derive(Debug, PartialEq, Eq)]
pub enum WindowCommand {
    /// Shows or hides the window, by an `SW_*` code.
    Show(i32),
    Destroy,
    SetForeground,
    Invalidate,
    /// Sets the title to NUL-terminated UTF-16.
    SetText(Vec<u16>),
    /// Grows this client area by the window's frame, then resizes the window to it.
    ResizeClient(WindowRect),
}

/// An event as the receiver of a window gets it, with the notifications that
/// the window's owner sends to itself.
#[derive(Debug, PartialEq, Eq)]
pub enum Delivery<T> {
    Window(crate::input::WindowEvent),
    Notification(T),
}

/// Why a window was not created.
#[derive(Debug, Clone, Copy, PartialEq, Eq, Structural)]
pub enum NewWindowError {
    /// The thread has no connection.
    NoConnection,
    /// The system gave no native window.
    CreateFailed,
}

impl NewWindowError {
    /// The message of the error, where `os_error` is the system's own text for
    /// what it refused.
    pub fn message(&self, os_error: &str) -> (text: String)
        ensures
            text@ == (match *self {
                NewWindowError::NoConnection => "new_window called without a connection"@,
                NewWindowError::CreateFailed => "CreateWindowExW failed: "@ + os_error@,
            }),
    {
        match self {
            NewWindowError::NoConnection => "new_window called without a connection".to_owned(),
            NewWindowError::CreateFailed => {
                let mut text = "CreateWindowExW failed: ".to_owned();
                text.append(os_error);
                text
            },
        }
    }
}

/// Why a window has no raw handle.
#[derive(Debug, Clone, Copy, PartialEq, Eq, Structural)]
pub enum HandleError {
    Unavailable,
}

/// The numbers of a handle that a graphics library renders to.
#[derive(Debug, Clone, Copy, PartialEq, Eq)]
pub struct Win32Handle {
    /// Never zero.
    pub hwnd: isize,
    /// Never zero.
    pub hinstance: Option<isize>,
}

/// The system cursor of each pointer shape.
pub open spec fn system_cursor(cursor: Option<MouseCursor>) -> u16 {
    match cursor {
        Some(MouseCursor::Text) => IDC_IBEAM,
        Some(MouseCursor::Hand) => IDC_HAND,
        Some(MouseCursor::SizeUpDown) => IDC_SIZENS,
        Some(MouseCursor::SizeLeftRight) => IDC_SIZEWE,
        Some(MouseCursor::Grabbing) => IDC_SIZEALL,
        Some(MouseCursor::Arrow) => IDC_ARROW,
        None => IDC_ARROW,
    }
}

/// The resource id of the system cursor for a pointer shape.
pub fn cursor_to_hcursor(cursor: Option<MouseCursor>) -> (name: u16)
    ensures
        name == system_cursor(cursor),
{
    match cursor {
        Some(MouseCursor::Text) => IDC_IBEAM,
        Some(MouseCursor::Hand) => IDC_HAND,
        Some(MouseCursor::SizeUpDown) => IDC_SIZENS,
        Some(MouseCursor::SizeLeftRight) => IDC_SIZEWE,
        Some(MouseCursor::Grabbing) => IDC_SIZEALL,
        Some(MouseCursor::Arrow) | None => IDC_ARROW,
    }
}

/// The native class of every window of the backend.
pub open spec fn is_window_class(class: WindowClass) -> bool {
    &&& class.style == CS_HREDRAW + CS_VREDRAW + CS_OWNDC
    &&& class.class_name@ == crate::utf16::wide_units(WINDOW_CLASS_NAME@)
    &&& class.cursor == IDC_ARROW
}

/// The native class of every window of the backend.
pub fn register_class() -> (class: WindowClass)
    ensures
        is_window_class(class),
        class.style == 0x23,
        class.class_name@ == crate::utf16::wide_units("KakuWindowClass"@),
        class.cursor == 32512,
{
    assert(2u32 | 1u32 | 0x20u32 == 0x23u32) by (bit_vector);
    WindowClass {
        style: CS_HREDRAW | CS_VREDRAW | CS_OWNDC,
        class_name: wide(WINDOW_CLASS_NAME),
        cursor: IDC_ARROW,
    }
}

/// A call of `class_to_register` gives a class where none is registered yet.
pub open spec fn gives_class(registered: bool) -> bool {
    !registered
}

/// Whether the process has registered the window class. A process keeps one of
/// these for all its threads.
#[derive(Debug)]
pub struct ClassRegistration {
    registered: bool,
}

impl View for ClassRegistration {
    type V = bool;

    closed spec fn view(&self) -> bool {
        self.registered
    }
}

impl ClassRegistration {
    /// The class is not registered yet.
    pub fn new() -> (registration: ClassRegistration)
        ensures
            !registration@,
    {
        ClassRegistration { registered: false }
    }

    /// The class to register before a window is created, at the first call;
    /// nothing at every later one.
    pub fn class_to_register(&mut self) -> (class: Option<WindowClass>)
        ensures
            class is Some <==> gives_class(old(self)@),
            class matches Some(c) ==> is_window_class(c),
            final(self)@,
    {
        if self.registered {
            None
        } else {
            self.registered = true;
            Some(register_class())
        }
    }
}

/// How many of this many calls of `class_to_register` in a row give a class.
pub open spec fn classes_given(registered: bool, calls: nat) -> nat
    decreases calls,
{
    if calls == 0 {
        0
    } else {
        let here: nat = if gives_class(registered) {
            1
        } else {
            0
        };
        here + classes_given(true, (calls - 1) as nat)
    }
}

/// However many windows a process creates, it registers the class once.
pub proof fn law_class_is_registered_once(calls: nat)
    ensures
        classes_given(true, calls) == 0,
        classes_given(false, calls) == if calls == 0 {
            0nat
        } else {
            1nat
        },
    decreases calls,
{
    if calls > 0 {
        law_class_is_registered_once((calls - 1) as nat);
    }
}

/// The arguments that create a window, once the system has grown the client
/// area by the frame.
pub fn create_request(name: &str, geometry: &ResolvedGeometry, outer: WindowRect) -> (request:
    CreateRequest)
    requires
        outer.spans_fit(),
    ensures
        request.class_name@ == crate::utf16::wide_units(WINDOW_CLASS_NAME@),
        request.title@ == crate::utf16::wide_units(name@),
        request.style == WS_OVERLAPPEDWINDOW,
        request.x == (match geometry.x {
            Some(x) => x,
            None => CW_USEDEFAULT,
        }),
        request.y == (match geometry.y {
            Some(y) => y,
            None => CW_USEDEFAULT,
        }),
        request.width == outer.right - outer.left,
        request.height == outer.bottom - outer.top,
{
    CreateRequest {
        class_name: wide(WINDOW_CLASS_NAME),
        title: wide(name),
        style: WS_OVERLAPPEDWINDOW,
        x: geometry.x.unwrap_or(CW_USEDEFAULT),
        y: geometry.y.unwrap_or(CW_USEDEFAULT),
        width: outer.right - outer.left,
        height: outer.bottom - outer.top,
    }
}

/// The arguments that resize a window to a client area, once the system has
/// grown it by the frame: the window is neither moved, raised nor activated.
pub fn resize_request(outer: WindowRect) -> (request: ResizeRequest)
    requires
        outer.spans_fit(),
    ensures
        request.width == outer.right - outer.left,
        request.height == outer.bottom - outer.top,
        request.flags == SWP_NOMOVE + SWP_NOZORDER + SWP_NOACTIVATE,
{
    assert(2u32 | 4u32 | 0x10u32 == 0x16u32) by (bit_vector);
    ResizeRequest {
        width: outer.right - outer.left,
        height: outer.bottom - outer.top,
        flags: SWP_NOMOVE | SWP_NOZORDER | SWP_NOACTIVATE,
    }
}

/// The window id that a native window's user data stands for.
pub open spec fn id_of_user_data(data: isize) -> int {
    if data >= 0 {
        data as int
    } else {
        data + usize::MAX + 1
    }
}

/// All bits of a `usize` set give its largest value.
proof fn lemma_all_ones()
    ensures
        !0usize == usize::MAX,
{
    assert(usize::BITS == 32 ==> !0usize == 0xffff_ffffu64) by (bit_vector);
    assert(usize::BITS == 64 ==> !0usize == 0xffff_ffff_ffff_ffffu64) by (bit_vector);
}

/// The user data of a native window that holds a window id.
pub fn user_data_of_id(window_id: usize) -> (data: isize)
    ensures
        id_of_user_data(data) == window_id,
        data >= 0 ==> data == window_id,
        data < 0 ==> data + usize::MAX + 1 == window_id,
{
    let data: isize = window_id as isize;
    assert(data >= 0 ==> data as usize == data) by (bit_vector);
    assert(data < 0 ==> data as usize == data + !0usize + 1) by (bit_vector);
    proof {
        lemma_all_ones();
    }
    assert((window_id as isize) as usize == window_id) by (bit_vector);
    data
}

/// The window id in the user data of a native window.
pub fn id_from_user_data(data: isize) -> (window_id: usize)
    ensures
        window_id == id_of_user_data(data),
        data >= 0 ==> window_id == data,
        data < 0 ==> window_id == data + usize::MAX + 1,
{
    assert(data >= 0 ==> data as usize == data) by (bit_vector);
    assert(data < 0 ==> data as usize == data + !0usize + 1) by (bit_vector);
    proof {
        lemma_all_ones();
    }
    data as usize
}

/// A cheap handle to a window, which names it by its id.
#[derive(Debug, Clone, PartialEq, Eq, Hash, PartialOrd, Ord)]
pub struct Window {
    id: usize,
}

impl View for Window {
    type V = usize;

    closed spec fn view(&self) -> usize {
        self.id
    }
}

impl<E> crate::gui::GuiState<E> {
    /// The state after a new window was registered under the next id.
    pub open spec fn with_new_window(
        self,
        hwnd: isize,
        geometry: ResolvedGeometry,
        dpi: usize,
        events: E,
    ) -> crate::gui::GuiState<E> {
        match self.connection {
            Some(registry) => {
                let id = registry.next_window_id;
                let inner = WindowInner {
                    hwnd,
                    events,
                    dimensions: Dimensions {
                        pixel_width: geometry.width,
                        pixel_height: geometry.height,
                        dpi,
                    },
                    cursor: None,
                    window_id: id,
                };
                crate::gui::GuiState {
                    connection: Some(
                        crate::connection::Registry {
                            next_window_id: crate::connection::id_after(id),
                            ..registry.with_window(id, inner)
                        },
                    ),
                    ..self
                }
            },
            None => self,
        }
    }
}

impl Window {
    /// The handle to the window with this id.
    pub fn for_test(id: usize) -> (window: Window)
        ensures
            window@ == id,
    {
        Window { id }
    }

    /// The id of the window.
    pub fn id(&self) -> (id: usize)
        ensures
            id == self@,
    {
        self.id
    }

    /// The native handle of the window, while it is registered.
    pub fn hwnd<E>(&self, gui: &GuiThread<E>) -> (hwnd: Option<isize>)
        ensures
            hwnd is Some <==> gui@.window(self@) is Some,
            hwnd matches Some(h) ==> h == gui@.window(self@)->0.hwnd,
    {
        match gui.window(self.id) {
            Some(inner) => Some(inner.hwnd),
            None => None,
        }
    }

    /// What the GUI thread is to do for `command`: carry it out on the native
    /// handle of the window, or nothing once the window is gone.
    pub fn run_on_main_with_hwnd<E, C>(&self, gui: &GuiThread<E>, command: C) -> (todo: Option<
        (isize, C),
    >)
        ensures
            todo == (match gui@.window(self@) {
                Some(inner) => Some((inner.hwnd, command)),
                None => None,
            }),
    {
        match self.hwnd(gui) {
            Some(hwnd) => Some((hwnd, command)),
            None => None,
        }
    }

    /// Checks that a window can be created, before the system is asked for
    /// one, and gives the rectangle of its client area.
    pub fn new_client_area<E>(gui: &GuiThread<E>, geometry: &ResolvedGeometry) -> (rect: Result<
        WindowRect,
        NewWindowError,
    >)
        ensures
            gui@.connection is None ==> rect == Err::<WindowRect, _>(NewWindowError::NoConnection),
            gui@.connection is Some ==> rect is Ok && rect->Ok_0.is_client_area(
                geometry.width,
                geometry.height,
            ),
    {
        match gui.connection() {
            None => Err(NewWindowError::NoConnection),
            Some(_) => Ok(WindowRect::client_area(geometry.width, geometry.height)),
        }
    }

    /// Registers the native window `hwnd` under the next window id, with the
    /// requested size at `dpi` and no pointer shape. A zero `hwnd` is the
    /// system's refusal to create one.
    pub fn new_window<E>(
        gui: &mut GuiThread<E>,
        hwnd: isize,
        geometry: &ResolvedGeometry,
        dpi: usize,
        events: E,
    ) -> (window: Result<Window, NewWindowError>)
        ensures
            match old(gui)@.connection {
                None => window == Err::<Window, _>(NewWindowError::NoConnection) && final(gui)@ == old(
                    gui,
                )@,
                Some(registry) if hwnd == 0 => window == Err::<Window, _>(
                    NewWindowError::CreateFailed,
                ) && final(gui)@ == old(gui)@,
                Some(registry) => {
                    &&& window is Ok
                    &&& window->Ok_0@ == registry.next_window_id
                    &&& final(gui)@ == old(gui)@.with_new_window(hwnd, *geometry, dpi, events)
                },
            },
    {
        match gui.disconnect() {
            None => Err(NewWindowError::NoConnection),
            Some(mut conn) => {
                if hwnd == 0 {
                    gui.connect(conn);
                    return Err(NewWindowError::CreateFailed);
                }
                let window_id: usize = conn.next_window_id();
                let inner = WindowInner {
                    hwnd,
                    events,
                    dimensions: Dimensions {
                        pixel_width: geometry.width,
                        pixel_height: geometry.height,
                        dpi,
                    },
                    cursor: None,
                    window_id,
                };
                conn.insert(window_id, inner);
                gui.connect(conn);
                Ok(Window { id: window_id })
            },
        }
    }

    /// Always an error: rendering goes through WebGpu.
    pub fn enable_opengl<C>(&self) -> (context: Result<C, String>)
        ensures
            context is Err,
            context->Err_0@
                == "the OpenGL front_end is not yet implemented on Windows; set front_end = \"WebGpu\""@,
    {
        Err(
            "the OpenGL front_end is not yet implemented on Windows; set front_end = \"WebGpu\"".to_owned(),
        )
    }

    /// Sends `t` to the receiver of the window's own events, while the window
    /// is registered.
    pub fn notify<'a, E, T>(&self, gui: &'a GuiThread<E>, t: T) -> (sent: Option<
        (&'a E, Delivery<T>),
    >)
        ensures
            sent == (match gui@.window(self@) {
                Some(inner) => Some((&inner.events, Delivery::Notification(t))),
                None => None,
            }),
    {
        match gui.window(self.id) {
            Some(inner) => Some((&inner.events, Delivery::Notification(t))),
            None => None,
        }
    }

    /// Makes the window visible.
    pub fn show(&self) -> (command: WindowCommand)
        ensures
            command == WindowCommand::Show(SW_SHOW),
    {
        WindowCommand::Show(SW_SHOW)
    }

    /// Makes the window invisible.
    pub fn hide_window(&self) -> (command: WindowCommand)
        ensures
            command == WindowCommand::Show(SW_HIDE),
    {
        WindowCommand::Show(SW_HIDE)
    }

    /// Closes the window.
    pub fn close(&self) -> (command: WindowCommand)
        ensures
            command == WindowCommand::Destroy,
    {
        WindowCommand::Destroy
    }

    /// Brings the window to the foreground.
    pub fn focus(&self) -> (command: WindowCommand)
        ensures
            command == WindowCommand::SetForeground,
    {
        WindowCommand::SetForeground
    }

    /// Has the window painted again.
    pub fn invalidate(&self) -> (command: WindowCommand)
        ensures
            command == WindowCommand::Invalidate,
    {
        WindowCommand::Invalidate
    }

    /// Sets the title of the window.
    pub fn set_title(&self, title: &str) -> (command: WindowCommand)
        ensures
            command matches WindowCommand::SetText(units) && units@ == crate::utf16::wide_units(
                title@,
            ),
    {
        WindowCommand::SetText(wide(title))
    }

    /// Sets the size of the client area.
    pub fn set_inner_size(&self, width: usize, height: usize) -> (command: WindowCommand)
        ensures
            command matches WindowCommand::ResizeClient(rect) && rect.is_client_area(width, height),
            width <= i32::MAX && height <= i32::MAX ==> command == WindowCommand::ResizeClient(
                WindowRect { left: 0, top: 0, right: width as i32, bottom: height as i32 },
            ),
    {
        WindowCommand::ResizeClient(WindowRect::client_area(width, height))
    }

    /// Sets the pointer shape over the window, and gives the system cursor to
    /// show at once.
    pub fn set_cursor<E>(&self, gui: &mut GuiThread<E>, cursor: Option<MouseCursor>) -> (result:
        Result<u16, WindowInnerError<()>>)
        ensures
            match old(gui)@.window(self@) {
                Some(inner) => {
                    &&& result == Ok::<u16, WindowInnerError<()>>(system_cursor(cursor))
                    &&& final(gui)@ == old(gui)@.with_window(
                        self@,
                        WindowInner { cursor, ..inner },
                    )
                },
                None => {
                    &&& result == Err::<u16, WindowInnerError<()>>(
                        if old(gui)@.connection is None {
                            WindowInnerError::NotInitialized
                        } else {
                            WindowInnerError::InvalidWindowId(self@)
                        },
                    )
                    &&& final(gui)@ == old(gui)@
                },
            },
    {
        let f = |inner: WindowInner<E>| -> (r: (WindowInner<E>, Result<u16, ()>))
            ensures
                r == (
                    WindowInner { cursor, ..inner },
                    Ok::<u16, ()>(system_cursor(cursor)),
                ),
            {
                let mut inner = inner;
                inner.cursor = cursor;
                (inner, Ok(cursor_to_hcursor(cursor)))
            };
        gui.with_window_inner(self.id, f)
    }

    /// The numbers of the window's raw handle, where `hinstance` is what the system
    /// reports as the instance of its native handle, zero for none.
    pub fn raw_handle<E>(&self, gui: &GuiThread<E>, hinstance: isize) -> (handle: Result<
        Win32Handle,
        HandleError,
    >)
        ensures
            match gui@.window(self@) {
                Some(inner) if inner.hwnd != 0 => handle == Ok::<_, HandleError>(
                    Win32Handle {
                        hwnd: inner.hwnd,
                        hinstance: if hinstance != 0 {
                            Some(hinstance)
                        } else {
                            None
                        },
                    },
                ),
                _ => handle == Err::<Win32Handle, _>(HandleError::Unavailable),
            },
    {
        match self.hwnd(gui) {
            Some(hwnd) => {
                if hwnd == 0 {
                    return Err(HandleError::Unavailable);
                }
                let hinstance = if hinstance != 0 {
                    Some(hinstance)
                } else {
                    None
                };
                Ok(Win32Handle { hwnd, hinstance })
            },
            None => Err(HandleError::Unavailable),
        }
    }

    /// The raw handle of the window, for a graphics library.
    pub fn window_handle<E>(&self, gui: &GuiThread<E>, hinstance: isize) -> (handle: Result<
        raw_window_handle::Win32WindowHandle,
        HandleError,
    >)
        ensures
            match gui@.window(self@) {
                Some(inner) if inner.hwnd != 0 => handle == Ok::<_, HandleError>(
                    win32_window_handle(
                        inner.hwnd,
                        if hinstance != 0 {
                            Some(hinstance)
                        } else {
                            None
                        },
                    ),
                ),
                _ => handle == Err::<raw_window_handle::Win32WindowHandle, _>(
                    HandleError::Unavailable,
                ),
            },
    {
        match self.raw_handle(gui, hinstance) {
            Ok(handle) => Ok(new_win32_window_handle(handle)),
            Err(e) => Err(e),
        }
    }
}

/// Each pointer shape has its own system cursor, and the arrow is shown where
/// none is set.
pub proof fn law_each_shape_has_its_cursor(cursor: Option<MouseCursor>)
    ensures
        system_cursor(cursor) == 32512 <==> (cursor is None || cursor == Some(MouseCursor::Arrow)),
        system_cursor(cursor) == 32513 <==> cursor == Some(MouseCursor::Text),
        system_cursor(cursor) == 32644 <==> cursor == Some(MouseCursor::SizeLeftRight),
        system_cursor(cursor) == 32645 <==> cursor == Some(MouseCursor::SizeUpDown),
        system_cursor(cursor) == 32646 <==> cursor == Some(MouseCursor::Grabbing),
        system_cursor(cursor) == 32649 <==> cursor == Some(MouseCursor::Hand),
{
}

/// A client area lies at the origin and has the size that was asked for, or, where
/// that takes more than 32 bits, the low 32 bits of it.
pub proof fn law_client_area_has_the_size(rect: WindowRect, width: usize, height: usize)
    requires
        rect.is_client_area(width, height),
    ensures
        rect.left == 0,
        rect.top == 0,
        width <= i32::MAX ==> rect.right == width,
        height <= i32::MAX ==> rect.bottom == height,
        (width - rect.right) % 0x1_0000_0000 == 0,
        (height - rect.bottom) % 0x1_0000_0000 == 0,
{
}

/// The id that user data stands for is the data itself, read as a number without
/// a sign: no two data stand for one id.
pub proof fn law_user_data_is_the_id(data: isize, other: isize)
    ensures
        data >= 0 ==> id_of_user_data(data) == data,
        0 <= id_of_user_data(data) <= usize::MAX,
        id_of_user_data(data) == id_of_user_data(other) ==> data == other,
{
    assert(isize::MAX < usize::MAX);
    assert(isize::MIN + usize::MAX + 1 > isize::MAX);
}

/// A new window is registered under the next id with its native handle, its
/// receiver of events and the size that was asked for, and without a pointer shape.
/// The id after it is the next one, and nothing else changes.
pub proof fn law_new_window_is_recorded<E>(
    state: crate::gui::GuiState<E>,
    hwnd: isize,
    geometry: ResolvedGeometry,
    dpi: usize,
    events: E,
    other: usize,
)
    requires
        state.connection is Some,
        state.connection->0.next_window_id < usize::MAX,
    ensures
        ({
            let id = state.connection->0.next_window_id;
            let after = state.with_new_window(hwnd, geometry, dpi, events);
            let inner = after.window(id)->0;
            &&& after.window(id) is Some
            &&& inner.hwnd == hwnd
            &&& inner.events == events
            &&& inner.dimensions.pixel_width == geometry.width
            &&& inner.dimensions.pixel_height == geometry.height
            &&& inner.dimensions.dpi == dpi
            &&& inner.cursor is None
            &&& inner.window_id == id
            &&& other != id ==> after.window(other) == state.window(other)
            &&& after.connection is Some
            &&& after.connection->0.next_window_id == id + 1
            &&& after.swallow_next_char == state.swallow_next_char
        }),
{
}


} // verus!
