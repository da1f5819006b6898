//! The platform-independent events that the backend reports, and the values
//! that they carry.
use core::marker::PhantomData;
use vstd::prelude::*;

verus! {

/// `euclid::Point2D`: two coordinates tagged with a unit.
#[verifier::external_type_specification]
#[verifier::reject_recursive_types(T)]
#[verifier::reject_recursive_types(U)]
pub struct ExPoint2D<T, U>(euclid::Point2D<T, U>);

/// `euclid::Point2D::new`: the point that has these two coordinates.
pub assume_specification<T, U>[ euclid::Point2D::<T, U>::new ](x: T, y: T) -> (p:
    euclid::Point2D<T, U>)
    ensures
        p.x == x,
        p.y == y,
;

/// Unit of a length in pixels of a window's client area.
#[derive(Debug, Clone, Copy, PartialEq, Eq)]
pub struct PixelUnit;

/// Unit of a length in pixels of the screen.
#[derive(Debug, Clone, Copy, PartialEq, Eq)]
pub struct ScreenPixelUnit;

/// A position in a window's client area.
pub type Point = euclid::Point2D<isize, PixelUnit>;

/// A position on the screen.
pub type ScreenPoint = euclid::Point2D<isize, ScreenPixelUnit>;

/// The modifier keys that are held down.
#[derive(Debug, Clone, Copy, PartialEq, Eq, Structural)]
pub struct Modifiers {
    pub shift: bool,
    pub ctrl: bool,
    pub alt: bool,
    pub super_key: bool,
}

impl Modifiers {
    /// No modifier.
    pub open spec fn spec_none() -> Modifiers {
        Modifiers { shift: false, ctrl: false, alt: false, super_key: false }
    }

    /// No modifier.
    pub fn none() -> (mods: Modifiers)
        ensures
            mods == Modifiers::spec_none(),
    {
        Modifiers { shift: false, ctrl: false, alt: false, super_key: false }
    }
}

/// The mouse buttons that are held down.
#[derive(Debug, Clone, Copy, PartialEq, Eq, Structural)]
pub struct MouseButtons {
    pub left: bool,
    pub right: bool,
    pub middle: bool,
}

/// The keyboard lights that are on.
#[derive(Debug, Clone, Copy, PartialEq, Eq, Structural)]
pub struct KeyboardLedStatus {
    pub caps_lock: bool,
    pub num_lock: bool,
}

/// How a window is shown.
#[derive(Debug, Clone, Copy, PartialEq, Eq, Structural)]
pub struct WindowState {
    pub full_screen: bool,
    pub maximized: bool,
    pub hidden: bool,
}

/// The size of a client area in pixels, and the density of those pixels.
#[derive(Debug, Clone, Copy, PartialEq, Eq, Structural)]
pub struct Dimensions {
    pub pixel_width: usize,
    pub pixel_height: usize,
    pub dpi: usize,
}

/// The meaning of a key.
#[derive(Debug, Clone, Copy, PartialEq, Eq, Structural)]
pub enum KeyCode {
    Char(char),
    LeftArrow,
    RightArrow,
    UpArrow,
    DownArrow,
    Home,
    End,
    PageUp,
    PageDown,
    Insert,
    Function(u8),
}

/// A key press.
#[derive(Debug, Clone, Copy, PartialEq, Eq, Structural)]
pub struct KeyEvent {
    pub key: KeyCode,
    pub modifiers: Modifiers,
    pub leds: KeyboardLedStatus,
    pub repeat_count: u16,
    pub key_is_down: bool,
    /// The code of the key before translation, which this backend does not report.
    pub raw: Option<u32>,
    /// The character that the system translated the key to.
    pub win32_uni_char: Option<char>,
}

/// A button of the mouse.
#[derive(Debug, Clone, Copy, PartialEq, Eq, Structural)]
pub enum MousePress {
    Left,
    Right,
    Middle,
}

/// What happened to the mouse.
#[derive(Debug, Clone, Copy, PartialEq, Eq, Structural)]
pub enum MouseEventKind {
    Move,
    Press(MousePress),
    Release(MousePress),
    /// Notches of the wheel, positive away from the user.
    VertWheel(i16),
}

/// An event of the mouse.
#[derive(Debug, Clone, Copy, PartialEq, Eq)]
pub struct MouseEvent {
    pub kind: MouseEventKind,
    pub coords: Point,
    pub screen_coords: ScreenPoint,
    pub mouse_buttons: MouseButtons,
    pub modifiers: Modifiers,
    pub platform_click_count: usize,
}

/// The shape of the mouse pointer.
#[derive(Debug, Clone, Copy, PartialEq, Eq, Structural)]
pub enum MouseCursor {
    Arrow,
    Hand,
    Text,
    SizeUpDown,
    SizeLeftRight,
    Grabbing,
}

/// An event of a window.
#[derive(Debug, Clone, Copy, PartialEq, Eq)]
pub enum WindowEvent {
    CloseRequested,
    Destroyed,
    Resized {
        dimensions: Dimensions,
        window_state: WindowState,
        live_resizing: bool,
        screen_changed: bool,
    },
    FocusChanged(bool),
    KeyEvent(KeyEvent),
    MouseEvent(MouseEvent),
    NeedRepaint,
}

/// The point of a client area at these coordinates.
pub open spec fn point(x: isize, y: isize) -> Point {
    euclid::Point2D { x, y, _unit: PhantomData }
}

/// The point of the screen at these coordinates.
pub open spec fn screen_point(x: isize, y: isize) -> ScreenPoint {
    euclid::Point2D { x, y, _unit: PhantomData }
}

/// The state of a keyboard whose lights are not reported.
pub open spec fn no_leds() -> KeyboardLedStatus {
    KeyboardLedStatus { caps_lock: false, num_lock: false }
}

/// The state of an ordinary window.
pub open spec fn plain_state() -> WindowState {
    WindowState { full_screen: false, maximized: false, hidden: false }
}

} // verus!
