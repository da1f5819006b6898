//! The win32 constants that the backend reads from and hands to the system.
use vstd::prelude::*;

verus! {

pub const WM_DESTROY: u32 = 0x0002;

pub const WM_SIZE: u32 = 0x0005;

pub const WM_SETFOCUS: u32 = 0x0007;

pub const WM_KILLFOCUS: u32 = 0x0008;

pub const WM_PAINT: u32 = 0x000f;

pub const WM_CLOSE: u32 = 0x0010;

pub const WM_QUIT: u32 = 0x0012;

pub const WM_SETCURSOR: u32 = 0x0020;

pub const WM_KEYDOWN: u32 = 0x0100;

pub const WM_CHAR: u32 = 0x0102;

pub const WM_MOUSEMOVE: u32 = 0x0200;

pub const WM_LBUTTONDOWN: u32 = 0x0201;

pub const WM_LBUTTONUP: u32 = 0x0202;

pub const WM_RBUTTONDOWN: u32 = 0x0204;

pub const WM_RBUTTONUP: u32 = 0x0205;

pub const WM_MBUTTONDOWN: u32 = 0x0207;

pub const WM_MBUTTONUP: u32 = 0x0208;

pub const WM_MOUSEWHEEL: u32 = 0x020a;

pub const WM_HOTKEY: u32 = 0x0312;

/// `wparam` of a `WM_SIZE` that is neither a minimize nor a maximize.
pub const SIZE_RESTORED: usize = 0;

/// Hit-test code of a window's client area.
pub const HTCLIENT: u16 = 1;

/// `wparam` of a `WM_MOUSEWHEEL` counts this many units per notch.
pub const WHEEL_DELTA: i16 = 120;

pub const VK_PRIOR: i32 = 0x21;

pub const VK_NEXT: i32 = 0x22;

pub const VK_END: i32 = 0x23;

pub const VK_HOME: i32 = 0x24;

pub const VK_LEFT: i32 = 0x25;

pub const VK_UP: i32 = 0x26;

pub const VK_RIGHT: i32 = 0x27;

pub const VK_DOWN: i32 = 0x28;

pub const VK_INSERT: i32 = 0x2d;

pub const VK_DELETE: i32 = 0x2e;

pub const VK_F1: i32 = 0x70;

pub const VK_F24: i32 = 0x87;

pub const MK_LBUTTON: usize = 0x0001;

pub const MK_RBUTTON: usize = 0x0002;

pub const MK_MBUTTON: usize = 0x0010;

pub const CS_VREDRAW: u32 = 0x0001;

pub const CS_HREDRAW: u32 = 0x0002;

pub const CS_OWNDC: u32 = 0x0020;

pub const WS_OVERLAPPEDWINDOW: u32 = 0x00cf_0000;

/// Lets the system choose a window's position.
pub const CW_USEDEFAULT: i32 = -0x8000_0000;

pub const SW_HIDE: i32 = 0;

pub const SW_SHOW: i32 = 5;

pub const SWP_NOMOVE: u32 = 0x0002;

pub const SWP_NOZORDER: u32 = 0x0004;

pub const SWP_NOACTIVATE: u32 = 0x0010;

/// Keeps a held-down hotkey from repeating.
pub const MOD_NOREPEAT: u32 = 0x4000;

pub const IDC_ARROW: u16 = 32512;

pub const IDC_IBEAM: u16 = 32513;

pub const IDC_SIZEWE: u16 = 32644;

pub const IDC_SIZENS: u16 = 32645;

pub const IDC_SIZEALL: u16 = 32646;

pub const IDC_HAND: u16 = 32649;

} // verus!
