//! The verified core of a win32 window backend: key and mouse translation, the
//! window registry, the window procedure, the message loop, the clipboard and
//! what is asked of the system around them.
//!
//! Nothing here calls the system. The functions decide which calls are made,
//! with which arguments and in which order, from what earlier calls returned.

pub mod clipboard;
pub mod clipboard_laws;
pub mod connection;
pub mod event;
pub mod gui;
pub mod history_laws;
pub mod hotkey;
pub mod input;
pub mod keycodes;
pub mod letters;
pub mod message_loop;
pub mod report_laws;
pub mod screen;
pub mod system;
pub mod text;
pub mod toast;
pub mod utf16;
pub mod win32;
pub mod window;
pub mod window_laws;
pub mod wnd_proc;
pub mod words;
