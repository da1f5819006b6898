[package]
name = "kaku_win32"
version = "0.1.0"
edition = "2021"
publish = false

[dependencies]
anyhow = "1"
euclid = "0.22"
log = "0.4"
raw-window-handle = "0.6"
winapi = { version = "0.3.9", features = ["errhandlingapi", "handleapi", "libloaderapi", "minwindef", "ntdef", "synchapi", "winbase", "windef", "winuser"] }
winreg = "0.10"
winrt-notification = "0.5"
