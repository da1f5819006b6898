# kaku_win32

The core of a win32 window backend, verified with Verus, and the backend
around it.

`src/` decides. It translates keys and mouse messages, keeps the registry of
windows, answers native messages, steps the message loop, and lays out the calls
that read and write the clipboard, register the global hotkey and create or
resize a window. Nothing in it calls the system: a function takes what earlier
calls returned and says which calls come next, with which arguments.

| module | what it decides |
| --- | --- |
| `utf16`, `text`, `letters`, `words` | text, letters and numbers in native form |
| `input`, `keycodes` | events, keys, modifiers, mouse buttons |
| `connection`, `gui` | the registered windows and the state of the GUI thread |
| `window` | operations on a window, its creation and its raw handle |
| `wnd_proc` | the answer to each native message |
| `message_loop` | the order of queued work, messages and sleep |
| `clipboard` | the calls of a clipboard read or write |
| `hotkey`, `screen`, `system`, `event`, `toast` | the rest of the system |
| `window_laws`, `history_laws`, `clipboard_laws` | what holds over several calls |

`app/` acts. `calls.rs` names the system calls, `win32.rs` makes them on Windows,
and the other files carry out what `src/` decides.

`tests/` runs the core on concrete values.
