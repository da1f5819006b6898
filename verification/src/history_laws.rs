//! What holds of the windows of a GUI thread over its whole history.
//!
//! The delivery of an event, and most calls of the system, may re-enter the window
//! procedure. So a history knows, beside messages that are answered in one go,
//! the reading of a message and each of its actions as steps of their own, between
//! which anything else may come.
use vstd::prelude::*;

use crate::connection::WindowInner;
use crate::gui::GuiState;
use crate::input::KeyCode;
use crate::input::KeyEvent;
use crate::input::KeyboardLedStatus;
use crate::input::Modifiers;
use crate::input::MouseCursor;
use crate::input::WindowEvent;
use crate::keycodes::KeyStates;
use crate::win32::HTCLIENT;
use crate::win32::WM_CHAR;
use crate::win32::WM_DESTROY;
use crate::win32::WM_SETCURSOR;
use crate::window::ResolvedGeometry;
use crate::window_laws::is_combination;
use crate::window_laws::law_duplicate_note;
use crate::window_laws::law_messages_keep_registry_well_formed;
use crate::window_laws::law_messages_keep_the_counter;
use crate::window_laws::law_other_windows_are_untouched;
use crate::window_laws::law_what_messages_change;
use crate::window_laws::lemma_after_message;
use crate::wnd_proc::Action;
use crate::wnd_proc::Message;
use crate::wnd_proc::Outcome;

verus! {

/// What changes the windows of a connected GUI thread.
pub enum GuiStep<E> {
    /// `Window::new_window` was called.
    Create { hwnd: isize, geometry: ResolvedGeometry, dpi: usize, events: E },
    /// A message was answered, and its actions were carried out, with nothing
    /// in between.
    Answer { id: usize, m: Message, keys: KeyStates, mapped: u32 },
    /// A message was read: `GuiThread::wnd_proc` was called.
    Read { id: usize, m: Message },
    /// One action was carried out: `GuiThread::perform` was called.
    Act { id: usize, action: Action },
    /// An operation on a registered window made this of it:
    /// `GuiThread::with_window_inner` was called.
    Update { id: usize, inner: WindowInner<E> },
    /// `Window::set_cursor` was called.
    SetCursor { id: usize, cursor: Option<MouseCursor> },
    /// The message loop was told to quit.
    Quit,
}

impl<E> GuiState<E> {
    /// The state after one step.
    pub open spec fn after_step(self, step: GuiStep<E>) -> GuiState<E> {
        match step {
            GuiStep::Create { hwnd, geometry, dpi, events } => if hwnd == 0 {
                self
            } else {
                self.with_new_window(hwnd, geometry, dpi, events)
            },
            GuiStep::Answer { id, m, keys, mapped } => self.after_message(id, m, keys, mapped),
            GuiStep::Read { id, m } => self.after_read(id, m),
            GuiStep::Act { id, action } => self.after_action(id, action),
            GuiStep::Update { id, inner } => match self.window(id) {
                Some(_) => self.with_window(id, inner),
                None => self,
            },
            GuiStep::SetCursor { id, cursor } => match self.window(id) {
                Some(inner) => self.with_window(id, WindowInner { cursor, ..inner }),
                None => self,
            },
            GuiStep::Quit => self.without_windows(),
        }
    }

    /// The state after some steps, in their order.
    pub open spec fn after_steps(self, steps: Seq<GuiStep<E>>) -> GuiState<E>
        decreases steps.len(),
    {
        if steps.len() == 0 {
            self
        } else {
            self.after_step(steps[0]).after_steps(steps.drop_first())
        }
    }

    /// Every registered id is nonzero and was handed out before. This is the
    /// part of well-formedness that no operation on a window can break.
    pub open spec fn ids_are_counted(self) -> bool {
        self.connection matches Some(registry) ==> {
            &&& registry.next_window_id > 0
            &&& forall|id: usize| #[trigger]
                registry.windows.contains_key(id) ==> 0 < id < registry.next_window_id
        }
    }

    /// The counter of ids does not reach its end in these steps.
    pub open spec fn has_ids_for(self, steps: Seq<GuiStep<E>>) -> bool {
        self.connection matches Some(registry) && registry.next_window_id + creations(steps)
            <= usize::MAX
    }
}

/// How many of the steps create a window.
pub open spec fn creations<E>(steps: Seq<GuiStep<E>>) -> nat
    decreases steps.len(),
{
    if steps.len() == 0 {
        0
    } else {
        let here: nat = if steps[0] is Create {
            1
        } else {
            0
        };
        here + creations(steps.drop_first())
    }
}

/// A step that leaves the window's own id and a native handle in it. Only an
/// operation on a window could do otherwise.
pub open spec fn keeps_names<E>(step: GuiStep<E>) -> bool {
    step matches GuiStep::Update { id, inner } ==> inner.window_id == id && inner.hwnd != 0
}

/// A step after which this window, if it had this pointer shape, still has it.
pub open spec fn leaves_cursor<E>(
    step: GuiStep<E>,
    window_id: usize,
    shape: Option<MouseCursor>,
) -> bool {
    match step {
        GuiStep::Create { .. } => true,
        GuiStep::Answer { id, m, .. } => id != window_id || m.msg != WM_DESTROY,
        GuiStep::Read { .. } => true,
        GuiStep::Act { id, action } => id != window_id || action != Action::Forget,
        GuiStep::Update { id, inner } => id != window_id || inner.cursor == shape,
        GuiStep::SetCursor { id, cursor } => id != window_id || cursor == shape,
        GuiStep::Quit => false,
    }
}

/// A step that reads a `WM_CHAR`.
pub open spec fn reads_char<E>(step: GuiStep<E>) -> bool {
    match step {
        GuiStep::Answer { m, .. } => m.msg == WM_CHAR,
        GuiStep::Read { m, .. } => m.msg == WM_CHAR,
        _ => false,
    }
}

/// A step that notes that the next `WM_CHAR` is a duplicate.
pub open spec fn notes_duplicate<E>(step: GuiStep<E>) -> bool {
    match step {
        GuiStep::Answer { m, keys, mapped, .. } => is_combination(m, keys, mapped),
        GuiStep::Act { action, .. } => action == Action::SwallowNextChar,
        _ => false,
    }
}

/// One step keeps the ids counted and never takes the counter back.
proof fn lemma_step<E>(state: GuiState<E>, steps: Seq<GuiStep<E>>)
    requires
        state.ids_are_counted(),
        steps.len() > 0,
        state.has_ids_for(steps),
    ensures
        state.after_step(steps[0]).ids_are_counted(),
        state.after_step(steps[0]).has_ids_for(steps.drop_first()),
        state.connection->0.next_window_id <= state.after_step(
            steps[0],
        ).connection->0.next_window_id,
{
    if let GuiStep::Answer { id, m, keys, mapped } = steps[0] {
        let after = state.after_step(steps[0]);
        law_messages_keep_the_counter(state, id, m, keys, mapped);
        assert forall|other: usize| #[trigger]
            after.connection->0.windows.contains_key(other) implies state.window(other) is Some by {
            lemma_messages_register_nothing(state, id, m, keys, mapped, other);
        }
    }
}

/// A message registers no window.
proof fn lemma_messages_register_nothing<E>(
    state: GuiState<E>,
    id: usize,
    m: Message,
    keys: KeyStates,
    mapped: u32,
    other: usize,
)
    ensures
        state.window(other) is None ==> state.after_message(id, m, keys, mapped).window(
            other,
        ) is None,
{
    if other == id {
        law_what_messages_change(state, id, m, keys, mapped);
    } else {
        law_other_windows_are_untouched(state, id, other, m, keys, mapped);
    }
}

/// One step never brings back an id that was handed out and is no longer registered.
proof fn lemma_step_brings_nothing_back<E>(state: GuiState<E>, step: GuiStep<E>, id: usize)
    requires
        state.connection is Some,
        id < state.connection->0.next_window_id,
        state.window(id) is None,
    ensures
        state.after_step(step).window(id) is None,
{
    if let GuiStep::Answer { id: to, m, keys, mapped } = step {
        lemma_messages_register_nothing(state, to, m, keys, mapped, id);
    }
}

/// One step keeps a pointer shape that it leaves.
proof fn lemma_step_keeps_cursor<E>(state: GuiState<E>, step: GuiStep<E>, id: usize)
    requires
        state.ids_are_counted(),
        state.window(id) is Some,
        leaves_cursor(step, id, state.window(id)->0.cursor),
    ensures
        state.after_step(step).window(id) is Some,
        state.after_step(step).window(id)->0.cursor == state.window(id)->0.cursor,
{
    if let GuiStep::Answer { id: to, m, keys, mapped } = step {
        if to == id {
            law_what_messages_change(state, id, m, keys, mapped);
        } else {
            law_other_windows_are_untouched(state, to, id, m, keys, mapped);
        }
    }
}

/// One step changes the note on duplicates only by making it or by reading a `WM_CHAR`.
proof fn lemma_step_and_note<E>(state: GuiState<E>, step: GuiStep<E>)
    ensures
        state.swallow_next_char && !reads_char(step) ==> state.after_step(step).swallow_next_char,
        !state.swallow_next_char && !notes_duplicate(step) ==> !state.after_step(
            step,
        ).swallow_next_char,
{
    if let GuiStep::Answer { id, m, keys, mapped } = step {
        law_duplicate_note(state, id, m, keys, mapped);
    }
}

/// Whatever happens, and in whatever order, the thread stays connected, every
/// registered id was handed out before, and the counter of ids never goes back.
pub proof fn law_ids_stay_counted<E>(state: GuiState<E>, steps: Seq<GuiStep<E>>)
    requires
        state.ids_are_counted(),
        state.has_ids_for(steps),
    ensures
        state.after_steps(steps).ids_are_counted(),
        state.after_steps(steps).connection is Some,
        state.connection->0.next_window_id <= state.after_steps(
            steps,
        ).connection->0.next_window_id,
    decreases steps.len(),
{
    if steps.len() > 0 {
        lemma_step(state, steps);
        law_ids_stay_counted(state.after_step(steps[0]), steps.drop_first());
    }
}

/// Whatever happens, and in whatever order, the registry stays well formed, as
/// long as operations on a window leave its id and a native handle in it.
pub proof fn law_registry_stays_well_formed<E>(state: GuiState<E>, steps: Seq<GuiStep<E>>)
    requires
        state.well_formed(),
        state.has_ids_for(steps),
        forall|i: int| 0 <= i < steps.len() ==> keeps_names(#[trigger] steps[i]),
    ensures
        state.after_steps(steps).well_formed(),
        state.after_steps(steps).connection is Some,
    decreases steps.len(),
{
    if steps.len() > 0 {
        lemma_step(state, steps);
        if let GuiStep::Answer { id, m, keys, mapped } = steps[0] {
            law_messages_keep_registry_well_formed(state, id, m, keys, mapped);
        }
        let rest = steps.drop_first();
        assert forall|i: int| 0 <= i < rest.len() implies keeps_names(#[trigger] rest[i]) by {
            assert(rest[i] == steps[i + 1]);
        }
        law_registry_stays_well_formed(state.after_step(steps[0]), rest);
    }
}

/// An id is handed out once: whatever happens after a window was created, the
/// next window gets a larger id, also where the first is long gone. The
/// counter of ids must not reach its end.
pub proof fn law_ids_are_handed_out_once<E>(
    state: GuiState<E>,
    hwnd: isize,
    geometry: ResolvedGeometry,
    dpi: usize,
    events: E,
    steps: Seq<GuiStep<E>>,
)
    requires
        state.ids_are_counted(),
        hwnd != 0,
        state.connection is Some,
        state.connection->0.next_window_id + 1 + creations(steps) <= usize::MAX,
    ensures
        ({
            let id = state.connection->0.next_window_id;
            let later = state.with_new_window(hwnd, geometry, dpi, events).after_steps(steps);
            later.connection is Some && later.connection->0.next_window_id > id
        }),
{
    let created = state.with_new_window(hwnd, geometry, dpi, events);
    law_ids_stay_counted(created, steps);
}

/// A window that is gone stays gone: its id, once handed out, never names a
/// window again, and every message for it is left to the system.
pub proof fn law_gone_windows_stay_gone<E>(
    state: GuiState<E>,
    steps: Seq<GuiStep<E>>,
    id: usize,
    m: Message,
    keys: KeyStates,
    mapped: u32,
)
    requires
        state.ids_are_counted(),
        state.has_ids_for(steps),
        id < state.connection->0.next_window_id,
        state.window(id) is None,
    ensures
        state.after_steps(steps).window(id) is None,
        state.after_steps(steps).answer(id, m, keys, mapped) == (
            Seq::<Action>::empty(),
            Outcome::Default,
        ),
    decreases steps.len(),
{
    if steps.len() > 0 {
        lemma_step(state, steps);
        lemma_step_brings_nothing_back(state, steps[0], id);
        law_gone_windows_stay_gone(
            state.after_step(steps[0]),
            steps.drop_first(),
            id,
            m,
            keys,
            mapped,
        );
    }
}

/// Once a window is destroyed, every message for it is left to the system,
/// whatever happened in between: while its `Destroyed` event was delivered, or
/// after it was forgotten.
pub proof fn law_destroyed_window_is_silent<E>(
    state: GuiState<E>,
    id: usize,
    destroy: Message,
    keys: KeyStates,
    mapped: u32,
    during: Seq<GuiStep<E>>,
    steps: Seq<GuiStep<E>>,
    m: Message,
    later_keys: KeyStates,
    later_mapped: u32,
)
    requires
        state.ids_are_counted(),
        state.has_ids_for(during),
        state.window(id) is Some,
        destroy.msg == WM_DESTROY,
        state.after_steps(during).has_ids_for(steps),
    ensures
        state.answer(id, destroy, keys, mapped) == (
            seq![Action::Dispatch(WindowEvent::Destroyed), Action::Forget],
            Outcome::Return(0),
        ),
        state.after_message(id, destroy, keys, mapped) == state.after_action(id, Action::Forget),
        state.after_steps(during).after_action(id, Action::Forget).after_steps(steps).answer(
            id,
            m,
            later_keys,
            later_mapped,
        ) == (Seq::<Action>::empty(), Outcome::Default),
{
    lemma_after_message(state, id, destroy, keys, mapped);
    law_ids_stay_counted(state, during);
    let forgotten = state.after_steps(during).after_action(id, Action::Forget);
    law_gone_windows_stay_gone(forgotten, steps, id, m, later_keys, later_mapped);
}

/// The pointer shape of a window stays until it is set again or the window is gone.
pub proof fn law_cursor_is_kept<E>(state: GuiState<E>, steps: Seq<GuiStep<E>>, id: usize)
    requires
        state.ids_are_counted(),
        state.has_ids_for(steps),
        state.window(id) is Some,
        forall|i: int|
            0 <= i < steps.len() ==> leaves_cursor(
                #[trigger] steps[i],
                id,
                state.window(id)->0.cursor,
            ),
    ensures
        state.after_steps(steps).window(id) is Some,
        state.after_steps(steps).window(id)->0.cursor == state.window(id)->0.cursor,
    decreases steps.len(),
{
    if steps.len() > 0 {
        lemma_step(state, steps);
        lemma_step_keeps_cursor(state, steps[0], id);
        let rest = steps.drop_first();
        assert forall|i: int| 0 <= i < rest.len() implies leaves_cursor(
            #[trigger] rest[i],
            id,
            state.window(id)->0.cursor,
        ) by {
            assert(rest[i] == steps[i + 1]);
        }
        law_cursor_is_kept(state.after_step(steps[0]), rest, id);
    }
}

/// The pointer shape that was set for a window is shown again when the pointer
/// moves over its client area, whatever happened in between, as long as the
/// window is there and no other shape was set for it.
pub proof fn law_cursor_is_shown_again<E>(
    state: GuiState<E>,
    id: usize,
    cursor: Option<MouseCursor>,
    steps: Seq<GuiStep<E>>,
    m: Message,
    keys: KeyStates,
    mapped: u32,
)
    requires
        state.ids_are_counted(),
        state.has_ids_for(steps),
        state.window(id) is Some,
        forall|i: int| 0 <= i < steps.len() ==> leaves_cursor(#[trigger] steps[i], id, cursor),
        m.msg == WM_SETCURSOR,
        crate::words::low_word(m.lparam as int) == HTCLIENT,
    ensures
        ({
            let set = state.with_window(id, WindowInner { cursor, ..state.window(id)->0 });
            set.after_steps(steps).answer(id, m, keys, mapped) == (
                seq![Action::ApplyCursor(crate::window::system_cursor(cursor))],
                Outcome::Return(1),
            )
        }),
{
    let set = state.with_window(id, WindowInner { cursor, ..state.window(id)->0 });
    assert(set.ids_are_counted());
    assert(set.window(id) == Some(WindowInner { cursor, ..state.window(id)->0 }));
    law_cursor_is_kept(set, steps, id);
    assert(id != 0);
}

/// The note that the next `WM_CHAR` is a duplicate stays until a `WM_CHAR` is read.
pub proof fn law_duplicate_note_lasts<E>(state: GuiState<E>, steps: Seq<GuiStep<E>>)
    requires
        state.swallow_next_char,
        forall|i: int| 0 <= i < steps.len() ==> !reads_char(#[trigger] steps[i]),
    ensures
        state.after_steps(steps).swallow_next_char,
    decreases steps.len(),
{
    if steps.len() > 0 {
        lemma_step_and_note(state, steps[0]);
        let rest = steps.drop_first();
        assert forall|i: int| 0 <= i < rest.len() implies !reads_char(#[trigger] rest[i]) by {
            assert(rest[i] == steps[i + 1]);
        }
        law_duplicate_note_lasts(state.after_step(steps[0]), rest);
    }
}

/// Without the note, none appears until a combination with Ctrl or Alt makes it.
pub proof fn law_duplicate_note_needs_a_combination<E>(state: GuiState<E>, steps: Seq<GuiStep<E>>)
    requires
        !state.swallow_next_char,
        forall|i: int| 0 <= i < steps.len() ==> !notes_duplicate(#[trigger] steps[i]),
    ensures
        !state.after_steps(steps).swallow_next_char,
    decreases steps.len(),
{
    if steps.len() > 0 {
        lemma_step_and_note(state, steps[0]);
        let rest = steps.drop_first();
        assert forall|i: int| 0 <= i < rest.len() implies !notes_duplicate(#[trigger] rest[i]) by {
            assert(rest[i] == steps[i + 1]);
        }
        law_duplicate_note_needs_a_combination(state.after_step(steps[0]), rest);
    }
}

/// A key press together with Ctrl or Alt reaches the key bindings once, with
/// its modifiers. The `WM_KEYDOWN` reports it and then notes that its `WM_CHAR` is
/// a duplicate; anything may happen while the event is delivered. The next
/// `WM_CHAR` for any window reports nothing, whatever happened before it. Every
/// `WM_CHAR` after that one is reported as usual, until there is another
/// combination.
pub proof fn law_combination_is_reported_once<E>(
    state: GuiState<E>,
    id: usize,
    key: Message,
    keys: KeyStates,
    mapped: u32,
    during: Seq<GuiStep<E>>,
    before: Seq<GuiStep<E>>,
    char_id: usize,
    duplicate: Message,
    between: Seq<GuiStep<E>>,
    next_id: usize,
    next: Message,
    char_keys: KeyStates,
    char_mapped: u32,
)
    requires
        state.routed(id) is Some,
        is_combination(key, keys, mapped),
        forall|i: int| 0 <= i < before.len() ==> !reads_char(#[trigger] before[i]),
        duplicate.msg == WM_CHAR,
        forall|i: int| 0 <= i < between.len() ==> !notes_duplicate(#[trigger] between[i]),
        next.msg == WM_CHAR,
    ensures
        ({
            let vk = crate::words::signed32(key.wparam as int);
            let noted = state.after_steps(during).after_action(id, Action::SwallowNextChar);
            let s1 = noted.after_steps(before);
            let s2 = s1.after_read(char_id, duplicate).after_steps(between);
            &&& state.answer(id, key, keys, mapped) == (
                seq![
                    Action::Dispatch(
                        WindowEvent::KeyEvent(
                            KeyEvent {
                                key: KeyCode::Char(crate::keycodes::char_of(vk, mapped)->0),
                                modifiers: Modifiers {
                                    shift: keys.shift < 0,
                                    ctrl: keys.control < 0,
                                    alt: keys.menu < 0,
                                    super_key: keys.left_win < 0 || keys.right_win < 0,
                                },
                                leds: KeyboardLedStatus { caps_lock: false, num_lock: false },
                                repeat_count: (key.lparam as int % 0x10000) as u16,
                                key_is_down: true,
                                raw: None,
                                win32_uni_char: None,
                            },
                        ),
                    ),
                    Action::SwallowNextChar,
                ],
                Outcome::Return(0),
            )
            &&& state.after_message(id, key, keys, mapped) == state.after_action(
                id,
                Action::SwallowNextChar,
            )
            &&& s1.routed(char_id) is Some ==> s1.answer(
                char_id,
                duplicate,
                char_keys,
                char_mapped,
            ) == (Seq::<Action>::empty(), Outcome::Return(0))
            &&& s1.routed(char_id) is Some && s2.routed(next_id) is Some ==> s2.answer(
                next_id,
                next,
                char_keys,
                char_mapped,
            ) == crate::wnd_proc::char_response(false, next.wparam)
        }),
{
    lemma_after_message(state, id, key, keys, mapped);
    let noted = state.after_steps(during).after_action(id, Action::SwallowNextChar);
    law_duplicate_note_lasts(noted, before);
    let s1 = noted.after_steps(before);
    if s1.routed(char_id) is Some {
        law_duplicate_note_needs_a_combination(s1.after_read(char_id, duplicate), between);
    }
}

/// There is one first window, and a new window does not take its place.
pub proof fn law_first_window_stays_first<E>(
    state: GuiState<E>,
    id: usize,
    other: usize,
    hwnd: isize,
    geometry: ResolvedGeometry,
    dpi: usize,
    events: E,
)
    requires
        state.ids_are_counted(),
        state.is_first(id),
    ensures
        state.is_first(other) ==> other == id,
        state.with_new_window(hwnd, geometry, dpi, events).is_first(id),
        state.with_new_window(hwnd, geometry, dpi, events).window(id) == state.window(id),
{
}

} // verus!
