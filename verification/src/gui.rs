//! The state of the GUI thread: its connection, and the note that the next
//! `WM_CHAR` repeats a key press that was already reported.
use vstd::prelude::*;

use crate::connection::Connection;
use crate::connection::Registry;
use crate::connection::WindowInner;
use crate::text::append_decimal;

verus! {

/// The state of the GUI thread.
pub struct GuiThread<E> {
    connection: Option<Connection<E>>,
    swallow_next_char: bool,
}

/// The contents of a `GuiThread`.
pub struct GuiState<E> {
    /// The registered windows, once the thread has a connection.
    pub connection: Option<Registry<E>>,
    /// The next `WM_CHAR` is a duplicate.
    pub swallow_next_char: bool,
}

impl<E> View for GuiThread<E> {
    type V = GuiState<E>;

    closed spec fn view(&self) -> GuiState<E> {
        GuiState {
            connection: match self.connection {
                Some(conn) => Some(conn@),
                None => None,
            },
            swallow_next_char: self.swallow_next_char,
        }
    }
}

impl<E> GuiState<E> {
    /// The window that an id names, where the thread is connected and the id is registered.
    pub open spec fn window(self, id: usize) -> Option<WindowInner<E>> {
        match self.connection {
            Some(registry) if registry.windows.contains_key(id) => Some(registry.windows[id]),
            _ => None,
        }
    }

    /// Of the windows that are registered, this is the first.
    pub open spec fn is_first(self, id: usize) -> bool {
        self.connection matches Some(registry) && registry.is_first(id)
    }

    /// The state after `inner` was put in the place of the registered window `id`.
    pub open spec fn with_window(self, id: usize, inner: WindowInner<E>) -> GuiState<E> {
        match self.connection {
            Some(registry) => GuiState {
                connection: Some(registry.with_window(id, inner)),
                ..self
            },
            None => self,
        }
    }

    /// The state after window `id` was forgotten.
    pub open spec fn without_window(self, id: usize) -> GuiState<E> {
        match self.connection {
            Some(registry) => GuiState {
                connection: Some(Registry { windows: registry.windows.remove(id), ..registry }),
                ..self
            },
            None => self,
        }
    }

    /// The registry of the thread, if there is one, is well formed.
    pub open spec fn well_formed(self) -> bool {
        self.connection matches Some(registry) ==> registry.well_formed()
    }
}

/// Why an operation on a registered window did not succeed.
#[derive(Debug, PartialEq, Eq)]
pub enum WindowInnerError<X> {
    /// The thread has no connection.
    NotInitialized,
    /// No window has this id.
    InvalidWindowId(usize),
    /// The operation itself failed.
    Failed(X),
}

impl<X> WindowInnerError<X> {
    /// The message of an error of the lookup; none for an error of the operation.
    pub fn message(&self) -> (text: Option<String>)
        ensures
            match *self {
                WindowInnerError::NotInitialized => text is Some && text->0@
                    == "window connection is not initialized"@,
                WindowInnerError::InvalidWindowId(id) => text is Some && text->0@
                    == "invalid window id "@ + crate::text::decimal(id as nat),
                WindowInnerError::Failed(_) => text is None,
            },
    {
        match self {
            WindowInnerError::NotInitialized => Some(
                "window connection is not initialized".to_owned(),
            ),
            WindowInnerError::InvalidWindowId(id) => {
                let mut text = "invalid window id ".to_owned();
                append_decimal(&mut text, *id);
                Some(text)
            },
            WindowInnerError::Failed(_) => None,
        }
    }
}

impl<E> GuiThread<E> {
    /// A thread that has no connection yet.
    pub fn new() -> (gui: GuiThread<E>)
        ensures
            gui@ == (GuiState::<E> { connection: None, swallow_next_char: false }),
    {
        GuiThread { connection: None, swallow_next_char: false }
    }

    /// Gives the thread its connection.
    pub fn connect(&mut self, connection: Connection<E>)
        ensures
            final(self)@ == (GuiState { connection: Some(connection@), ..old(self)@ }),
    {
        self.connection = Some(connection);
    }

    /// Takes the connection from the thread.
    pub fn disconnect(&mut self) -> (conn: Option<Connection<E>>)
        ensures
            conn is Some <==> old(self)@.connection is Some,
            conn matches Some(c) ==> old(self)@.connection == Some(c@),
            final(self)@ == (GuiState { connection: None, ..old(self)@ }),
    {
        self.connection.take()
    }

    /// The connection of the thread.
    pub fn connection(&self) -> (conn: Option<&Connection<E>>)
        ensures
            conn is Some <==> self@.connection is Some,
            conn matches Some(c) ==> self@.connection == Some(c@),
    {
        self.connection.as_ref()
    }

    /// Whether the next `WM_CHAR` is a duplicate.
    pub fn swallows_next_char(&self) -> (swallow: bool)
        ensures
            swallow == self@.swallow_next_char,
    {
        self.swallow_next_char
    }

    /// Notes whether the next `WM_CHAR` is a duplicate, and tells what was noted before.
    pub fn replace_swallow(&mut self, swallow: bool) -> (before: bool)
        ensures
            before == old(self)@.swallow_next_char,
            final(self)@ == (GuiState { swallow_next_char: swallow, ..old(self)@ }),
    {
        let before = self.swallow_next_char;
        self.swallow_next_char = swallow;
        before
    }

    /// The window that an id names.
    pub fn window(&self, id: usize) -> (inner: Option<&WindowInner<E>>)
        ensures
            inner is Some <==> self@.window(id) is Some,
            inner matches Some(w) ==> self@.window(id) == Some(*w),
            inner is Some <==> (self@.connection is Some
                && self@.connection->0.windows.contains_key(id)),
            inner matches Some(w) ==> *w == self@.connection->0.windows[id],
    {
        match &self.connection {
            Some(conn) => conn.window_by_id(id),
            None => None,
        }
    }

    /// The native handle of the first window, if there is one.
    pub fn main_window(&self) -> (hwnd: Option<isize>)
        ensures
            hwnd is None <==> forall|id: usize| #[trigger] self@.window(id) is None,
            hwnd matches Some(h) ==> exists|id: usize| #[trigger]
                self@.is_first(id) && self@.window(id)->0.hwnd == h,
            hwnd matches Some(h) ==> exists|id: usize| #[trigger]
                self@.window(id) is Some && self@.window(id)->0.hwnd == h && forall|other: usize|
                    #[trigger] self@.window(other) is Some ==> id <= other,
    {
        match &self.connection {
            None => None,
            Some(conn) => match conn.first_window() {
                None => {
                    assert(forall|id: usize| #[trigger] self@.window(id) is None);
                    None
                },
                Some(id) => {
                    assert(self@.is_first(id));
                    assert(self@.window(id) is Some);
                    match conn.window_by_id(id) {
                        Some(inner) => Some(inner.hwnd),
                        None => None,
                    }
                },
            },
        }
    }

    /// Runs `f` on the window with this id. `f` gets the window and gives back
    /// what it becomes, with its result.
    pub fn with_window_inner<R, X, F>(&mut self, window_id: usize, f: F) -> (result: Result<
        R,
        WindowInnerError<X>,
    >) where F: FnOnce(WindowInner<E>) -> (WindowInner<E>, Result<R, X>)
        requires
            old(self)@.window(window_id) matches Some(w) ==> f.requires((w,)),
        ensures
            old(self)@.connection is None ==> result == Err::<R, _>(
                WindowInnerError::<X>::NotInitialized,
            ) && final(self)@ == old(self)@,
            old(self)@.connection is Some && old(self)@.window(window_id) is None ==> result == Err::<
                R,
                _,
            >(WindowInnerError::<X>::InvalidWindowId(window_id)) && final(self)@ == old(self)@,
            old(self)@.window(window_id) matches Some(w) ==> exists|after: WindowInner<E>, r: Result<R, X>|
                {
                    &&& #[trigger] f.ensures((w,), (after, r))
                    &&& final(self)@ == old(self)@.with_window(window_id, after)
                    &&& match r {
                        Ok(value) => result == Ok::<R, WindowInnerError<X>>(value),
                        Err(e) => result == Err::<R, _>(WindowInnerError::Failed(e)),
                    }
                },
    {
        match self.connection.take() {
            None => Err(WindowInnerError::NotInitialized),
            Some(mut conn) => {
                let ghost before = conn@;
                let result = match conn.remove(window_id) {
                    None => {
                        proof {
                            assert(before.windows.remove(window_id) =~= before.windows);
                        }
                        Err(WindowInnerError::InvalidWindowId(window_id))
                    },
                    Some(inner) => {
                        let (after, r) = f(inner);
                        conn.insert(window_id, after);
                        proof {
                            assert(before.windows.remove(window_id).insert(window_id, after)
                                =~= before.windows.insert(window_id, after));
                        }
                        match r {
                            Ok(value) => Ok(value),
                            Err(e) => Err(WindowInnerError::Failed(e)),
                        }
                    },
                };
                self.connection = Some(conn);
                result
            },
        }
    }
}

/// A window is found if and only if the thread is connected and the id is
/// registered, and it is the one that is registered under that id.
pub proof fn law_windows_are_found_by_id<E>(state: GuiState<E>, id: usize)
    ensures
        state.window(id) is Some <==> (state.connection is Some
            && state.connection->0.windows.contains_key(id)),
        state.window(id) is Some ==> state.window(id)->0 == state.connection->0.windows[id],
{
}

/// Putting a window in its place changes that window alone; forgetting a window
/// leaves all others. Neither touches the counter of ids or the note on duplicates.
pub proof fn law_changes_are_of_one_window<E>(
    state: GuiState<E>,
    id: usize,
    inner: WindowInner<E>,
    other: usize,
)
    requires
        state.connection is Some,
    ensures
        state.with_window(id, inner).window(id) == Some(inner),
        other != id ==> state.with_window(id, inner).window(other) == state.window(other),
        state.with_window(id, inner).connection is Some,
        state.with_window(id, inner).connection->0.next_window_id
            == state.connection->0.next_window_id,
        state.with_window(id, inner).swallow_next_char == state.swallow_next_char,
        state.without_window(id).window(id) is None,
        other != id ==> state.without_window(id).window(other) == state.window(other),
        state.without_window(id).connection is Some,
        state.without_window(id).connection->0.next_window_id
            == state.connection->0.next_window_id,
        state.without_window(id).swallow_next_char == state.swallow_next_char,
{
}

/// The first window is found, and no window that is found has a smaller id.
pub proof fn law_main_window_has_the_smallest_id<E>(state: GuiState<E>, id: usize, other: usize)
    requires
        state.is_first(id),
    ensures
        state.window(id) is Some,
        state.window(other) is Some ==> id <= other,
{
}


} // verus!
