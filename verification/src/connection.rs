//! The per-thread registry of windows.
//!
//! Window operations and messages name a window by its id. The GUI thread
//! looks the id up here, under the rules that ids are never zero (zero is what
//! a native window holds before it is registered) and never handed out twice.
use std::collections::HashMap;
use vstd::prelude::*;

use crate::input::Dimensions;
use crate::input::MouseCursor;

verus! {

broadcast use vstd::std_specs::hash::group_hash_axioms;

/// A registered window: its native handle, the sender of its events, and what
/// the backend remembers of it.
#[derive(Debug)]
pub struct WindowInner<E> {
    pub hwnd: isize,
    pub events: E,
    pub dimensions: Dimensions,
    /// The desired pointer shape, which is applied again whenever the pointer
    /// moves over the client area.
    pub cursor: Option<MouseCursor>,
    pub window_id: usize,
}

/// The windows of one GUI thread.
pub struct Connection<E> {
    windows: HashMap<usize, WindowInner<E>>,
    next_window_id: usize,
}

/// The contents of a `Connection`: the registered windows by id, and the id
/// that the next window gets.
pub struct Registry<E> {
    pub windows: Map<usize, WindowInner<E>>,
    pub next_window_id: usize,
}

impl<E> View for Connection<E> {
    type V = Registry<E>;

    closed spec fn view(&self) -> Registry<E> {
        Registry { windows: self.windows@, next_window_id: self.next_window_id }
    }
}

/// The id after `id`; the counter wraps at the end of its range.
pub open spec fn id_after(id: usize) -> usize {
    if id == usize::MAX {
        0
    } else {
        (id + 1) as usize
    }
}

impl<E> Registry<E> {
    /// Every registered id is nonzero, was handed out before, and is the one
    /// that its window holds; every registered window has a native handle.
    pub open spec fn well_formed(self) -> bool {
        &&& self.next_window_id > 0
        &&& forall|id: usize| #[trigger]
            self.windows.contains_key(id) ==> 0 < id < self.next_window_id
                && self.windows[id].window_id == id && self.windows[id].hwnd != 0
    }

    /// Of the windows that are registered, this is the first: ids count up, so
    /// it is the one with the smallest id.
    pub open spec fn is_first(self, id: usize) -> bool {
        &&& self.windows.contains_key(id)
        &&& forall|other: usize| #[trigger] self.windows.contains_key(other) ==> id <= other
    }

    /// The registry after `inner` was put in the place of window `id`.
    pub open spec fn with_window(self, id: usize, inner: WindowInner<E>) -> Registry<E> {
        Registry { windows: self.windows.insert(id, inner), ..self }
    }
}

impl<E> Connection<E> {
    /// A connection without windows; the first window gets id 1.
    pub fn create_new() -> (conn: Connection<E>)
        ensures
            conn@ == (Registry::<E> { windows: Map::empty(), next_window_id: 1 }),
            conn@.well_formed(),
    {
        Connection { windows: HashMap::new(), next_window_id: 1 }
    }

    /// Hands out the next window id.
    pub fn next_window_id(&mut self) -> (id: usize)
        ensures
            id == old(self)@.next_window_id,
            final(self)@ == (Registry { next_window_id: id_after(id), ..old(self)@ }),
            id < usize::MAX ==> final(self)@.next_window_id == id + 1,
            final(self)@.windows == old(self)@.windows,
    {
        let id: usize = self.next_window_id;
        self.next_window_id = id.wrapping_add(1);
        id
    }

    /// The window with this id.
    pub fn window_by_id(&self, window_id: usize) -> (inner: Option<&WindowInner<E>>)
        ensures
            inner is Some <==> self@.windows.contains_key(window_id),
            inner matches Some(w) ==> *w == self@.windows[window_id],
    {
        self.windows.get(&window_id)
    }

    /// Registers a window under `window_id`, in place of any other.
    pub fn insert(&mut self, window_id: usize, inner: WindowInner<E>)
        ensures
            final(self)@ == old(self)@.with_window(window_id, inner),
            final(self)@.windows == old(self)@.windows.insert(window_id, inner),
            final(self)@.next_window_id == old(self)@.next_window_id,
    {
        self.windows.insert(window_id, inner);
    }

    /// Forgets a window, and hands it back if it was registered.
    pub fn remove(&mut self, window_id: usize) -> (inner: Option<WindowInner<E>>)
        ensures
            final(self)@ == (Registry {
                windows: old(self)@.windows.remove(window_id),
                ..old(self)@
            }),
            inner is Some <==> old(self)@.windows.contains_key(window_id),
            inner matches Some(w) ==> w == old(self)@.windows[window_id],
    {
        self.windows.remove(&window_id)
    }

    /// Forgets every window.
    pub fn clear(&mut self)
        ensures
            final(self)@ == (Registry { windows: Map::empty(), ..old(self)@ }),
    {
        self.windows.clear();
    }

    /// The id of the first window, if there is one.
    pub fn first_window(&self) -> (id: Option<usize>)
        ensures
            id is None <==> self@.windows == Map::<usize, WindowInner<E>>::empty(),
            id matches Some(i) ==> self@.is_first(i),
            id matches Some(i) ==> self@.windows.contains_key(i) && forall|other: usize| #[trigger]
                self@.windows.contains_key(other) ==> i <= other,
    {
        let mut first: Option<usize> = None;
        for id in it: self.windows.keys()
            invariant
                it.seq().unref().to_set() == self.windows@.dom(),
                first is None <==> it.index() == 0,
                first matches Some(i) ==> self.windows@.contains_key(i),
                first matches Some(i) ==> forall|k: int|
                    0 <= k < it.index() ==> i <= *(#[trigger] it.seq()[k]),
        {
            assert(it.seq().unref().to_set().contains(*id));
            first = match first {
                Some(i) if i <= *id => Some(i),
                _ => Some(*id),
            };
        }
        proof {
            if first is None {
                assert(self.windows@ =~= Map::empty());
            }
        }
        first
    }
}

/// The first window is registered, and no registered window has a smaller id.
pub proof fn law_first_window_has_the_smallest_id<E>(registry: Registry<E>, id: usize, other: usize)
    requires
        registry.is_first(id),
    ensures
        registry.windows.contains_key(id),
        registry.windows.contains_key(other) ==> id <= other,
{
}

/// Where there is a window, one of them is the first.
pub proof fn law_smallest_id_is_first<E>(registry: Registry<E>, id: usize)
    requires
        registry.windows.contains_key(id),
        forall|other: usize| #[trigger] registry.windows.contains_key(other) ==> id <= other,
    ensures
        registry.is_first(id),
{
}

/// Ids count up by one, and start over at the end of their range.
pub proof fn law_ids_count_up(id: usize)
    ensures
        id < usize::MAX ==> id_after(id) == id + 1,
        id == usize::MAX ==> id_after(id) == 0,
{
}


} // verus!
