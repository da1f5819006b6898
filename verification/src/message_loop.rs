//! The message loop of the GUI thread.
//!
//! Each pass runs the work that other threads queued, takes all pending
//! messages, runs the work that those queued, and sleeps until there is a
//! message or more work. The loop tells its caller one action at a time and
//! hears what came of it.
use vstd::prelude::*;

use crate::gui::GuiState;
use crate::gui::GuiThread;
use crate::win32::WM_HOTKEY;
use crate::win32::WM_QUIT;

verus! {

/// What the message loop does next.
#[derive(Debug, Clone, Copy, PartialEq, Eq, Structural)]
pub enum LoopAction {
    /// Run the work that other threads queued.
    RunSpawnQueue,
    /// Take a pending message, if there is one.
    PeekMessage,
    /// Toggle the main window, for the global hotkey.
    ToggleMainWindow,
    /// Have the taken message translated into characters.
    TranslateMessage,
    /// Hand the taken message to its window procedure.
    DispatchMessage,
    /// Run the work that was queued while messages were dispatched.
    RunSpawnQueueAgain,
    /// Sleep until there is a message or queued work.
    Wait,
    /// Leave the loop.
    Return,
}

/// The action after `action`, where `peeked` is the number of the message that
/// was taken, if `action` was to take one.
pub open spec fn action_after(action: LoopAction, peeked: Option<u32>) -> LoopAction {
    match action {
        LoopAction::RunSpawnQueue => LoopAction::PeekMessage,
        LoopAction::PeekMessage => match peeked {
            Some(msg) => if msg == WM_QUIT {
                LoopAction::Return
            } else if msg == WM_HOTKEY {
                LoopAction::ToggleMainWindow
            } else {
                LoopAction::TranslateMessage
            },
            None => LoopAction::RunSpawnQueueAgain,
        },
        LoopAction::ToggleMainWindow => LoopAction::PeekMessage,
        LoopAction::TranslateMessage => LoopAction::DispatchMessage,
        LoopAction::DispatchMessage => LoopAction::PeekMessage,
        LoopAction::RunSpawnQueueAgain => LoopAction::Wait,
        LoopAction::Wait => LoopAction::RunSpawnQueue,
        LoopAction::Return => LoopAction::Return,
    }
}

/// The action of a loop after its first actions came to these results.
pub open spec fn action_at(results: Seq<Option<u32>>) -> LoopAction
    decreases results.len(),
{
    if results.len() == 0 {
        LoopAction::RunSpawnQueue
    } else {
        action_after(action_at(results.drop_last()), results.last())
    }
}

/// A running message loop.
#[derive(Debug)]
pub struct MessageLoop {
    action: LoopAction,
}

impl View for MessageLoop {
    type V = LoopAction;

    closed spec fn view(&self) -> LoopAction {
        self.action
    }
}

impl<E> GuiState<E> {
    /// The state in which every window is forgotten.
    pub open spec fn without_windows(self) -> GuiState<E> {
        match self.connection {
            Some(registry) => GuiState {
                connection: Some(
                    crate::connection::Registry { windows: Map::empty(), ..registry },
                ),
                ..self
            },
            None => self,
        }
    }
}

impl MessageLoop {
    /// A loop at its start.
    pub fn new() -> (l: MessageLoop)
        ensures
            l@ == action_at(seq![]),
    {
        MessageLoop { action: LoopAction::RunSpawnQueue }
    }

    /// What to do next.
    pub fn action(&self) -> (action: LoopAction)
        ensures
            action == self@,
    {
        self.action
    }

    /// Goes on after the current action. `peeked` is the number of the message
    /// that was taken, where the action was to take one. Every window is
    /// forgotten when the message is the one that ends the loop.
    pub fn run_message_loop<E>(&mut self, gui: &mut GuiThread<E>, peeked: Option<u32>)
        ensures
            final(self)@ == action_after(old(self)@, peeked),
            final(gui)@ == (if old(self)@ == LoopAction::PeekMessage && peeked == Some(WM_QUIT) {
                old(gui)@.without_windows()
            } else {
                old(gui)@
            }),
    {
        self.action = match self.action {
            LoopAction::RunSpawnQueue => LoopAction::PeekMessage,
            LoopAction::PeekMessage => match peeked {
                Some(msg) => if msg == WM_QUIT {
                    if let Some(mut conn) = gui.disconnect() {
                        conn.clear();
                        gui.connect(conn);
                    }
                    LoopAction::Return
                } else if msg == WM_HOTKEY {
                    LoopAction::ToggleMainWindow
                } else {
                    LoopAction::TranslateMessage
                },
                None => LoopAction::RunSpawnQueueAgain,
            },
            LoopAction::ToggleMainWindow => LoopAction::PeekMessage,
            LoopAction::TranslateMessage => LoopAction::DispatchMessage,
            LoopAction::DispatchMessage => LoopAction::PeekMessage,
            LoopAction::RunSpawnQueueAgain => LoopAction::Wait,
            LoopAction::Wait => LoopAction::RunSpawnQueue,
            LoopAction::Return => LoopAction::Return,
        };
    }
}

/// The loop sleeps only when nothing is pending: right before, it found no
/// message to take and then ran the queued work.
pub proof fn law_waits_only_when_idle(results: Seq<Option<u32>>)
    requires
        action_at(results) == LoopAction::Wait,
    ensures
        results.len() >= 2,
        action_at(results.drop_last()) == LoopAction::RunSpawnQueueAgain,
        action_at(results.drop_last().drop_last()) == LoopAction::PeekMessage,
        results[results.len() - 2] is None,
{
    let before = results.drop_last();
    reveal_with_fuel(action_at, 3);
    assert(before.last() == results[results.len() - 2]);
}

/// The queued work runs after every sleep, before the first message is taken.
pub proof fn law_queue_runs_after_waiting(results: Seq<Option<u32>>, one: Option<u32>, two: Option<u32>)
    requires
        action_at(results) == LoopAction::Wait,
    ensures
        action_at(results.push(one)) == LoopAction::RunSpawnQueue,
        action_at(results.push(one).push(two)) == LoopAction::PeekMessage,
{
    assert(results.push(one).drop_last() =~= results);
    assert(results.push(one).push(two).drop_last() =~= results.push(one));
}

/// Every message that was taken, but for the two that the loop handles itself,
/// is translated, then dispatched, before the next one is taken.
pub proof fn law_messages_are_translated_then_dispatched(
    results: Seq<Option<u32>>,
    msg: u32,
    one: Option<u32>,
    two: Option<u32>,
)
    requires
        action_at(results) == LoopAction::PeekMessage,
        msg != WM_QUIT,
        msg != WM_HOTKEY,
    ensures
        action_at(results.push(Some(msg))) == LoopAction::TranslateMessage,
        action_at(results.push(Some(msg)).push(one)) == LoopAction::DispatchMessage,
        action_at(results.push(Some(msg)).push(one).push(two)) == LoopAction::PeekMessage,
{
    let r1 = results.push(Some(msg));
    let r2 = r1.push(one);
    assert(r1.drop_last() =~= results);
    assert(r2.drop_last() =~= r1);
    assert(r2.push(two).drop_last() =~= r2);
}

/// A hotkey message toggles the main window and reaches no window procedure:
/// the next message is taken right after.
pub proof fn law_hotkey_toggles(results: Seq<Option<u32>>, one: Option<u32>)
    requires
        action_at(results) == LoopAction::PeekMessage,
    ensures
        action_at(results.push(Some(WM_HOTKEY))) == LoopAction::ToggleMainWindow,
        action_at(results.push(Some(WM_HOTKEY)).push(one)) == LoopAction::PeekMessage,
{
    let r1 = results.push(Some(WM_HOTKEY));
    assert(r1.drop_last() =~= results);
    assert(r1.push(one).drop_last() =~= r1);
}

/// The action with number `i` takes the message that ends the loop.
pub open spec fn takes_quit(results: Seq<Option<u32>>, i: int) -> bool {
    &&& 0 <= i < results.len()
    &&& action_at(results.take(i)) == LoopAction::PeekMessage
    &&& results[i] == Some(WM_QUIT)
}

/// The loop is left if and only if the message that ends it was taken.
pub proof fn law_only_quit_ends_the_loop(results: Seq<Option<u32>>)
    ensures
        action_at(results) == LoopAction::Return <==> exists|i: int| #[trigger]
            takes_quit(results, i),
    decreases results.len(),
{
    if results.len() > 0 {
        let before = results.drop_last();
        let last = results.len() - 1;
        law_only_quit_ends_the_loop(before);
        assert(results.take(last) =~= before);
        assert forall|i: int| i < last implies #[trigger] takes_quit(results, i) == takes_quit(
            before,
            i,
        ) by {
            if 0 <= i {
                assert(results.take(i) =~= before.take(i));
            }
        }
        if action_at(before) == LoopAction::Return {
            let i = choose|i: int| #[trigger] takes_quit(before, i);
            assert(takes_quit(results, i));
        } else if action_at(results) == LoopAction::Return {
            assert(takes_quit(results, last));
        } else {
            assert forall|i: int| !(#[trigger] takes_quit(results, i)) by {
                if takes_quit(results, i) {
                    assert(i < last ==> takes_quit(before, i));
                }
            }
        }
    } else {
        assert(forall|i: int| !(#[trigger] takes_quit(results, i)));
    }
}

/// The loop starts with the queued work and then takes messages.
pub proof fn law_loop_starts_with_the_queue(one: Option<u32>)
    ensures
        action_at(Seq::empty()) == LoopAction::RunSpawnQueue,
        action_at(Seq::empty().push(one)) == LoopAction::PeekMessage,
{
    reveal_with_fuel(action_at, 2);
    assert(Seq::<Option<u32>>::empty().push(one).drop_last() =~= Seq::empty());
}

/// The loop comes to sleep: once there is no message to take, it runs the queued
/// work once more and then sleeps, whatever came of that work.
pub proof fn law_idle_loop_sleeps(results: Seq<Option<u32>>, one: Option<u32>)
    requires
        action_at(results) == LoopAction::PeekMessage,
    ensures
        action_at(results.push(None)) == LoopAction::RunSpawnQueueAgain,
        action_at(results.push(None).push(one)) == LoopAction::Wait,
{
    let r1 = results.push(None);
    assert(r1.drop_last() =~= results);
    assert(r1.push(one).drop_last() =~= r1);
}

/// The message that ends the loop ends it at once, and the loop stays ended.
pub proof fn law_quit_ends_the_loop_at_once(results: Seq<Option<u32>>, later: Seq<Option<u32>>)
    requires
        action_at(results) == LoopAction::PeekMessage,
    ensures
        action_at(results.push(Some(0x0012)) + later) == LoopAction::Return,
    decreases later.len(),
{
    let ended = results.push(Some(0x0012));
    if later.len() == 0 {
        assert(ended + later =~= ended);
        assert(ended.drop_last() =~= results);
    } else {
        law_quit_ends_the_loop_at_once(results, later.drop_last());
        assert((ended + later).drop_last() =~= ended + later.drop_last());
    }
}

/// Each action has one cause. The first run of the queue comes after a sleep, the
/// second when there is no message, and the sleep right after it; the main window is
/// toggled for the hotkey alone, and only a message that was taken is translated and
/// then dispatched.
pub proof fn law_each_action_has_its_cause(
    results: Seq<Option<u32>>,
    one: Option<u32>,
)
    ensures
        action_at(results.push(one)) == LoopAction::RunSpawnQueue <==> action_at(results)
            == LoopAction::Wait,
        action_at(results.push(one)) == LoopAction::RunSpawnQueueAgain <==> (action_at(results)
            == LoopAction::PeekMessage && one is None),
        action_at(results.push(one)) == LoopAction::ToggleMainWindow <==> (action_at(results)
            == LoopAction::PeekMessage && one == Some(0x0312u32)),
        action_at(results.push(one)) == LoopAction::TranslateMessage <==> (action_at(results)
            == LoopAction::PeekMessage && one is Some && one != Some(0x0012u32) && one
            != Some(0x0312u32)),
        action_at(results.push(one)) == LoopAction::DispatchMessage <==> action_at(results)
            == LoopAction::TranslateMessage,
        action_at(results.push(one)) == LoopAction::Wait <==> action_at(results)
            == LoopAction::RunSpawnQueueAgain,
{
    assert(results.push(one).drop_last() =~= results);
}

/// Forgetting every window leaves the thread connected, and the counter of ids and
/// the note on duplicates as they were.
pub proof fn law_quit_forgets_the_windows_alone<E>(state: GuiState<E>, id: usize)
    ensures
        state.without_windows().window(id) is None,
        state.without_windows().connection is Some <==> state.connection is Some,
        state.connection is Some ==> state.without_windows().connection->0.next_window_id
            == state.connection->0.next_window_id,
        state.without_windows().swallow_next_char == state.swallow_next_char,
{
}


} // verus!
