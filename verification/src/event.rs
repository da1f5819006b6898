//! The event that wakes the message loop when another thread has queued work.
use vstd::prelude::*;

verus! {

/// The system created no event.
#[derive(Debug, Clone, Copy, PartialEq, Eq, Structural)]
pub struct EventNotCreated;

/// The arguments of the call that creates an event.
#[derive(Debug, Clone, Copy, PartialEq, Eq, Structural)]
pub struct EventRequest {
    /// Nonzero: the event stays signaled until it is reset.
    pub manual_reset: i32,
    /// Zero: the event starts out not signaled.
    pub initial_state: i32,
}

/// The arguments that create a manual-reset event that is not signaled.
pub open spec fn manual_reset_request() -> EventRequest {
    EventRequest { manual_reset: 1, initial_state: 0 }
}

/// A call on an event's native handle.
#[derive(Debug, Clone, Copy, PartialEq, Eq, Structural)]
pub enum EventCall {
    /// Signal the event, which wakes whoever waits on it.
    Signal(isize),
    /// Take the signal back.
    Unsignal(isize),
    /// Give the handle back to the system.
    Close(isize),
}

/// A manual-reset event object, by its native handle.
#[derive(Debug)]
pub struct EventHandle {
    handle: isize,
}

impl View for EventHandle {
    type V = isize;

    closed spec fn view(&self) -> isize {
        self.handle
    }
}

/// What can happen to an event between its creation and its end.
pub enum EventStep {
    /// A call was made.
    Called(EventCall),
    /// A wait on this native handle ended because its event was signaled.
    Waited(isize),
}

/// Whether the event with this native handle, which `request` created, is
/// signaled after `steps`. A signal makes it so and taking the signal back
/// undoes that; a wait does so only where the event is not a manual-reset one.
pub open spec fn is_signaled(request: EventRequest, handle: isize, steps: Seq<EventStep>) -> bool
    decreases steps.len(),
{
    if steps.len() == 0 {
        request.initial_state != 0
    } else {
        let before = is_signaled(request, handle, steps.drop_last());
        match steps.last() {
            EventStep::Called(EventCall::Signal(h)) if h == handle => true,
            EventStep::Called(EventCall::Unsignal(h)) if h == handle => false,
            EventStep::Waited(h) if h == handle => before && request.manual_reset != 0,
            _ => before,
        }
    }
}

impl EventHandle {
    /// The handle is never null.
    #[verifier::type_invariant]
    spec fn well_formed(self) -> bool {
        self.handle != 0
    }

    /// The arguments that create a manual-reset event that is not signaled.
    pub fn create_request() -> (request: EventRequest)
        ensures
            request == manual_reset_request(),
            request.manual_reset == 1,
            request.initial_state == 0,
    {
        EventRequest { manual_reset: 1, initial_state: 0 }
    }

    /// The event whose native handle the system returned; a null handle is
    /// the system's refusal to create one.
    pub fn new_manual_reset(created: isize) -> (event: Result<EventHandle, EventNotCreated>)
        ensures
            event is Ok <==> created != 0,
            event matches Ok(e) ==> e@ == created,
    {
        if created == 0 {
            Err(EventNotCreated)
        } else {
            Ok(EventHandle { handle: created })
        }
    }

    /// The native handle, for the calls that wait on the event.
    pub fn handle(&self) -> (handle: isize)
        ensures
            handle == self@,
            handle != 0,
    {
        proof {
            use_type_invariant(self);
        }
        self.handle
    }

    /// Signals the event, which wakes the message loop.
    pub fn set_event(&self) -> (call: EventCall)
        ensures
            call == EventCall::Signal(self@),
    {
        EventCall::Signal(self.handle)
    }

    /// Takes the signal back.
    pub fn reset_event(&self) -> (call: EventCall)
        ensures
            call == EventCall::Unsignal(self@),
    {
        EventCall::Unsignal(self.handle)
    }

    /// Gives the handle back to the system; the event is gone.
    pub fn close(self) -> (call: EventCall)
        ensures
            call == EventCall::Close(self@),
    {
        EventCall::Close(self.handle)
    }
}

/// An event is not signaled when it is created. It is signaled after
/// `set_event` and not signaled after `reset_event`, whatever came before: signals
/// do not add up. A wait leaves it as it is.
pub proof fn law_event_follows_its_calls(handle: isize, steps: Seq<EventStep>)
    ensures
        ({
            let request = manual_reset_request();
            let set = EventStep::Called(EventCall::Signal(handle));
            let reset = EventStep::Called(EventCall::Unsignal(handle));
            let waited = EventStep::Waited(handle);
            &&& !is_signaled(request, handle, Seq::empty())
            &&& is_signaled(request, handle, steps.push(set))
            &&& !is_signaled(request, handle, steps.push(reset))
            &&& is_signaled(request, handle, steps.push(waited)) == is_signaled(
                request,
                handle,
                steps,
            )
        }),
{
    let set = EventStep::Called(EventCall::Signal(handle));
    let reset = EventStep::Called(EventCall::Unsignal(handle));
    let waited = EventStep::Waited(handle);
    assert(steps.push(set).drop_last() =~= steps);
    assert(steps.push(reset).drop_last() =~= steps);
    assert(steps.push(waited).drop_last() =~= steps);
}

/// An event that was never reset is signaled exactly when it was signaled at
/// least once, however often it was waited on.
pub proof fn law_signal_lasts_until_reset(handle: isize, steps: Seq<EventStep>)
    requires
        !steps.contains(EventStep::Called(EventCall::Unsignal(handle))),
    ensures
        is_signaled(manual_reset_request(), handle, steps) <==> steps.contains(
            EventStep::Called(EventCall::Signal(handle)),
        ),
    decreases steps.len(),
{
    let set = EventStep::Called(EventCall::Signal(handle));
    let reset = EventStep::Called(EventCall::Unsignal(handle));
    if steps.len() > 0 {
        let before = steps.drop_last();
        assert(steps =~= before.push(steps.last()));
        assert(steps.last() == steps[steps.len() - 1]);
        assert(before.contains(reset) ==> steps.contains(reset));
        law_signal_lasts_until_reset(handle, before);
        assert(before.contains(set) ==> steps.contains(set));
    }
}

/// Calls on one event leave every other event as it was.
pub proof fn law_events_are_independent(
    request: EventRequest,
    handle: isize,
    other: isize,
    steps: Seq<EventStep>,
    call: EventCall,
)
    requires
        handle != other,
        call == EventCall::Signal(other) || call == EventCall::Unsignal(other) || call
            == EventCall::Close(other),
    ensures
        is_signaled(request, handle, steps.push(EventStep::Called(call))) == is_signaled(
            request,
            handle,
            steps,
        ),
{
    assert(steps.push(EventStep::Called(call)).drop_last() =~= steps);
}

} // verus!
