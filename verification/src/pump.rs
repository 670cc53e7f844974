//! The driver of the render loop: which signal of the window system leads to
//! which action.
//!
//! The pump does no work itself. It is told of each event, answers with what
//! is to be done, and remembers whether the window has been asked to close.

use vstd::prelude::*;

verus! {

/// Longest time the loop may sleep while nothing happens, in milliseconds.
pub const WAKE_INTERVAL_MS: u64 = 16;

/// Where the loop stands.
#[derive(Debug, Clone, Copy, PartialEq, Eq, Structural)]
pub enum PumpState {
    /// Frames are drawn on request.
    Running,
    /// The window was asked to close. Nothing follows but the end of the loop.
    Closing,
}

/// What a window is told by the window system.
#[derive(Debug, Clone, Copy, PartialEq, Eq, Structural)]
pub enum WindowSignal {
    /// The contents of the window are out of date.
    RedrawRequested,
    /// The user asked for the window to be closed.
    CloseRequested,
    /// Anything else.
    Other,
}

/// An event of the window system.
#[derive(Debug, Clone, Copy, PartialEq, Eq, Structural)]
pub enum PumpEvent {
    /// A signal for the window with the given identifier.
    Window { window: u64, signal: WindowSignal },
    /// An event that belongs to no window.
    Other,
}

/// What the loop does in answer to an event.
#[derive(Debug, Clone, Copy, PartialEq, Eq, Structural)]
pub enum Action {
    /// Draw one frame.
    Render,
    /// Leave the loop.
    Exit,
    /// Nothing.
    Ignore,
}

/// The answer to an event: what to do now, and how long the loop may sleep
/// afterwards at most.
#[derive(Debug, Clone, Copy, PartialEq, Eq, Structural)]
pub struct Reaction {
    pub action: Action,
    pub wake_after_ms: u64,
}

/// The action that an event calls for. Only signals for the main window
/// count, and only while the loop is running: a request to redraw draws a
/// frame, a request to close ends the loop.
pub open spec fn action_for(state: PumpState, main_window: u64, event: PumpEvent) -> Action {
    match (state, event) {
        (PumpState::Running, PumpEvent::Window { window, signal }) if window == main_window => {
            match signal {
                WindowSignal::RedrawRequested => Action::Render,
                WindowSignal::CloseRequested => Action::Exit,
                WindowSignal::Other => Action::Ignore,
            }
        },
        _ => Action::Ignore,
    }
}

/// The state after an action: leaving the loop is the only action that
/// changes it.
pub open spec fn state_after(state: PumpState, action: Action) -> PumpState {
    match action {
        Action::Exit => PumpState::Closing,
        _ => state,
    }
}

/// The driver of the loop for one window.
#[derive(Debug, Clone, Copy, PartialEq, Eq, Structural)]
pub struct EventPump {
    /// Where the loop stands.
    pub state: PumpState,
    /// The identifier of the window that the loop serves.
    pub main_window: u64,
}

impl EventPump {
    /// What handling an event does: the pump afterwards, and the action.
    pub open spec fn step(self, event: PumpEvent) -> (EventPump, Action) {
        let action = action_for(self.state, self.main_window, event);
        (EventPump { state: state_after(self.state, action), main_window: self.main_window }, action)
    }

    /// The pump after a run of events.
    pub open spec fn after_events(self, events: Seq<PumpEvent>) -> EventPump
        decreases events.len(),
    {
        if events.len() == 0 {
            self
        } else {
            self.after_events(events.drop_last()).step(events.last()).0
        }
    }

    /// The action taken for event `k` of a run of events, counted from 0.
    pub open spec fn nth_action(self, events: Seq<PumpEvent>, k: int) -> Action
        recommends
            0 <= k < events.len(),
    {
        self.after_events(events.take(k)).step(events[k]).1
    }

    /// A pump for the window with the given identifier, running.
    pub fn new(main_window: u64) -> (pump: EventPump)
        ensures
            pump == (EventPump { state: PumpState::Running, main_window }),
    {
        EventPump { state: PumpState::Running, main_window }
    }

    /// Takes note of an event and says what is to be done, and that the loop
    /// is to wake again within the fixed interval.
    pub fn handle(&mut self, event: PumpEvent) -> (reaction: Reaction)
        ensures
            (*final(self), reaction.action) == old(self).step(event),
            reaction.wake_after_ms == WAKE_INTERVAL_MS,
    {
        let action = match self.state {
            PumpState::Closing => Action::Ignore,
            PumpState::Running => match event {
                PumpEvent::Window { window, signal } => {
                    if window == self.main_window {
                        match signal {
                            WindowSignal::RedrawRequested => Action::Render,
                            WindowSignal::CloseRequested => Action::Exit,
                            WindowSignal::Other => Action::Ignore,
                        }
                    } else {
                        Action::Ignore
                    }
                },
                PumpEvent::Other => Action::Ignore,
            },
        };
        match action {
            Action::Exit => {
                self.state = PumpState::Closing;
            },
            _ => {},
        }
        Reaction { action, wake_after_ms: WAKE_INTERVAL_MS }
    }

    /// Whether the loop still draws frames.
    pub fn is_running(&self) -> (running: bool)
        ensures
            running == (self.state == PumpState::Running),
    {
        match self.state {
            PumpState::Running => true,
            PumpState::Closing => false,
        }
    }
}

/// Closing is final: once the window was asked to close, no event leads back,
/// and every event is ignored.
pub proof fn lemma_closing_is_final(pump: EventPump, events: Seq<PumpEvent>, k: int)
    requires
        pump.state == PumpState::Closing,
        0 <= k < events.len(),
    ensures
        pump.after_events(events) == pump,
        pump.nth_action(events, k) == Action::Ignore,
{
    lemma_stays_closed(pump, events);
    lemma_stays_closed(pump, events.take(k));
}

/// A closing pump is the same after any run of events.
proof fn lemma_stays_closed(pump: EventPump, events: Seq<PumpEvent>)
    requires
        pump.state == PumpState::Closing,
    ensures
        pump.after_events(events) == pump,
    decreases events.len(),
{
    if events.len() > 0 {
        lemma_stays_closed(pump, events.drop_last());
    }
}

/// The request to redraw the window with the given identifier.
pub open spec fn redraw_of(window: u64) -> PumpEvent {
    PumpEvent::Window { window, signal: WindowSignal::RedrawRequested }
}

/// The request to close the window with the given identifier.
pub open spec fn close_of(window: u64) -> PumpEvent {
    PumpEvent::Window { window, signal: WindowSignal::CloseRequested }
}

/// A running pump reacts to one event as follows: it draws a frame for
/// exactly the requests to redraw its window, leaves the loop for exactly the
/// requests to close it, and is closing afterwards exactly when it left.
pub proof fn lemma_running_reacts(pump: EventPump, event: PumpEvent)
    requires
        pump.state == PumpState::Running,
    ensures
        pump.step(event).1 == Action::Render <==> event == redraw_of(pump.main_window),
        pump.step(event).1 == Action::Exit <==> event == close_of(pump.main_window),
        pump.step(event).0.state == PumpState::Closing <==> pump.step(event).1 == Action::Exit,
        pump.step(event).0.main_window == pump.main_window,
{
}

/// A running pump is the same after any run of events that holds no request
/// to close its window.
proof fn lemma_stays_running(pump: EventPump, events: Seq<PumpEvent>)
    requires
        pump.state == PumpState::Running,
        forall|i: int| 0 <= i < events.len() ==> events[i] != close_of(pump.main_window),
    ensures
        pump.after_events(events) == pump,
    decreases events.len(),
{
    if events.len() > 0 {
        lemma_stays_running(pump, events.drop_last());
    }
}

/// Redraws, then the exit: in a run of events whose first request to close
/// the main window stands at `close_at`, a running pump draws a frame for
/// exactly the requests to redraw the main window that come before, leaves
/// the loop at `close_at`, ignores whatever follows, and ends closing.
pub proof fn lemma_redraws_then_exit(
    pump: EventPump,
    events: Seq<PumpEvent>,
    close_at: int,
    k: int,
)
    requires
        pump.state == PumpState::Running,
        0 <= close_at < events.len(),
        events[close_at] == close_of(pump.main_window),
        forall|i: int| 0 <= i < close_at ==> events[i] != close_of(pump.main_window),
        0 <= k < events.len(),
    ensures
        pump.after_events(events).state == PumpState::Closing,
        k < close_at ==> pump.nth_action(events, k) == (if events[k] == redraw_of(
            pump.main_window,
        ) {
            Action::Render
        } else {
            Action::Ignore
        }),
        k == close_at ==> pump.nth_action(events, k) == Action::Exit,
        k > close_at ==> pump.nth_action(events, k) == Action::Ignore,
{
    let before = events.take(close_at);
    lemma_stays_running(pump, before);
    let closed = pump.step(events[close_at]).0;
    assert(events.take(close_at + 1).drop_last() == before);
    lemma_split_run(pump, events, close_at + 1);
    lemma_stays_closed(closed, events.skip(close_at + 1));
    if k < close_at {
        lemma_stays_running(pump, events.take(k));
    } else if k > close_at {
        lemma_split_run(pump, events.take(k), close_at + 1);
        assert(events.take(k).take(close_at + 1) == events.take(close_at + 1));
        lemma_stays_closed(closed, events.take(k).skip(close_at + 1));
    }
}

/// A run of events can be taken in two parts.
proof fn lemma_split_run(pump: EventPump, events: Seq<PumpEvent>, at: int)
    requires
        0 <= at <= events.len(),
    ensures
        pump.after_events(events) == pump.after_events(events.take(at)).after_events(
            events.skip(at),
        ),
    decreases events.len(),
{
    if at == events.len() {
        assert(events.take(at) == events);
    } else {
        lemma_split_run(pump, events.drop_last(), at);
        assert(events.drop_last().take(at) == events.take(at));
        assert(events.drop_last().skip(at) == events.skip(at).drop_last());
    }
}

} // verus!
