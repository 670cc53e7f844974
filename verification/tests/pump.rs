use static_mesh::pump::{
    Action, EventPump, PumpEvent, PumpState, Reaction, WindowSignal, WAKE_INTERVAL_MS,
};

const MAIN: u64 = 41;

fn redraw(window: u64) -> PumpEvent {
    PumpEvent::Window { window, signal: WindowSignal::RedrawRequested }
}

fn close(window: u64) -> PumpEvent {
    PumpEvent::Window { window, signal: WindowSignal::CloseRequested }
}

fn actions(pump: &mut EventPump, events: &[PumpEvent]) -> Vec<Action> {
    events.iter().map(|event| pump.handle(*event).action).collect()
}

#[test]
fn wake_interval_is_sixteen_milliseconds() {
    assert_eq!(WAKE_INTERVAL_MS, 16);
}

#[test]
fn pump_starts_running() {
    let pump = EventPump::new(MAIN);
    assert_eq!(pump.state, PumpState::Running);
    assert_eq!(pump.main_window, MAIN);
    assert!(pump.is_running());
}

#[test]
fn redraw_request_renders_and_keeps_running() {
    let mut pump = EventPump::new(MAIN);
    assert_eq!(
        pump.handle(redraw(MAIN)),
        Reaction { action: Action::Render, wake_after_ms: 16 }
    );
    assert_eq!(pump, EventPump { state: PumpState::Running, main_window: MAIN });
}

#[test]
fn close_request_exits_and_closes() {
    let mut pump = EventPump::new(MAIN);
    assert_eq!(pump.handle(close(MAIN)), Reaction { action: Action::Exit, wake_after_ms: 16 });
    assert_eq!(pump, EventPump { state: PumpState::Closing, main_window: MAIN });
    assert!(!pump.is_running());
}

#[test]
fn other_signals_are_ignored() {
    let mut pump = EventPump::new(MAIN);
    let other = PumpEvent::Window { window: MAIN, signal: WindowSignal::Other };
    assert_eq!(pump.handle(other), Reaction { action: Action::Ignore, wake_after_ms: 16 });
    assert_eq!(
        pump.handle(PumpEvent::Other),
        Reaction { action: Action::Ignore, wake_after_ms: 16 }
    );
    assert!(pump.is_running());
}

#[test]
fn signals_for_other_windows_are_ignored() {
    let mut pump = EventPump::new(MAIN);
    assert_eq!(pump.handle(redraw(MAIN + 1)).action, Action::Ignore);
    assert_eq!(pump.handle(close(MAIN + 1)).action, Action::Ignore);
    assert_eq!(pump.handle(close(0)).action, Action::Ignore);
    assert!(pump.is_running());
}

#[test]
fn window_closed_immediately_after_open() {
    let mut pump = EventPump::new(MAIN);
    assert_eq!(actions(&mut pump, &[close(MAIN)]), vec![Action::Exit]);
    assert_eq!(pump.state, PumpState::Closing);
}

#[test]
fn redraws_before_the_close_are_rendered() {
    let mut pump = EventPump::new(MAIN);
    let events = [
        PumpEvent::Other,
        redraw(MAIN),
        redraw(MAIN),
        PumpEvent::Window { window: MAIN, signal: WindowSignal::Other },
        redraw(MAIN),
        close(MAIN),
    ];
    assert_eq!(
        actions(&mut pump, &events),
        vec![
            Action::Ignore,
            Action::Render,
            Action::Render,
            Action::Ignore,
            Action::Render,
            Action::Exit,
        ]
    );
    assert_eq!(pump.state, PumpState::Closing);
}

#[test]
fn nothing_happens_after_the_close() {
    let mut pump = EventPump::new(MAIN);
    pump.handle(close(MAIN));
    let events = [redraw(MAIN), close(MAIN), PumpEvent::Other, redraw(MAIN)];
    assert_eq!(actions(&mut pump, &events), vec![Action::Ignore; 4]);
    assert_eq!(pump, EventPump { state: PumpState::Closing, main_window: MAIN });
}

#[test]
fn every_reaction_asks_to_wake_within_the_interval() {
    let mut pump = EventPump::new(MAIN);
    for event in [PumpEvent::Other, redraw(MAIN), redraw(3), close(MAIN), redraw(MAIN)] {
        assert_eq!(pump.handle(event).wake_after_ms, WAKE_INTERVAL_MS);
    }
}
