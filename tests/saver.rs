use whisper_ware::saver::{saver_step, SaverAction, SaverEvent, SaverState, DEBOUNCE_MS};

fn persists(events: &[SaverEvent]) -> (SaverState, usize, Vec<SaverAction>) {
    let mut s = SaverState::Idle;
    let mut n = 0;
    let mut actions = Vec::new();
    for e in events {
        let (next, a) = saver_step(s, *e);
        if a == SaverAction::Persist {
            n += 1;
        }
        actions.push(a);
        s = next;
    }
    (s, n, actions)
}

#[test]
fn burst_within_window_persists_once() {
    let mut events = vec![SaverEvent::Signal; 8];
    events.push(SaverEvent::TimedOut);
    let (s, n, actions) = persists(&events);
    assert_eq!(n, 1);
    assert_eq!(s, SaverState::Idle);
    assert_eq!(actions[0], SaverAction::AwaitSignalFor(DEBOUNCE_MS));
    assert_eq!(actions[7], SaverAction::AwaitSignalFor(200));
    assert_eq!(actions[8], SaverAction::Persist);
}

#[test]
fn spaced_writes_persist_separately() {
    let events = [
        SaverEvent::Signal,
        SaverEvent::TimedOut,
        SaverEvent::Signal,
        SaverEvent::TimedOut,
        SaverEvent::Signal,
        SaverEvent::TimedOut,
    ];
    assert_eq!(persists(&events).1, 3);
}

#[test]
fn closing_while_draining_persists_then_stops() {
    let events = [SaverEvent::Signal, SaverEvent::Closed, SaverEvent::Closed];
    let (s, n, actions) = persists(&events);
    assert_eq!(n, 1);
    assert_eq!(actions[1], SaverAction::Persist);
    assert_eq!(actions[2], SaverAction::Stop);
    assert_eq!(s, SaverState::Stopped);
    assert_eq!(saver_step(SaverState::Stopped, SaverEvent::Signal), (SaverState::Stopped, SaverAction::Stop));
}

#[test]
fn idle_timeout_keeps_waiting() {
    assert_eq!(
        saver_step(SaverState::Idle, SaverEvent::TimedOut),
        (SaverState::Idle, SaverAction::AwaitSignal)
    );
}
