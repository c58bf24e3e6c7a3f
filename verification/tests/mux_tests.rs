use fire_midi::events::ButtonState;
use fire_midi::events::ControllerEvent;
use fire_midi::events::ControllerKnob;
use fire_midi::mux::Multiplexer;
use fire_midi::mux::MuxOverflow;

fn knob_event(value: u8) -> ControllerEvent {
    ControllerEvent::KnobTurn(ControllerKnob::Volume, value)
}

#[test]
fn fan_in_preserves_per_session_order() {
    let mut m = Multiplexer::new(2, 100);
    let a = [knob_event(1), knob_event(2), knob_event(3)];
    let b = [
        ControllerEvent::GridButton(0, 0, 0, ButtonState::Down, 10),
        ControllerEvent::GridButton(1, 0, 1, ButtonState::Down, 11),
        ControllerEvent::GridButton(2, 0, 2, ButtonState::Up, 12),
    ];
    assert_eq!(m.push(0, a[0]), Ok(()));
    assert_eq!(m.push(1, b[0]), Ok(()));
    assert_eq!(m.push(1, b[1]), Ok(()));
    assert_eq!(m.push(0, a[1]), Ok(()));
    assert_eq!(m.push(0, a[2]), Ok(()));
    assert_eq!(m.push(1, b[2]), Ok(()));

    let mut yielded: Vec<(usize, ControllerEvent)> = Vec::new();
    while let Some(pair) = m.poll_next() {
        yielded.push(pair);
    }
    assert_eq!(yielded.len(), 6);
    let from_a: Vec<ControllerEvent> =
        yielded.iter().filter(|(s, _)| *s == 0).map(|(_, e)| *e).collect();
    let from_b: Vec<ControllerEvent> =
        yielded.iter().filter(|(s, _)| *s == 1).map(|(_, e)| *e).collect();
    assert_eq!(from_a, a.to_vec());
    assert_eq!(from_b, b.to_vec());
}

#[test]
fn poll_yields_first_ready_session() {
    let mut m = Multiplexer::new(3, 10);
    assert_eq!(m.push(2, knob_event(9)), Ok(()));
    assert_eq!(m.push(1, knob_event(8)), Ok(()));
    assert_eq!(m.poll_next(), Some((1, knob_event(8))));
    assert_eq!(m.poll_next(), Some((2, knob_event(9))));
    assert_eq!(m.poll_next(), None);
}

#[test]
fn full_queue_reports_recoverable_overflow() {
    let mut m = Multiplexer::new(1, 2);
    assert_eq!(m.push(0, knob_event(1)), Ok(()));
    assert_eq!(m.push(0, knob_event(2)), Ok(()));
    assert_eq!(m.push(0, knob_event(3)), Err(MuxOverflow));
    assert_eq!(m.poll_next(), Some((0, knob_event(1))));
    assert_eq!(m.push(0, knob_event(4)), Ok(()));
    assert_eq!(m.poll_next(), Some((0, knob_event(2))));
    assert_eq!(m.poll_next(), Some((0, knob_event(4))));
    assert_eq!(m.poll_next(), None);
}

#[test]
fn finishes_only_when_all_sessions_end_and_drain() {
    let mut m = Multiplexer::new(2, 4);
    assert!(!m.is_finished());
    assert_eq!(m.push(0, knob_event(1)), Ok(()));
    m.close(0);
    m.close(1);
    assert!(!m.is_finished());
    assert_eq!(m.poll_next(), Some((0, knob_event(1))));
    assert!(m.is_finished());
    assert_eq!(m.poll_next(), None);
}

#[test]
fn ingest_decodes_and_enqueues() {
    let mut m = Multiplexer::new(1, 8);
    assert_eq!(m.ingest(0, &[0x90, 0x36, 0x30]), Ok(true));
    assert_eq!(m.ingest(0, &[0xa0, 0x36, 0x30]), Ok(false));
    assert_eq!(m.ingest(0, &[0x90, 0x10, 0x01]), Ok(true));
    assert_eq!(
        m.poll_next(),
        Some((0, ControllerEvent::GridButton(0, 0, 0, ButtonState::Down, 0x30)))
    );
    assert_eq!(
        m.poll_next(),
        Some((0, ControllerEvent::KnobTouch(ControllerKnob::Volume, ButtonState::Down)))
    );
    assert_eq!(m.poll_next(), None);
}

#[test]
fn ingest_reports_overflow_and_keeps_state() {
    let mut m = Multiplexer::new(1, 1);
    assert_eq!(m.ingest(0, &[0x90, 0x36, 0x30]), Ok(true));
    assert_eq!(m.ingest(0, &[0x90, 0x37, 0x30]), Err(MuxOverflow));
    assert_eq!(
        m.poll_next(),
        Some((0, ControllerEvent::GridButton(0, 0, 0, ButtonState::Down, 0x30)))
    );
    assert_eq!(m.poll_next(), None);
}

#[test]
fn session_count_matches_construction() {
    let m = Multiplexer::new(5, 1);
    assert_eq!(m.session_count(), 5);
    let empty = Multiplexer::new(0, 1);
    assert_eq!(empty.session_count(), 0);
    assert!(empty.is_finished());
}
