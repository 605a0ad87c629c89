use loudness_meter::{step, Action, Event, Phase};

#[test]
fn running_continues_on_samples_and_delivered_readings() {
    assert_eq!(step(Phase::Running, Event::SampleArrived), (Phase::Running, Action::Continue));
    assert_eq!(step(Phase::Running, Event::ReadingDelivered), (Phase::Running, Action::Continue));
}

#[test]
fn closed_source_terminates() {
    assert_eq!(step(Phase::Running, Event::SourceClosed), (Phase::Terminated, Action::Stop));
}

#[test]
fn refused_reading_terminates() {
    assert_eq!(step(Phase::Running, Event::ReadingRefused), (Phase::Terminated, Action::Stop));
}

#[test]
fn terminated_is_final() {
    for e in [Event::SampleArrived, Event::SourceClosed, Event::ReadingDelivered, Event::ReadingRefused] {
        assert_eq!(step(Phase::Terminated, e), (Phase::Terminated, Action::Stop));
    }
}

#[test]
fn nothing_continues_after_close() {
    let mut phase = Phase::Running;
    let events = [
        Event::SampleArrived,
        Event::ReadingDelivered,
        Event::SourceClosed,
        Event::SampleArrived,
        Event::ReadingDelivered,
    ];
    let mut actions = Vec::new();
    for e in events {
        let (p, a) = step(phase, e);
        phase = p;
        actions.push(a);
    }
    assert_eq!(actions, vec![Action::Continue, Action::Continue, Action::Stop, Action::Stop, Action::Stop]);
    assert_eq!(phase, Phase::Terminated);
}
