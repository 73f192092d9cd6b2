use pomodoro::clock::Timestamp;
use pomodoro::notification::Notification;
use pomodoro::scheduler::{advance, cancel, start, Alert, NextStep, TimerState, Transition};

fn run(work: u16, rest: u16) -> Vec<Transition> {
    let mut moves = Vec::new();
    let mut state = TimerState::Scheduled;
    loop {
        let step = advance(state, work, rest);
        moves.push(step);
        state = step.state;
        match step.next {
            NextStep::Wait(_) => {}
            _ => break,
        }
    }
    moves
}

#[test]
fn a_timer_with_both_phases_waits_alerts_and_retires() {
    assert_eq!(
        vec![
            Transition {
                state: TimerState::WorkRunning,
                alert: None,
                next: NextStep::Wait(1500)
            },
            Transition {
                state: TimerState::BreakRunning,
                alert: Some(Alert::Work),
                next: NextStep::Wait(300)
            },
            Transition {
                state: TimerState::Archived,
                alert: Some(Alert::Break),
                next: NextStep::Retire
            },
        ],
        run(25, 5)
    );
}

#[test]
fn a_phase_of_no_length_is_skipped() {
    assert_eq!(
        vec![
            Transition { state: TimerState::WorkRunning, alert: None, next: NextStep::Wait(60) },
            Transition {
                state: TimerState::Archived,
                alert: Some(Alert::Work),
                next: NextStep::Retire
            },
        ],
        run(1, 0)
    );
    assert_eq!(
        vec![
            Transition {
                state: TimerState::BreakRunning,
                alert: None,
                next: NextStep::Wait(3_932_100)
            },
            Transition {
                state: TimerState::Archived,
                alert: Some(Alert::Break),
                next: NextStep::Retire
            },
        ],
        run(0, 65535)
    );
    assert_eq!(
        vec![Transition { state: TimerState::Archived, alert: None, next: NextStep::Retire }],
        run(0, 0)
    );
}

#[test]
fn a_timer_first_waits_for_its_start() {
    let created_at = Timestamp::new(10_000, 0).unwrap();
    let notification = Notification::new(1, 25, 5, created_at);
    let at = |secs: i64, nanos: u32| Timestamp::new(secs, nanos).unwrap();

    assert_eq!(
        Transition { state: TimerState::Scheduled, alert: None, next: NextStep::Wait(1800) },
        start(&notification, at(8_200, 0))
    );
    assert_eq!(
        Transition { state: TimerState::Scheduled, alert: None, next: NextStep::Wait(1) },
        start(&notification, at(9_998, 999_999_999))
    );
    let begun =
        Transition { state: TimerState::WorkRunning, alert: None, next: NextStep::Wait(1500) };
    assert_eq!(begun, start(&notification, at(9_999, 1)));
    assert_eq!(begun, start(&notification, at(10_000, 0)));
    assert_eq!(begun, start(&notification, at(10_500, 0)));
    assert_eq!(begun, advance(TimerState::Scheduled, 25, 5));

    let only_break = Notification::new(2, 0, 5, created_at);
    assert_eq!(
        Transition { state: TimerState::BreakRunning, alert: None, next: NextStep::Wait(300) },
        start(&only_break, created_at)
    );
}

#[test]
fn a_timer_that_has_ended_stays_where_it_is() {
    for state in [TimerState::Archived, TimerState::Cancelled] {
        assert!(state.is_terminal());
        assert_eq!(
            Transition { state, alert: None, next: NextStep::Stop },
            advance(state, 25, 5)
        );
    }
    for state in [TimerState::Scheduled, TimerState::WorkRunning, TimerState::BreakRunning] {
        assert!(!state.is_terminal());
        assert_eq!(TimerState::Cancelled, cancel(state));
    }
    assert_eq!(TimerState::Cancelled, cancel(TimerState::Cancelled));
    assert_eq!(TimerState::Archived, cancel(TimerState::Archived));
}

#[test]
fn alerts_have_their_texts() {
    assert_eq!("Work time done!", Alert::Work.summary());
    assert_eq!("Work time finished.\nNow take a rest!", Alert::Work.body());
    assert_eq!("work done. Take a rest!", Alert::Work.chat_message());
    assert_eq!("Break time done!", Alert::Break.summary());
    assert_eq!("Break time finished.\n Now back to work!", Alert::Break.body());
    assert_eq!("break done. Get back to work", Alert::Break.chat_message());
}
