//! The phases of one timer.
//!
//! A timer waits until its notification starts, waits out the work phase and
//! alerts, waits out the break phase and alerts, and then retires the
//! notification. A phase of no length is skipped. The task that runs a timer
//! only sleeps, delivers and retires; which of these comes next is decided
//! here, one elapsed wait at a time.

use vstd::prelude::*;
use crate::clock::{whole_seconds, Timestamp};
use crate::notification::{start_of, Notification, NotificationView};

verus! {

/// Where a timer stands.
#[derive(Clone, Copy, Debug, PartialEq, Eq, Structural)]
pub enum TimerState {
    /// Waiting for the start of the notification.
    Scheduled,
    /// Waiting out the work phase.
    WorkRunning,
    /// Waiting out the break phase.
    BreakRunning,
    /// All phases have passed and the notification is being retired.
    Archived,
    /// Cancelled before its phases had passed.
    Cancelled,
}

/// The phase whose end an alert announces.
#[derive(Clone, Copy, Debug, PartialEq, Eq, Structural)]
pub enum Alert {
    Work,
    Break,
}

/// What the task of a timer does next.
#[derive(Clone, Copy, Debug, PartialEq, Eq, Structural)]
pub enum NextStep {
    /// Sleep for this many seconds, then ask again.
    Wait(u64),
    /// Retire the notification, then end.
    Retire,
    /// End.
    Stop,
}

/// One move of a timer: the state it enters, the alert to deliver on the
/// way, and what to do after that.
#[derive(Clone, Copy, Debug, PartialEq, Eq, Structural)]
pub struct Transition {
    pub state: TimerState,
    pub alert: Option<Alert>,
    pub next: NextStep,
}

/// Seconds in a phase of `minutes` minutes.
pub open spec fn phase_seconds(minutes: u16) -> u64 {
    (minutes as int * 60) as u64
}

/// Whole seconds from `now` to `start`, or none where the start has passed.
pub open spec fn delay_seconds(start: int, now: int) -> int {
    if whole_seconds(start - now) > 0 {
        whole_seconds(start - now)
    } else {
        0
    }
}

/// The move of a timer whose start has come.
pub open spec fn begun(work_time: u16, break_time: u16) -> Transition {
    if work_time > 0 {
        Transition {
            state: TimerState::WorkRunning,
            alert: None,
            next: NextStep::Wait(phase_seconds(work_time)),
        }
    } else if break_time > 0 {
        Transition {
            state: TimerState::BreakRunning,
            alert: None,
            next: NextStep::Wait(phase_seconds(break_time)),
        }
    } else {
        Transition { state: TimerState::Archived, alert: None, next: NextStep::Retire }
    }
}

/// The move of a timer in `state` whose wait has elapsed.
pub open spec fn advanced(state: TimerState, work_time: u16, break_time: u16) -> Transition {
    match state {
        TimerState::Scheduled => begun(work_time, break_time),
        TimerState::WorkRunning => if break_time > 0 {
            Transition {
                state: TimerState::BreakRunning,
                alert: Some(Alert::Work),
                next: NextStep::Wait(phase_seconds(break_time)),
            }
        } else {
            Transition {
                state: TimerState::Archived,
                alert: Some(Alert::Work),
                next: NextStep::Retire,
            }
        },
        TimerState::BreakRunning => Transition {
            state: TimerState::Archived,
            alert: Some(Alert::Break),
            next: NextStep::Retire,
        },
        TimerState::Archived => Transition {
            state: TimerState::Archived,
            alert: None,
            next: NextStep::Stop,
        },
        TimerState::Cancelled => Transition {
            state: TimerState::Cancelled,
            alert: None,
            next: NextStep::Stop,
        },
    }
}

/// The first move of the timer of `v`, spawned at `now`.
pub open spec fn started(v: NotificationView, now: int) -> Transition {
    if delay_seconds(start_of(v), now) > 0 {
        Transition {
            state: TimerState::Scheduled,
            alert: None,
            next: NextStep::Wait(delay_seconds(start_of(v), now) as u64),
        }
    } else {
        begun(v.work_time, v.break_time)
    }
}

/// The state of a timer in `state` after a cancellation.
pub open spec fn cancelled(state: TimerState) -> TimerState {
    match state {
        TimerState::Archived => TimerState::Archived,
        _ => TimerState::Cancelled,
    }
}

/// How far a state lies along the life of a timer.
pub open spec fn rank(state: TimerState) -> int {
    match state {
        TimerState::Scheduled => 0,
        TimerState::WorkRunning => 1,
        TimerState::BreakRunning => 2,
        TimerState::Archived => 3,
        TimerState::Cancelled => 3,
    }
}

impl TimerState {
    /// Whether the timer has ended, by retiring or by cancellation.
    pub open spec fn is_final(self) -> bool {
        self == TimerState::Archived || self == TimerState::Cancelled
    }

    /// Whether the timer has ended, by retiring or by cancellation.
    pub fn is_terminal(self) -> (r: bool)
        ensures
            r == self.is_final(),
    {
        match self {
            TimerState::Archived => true,
            TimerState::Cancelled => true,
            _ => false,
        }
    }
}

/// Seconds in a phase of `minutes` minutes.
fn seconds_of(minutes: u16) -> (r: u64)
    ensures
        r == phase_seconds(minutes),
{
    minutes as u64 * 60
}

/// The move of a timer whose start has come.
fn begin(work_time: u16, break_time: u16) -> (r: Transition)
    ensures
        r == begun(work_time, break_time),
{
    if work_time > 0 {
        Transition {
            state: TimerState::WorkRunning,
            alert: None,
            next: NextStep::Wait(seconds_of(work_time)),
        }
    } else if break_time > 0 {
        Transition {
            state: TimerState::BreakRunning,
            alert: None,
            next: NextStep::Wait(seconds_of(break_time)),
        }
    } else {
        Transition { state: TimerState::Archived, alert: None, next: NextStep::Retire }
    }
}

/// The first move of the timer of `notification`, spawned at `now`: the wait
/// until its start where that lies a second or more ahead, else what follows
/// the start at once.
pub fn start(notification: &Notification, now: Timestamp) -> (r: Transition)
    requires
        notification.wf(),
        now.wf(),
    ensures
        r == started(notification@, now@),
{
    let (_, _, work_time, break_time, _, _, _) = notification.get_values();
    let start_at = notification.get_start_at();
    let delay: i64 = now.whole_seconds_until(&start_at);
    if delay > 0 {
        Transition { state: TimerState::Scheduled, alert: None, next: NextStep::Wait(delay as u64) }
    } else {
        begin(work_time, break_time)
    }
}

/// The move of a timer in `state` whose wait has elapsed: the alert for the
/// phase that ended, and the next phase of some length, or the retirement
/// where none is left.
pub fn advance(state: TimerState, work_time: u16, break_time: u16) -> (r: Transition)
    ensures
        r == advanced(state, work_time, break_time),
{
    match state {
        TimerState::Scheduled => begin(work_time, break_time),
        TimerState::WorkRunning => if break_time > 0 {
            Transition {
                state: TimerState::BreakRunning,
                alert: Some(Alert::Work),
                next: NextStep::Wait(seconds_of(break_time)),
            }
        } else {
            Transition {
                state: TimerState::Archived,
                alert: Some(Alert::Work),
                next: NextStep::Retire,
            }
        },
        TimerState::BreakRunning => Transition {
            state: TimerState::Archived,
            alert: Some(Alert::Break),
            next: NextStep::Retire,
        },
        TimerState::Archived => Transition {
            state: TimerState::Archived,
            alert: None,
            next: NextStep::Stop,
        },
        TimerState::Cancelled => Transition {
            state: TimerState::Cancelled,
            alert: None,
            next: NextStep::Stop,
        },
    }
}

/// The state of a timer in `state` after a cancellation: cancelled, unless
/// it had retired already.
pub fn cancel(state: TimerState) -> (r: TimerState)
    ensures
        r == cancelled(state),
{
    match state {
        TimerState::Archived => TimerState::Archived,
        _ => TimerState::Cancelled,
    }
}

/// A timer never goes back: every move of a running timer enters a later
/// state, and a timer that has ended stays where it is and does nothing.
pub proof fn lemma_phases_run_in_order(state: TimerState, work_time: u16, break_time: u16)
    ensures
        !state.is_final() ==> rank(advanced(state, work_time, break_time).state) > rank(state),
        state.is_final() ==> advanced(state, work_time, break_time) == (Transition {
            state,
            alert: None,
            next: NextStep::Stop,
        }),
        advanced(state, work_time, break_time).state != TimerState::Cancelled || state
            == TimerState::Cancelled,
{
}

/// A move waits exactly when it enters a running phase, and then for the
/// length of that phase; it retires exactly when it enters the archived state
/// from a running one.
pub proof fn lemma_waits_match_phases(state: TimerState, work_time: u16, break_time: u16)
    requires
        !state.is_final(),
    ensures
        ({
            let t = advanced(state, work_time, break_time);
            &&& t.state == TimerState::WorkRunning ==> work_time > 0 && t.next == NextStep::Wait(
                phase_seconds(work_time),
            )
            &&& t.state == TimerState::BreakRunning ==> break_time > 0 && t.next == NextStep::Wait(
                phase_seconds(break_time),
            )
            &&& t.state == TimerState::Archived <==> t.next == NextStep::Retire
            &&& t.alert == Some(Alert::Work) <==> state == TimerState::WorkRunning
            &&& t.alert == Some(Alert::Break) <==> state == TimerState::BreakRunning
        }),
{
}

/// A timer that is not cancelled retires after at most three elapsed waits,
/// having alerted once for each phase of some length, work before break.
pub proof fn lemma_timer_retires(work_time: u16, break_time: u16)
    ensures
        ({
            let first = advanced(TimerState::Scheduled, work_time, break_time);
            let second = advanced(first.state, work_time, break_time);
            let third = advanced(second.state, work_time, break_time);
            &&& third.state == TimerState::Archived
            &&& first.alert is None
            &&& (second.alert == Some(Alert::Work)) == (work_time > 0)
            &&& (third.alert == Some(Alert::Break)) == (work_time > 0 && break_time > 0)
            &&& (second.alert == Some(Alert::Break)) == (work_time == 0 && break_time > 0)
        }),
{
}

/// Cancellation ends a running timer at once and for good.
pub proof fn lemma_cancellation_is_final(state: TimerState, work_time: u16, break_time: u16)
    ensures
        cancelled(state).is_final(),
        !state.is_final() ==> cancelled(state) == TimerState::Cancelled,
        advanced(cancelled(state), work_time, break_time).next == NextStep::Stop,
        advanced(cancelled(state), work_time, break_time).alert is None,
{
}

impl Alert {
    /// The summary of the desktop banner.
    pub open spec fn summary_text(self) -> Seq<char> {
        match self {
            Alert::Work => "Work time done!"@,
            Alert::Break => "Break time done!"@,
        }
    }

    /// The body of the desktop banner.
    pub open spec fn body_text(self) -> Seq<char> {
        match self {
            Alert::Work => "Work time finished.\nNow take a rest!"@,
            Alert::Break => "Break time finished.\n Now back to work!"@,
        }
    }

    /// The message for the chat channels.
    pub open spec fn chat_text(self) -> Seq<char> {
        match self {
            Alert::Work => "work done. Take a rest!"@,
            Alert::Break => "break done. Get back to work"@,
        }
    }

    /// The summary of the desktop banner.
    pub fn summary(self) -> (r: &'static str)
        ensures
            r@ == self.summary_text(),
    {
        match self {
            Alert::Work => "Work time done!",
            Alert::Break => "Break time done!",
        }
    }

    /// The body of the desktop banner.
    pub fn body(self) -> (r: &'static str)
        ensures
            r@ == self.body_text(),
    {
        match self {
            Alert::Work => "Work time finished.\nNow take a rest!",
            Alert::Break => "Break time finished.\n Now back to work!",
        }
    }

    /// The message for the chat channels.
    pub fn chat_message(self) -> (r: &'static str)
        ensures
            r@ == self.chat_text(),
    {
        match self {
            Alert::Work => "work done. Take a rest!",
            Alert::Break => "break done. Get back to work",
        }
    }
}

} // verus!
