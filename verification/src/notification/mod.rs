//! The notification: a reminder with a work phase followed by a break phase.
//!
//! A notification is created at an instant and with two durations in minutes.
//! The work phase ends `work_time` minutes after creation, the break phase
//! `break_time` minutes after that. Everything else (the start that is
//! recovered from a stored row, the share of the work phase that has passed)
//! is derived from those boundaries.

pub mod archived_notification;
pub mod notify;

use vstd::prelude::*;
use vstd::string::*;
use crate::clock::{
    later_of, minutes_in_nanos, whole_seconds, Timestamp, MAX_SECONDS, MIN_SECONDS,
    NANOS_PER_SECOND, SECONDS_PER_MINUTE,
};
use crate::command::application::{DEFAULT_BREAK_TIME, DEFAULT_WORK_TIME};
use crate::command::util::{
    bad_arg_text, first_malformed, parse_work_and_break_time, resolved_minutes, text_of,
};
use crate::configuration::Configuration;
use crate::error::NotificationError;
use crate::registry::TaskRegistry;
use crate::store::{retire_all_ops, retire_ops, StoreOp};
use crate::text::{decimal, decimal_string, texts, two_digit_string, two_digits};

verus! {

/// The description every notification is created with.
pub const DEFAULT_DESCRIPTION: &'static str = "sample";

/// What a notification is, as mathematical values: instants are nanoseconds
/// since the epoch.
pub struct NotificationView {
    pub id: u16,
    pub description: Seq<char>,
    pub work_time: u16,
    pub break_time: u16,
    pub created_at: int,
    pub work_expired_at: int,
    pub break_expired_at: int,
}

/// The phase boundaries follow from the creation instant and the durations.
pub open spec fn valid_view(v: NotificationView) -> bool {
    &&& v.work_expired_at == v.created_at + minutes_in_nanos(v.work_time as int)
    &&& v.break_expired_at == v.work_expired_at + minutes_in_nanos(v.break_time as int)
}

/// The instant at which the timeline of a notification begins, recovered from
/// its last phase boundary and its two durations.
pub open spec fn start_of(v: NotificationView) -> int {
    later_of(v.work_expired_at, v.break_expired_at) - minutes_in_nanos(
        v.work_time as int + v.break_time as int,
    )
}

/// Length of the work phase in seconds.
pub open spec fn work_seconds(v: NotificationView) -> int {
    v.work_time as int * 60
}

/// Whole seconds of the work phase that have passed at `now`.
pub open spec fn completed_seconds(v: NotificationView, now: int) -> int {
    work_seconds(v) - whole_seconds(v.work_expired_at - now)
}

/// Share of the work phase that has passed at `now`, in percent: nothing
/// before the start, all of it once the work phase has ended, and in between
/// the completed whole seconds over the length of the phase, rounded down.
pub open spec fn work_percentage(v: NotificationView, now: int) -> int {
    if now < start_of(v) {
        0
    } else if now >= v.work_expired_at {
        100
    } else {
        (100 * completed_seconds(v, now)) / work_seconds(v)
    }
}

/// What the table shows as the time left of one phase: `N/A` for a phase of
/// no length, `00:00` once its end has passed, else the whole minutes and the
/// seconds beyond them, each with at least two digits.
pub open spec fn remaining_text(phase_minutes: u16, expires_at: int, now: int) -> Seq<char> {
    let seconds = whole_seconds(expires_at - now);
    if phase_minutes == 0 {
        "N/A"@
    } else if seconds > 0 {
        two_digits((seconds / 60) as nat) + ":"@ + two_digits((seconds % 60) as nat)
    } else {
        "00:00"@
    }
}

/// What the table shows as the end of one phase: `N/A` for a phase of no
/// length, else the given rendering of the instant.
pub open spec fn expiry_text(phase_minutes: u16, rendered: Seq<char>) -> Seq<char> {
    if phase_minutes == 0 {
        "N/A"@
    } else {
        rendered
    }
}

/// What the table shows as the share of the work phase that has passed:
/// the percentage where it was asked for, else nothing.
pub open spec fn percentage_text(v: NotificationView, now: int, show_percentage: bool) -> Seq<char> {
    if show_percentage {
        decimal(work_percentage(v, now) as nat)
    } else {
        Seq::<char>::empty()
    }
}

/// The cells of the row that the table shows for a notification, given the
/// renderings of its three instants.
pub open spec fn cells(
    v: NotificationView,
    now: int,
    show_percentage: bool,
    start_text: Seq<char>,
    work_text: Seq<char>,
    break_text: Seq<char>,
) -> Seq<Seq<char>> {
    seq![
        decimal(v.id as nat),
        remaining_text(v.work_time, v.work_expired_at, now),
        remaining_text(v.break_time, v.break_expired_at, now),
        start_text,
        expiry_text(v.work_time, work_text),
        expiry_text(v.break_time, break_text),
        v.description,
        percentage_text(v, now, show_percentage),
    ]
}

/// The headers of the table of notifications.
pub open spec fn header_cells() -> Seq<Seq<char>> {
    seq![
        "id"@,
        "work_remaining (min)"@,
        "break_remaining (min)"@,
        "start_at"@,
        "expired_at (work)"@,
        "expired_at (break)"@,
        "description"@,
        "percentage"@,
    ]
}

/// The work and break minutes a creation runs with, settled from the
/// command line, the configuration and the built-in defaults.
pub open spec fn creation_minutes(
    work: Option<Seq<char>>,
    rest: Option<Seq<char>>,
    configuration: Configuration,
) -> (u16, u16) {
    (
        resolved_minutes(work, configuration.work_time(), DEFAULT_WORK_TIME),
        resolved_minutes(rest, configuration.break_time(), DEFAULT_BREAK_TIME),
    )
}

/// How a creation with the given arguments ends.
pub enum CreationPlan {
    /// It is refused: this duration is given and is no number below 65536.
    Malformed(Seq<char>),
    /// It is refused: it would have no work and no break.
    Empty,
    /// It creates a notification with these work and break minutes.
    Creates(u16, u16),
}

/// How a creation with the given arguments ends: a malformed duration is
/// refused first, then a creation with no work and no break.
pub open spec fn creation_plan(
    work: Option<Seq<char>>,
    rest: Option<Seq<char>>,
    configuration: Configuration,
) -> CreationPlan {
    match first_malformed(work, rest) {
        Some(value) => CreationPlan::Malformed(value),
        None => {
            let (work_time, break_time) = creation_minutes(work, rest, configuration);
            if work_time == 0 && break_time == 0 {
                CreationPlan::Empty
            } else {
                CreationPlan::Creates(work_time, break_time)
            }
        },
    }
}

/// The instant at which a queued notification starts: the last phase
/// boundary of the notification that expires last, or `now` where the live
/// table is empty.
pub open spec fn queue_start_of(latest: Option<NotificationView>, now: int) -> int {
    match latest {
        Some(v) => later_of(v.work_expired_at, v.break_expired_at),
        None => now,
    }
}

/// The text of the error for a notification that the live table does not hold.
pub open spec fn not_exist_text(id: u16) -> Seq<char> {
    "deleting id ("@ + decimal(id as nat) + ") failed. Corresponding notification does not exist"@
}

/// The text of the error for a notification without a registered timer.
pub open spec fn no_task_text(id: u16) -> Seq<char> {
    "failed to corresponding task (id: "@ + decimal(id as nat) + ")"@
}

/// A scheduled reminder as it is kept in the live table.
#[derive(Debug)]
pub struct Notification {
    id: u16,
    description: String,
    work_time: u16,
    break_time: u16,
    created_at: Timestamp,
    work_expired_at: Timestamp,
    break_expired_at: Timestamp,
}

impl View for Notification {
    type V = NotificationView;

    closed spec fn view(&self) -> NotificationView {
        NotificationView {
            id: self.id,
            description: self.description@,
            work_time: self.work_time,
            break_time: self.break_time,
            created_at: self.created_at@,
            work_expired_at: self.work_expired_at@,
            break_expired_at: self.break_expired_at@,
        }
    }
}

/// One row of the live or the archive table, column by column.
#[derive(Debug)]
pub struct NotificationRow {
    pub id: i64,
    pub description: String,
    pub work_time: i64,
    pub break_time: i64,
    pub created_at: Timestamp,
    pub work_expired_at: Timestamp,
    pub break_expired_at: Timestamp,
}

impl NotificationRow {
    /// The row describes a notification: the integers fit their fields and
    /// the phase boundaries follow from the creation instant.
    pub open spec fn wf(&self) -> bool {
        &&& 0 <= self.id <= u16::MAX
        &&& 0 <= self.work_time <= u16::MAX
        &&& 0 <= self.break_time <= u16::MAX
        &&& self.created_at.wf()
        &&& self.work_expired_at.wf()
        &&& self.break_expired_at.wf()
        &&& self.work_expired_at@ == self.created_at@ + minutes_in_nanos(self.work_time as int)
        &&& self.break_expired_at@ == self.work_expired_at@ + minutes_in_nanos(
            self.break_time as int,
        )
    }

    /// Whether the row describes a notification.
    pub fn is_valid(&self) -> (r: bool)
        ensures
            r == self.wf(),
    {
        if !(0 <= self.id && self.id <= 65535 && 0 <= self.work_time && self.work_time <= 65535 && 0
            <= self.break_time && self.break_time <= 65535) {
            return false;
        }
        if !(in_range(&self.created_at) && in_range(&self.work_expired_at) && in_range(
            &self.break_expired_at,
        )) {
            return false;
        }
        let work: i64 = self.work_time * SECONDS_PER_MINUTE;
        let rest: i64 = self.break_time * SECONDS_PER_MINUTE;
        self.work_expired_at.secs == self.created_at.secs + work && self.work_expired_at.nanos
            == self.created_at.nanos && self.break_expired_at.secs == self.work_expired_at.secs
            + rest && self.break_expired_at.nanos == self.work_expired_at.nanos
    }
}

/// Whether an instant lies inside the supported range.
fn in_range(t: &Timestamp) -> (r: bool)
    ensures
        r == t.wf(),
{
    MIN_SECONDS <= t.secs && t.secs <= MAX_SECONDS && t.nanos < NANOS_PER_SECOND
}

impl Notification {
    /// The three instants are valid and the phase boundaries follow from the
    /// creation instant and the durations.
    pub closed spec fn wf(&self) -> bool {
        &&& self.created_at.wf()
        &&& self.work_expired_at.wf()
        &&& self.break_expired_at.wf()
        &&& valid_view(self@)
    }

    /// A notification created at `created_at` can hold both phase boundaries.
    pub open spec fn can_hold(created_at: Timestamp, work_time: u16, break_time: u16) -> bool {
        &&& created_at.wf()
        &&& created_at.can_add_minutes(work_time as int + break_time as int)
    }

    /// Whether a notification created at `created_at` can hold both phase
    /// boundaries.
    pub fn fits(created_at: &Timestamp, work_time: u16, break_time: u16) -> (r: bool)
        ensures
            r == Self::can_hold(*created_at, work_time, break_time),
    {
        in_range(created_at) && created_at.fits_plus_minutes(work_time as u32 + break_time as u32)
    }

    /// The notification `id` whose timeline begins at `created_at`: the work
    /// phase ends `work_time` minutes later, the break phase `break_time`
    /// minutes after that.
    pub fn new(id: u16, work_time: u16, break_time: u16, created_at: Timestamp) -> (r: Self)
        requires
            Self::can_hold(created_at, work_time, break_time),
        ensures
            r.wf(),
            r@ == (NotificationView {
                id,
                description: DEFAULT_DESCRIPTION@,
                work_time,
                break_time,
                created_at: created_at@,
                work_expired_at: created_at@ + minutes_in_nanos(work_time as int),
                break_expired_at: created_at@ + minutes_in_nanos(work_time as int)
                    + minutes_in_nanos(break_time as int),
            }),
            start_of(r@) == created_at@,
    {
        let work_expired_at = created_at.plus_minutes(work_time as u32);
        let break_expired_at = work_expired_at.plus_minutes(break_time as u32);
        Notification {
            id,
            description: String::from_str(DEFAULT_DESCRIPTION),
            work_time,
            break_time,
            created_at,
            work_expired_at,
            break_expired_at,
        }
    }

    /// The identifier under which the notification is stored and registered.
    pub fn get_id(&self) -> (r: u16)
        ensures
            r == self@.id,
    {
        self.id
    }

    /// The instant at which the timeline begins.
    pub fn get_start_at(&self) -> (r: Timestamp)
        requires
            self.wf(),
        ensures
            r.wf(),
            r@ == start_of(self@),
            r@ == self@.created_at,
    {
        let last_expired_at = self.work_expired_at.later(&self.break_expired_at);
        last_expired_at.minus_minutes(self.work_time as u32 + self.break_time as u32)
    }

    /// All stored values: identifier, description, work and break minutes,
    /// creation instant, end of the work phase, end of the break phase.
    pub fn get_values<'a>(&'a self) -> (r: (
        u16,
        &'a str,
        u16,
        u16,
        Timestamp,
        Timestamp,
        Timestamp,
    ))
        ensures
            r.0 == self@.id,
            r.1@ == self@.description,
            r.2 == self@.work_time,
            r.3 == self@.break_time,
            r.4@ == self@.created_at,
            r.5@ == self@.work_expired_at,
            r.6@ == self@.break_expired_at,
            self.wf() ==> r.4.wf() && r.5.wf() && r.6.wf(),
    {
        (
            self.id,
            self.description.as_str(),
            self.work_time,
            self.break_time,
            self.created_at,
            self.work_expired_at,
            self.break_expired_at,
        )
    }

    /// The share of the work phase that has passed at `current_time`, in
    /// percent and in decimal notation.
    pub fn get_work_percentage(&self, current_time: Timestamp) -> (r: String)
        requires
            self.wf(),
            current_time.wf(),
        ensures
            r@ == decimal(work_percentage(self@, current_time@) as nat),
    {
        let start_at = self.get_start_at();
        if current_time.is_before(&start_at) {
            decimal_string(0)
        } else if !current_time.is_before(&self.work_expired_at) {
            decimal_string(100)
        } else {
            let work_time_seconds: i64 = self.work_time as i64 * 60;
            let remaining: i64 = current_time.whole_seconds_until(&self.work_expired_at);
            let completed_time: i64 = work_time_seconds - remaining;
            proof {
                lemma_completed_in_window(self@, current_time@);
                lemma_percentage_is_bounded(self@, current_time@);
            }
            let percentage: i64 = (100 * completed_time) / work_time_seconds;
            decimal_string(percentage as u64)
        }
    }

    /// The notification that a stored row describes.
    pub fn convert_to_notification(row: NotificationRow) -> (r: Self)
        requires
            row.wf(),
        ensures
            r.wf(),
            r@ == (NotificationView {
                id: row.id as u16,
                description: row.description@,
                work_time: row.work_time as u16,
                break_time: row.break_time as u16,
                created_at: row.created_at@,
                work_expired_at: row.work_expired_at@,
                break_expired_at: row.break_expired_at@,
            }),
    {
        Notification {
            id: row.id as u16,
            description: row.description,
            work_time: row.work_time as u16,
            break_time: row.break_time as u16,
            created_at: row.created_at,
            work_expired_at: row.work_expired_at,
            break_expired_at: row.break_expired_at,
        }
    }

    /// The row under which the notification is stored.
    pub fn to_row(&self) -> (r: NotificationRow)
        requires
            self.wf(),
        ensures
            r.wf(),
            r.id == self@.id,
            r.description@ == self@.description,
            r.work_time == self@.work_time,
            r.break_time == self@.break_time,
            r.created_at@ == self@.created_at,
            r.work_expired_at@ == self@.work_expired_at,
            r.break_expired_at@ == self@.break_expired_at,
    {
        NotificationRow {
            id: self.id as i64,
            description: self.description.clone(),
            work_time: self.work_time as i64,
            break_time: self.break_time as i64,
            created_at: self.created_at,
            work_expired_at: self.work_expired_at,
            break_expired_at: self.break_expired_at,
        }
    }
}

/// Calls chrono's `DateTime::from_timestamp`, moves the instant to the time
/// zone of the machine and formats it with `%F %T %z`. The text depends on
/// that time zone, so nothing is claimed of it.
#[verifier::external_body]
pub(crate) fn local_time_text(t: &Timestamp) -> (r: String)
    requires
        t.wf(),
{
    match chrono::DateTime::from_timestamp(t.secs, t.nanos) {
        Some(utc) => utc.with_timezone(&chrono::Local).format("%F %T %z").to_string(),
        None => String::new(),
    }
}

/// Writes the time left of one phase as the table shows it.
pub fn remaining(phase_minutes: u16, expires_at: &Timestamp, now: &Timestamp) -> (r: String)
    requires
        expires_at.wf(),
        now.wf(),
    ensures
        r@ == remaining_text(phase_minutes, expires_at@, now@),
{
    if phase_minutes == 0 {
        String::from_str("N/A")
    } else {
        let seconds: i64 = now.whole_seconds_until(expires_at);
        if seconds > 0 {
            let minutes: i64 = seconds / 60;
            let beyond: i64 = seconds - minutes * 60;
            two_digit_string(minutes as u64).concat(":").concat(
                two_digit_string(beyond as u64).as_str(),
            )
        } else {
            String::from_str("00:00")
        }
    }
}

impl Notification {
    /// What validity means for the stored values.
    pub proof fn lemma_wf_holds(&self)
        requires
            self.wf(),
        ensures
            valid_view(self@),
            MIN_SECONDS * 1_000_000_000 <= self@.created_at,
            self@.break_expired_at < (MAX_SECONDS + 1) * 1_000_000_000,
    {
    }

    /// What validity means for the three instants.
    proof fn lemma_wf_fields(&self)
        requires
            self.wf(),
        ensures
            self.created_at.wf(),
            self.work_expired_at.wf(),
            self.break_expired_at.wf(),
            self@.created_at == self.created_at@,
            self@.work_expired_at == self.work_expired_at@,
            self@.break_expired_at == self.break_expired_at@,
            self@.work_time == self.work_time,
            self@.break_time == self.break_time,
            self@.id == self.id,
            self@.description == self.description@,
    {
    }

    /// The later of the two phase ends.
    pub closed spec fn last_boundary(&self) -> Timestamp {
        if self.work_expired_at@ < self.break_expired_at@ {
            self.break_expired_at
        } else {
            self.work_expired_at
        }
    }

    /// A notification with the same values.
    pub fn duplicate(&self) -> (r: Self)
        ensures
            r@ == self@,
            self.wf() ==> r.wf(),
    {
        Notification {
            id: self.id,
            description: self.description.clone(),
            work_time: self.work_time,
            break_time: self.break_time,
            created_at: self.created_at,
            work_expired_at: self.work_expired_at,
            break_expired_at: self.break_expired_at,
        }
    }

    /// The headers of the table of notifications.
    pub fn headers() -> (r: Vec<String>)
        ensures
            texts(r@) == header_cells(),
    {
        let mut r: Vec<String> = Vec::new();
        r.push(String::from_str("id"));
        r.push(String::from_str("work_remaining (min)"));
        r.push(String::from_str("break_remaining (min)"));
        r.push(String::from_str("start_at"));
        r.push(String::from_str("expired_at (work)"));
        r.push(String::from_str("expired_at (break)"));
        r.push(String::from_str("description"));
        r.push(String::from_str("percentage"));
        assert(texts(r@) =~= header_cells());
        r
    }

    /// The cells of the row that the table shows at `now`, given the
    /// renderings of the start and of the two phase ends.
    pub fn fields_with(
        &self,
        now: Timestamp,
        show_percentage: bool,
        start_text: String,
        work_text: String,
        break_text: String,
    ) -> (r: Vec<String>)
        requires
            self.wf(),
            now.wf(),
        ensures
            texts(r@) == cells(self@, now@, show_percentage, start_text@, work_text@, break_text@),
    {
        let work_expired_at = if self.work_time > 0 {
            work_text
        } else {
            String::from_str("N/A")
        };
        let break_expired_at = if self.break_time > 0 {
            break_text
        } else {
            String::from_str("N/A")
        };
        let work_percentage = if show_percentage {
            self.get_work_percentage(now)
        } else {
            String::new()
        };
        let ghost start = start_text@;
        let mut r: Vec<String> = Vec::new();
        r.push(decimal_string(self.id as u64));
        r.push(remaining(self.work_time, &self.work_expired_at, &now));
        r.push(remaining(self.break_time, &self.break_expired_at, &now));
        r.push(start_text);
        r.push(work_expired_at);
        r.push(break_expired_at);
        r.push(self.description.clone());
        r.push(work_percentage);
        assert(texts(r@) =~= cells(
            self@,
            now@,
            show_percentage,
            start,
            work_text@,
            break_text@,
        ));
        r
    }

    /// The cells of the row that the table shows at `now`. The start and the
    /// two phase ends are rendered in the time zone of the machine.
    pub fn fields(&self, now: Timestamp, show_percentage: bool) -> (r: Vec<String>)
        requires
            self.wf(),
            now.wf(),
        ensures
            exists|start_text: Seq<char>, work_text: Seq<char>, break_text: Seq<char>|
                texts(r@) == cells(self@, now@, show_percentage, start_text, work_text, break_text),
    {
        let start_text = local_time_text(&self.get_start_at());
        let work_text = local_time_text(&self.work_expired_at);
        let break_text = local_time_text(&self.break_expired_at);
        let ghost witness = (start_text@, work_text@, break_text@);
        let r = self.fields_with(now, show_percentage, start_text, work_text, break_text);
        assert(texts(r@) == cells(self@, now@, show_percentage, witness.0, witness.1, witness.2));
        r
    }
}

/// Hands out the next identifier and moves the counter on by one.
pub fn get_new_id(id_manager: &mut u16) -> (id: u16)
    requires
        *old(id_manager) < u16::MAX,
    ensures
        id == *old(id_manager),
        *final(id_manager) == *old(id_manager) + 1,
{
    let id = *id_manager;
    *id_manager = *id_manager + 1;
    id
}

/// Builds the notification that a creation asks for.
///
/// A duration that is given but is no number is refused with the error that
/// quotes it. The minutes are then settled from the command line, the
/// configuration and the built-in defaults, and a creation with no work and
/// no break is refused. A refused creation takes no identifier. Otherwise
/// the notification gets the next identifier and its timeline begins at
/// `created_at`.
pub fn get_new_notification(
    work: Option<&str>,
    rest: Option<&str>,
    id_manager: &mut u16,
    created_at: Timestamp,
    configuration: &Configuration,
) -> (r: Result<Notification, NotificationError>)
    requires
        creation_plan(text_of(work), text_of(rest), *configuration) matches CreationPlan::Creates(
            work_time,
            break_time,
        ) ==> *old(id_manager) < u16::MAX && Notification::can_hold(
            created_at,
            work_time,
            break_time,
        ),
    ensures
        match creation_plan(text_of(work), text_of(rest), *configuration) {
            CreationPlan::Malformed(value) => {
                &&& r matches Err(NotificationError::NewNotification(e))
                &&& e.message() == Some(bad_arg_text(value))
                &&& *final(id_manager) == *old(id_manager)
            },
            CreationPlan::Empty => {
                &&& r matches Err(NotificationError::EmptyTimeValues)
                &&& *final(id_manager) == *old(id_manager)
            },
            CreationPlan::Creates(work_time, break_time) => {
                &&& r matches Ok(notification)
                &&& notification.wf()
                &&& notification@ == (NotificationView {
                    id: *old(id_manager),
                    description: DEFAULT_DESCRIPTION@,
                    work_time,
                    break_time,
                    created_at: created_at@,
                    work_expired_at: created_at@ + minutes_in_nanos(work_time as int),
                    break_expired_at: created_at@ + minutes_in_nanos(work_time as int)
                        + minutes_in_nanos(break_time as int),
                })
                &&& *final(id_manager) == *old(id_manager) + 1
            },
        },
{
    let (work_time, break_time) = match parse_work_and_break_time(work, rest, Some(configuration)) {
        Ok((work_time, break_time)) => (work_time.unwrap(), break_time.unwrap()),
        Err(e) => {
            return Err(NotificationError::NewNotification(e));
        },
    };
    if work_time == 0 && break_time == 0 {
        return Err(NotificationError::EmptyTimeValues);
    }
    let id = get_new_id(id_manager);
    Ok(Notification::new(id, work_time, break_time, created_at))
}

/// The instant at which a queued notification starts, as an instant.
pub open spec fn queue_start_at(latest: Option<Notification>, now: Timestamp) -> Timestamp {
    match latest {
        Some(n) => n.last_boundary(),
        None => now,
    }
}

/// The notification behind an optional reference.
pub open spec fn owned(latest: Option<&Notification>) -> Option<Notification> {
    match latest {
        Some(n) => Some(*n),
        None => None,
    }
}

/// The instant at which a queued notification starts: the last phase
/// boundary of the notification that expires last, or `now` where there is none.
pub fn queue_start(latest: Option<&Notification>, now: Timestamp) -> (r: Timestamp)
    requires
        now.wf(),
        latest matches Some(n) ==> n.wf(),
    ensures
        r.wf(),
        r == queue_start_at(owned(latest), now),
        r@ == queue_start_of(
            match latest {
                Some(n) => Some(n@),
                None => None,
            },
            now@,
        ),
{
    match latest {
        Some(n) => n.work_expired_at.later(&n.break_expired_at),
        None => now,
    }
}

/// Writes the error for a notification that the live table does not hold.
fn not_exist_error(id: u16) -> (r: NotificationError)
    ensures
        r matches NotificationError::DeletionFail(message) && message@ == not_exist_text(id),
{
    NotificationError::DeletionFail(
        String::from_str("deleting id (").concat(decimal_string(id as u64).as_str()).concat(
            ") failed. Corresponding notification does not exist",
        ),
    )
}

/// Writes the error for a notification without a registered timer.
fn no_task_error(id: u16) -> (r: NotificationError)
    ensures
        r matches NotificationError::DeletionFail(message) && message@ == no_task_text(id),
{
    NotificationError::DeletionFail(
        String::from_str("failed to corresponding task (id: ").concat(
            decimal_string(id as u64).as_str(),
        ).concat(")"),
    )
}

/// The two operations that retire one notification.
fn retire_operations(id: u16) -> (r: Vec<StoreOp>)
    ensures
        r@ == retire_ops(id),
{
    let mut ops: Vec<StoreOp> = Vec::new();
    ops.push(StoreOp::Archive(id));
    ops.push(StoreOp::Delete(id));
    assert(ops@ =~= retire_ops(id));
    ops
}

/// Retires the notification `id` on behalf of the user.
///
/// `row` is what reading `id` from the live table gave. Where the table does
/// not hold the notification, or no timer is registered for it, the deletion
/// fails and the registry stays as it was. Otherwise the timer is cancelled,
/// its entry leaves the registry, and the answer holds the operations that
/// move the row to the archive: archive first, then delete.
pub fn delete_notification(id: u16, row: Option<&Notification>, registry: &mut TaskRegistry) -> (r:
    Result<Vec<StoreOp>, NotificationError>)
    ensures
        row is None ==> {
            &&& r matches Err(NotificationError::DeletionFail(message))
            &&& message@ == not_exist_text(id)
            &&& final(registry)@ == old(registry)@
        },
        row is Some && !old(registry)@.contains_key(id) ==> {
            &&& r matches Err(NotificationError::DeletionFail(message))
            &&& message@ == no_task_text(id)
            &&& final(registry)@ == old(registry)@
        },
        row is Some && old(registry)@.contains_key(id) ==> {
            &&& r matches Ok(ops)
            &&& ops@ == retire_ops(id)
            &&& final(registry)@ == old(registry)@.remove(id)
        },
{
    if row.is_none() {
        return Err(not_exist_error(id));
    }
    match registry.cancel_and_forget(id) {
        Ok(()) => Ok(retire_operations(id)),
        Err(_) => Err(no_task_error(id)),
    }
}

/// Retires the notification `id` on behalf of its own timer, whose phases
/// have all passed.
///
/// `row` is what reading `id` from the live table gave. Where the table no
/// longer holds the notification, it was deleted in the meantime: the
/// retirement fails and the registry stays as it was. Otherwise the entry of
/// the timer leaves the registry, if it is still there, and the answer holds
/// the operations that move the row to the archive.
pub fn retire_notification(id: u16, row: Option<&Notification>, registry: &mut TaskRegistry) -> (r:
    Result<Vec<StoreOp>, NotificationError>)
    ensures
        row is None ==> {
            &&& r matches Err(NotificationError::DeletionFail(message))
            &&& message@ == not_exist_text(id)
            &&& final(registry)@ == old(registry)@
        },
        row is Some ==> {
            &&& r matches Ok(ops)
            &&& ops@ == retire_ops(id)
            &&& final(registry)@ == old(registry)@.remove(id)
        },
{
    if row.is_none() {
        return Err(not_exist_error(id));
    }
    let _ = registry.forget(id);
    assert(registry@ =~= old(registry)@.remove(id));
    Ok(retire_operations(id))
}

/// Retires every notification: every timer is cancelled, the registry is
/// emptied, and the answer holds the operations that move all live rows to
/// the archive.
pub fn delete_all_notifications(registry: &mut TaskRegistry) -> (r: Vec<StoreOp>)
    ensures
        final(registry)@ == Map::<u16, tokio::task::JoinHandle<()>>::empty(),
        r@ == retire_all_ops(),
{
    registry.cancel_all();
    let mut ops: Vec<StoreOp> = Vec::new();
    ops.push(StoreOp::ArchiveAll);
    ops.push(StoreOp::DeleteAll);
    assert(ops@ =~= retire_all_ops());
    ops
}

/// Two notifications queued one after the other follow each other without a
/// gap: the second starts at the last phase boundary of the first.
///
/// `rows` is the live table before the first was queued and `found_first`
/// what reading its latest row gave; `first` is the notification queued on
/// that answer; `found_second` is what reading the latest row gave once
/// `first` had been added.
pub proof fn lemma_queue_chains(
    rows: Seq<NotificationView>,
    found_first: Option<NotificationView>,
    now_first: int,
    first: NotificationView,
    found_second: Option<NotificationView>,
    now_second: int,
)
    requires
        forall|i: int| 0 <= i < rows.len() ==> valid_view(#[trigger] rows[i]),
        crate::store::reads_latest(rows, found_first),
        valid_view(first),
        first.work_time > 0 || first.break_time > 0,
        first.created_at == queue_start_of(found_first, now_first),
        crate::store::reads_latest(rows.push(first), found_second),
    ensures
        queue_start_of(found_second, now_second) == later_of(
            first.work_expired_at,
            first.break_expired_at,
        ),
{
    let all = rows.push(first);
    let second = found_second->0;
    assert(all[rows.len() as int] == first);
    let at = choose|k: int| 0 <= k < all.len() && all[k] == second;
    if at < rows.len() {
        // A row of the table as it was ends no later than the first
        // notification starts, and so before the first one ends: it cannot be
        // the row that expires last.
        let older = rows[at];
        assert(all[at] == older);
        assert(valid_view(older));
        assert(older.break_expired_at <= first.created_at);
        assert(first.created_at < first.break_expired_at);
        assert(false);
    }
}

/// The start recovered from a notification built by `new` is the creation
/// instant it was given, whatever the two durations are.
pub proof fn lemma_start_is_creation(
    id: u16,
    description: Seq<char>,
    work_time: u16,
    break_time: u16,
    created_at: int,
)
    ensures
        start_of(
            NotificationView {
                id,
                description,
                work_time,
                break_time,
                created_at,
                work_expired_at: created_at + minutes_in_nanos(work_time as int),
                break_expired_at: created_at + minutes_in_nanos(work_time as int)
                    + minutes_in_nanos(break_time as int),
            },
        ) == created_at,
{
}

/// In a valid notification the break phase ends no earlier than the work
/// phase, and the work phase ends no earlier than the timeline starts.
pub proof fn lemma_phases_are_ordered(v: NotificationView)
    requires
        valid_view(v),
    ensures
        v.break_expired_at >= v.work_expired_at,
        v.work_expired_at >= start_of(v),
        start_of(v) == v.created_at,
{
}

/// Before the start nothing of the work phase has passed.
pub proof fn lemma_percentage_before_start(v: NotificationView, now: int)
    requires
        valid_view(v),
        now < start_of(v),
    ensures
        work_percentage(v, now) == 0,
{
}

/// From the end of the work phase on, all of it has passed.
pub proof fn lemma_percentage_after_work(v: NotificationView, now: int)
    requires
        valid_view(v),
        now >= v.work_expired_at,
    ensures
        work_percentage(v, now) == 100,
{
}

/// The percentage lies between 0 and 100 at every instant.
pub proof fn lemma_percentage_is_bounded(v: NotificationView, now: int)
    requires
        valid_view(v),
    ensures
        0 <= work_percentage(v, now) <= 100,
{
    if start_of(v) <= now < v.work_expired_at {
        lemma_completed_in_window(v, now);
        let done = completed_seconds(v, now);
        let all = work_seconds(v);
        assert(0 <= (100 * done) / all <= 100) by (nonlinear_arith)
            requires
                0 <= done <= all,
                all > 0,
        ;
    }
}

/// Inside the work window the completed seconds lie between nothing and the
/// whole phase, and the phase is not empty.
pub proof fn lemma_completed_in_window(v: NotificationView, now: int)
    requires
        valid_view(v),
        start_of(v) <= now < v.work_expired_at,
    ensures
        work_seconds(v) > 0,
        0 <= completed_seconds(v, now) <= work_seconds(v),
{
}

/// The percentage never decreases as time passes.
pub proof fn lemma_percentage_is_monotonic(v: NotificationView, earlier: int, later: int)
    requires
        valid_view(v),
        earlier <= later,
    ensures
        work_percentage(v, earlier) <= work_percentage(v, later),
{
    lemma_percentage_is_bounded(v, earlier);
    lemma_percentage_is_bounded(v, later);
    if start_of(v) <= earlier && later < v.work_expired_at {
        lemma_completed_in_window(v, earlier);
        lemma_completed_in_window(v, later);
        let a = completed_seconds(v, earlier);
        let b = completed_seconds(v, later);
        let all = work_seconds(v);
        assert(a <= b);
        assert((100 * a) / all <= (100 * b) / all) by (nonlinear_arith)
            requires
                0 <= a <= b,
                all > 0,
        ;
    }
}

/// Inside the work window the completed whole seconds strictly increase
/// between two instants that lie a second or more apart.
pub proof fn lemma_completed_strictly_increases(v: NotificationView, earlier: int, later: int)
    requires
        valid_view(v),
        start_of(v) <= earlier,
        earlier + 1_000_000_000 <= later,
        later < v.work_expired_at,
    ensures
        completed_seconds(v, earlier) < completed_seconds(v, later),
{
}

/// Inside the work window the percentage strictly increases between two
/// instants whose completed whole seconds lie at least a hundredth of the
/// work phase apart.
pub proof fn lemma_percentage_strictly_increases(v: NotificationView, earlier: int, later: int)
    requires
        valid_view(v),
        start_of(v) <= earlier < later < v.work_expired_at,
        100 * (completed_seconds(v, later) - completed_seconds(v, earlier)) >= work_seconds(v),
    ensures
        work_percentage(v, earlier) < work_percentage(v, later),
{
    lemma_completed_in_window(v, earlier);
    lemma_completed_in_window(v, later);
    let a = completed_seconds(v, earlier);
    let b = completed_seconds(v, later);
    let all = work_seconds(v);
    assert((100 * a) / all < (100 * b) / all) by (nonlinear_arith)
        requires
            0 <= a,
            100 * (b - a) >= all,
            all > 0,
    ;
}

} // verus!
