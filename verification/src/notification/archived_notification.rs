//! A retired notification as the archive shows it.

use vstd::prelude::*;
use vstd::string::*;
use crate::clock::{later_of, minutes_in_nanos, Timestamp};
use crate::notification::{expiry_text, local_time_text, Notification};
use crate::text::{decimal, decimal_string, texts};

verus! {

/// What an archived notification is, as mathematical values.
pub struct ArchivedNotificationView {
    pub id: u16,
    pub description: Seq<char>,
    pub work_time: u16,
    pub break_time: u16,
    pub work_expired_at: int,
    pub break_expired_at: int,
}

/// The instant at which the timeline of an archived notification began.
pub open spec fn archived_start_of(v: ArchivedNotificationView) -> int {
    later_of(v.work_expired_at, v.break_expired_at) - minutes_in_nanos(
        v.work_time as int + v.break_time as int,
    )
}

/// The cells of the row that the history shows for an archived notification,
/// given the renderings of its three instants.
pub open spec fn archived_cells(
    v: ArchivedNotificationView,
    start_text: Seq<char>,
    work_text: Seq<char>,
    break_text: Seq<char>,
) -> Seq<Seq<char>> {
    seq![
        decimal(v.id as nat),
        decimal(v.work_time as nat),
        decimal(v.break_time as nat),
        start_text,
        expiry_text(v.work_time, work_text),
        expiry_text(v.break_time, break_text),
        v.description,
    ]
}

/// The headers of the history.
pub open spec fn archived_header_cells() -> Seq<Seq<char>> {
    seq![
        "id"@,
        "work_time"@,
        "break_time"@,
        "started_at"@,
        "expired_at (work)"@,
        "expired_at (break)"@,
        "description"@,
    ]
}

/// A notification that has completed or was deleted.
#[derive(Debug)]
pub struct ArchivedNotification {
    id: u16,
    description: String,
    work_time: u16,
    break_time: u16,
    work_expired_at: Timestamp,
    break_expired_at: Timestamp,
}

impl View for ArchivedNotification {
    type V = ArchivedNotificationView;

    closed spec fn view(&self) -> ArchivedNotificationView {
        ArchivedNotificationView {
            id: self.id,
            description: self.description@,
            work_time: self.work_time,
            break_time: self.break_time,
            work_expired_at: self.work_expired_at@,
            break_expired_at: self.break_expired_at@,
        }
    }
}

impl From<Notification> for ArchivedNotification {
    /// Archives a notification: all its values but the creation instant.
    fn from(n: Notification) -> (r: Self) {
        let Notification {
            id,
            description,
            work_time,
            break_time,
            created_at: _,
            work_expired_at,
            break_expired_at,
        } = n;
        ArchivedNotification {
            id,
            description,
            work_time,
            break_time,
            work_expired_at,
            break_expired_at,
        }
    }
}

impl vstd::std_specs::convert::FromSpecImpl<Notification> for ArchivedNotification {
    open spec fn obeys_from_spec() -> bool {
        true
    }

    closed spec fn from_spec(n: Notification) -> Self {
        ArchivedNotification {
            id: n.id,
            description: n.description,
            work_time: n.work_time,
            break_time: n.break_time,
            work_expired_at: n.work_expired_at,
            break_expired_at: n.break_expired_at,
        }
    }
}

/// What is archived of a valid notification is a valid archived
/// notification with the same values, and its start is the creation instant.
pub proof fn lemma_archived_keeps_values(n: Notification)
    requires
        n.wf(),
    ensures
        ({
            let archived = <ArchivedNotification as vstd::std_specs::convert::FromSpec<
                Notification,
            >>::from_spec(n);
            &&& archived.wf()
            &&& archived@ == (ArchivedNotificationView {
                id: n@.id,
                description: n@.description,
                work_time: n@.work_time,
                break_time: n@.break_time,
                work_expired_at: n@.work_expired_at,
                break_expired_at: n@.break_expired_at,
            })
            &&& archived_start_of(archived@) == n@.created_at
        }),
{
    n.lemma_wf_holds();
    n.lemma_wf_fields();
}

impl ArchivedNotification {
    /// The two instants are valid, the break phase ends `break_time` minutes
    /// after the work phase, and the start lies inside the supported range.
    pub closed spec fn wf(&self) -> bool {
        &&& self.work_expired_at.wf()
        &&& self.break_expired_at.wf()
        &&& self.break_expired_at@ == self.work_expired_at@ + minutes_in_nanos(
            self.break_time as int,
        )
        &&& self.work_expired_at.can_subtract_minutes(self.work_time as int)
    }

    /// Archives a notification: all its values but the creation instant.
    pub fn archive(n: Notification) -> (r: Self)
        requires
            n.wf(),
        ensures
            r.wf(),
            r@ == (ArchivedNotificationView {
                id: n@.id,
                description: n@.description,
                work_time: n@.work_time,
                break_time: n@.break_time,
                work_expired_at: n@.work_expired_at,
                break_expired_at: n@.break_expired_at,
            }),
            archived_start_of(r@) == n@.created_at,
    {
        proof {
            lemma_archived_keeps_values(n);
        }
        ArchivedNotification::from(n)
    }

    /// The instant at which the timeline began.
    pub fn get_start_at(&self) -> (r: Timestamp)
        requires
            self.wf(),
        ensures
            r.wf(),
            r@ == archived_start_of(self@),
    {
        let last_expired_at = self.work_expired_at.later(&self.break_expired_at);
        last_expired_at.minus_minutes(self.work_time as u32 + self.break_time as u32)
    }

    /// The headers of the history.
    pub fn headers() -> (r: Vec<String>)
        ensures
            texts(r@) == archived_header_cells(),
    {
        let mut r: Vec<String> = Vec::new();
        r.push(String::from_str("id"));
        r.push(String::from_str("work_time"));
        r.push(String::from_str("break_time"));
        r.push(String::from_str("started_at"));
        r.push(String::from_str("expired_at (work)"));
        r.push(String::from_str("expired_at (break)"));
        r.push(String::from_str("description"));
        assert(texts(r@) =~= archived_header_cells());
        r
    }

    /// The cells of the row that the history shows, given the renderings of
    /// the start and of the two phase ends.
    pub fn fields_with(&self, start_text: String, work_text: String, break_text: String) -> (r:
        Vec<String>)
        ensures
            texts(r@) == archived_cells(self@, start_text@, work_text@, break_text@),
    {
        let work_expired_at = if self.work_time > 0 {
            work_text
        } else {
            String::from_str("N/A")
        };
        let break_expired_at = if self.break_time > 0 {
            break_text
        } else {
            String::from_str("N/A")
        };
        let ghost start = start_text@;
        let mut r: Vec<String> = Vec::new();
        r.push(decimal_string(self.id as u64));
        r.push(decimal_string(self.work_time as u64));
        r.push(decimal_string(self.break_time as u64));
        r.push(start_text);
        r.push(work_expired_at);
        r.push(break_expired_at);
        r.push(self.description.clone());
        assert(texts(r@) =~= archived_cells(self@, start, work_text@, break_text@));
        r
    }

    /// The cells of the row that the history shows. The start and the two
    /// phase ends are rendered in the time zone of the machine.
    pub fn fields(&self) -> (r: Vec<String>)
        requires
            self.wf(),
        ensures
            exists|start_text: Seq<char>, work_text: Seq<char>, break_text: Seq<char>|
                texts(r@) == archived_cells(self@, start_text, work_text, break_text),
    {
        let start_text = local_time_text(&self.get_start_at());
        let work_text = local_time_text(&self.work_expired_at);
        let break_text = local_time_text(&self.break_expired_at);
        let ghost witness = (start_text@, work_text@, break_text@);
        let r = self.fields_with(start_text, work_text, break_text);
        assert(texts(r@) == archived_cells(self@, witness.0, witness.1, witness.2));
        r
    }
}

} // verus!
