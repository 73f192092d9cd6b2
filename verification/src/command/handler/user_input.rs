//! The session: what each command does to the identifiers, the registry and
//! the report, and what it asks of the record store.
//!
//! The session fetches what a command needs from the store, hands it in with
//! the command, and afterwards carries out what the answer names: the store
//! operations in their order, and the timer to spawn and register.

use vstd::prelude::*;
use vstd::string::*;
use tokio::task::JoinHandle;
use crate::clock::{minutes_in_nanos, Timestamp};
use crate::command::output::{drew, said, OutputAccumulater, OutputType};
use crate::command::util::{bad_arg_text, text_of};
use crate::configuration::Configuration;
use crate::error::{NotificationError, UserInputHandlerError};
use crate::notification::archived_notification::{
    archived_cells, archived_header_cells, ArchivedNotification, ArchivedNotificationView,
};
use crate::notification::{
    cells, creation_plan, delete_all_notifications, delete_notification, get_new_notification,
    header_cells, no_task_text, not_exist_text, owned, queue_start, queue_start_at, Notification,
    CreationPlan, NotificationView, DEFAULT_DESCRIPTION,
};
use crate::registry::TaskRegistry;
use crate::report::{render_table, row_texts, table_text};
use crate::store::{retire_all_ops, retire_ops, StoreOp};
use crate::text::{decimal, decimal_string, texts};

verus! {

/// The line that reports a creation.
pub open spec fn created_text(id: u16) -> Seq<char> {
    "Notification (id: "@ + decimal(id as nat) + ") created"@
}

/// The line that reports a queued creation.
pub open spec fn queued_text(id: u16) -> Seq<char> {
    "Notification (id: "@ + decimal(id as nat) + ") created and queued"@
}

/// The line that reports a deletion.
pub open spec fn deleted_text(id: u16) -> Seq<char> {
    "Notification (id: "@ + decimal(id as nat) + ") deleted"@
}

/// The line that reports a deletion that failed.
pub open spec fn delete_failed_text(reason: Seq<char>) -> Seq<char> {
    "Error: "@ + reason
}

/// The line that reports the deletion of everything.
pub open spec fn all_deleted_text() -> Seq<char> {
    "All Notifications deleted"@
}

/// The line that shows a table.
pub open spec fn shown_text(table: Seq<char>) -> Seq<char> {
    "\n"@ + table
}

/// The instants of a row were rendered somehow; every other cell is what
/// the notification and the clock say.
pub open spec fn is_row_of(row: Seq<Seq<char>>, v: NotificationView, now: int, show_percentage: bool) -> bool {
    exists|start_text: Seq<char>, work_text: Seq<char>, break_text: Seq<char>|
        row == cells(v, now, show_percentage, start_text, work_text, break_text)
}

/// The instants of a row of the history were rendered somehow; every other
/// cell is what the archived notification says.
pub open spec fn is_archived_row_of(row: Seq<Seq<char>>, v: ArchivedNotificationView) -> bool {
    exists|start_text: Seq<char>, work_text: Seq<char>, break_text: Seq<char>|
        row == archived_cells(v, start_text, work_text, break_text)
}

/// The notification that a creation builds.
pub open spec fn created_view(
    id: u16,
    work_time: u16,
    break_time: u16,
    created_at: int,
) -> NotificationView {
    NotificationView {
        id,
        description: DEFAULT_DESCRIPTION@,
        work_time,
        break_time,
        created_at,
        work_expired_at: created_at + minutes_in_nanos(work_time as int),
        break_expired_at: created_at + minutes_in_nanos(work_time as int) + minutes_in_nanos(
            break_time as int,
        ),
    }
}

/// What a creation at `created_at` leaves behind.
///
/// A creation that is refused, for a malformed duration or for having no
/// work and no break, answers with the error and leaves the identifiers and
/// the report as they were. One that succeeds answers with the notification,
/// takes the next identifier and reports itself on the output stream.
pub open spec fn creation_settled(
    r: Result<Notification, UserInputHandlerError>,
    plan: CreationPlan,
    created_at: int,
    queued: bool,
    id_before: u16,
    id_after: u16,
    before: OutputAccumulater,
    after: OutputAccumulater,
) -> bool {
    match plan {
        CreationPlan::Malformed(value) => {
            &&& r matches Err(
                UserInputHandlerError::NotificationError(NotificationError::NewNotification(e)),
            )
            &&& e.message() == Some(bad_arg_text(value))
            &&& id_after == id_before
            &&& after == before
        },
        CreationPlan::Empty => {
            &&& r matches Err(
                UserInputHandlerError::NotificationError(NotificationError::EmptyTimeValues),
            )
            &&& id_after == id_before
            &&& after == before
        },
        CreationPlan::Creates(work_time, break_time) => {
            &&& r matches Ok(notification)
            &&& notification.wf()
            &&& notification@ == created_view(id_before, work_time, break_time, created_at)
            &&& id_after == id_before + 1
            &&& said(
                before,
                after,
                OutputType::Println,
                if queued {
                    queued_text(id_before)
                } else {
                    created_text(id_before)
                },
            )
        },
    }
}

/// A creation at `created_at` can be carried out: where it creates, an
/// identifier is left and the phases end inside the supported range of
/// instants.
pub open spec fn creation_fits(plan: CreationPlan, created_at: Timestamp, id_manager: u16) -> bool {
    plan matches CreationPlan::Creates(work_time, break_time) ==> id_manager < u16::MAX
        && Notification::can_hold(created_at, work_time, break_time)
}

/// Builds a notification and reports it with the line for a plain or for a
/// queued creation.
fn create_with(
    work: Option<&str>,
    rest: Option<&str>,
    configuration: &Configuration,
    created_at: Timestamp,
    queued: bool,
    id_manager: &mut u16,
    output: &mut OutputAccumulater,
) -> (r: Result<Notification, UserInputHandlerError>)
    requires
        creation_fits(
            creation_plan(text_of(work), text_of(rest), *configuration),
            created_at,
            *old(id_manager),
        ),
    ensures
        creation_settled(
            r,
            creation_plan(text_of(work), text_of(rest), *configuration),
            created_at@,
            queued,
            *old(id_manager),
            *final(id_manager),
            *old(output),
            *final(output),
        ),
{
    match get_new_notification(work, rest, id_manager, created_at, configuration) {
        Err(e) => Err(UserInputHandlerError::NotificationError(e)),
        Ok(notification) => {
            let id = notification.get_id();
            let line = String::from_str("Notification (id: ").concat(
                decimal_string(id as u64).as_str(),
            );
            let line = if queued {
                line.concat(") created and queued")
            } else {
                line.concat(") created")
            };
            output.push(OutputType::Println, line);
            Ok(notification)
        },
    }
}

/// Creates a notification whose timeline begins `now`.
///
/// A duration that is given but is no number is refused, and so is a
/// creation with no work and no break: it takes no identifier and reports
/// nothing. Otherwise the minutes are settled from the command line, the
/// configuration and the built-in defaults, the notification takes the next
/// identifier, the report gains the line of the creation, and the
/// notification comes back for the session to store, to spawn and to register.
pub fn handle_create(
    work: Option<&str>,
    rest: Option<&str>,
    configuration: &Configuration,
    now: Timestamp,
    id_manager: &mut u16,
    output: &mut OutputAccumulater,
) -> (r: Result<Notification, UserInputHandlerError>)
    requires
        creation_fits(
            creation_plan(text_of(work), text_of(rest), *configuration),
            now,
            *old(id_manager),
        ),
    ensures
        creation_settled(
            r,
            creation_plan(text_of(work), text_of(rest), *configuration),
            now@,
            false,
            *old(id_manager),
            *final(id_manager),
            *old(output),
            *final(output),
        ),
{
    create_with(work, rest, configuration, now, false, id_manager, output)
}

/// Creates a notification that follows the one that expires last: its
/// timeline begins at the last phase boundary of `latest`, or `now` where
/// the live table is empty. In everything else it is a creation.
pub fn handle_queue(
    work: Option<&str>,
    rest: Option<&str>,
    configuration: &Configuration,
    latest: Option<&Notification>,
    now: Timestamp,
    id_manager: &mut u16,
    output: &mut OutputAccumulater,
) -> (r: Result<Notification, UserInputHandlerError>)
    requires
        now.wf(),
        latest matches Some(n) ==> n.wf(),
        creation_fits(
            creation_plan(text_of(work), text_of(rest), *configuration),
            queue_start_at(owned(latest), now),
            *old(id_manager),
        ),
    ensures
        creation_settled(
            r,
            creation_plan(text_of(work), text_of(rest), *configuration),
            queue_start_at(owned(latest), now)@,
            true,
            *old(id_manager),
            *final(id_manager),
            *old(output),
            *final(output),
        ),
{
    let created_at = queue_start(latest, now);
    create_with(work, rest, configuration, created_at, true, id_manager, output)
}

/// What a deletion leaves behind.
///
/// Deleting one notification fails where the live table does not hold it or
/// no timer is registered for it: nothing is asked of the store, the registry
/// stays as it was, and the failure is reported on the error stream.
/// Otherwise the entry leaves the registry, the store is asked to archive
/// and then to delete the row, and the deletion is reported on the output
/// stream. Deleting everything empties the registry, asks the store to
/// archive and then to delete every row, and reports on the output stream.
pub open spec fn deletion_settled(
    ops: Seq<StoreOp>,
    id: Option<u16>,
    found: bool,
    registry_before: Map<u16, JoinHandle<()>>,
    registry_after: Map<u16, JoinHandle<()>>,
    before: OutputAccumulater,
    after: OutputAccumulater,
) -> bool {
    match id {
        Some(id) => if !found {
            &&& ops == Seq::<StoreOp>::empty()
            &&& registry_after == registry_before
            &&& said(before, after, OutputType::Error, delete_failed_text(not_exist_text(id)))
        } else if !registry_before.contains_key(id) {
            &&& ops == Seq::<StoreOp>::empty()
            &&& registry_after == registry_before
            &&& said(before, after, OutputType::Error, delete_failed_text(no_task_text(id)))
        } else {
            &&& ops == retire_ops(id)
            &&& registry_after == registry_before.remove(id)
            &&& said(before, after, OutputType::Println, deleted_text(id))
        },
        None => {
            &&& ops == retire_all_ops()
            &&& registry_after == Map::<u16, JoinHandle<()>>::empty()
            &&& said(before, after, OutputType::Println, all_deleted_text())
        },
    }
}

/// Deletes the notification `id`, or every notification where `id` is none.
///
/// `row` is what reading `id` from the live table gave. A deletion that
/// fails is reported as an error line and changes nothing; one that succeeds
/// cancels the timer, removes its entry and answers with the operations that
/// move the row to the archive. Deleting everything cancels every timer,
/// empties the registry and answers with the operations that move every row.
pub fn handle_delete(
    id: Option<u16>,
    row: Option<&Notification>,
    registry: &mut TaskRegistry,
    output: &mut OutputAccumulater,
) -> (r: Vec<StoreOp>)
    ensures
        deletion_settled(
            r@,
            id,
            row is Some,
            old(registry)@,
            final(registry)@,
            *old(output),
            *final(output),
        ),
{
    match id {
        Some(id) => match delete_notification(id, row, registry) {
            Ok(ops) => {
                let line = String::from_str("Notification (id: ").concat(
                    decimal_string(id as u64).as_str(),
                ).concat(") deleted");
                output.push(OutputType::Println, line);
                ops
            },
            Err(e) => {
                let line = String::from_str("Error: ").concat(e.describe().as_str());
                output.push(OutputType::Error, line);
                let ops: Vec<StoreOp> = Vec::new();
                assert(ops@ =~= Seq::<StoreOp>::empty());
                ops
            },
        },
        None => {
            let ops = delete_all_notifications(registry);
            output.push(OutputType::Println, String::from_str("All Notifications deleted"));
            ops
        },
    }
}

/// The rows of the table of notifications at `now`, one for each
/// notification in their order.
pub fn list_rows(notifications: &Vec<Notification>, now: Timestamp, show_percentage: bool) -> (r:
    Vec<Vec<String>>)
    requires
        now.wf(),
        forall|i: int| 0 <= i < notifications@.len() ==> (#[trigger] notifications@[i]).wf(),
    ensures
        r@.len() == notifications@.len(),
        forall|i: int|
            0 <= i < r@.len() ==> is_row_of(
                texts((#[trigger] r@[i])@),
                notifications@[i]@,
                now@,
                show_percentage,
            ),
{
    let mut rows: Vec<Vec<String>> = Vec::new();
    let mut i: usize = 0;
    while i < notifications.len()
        invariant
            0 <= i <= notifications@.len(),
            now.wf(),
            forall|k: int| 0 <= k < notifications@.len() ==> (#[trigger] notifications@[k]).wf(),
            rows@.len() == i,
            forall|k: int|
                0 <= k < rows@.len() ==> is_row_of(
                    texts((#[trigger] rows@[k])@),
                    notifications@[k]@,
                    now@,
                    show_percentage,
                ),
        decreases notifications@.len() - i,
    {
        let row = notifications[i].fields(now, show_percentage);
        rows.push(row);
        i = i + 1;
    }
    rows
}

/// The rows of the history, one for each archived notification in their order.
pub fn history_rows(archived: &Vec<ArchivedNotification>) -> (r: Vec<Vec<String>>)
    requires
        forall|i: int| 0 <= i < archived@.len() ==> (#[trigger] archived@[i]).wf(),
    ensures
        r@.len() == archived@.len(),
        forall|i: int|
            0 <= i < r@.len() ==> is_archived_row_of(texts((#[trigger] r@[i])@), archived@[i]@),
{
    let mut rows: Vec<Vec<String>> = Vec::new();
    let mut i: usize = 0;
    while i < archived.len()
        invariant
            0 <= i <= archived@.len(),
            forall|k: int| 0 <= k < archived@.len() ==> (#[trigger] archived@[k]).wf(),
            rows@.len() == i,
            forall|k: int|
                0 <= k < rows@.len() ==> is_archived_row_of(
                    texts((#[trigger] rows@[k])@),
                    archived@[k]@,
                ),
        decreases archived@.len() - i,
    {
        let row = archived[i].fields();
        rows.push(row);
        i = i + 1;
    }
    rows
}

/// Shows a drawing below an empty line, through the log, and then reports
/// `done` on the output stream.
pub fn report_drawing(drawing: &str, done: &'static str, output: &mut OutputAccumulater)
    ensures
        drew(*old(output), *final(output), drawing@, done@),
{
    output.push(OutputType::Info, String::from_str("\n").concat(drawing));
    output.push(OutputType::Println, String::from_str(done));
}

/// Shows the given rows as the table of notifications and reports success.
pub fn handle_list(rows: &Vec<Vec<String>>, output: &mut OutputAccumulater)
    ensures
        drew(
            *old(output),
            *final(output),
            table_text(header_cells(), row_texts(rows@)),
            "List succeed"@,
        ),
{
    let headers = Notification::headers();
    let table = render_table(&headers, rows);
    report_drawing(table.as_str(), "List succeed", output);
}

/// Shows the given rows as the history and reports success. Where the
/// history is to be cleared, the answer holds the operation that empties the
/// archive; the rows shown are those read before.
pub fn handle_history(rows: &Vec<Vec<String>>, should_clear: bool, output: &mut OutputAccumulater) -> (r:
    Vec<StoreOp>)
    ensures
        drew(
            *old(output),
            *final(output),
            table_text(archived_header_cells(), row_texts(rows@)),
            "History succeed"@,
        ),
        r@ == if should_clear {
            seq![StoreOp::ClearArchive]
        } else {
            Seq::<StoreOp>::empty()
        },
{
    let headers = ArchivedNotification::headers();
    let table = render_table(&headers, rows);
    report_drawing(table.as_str(), "History succeed", output);
    let mut ops: Vec<StoreOp> = Vec::new();
    if should_clear {
        ops.push(StoreOp::ClearArchive);
        assert(ops@ =~= seq![StoreOp::ClearArchive]);
    }
    ops
}

/// Shows the report of a trial delivery and reports that it was made.
pub fn handle_test(report: &str, output: &mut OutputAccumulater)
    ensures
        drew(*old(output), *final(output), report@, "Notification Test called"@),
{
    report_drawing(report, "Notification Test called", output);
}

/// How the parser of command lines refused a line.
#[derive(Clone, Copy, Debug, PartialEq, Eq, Structural)]
pub enum MatchFailure {
    /// The line asked for help.
    DisplayHelp,
    /// The line asked for the version.
    DisplayVersion,
    /// The line does not fit the commands.
    Other,
}

/// Settles a command line that the parser refused: a request for help is
/// answered with the help text between two line ends, a request for the
/// version with an empty line, and neither is an error; any other refusal is
/// the error of a line that does not fit, and reports nothing.
pub fn get_matches(kind: MatchFailure, rendered: &str, output: &mut OutputAccumulater) -> (r: Result<
    (),
    UserInputHandlerError,
>)
    ensures
        match kind {
            MatchFailure::DisplayHelp => r is Ok && said(
                *old(output),
                *final(output),
                OutputType::Print,
                "\n"@ + rendered@ + "\n"@,
            ),
            MatchFailure::DisplayVersion => r is Ok && said(
                *old(output),
                *final(output),
                OutputType::Println,
                ""@,
            ),
            MatchFailure::Other => {
                &&& r matches Err(UserInputHandlerError::CommandMatchError(message))
                &&& message@ == rendered@
                &&& *final(output) == *old(output)
            },
        },
{
    match kind {
        MatchFailure::DisplayHelp => {
            output.push(OutputType::Print, String::from_str("\n").concat(rendered).concat("\n"));
            Ok(())
        },
        MatchFailure::DisplayVersion => {
            output.push(OutputType::Println, String::from_str(""));
            Ok(())
        },
        MatchFailure::Other => Err(
            UserInputHandlerError::CommandMatchError(String::from_str(rendered)),
        ),
    }
}

/// A command together with what the session fetched for it.
#[derive(Debug)]
pub enum Event {
    /// Create a notification; the minutes as written on the command line.
    Create { work: Option<String>, rest: Option<String> },
    /// Queue a notification; `latest` is the live row that expires last.
    Queue { work: Option<String>, rest: Option<String>, latest: Option<Notification> },
    /// Delete one notification; `row` is what the live table holds under `id`.
    Delete { id: u16, row: Option<Notification> },
    /// Delete every notification.
    DeleteAll,
    /// List the notifications; `rows` are the live rows.
    List { show_percentage: bool, rows: Vec<Notification> },
    /// Show the history; `rows` are the archived rows, newest first.
    History { should_clear: bool, rows: Vec<ArchivedNotification> },
    /// Report a trial delivery; `report` is what the channels answered.
    Test { report: String },
    /// Leave the program.
    Exit,
    /// Clear the screen.
    Clear,
}

/// What the session has to do after a command was handled.
#[derive(Debug)]
pub struct Reaction {
    /// The requests to the record store, in their order.
    pub ops: Vec<StoreOp>,
    /// The notification whose timer is to be spawned and registered.
    pub spawn: Option<Notification>,
    /// Whether the program is to end.
    pub exit: bool,
    /// Whether the screen is to be cleared.
    pub clear_screen: bool,
}

/// The characters of an argument, if it is there.
pub open spec fn chars_of(value: Option<String>) -> Option<Seq<char>> {
    match value {
        Some(given) => Some(given@),
        None => None,
    }
}

/// The views of notifications, one by one.
pub open spec fn views(rows: Seq<Notification>) -> Seq<NotificationView> {
    Seq::new(rows.len(), |i: int| rows[i]@)
}

/// The views of archived notifications, one by one.
pub open spec fn archived_views(rows: Seq<ArchivedNotification>) -> Seq<ArchivedNotificationView> {
    Seq::new(rows.len(), |i: int| rows[i]@)
}

/// The rows show the given notifications, one row for each in their order.
pub open spec fn rows_show(
    rows: Seq<Seq<Seq<char>>>,
    shown: Seq<NotificationView>,
    now: int,
    show_percentage: bool,
) -> bool {
    &&& rows.len() == shown.len()
    &&& forall|i: int|
        0 <= i < rows.len() ==> is_row_of(#[trigger] rows[i], shown[i], now, show_percentage)
}

/// The rows show the given archived notifications, one row for each in
/// their order.
pub open spec fn rows_show_archived(
    rows: Seq<Seq<Seq<char>>>,
    shown: Seq<ArchivedNotificationView>,
) -> bool {
    &&& rows.len() == shown.len()
    &&& forall|i: int| 0 <= i < rows.len() ==> is_archived_row_of(#[trigger] rows[i], shown[i])
}

/// The report gained the table of the given notifications and the line of
/// success.
pub open spec fn listed(
    before: OutputAccumulater,
    after: OutputAccumulater,
    shown: Seq<NotificationView>,
    now: int,
    show_percentage: bool,
) -> bool {
    exists|rows: Seq<Seq<Seq<char>>>|
        #[trigger] rows_show(rows, shown, now, show_percentage) && drew(
            before,
            after,
            table_text(header_cells(), rows),
            "List succeed"@,
        )
}

/// The report gained the history of the given archived notifications and
/// the line of success: a row for each, in their order.
pub open spec fn history_listed(
    before: OutputAccumulater,
    after: OutputAccumulater,
    shown: Seq<ArchivedNotificationView>,
) -> bool {
    exists|rows: Seq<Seq<Seq<char>>>|
        #[trigger] rows_show_archived(rows, shown) && drew(
            before,
            after,
            table_text(archived_header_cells(), rows),
            "History succeed"@,
        )
}

impl Event {
    /// The event can be handled at `now`: what was fetched is valid, and a
    /// creation that is not refused has an identifier left and its phases
    /// end inside the supported range of instants.
    pub open spec fn wf(&self, now: Timestamp, id_manager: u16, configuration: Configuration) -> bool {
        &&& now.wf()
        &&& match *self {
            Event::Create { work, rest } => creation_fits(
                creation_plan(chars_of(work), chars_of(rest), configuration),
                now,
                id_manager,
            ),
            Event::Queue { work, rest, latest } => {
                &&& latest matches Some(n) ==> n.wf()
                &&& creation_fits(
                    creation_plan(chars_of(work), chars_of(rest), configuration),
                    queue_start_at(latest, now),
                    id_manager,
                )
            },
            Event::List { show_percentage, rows } => forall|i: int|
                0 <= i < rows@.len() ==> (#[trigger] rows@[i]).wf(),
            Event::History { should_clear, rows } => forall|i: int|
                0 <= i < rows@.len() ==> (#[trigger] rows@[i]).wf(),
            _ => true,
        }
    }
}

/// A reference to the notification, if it is there.
fn peek(value: &Option<Notification>) -> (r: Option<&Notification>)
    ensures
        owned(r) == *value,
{
    match value {
        Some(n) => Some(n),
        None => None,
    }
}

/// The argument as a borrowed text, if it is there.
fn arg<'a>(value: &'a Option<String>) -> (r: Option<&'a str>)
    ensures
        text_of(r) == chars_of(*value),
{
    match value {
        Some(given) => Some(given.as_str()),
        None => None,
    }
}

/// The answer to a creation: store the row, then spawn and register the timer.
fn creation(notification: Notification) -> (r: Reaction)
    requires
        notification.wf(),
    ensures
        r.spawn == Some(notification),
        r.ops@.len() == 1,
        r.ops@[0] matches StoreOp::Insert(row) && row.wf() && row@ == notification@,
        !r.exit,
        !r.clear_screen,
{
    let mut ops: Vec<StoreOp> = Vec::new();
    ops.push(StoreOp::Insert(notification.to_row()));
    Reaction { ops, spawn: Some(notification), exit: false, clear_screen: false }
}

/// An answer that asks for store operations only.
fn stored(ops: Vec<StoreOp>) -> (r: Reaction)
    ensures
        r.ops == ops,
        r.spawn is None,
        !r.exit,
        !r.clear_screen,
{
    Reaction { ops, spawn: None, exit: false, clear_screen: false }
}

/// The answer to a creation: where it succeeds, the session is asked to
/// store the row of the notification and to spawn and register its timer.
pub open spec fn creation_answered(
    r: Result<Reaction, UserInputHandlerError>,
    plan: CreationPlan,
    created_at: int,
    queued: bool,
    id_before: u16,
    id_after: u16,
    before: OutputAccumulater,
    after: OutputAccumulater,
) -> bool {
    match r {
        Ok(reaction) => {
            &&& reaction.spawn matches Some(notification)
            &&& creation_settled(
                Ok(notification),
                plan,
                created_at,
                queued,
                id_before,
                id_after,
                before,
                after,
            )
            &&& reaction.ops@.len() == 1
            &&& reaction.ops@[0] matches StoreOp::Insert(row)
            &&& row.wf()
            &&& row@ == notification@
            &&& !reaction.exit
            &&& !reaction.clear_screen
        },
        Err(e) => creation_settled(
            Err(e),
            plan,
            created_at,
            queued,
            id_before,
            id_after,
            before,
            after,
        ),
    }
}

/// The answer asks for these store operations and for nothing else.
pub open spec fn only_stores(r: Result<Reaction, UserInputHandlerError>, ops: Seq<StoreOp>) -> bool {
    &&& r matches Ok(reaction)
    &&& reaction.ops@ == ops
    &&& reaction.spawn is None
    &&& !reaction.exit
    &&& !reaction.clear_screen
}

/// Handles one command of the session.
///
/// A creation that is refused changes nothing: no identifier is taken, the
/// registry and the report stay as they were, and no store operation is
/// asked for. A creation that succeeds takes the next identifier, reports
/// itself, and asks the session to store the row and to spawn and register
/// the timer. A deletion cancels and retires as `handle_delete` says. Listing
/// and history show their tables. Leaving and clearing only tell the session
/// to do so.
pub fn handle(
    event: Event,
    now: Timestamp,
    id_manager: &mut u16,
    registry: &mut TaskRegistry,
    configuration: &Configuration,
    output: &mut OutputAccumulater,
) -> (r: Result<Reaction, UserInputHandlerError>)
    requires
        event.wf(now, *old(id_manager), *configuration),
    ensures
        match event {
            Event::Create { work, rest } => {
                &&& final(registry)@ == old(registry)@
                &&& creation_answered(
                    r,
                    creation_plan(chars_of(work), chars_of(rest), *configuration),
                    now@,
                    false,
                    *old(id_manager),
                    *final(id_manager),
                    *old(output),
                    *final(output),
                )
            },
            Event::Queue { work, rest, latest } => {
                &&& final(registry)@ == old(registry)@
                &&& creation_answered(
                    r,
                    creation_plan(chars_of(work), chars_of(rest), *configuration),
                    queue_start_at(latest, now)@,
                    true,
                    *old(id_manager),
                    *final(id_manager),
                    *old(output),
                    *final(output),
                )
            },
            Event::Delete { id, row } => {
                &&& r matches Ok(reaction)
                &&& reaction.spawn is None
                &&& !reaction.exit
                &&& !reaction.clear_screen
                &&& *final(id_manager) == *old(id_manager)
                &&& deletion_settled(
                    reaction.ops@,
                    Some(id),
                    row is Some,
                    old(registry)@,
                    final(registry)@,
                    *old(output),
                    *final(output),
                )
            },
            Event::DeleteAll => {
                &&& r matches Ok(reaction)
                &&& reaction.spawn is None
                &&& !reaction.exit
                &&& !reaction.clear_screen
                &&& *final(id_manager) == *old(id_manager)
                &&& deletion_settled(
                    reaction.ops@,
                    None,
                    false,
                    old(registry)@,
                    final(registry)@,
                    *old(output),
                    *final(output),
                )
            },
            Event::List { show_percentage, rows } => {
                &&& only_stores(r, Seq::<StoreOp>::empty())
                &&& *final(id_manager) == *old(id_manager)
                &&& final(registry)@ == old(registry)@
                &&& listed(*old(output), *final(output), views(rows@), now@, show_percentage)
            },
            Event::History { should_clear, rows } => {
                &&& only_stores(
                    r,
                    if should_clear {
                        seq![StoreOp::ClearArchive]
                    } else {
                        Seq::<StoreOp>::empty()
                    },
                )
                &&& *final(id_manager) == *old(id_manager)
                &&& final(registry)@ == old(registry)@
                &&& history_listed(*old(output), *final(output), archived_views(rows@))
            },
            Event::Test { report } => {
                &&& only_stores(r, Seq::<StoreOp>::empty())
                &&& *final(id_manager) == *old(id_manager)
                &&& final(registry)@ == old(registry)@
                &&& drew(*old(output), *final(output), report@, "Notification Test called"@)
            },
            Event::Exit => {
                &&& r matches Ok(reaction)
                &&& reaction.ops@ == Seq::<StoreOp>::empty()
                &&& reaction.spawn is None
                &&& reaction.exit
                &&& !reaction.clear_screen
                &&& *final(id_manager) == *old(id_manager)
                &&& final(registry)@ == old(registry)@
                &&& *final(output) == *old(output)
            },
            Event::Clear => {
                &&& r matches Ok(reaction)
                &&& reaction.ops@ == Seq::<StoreOp>::empty()
                &&& reaction.spawn is None
                &&& !reaction.exit
                &&& reaction.clear_screen
                &&& *final(id_manager) == *old(id_manager)
                &&& final(registry)@ == old(registry)@
                &&& *final(output) == *old(output)
            },
        },
{
    match &event {
        Event::Create { work, rest } => {
            match handle_create(arg(work), arg(rest), configuration, now, id_manager, output) {
                Ok(notification) => Ok(creation(notification)),
                Err(e) => Err(e),
            }
        },
        Event::Queue { work, rest, latest } => {
            match handle_queue(
                arg(work),
                arg(rest),
                configuration,
                peek(latest),
                now,
                id_manager,
                output,
            ) {
                Ok(notification) => Ok(creation(notification)),
                Err(e) => Err(e),
            }
        },
        Event::Delete { id, row } => Ok(stored(handle_delete(Some(*id), peek(row), registry, output))),
        Event::DeleteAll => Ok(stored(handle_delete(None, None, registry, output))),
        Event::List { show_percentage, rows } => {
            let table = list_rows(rows, now, *show_percentage);
            handle_list(&table, output);
            proof {
                let shown = row_texts(table@);
                assert forall|i: int| 0 <= i < shown.len() implies is_row_of(
                    #[trigger] shown[i],
                    views(rows@)[i],
                    now@,
                    *show_percentage,
                ) by {
                    assert(shown[i] == texts(table@[i]@));
                }
                assert(rows_show(shown, views(rows@), now@, *show_percentage));
                assert(listed(*old(output), *output, views(rows@), now@, *show_percentage));
            }
            Ok(stored(Vec::new()))
        },
        Event::History { should_clear, rows } => {
            let table = history_rows(rows);
            let ops = handle_history(&table, *should_clear, output);
            proof {
                let shown = row_texts(table@);
                assert forall|i: int| 0 <= i < shown.len() implies is_archived_row_of(
                    #[trigger] shown[i],
                    archived_views(rows@)[i],
                ) by {
                    assert(shown[i] == texts(table@[i]@));
                }
                assert(rows_show_archived(shown, archived_views(rows@)));
                assert(history_listed(*old(output), *output, archived_views(rows@)));
            }
            Ok(stored(ops))
        },
        Event::Test { report } => {
            handle_test(report.as_str(), output);
            Ok(stored(Vec::new()))
        },
        Event::Exit => Ok(Reaction { ops: Vec::new(), spawn: None, exit: true, clear_screen: false }),
        Event::Clear => Ok(
            Reaction { ops: Vec::new(), spawn: None, exit: false, clear_screen: true },
        ),
    }
}

} // verus!
