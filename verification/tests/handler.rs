use pomodoro::clock::Timestamp;
use pomodoro::command::handler::user_input::{
    get_matches, handle, handle_create, handle_delete, handle_history, handle_list, handle_queue,
    handle_test, history_rows, list_rows, Event, MatchFailure,
};
use pomodoro::command::output::{OutputAccumulater, OutputType};
use pomodoro::configuration::Configuration;
use pomodoro::error::{NotificationError, UserInputHandlerError};
use pomodoro::notification::archived_notification::ArchivedNotification;
use pomodoro::notification::Notification;
use pomodoro::registry::TaskRegistry;
use pomodoro::store::StoreOp;

fn runtime() -> tokio::runtime::Runtime {
    tokio::runtime::Builder::new_current_thread().enable_all().build().unwrap()
}

fn sleeper(rt: &tokio::runtime::Runtime) -> tokio::task::JoinHandle<()> {
    rt.spawn(async {
        tokio::time::sleep(std::time::Duration::from_secs(3600)).await;
    })
}

fn now() -> Timestamp {
    Timestamp::new(1_650_000_000, 0).unwrap()
}

/// A record store of two tables that carries out what the library asks for.
struct Tables {
    live: Vec<Notification>,
    archive: Vec<Notification>,
}

impl Tables {
    fn new() -> Self {
        Tables { live: Vec::new(), archive: Vec::new() }
    }

    fn get(&self, id: u16) -> Option<Notification> {
        self.live.iter().find(|n| n.get_id() == id).map(|n| n.duplicate())
    }

    fn latest(&self) -> Option<Notification> {
        let mut latest: Option<&Notification> = None;
        for n in &self.live {
            let (_, _, _, _, _, w, b) = n.get_values();
            let later = match latest {
                None => true,
                Some(l) => {
                    let (_, _, _, _, _, lw, lb) = l.get_values();
                    lb.is_before(&b) || (lb == b && lw.is_before(&w))
                }
            };
            if later {
                latest = Some(n);
            }
        }
        latest.map(|n| n.duplicate())
    }

    fn apply(&mut self, ops: Vec<StoreOp>) {
        for op in ops {
            match op {
                StoreOp::Insert(row) => {
                    assert!(row.is_valid());
                    self.live.push(Notification::convert_to_notification(row));
                }
                StoreOp::Archive(id) => {
                    for n in self.live.iter().filter(|n| n.get_id() == id) {
                        self.archive.push(n.duplicate());
                    }
                }
                StoreOp::Delete(id) => self.live.retain(|n| n.get_id() != id),
                StoreOp::ArchiveAll => {
                    for n in &self.live {
                        self.archive.push(n.duplicate());
                    }
                }
                StoreOp::DeleteAll => self.live.clear(),
                StoreOp::ClearArchive => self.archive.clear(),
            }
        }
    }

    fn ids(rows: &Vec<Notification>) -> Vec<u16> {
        rows.iter().map(|n| n.get_id()).collect()
    }
}

struct Session {
    rt: tokio::runtime::Runtime,
    id_manager: u16,
    registry: TaskRegistry,
    configuration: Configuration,
    tables: Tables,
}

impl Session {
    fn new() -> Self {
        Session {
            rt: runtime(),
            id_manager: 1,
            registry: TaskRegistry::new(),
            configuration: Configuration::default(),
            tables: Tables::new(),
        }
    }

    fn run(&mut self, event: Event, at: Timestamp) -> Result<Vec<String>, UserInputHandlerError> {
        let mut output = OutputAccumulater::new();
        let reaction = handle(
            event,
            at,
            &mut self.id_manager,
            &mut self.registry,
            &self.configuration,
            &mut output,
        )?;
        self.tables.apply(reaction.ops);
        if let Some(notification) = reaction.spawn {
            let id = notification.get_id();
            assert!(self.registry.register(id, sleeper(&self.rt)).is_ok());
        }
        Ok(output.take_body())
    }

    fn create(&mut self, work: &str, rest: &str) -> Result<Vec<String>, UserInputHandlerError> {
        self.run(
            Event::Create { work: Some(work.to_string()), rest: Some(rest.to_string()) },
            now(),
        )
    }

    fn queue(&mut self, work: &str, rest: &str, at: Timestamp) -> Result<Vec<String>, UserInputHandlerError> {
        let latest = self.tables.latest();
        self.run(
            Event::Queue { work: Some(work.to_string()), rest: Some(rest.to_string()), latest },
            at,
        )
    }

    fn delete(&mut self, id: u16) -> Vec<String> {
        let row = self.tables.get(id);
        self.run(Event::Delete { id, row }, now()).unwrap()
    }

    fn list(&mut self, at: Timestamp) -> Vec<String> {
        let rows = self.tables.live.iter().map(|n| n.duplicate()).collect();
        self.run(Event::List { show_percentage: true, rows }, at).unwrap()
    }
}

#[test]
fn creating_with_both_durations_zero_changes_nothing() {
    let mut session = Session::new();
    session.create("25", "5").unwrap();

    let refused = session.create("0", "0");
    assert!(matches!(
        refused,
        Err(UserInputHandlerError::NotificationError(NotificationError::EmptyTimeValues))
    ));
    assert_eq!(
        "work_time and break_time both can not be zero both",
        refused.unwrap_err().describe()
    );
    assert_eq!(2, session.id_manager);
    assert_eq!(1, session.registry.len());
    assert_eq!(vec![1], Tables::ids(&session.tables.live));
    assert!(session.tables.archive.is_empty());

    let refused = session.queue("0", "0", now());
    assert!(refused.is_err());
    assert_eq!(2, session.id_manager);
    assert_eq!(1, session.registry.len());
    assert_eq!(vec![1], Tables::ids(&session.tables.live));

    // the refusal leaves the report untouched as well
    let mut output = OutputAccumulater::new();
    let mut id_manager = 9u16;
    let r = handle_create(
        Some("0"),
        Some("0"),
        &Configuration::default(),
        now(),
        &mut id_manager,
        &mut output,
    );
    assert!(r.is_err());
    assert_eq!(9, id_manager);
    assert!(output.take_body().is_empty());
}

#[test]
fn creating_with_a_malformed_duration_changes_nothing() {
    let mut session = Session::new();
    session.create("25", "5").unwrap();

    for (work, rest, quoted) in
        [("abc", "5", "abc"), ("25", "-1", "-1"), ("70000", "5", "70000"), ("x", "0", "x")]
    {
        let refused = session.create(work, rest);
        match &refused {
            Err(UserInputHandlerError::NotificationError(NotificationError::NewNotification(e))) => {
                assert_eq!(
                    format!("error occurred while parsing: failed to parse arg ({})", quoted),
                    e.describe()
                );
            }
            _ => panic!("a refusal is expected"),
        }
        assert!(session.queue(work, rest, now()).is_err());
        assert_eq!(2, session.id_manager);
        assert_eq!(1, session.registry.len());
        assert_eq!(vec![1], Tables::ids(&session.tables.live));
        assert!(session.tables.archive.is_empty());
    }
}

#[test]
fn a_refused_creation_is_handled_at_a_full_counter() {
    let mut output = OutputAccumulater::new();
    let mut id_manager = u16::MAX;
    let mut registry = TaskRegistry::new();
    let configuration = Configuration::default();
    let zero = Event::Create { work: Some("0".to_string()), rest: Some("0".to_string()) };
    let r = handle(zero, now(), &mut id_manager, &mut registry, &configuration, &mut output);
    assert!(matches!(
        r,
        Err(UserInputHandlerError::NotificationError(NotificationError::EmptyTimeValues))
    ));
    let bad = Event::Queue { work: Some("x".to_string()), rest: None, latest: None };
    let r = handle(bad, now(), &mut id_manager, &mut registry, &configuration, &mut output);
    assert!(matches!(
        r,
        Err(UserInputHandlerError::NotificationError(NotificationError::NewNotification(_)))
    ));
    assert_eq!(u16::MAX, id_manager);
    assert!(output.body().is_empty());
    assert!(output.kinds().is_empty());
}

#[test]
fn creating_stores_spawns_and_reports() {
    let mut session = Session::new();
    assert_eq!(vec!["Notification (id: 1) created"], session.create("25", "5").unwrap());
    assert_eq!(vec!["Notification (id: 2) created"], session.create("50", "0").unwrap());
    assert_eq!(3, session.id_manager);
    assert_eq!(2, session.registry.len());
    assert!(session.registry.contains(1));
    assert!(session.registry.contains(2));
    assert_eq!(vec![1, 2], Tables::ids(&session.tables.live));
    let stored = session.tables.get(2).unwrap();
    let (_, description, work, rest, created, work_end, break_end) = stored.get_values();
    assert_eq!(("sample", 50, 0), (description, work, rest));
    assert_eq!(now(), created);
    assert_eq!(now().plus_minutes(50), work_end);
    assert_eq!(work_end, break_end);

    // without arguments the defaults of the configuration decide
    session.configuration = Configuration::new(None, None, None, Some(30), Some(10));
    let lines = session.run(Event::Create { work: None, rest: None }, now()).unwrap();
    assert_eq!(vec!["Notification (id: 3) created"], lines);
    let stored = session.tables.get(3).unwrap();
    let (_, _, work, rest, _, _, _) = stored.get_values();
    assert_eq!((30, 10), (work, rest));
}

#[test]
fn create_then_list_shows_one_row() {
    let mut session = Session::new();
    session.create("25", "5").unwrap();
    let lines = session.list(now());
    assert_eq!(2, lines.len());
    assert_eq!("List succeed", lines[1]);
    assert!(lines[0].starts_with("\n┌"));
    let table: Vec<&str> = lines[0].lines().collect();
    // an empty first line, the frame, the headers, one line, one row, the frame
    assert_eq!(6, table.len());
    for header in [
        "id",
        "work_remaining (min)",
        "break_remaining (min)",
        "start_at",
        "expired_at (work)",
        "expired_at (break)",
        "description",
        "percentage",
    ] {
        assert!(table[2].contains(header));
    }
    let cells: Vec<&str> = table[4].split('│').map(|cell| cell.trim()).collect();
    assert_eq!("1", cells[1]);
    assert_eq!("25:00", cells[2]);
    assert_eq!("30:00", cells[3]);
    assert_eq!("sample", cells[7]);
    assert_eq!("0", cells[8]);

    let a_moment_later = Timestamp::new(1_650_000_000, 400_000_000).unwrap();
    let lines = session.list(a_moment_later);
    let table: Vec<&str> = lines[0].lines().collect();
    let cells: Vec<&str> = table[4].split('│').map(|cell| cell.trim()).collect();
    assert_eq!("24:59", cells[2]);
    assert_eq!("29:59", cells[3]);
    assert_eq!("0", cells[8]);
}

#[test]
fn deleting_an_id_that_was_never_created_reports_an_error() {
    let mut session = Session::new();
    session.create("25", "5").unwrap();
    let before = session.list(now());

    let lines = session.delete(7);
    assert_eq!(
        vec!["Error: deleting id (7) failed. Corresponding notification does not exist"],
        lines
    );
    assert!(lines[0].contains("does not exist"));
    assert_eq!(1, session.registry.len());
    assert_eq!(vec![1], Tables::ids(&session.tables.live));
    assert!(session.tables.archive.is_empty());
    assert_eq!(before, session.list(now()));
}

#[test]
fn deleting_an_existing_id_moves_its_row_to_the_archive() {
    let mut session = Session::new();
    session.create("25", "5").unwrap();
    session.create("10", "0").unwrap();
    session.create("1", "1").unwrap();

    assert_eq!(vec!["Notification (id: 2) deleted"], session.delete(2));
    assert_eq!(2, session.registry.len());
    assert!(!session.registry.contains(2));
    assert_eq!(vec![1, 3], Tables::ids(&session.tables.live));
    assert_eq!(vec![2], Tables::ids(&session.tables.archive));

    // a second deletion finds nothing
    let lines = session.delete(2);
    assert!(lines[0].contains("does not exist"));
    assert_eq!(2, session.registry.len());
    assert_eq!(vec![1, 3], Tables::ids(&session.tables.live));
    assert_eq!(vec![2], Tables::ids(&session.tables.archive));

    // a row without a timer cannot be deleted either
    assert!(session.registry.forget(3).is_ok());
    let lines = session.delete(3);
    assert_eq!(vec!["Error: failed to corresponding task (id: 3)"], lines);
    assert_eq!(vec![1, 3], Tables::ids(&session.tables.live));
}

#[test]
fn deleting_all_archives_every_row() {
    let mut session = Session::new();
    session.create("25", "5").unwrap();
    session.create("10", "0").unwrap();
    session.delete(1);
    session.create("1", "1").unwrap();

    let lines = session.run(Event::DeleteAll, now()).unwrap();
    assert_eq!(vec!["All Notifications deleted"], lines);
    assert_eq!(0, session.registry.len());
    assert!(session.tables.live.is_empty());
    assert_eq!(vec![1, 2, 3], Tables::ids(&session.tables.archive));

    let lines = session.run(Event::DeleteAll, now()).unwrap();
    assert_eq!(vec!["All Notifications deleted"], lines);
    assert_eq!(vec![1, 2, 3], Tables::ids(&session.tables.archive));
}

#[test]
fn queued_notifications_are_chained() {
    let mut session = Session::new();
    let lines = session.queue("25", "5", now()).unwrap();
    assert_eq!(vec!["Notification (id: 1) created and queued"], lines);
    let later = Timestamp::new(1_650_000_100, 0).unwrap();
    session.queue("10", "2", later).unwrap();
    session.queue("0", "3", later).unwrap();

    let first = session.tables.get(1).unwrap();
    let second = session.tables.get(2).unwrap();
    let third = session.tables.get(3).unwrap();
    assert_eq!(now(), first.get_start_at());
    let (_, _, _, _, _, work_end, break_end) = first.get_values();
    assert_eq!(work_end.later(&break_end), second.get_start_at());
    assert_eq!(now().plus_minutes(30), second.get_start_at());
    let (_, _, _, _, _, work_end, break_end) = second.get_values();
    assert_eq!(work_end.later(&break_end), third.get_start_at());
    assert_eq!(now().plus_minutes(42), third.get_start_at());

    // a creation in between does not wait
    session.create("1", "0").unwrap();
    assert_eq!(now(), session.tables.get(4).unwrap().get_start_at());
    // the next queued one follows the row that expires last
    session.queue("5", "5", later).unwrap();
    assert_eq!(now().plus_minutes(45), session.tables.get(5).unwrap().get_start_at());
    assert_eq!(5, session.registry.len());
}

#[test]
fn history_shows_the_archive_and_clears_it_on_request() {
    let mut session = Session::new();
    session.create("25", "5").unwrap();
    session.create("0", "5").unwrap();
    session.run(Event::DeleteAll, now()).unwrap();

    let rows: Vec<ArchivedNotification> = session
        .tables
        .archive
        .iter()
        .rev()
        .map(|n| ArchivedNotification::from(n.duplicate()))
        .collect();
    let lines = session.run(Event::History { should_clear: false, rows }, now()).unwrap();
    assert_eq!(2, lines.len());
    assert_eq!("History succeed", lines[1]);
    let table: Vec<&str> = lines[0].lines().collect();
    assert_eq!(7, table.len());
    assert!(table[2].contains("started_at"));
    let cells: Vec<&str> = table[4].split('│').map(|cell| cell.trim()).collect();
    assert_eq!(("2", "0", "5", "N/A"), (cells[1], cells[2], cells[3], cells[5]));
    let cells: Vec<&str> = table[5].split('│').map(|cell| cell.trim()).collect();
    assert_eq!(("1", "25", "5", "sample"), (cells[1], cells[2], cells[3], cells[7]));
    assert_eq!(2, session.tables.archive.len());

    let lines = session.run(Event::History { should_clear: true, rows: Vec::new() }, now()).unwrap();
    assert_eq!("History succeed", lines[1]);
    assert!(session.tables.archive.is_empty());
}

#[test]
fn the_other_commands_only_report() {
    let mut session = Session::new();
    let lines = session.run(Event::Test { report: "┌─┐\n└─┘".to_string() }, now()).unwrap();
    assert_eq!(vec!["\n┌─┐\n└─┘", "Notification Test called"], lines);

    let mut output = OutputAccumulater::new();
    let mut id_manager = 1u16;
    let mut registry = TaskRegistry::new();
    let configuration = Configuration::default();
    let reaction =
        handle(Event::Exit, now(), &mut id_manager, &mut registry, &configuration, &mut output)
            .unwrap();
    assert!(reaction.exit && !reaction.clear_screen);
    assert!(reaction.ops.is_empty() && reaction.spawn.is_none());
    let reaction =
        handle(Event::Clear, now(), &mut id_manager, &mut registry, &configuration, &mut output)
            .unwrap();
    assert!(!reaction.exit && reaction.clear_screen);
    assert!(output.take_body().is_empty());
    assert_eq!(1, id_manager);
}

#[test]
fn the_handlers_report_line_by_line() {
    let configuration = Configuration::default();
    let mut output = OutputAccumulater::new();
    let mut id_manager = 41u16;
    let created =
        handle_create(Some("1"), None, &configuration, now(), &mut id_manager, &mut output).unwrap();
    assert_eq!(41, created.get_id());
    let queued = handle_queue(
        None,
        Some("2"),
        &configuration,
        Some(&created),
        now(),
        &mut id_manager,
        &mut output,
    )
    .unwrap();
    assert_eq!(now().plus_minutes(6), queued.get_start_at());
    assert_eq!(43, id_manager);

    let rt = runtime();
    let mut registry = TaskRegistry::new();
    registry.register(41, sleeper(&rt)).unwrap();
    let ops = handle_delete(Some(41), Some(&created), &mut registry, &mut output);
    assert!(matches!(ops[..], [StoreOp::Archive(41), StoreOp::Delete(41)]));
    let ops = handle_delete(Some(42), None, &mut registry, &mut output);
    assert!(ops.is_empty());
    let ops = handle_delete(None, None, &mut registry, &mut output);
    assert!(matches!(ops[..], [StoreOp::ArchiveAll, StoreOp::DeleteAll]));

    let rows = list_rows(&vec![created.duplicate(), queued], now(), false);
    assert_eq!(2, rows.len());
    assert_eq!(("41", "01:00", "06:00", ""), (&rows[0][0][..], &rows[0][1][..], &rows[0][2][..], &rows[0][7][..]));
    assert_eq!(("42", "31:00", "33:00"), (&rows[1][0][..], &rows[1][1][..], &rows[1][2][..]));
    handle_list(&Vec::new(), &mut output);
    let archived = history_rows(&vec![ArchivedNotification::archive(created)]);
    assert_eq!(("41", "1", "5"), (&archived[0][0][..], &archived[0][1][..], &archived[0][2][..]));
    let ops = handle_history(&Vec::new(), true, &mut output);
    assert!(matches!(ops[..], [StoreOp::ClearArchive]));
    assert!(handle_history(&Vec::new(), false, &mut output).is_empty());
    handle_test("report", &mut output);

    assert_eq!(
        &vec![
            OutputType::Println,
            OutputType::Println,
            OutputType::Println,
            OutputType::Error,
            OutputType::Println,
            OutputType::Info,
            OutputType::Println,
            OutputType::Info,
            OutputType::Println,
            OutputType::Info,
            OutputType::Println,
            OutputType::Info,
            OutputType::Println,
        ],
        output.kinds()
    );
    let lines = output.take_body();
    assert_eq!("Notification (id: 41) created", lines[0]);
    assert_eq!("Notification (id: 42) created and queued", lines[1]);
    assert_eq!("Notification (id: 41) deleted", lines[2]);
    assert_eq!(
        "Error: deleting id (42) failed. Corresponding notification does not exist",
        lines[3]
    );
    assert_eq!("All Notifications deleted", lines[4]);
    assert!(lines[5].starts_with("\n┌"));
    assert_eq!("List succeed", lines[6]);
    assert_eq!("History succeed", lines[8]);
    assert_eq!("History succeed", lines[10]);
    assert_eq!("\nreport", lines[11]);
    assert_eq!("Notification Test called", lines[12]);
    assert_eq!(13, lines.len());
}

#[test]
fn refused_command_lines_are_settled() {
    let mut output = OutputAccumulater::new();
    assert!(get_matches(MatchFailure::DisplayHelp, "Usage: ...", &mut output).is_ok());
    assert!(get_matches(MatchFailure::DisplayVersion, "pomodoro 1", &mut output).is_ok());
    let refused = get_matches(MatchFailure::Other, "unexpected argument", &mut output);
    match refused {
        Err(UserInputHandlerError::CommandMatchError(message)) => {
            assert_eq!("unexpected argument", message);
        }
        _ => panic!("a refusal is expected"),
    }
    assert_eq!(&vec![OutputType::Print, OutputType::Println], output.kinds());
    assert_eq!(vec!["\nUsage: ...\n", ""], output.take_body());
}
