use pomodoro::registry::{NotFound, TaskRegistry};

fn runtime() -> tokio::runtime::Runtime {
    tokio::runtime::Builder::new_current_thread().enable_all().build().unwrap()
}

fn sleeper(rt: &tokio::runtime::Runtime) -> tokio::task::JoinHandle<()> {
    rt.spawn(async {
        tokio::time::sleep(std::time::Duration::from_secs(3600)).await;
    })
}

fn settle(rt: &tokio::runtime::Runtime) {
    rt.block_on(async {
        for _ in 0..20 {
            tokio::task::yield_now().await;
        }
    });
}

#[test]
fn a_new_registry_is_empty() {
    let mut registry = TaskRegistry::new();
    assert_eq!(0, registry.len());
    assert!(!registry.contains(0));
    assert_eq!(Err(NotFound { id: 0 }), registry.cancel_and_forget(0));
    registry.cancel_all();
    assert_eq!(0, registry.len());
}

#[test]
fn an_identifier_is_registered_once() {
    let rt = runtime();
    let mut registry = TaskRegistry::new();
    let first = sleeper(&rt);
    let first_watch = first.abort_handle();
    assert!(registry.register(4, first).is_ok());
    assert_eq!(1, registry.len());
    assert!(registry.contains(4));

    let second = sleeper(&rt);
    let second_id = second.id();
    let refused = registry.register(4, second);
    assert_eq!(second_id, refused.unwrap_err().id());
    assert_eq!(1, registry.len());

    assert!(registry.register(5, sleeper(&rt)).is_ok());
    assert_eq!(2, registry.len());

    // the entry of 4 is still the first task
    assert_eq!(Ok(()), registry.cancel_and_forget(4));
    settle(&rt);
    assert!(first_watch.is_finished());
}

#[test]
fn cancelling_removes_the_entry_and_stops_the_task() {
    let rt = runtime();
    let mut registry = TaskRegistry::new();
    let task = sleeper(&rt);
    let watch = task.abort_handle();
    let other = sleeper(&rt);
    let other_watch = other.abort_handle();
    registry.register(1, task).unwrap();
    registry.register(2, other).unwrap();

    assert_eq!(Ok(()), registry.cancel_and_forget(1));
    assert_eq!(1, registry.len());
    assert!(!registry.contains(1));
    assert!(registry.contains(2));
    settle(&rt);
    assert!(watch.is_finished());
    assert!(!other_watch.is_finished());

    assert_eq!(Err(NotFound { id: 1 }), registry.cancel_and_forget(1));
    assert_eq!(Err(NotFound { id: 3 }), registry.cancel_and_forget(3));
    assert_eq!(1, registry.len());
    assert!(!other_watch.is_finished());
}

#[test]
fn forgetting_removes_the_entry_and_lets_the_task_run() {
    let rt = runtime();
    let mut registry = TaskRegistry::new();
    let task = sleeper(&rt);
    let watch = task.abort_handle();
    registry.register(1, task).unwrap();

    assert_eq!(Ok(()), registry.forget(1));
    assert_eq!(0, registry.len());
    settle(&rt);
    assert!(!watch.is_finished());
    assert_eq!(Err(NotFound { id: 1 }), registry.forget(1));
    assert_eq!(Err(NotFound { id: 1 }), registry.cancel_and_forget(1));
}

#[test]
fn cancelling_all_empties_the_registry() {
    let rt = runtime();
    let mut registry = TaskRegistry::new();
    let mut watches = Vec::new();
    for id in [3u16, 1, 65535, 0] {
        let task = sleeper(&rt);
        watches.push(task.abort_handle());
        registry.register(id, task).unwrap();
    }
    assert_eq!(4, registry.len());
    registry.cancel_all();
    assert_eq!(0, registry.len());
    for id in [3u16, 1, 65535, 0] {
        assert!(!registry.contains(id));
    }
    settle(&rt);
    for watch in watches {
        assert!(watch.is_finished());
    }
    assert!(registry.register(3, sleeper(&rt)).is_ok());
}
