use backend::daemon::Daemon;
use backend::gateway::{settle, Failure};
use backend::response::{status_body, status_reply};
use backend::task::Task;
use futures::executor::block_on;
use futures::future::Abortable;

fn state_of(d: &Daemon, id: u32) -> String {
    match d.get_task(id) {
        Some(t) => status_body(&t),
        None => "unknown".to_string(),
    }
}

#[test]
fn allocated_ids_are_distinct_and_increasing() {
    let mut d = Daemon::new();
    let mut ids = Vec::new();
    for _ in 0..100 {
        let (id, _reg) = d.new_task().unwrap();
        ids.push(id);
    }
    for (i, id) in ids.iter().enumerate() {
        assert_eq!(*id, i as u32);
    }
    let a = d.allocate();
    let b = d.allocate();
    assert_ne!(a, b);
    assert_eq!(a, 100);
    assert_eq!(b, 101);
}

#[test]
fn new_task_is_in_progress() {
    let mut d = Daemon::new();
    let (id, _reg) = d.new_task().unwrap();
    let t = d.get_task(id).unwrap();
    assert!(t.is_in_progress());
    assert!(matches!(t, Task::InProgress { abort_handle: None }));
    assert_eq!(state_of(&d, id), "{\"status\":\"in_progress\"}");
}

#[test]
fn register_after_allocate() {
    let mut d = Daemon::new();
    let id = d.allocate();
    assert!(d.get_task(id).is_none());
    let (h, _reg) = futures::future::AbortHandle::new_pair();
    d.register(id, h);
    assert!(d.get_task(id).unwrap().is_in_progress());
}

#[test]
fn completion_is_recorded() {
    let mut d = Daemon::new();
    let (id, _reg) = d.new_task().unwrap();
    d.set_task_completed(id, "{\"y\":2}".to_string());
    assert_eq!(state_of(&d, id), "{\"status\":\"completed\",\"data\":{\"y\":2}}");
}

#[test]
fn completed_task_keeps_its_first_result() {
    let mut d = Daemon::new();
    let (id, _reg) = d.new_task().unwrap();
    d.set_task_completed(id, "1".to_string());
    d.set_task_completed(id, "2".to_string());
    assert_eq!(state_of(&d, id), "{\"status\":\"completed\",\"data\":1}");
}

#[test]
fn completion_after_cancel_is_discarded() {
    let mut d = Daemon::new();
    let (id, _reg) = d.new_task().unwrap();
    d.cancel_task(id);
    assert!(d.get_task(id).unwrap().is_cancelled());
    d.set_task_completed(id, "{\"y\":2}".to_string());
    assert!(d.get_task(id).unwrap().is_cancelled());
    assert_eq!(state_of(&d, id), "{\"status\":\"cancelled\"}");
}

#[test]
fn cancel_twice_changes_nothing() {
    let mut d = Daemon::new();
    let (a, _ra) = d.new_task().unwrap();
    let (b, _rb) = d.new_task().unwrap();
    d.cancel_task(a);
    d.cancel_task(a);
    assert_eq!(state_of(&d, a), "{\"status\":\"cancelled\"}");
    d.set_task_completed(b, "true".to_string());
    d.cancel_task(b);
    d.cancel_task(b);
    assert_eq!(state_of(&d, b), "{\"status\":\"completed\",\"data\":true}");
}

#[test]
fn unknown_id_is_not_found() {
    let mut d = Daemon::new();
    assert!(d.get_task(7).is_none());
    d.cancel_task(7);
    assert!(d.get_task(7).is_none());
    d.set_task_completed(7, "1".to_string());
    assert!(d.get_task(7).is_none());
    let r = status_reply(&d.get_task(7));
    assert_eq!(r.code, 400);
    assert_eq!(r.body, "{\"error\":\"unknown task\"}");
}

#[test]
fn fresh_registry_is_not_exhausted() {
    let d = Daemon::new();
    assert!(!d.ids_exhausted());
}

#[test]
fn scenario_success_is_polled_as_completed() {
    let mut d = Daemon::new();
    let (id, reg) = d.new_task().unwrap();
    let work = Abortable::new(async { "{\"y\":2}".to_string() }, reg);
    let r = status_reply(&d.get_task(id));
    assert_eq!(r.code, 200);
    assert_eq!(r.body, "{\"status\":\"in_progress\"}");
    let out = block_on(work).unwrap();
    let settled = settle(Ok(out), "{\"x\":1}", "/api/v0/add");
    assert!(settled.log_line.is_none());
    d.set_task_completed(id, settled.data);
    let r = status_reply(&d.get_task(id));
    assert_eq!(r.code, 200);
    assert_eq!(r.body, "{\"status\":\"completed\",\"data\":{\"y\":2}}");
}

#[test]
fn scenario_failure_is_recorded_and_logged() {
    let mut d = Daemon::new();
    let (id, reg) = d.new_task().unwrap();
    let work = Abortable::new(
        async {
            Err::<String, Failure>(Failure {
                message: "boom".to_string(),
                causes: vec!["boom".to_string()],
            })
        },
        reg,
    );
    let outcome = block_on(work).unwrap();
    let settled = settle(outcome, "{\"x\":1}", "/api/v0/add");
    let expected =
        "{\"backtrace\":[\"boom\"],\"error\":\"boom\",\"input\":{\"x\":1},\"path\":\"/api/v0/add\"}";
    assert_eq!(settled.data, expected);
    let line = settled.log_line.unwrap();
    assert_eq!(line, format!("{expected}\n"));
    assert!(line.contains("boom"));
    assert!(line.contains("{\"x\":1}"));
    d.set_task_completed(id, settled.data);
    assert_eq!(
        state_of(&d, id),
        format!("{{\"status\":\"completed\",\"data\":{expected}}}")
    );
}

#[test]
fn scenario_cancelled_task_never_completes() {
    let mut d = Daemon::new();
    let (id, reg) = d.new_task().unwrap();
    let work = Abortable::new(async { "{\"y\":2}".to_string() }, reg);
    d.cancel_task(id);
    assert_eq!(state_of(&d, id), "{\"status\":\"cancelled\"}");
    assert!(block_on(work).is_err());
    d.set_task_completed(id, "{\"y\":2}".to_string());
    for _ in 0..3 {
        assert_eq!(state_of(&d, id), "{\"status\":\"cancelled\"}");
    }
}
