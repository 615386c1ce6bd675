use phone_tasks::api::{
    add_phone_task_handler, decimal_string, finish_phone_task_handler, get_phone_task_handler,
    AddPhoneTaskReq, FinishPhoneTaskReq,
};
use phone_tasks::store::TaskStore;

fn request(user: &str, number: &str, content: &str) -> AddPhoneTaskReq {
    AddPhoneTaskReq {
        user_id: user.to_string(),
        phone_number: number.to_string(),
        notification_content: content.to_string(),
    }
}

#[test]
fn decimal_rendering_is_exact() {
    assert_eq!(decimal_string(0), "0");
    assert_eq!(decimal_string(7), "7");
    assert_eq!(decimal_string(10), "10");
    assert_eq!(decimal_string(12345), "12345");
    assert_eq!(decimal_string(u64::MAX), "18446744073709551615");
}

#[test]
fn add_handler_returns_the_new_task_id() {
    let mut store = TaskStore::new();
    store.allow("alice".to_string());
    let resp = add_phone_task_handler(
        &mut store,
        request("alice", "12345678901", "hello world"),
        100,
    );
    assert!(resp.success);
    assert_eq!(resp.task_id, Some("1".to_string()));
    assert!(!resp.msg.is_empty());
}

#[test]
fn add_handler_refuses_unknown_submitter() {
    let mut store = TaskStore::new();
    let resp = add_phone_task_handler(
        &mut store,
        request("mallory", "12345678901", "hello world"),
        100,
    );
    assert!(!resp.success);
    assert_eq!(resp.task_id, None);
}

#[test]
fn get_handler_on_empty_store_reports_no_task() {
    let mut store = TaskStore::new();
    let resp = get_phone_task_handler(&mut store, 100);
    assert!(!resp.success);
    assert!(resp.task.is_none());
    assert!(!resp.msg.is_empty());
}

#[test]
fn full_round_trip_add_get_finish() {
    let mut store = TaskStore::new();
    store.allow("alice".to_string());

    let added = add_phone_task_handler(
        &mut store,
        request("alice", "12345678901", "hello world"),
        100,
    );
    assert!(added.success);

    let got = get_phone_task_handler(&mut store, 110);
    assert!(got.success);
    let task = got.task.expect("a task was pending");
    assert_eq!(task.id, Some(1));
    assert_eq!(task.user_id, "alice");
    assert_eq!(task.phone_number, "12345678901");
    assert_eq!(task.notification_content, "hello world");

    let finished = finish_phone_task_handler(&mut store, FinishPhoneTaskReq { task_id: 1 }, 120);
    assert!(finished.success);

    // Done is terminal: nothing left to claim, and the sweep never
    // brings the task back.
    assert!(!get_phone_task_handler(&mut store, 130).success);
    assert_eq!(store.check_task_status(10_000), Vec::<i64>::new());
}

#[test]
fn finish_handler_reports_unknown_id() {
    let mut store = TaskStore::new();
    let resp = finish_phone_task_handler(&mut store, FinishPhoneTaskReq { task_id: 42 }, 100);
    assert!(!resp.success);
    assert!(!resp.msg.is_empty());
}
