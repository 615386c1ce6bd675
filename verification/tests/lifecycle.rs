use phone_tasks::store::{ClaimError, CompleteError, EnqueueError, TaskStore};
use phone_tasks::task::TaskStatus;

const TARGET: &str = "12345678901";
const CONTENT: &str = "hello world";

fn store_with(submitter: &str) -> TaskStore {
    let mut store = TaskStore::new();
    store.allow(submitter.to_string());
    store
}

fn enqueue(store: &mut TaskStore, submitter: &str, target: &str, content: &str, now: u64) -> Result<i64, EnqueueError> {
    store.enqueue(submitter.to_string(), target.to_string(), content.to_string(), now)
}

#[test]
fn distinct_triples_get_distinct_ids() {
    let mut store = store_with("alice");
    store.allow("bob".to_string());
    let a = enqueue(&mut store, "alice", TARGET, CONTENT, 100);
    let b = enqueue(&mut store, "alice", TARGET, "another message", 100);
    let c = enqueue(&mut store, "bob", TARGET, CONTENT, 100);
    assert_eq!(a, Ok(1));
    assert_eq!(b, Ok(2));
    assert_eq!(c, Ok(3));
}

#[test]
fn unknown_submitter_is_not_authorized() {
    let mut store = store_with("alice");
    let r = enqueue(&mut store, "mallory", TARGET, CONTENT, 100);
    assert_eq!(r, Err(EnqueueError::NotAuthorized));
}

#[test]
fn malformed_request_is_invalid_input() {
    let mut store = store_with("alice");
    assert_eq!(
        enqueue(&mut store, "alice", "123", CONTENT, 100),
        Err(EnqueueError::InvalidInput)
    );
    assert_eq!(
        enqueue(&mut store, "alice", TARGET, "too short", 100),
        Err(EnqueueError::InvalidInput)
    );
    assert_eq!(enqueue(&mut store, "", TARGET, CONTENT, 100), Err(EnqueueError::InvalidInput));
}

#[test]
fn duplicate_within_window_is_rate_limited() {
    let mut store = store_with("alice");
    assert_eq!(enqueue(&mut store, "alice", TARGET, CONTENT, 1000), Ok(1));
    assert_eq!(
        enqueue(&mut store, "alice", TARGET, CONTENT, 1100),
        Err(EnqueueError::RateLimited)
    );
    assert_eq!(
        enqueue(&mut store, "alice", TARGET, CONTENT, 1599),
        Err(EnqueueError::RateLimited)
    );
}

#[test]
fn duplicate_after_window_succeeds() {
    let mut store = store_with("alice");
    assert_eq!(enqueue(&mut store, "alice", TARGET, CONTENT, 1000), Ok(1));
    assert_eq!(enqueue(&mut store, "alice", TARGET, CONTENT, 1600), Ok(2));
}

#[test]
fn claims_come_back_in_creation_order() {
    let mut store = store_with("alice");
    assert_eq!(enqueue(&mut store, "alice", TARGET, "first message ever", 10), Ok(1));
    assert_eq!(enqueue(&mut store, "alice", TARGET, "second message sent", 20), Ok(2));
    assert_eq!(enqueue(&mut store, "alice", TARGET, "third message here", 30), Ok(3));

    let t1 = store.claim(40).unwrap();
    let t2 = store.claim(41).unwrap();
    let t3 = store.claim(42).unwrap();
    assert_eq!(t1.id, 1);
    assert_eq!(t1.content, "first message ever");
    assert_eq!(t1.status, TaskStatus::InProgress);
    assert_eq!(t2.id, 2);
    assert_eq!(t3.id, 3);

    let t4 = store.claim(43);
    assert!(matches!(t4, Err(ClaimError::NoPendingTask)));
}

#[test]
fn a_single_pending_task_is_claimed_exactly_once() {
    let mut store = store_with("alice");
    assert_eq!(enqueue(&mut store, "alice", TARGET, CONTENT, 10), Ok(1));
    let first = store.claim(20);
    let second = store.claim(20);
    assert_eq!(first.unwrap().id, 1);
    assert!(matches!(second, Err(ClaimError::NoPendingTask)));
}

#[test]
fn expired_lease_is_requeued_and_claimable_again() {
    let mut store = store_with("alice");
    assert_eq!(enqueue(&mut store, "alice", TARGET, CONTENT, 1000), Ok(1));
    let t = store.claim(1000).unwrap();
    assert_eq!(t.id, 1);

    // Lease not yet expired: nothing to requeue, nothing claimable.
    assert_eq!(store.check_task_status(1200), Vec::<i64>::new());
    assert!(store.claim(1200).is_err());

    // Past the five-minute lease: the task comes back and can be claimed.
    assert_eq!(store.check_task_status(1301), vec![1]);
    let again = store.claim(1302).unwrap();
    assert_eq!(again.id, 1);
    assert_eq!(again.content, CONTENT);
}

#[test]
fn completed_task_is_never_touched_by_the_sweep() {
    let mut store = store_with("alice");
    assert_eq!(enqueue(&mut store, "alice", TARGET, CONTENT, 1000), Ok(1));
    let t = store.claim(1000).unwrap();
    assert_eq!(store.complete(t.id, 1100), Ok(()));
    assert_eq!(store.check_task_status(5000), Vec::<i64>::new());
    assert!(store.claim(5000).is_err());
}

#[test]
fn sweep_requeues_all_expired_in_order() {
    let mut store = store_with("alice");
    assert_eq!(enqueue(&mut store, "alice", TARGET, "first message ever", 10), Ok(1));
    assert_eq!(enqueue(&mut store, "alice", TARGET, "second message sent", 20), Ok(2));
    assert_eq!(store.claim(30).unwrap().id, 1);
    assert_eq!(store.claim(31).unwrap().id, 2);
    assert_eq!(store.check_task_status(1000), vec![1, 2]);
}

#[test]
fn find_expired_leases_reports_without_mutating() {
    let mut store = store_with("alice");
    assert_eq!(enqueue(&mut store, "alice", TARGET, CONTENT, 10), Ok(1));
    assert_eq!(store.claim(10).unwrap().id, 1);
    let expired = store.find_expired_leases(1000);
    assert_eq!(expired.len(), 1);
    assert_eq!(expired[0].id, 1);
    assert_eq!(expired[0].status, TaskStatus::InProgress);
    // The scan is a pure read: a second scan sees the same state.
    assert_eq!(store.find_expired_leases(1000).len(), 1);
}

#[test]
fn complete_unknown_id_is_not_found() {
    let mut store = store_with("alice");
    assert_eq!(store.complete(5, 100), Err(CompleteError::NotFound));
    assert_eq!(store.complete(0, 100), Err(CompleteError::NotFound));
    assert_eq!(store.complete(-3, 100), Err(CompleteError::NotFound));
}

#[test]
fn complete_is_permissive_about_the_previous_status() {
    // A pending task can be completed without ever being claimed.
    let mut store = store_with("alice");
    assert_eq!(enqueue(&mut store, "alice", TARGET, CONTENT, 100), Ok(1));
    assert_eq!(store.complete(1, 200), Ok(()));
    assert!(store.claim(300).is_err());
}

#[test]
fn update_task_status_refreshes_the_lease() {
    let mut store = store_with("alice");
    assert_eq!(enqueue(&mut store, "alice", TARGET, CONTENT, 1000), Ok(1));
    assert_eq!(store.claim(1000).unwrap().id, 1);
    // Refreshing the status resets the lease clock.
    assert_eq!(store.update_task_status(1, TaskStatus::InProgress, 1290), Ok(()));
    assert_eq!(store.check_task_status(1301), Vec::<i64>::new());
    assert_eq!(store.check_task_status(1591), vec![1]);
}

#[test]
fn insert_appends_pending_tasks() {
    let mut store = TaskStore::new();
    assert_eq!(store.task_count(), 0);
    let id = store.insert("alice".to_string(), TARGET.to_string(), CONTENT.to_string(), 7);
    assert_eq!(id, 1);
    assert_eq!(store.task_count(), 1);
    let t = store.claim_oldest_pending(8).unwrap();
    assert_eq!(t.id, 1);
    assert_eq!(t.submitter_id, "alice");
    assert_eq!(t.target, TARGET);
    assert_eq!(t.created_at, 7);
    assert_eq!(t.updated_at, 8);
}
