//! The task store and lifecycle manager: a transactional table of tasks
//! with an allow-list of submitters, offering atomic insert, claim-oldest,
//! status update, and lease-expiry scan, plus the enqueue / claim /
//! complete operations and the periodic sweep built on them.

use vstd::prelude::*;

use crate::task::{Task, TaskModel, TaskStatus};
use crate::validate::{spec_validate, validate_request};

verus! {

/// Two enqueues of the same (submitter, target, content) triple within
/// this many seconds are treated as accidental duplicates.
pub const RATE_LIMIT_WINDOW_SECS: u64 = 600;

/// A task left in progress for longer than this many seconds is
/// considered abandoned and is returned to the queue by the sweep.
pub const LEASE_TIMEOUT_SECS: u64 = 300;

/// How often the background sweep is expected to run, in seconds.
pub const SWEEP_INTERVAL_SECS: u64 = 30;

/// Why an enqueue was refused.
#[derive(Clone, Copy, Debug, PartialEq, Eq, Structural)]
pub enum EnqueueError {
    /// The request failed validation.
    InvalidInput,
    /// The submitter is not on the allow-list.
    NotAuthorized,
    /// The same triple was already enqueued within the rate-limit window.
    RateLimited,
}

/// Why a claim returned no task.
#[derive(Clone, Copy, Debug, PartialEq, Eq, Structural)]
pub enum ClaimError {
    /// No task is pending.
    NoPendingTask,
}

/// Why a status update failed.
#[derive(Clone, Copy, Debug, PartialEq, Eq, Structural)]
pub enum CompleteError {
    /// No task has the given id.
    NotFound,
}

/// The mathematical model of the store: the task table in insertion
/// order, and the allow-list of submitters.
#[verifier::ext_equal]
pub struct StoreModel {
    pub tasks: Seq<TaskModel>,
    pub allowed: Seq<Seq<char>>,
}

/// Task ids are assigned densely at insertion: the task at index `i`
/// has id `i + 1`, so ids are unique and never reused.
pub open spec fn wf_model(m: StoreModel) -> bool {
    forall|i: int| 0 <= i < m.tasks.len() ==> (#[trigger] m.tasks[i]).id == i + 1
}

/// Whether the submitter is on the allow-list.
pub open spec fn spec_is_member(m: StoreModel, submitter_id: Seq<char>) -> bool {
    exists|i: int| 0 <= i < m.allowed.len() && m.allowed[i] == submitter_id
}

/// Whether the task carries exactly this (submitter, target, content) triple.
pub open spec fn spec_matches_triple(
    t: TaskModel,
    submitter_id: Seq<char>,
    target: Seq<char>,
    content: Seq<char>,
) -> bool {
    t.submitter_id == submitter_id && t.target == target && t.content == content
}

/// Whether the task makes a new enqueue of the same triple at time `now`
/// a duplicate: it matches, is still pending, and was created within the
/// rate-limit window.
pub open spec fn spec_recent_duplicate(
    t: TaskModel,
    submitter_id: Seq<char>,
    target: Seq<char>,
    content: Seq<char>,
    now: int,
) -> bool {
    &&& t.status == TaskStatus::Pending
    &&& spec_matches_triple(t, submitter_id, target, content)
    &&& t.created_at + RATE_LIMIT_WINDOW_SECS > now
}

/// Whether some task in the store is a recent duplicate of the triple.
pub open spec fn spec_has_recent_duplicate(
    m: StoreModel,
    submitter_id: Seq<char>,
    target: Seq<char>,
    content: Seq<char>,
    now: int,
) -> bool {
    exists|i: int|
        0 <= i < m.tasks.len() && spec_recent_duplicate(
            #[trigger] m.tasks[i],
            submitter_id,
            target,
            content,
            now,
        )
}

/// Whether index `i` holds a pending task.
pub open spec fn spec_pending_at(m: StoreModel, i: int) -> bool {
    0 <= i < m.tasks.len() && m.tasks[i].status == TaskStatus::Pending
}

/// The index a claim would take, considering only the first `k` tasks:
/// the pending task with the smallest `created_at`, earliest index on ties.
pub open spec fn spec_oldest_pending_upto(m: StoreModel, k: int) -> Option<int>
    decreases k,
{
    if k <= 0 {
        None
    } else {
        let prev = spec_oldest_pending_upto(m, k - 1);
        if m.tasks[k - 1].status != TaskStatus::Pending {
            prev
        } else {
            match prev {
                None => Some(k - 1),
                Some(j) => if m.tasks[j].created_at <= m.tasks[k - 1].created_at {
                    Some(j)
                } else {
                    Some(k - 1)
                },
            }
        }
    }
}

/// The index a claim takes: the oldest pending task, earliest index on
/// ties; `None` when nothing is pending.
pub open spec fn spec_oldest_pending(m: StoreModel) -> Option<int> {
    spec_oldest_pending_upto(m, m.tasks.len() as int)
}

/// What `spec_oldest_pending` returns is sound: `None` means nothing in
/// the prefix is pending; `Some(i)` points at a pending task that no other
/// pending task precedes, by `created_at` and then by index.
pub proof fn lemma_oldest_pending_upto_sound(m: StoreModel, k: int)
    requires
        0 <= k <= m.tasks.len(),
    ensures
        match spec_oldest_pending_upto(m, k) {
            None => forall|j: int|
                0 <= j < k ==> (#[trigger] m.tasks[j]).status != TaskStatus::Pending,
            Some(i) => {
                &&& 0 <= i < k
                &&& m.tasks[i].status == TaskStatus::Pending
                &&& forall|j: int|
                    0 <= j < k && (#[trigger] m.tasks[j]).status == TaskStatus::Pending ==> {
                        ||| m.tasks[i].created_at < m.tasks[j].created_at
                        ||| (m.tasks[i].created_at == m.tasks[j].created_at && i <= j)
                    }
            },
        },
    decreases k,
{
    if k > 0 {
        lemma_oldest_pending_upto_sound(m, k - 1);
    }
}

/// `None` from `spec_oldest_pending` means the store has no pending task.
pub proof fn lemma_oldest_pending_sound(m: StoreModel)
    ensures
        match spec_oldest_pending(m) {
            None => forall|j: int| !spec_pending_at(m, j),
            Some(i) => {
                &&& spec_pending_at(m, i)
                &&& forall|j: int|
                    #[trigger] spec_pending_at(m, j) ==> {
                        ||| m.tasks[i].created_at < m.tasks[j].created_at
                        ||| (m.tasks[i].created_at == m.tasks[j].created_at && i <= j)
                    }
            },
        },
{
    lemma_oldest_pending_upto_sound(m, m.tasks.len() as int);
}

/// The model of a task freshly inserted at time `now`.
pub open spec fn spec_new_task(
    m: StoreModel,
    submitter_id: Seq<char>,
    target: Seq<char>,
    content: Seq<char>,
    now: int,
) -> TaskModel {
    TaskModel {
        id: m.tasks.len() as int + 1,
        submitter_id: submitter_id,
        target: target,
        content: content,
        status: TaskStatus::Pending,
        created_at: now,
        updated_at: now,
    }
}

/// The store after inserting a fresh pending task.
pub open spec fn spec_after_insert(
    m: StoreModel,
    submitter_id: Seq<char>,
    target: Seq<char>,
    content: Seq<char>,
    now: int,
) -> StoreModel {
    StoreModel {
        tasks: m.tasks.push(spec_new_task(m, submitter_id, target, content, now)),
        allowed: m.allowed,
    }
}

/// Whether an enqueue of this request at time `now` succeeds: the request
/// is well-formed, the submitter is allowed, and no recent duplicate exists.
pub open spec fn spec_enqueue_ok(
    m: StoreModel,
    submitter_id: Seq<char>,
    target: Seq<char>,
    content: Seq<char>,
    now: int,
) -> bool {
    &&& spec_validate(submitter_id, target, content) is Ok
    &&& spec_is_member(m, submitter_id)
    &&& !spec_has_recent_duplicate(m, submitter_id, target, content, now)
}

/// The error a failing enqueue reports: validation first, then
/// authorization, then the rate limit.
pub open spec fn spec_enqueue_err(
    m: StoreModel,
    submitter_id: Seq<char>,
    target: Seq<char>,
    content: Seq<char>,
    now: int,
) -> EnqueueError {
    if spec_validate(submitter_id, target, content) is Err {
        EnqueueError::InvalidInput
    } else if !spec_is_member(m, submitter_id) {
        EnqueueError::NotAuthorized
    } else {
        EnqueueError::RateLimited
    }
}

/// The task with its status replaced and `updated_at` refreshed.
pub open spec fn spec_with_status(t: TaskModel, status: TaskStatus, now: int) -> TaskModel {
    TaskModel { status: status, updated_at: now, ..t }
}

/// The store after a claim at time `now`: the oldest pending task, if
/// any, turns in-progress with its `updated_at` refreshed.
pub open spec fn spec_after_claim(m: StoreModel, now: int) -> StoreModel {
    match spec_oldest_pending(m) {
        None => m,
        Some(i) => StoreModel {
            tasks: m.tasks.update(i, spec_with_status(m.tasks[i], TaskStatus::InProgress, now)),
            allowed: m.allowed,
        },
    }
}

/// The store after setting the status of the task with id `task_id`;
/// unchanged when no task has that id.
pub open spec fn spec_after_set_status(
    m: StoreModel,
    task_id: int,
    status: TaskStatus,
    now: int,
) -> StoreModel {
    if 1 <= task_id <= m.tasks.len() {
        StoreModel {
            tasks: m.tasks.update(
                task_id - 1,
                spec_with_status(m.tasks[task_id - 1], status, now),
            ),
            allowed: m.allowed,
        }
    } else {
        m
    }
}

/// Whether the task's lease has expired at time `now`: it is in progress
/// and its last transition lies more than the lease timeout in the past.
pub open spec fn spec_expired(t: TaskModel, now: int) -> bool {
    t.status == TaskStatus::InProgress && t.updated_at + LEASE_TIMEOUT_SECS < now
}

/// What the sweep leaves of one task: an expired lease is returned to
/// pending with `updated_at` refreshed; every other task is untouched.
pub open spec fn spec_swept_task(t: TaskModel, now: int) -> TaskModel {
    if spec_expired(t, now) {
        spec_with_status(t, TaskStatus::Pending, now)
    } else {
        t
    }
}

/// The store after one sweep at time `now`.
pub open spec fn spec_after_sweep(m: StoreModel, now: int) -> StoreModel {
    StoreModel {
        tasks: Seq::new(m.tasks.len(), |i: int| spec_swept_task(m.tasks[i], now)),
        allowed: m.allowed,
    }
}

/// The models of the tasks among the first `k` whose lease has expired,
/// in index order.
pub open spec fn spec_expired_tasks_upto(m: StoreModel, now: int, k: int) -> Seq<TaskModel>
    decreases k,
{
    if k <= 0 {
        Seq::empty()
    } else if spec_expired(m.tasks[k - 1], now) {
        spec_expired_tasks_upto(m, now, k - 1).push(m.tasks[k - 1])
    } else {
        spec_expired_tasks_upto(m, now, k - 1)
    }
}

/// The models of all tasks whose lease has expired, in index order.
pub open spec fn spec_expired_tasks(m: StoreModel, now: int) -> Seq<TaskModel> {
    spec_expired_tasks_upto(m, now, m.tasks.len() as int)
}

/// The ids of the tasks among the first `k` whose lease has expired, in
/// index order.
pub open spec fn spec_expired_ids_upto(m: StoreModel, now: int, k: int) -> Seq<int>
    decreases k,
{
    if k <= 0 {
        Seq::empty()
    } else if spec_expired(m.tasks[k - 1], now) {
        spec_expired_ids_upto(m, now, k - 1).push(m.tasks[k - 1].id)
    } else {
        spec_expired_ids_upto(m, now, k - 1)
    }
}

/// The ids of all tasks whose lease has expired, in index order.
pub open spec fn spec_expired_ids(m: StoreModel, now: int) -> Seq<int> {
    spec_expired_ids_upto(m, now, m.tasks.len() as int)
}

/// The task table with its allow-list.  All mutation of tasks goes
/// through the methods here; every operation acts atomically on the
/// in-memory table, which models one transaction against a persistent
/// store.
pub struct TaskStore {
    tasks: Vec<Task>,
    allowed: Vec<String>,
}

impl View for TaskStore {
    type V = StoreModel;

    closed spec fn view(&self) -> StoreModel {
        StoreModel {
            tasks: self.tasks@.map_values(|t: Task| t@),
            allowed: self.allowed@.map_values(|s: String| s@),
        }
    }
}

impl TaskStore {
    /// An empty store: no tasks, no allowed submitters.
    pub fn new() -> (r: TaskStore)
        ensures
            r@.tasks == Seq::<TaskModel>::empty(),
            r@.allowed == Seq::<Seq<char>>::empty(),
            wf_model(r@),
    {
        let r = TaskStore { tasks: Vec::new(), allowed: Vec::new() };
        proof {
            assert(r@.tasks =~= Seq::<TaskModel>::empty());
            assert(r@.allowed =~= Seq::<Seq<char>>::empty());
        }
        r
    }

    /// Puts a submitter on the allow-list.
    pub fn allow(&mut self, submitter_id: String)
        ensures
            final(self)@.allowed == old(self)@.allowed.push(submitter_id@),
            final(self)@.tasks == old(self)@.tasks,
    {
        let ghost m = self@;
        self.allowed.push(submitter_id);
        proof {
            assert(self@.allowed =~= m.allowed.push(submitter_id@));
            assert(self@.tasks =~= m.tasks);
        }
    }

    /// Whether the submitter is on the allow-list.
    pub fn is_member(&self, submitter_id: &String) -> (r: bool)
        ensures
            r == spec_is_member(self@, submitter_id@),
    {
        let n = self.allowed.len();
        let mut k: usize = 0;
        while k < n
            invariant
                n == self.allowed.len(),
                k <= n,
                forall|j: int| 0 <= j < k ==> self@.allowed[j] != submitter_id@,
            decreases n - k,
        {
            if self.allowed[k] == *submitter_id {
                assert(self@.allowed[k as int] == submitter_id@);
                return true;
            }
            k += 1;
        }
        false
    }

    /// Whether some pending task carries the same triple and was created
    /// within the rate-limit window before `now`.  Pure read.
    pub fn has_recent_duplicate(
        &self,
        submitter_id: &String,
        target: &String,
        content: &String,
        now: u64,
    ) -> (r: bool)
        ensures
            r == spec_has_recent_duplicate(self@, submitter_id@, target@, content@, now as int),
    {
        let n = self.tasks.len();
        let mut k: usize = 0;
        while k < n
            invariant
                n == self.tasks.len(),
                k <= n,
                forall|j: int|
                    0 <= j < k ==> !spec_recent_duplicate(
                        #[trigger] self@.tasks[j],
                        submitter_id@,
                        target@,
                        content@,
                        now as int,
                    ),
            decreases n - k,
        {
            let t = &self.tasks[k];
            let recent = now < RATE_LIMIT_WINDOW_SECS || t.created_at > now - RATE_LIMIT_WINDOW_SECS;
            if t.status == TaskStatus::Pending && recent && t.submitter_id == *submitter_id
                && t.target == *target && t.content == *content {
                assert(spec_recent_duplicate(
                    self@.tasks[k as int],
                    submitter_id@,
                    target@,
                    content@,
                    now as int,
                ));
                return true;
            }
            k += 1;
        }
        false
    }

    /// Appends a fresh pending task and returns its id, one past the
    /// previous highest.
    pub fn insert(&mut self, submitter_id: String, target: String, content: String, now: u64) -> (r:
        i64)
        requires
            old(self)@.tasks.len() < i64::MAX,
    ensures
            final(self)@ == spec_after_insert(
                old(self)@,
                submitter_id@,
                target@,
                content@,
                now as int,
            ),
            r as int == old(self)@.tasks.len() + 1,
            wf_model(old(self)@) ==> wf_model(final(self)@),
    {
        let ghost m = self@;
        let id = (self.tasks.len() as i64) + 1;
        let task = Task {
            id: id,
            submitter_id: submitter_id,
            target: target,
            content: content,
            status: TaskStatus::Pending,
            created_at: now,
            updated_at: now,
        };
        self.tasks.push(task);
        proof {
            assert(self@ =~= spec_after_insert(m, submitter_id@, target@, content@, now as int));
        }
        id
    }

    /// The index a claim would take, as `spec_oldest_pending` gives it.
    fn find_oldest_pending(&self) -> (r: Option<usize>)
        ensures
            match r {
                Some(b) => b < self@.tasks.len() && spec_oldest_pending(self@) == Some(b as int),
                None => spec_oldest_pending(self@) is None,
            },
    {
        let n = self.tasks.len();
        let mut best: Option<usize> = None;
        let mut k: usize = 0;
        while k < n
            invariant
                n == self.tasks.len(),
                k <= n,
                match best {
                    Some(b) => b < k && spec_oldest_pending_upto(self@, k as int) == Some(b as int),
                    None => spec_oldest_pending_upto(self@, k as int) is None,
                },
            decreases n - k,
        {
            if self.tasks[k].status == TaskStatus::Pending {
                best = match best {
                    None => Some(k),
                    Some(b) => if self.tasks[b].created_at <= self.tasks[k].created_at {
                        Some(b)
                    } else {
                        Some(k)
                    },
                };
            }
            k += 1;
        }
        best
    }

    /// Atomically selects the oldest pending task, marks it in progress
    /// with `updated_at` refreshed, and returns it; `None` exactly when no
    /// task is pending.
    pub fn claim_oldest_pending(&mut self, now: u64) -> (r: Option<Task>)
        requires
            wf_model(old(self)@),
        ensures
            wf_model(final(self)@),
            final(self)@ == spec_after_claim(old(self)@, now as int),
            (r is Some) == (exists|i: int| spec_pending_at(old(self)@, i)),
            match r {
                Some(t) => {
                    &&& spec_oldest_pending(old(self)@) == Some(t@.id - 1)
                    &&& t@ == spec_with_status(
                        old(self)@.tasks[t@.id - 1],
                        TaskStatus::InProgress,
                        now as int,
                    )
                },
                None => spec_oldest_pending(old(self)@) is None,
            },
    {
        let ghost m = self@;
        proof {
            lemma_oldest_pending_sound(m);
        }
        match self.find_oldest_pending() {
            None => None,
            Some(b) => {
                let t = &self.tasks[b];
                let updated = Task {
                    id: t.id,
                    submitter_id: t.submitter_id.clone(),
                    target: t.target.clone(),
                    content: t.content.clone(),
                    status: TaskStatus::InProgress,
                    created_at: t.created_at,
                    updated_at: now,
                };
                let ret = updated.duplicate();
                self.tasks.set(b, updated);
                proof {
                    assert(self@ =~= spec_after_claim(m, now as int));
                }
                Some(ret)
            },
        }
    }

    /// Sets the status of the task with id `task_id` and refreshes its
    /// `updated_at`; the transition itself is not checked against the
    /// state machine — callers are trusted to request legal ones.  Fails
    /// exactly when no task has that id.
    pub fn update_task_status(&mut self, task_id: i64, status: TaskStatus, now: u64) -> (r: Result<
        (),
        CompleteError,
    >)
        requires
            wf_model(old(self)@),
        ensures
            wf_model(final(self)@),
            final(self)@ == spec_after_set_status(old(self)@, task_id as int, status, now as int),
            (r is Ok) == (1 <= task_id as int <= old(self)@.tasks.len()),
            r is Err ==> r == Err::<(), CompleteError>(CompleteError::NotFound),
    {
        let ghost m = self@;
        if task_id < 1 {
            return Err(CompleteError::NotFound);
        }
        let idx_wide = (task_id as u64) - 1;
        if idx_wide >= self.tasks.len() as u64 {
            return Err(CompleteError::NotFound);
        }
        let idx = idx_wide as usize;
        let t = &self.tasks[idx];
        let updated = Task {
            id: t.id,
            submitter_id: t.submitter_id.clone(),
            target: t.target.clone(),
            content: t.content.clone(),
            status: status,
            created_at: t.created_at,
            updated_at: now,
        };
        self.tasks.set(idx, updated);
        proof {
            assert(self@ =~= spec_after_set_status(m, task_id as int, status, now as int));
        }
        Ok(())
    }

    /// The tasks whose lease has expired at time `now`, in index order.
    /// Pure read.
    pub fn find_expired_leases(&self, now: u64) -> (r: Vec<Task>)
        ensures
            r@.map_values(|t: Task| t@) == spec_expired_tasks(self@, now as int),
    {
        let n = self.tasks.len();
        let mut out: Vec<Task> = Vec::new();
        let mut k: usize = 0;
        proof {
            assert(out@.map_values(|t: Task| t@) =~= spec_expired_tasks_upto(self@, now as int, 0));
        }
        while k < n
            invariant
                n == self.tasks.len(),
                k <= n,
                out@.map_values(|t: Task| t@) == spec_expired_tasks_upto(
                    self@,
                    now as int,
                    k as int,
                ),
            decreases n - k,
        {
            let ghost prev = out@.map_values(|t: Task| t@);
            let t = &self.tasks[k];
            if t.status == TaskStatus::InProgress && now > LEASE_TIMEOUT_SECS && t.updated_at
                < now - LEASE_TIMEOUT_SECS {
                out.push(t.duplicate());
                proof {
                    assert(out@.map_values(|t: Task| t@) =~= prev.push(self@.tasks[k as int]));
                }
            }
            k += 1;
        }
        out
    }

    /// One sweep at time `now`: every task whose lease has expired is
    /// returned to pending with `updated_at` refreshed, and the ids of the
    /// requeued tasks come back in index order.  Nothing else changes.
    pub fn check_task_status(&mut self, now: u64) -> (r: Vec<i64>)
        requires
            wf_model(old(self)@),
        ensures
            wf_model(final(self)@),
            final(self)@ == spec_after_sweep(old(self)@, now as int),
            r@.map_values(|x: i64| x as int) == spec_expired_ids(old(self)@, now as int),
    {
        let ghost m = self@;
        let n = self.tasks.len();
        let mut ids: Vec<i64> = Vec::new();
        let mut k: usize = 0;
        proof {
            assert(ids@.map_values(|x: i64| x as int) =~= spec_expired_ids_upto(m, now as int, 0));
        }
        while k < n
            invariant
                n == m.tasks.len(),
                self@.tasks.len() == n,
                k <= n,
                wf_model(self@),
                self@.allowed == m.allowed,
                forall|i: int|
                    0 <= i < k ==> self@.tasks[i] == spec_swept_task(#[trigger] m.tasks[i], now as int),
                forall|i: int| k <= i < n ==> self@.tasks[i] == #[trigger] m.tasks[i],
                ids@.map_values(|x: i64| x as int) == spec_expired_ids_upto(m, now as int, k as int),
            decreases n - k,
        {
            let ghost prev_ids = ids@.map_values(|x: i64| x as int);
            let expired = self.tasks[k].status == TaskStatus::InProgress && now
                > LEASE_TIMEOUT_SECS && self.tasks[k].updated_at < now - LEASE_TIMEOUT_SECS;
            if expired {
                let tid = self.tasks[k].id;
                ids.push(tid);
                let res = self.update_task_status(tid, TaskStatus::Pending, now);
                proof {
                    assert(res is Ok);
                    assert(ids@.map_values(|x: i64| x as int) =~= prev_ids.push(
                        m.tasks[k as int].id,
                    ));
                }
            }
            k += 1;
        }
        proof {
            assert(self@ =~= spec_after_sweep(m, now as int));
        }
        ids
    }

    /// Enqueue: validates the request, checks the allow-list, checks the
    /// rate limit, and only then inserts a fresh pending task, whose id it
    /// returns.  On failure the store is unchanged and the error names the
    /// first check that refused.
    pub fn enqueue(&mut self, submitter_id: String, target: String, content: String, now: u64) -> (r:
        Result<i64, EnqueueError>)
        requires
            wf_model(old(self)@),
            old(self)@.tasks.len() < i64::MAX,
        ensures
            wf_model(final(self)@),
            (r is Ok) == spec_enqueue_ok(old(self)@, submitter_id@, target@, content@, now as int),
            r is Ok ==> {
                &&& r->Ok_0 as int == old(self)@.tasks.len() + 1
                &&& final(self)@ == spec_after_insert(
                    old(self)@,
                    submitter_id@,
                    target@,
                    content@,
                    now as int,
                )
            },
            r is Err ==> {
                &&& r->Err_0 == spec_enqueue_err(
                    old(self)@,
                    submitter_id@,
                    target@,
                    content@,
                    now as int,
                )
                &&& final(self)@ == old(self)@
            },
    {
        if validate_request(submitter_id.as_str(), target.as_str(), content.as_str()).is_err() {
            return Err(EnqueueError::InvalidInput);
        }
        if !self.is_member(&submitter_id) {
            return Err(EnqueueError::NotAuthorized);
        }
        if self.has_recent_duplicate(&submitter_id, &target, &content, now) {
            return Err(EnqueueError::RateLimited);
        }
        let id = self.insert(submitter_id, target, content, now);
        Ok(id)
    }

    /// Claim: atomically takes the oldest pending task, marks it in
    /// progress, and returns it; fails with `NoPendingTask` exactly when
    /// nothing is pending, leaving the store unchanged.
    pub fn claim(&mut self, now: u64) -> (r: Result<Task, ClaimError>)
        requires
            wf_model(old(self)@),
        ensures
            wf_model(final(self)@),
            final(self)@ == spec_after_claim(old(self)@, now as int),
            (r is Ok) == (exists|i: int| spec_pending_at(old(self)@, i)),
            match r {
                Ok(t) => {
                    &&& spec_oldest_pending(old(self)@) == Some(t@.id - 1)
                    &&& t@ == spec_with_status(
                        old(self)@.tasks[t@.id - 1],
                        TaskStatus::InProgress,
                        now as int,
                    )
                },
                Err(e) => e == ClaimError::NoPendingTask && spec_oldest_pending(
                    old(self)@,
                ) is None,
            },
    {
        match self.claim_oldest_pending(now) {
            Some(t) => Ok(t),
            None => Err(ClaimError::NoPendingTask),
        }
    }

    /// Complete: marks the task done, whatever its current status, and
    /// refreshes its `updated_at`; fails with `NotFound` exactly when no
    /// task has the given id, leaving the store unchanged.
    pub fn complete(&mut self, task_id: i64, now: u64) -> (r: Result<(), CompleteError>)
        requires
            wf_model(old(self)@),
        ensures
            wf_model(final(self)@),
            final(self)@ == spec_after_set_status(
                old(self)@,
                task_id as int,
                TaskStatus::Done,
                now as int,
            ),
            (r is Ok) == (1 <= task_id as int <= old(self)@.tasks.len()),
            r is Err ==> r == Err::<(), CompleteError>(CompleteError::NotFound),
    {
        self.update_task_status(task_id, TaskStatus::Done, now)
    }

    /// How many tasks the store holds.
    pub fn task_count(&self) -> (r: usize)
        ensures
            r == self@.tasks.len(),
    {
        self.tasks.len()
    }
}

} // verus!
