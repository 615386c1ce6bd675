//! The guarantees the lifecycle gives across calls, stated over the store
//! model and proved once and for all: fresh distinct ids, the rate-limit
//! window, FIFO claim order, exactly-once claiming, and the sweep touching
//! exactly the expired leases.

use vstd::prelude::*;

use crate::store::{
    spec_after_claim, spec_after_insert, spec_after_sweep, spec_enqueue_err, spec_enqueue_ok,
    spec_expired, spec_has_recent_duplicate, spec_is_member, spec_new_task, spec_oldest_pending,
    spec_pending_at, spec_with_status, wf_model, lemma_oldest_pending_sound, EnqueueError,
    StoreModel, RATE_LIMIT_WINDOW_SECS,
};
use crate::task::TaskStatus;
use crate::validate::spec_validate;

verus! {

/// A successful enqueue creates a task that is pending and whose id
/// differs from the id of every task already in the store.
pub proof fn lemma_enqueue_fresh_pending(
    m: StoreModel,
    submitter_id: Seq<char>,
    target: Seq<char>,
    content: Seq<char>,
    now: int,
)
    requires
        wf_model(m),
    ensures
        ({
            let m1 = spec_after_insert(m, submitter_id, target, content, now);
            let fresh = spec_new_task(m, submitter_id, target, content, now);
            &&& wf_model(m1)
            &&& m1.tasks.last() == fresh
            &&& fresh.status == TaskStatus::Pending
            &&& forall|j: int| 0 <= j < m.tasks.len() ==> (#[trigger] m.tasks[j]).id != fresh.id
        }),
{
}

/// Distinct requests never block one another: when two valid, authorized
/// enqueue requests carry different (submitter, target, content) triples
/// and neither has a recent duplicate already in the store, the first
/// succeeding does not make the second a duplicate, and the two calls
/// produce distinct task ids.
pub proof fn lemma_enqueue_distinct_triples(
    m: StoreModel,
    s1: Seq<char>,
    t1: Seq<char>,
    c1: Seq<char>,
    now1: int,
    s2: Seq<char>,
    t2: Seq<char>,
    c2: Seq<char>,
    now2: int,
)
    requires
        wf_model(m),
        spec_enqueue_ok(m, s1, t1, c1, now1),
        spec_validate(s2, t2, c2) is Ok,
        spec_is_member(m, s2),
        !spec_has_recent_duplicate(m, s2, t2, c2, now2),
        !(s1 == s2 && t1 == t2 && c1 == c2),
    ensures
        ({
            let m1 = spec_after_insert(m, s1, t1, c1, now1);
            &&& spec_enqueue_ok(m1, s2, t2, c2, now2)
            &&& spec_new_task(m1, s2, t2, c2, now2).id != spec_new_task(m, s1, t1, c1, now1).id
        }),
{
    let m1 = spec_after_insert(m, s1, t1, c1, now1);
    assert(spec_is_member(m1, s2)) by {
        let w = choose|i: int| 0 <= i < m.allowed.len() && m.allowed[i] == s2;
        assert(0 <= w < m1.allowed.len() && m1.allowed[w] == s2);
    }
    assert(!spec_has_recent_duplicate(m1, s2, t2, c2, now2)) by {
        assert forall|i: int|
            0 <= i < m1.tasks.len() implies !crate::store::spec_recent_duplicate(
            #[trigger] m1.tasks[i],
            s2,
            t2,
            c2,
            now2,
        ) by {
            if i < m.tasks.len() {
                assert(m1.tasks[i] == m.tasks[i]);
                assert(!spec_has_recent_duplicate(m, s2, t2, c2, now2));
            } else {
                assert(m1.tasks[i] == spec_new_task(m, s1, t1, c1, now1));
            }
        }
    }
}

/// An identical enqueue within the rate-limit window is refused: after a
/// successful enqueue of a triple at `now0`, enqueueing the same triple at
/// any time before the window has elapsed fails, and fails with
/// `RateLimited`.
pub proof fn lemma_duplicate_within_window(
    m: StoreModel,
    submitter_id: Seq<char>,
    target: Seq<char>,
    content: Seq<char>,
    now0: int,
    now1: int,
)
    requires
        wf_model(m),
        spec_enqueue_ok(m, submitter_id, target, content, now0),
        now1 < now0 + RATE_LIMIT_WINDOW_SECS,
    ensures
        ({
            let m1 = spec_after_insert(m, submitter_id, target, content, now0);
            &&& !spec_enqueue_ok(m1, submitter_id, target, content, now1)
            &&& spec_enqueue_err(m1, submitter_id, target, content, now1)
                == EnqueueError::RateLimited
        }),
{
    let m1 = spec_after_insert(m, submitter_id, target, content, now0);
    let n = m.tasks.len() as int;
    assert(crate::store::spec_recent_duplicate(m1.tasks[n], submitter_id, target, content, now1));
    assert(spec_has_recent_duplicate(m1, submitter_id, target, content, now1));
    assert(spec_is_member(m1, submitter_id)) by {
        let w = choose|i: int| 0 <= i < m.allowed.len() && m.allowed[i] == submitter_id;
        assert(0 <= w < m1.allowed.len() && m1.allowed[w] == submitter_id);
    }
}

/// Once the rate-limit window has elapsed, the same triple is accepted
/// again: after a successful enqueue at `now0`, an identical request at
/// `now1 >= now0 +` the window succeeds, provided no other recent
/// duplicate is in the store at `now1`.
pub proof fn lemma_succeeds_after_window(
    m: StoreModel,
    submitter_id: Seq<char>,
    target: Seq<char>,
    content: Seq<char>,
    now0: int,
    now1: int,
)
    requires
        wf_model(m),
        spec_enqueue_ok(m, submitter_id, target, content, now0),
        now1 >= now0 + RATE_LIMIT_WINDOW_SECS,
        !spec_has_recent_duplicate(m, submitter_id, target, content, now1),
    ensures
        spec_enqueue_ok(
            spec_after_insert(m, submitter_id, target, content, now0),
            submitter_id,
            target,
            content,
            now1,
        ),
{
    let m1 = spec_after_insert(m, submitter_id, target, content, now0);
    assert(spec_is_member(m1, submitter_id)) by {
        let w = choose|i: int| 0 <= i < m.allowed.len() && m.allowed[i] == submitter_id;
        assert(0 <= w < m1.allowed.len() && m1.allowed[w] == submitter_id);
    }
    assert(!spec_has_recent_duplicate(m1, submitter_id, target, content, now1)) by {
        assert forall|i: int|
            0 <= i < m1.tasks.len() implies !crate::store::spec_recent_duplicate(
            #[trigger] m1.tasks[i],
            submitter_id,
            target,
            content,
            now1,
        ) by {
            if i < m.tasks.len() {
                assert(m1.tasks[i] == m.tasks[i]);
                assert(!spec_has_recent_duplicate(m, submitter_id, target, content, now1));
            } else {
                assert(m1.tasks[i].created_at == now0);
            }
        }
    }
}

/// Creation times never decrease along the table: what sequential
/// enqueues with a forward-moving clock produce.
pub open spec fn spec_sorted_by_creation(m: StoreModel) -> bool {
    forall|i: int, j: int|
        0 <= i <= j < m.tasks.len() ==> (#[trigger] m.tasks[i]).created_at
            <= (#[trigger] m.tasks[j]).created_at
}

/// The store after `k` sequential claims, all at time `now`.
pub open spec fn spec_after_claims(m: StoreModel, now: int, k: nat) -> StoreModel
    decreases k,
{
    if k == 0 {
        m
    } else {
        spec_after_claim(spec_after_claims(m, now, (k - 1) as nat), now)
    }
}

/// After `k` claims on a store of pending tasks ordered by creation time,
/// the first `k` tasks are in progress, the rest still pending and
/// untouched, and the next claim takes index `k`.
proof fn lemma_after_claims_state(m: StoreModel, now: int, k: int)
    requires
        wf_model(m),
        spec_sorted_by_creation(m),
        forall|i: int|
            0 <= i < m.tasks.len() ==> (#[trigger] m.tasks[i]).status == TaskStatus::Pending,
        0 <= k <= m.tasks.len(),
    ensures
        ({
            let mk = spec_after_claims(m, now, k as nat);
            &&& mk.tasks.len() == m.tasks.len()
            &&& wf_model(mk)
            &&& forall|i: int|
                0 <= i < k ==> #[trigger] mk.tasks[i] == spec_with_status(
                    m.tasks[i],
                    TaskStatus::InProgress,
                    now,
                )
            &&& forall|i: int| k <= i < m.tasks.len() ==> #[trigger] mk.tasks[i] == m.tasks[i]
            &&& k < m.tasks.len() ==> spec_oldest_pending(mk) == Some(k)
            &&& k == m.tasks.len() ==> spec_oldest_pending(mk) is None
        }),
    decreases k,
{
    let mk = spec_after_claims(m, now, k as nat);
    if k == 0 {
        assert(mk == m);
    } else {
        lemma_after_claims_state(m, now, k - 1);
        let prev = spec_after_claims(m, now, (k - 1) as nat);
        assert(spec_oldest_pending(prev) == Some(k - 1));
        assert(mk == spec_after_claim(prev, now));
        assert(mk.tasks == prev.tasks.update(
            k - 1,
            spec_with_status(prev.tasks[k - 1], TaskStatus::InProgress, now),
        ));
    }
    lemma_oldest_pending_sound(mk);
    if k < m.tasks.len() {
        assert(spec_pending_at(mk, k));
        match spec_oldest_pending(mk) {
            None => {
                assert(false);
            },
            Some(i) => {
                assert(spec_pending_at(mk, i));
                assert(i >= k);
                assert(mk.tasks[i].created_at == m.tasks[i].created_at);
                assert(m.tasks[k].created_at <= m.tasks[i].created_at);
                assert(i == k);
            },
        }
    } else {
        match spec_oldest_pending(mk) {
            None => {},
            Some(i) => {
                assert(spec_pending_at(mk, i));
                assert(mk.tasks[i].status == TaskStatus::InProgress);
                assert(false);
            },
        }
    }
}

/// FIFO delivery: from a store of pending tasks ordered by creation time,
/// the claim after `k` earlier claims takes exactly the task at index `k`
/// — the one created (k+1)-th, still carrying its original fields — and
/// once every task has been claimed, a further claim finds nothing
/// pending.
pub proof fn lemma_claims_in_creation_order(m: StoreModel, now: int, k: int)
    requires
        wf_model(m),
        spec_sorted_by_creation(m),
        forall|i: int|
            0 <= i < m.tasks.len() ==> (#[trigger] m.tasks[i]).status == TaskStatus::Pending,
        0 <= k <= m.tasks.len(),
    ensures
        k < m.tasks.len() ==> spec_oldest_pending(spec_after_claims(m, now, k as nat)) == Some(k),
        k < m.tasks.len() ==> spec_after_claims(m, now, k as nat).tasks[k] == m.tasks[k],
        k == m.tasks.len() ==> spec_oldest_pending(spec_after_claims(m, now, k as nat)) is None,
{
    lemma_after_claims_state(m, now, k);
}

/// Claims are mutually exclusive: when a single task is pending, one
/// claim takes it, and a second claim — the loser of the race, as the
/// store serializes concurrent claimants — finds nothing pending.
pub proof fn lemma_claim_exactly_once(m: StoreModel, now: int, i: int)
    requires
        wf_model(m),
        spec_pending_at(m, i),
        forall|j: int| #[trigger] spec_pending_at(m, j) ==> j == i,
    ensures
        spec_oldest_pending(m) == Some(i),
        spec_oldest_pending(spec_after_claim(m, now)) is None,
{
    lemma_oldest_pending_sound(m);
    match spec_oldest_pending(m) {
        None => {
            assert(false);
        },
        Some(x) => {
            assert(spec_pending_at(m, x));
            assert(x == i);
        },
    }
    let m1 = spec_after_claim(m, now);
    lemma_oldest_pending_sound(m1);
    match spec_oldest_pending(m1) {
        None => {},
        Some(j) => {
            assert(spec_pending_at(m1, j));
            if j == i {
                assert(m1.tasks[j].status == TaskStatus::InProgress);
            } else {
                assert(m1.tasks[j] == m.tasks[j]);
                assert(spec_pending_at(m, j));
            }
            assert(false);
        },
    }
}

/// The sweep requeues exactly the expired leases: a task in progress past
/// the lease timeout comes back pending — claimable again — with its
/// lease clock reset, while every other task, in particular one already
/// completed, is left untouched.
pub proof fn lemma_sweep_requeues_exactly_expired(m: StoreModel, now: int)
    requires
        wf_model(m),
    ensures
        ({
            let m1 = spec_after_sweep(m, now);
            &&& wf_model(m1)
            &&& m1.tasks.len() == m.tasks.len()
            &&& forall|i: int|
                0 <= i < m.tasks.len() && spec_expired(#[trigger] m.tasks[i], now)
                    ==> m1.tasks[i] == spec_with_status(m.tasks[i], TaskStatus::Pending, now)
                    && spec_pending_at(m1, i)
            &&& forall|i: int|
                0 <= i < m.tasks.len() && !spec_expired(#[trigger] m.tasks[i], now)
                    ==> m1.tasks[i] == m.tasks[i]
            &&& forall|i: int|
                0 <= i < m.tasks.len() && (#[trigger] m.tasks[i]).status == TaskStatus::Done
                    ==> m1.tasks[i] == m.tasks[i]
        }),
{
}

} // verus!
