//! The request and response shapes of the three logical operations —
//! enqueue, claim, complete — and the verified core of each handler.
//! Transport, serialization, and persistence wiring stay outside; these
//! functions take the decoded request and the store and produce the
//! response.

use vstd::prelude::*;

use crate::store::{
    spec_after_claim, spec_after_insert, spec_after_set_status, spec_enqueue_ok, spec_oldest_pending,
    spec_pending_at, spec_with_status, wf_model, TaskStore,
};
use crate::task::{Task, TaskStatus};

verus! {

/// Body of an enqueue request: who submits, which number to call, and
/// what to say.
#[derive(Debug)]
pub struct AddPhoneTaskReq {
    pub user_id: String,
    pub phone_number: String,
    pub notification_content: String,
}

/// Reply to an enqueue request; `task_id` carries the decimal id of the
/// new task exactly when `success` holds.
#[derive(Debug)]
pub struct AddPhoneTaskResp {
    pub success: bool,
    pub msg: String,
    pub task_id: Option<String>,
}

/// Reply to a claim request; `task` carries the claimed task exactly
/// when `success` holds.
#[derive(Debug)]
pub struct GetPhoneTaskResp {
    pub success: bool,
    pub msg: String,
    pub task: Option<PhoneTask>,
}

/// A task as the consumer sees it: status and timestamps stay private to
/// the store.
#[derive(Debug)]
pub struct PhoneTask {
    pub id: Option<i64>,
    pub user_id: String,
    pub phone_number: String,
    pub notification_content: String,
}

/// Body of a completion report.
#[derive(Clone, Copy, Debug, PartialEq, Eq, Structural)]
pub struct FinishPhoneTaskReq {
    pub task_id: i64,
}

/// Reply to a completion report.
#[derive(Debug)]
pub struct FinishPhoneTaskResp {
    pub success: bool,
    pub msg: String,
}

/// The character for one decimal digit.
pub open spec fn spec_digit_char(d: int) -> char {
    if d == 0 {
        '0'
    } else if d == 1 {
        '1'
    } else if d == 2 {
        '2'
    } else if d == 3 {
        '3'
    } else if d == 4 {
        '4'
    } else if d == 5 {
        '5'
    } else if d == 6 {
        '6'
    } else if d == 7 {
        '7'
    } else if d == 8 {
        '8'
    } else {
        '9'
    }
}

/// The decimal rendering of a non-negative number, without leading
/// zeros (a single `'0'` for zero).
pub open spec fn spec_decimal(n: int) -> Seq<char>
    decreases n,
{
    if n < 10 {
        seq![spec_digit_char(n)]
    } else {
        spec_decimal(n / 10).push(spec_digit_char(n % 10))
    }
}

/// One decimal digit as a string.
fn digit_str(d: u64) -> (r: &'static str)
    requires
        d < 10,
    ensures
        r@ == seq![spec_digit_char(d as int)],
{
    proof {
        reveal_strlit("0");
        reveal_strlit("1");
        reveal_strlit("2");
        reveal_strlit("3");
        reveal_strlit("4");
        reveal_strlit("5");
        reveal_strlit("6");
        reveal_strlit("7");
        reveal_strlit("8");
        reveal_strlit("9");
    }
    let r = if d == 0 {
        "0"
    } else if d == 1 {
        "1"
    } else if d == 2 {
        "2"
    } else if d == 3 {
        "3"
    } else if d == 4 {
        "4"
    } else if d == 5 {
        "5"
    } else if d == 6 {
        "6"
    } else if d == 7 {
        "7"
    } else if d == 8 {
        "8"
    } else {
        "9"
    };
    proof {
        assert(r@ =~= seq![spec_digit_char(d as int)]);
    }
    r
}

/// Renders a number in decimal.
pub fn decimal_string(n: u64) -> (r: String)
    ensures
        r@ == spec_decimal(n as int),
    decreases n,
{
    if n < 10 {
        String::from_str(digit_str(n))
    } else {
        let mut s = decimal_string(n / 10);
        let ghost prefix = s@;
        s.append(digit_str(n % 10));
        proof {
            assert(s@ =~= spec_decimal(n as int / 10).push(spec_digit_char(n as int % 10)));
        }
        s
    }
}

impl PhoneTask {
    /// The wire shape of a stored task.
    pub fn from_task(t: &Task) -> (r: PhoneTask)
        ensures
            r.id == Some(t.id),
            r.user_id@ == t@.submitter_id,
            r.phone_number@ == t@.target,
            r.notification_content@ == t@.content,
    {
        PhoneTask {
            id: Some(t.id),
            user_id: t.submitter_id.clone(),
            phone_number: t.target.clone(),
            notification_content: t.content.clone(),
        }
    }
}

/// Enqueue: validates the request, checks the allow-list and the rate
/// limit against the store, and inserts a fresh pending task.  `success`
/// holds exactly when all checks pass; `task_id` then carries the new id
/// in decimal, and on failure the store is unchanged.
pub fn add_phone_task_handler(store: &mut TaskStore, req: AddPhoneTaskReq, now: u64) -> (resp:
    AddPhoneTaskResp)
    requires
        wf_model(old(store)@),
        old(store)@.tasks.len() < i64::MAX,
    ensures
        wf_model(final(store)@),
        resp.success == spec_enqueue_ok(
            old(store)@,
            req.user_id@,
            req.phone_number@,
            req.notification_content@,
            now as int,
        ),
        resp.success ==> {
            &&& final(store)@ == spec_after_insert(
                old(store)@,
                req.user_id@,
                req.phone_number@,
                req.notification_content@,
                now as int,
            )
            &&& resp.task_id matches Some(id) && id@ == spec_decimal(
                old(store)@.tasks.len() as int + 1,
            )
        },
        !resp.success ==> final(store)@ == old(store)@ && resp.task_id is None,
        resp.msg@.len() > 0,
{
    proof {
        reveal_strlit("phone task created");
        reveal_strlit("request refused");
    }
    match store.enqueue(req.user_id, req.phone_number, req.notification_content, now) {
        Ok(id) => AddPhoneTaskResp {
            success: true,
            msg: String::from_str("phone task created"),
            task_id: Some(decimal_string(id as u64)),
        },
        Err(_) => AddPhoneTaskResp {
            success: false,
            msg: String::from_str("request refused"),
            task_id: None,
        },
    }
}

/// Claim: atomically takes the oldest pending task for the consumer.
/// `success` holds exactly when a task was pending; `task` then carries
/// the claimed task, now in progress in the store.
pub fn get_phone_task_handler(store: &mut TaskStore, now: u64) -> (resp: GetPhoneTaskResp)
    requires
        wf_model(old(store)@),
    ensures
        wf_model(final(store)@),
        final(store)@ == spec_after_claim(old(store)@, now as int),
        resp.success == (exists|i: int| spec_pending_at(old(store)@, i)),
        resp.success ==> (resp.task matches Some(pt) && {
            &&& spec_oldest_pending(old(store)@) matches Some(i)
            &&& pt.id == Some((i + 1) as i64)
            &&& pt.user_id@ == old(store)@.tasks[i].submitter_id
            &&& pt.phone_number@ == old(store)@.tasks[i].target
            &&& pt.notification_content@ == old(store)@.tasks[i].content
        }),
        !resp.success ==> resp.task is None,
        resp.msg@.len() > 0,
{
    proof {
        reveal_strlit("task claimed");
        reveal_strlit("no pending task");
    }
    match store.claim(now) {
        Ok(t) => {
            let pt = PhoneTask::from_task(&t);
            GetPhoneTaskResp {
                success: true,
                msg: String::from_str("task claimed"),
                task: Some(pt),
            }
        },
        Err(_) => GetPhoneTaskResp {
            success: false,
            msg: String::from_str("no pending task"),
            task: None,
        },
    }
}

/// Complete: marks the reported task done.  `success` holds exactly when
/// the id names a stored task; the store is unchanged otherwise.
pub fn finish_phone_task_handler(store: &mut TaskStore, req: FinishPhoneTaskReq, now: u64) -> (resp:
    FinishPhoneTaskResp)
    requires
        wf_model(old(store)@),
    ensures
        wf_model(final(store)@),
        final(store)@ == spec_after_set_status(
            old(store)@,
            req.task_id as int,
            TaskStatus::Done,
            now as int,
        ),
        resp.success == (1 <= req.task_id as int <= old(store)@.tasks.len()),
        resp.msg@.len() > 0,
{
    proof {
        reveal_strlit("task status updated");
        reveal_strlit("task status update failed, please retry");
    }
    match store.complete(req.task_id, now) {
        Ok(()) => FinishPhoneTaskResp {
            success: true,
            msg: String::from_str("task status updated"),
        },
        Err(_) => FinishPhoneTaskResp {
            success: false,
            msg: String::from_str("task status update failed, please retry"),
        },
    }
}

} // verus!
