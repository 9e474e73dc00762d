//! What holds of the queue of pending actions over whole histories of use.

use crate::offline::{other_than, retry_of, ActionType, ActionView, QueueModel};
use vstd::prelude::*;

verus! {

/// What a caller hands to `enqueue`.
pub struct Submission {
    pub action_type: ActionType,
    pub timestamp: int,
    pub payload: Option<Seq<char>>,
}

/// One use of the queue.
pub enum QueueOp {
    /// An action is queued at the time `now`.
    Enqueue { submission: Submission, now: int },
    /// One more failed attempt is counted on the action numbered `id`.
    IncrementRetry { id: int },
}

/// What was handed to `enqueue` when `a` was queued.
pub open spec fn submission_of(a: ActionView) -> Submission {
    Submission { action_type: a.action_type, timestamp: a.timestamp, payload: a.payload }
}

/// The submissions behind a sequence of actions, in the same order.
pub open spec fn submissions_of(rows: Seq<ActionView>) -> Seq<Submission> {
    rows.map_values(|a: ActionView| submission_of(a))
}

/// The queue after one use.
pub open spec fn apply(q: QueueModel, op: QueueOp) -> QueueModel {
    match op {
        QueueOp::Enqueue { submission, now } => q.enqueue(
            submission.action_type,
            submission.timestamp,
            submission.payload,
            now,
        ),
        QueueOp::IncrementRetry { id } => q.increment_retry(id),
    }
}

/// The queue after the uses `ops`, first to last.
pub open spec fn apply_all(q: QueueModel, ops: Seq<QueueOp>) -> QueueModel
    decreases ops.len(),
{
    if ops.len() == 0 {
        q
    } else {
        apply(apply_all(q, ops.drop_last()), ops.last())
    }
}

/// What `ops` hand to `enqueue`, first to last.
pub open spec fn submitted(ops: Seq<QueueOp>) -> Seq<Submission>
    decreases ops.len(),
{
    if ops.len() == 0 {
        Seq::empty()
    } else {
        match ops.last() {
            QueueOp::Enqueue { submission, now } => submitted(ops.drop_last()).push(submission),
            QueueOp::IncrementRetry { id } => submitted(ops.drop_last()),
        }
    }
}

/// Queueing keeps a queue well formed, and adds exactly one action while identifiers last.
pub proof fn law_enqueue_appends(
    q: QueueModel,
    action_type: ActionType,
    timestamp: int,
    payload: Option<Seq<char>>,
    now: int,
)
    requires
        q.well_formed(),
    ensures
        q.enqueue(action_type, timestamp, payload, now).well_formed(),
        q.has_room() ==> {
            let after = q.enqueue(action_type, timestamp, payload, now);
            &&& after.rows.len() == q.rows.len() + 1
            &&& after.rows.drop_last() == q.rows
            &&& submission_of(after.rows.last()) == Submission { action_type, timestamp, payload }
            &&& after.rows.last().id == q.last_id + 1
            &&& after.rows.last().retry_count == 0
            &&& after.rows.last().created_at >= now
        },
        !q.has_room() ==> q.enqueue(action_type, timestamp, payload, now) == q,
{
    if q.has_room() {
        let after = q.enqueue(action_type, timestamp, payload, now);
        assert(after.rows.drop_last() =~= q.rows);
        assert forall|i: int, j: int| 0 <= i < j < after.rows.len() implies after.rows[i].id
            < after.rows[j].id && after.rows[i].created_at <= after.rows[j].created_at by {
            if j < q.rows.len() {
                assert(after.rows[i] == q.rows[i] && after.rows[j] == q.rows[j]);
            } else {
                assert(after.rows[i] == q.rows[i]);
                assert(i < q.rows.len() - 1 ==> q.rows[i].created_at
                    <= q.rows[q.rows.len() - 1].created_at);
            }
        }
    }
}

/// Counting an attempt keeps a queue well formed and changes nothing but the count of the
/// one action: every action keeps its place, its identifier and what was submitted.
pub proof fn law_increment_retry_keeps_order(q: QueueModel, id: int)
    requires
        q.well_formed(),
    ensures
        q.increment_retry(id).well_formed(),
        q.increment_retry(id).rows.len() == q.rows.len(),
        submissions_of(q.increment_retry(id).rows) == submissions_of(q.rows),
        forall|i: int|
            0 <= i < q.rows.len() ==> {
                let before = #[trigger] q.rows[i];
                let after = q.increment_retry(id).rows[i];
                &&& after.id == before.id
                &&& after.created_at == before.created_at
                &&& before.id != id ==> after == before
                &&& before.id == id && before.retry_count < i32::MAX ==> after.retry_count
                    == before.retry_count + 1
            },
{
    let after = q.increment_retry(id);
    assert forall|i: int| 0 <= i < after.rows.len() implies 1 <= (#[trigger] after.rows[i]).id
        <= after.last_id && 0 <= after.rows[i].retry_count by {
        assert(after.rows[i] == retry_of(id)(q.rows[i]));
    }
    assert forall|i: int, j: int| 0 <= i < j < after.rows.len() implies after.rows[i].id
        < after.rows[j].id && after.rows[i].created_at <= after.rows[j].created_at by {
        assert(after.rows[i] == retry_of(id)(q.rows[i]));
        assert(after.rows[j] == retry_of(id)(q.rows[j]));
    }
    assert(submissions_of(after.rows) =~= submissions_of(q.rows));
}

/// The pending actions are what was submitted, in the order of submission: whatever
/// attempts are counted in between, on whichever actions, the queue holds what it held at
/// first followed by every submission since, first to last. (Identifiers must last for the
/// submissions: one that finds none left is refused and does not join the queue.)
pub proof fn law_pending_keeps_submission_order(start: QueueModel, ops: Seq<QueueOp>)
    requires
        start.well_formed(),
        start.last_id + ops.len() <= i64::MAX,
    ensures
        apply_all(start, ops).well_formed(),
        apply_all(start, ops).last_id <= start.last_id + ops.len(),
        submissions_of(apply_all(start, ops).rows) == submissions_of(start.rows) + submitted(ops),
    decreases ops.len(),
{
    if ops.len() == 0 {
        assert(submissions_of(start.rows) + submitted(ops) =~= submissions_of(start.rows));
    } else {
        let earlier = ops.drop_last();
        let mid = apply_all(start, earlier);
        law_pending_keeps_submission_order(start, earlier);
        match ops.last() {
            QueueOp::Enqueue { submission, now } => {
                law_enqueue_appends(
                    mid,
                    submission.action_type,
                    submission.timestamp,
                    submission.payload,
                    now,
                );
                let end = apply(mid, ops.last());
                assert(submissions_of(end.rows) =~= submissions_of(mid.rows).push(submission));
                assert(submissions_of(end.rows) =~= submissions_of(start.rows) + submitted(ops));
            },
            QueueOp::IncrementRetry { id } => {
                law_increment_retry_keeps_order(mid, id);
            },
        }
    }
}

/// Removing an action a second time changes nothing more, and removing it touches no other
/// action: the queue keeps exactly the actions with another identifier, each as it was and
/// in the order they had.
pub proof fn law_remove_idempotent(q: QueueModel, id: int)
    requires
        q.well_formed(),
    ensures
        q.remove(id).well_formed(),
        q.remove(id).remove(id) == q.remove(id),
        !q.remove(id).holds(id),
        q.remove(id).rows == q.rows.filter(other_than(id)),
        forall|a: ActionView|
            q.remove(id).rows.contains(a) <==> (#[trigger] q.rows.contains(a) && a.id != id),
        !q.holds(id) ==> q.remove(id) == q,
{
    let kept = q.rows.filter(other_than(id));
    lemma_filter_keeps(q.rows, id);
    assert forall|i: int| 0 <= i < kept.len() implies (#[trigger] kept[i]).id != id by {
        assert(kept.contains(kept[i]));
    }
    crate::offline::lemma_remove_absent(kept, id);
    if !q.holds(id) {
        crate::offline::lemma_remove_absent(q.rows, id);
    }
    lemma_filter_well_formed(q, id);
}

/// Membership in what a removal keeps.
proof fn lemma_filter_keeps(rows: Seq<ActionView>, id: int)
    ensures
        forall|a: ActionView|
            rows.filter(other_than(id)).contains(a) <==> (#[trigger] rows.contains(a) && a.id
                != id),
{
    let kept = rows.filter(other_than(id));
    assert forall|a: ActionView| kept.contains(a) <==> (#[trigger] rows.contains(a) && a.id
        != id) by {
        if kept.contains(a) {
            let i = choose|i: int| 0 <= i < kept.len() && kept[i] == a;
            rows.lemma_filter_pred(other_than(id), i);
            rows.lemma_filter_contains_rev(other_than(id), a);
        }
        if rows.contains(a) && a.id != id {
            let j = choose|j: int| 0 <= j < rows.len() && rows[j] == a;
            rows.lemma_filter_contains(other_than(id), j);
        }
    }
}

/// A removal keeps a queue well formed.
proof fn lemma_filter_well_formed(q: QueueModel, id: int)
    requires
        q.well_formed(),
    ensures
        q.remove(id).well_formed(),
{
    if q.holds(id) {
        let at = choose|i: int| 0 <= i < q.rows.len() && (#[trigger] q.rows[i]).id == id;
        crate::offline::lemma_remove_present(q.rows, id, at);
        let kept = q.rows.remove(at);
        assert forall|i: int| 0 <= i < kept.len() implies 1 <= (#[trigger] kept[i]).id
            <= q.last_id && 0 <= kept[i].retry_count by {
            if i < at {
                assert(kept[i] == q.rows[i]);
            } else {
                assert(kept[i] == q.rows[i + 1]);
            }
        }
        assert forall|i: int, j: int| 0 <= i < j < kept.len() implies kept[i].id < kept[j].id
            && kept[i].created_at <= kept[j].created_at by {
            let a = if i < at {
                i
            } else {
                i + 1
            };
            let b = if j < at {
                j
            } else {
                j + 1
            };
            assert(kept[i] == q.rows[a] && kept[j] == q.rows[b]);
        }
    } else {
        crate::offline::lemma_remove_absent(q.rows, id);
    }
}

} // verus!
