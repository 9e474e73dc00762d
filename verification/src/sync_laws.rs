//! What holds of whole cycles of the queue processor.

use crate::offline::{other_than, retried, retry_of, ActionType, ActionView, QueueModel};
use crate::queue_laws::{law_increment_retry_keeps_order, law_remove_idempotent};
use crate::sync::{
    absorbed,
    break_start_of,
    dispatchable,
    eligible,
    lemma_next_dispatch_bounds,
    next_dispatch,
    passed_over,
    settled,
    MAX_RETRY,
};
use vstd::prelude::*;

verus! {

/// The queue after a cycle has dealt with `a`, where `succeeded` tells how the remote call
/// went if one was made.
pub open spec fn after_action(q: QueueModel, a: ActionView, succeeded: bool) -> QueueModel {
    if dispatchable(a) {
        settled(q, a.id, succeeded)
    } else {
        passed_over(q, a)
    }
}

/// The queue after a cycle has dealt with the actions of `snapshot` from the place `from`
/// on, where `outcomes[i]` tells how the remote call for the action at place `i` went.
pub open spec fn after_cycle(
    q: QueueModel,
    snapshot: Seq<ActionView>,
    outcomes: Seq<bool>,
    from: int,
) -> QueueModel
    decreases snapshot.len() - from,
{
    if from < 0 || from >= snapshot.len() {
        q
    } else {
        after_cycle(
            after_action(q, snapshot[from], outcomes[from]),
            snapshot,
            outcomes,
            from + 1,
        )
    }
}

/// No two actions of `snapshot` share an identifier.
pub open spec fn distinct_ids(snapshot: Seq<ActionView>) -> bool {
    forall|i: int, j: int| 0 <= i < j < snapshot.len() ==> snapshot[i].id != snapshot[j].id
}

/// Going past actions that get no remote call is the cycle on those actions.
proof fn lemma_absorbed_is_cycle(
    q: QueueModel,
    snapshot: Seq<ActionView>,
    outcomes: Seq<bool>,
    from: int,
    to: int,
)
    requires
        0 <= from <= to <= snapshot.len(),
        forall|i: int| from <= i < to ==> !dispatchable(#[trigger] snapshot[i]),
    ensures
        after_cycle(q, snapshot, outcomes, from) == after_cycle(
            absorbed(q, snapshot, from, to),
            snapshot,
            outcomes,
            to,
        ),
    decreases to - from,
{
    if from < to {
        lemma_absorbed_is_cycle(
            passed_over(q, snapshot[from]),
            snapshot,
            outcomes,
            from + 1,
            to,
        );
    }
}

/// The steps of the processor make up the cycle: going from `from` to the next action that
/// gets a remote call, settling that call and going on from the place after it leads to
/// the same queue as dealing with the actions one by one.
pub proof fn law_steps_make_the_cycle(
    q: QueueModel,
    snapshot: Seq<ActionView>,
    outcomes: Seq<bool>,
    from: int,
)
    requires
        0 <= from <= snapshot.len(),
    ensures
        ({
            let to = next_dispatch(snapshot, from);
            let passed = absorbed(q, snapshot, from, to);
            after_cycle(q, snapshot, outcomes, from) == if to < snapshot.len() {
                after_cycle(
                    settled(passed, snapshot[to].id, outcomes[to]),
                    snapshot,
                    outcomes,
                    to + 1,
                )
            } else {
                passed
            }
        }),
{
    let to = next_dispatch(snapshot, from);
    lemma_next_dispatch_bounds(snapshot, from);
    lemma_absorbed_is_cycle(q, snapshot, outcomes, from, to);
}

/// The remote calls of a cycle go out in the order of the snapshot: the next call is
/// for the first action that gets one, and none is made for an action before it.
pub proof fn law_calls_follow_the_queue(snapshot: Seq<ActionView>, from: int)
    requires
        0 <= from <= snapshot.len(),
    ensures
        from <= next_dispatch(snapshot, from) <= snapshot.len(),
        forall|i: int|
            from <= i < next_dispatch(snapshot, from) ==> !dispatchable(#[trigger] snapshot[i]),
        next_dispatch(snapshot, from) < snapshot.len() ==> dispatchable(
            snapshot[next_dispatch(snapshot, from)],
        ),
{
    lemma_next_dispatch_bounds(snapshot, from);
}

/// A row with another identifier is untouched by what a cycle does for one action.
proof fn lemma_action_leaves_others(q: QueueModel, a: ActionView, succeeded: bool, row: ActionView)
    requires
        q.well_formed(),
        q.rows.contains(row),
        row.id != a.id,
    ensures
        after_action(q, a, succeeded).well_formed(),
        after_action(q, a, succeeded).rows.contains(row),
{
    law_remove_idempotent(q, a.id);
    law_increment_retry_keeps_order(q, a.id);
    let i = choose|i: int| 0 <= i < q.rows.len() && q.rows[i] == row;
    let bumped = q.increment_retry(a.id);
    assert(bumped.rows[i] == retry_of(a.id)(q.rows[i]));
    assert(bumped.rows.contains(row));
}

/// What a cycle does for one action keeps the queue well formed.
proof fn lemma_action_keeps_well_formed(q: QueueModel, a: ActionView, succeeded: bool)
    requires
        q.well_formed(),
    ensures
        after_action(q, a, succeeded).well_formed(),
{
    law_remove_idempotent(q, a.id);
    law_increment_retry_keeps_order(q, a.id);
}

/// A cycle keeps the queue well formed.
pub proof fn law_cycle_keeps_well_formed(
    q: QueueModel,
    snapshot: Seq<ActionView>,
    outcomes: Seq<bool>,
    from: int,
)
    requires
        q.well_formed(),
    ensures
        after_cycle(q, snapshot, outcomes, from).well_formed(),
    decreases snapshot.len() - from,
{
    if 0 <= from < snapshot.len() {
        lemma_action_keeps_well_formed(q, snapshot[from], outcomes[from]);
        law_cycle_keeps_well_formed(
            after_action(q, snapshot[from], outcomes[from]),
            snapshot,
            outcomes,
            from + 1,
        );
    }
}

/// What a cycle does for one action adds nothing to the queue and hands out no identifier.
proof fn lemma_action_adds_nothing(q: QueueModel, a: ActionView, succeeded: bool, id: int)
    requires
        q.well_formed(),
    ensures
        after_action(q, a, succeeded).last_id == q.last_id,
        after_action(q, a, succeeded).rows.len() <= q.rows.len(),
        after_action(q, a, succeeded).holds(id) ==> q.holds(id),
{
    let after = after_action(q, a, succeeded);
    law_remove_idempotent(q, a.id);
    law_increment_retry_keeps_order(q, a.id);
    q.rows.lemma_filter_len(other_than(a.id));
    if after.holds(id) {
        let i = choose|i: int| 0 <= i < after.rows.len() && (#[trigger] after.rows[i]).id == id;
        let row = after.rows[i];
        if dispatchable(a) && succeeded {
            assert(after.rows.contains(row));
            assert(q.rows.contains(row) && row.id != a.id);
            let j = choose|j: int| 0 <= j < q.rows.len() && q.rows[j] == row;
            assert(q.rows[j].id == id);
        } else if after != q {
            assert(after == q.increment_retry(a.id));
            assert(q.rows[i].id == id);
        }
    }
}

/// A cycle only takes actions out of the queue or counts attempts on them: it adds no
/// action, hands out no identifier, and the queue does not grow.
pub proof fn law_cycle_adds_nothing(
    q: QueueModel,
    snapshot: Seq<ActionView>,
    outcomes: Seq<bool>,
    from: int,
    id: int,
)
    requires
        q.well_formed(),
    ensures
        after_cycle(q, snapshot, outcomes, from).last_id == q.last_id,
        after_cycle(q, snapshot, outcomes, from).rows.len() <= q.rows.len(),
        after_cycle(q, snapshot, outcomes, from).holds(id) ==> q.holds(id),
    decreases snapshot.len() - from,
{
    if 0 <= from < snapshot.len() {
        let q1 = after_action(q, snapshot[from], outcomes[from]);
        lemma_action_adds_nothing(q, snapshot[from], outcomes[from], id);
        lemma_action_keeps_well_formed(q, snapshot[from], outcomes[from]);
        law_cycle_adds_nothing(q1, snapshot, outcomes, from + 1, id);
    }
}

/// An action that has failed `MAX_RETRY` times or more gets no remote call, and the cycle
/// leaves it in the queue as it is: it is counted among the pending actions as before.
/// This holds whatever becomes of the other actions of the snapshot.
pub proof fn law_exhausted_action_stays(
    q: QueueModel,
    snapshot: Seq<ActionView>,
    outcomes: Seq<bool>,
    from: int,
    at: int,
    row: ActionView,
)
    requires
        q.well_formed(),
        distinct_ids(snapshot),
        0 <= from <= at < snapshot.len(),
        snapshot[at].retry_count >= MAX_RETRY,
        q.rows.contains(row),
        row.id == snapshot[at].id,
    ensures
        !dispatchable(snapshot[at]),
        forall|k: int| 0 <= k <= snapshot.len() ==> #[trigger] next_dispatch(snapshot, k) != at,
        after_cycle(q, snapshot, outcomes, from).rows.contains(row),
    decreases snapshot.len() - from,
{
    assert forall|k: int| 0 <= k <= snapshot.len() implies #[trigger] next_dispatch(snapshot, k)
        != at by {
        lemma_next_dispatch_bounds(snapshot, k);
    }
    let a = snapshot[from];
    let q1 = after_action(q, a, outcomes[from]);
    if from == at {
        assert(q1 == q);
    } else {
        lemma_action_leaves_others(q, a, outcomes[from], row);
    }
    if from + 1 <= at {
        law_exhausted_action_stays(q1, snapshot, outcomes, from + 1, at, row);
    } else {
        lemma_cycle_leaves_others(q1, snapshot, outcomes, from + 1, row);
    }
}

/// A row whose identifier no action of the snapshot from `from` on bears stays in the
/// queue as it is.
proof fn lemma_cycle_leaves_others(
    q: QueueModel,
    snapshot: Seq<ActionView>,
    outcomes: Seq<bool>,
    from: int,
    row: ActionView,
)
    requires
        q.well_formed(),
        0 <= from <= snapshot.len(),
        q.rows.contains(row),
        forall|i: int| from <= i < snapshot.len() ==> (#[trigger] snapshot[i]).id != row.id,
    ensures
        after_cycle(q, snapshot, outcomes, from).rows.contains(row),
    decreases snapshot.len() - from,
{
    if from < snapshot.len() {
        lemma_action_leaves_others(q, snapshot[from], outcomes[from], row);
        lemma_cycle_leaves_others(
            after_action(q, snapshot[from], outcomes[from]),
            snapshot,
            outcomes,
            from + 1,
            row,
        );
    }
}

/// A cycle over an empty snapshot makes no remote call for an action and leaves the queue
/// as it is.
pub proof fn law_empty_cycle_is_idle(q: QueueModel, outcomes: Seq<bool>)
    ensures
        next_dispatch(Seq::<ActionView>::empty(), 0) == 0,
        absorbed(q, Seq::<ActionView>::empty(), 0, 0) == q,
        after_cycle(q, Seq::<ActionView>::empty(), outcomes, 0) == q,
{
}

/// An action for a break whose payload is missing or unreadable is never sent and never
/// removed: while it may still be attempted, the cycle counts one more failed attempt on it
/// and leaves it queued.
pub proof fn law_unreadable_break_is_a_failed_attempt(
    q: QueueModel,
    a: ActionView,
    succeeded: bool,
)
    requires
        q.well_formed(),
        a.action_type == ActionType::ClockOutWithBreak,
        break_start_of(a) is None,
    ensures
        !dispatchable(a),
        eligible(a) ==> after_action(q, a, succeeded) == q.increment_retry(a.id),
        !eligible(a) ==> after_action(q, a, succeeded) == q,
        after_action(q, a, succeeded).rows.len() == q.rows.len(),
        q.holds(a.id) ==> after_action(q, a, succeeded).holds(a.id),
{
    law_increment_retry_keeps_order(q, a.id);
    if q.holds(a.id) && eligible(a) {
        let i = choose|i: int| 0 <= i < q.rows.len() && (#[trigger] q.rows[i]).id == a.id;
        let after = q.increment_retry(a.id);
        assert(after.rows[i].id == a.id);
    }
}

/// Over a whole cycle, an action for a break whose payload is missing or unreadable gets
/// no remote call and is still queued at the end: with one more failed attempt counted on it
/// where it could still be attempted, and as it was where it could not. This holds whatever
/// becomes of the other actions of the snapshot.
pub proof fn law_unreadable_break_stays_queued(
    q: QueueModel,
    snapshot: Seq<ActionView>,
    outcomes: Seq<bool>,
    from: int,
    at: int,
    row: ActionView,
)
    requires
        q.well_formed(),
        distinct_ids(snapshot),
        0 <= from <= at < snapshot.len(),
        snapshot[at].action_type == ActionType::ClockOutWithBreak,
        break_start_of(snapshot[at]) is None,
        q.rows.contains(row),
        row.id == snapshot[at].id,
    ensures
        !dispatchable(snapshot[at]),
        forall|k: int| 0 <= k <= snapshot.len() ==> #[trigger] next_dispatch(snapshot, k) != at,
        after_cycle(q, snapshot, outcomes, from).rows.contains(
            if eligible(snapshot[at]) {
                retried(row)
            } else {
                row
            },
        ),
    decreases snapshot.len() - from,
{
    assert forall|k: int| 0 <= k <= snapshot.len() implies #[trigger] next_dispatch(snapshot, k)
        != at by {
        lemma_next_dispatch_bounds(snapshot, k);
    }
    let a = snapshot[from];
    let q1 = after_action(q, a, outcomes[from]);
    lemma_action_keeps_well_formed(q, a, outcomes[from]);
    if from < at {
        lemma_action_leaves_others(q, a, outcomes[from], row);
        law_unreadable_break_stays_queued(q1, snapshot, outcomes, from + 1, at, row);
    } else {
        let kept = if eligible(a) {
            retried(row)
        } else {
            row
        };
        if eligible(a) {
            let i = choose|i: int| 0 <= i < q.rows.len() && q.rows[i] == row;
            assert(q1.rows[i] == retry_of(a.id)(q.rows[i]));
            assert(q1.rows.contains(kept));
        }
        lemma_cycle_leaves_others(q1, snapshot, outcomes, at + 1, kept);
    }
}

/// An action whose remote call went through leaves the queue, and one whose call failed
/// stays with one more attempt counted; no other action is touched either way.
pub proof fn law_settling_touches_one_action(q: QueueModel, id: int, succeeded: bool)
    requires
        q.well_formed(),
    ensures
        settled(q, id, succeeded).well_formed(),
        succeeded ==> !settled(q, id, succeeded).holds(id),
        succeeded ==> settled(q, id, succeeded).rows == q.rows.filter(other_than(id)),
        !succeeded ==> settled(q, id, succeeded).rows.len() == q.rows.len(),
        forall|row: ActionView|
            q.rows.contains(row) && row.id != id ==> #[trigger] settled(
                q,
                id,
                succeeded,
            ).rows.contains(row),
{
    law_remove_idempotent(q, id);
    law_increment_retry_keeps_order(q, id);
    assert forall|row: ActionView| q.rows.contains(row) && row.id != id implies #[trigger] settled(
        q,
        id,
        succeeded,
    ).rows.contains(row) by {
        let i = choose|i: int| 0 <= i < q.rows.len() && q.rows[i] == row;
        let bumped = q.increment_retry(id);
        assert(bumped.rows[i] == retry_of(id)(q.rows[i]));
        assert(bumped.rows.contains(row));
    }
}

} // verus!
