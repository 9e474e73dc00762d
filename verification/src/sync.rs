//! The processor of the queue: replays the pending actions against the remote service.
//!
//! The processor wakes at a fixed interval and runs one cycle. A cycle takes a snapshot of
//! the queue and goes through it from the oldest action to the newest. An action that has
//! failed too often is passed over and stays queued. Every other action is replayed: where
//! the remote call succeeds the action leaves the queue, where it fails one more attempt is
//! counted on it. When the snapshot is through, the clock state is fetched once from the
//! remote service and overwrites what was known.
//!
//! Nothing here sends anything. `SyncCycle::begin` and `SyncCycle::replayed` say which
//! remote call comes next; whoever holds the connection makes the call and reports how it
//! went.

use crate::clock::{RemoteCall, RemoteCallView};
use crate::instant::{normalize_rfc3339, rfc3339_in_utc};
use crate::offline::{action_views, ActionType, ActionView, OfflineQueue, QueueModel, QueuedAction};
use crate::state::AppState;
use crate::text::text_view;
use vstd::prelude::*;

verus! {

/// After this many failed attempts an action is no longer replayed.
pub const MAX_RETRY: i32 = 5;

/// The seconds between two cycles.
pub const SYNC_INTERVAL_SECS: u64 = 30;

/// What an optional remote call is, as mathematical values.
pub open spec fn call_view(call: Option<RemoteCall>) -> Option<RemoteCallView> {
    match call {
        Some(c) => Some(c@),
        None => None,
    }
}

/// The remote call that replays an action of kind `action_type`, where `break_start` is
/// the start of the break that the action carries, as a date and time in UTC. An action
/// with a break that carries no such start cannot be replayed.
pub open spec fn spec_replay_call(
    action_type: ActionType,
    break_start: Option<Seq<char>>,
) -> Option<RemoteCallView> {
    match action_type {
        ActionType::ClockIn => Some(RemoteCallView::ClockIn),
        ActionType::ClockOut => Some(RemoteCallView::ClockOut),
        ActionType::ClockOutWithBreak => match break_start {
            Some(at) => Some(RemoteCallView::ClockOutThenIn { break_start: at }),
            None => None,
        },
    }
}

/// The start of the break that `a` carries, as a date and time in UTC: `None` where `a`
/// has no payload or its payload is no date and time in RFC 3339.
pub open spec fn break_start_of(a: ActionView) -> Option<Seq<char>> {
    match a.payload {
        Some(text) => rfc3339_in_utc(text),
        None => None,
    }
}

/// The remote call that replays `a`, if there is one.
pub open spec fn planned_call(a: ActionView) -> Option<RemoteCallView> {
    spec_replay_call(a.action_type, break_start_of(a))
}

/// Whether `a` may still be attempted.
pub open spec fn eligible(a: ActionView) -> bool {
    a.retry_count < MAX_RETRY
}

/// Whether a cycle sends a remote call for `a`.
pub open spec fn dispatchable(a: ActionView) -> bool {
    eligible(a) && planned_call(a) is Some
}

/// The place of the first action at or after `from` for which a cycle sends a remote
/// call; the length of the snapshot where there is none.
pub open spec fn next_dispatch(snapshot: Seq<ActionView>, from: int) -> int
    decreases snapshot.len() - from,
{
    if from >= snapshot.len() {
        snapshot.len() as int
    } else if dispatchable(snapshot[from]) {
        from
    } else {
        next_dispatch(snapshot, from + 1)
    }
}

/// The queue after a cycle has gone past `a` without a remote call: an action that has
/// failed too often is left alone, and one that cannot be replayed has failed once more.
pub open spec fn passed_over(q: QueueModel, a: ActionView) -> QueueModel {
    if eligible(a) {
        q.increment_retry(a.id)
    } else {
        q
    }
}

/// The queue after a cycle has gone past the actions at `from..to` without a remote call.
pub open spec fn absorbed(q: QueueModel, snapshot: Seq<ActionView>, from: int, to: int) -> QueueModel
    decreases to - from,
{
    if from >= to {
        q
    } else {
        absorbed(passed_over(q, snapshot[from]), snapshot, from + 1, to)
    }
}

/// The queue after the remote call for the action numbered `id` has gone through or
/// failed.
pub open spec fn settled(q: QueueModel, id: int, succeeded: bool) -> QueueModel {
    if succeeded {
        q.remove(id)
    } else {
        q.increment_retry(id)
    }
}

/// The remote call that replays an action of kind `action_type`, where `break_start` is
/// the start of the break that the action carries, as a date and time in UTC.
pub fn replay_call(action_type: ActionType, break_start: Option<String>) -> (call: Option<
    RemoteCall,
>)
    ensures
        call_view(call) == spec_replay_call(action_type, text_view(break_start)),
{
    match action_type {
        ActionType::ClockIn => Some(RemoteCall::ClockIn),
        ActionType::ClockOut => Some(RemoteCall::ClockOut),
        ActionType::ClockOutWithBreak => match break_start {
            Some(at) => Some(RemoteCall::ClockOutThenIn { break_start: at }),
            None => None,
        },
    }
}

/// The remote call that replays `action`; `None` where the action stands for a break and
/// its payload is missing or is no date and time in RFC 3339.
pub fn plan(action: &QueuedAction) -> (call: Option<RemoteCall>)
    ensures
        call_view(call) == planned_call(action@),
{
    let break_start = match action.action_type {
        ActionType::ClockOutWithBreak => match &action.payload {
            Some(text) => match normalize_rfc3339(text.as_str()) {
                Ok(in_utc) => Some(in_utc),
                Err(_) => None,
            },
            None => None,
        },
        _ => None,
    };
    replay_call(action.action_type, break_start)
}

/// A cycle that has sent out the remote call for one action of its snapshot and waits to
/// hear how it went.
pub struct SyncCycle {
    snapshot: Vec<QueuedAction>,
    position: usize,
}

/// What a cycle is, as mathematical values: its snapshot of the queue, oldest action
/// first, and the place of the action whose remote call is under way.
pub struct CycleView {
    pub snapshot: Seq<ActionView>,
    pub position: int,
}

impl CycleView {
    /// The action whose remote call is under way.
    pub open spec fn current(self) -> ActionView {
        self.snapshot[self.position]
    }
}

impl View for SyncCycle {
    type V = CycleView;

    closed spec fn view(&self) -> CycleView {
        CycleView { snapshot: action_views(self.snapshot@), position: self.position as int }
    }
}

/// What the processor does next.
pub enum SyncStep {
    /// Make the remote call `call` for the action numbered `id`, then report to
    /// `cycle.replayed` whether it succeeded.
    Replay { cycle: SyncCycle, id: i64, call: RemoteCall },
    /// The snapshot is through: fetch the clock status and hand it to `reconcile`.
    FetchStatus,
    /// There is nothing to do until the next cycle.
    Sleep,
}

/// Whether `step` is what follows in a cycle over `snapshot` once the actions before
/// `from` are dealt with: the remote call for the first action at or after `from` that
/// gets one, or the fetching of the status where none is left.
pub open spec fn continues(step: SyncStep, snapshot: Seq<ActionView>, from: int) -> bool {
    let to = next_dispatch(snapshot, from);
    if to < snapshot.len() {
        &&& step matches SyncStep::Replay { cycle, id, call }
        &&& cycle@ == CycleView { snapshot, position: to }
        &&& id == snapshot[to].id
        &&& Some(call@) == planned_call(snapshot[to])
        &&& eligible(snapshot[to])
    } else {
        step is FetchStatus
    }
}

/// Goes on through `snapshot` from the place `from`.
fn advance(snapshot: Vec<QueuedAction>, from: usize, queue: &mut OfflineQueue) -> (step: SyncStep)
    requires
        from <= snapshot.len(),
    ensures
        final(queue)@ == absorbed(
            old(queue)@,
            action_views(snapshot@),
            from as int,
            next_dispatch(action_views(snapshot@), from as int),
        ),
        continues(step, action_views(snapshot@), from as int),
{
    let ghost views = action_views(snapshot@);
    let ghost to = next_dispatch(views, from as int);
    let ghost target = absorbed(queue@, views, from as int, to);
    let mut i: usize = from;
    proof {
        lemma_next_dispatch_bounds(views, from as int);
    }
    while i < snapshot.len()
        invariant
            from <= i <= snapshot.len(),
            views == action_views(snapshot@),
            to == next_dispatch(views, i as int),
            to == next_dispatch(views, from as int),
            i <= to <= views.len(),
            target == absorbed(queue@, views, i as int, to),
            target == absorbed(old(queue)@, views, from as int, to),
        decreases snapshot.len() - i,
    {
        assert(views[i as int] == snapshot@[i as int]@);
        if snapshot[i].retry_count < MAX_RETRY {
            match plan(&snapshot[i]) {
                Some(call) => {
                    let id = snapshot[i].id;
                    return SyncStep::Replay { cycle: SyncCycle { snapshot, position: i }, id, call };
                },
                None => {
                    let _ = queue.increment_retry(snapshot[i].id);
                },
            }
        }
        proof {
            lemma_next_dispatch_bounds(views, i + 1);
        }
        i += 1;
    }
    SyncStep::FetchStatus
}

/// The place that `next_dispatch` finds lies between `from` and the end of the snapshot.
pub proof fn lemma_next_dispatch_bounds(snapshot: Seq<ActionView>, from: int)
    requires
        0 <= from <= snapshot.len(),
    ensures
        from <= next_dispatch(snapshot, from) <= snapshot.len(),
        next_dispatch(snapshot, from) < snapshot.len() ==> dispatchable(
            snapshot[next_dispatch(snapshot, from)],
        ),
        forall|i: int|
            from <= i < next_dispatch(snapshot, from) ==> !dispatchable(#[trigger] snapshot[i]),
    decreases snapshot.len() - from,
{
    if from < snapshot.len() && !dispatchable(snapshot[from]) {
        lemma_next_dispatch_bounds(snapshot, from + 1);
    }
}

impl SyncCycle {
    #[verifier::type_invariant]
    spec fn inv(&self) -> bool {
        &&& self.position < self.snapshot@.len()
        &&& dispatchable(self.snapshot@[self.position as int]@)
    }

    /// Starts a cycle. Without a session token or without a configured remote service the
    /// cycle does nothing, and so does a cycle that finds the queue empty. Otherwise the
    /// cycle takes a snapshot of the queue and goes through it from the oldest action on.
    pub fn begin(state: &AppState, queue: &mut OfflineQueue) -> (step: SyncStep)
        ensures
            if state.is_authenticated() && state.is_configured() && old(queue)@.rows.len() > 0 {
                let snapshot = old(queue)@.rows;
                &&& final(queue)@ == absorbed(
                    old(queue)@,
                    snapshot,
                    0,
                    next_dispatch(snapshot, 0),
                )
                &&& continues(step, snapshot, 0)
            } else {
                &&& step is Sleep
                &&& final(queue)@ == old(queue)@
            },
    {
        if state.session_token.is_none() || state.settings.webapp_url.as_str().is_empty() {
            return SyncStep::Sleep;
        }
        let pending = queue.get_pending();
        if pending.len() == 0 {
            assert(action_views(pending@).len() == 0);
            return SyncStep::Sleep;
        }
        assert(action_views(pending@).len() == pending.len());
        advance(pending, 0, queue)
    }

    /// Takes the news of how the remote call for the current action went. After a success
    /// the action leaves the queue; after a failure one more attempt is counted on it. Then
    /// the cycle goes on with the actions that follow in the snapshot.
    pub fn replayed(self, queue: &mut OfflineQueue, succeeded: bool) -> (step: SyncStep)
        ensures
            0 <= self@.position < self@.snapshot.len(),
            dispatchable(self@.current()),
            final(queue)@ == absorbed(
                settled(old(queue)@, self@.current().id, succeeded),
                self@.snapshot,
                self@.position + 1,
                next_dispatch(self@.snapshot, self@.position + 1),
            ),
            continues(step, self@.snapshot, self@.position + 1),
    {
        proof {
            use_type_invariant(&self);
        }
        let length: usize = self.snapshot.len();
        assert(self.position < length);
        assert(self@.current() == self.snapshot@[self.position as int]@);
        let id = self.snapshot[self.position].id;
        let following: usize = self.position + 1;
        if succeeded {
            queue.mark_completed(id);
        } else {
            let _ = queue.increment_retry(id);
        }
        advance(self.snapshot, following, queue)
    }
}

/// Ends a cycle: where the remote service has reported the clock state, the report
/// overwrites what was known; where it could not be fetched, nothing changes.
pub fn reconcile(state: &mut AppState, reported: Option<bool>)
    ensures
        *final(state) == match reported {
            Some(clocked_in) => AppState { is_clocked_in: clocked_in, ..*old(state) },
            None => *old(state),
        },
{
    match reported {
        Some(clocked_in) => state.set_clocked_in(clocked_in),
        None => {},
    }
}

} // verus!
