//! The queue of clock actions that wait for the remote service.
//!
//! An action is queued when the service cannot be reached and stays queued until a later
//! replay succeeds. The queue hands the actions out in the order in which they came in and
//! numbers them with identifiers that only grow, so that an identifier is never used twice.

use crate::text::{equals, text_view};
use vstd::prelude::*;

verus! {

/// The kind of a queued clock action.
#[derive(Clone, Copy, Debug, PartialEq, Eq, Structural)]
pub enum ActionType {
    ClockIn,
    ClockOut,
    ClockOutWithBreak,
}

impl ActionType {
    /// The text that stands for the kind where actions are stored: the name of the kind
    /// between double quotes.
    pub open spec fn spec_tag(self) -> Seq<char> {
        match self {
            ActionType::ClockIn => "\"ClockIn\""@,
            ActionType::ClockOut => "\"ClockOut\""@,
            ActionType::ClockOutWithBreak => "\"ClockOutWithBreak\""@,
        }
    }

    /// The kind that `tag` stands for, if it stands for one.
    pub open spec fn spec_from_tag(tag: Seq<char>) -> Option<ActionType> {
        if tag == ActionType::ClockIn.spec_tag() {
            Some(ActionType::ClockIn)
        } else if tag == ActionType::ClockOut.spec_tag() {
            Some(ActionType::ClockOut)
        } else if tag == ActionType::ClockOutWithBreak.spec_tag() {
            Some(ActionType::ClockOutWithBreak)
        } else {
            None
        }
    }

    /// The text that stands for the kind where actions are stored.
    pub fn tag(self) -> (tag: &'static str)
        ensures
            tag@ == self.spec_tag(),
    {
        match self {
            ActionType::ClockIn => "\"ClockIn\"",
            ActionType::ClockOut => "\"ClockOut\"",
            ActionType::ClockOutWithBreak => "\"ClockOutWithBreak\"",
        }
    }

    /// The kind that `tag` stands for; `None` for any other text.
    pub fn from_tag(tag: &str) -> (kind: Option<ActionType>)
        ensures
            kind == ActionType::spec_from_tag(tag@),
    {
        if equals(tag, "\"ClockIn\"") {
            Some(ActionType::ClockIn)
        } else if equals(tag, "\"ClockOut\"") {
            Some(ActionType::ClockOut)
        } else if equals(tag, "\"ClockOutWithBreak\"") {
            Some(ActionType::ClockOutWithBreak)
        } else {
            None
        }
    }
}

/// Every kind is read back from its own tag: no two kinds share one.
pub proof fn law_tag_round_trip(kind: ActionType)
    ensures
        ActionType::spec_from_tag(kind.spec_tag()) == Some(kind),
{
    reveal_strlit("\"ClockIn\"");
    reveal_strlit("\"ClockOut\"");
    reveal_strlit("\"ClockOutWithBreak\"");
    assert("\"ClockIn\""@.len() == 9);
    assert("\"ClockOut\""@.len() == 10);
    assert("\"ClockOutWithBreak\""@.len() == 19);
}

/// A clock action that waits for the remote service.
#[derive(Debug)]
pub struct QueuedAction {
    pub id: i64,
    pub action_type: ActionType,
    pub timestamp: i64,
    pub payload: Option<String>,
    pub retry_count: i32,
    pub created_at: i64,
}

/// Why the queue refused an operation.
#[derive(Clone, Copy, Debug, PartialEq, Eq, Structural)]
pub enum StorageError {
    /// The stored rows are not a queue: an identifier is out of place or a count is negative.
    Corrupt,
    /// Every identifier has been handed out.
    IdsExhausted,
    /// The retry count of the action cannot grow any further.
    RetryOverflow,
    /// The queue could not be written to disk.
    WriteFailed,
}

/// What a queued action is, as mathematical values.
pub struct ActionView {
    pub id: int,
    pub action_type: ActionType,
    pub timestamp: int,
    pub payload: Option<Seq<char>>,
    pub retry_count: int,
    pub created_at: int,
}

impl View for QueuedAction {
    type V = ActionView;

    open spec fn view(&self) -> ActionView {
        ActionView {
            id: self.id as int,
            action_type: self.action_type,
            timestamp: self.timestamp as int,
            payload: text_view(self.payload),
            retry_count: self.retry_count as int,
            created_at: self.created_at as int,
        }
    }
}

impl Clone for QueuedAction {
    fn clone(&self) -> (copy: Self)
        ensures
            copy == *self,
    {
        QueuedAction {
            id: self.id,
            action_type: self.action_type,
            timestamp: self.timestamp,
            payload: match &self.payload {
                Some(text) => Some(text.clone()),
                None => None,
            },
            retry_count: self.retry_count,
            created_at: self.created_at,
        }
    }
}

/// The views of a sequence of actions, in the same order.
pub open spec fn action_views(actions: Seq<QueuedAction>) -> Seq<ActionView> {
    actions.map_values(|a: QueuedAction| a@)
}

/// The test that keeps every action but the one numbered `id`.
pub open spec fn other_than(id: int) -> spec_fn(ActionView) -> bool {
    |a: ActionView| a.id != id
}

/// The action `a` after one more failed attempt. A count at the top of its range stays.
pub open spec fn retried(a: ActionView) -> ActionView {
    if a.retry_count < i32::MAX {
        ActionView { retry_count: a.retry_count + 1, ..a }
    } else {
        a
    }
}

/// The step that counts one more attempt on the action numbered `id` and leaves the others.
pub open spec fn retry_of(id: int) -> spec_fn(ActionView) -> ActionView {
    |a: ActionView| if a.id == id { retried(a) } else { a }
}

/// The queue as a mathematical value: its actions, oldest first, and the last identifier
/// that was ever handed out.
pub struct QueueModel {
    pub rows: Seq<ActionView>,
    pub last_id: int,
}

impl QueueModel {
    /// The queue before anything was queued.
    pub open spec fn empty() -> QueueModel {
        QueueModel { rows: Seq::empty(), last_id: 0 }
    }

    /// Identifiers are positive, grow along the queue and never pass `last_id`; the times of
    /// queueing never fall along the queue; no count is negative.
    pub open spec fn well_formed(self) -> bool {
        &&& 0 <= self.last_id <= i64::MAX
        &&& forall|i: int|
            0 <= i < self.rows.len() ==> 1 <= (#[trigger] self.rows[i]).id <= self.last_id
        &&& forall|i: int|
            0 <= i < self.rows.len() ==> 0 <= (#[trigger] self.rows[i]).retry_count
        &&& forall|i: int, j: int|
            0 <= i < j < self.rows.len() ==> self.rows[i].id < self.rows[j].id
        &&& forall|i: int, j: int|
            0 <= i < j < self.rows.len() ==> self.rows[i].created_at <= self.rows[j].created_at
    }

    /// The time of queueing that an action queued at `now` is stamped with: `now`, or the
    /// stamp of the newest pending action where the clock has fallen behind it.
    pub open spec fn stamp(self, now: int) -> int {
        if self.rows.len() > 0 && self.rows.last().created_at > now {
            self.rows.last().created_at
        } else {
            now
        }
    }

    /// Whether one more action can be numbered.
    pub open spec fn has_room(self) -> bool {
        self.last_id < i64::MAX
    }

    /// The action that the next `enqueue` adds.
    pub open spec fn next_row(
        self,
        action_type: ActionType,
        timestamp: int,
        payload: Option<Seq<char>>,
        now: int,
    ) -> ActionView {
        ActionView {
            id: self.last_id + 1,
            action_type,
            timestamp,
            payload,
            retry_count: 0,
            created_at: self.stamp(now),
        }
    }

    /// The queue with one more action at its end, or the queue itself where no identifier is
    /// left.
    pub open spec fn enqueue(
        self,
        action_type: ActionType,
        timestamp: int,
        payload: Option<Seq<char>>,
        now: int,
    ) -> QueueModel {
        if self.has_room() {
            QueueModel {
                rows: self.rows.push(self.next_row(action_type, timestamp, payload, now)),
                last_id: self.last_id + 1,
            }
        } else {
            self
        }
    }

    /// The queue without the action numbered `id`.
    pub open spec fn remove(self, id: int) -> QueueModel {
        QueueModel { rows: self.rows.filter(other_than(id)), last_id: self.last_id }
    }

    /// The queue with one more attempt counted on the action numbered `id`.
    pub open spec fn increment_retry(self, id: int) -> QueueModel {
        QueueModel { rows: self.rows.map_values(retry_of(id)), last_id: self.last_id }
    }

    /// How many actions wait.
    pub open spec fn count(self) -> int {
        self.rows.len() as int
    }

    /// Whether the action numbered `id` waits with a retry count that cannot grow.
    pub open spec fn retry_is_full(self, id: int) -> bool {
        exists|i: int|
            0 <= i < self.rows.len() && (#[trigger] self.rows[i]).id == id
                && self.rows[i].retry_count == i32::MAX
    }

    /// Whether an action numbered `id` waits.
    pub open spec fn holds(self, id: int) -> bool {
        exists|i: int| 0 <= i < self.rows.len() && (#[trigger] self.rows[i]).id == id
    }
}

/// In a well-formed queue the identifiers are distinct values of `1..=last_id`, so the queue
/// is no longer than `last_id`.
pub proof fn lemma_count_bounded(q: QueueModel)
    requires
        q.well_formed(),
    ensures
        q.rows.len() <= q.last_id,
    decreases q.rows.len(),
{
    if q.rows.len() > 0 {
        let n = q.rows.len() - 1;
        let shorter = QueueModel { rows: q.rows.drop_last(), last_id: q.rows[n].id - 1 };
        assert forall|i: int| 0 <= i < shorter.rows.len() implies 1 <= (#[trigger] shorter.rows[i]).id
            <= shorter.last_id by {
            assert(shorter.rows[i] == q.rows[i]);
            assert(q.rows[i].id < q.rows[n].id);
        }
        assert forall|i: int| 0 <= i < shorter.rows.len() implies 0 <= (#[trigger] shorter.rows[i])
            .retry_count by {
            assert(shorter.rows[i] == q.rows[i]);
        }
        assert forall|i: int, j: int| 0 <= i < j < shorter.rows.len() implies shorter.rows[i].id
            < shorter.rows[j].id && shorter.rows[i].created_at <= shorter.rows[j].created_at by {
            assert(shorter.rows[i] == q.rows[i]);
            assert(shorter.rows[j] == q.rows[j]);
        }
        assert(q.rows[n].id >= 1);
        lemma_count_bounded(shorter);
    }
}

/// Removing from a sequence in which no action is numbered `id` changes nothing.
pub proof fn lemma_remove_absent(rows: Seq<ActionView>, id: int)
    requires
        forall|i: int| 0 <= i < rows.len() ==> (#[trigger] rows[i]).id != id,
    ensures
        rows.filter(other_than(id)) == rows,
    decreases rows.len(),
{
    reveal(Seq::filter);
    if rows.len() > 0 {
        let front = rows.drop_last();
        assert forall|i: int| 0 <= i < front.len() implies (#[trigger] front[i]).id != id by {
            assert(front[i] == rows[i]);
        }
        lemma_remove_absent(front, id);
        assert(other_than(id)(rows.last()));
        assert(front.push(rows.last()) =~= rows);
    }
}

/// Where identifiers are distinct, removing the action numbered `id` takes out the one place
/// at which it stands.
pub proof fn lemma_remove_present(rows: Seq<ActionView>, id: int, at: int)
    requires
        0 <= at < rows.len(),
        rows[at].id == id,
        forall|i: int, j: int| 0 <= i < j < rows.len() ==> rows[i].id != rows[j].id,
    ensures
        rows.filter(other_than(id)) == rows.remove(at),
    decreases rows.len(),
{
    reveal(Seq::filter);
    let front = rows.drop_last();
    let last = rows.len() - 1;
    if at == last {
        assert forall|i: int| 0 <= i < front.len() implies (#[trigger] front[i]).id != id by {
            assert(front[i] == rows[i]);
        }
        lemma_remove_absent(front, id);
        assert(!other_than(id)(rows.last()));
        assert(front =~= rows.remove(at));
    } else {
        assert(front[at] == rows[at]);
        assert forall|i: int, j: int| 0 <= i < j < front.len() implies front[i].id
            != front[j].id by {
            assert(front[i] == rows[i]);
            assert(front[j] == rows[j]);
        }
        lemma_remove_present(front, id, at);
        assert(rows[at].id != rows[last].id);
        assert(other_than(id)(rows.last()));
        assert(front.remove(at).push(rows.last()) =~= rows.remove(at));
    }
}

/// The queue that `rows` and `last_id` describe, whether it is well formed or not.
pub open spec fn stored_queue(rows: Seq<QueuedAction>, last_id: i64) -> QueueModel {
    QueueModel { rows: action_views(rows), last_id: last_id as int }
}

/// The place of the action numbered `id` among `rows`, if there is one.
fn position_of(rows: &Vec<QueuedAction>, id: i64) -> (at: Option<usize>)
    ensures
        match at {
            Some(i) => i < rows.len() && action_views(rows@)[i as int].id == id,
            None => forall|k: int|
                0 <= k < rows.len() ==> (#[trigger] action_views(rows@)[k]).id != id,
        },
{
    let mut i: usize = 0;
    while i < rows.len()
        invariant
            i <= rows.len(),
            forall|k: int| 0 <= k < i ==> (#[trigger] action_views(rows@)[k]).id != id,
        decreases rows.len() - i,
    {
        assert(action_views(rows@)[i as int] == rows@[i as int]@);
        if rows[i].id == id {
            return Some(i);
        }
        i += 1;
    }
    None
}

/// The queue of pending clock actions, oldest first.
pub struct OfflineQueue {
    rows: Vec<QueuedAction>,
    last_id: i64,
}

impl View for OfflineQueue {
    type V = QueueModel;

    closed spec fn view(&self) -> QueueModel {
        stored_queue(self.rows@, self.last_id)
    }
}

impl OfflineQueue {
    #[verifier::type_invariant]
    spec fn inv(&self) -> bool {
        self@.well_formed()
    }

    /// Takes up the queue as it was stored: the pending actions, oldest first, and the last
    /// identifier that was handed out. Rows that are no queue are refused as corrupt.
    pub fn new(stored: Vec<QueuedAction>, last_id: i64) -> (r: Result<OfflineQueue, StorageError>)
        ensures
            match r {
                Ok(queue) => queue@ == stored_queue(stored@, last_id) && queue@.well_formed(),
                Err(e) => e == StorageError::Corrupt && !stored_queue(
                    stored@,
                    last_id,
                ).well_formed(),
            },
    {
        let ghost model = stored_queue(stored@, last_id);
        if last_id < 0 {
            return Err(StorageError::Corrupt);
        }
        let mut i: usize = 0;
        while i < stored.len()
            invariant
                i <= stored.len(),
                model == stored_queue(stored@, last_id),
                0 <= last_id,
                forall|k: int| 0 <= k < i ==> 1 <= (#[trigger] model.rows[k]).id <= last_id,
                forall|k: int| 0 <= k < i ==> 0 <= (#[trigger] model.rows[k]).retry_count,
                forall|a: int, b: int| 0 <= a < b < i ==> model.rows[a].id < model.rows[b].id,
                forall|a: int, b: int|
                    0 <= a < b < i ==> model.rows[a].created_at <= model.rows[b].created_at,
            decreases stored.len() - i,
        {
            let row = &stored[i];
            assert(model.rows[i as int] == row@);
            if row.id < 1 || row.id > last_id || row.retry_count < 0 {
                return Err(StorageError::Corrupt);
            }
            if i > 0 {
                assert(model.rows[i - 1] == stored@[i - 1]@);
                if stored[i - 1].id >= row.id || stored[i - 1].created_at > row.created_at {
                    return Err(StorageError::Corrupt);
                }
            }
            i += 1;
        }
        Ok(OfflineQueue { rows: stored, last_id })
    }

    /// Appends an action that has not been tried yet and returns its identifier. The action
    /// is stamped with the time `now`, or with the stamp of the newest pending action where
    /// the clock has fallen behind it. Fails, and changes nothing, once every identifier is
    /// used.
    pub fn enqueue(
        &mut self,
        action_type: ActionType,
        timestamp: i64,
        payload: Option<String>,
        now: i64,
    ) -> (r: Result<i64, StorageError>)
        ensures
            final(self)@ == old(self)@.enqueue(
                action_type,
                timestamp as int,
                text_view(payload),
                now as int,
            ),
            final(self)@.well_formed(),
            match r {
                Ok(id) => old(self)@.has_room() && id == old(self)@.last_id + 1,
                Err(e) => !old(self)@.has_room() && e == StorageError::IdsExhausted,
            },
    {
        proof {
            use_type_invariant(&*self);
        }
        if self.last_id == i64::MAX {
            return Err(StorageError::IdsExhausted);
        }
        let id: i64 = self.last_id + 1;
        let mut rows: Vec<QueuedAction> = Vec::new();
        std::mem::swap(&mut rows, &mut self.rows);
        let ghost before = action_views(rows@);
        let mut created_at: i64 = now;
        if rows.len() > 0 {
            assert(before.last() == rows@[rows.len() - 1]@);
            if rows[rows.len() - 1].created_at > now {
                created_at = rows[rows.len() - 1].created_at;
            }
        }
        let row = QueuedAction { id, action_type, timestamp, payload, retry_count: 0, created_at };
        rows.push(row);
        proof {
            let after = action_views(rows@);
            assert(after =~= before.push(row@));
            assert forall|i: int, j: int| 0 <= i < j < after.len() implies after[i].id
                < after[j].id && after[i].created_at <= after[j].created_at by {
                if j < before.len() {
                    assert(after[i] == before[i] && after[j] == before[j]);
                } else {
                    assert(after[i] == before[i]);
                    assert(i < before.len() - 1 ==> before[i].created_at
                        <= before[before.len() - 1].created_at);
                }
            }
        }
        self.last_id = id;
        self.rows = rows;
        Ok(id)
    }

    /// A fresh copy of every pending action, oldest first.
    pub fn get_pending(&self) -> (pending: Vec<QueuedAction>)
        ensures
            action_views(pending@) == self@.rows,
            pending.len() == self@.count(),
            self@.well_formed(),
    {
        proof {
            use_type_invariant(self);
        }
        let mut pending: Vec<QueuedAction> = Vec::new();
        let mut i: usize = 0;
        while i < self.rows.len()
            invariant
                i <= self.rows.len(),
                pending.len() == i,
                forall|k: int| 0 <= k < i ==> pending@[k] == self.rows@[k],
            decreases self.rows.len() - i,
        {
            pending.push(self.rows[i].clone());
            i += 1;
        }
        assert(action_views(pending@) =~= self@.rows);
        pending
    }

    /// Takes the action numbered `id` out of the queue. Where no such action waits, nothing
    /// changes.
    pub fn mark_completed(&mut self, id: i64)
        ensures
            final(self)@ == old(self)@.remove(id as int),
            final(self)@.well_formed(),
    {
        proof {
            use_type_invariant(&*self);
        }
        let mut rows: Vec<QueuedAction> = Vec::new();
        std::mem::swap(&mut rows, &mut self.rows);
        let ghost before = action_views(rows@);
        match position_of(&rows, id) {
            Some(at) => {
                proof {
                    lemma_remove_present(before, id as int, at as int);
                }
                rows.remove(at);
                assert(action_views(rows@) =~= before.remove(at as int));
            },
            None => {
                proof {
                    lemma_remove_absent(before, id as int);
                }
            },
        }
        self.rows = rows;
    }

    /// Counts one more failed attempt on the action numbered `id`. Where no such action
    /// waits, nothing changes. Fails, and changes nothing, where the count is at the top of
    /// its range.
    pub fn increment_retry(&mut self, id: i64) -> (r: Result<(), StorageError>)
        ensures
            final(self)@ == old(self)@.increment_retry(id as int),
            final(self)@.well_formed(),
            r is Err <==> old(self)@.retry_is_full(id as int),
            r is Err ==> r == Err::<(), StorageError>(StorageError::RetryOverflow),
    {
        proof {
            use_type_invariant(&*self);
        }
        let mut rows: Vec<QueuedAction> = Vec::new();
        std::mem::swap(&mut rows, &mut self.rows);
        let ghost before = action_views(rows@);
        let mut full = false;
        match position_of(&rows, id) {
            Some(at) => {
                if rows[at].retry_count == i32::MAX {
                    full = true;
                } else {
                    rows[at].retry_count = rows[at].retry_count + 1;
                }
                proof {
                    let after = action_views(rows@);
                    let expected = before.map_values(retry_of(id as int));
                    assert forall|k: int| 0 <= k < before.len() implies after[k]
                        == expected[k] by {
                        if k < at {
                            assert(before[k].id < before[at as int].id);
                        } else if k > at {
                            assert(before[at as int].id < before[k].id);
                        }
                    }
                    assert(after =~= expected);
                    assert forall|k: int| 0 <= k < before.len() && (#[trigger] before[k]).id
                        == id implies k == at by {
                        if k < at {
                            assert(before[k].id < before[at as int].id);
                        } else if k > at {
                            assert(before[at as int].id < before[k].id);
                        }
                    }
                }
            },
            None => {
                assert(before.map_values(retry_of(id as int)) =~= before);
            },
        }
        self.rows = rows;
        if full {
            Err(StorageError::RetryOverflow)
        } else {
            Ok(())
        }
    }

    /// The last identifier that was handed out; 0 before the first.
    pub fn last_id(&self) -> (id: i64)
        ensures
            id == self@.last_id,
            self@.well_formed(),
    {
        proof {
            use_type_invariant(self);
        }
        self.last_id
    }

    /// How many actions wait.
    pub fn count(&self) -> (n: i64)
        ensures
            n == self@.count(),
            self@.well_formed(),
    {
        proof {
            use_type_invariant(self);
            lemma_count_bounded(self@);
        }
        self.rows.len() as i64
    }
}

} // verus!
