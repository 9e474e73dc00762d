use z8_timer::offline::{ActionType, OfflineQueue, QueuedAction, StorageError};

fn empty_queue() -> OfflineQueue {
    OfflineQueue::new(Vec::new(), 0).expect("an empty queue is well formed")
}

fn action(id: i64, action_type: ActionType, retry_count: i32, created_at: i64) -> QueuedAction {
    QueuedAction { id, action_type, timestamp: created_at, payload: None, retry_count, created_at }
}

fn ids(queue: &OfflineQueue) -> Vec<i64> {
    queue.get_pending().iter().map(|a| a.id).collect()
}

#[test]
fn enqueue_numbers_actions_from_one() {
    let mut queue = empty_queue();
    assert_eq!(queue.enqueue(ActionType::ClockIn, 100, None, 100), Ok(1));
    assert_eq!(queue.enqueue(ActionType::ClockOut, 200, None, 200), Ok(2));
    assert_eq!(queue.count(), 2);
}

#[test]
fn enqueue_starts_with_no_retries() {
    let mut queue = empty_queue();
    queue.enqueue(ActionType::ClockOut, 7, Some("note".to_string()), 9).unwrap();
    let pending = queue.get_pending();
    assert_eq!(pending.len(), 1);
    assert_eq!(pending[0].id, 1);
    assert_eq!(pending[0].action_type, ActionType::ClockOut);
    assert_eq!(pending[0].timestamp, 7);
    assert_eq!(pending[0].payload.as_deref(), Some("note"));
    assert_eq!(pending[0].retry_count, 0);
    assert_eq!(pending[0].created_at, 9);
}

#[test]
fn pending_keeps_the_order_of_enqueue() {
    let mut queue = empty_queue();
    queue.enqueue(ActionType::ClockIn, 100, None, 100).unwrap();
    queue
        .enqueue(ActionType::ClockOutWithBreak, 200, Some("2024-01-15T10:30:00Z".to_string()), 201)
        .unwrap();
    queue.enqueue(ActionType::ClockOut, 300, None, 302).unwrap();
    queue.increment_retry(2).unwrap();
    queue.increment_retry(2).unwrap();
    queue.increment_retry(1).unwrap();
    let pending = queue.get_pending();
    let kinds: Vec<ActionType> = pending.iter().map(|a| a.action_type).collect();
    assert_eq!(
        kinds,
        vec![ActionType::ClockIn, ActionType::ClockOutWithBreak, ActionType::ClockOut]
    );
    assert_eq!(ids(&queue), vec![1, 2, 3]);
    let retries: Vec<i32> = pending.iter().map(|a| a.retry_count).collect();
    assert_eq!(retries, vec![1, 2, 0]);
    assert_eq!(pending[1].payload.as_deref(), Some("2024-01-15T10:30:00Z"));
    assert_eq!(pending[1].timestamp, 200);
    assert_eq!(pending[1].created_at, 201);
}

#[test]
fn pending_is_a_fresh_copy() {
    let mut queue = empty_queue();
    queue.enqueue(ActionType::ClockIn, 1, None, 1).unwrap();
    let mut first = queue.get_pending();
    first[0].retry_count = 40;
    first.clear();
    let second = queue.get_pending();
    assert_eq!(second.len(), 1);
    assert_eq!(second[0].retry_count, 0);
}

#[test]
fn removing_twice_is_removing_once() {
    let mut queue = empty_queue();
    queue.enqueue(ActionType::ClockIn, 1, None, 1).unwrap();
    queue.enqueue(ActionType::ClockOut, 2, None, 2).unwrap();
    queue.enqueue(ActionType::ClockIn, 3, None, 3).unwrap();
    queue.increment_retry(3).unwrap();
    queue.mark_completed(2);
    assert_eq!(ids(&queue), vec![1, 3]);
    queue.mark_completed(2);
    assert_eq!(ids(&queue), vec![1, 3]);
    let pending = queue.get_pending();
    assert_eq!(pending[0].retry_count, 0);
    assert_eq!(pending[1].retry_count, 1);
    assert_eq!(queue.count(), 2);
}

#[test]
fn removing_an_unknown_id_changes_nothing() {
    let mut queue = empty_queue();
    queue.enqueue(ActionType::ClockIn, 1, None, 1).unwrap();
    queue.mark_completed(77);
    queue.mark_completed(-3);
    assert_eq!(ids(&queue), vec![1]);
}

#[test]
fn a_removed_id_is_not_used_again() {
    let mut queue = empty_queue();
    assert_eq!(queue.enqueue(ActionType::ClockIn, 1, None, 1), Ok(1));
    queue.mark_completed(1);
    assert_eq!(queue.count(), 0);
    assert_eq!(queue.enqueue(ActionType::ClockOut, 2, None, 2), Ok(2));
    assert_eq!(ids(&queue), vec![2]);
}

#[test]
fn increment_retry_counts_on_one_action_only() {
    let mut queue = empty_queue();
    queue.enqueue(ActionType::ClockIn, 1, None, 1).unwrap();
    queue.enqueue(ActionType::ClockOut, 2, None, 2).unwrap();
    assert_eq!(queue.increment_retry(1), Ok(()));
    assert_eq!(queue.increment_retry(1), Ok(()));
    assert_eq!(queue.increment_retry(1), Ok(()));
    let pending = queue.get_pending();
    assert_eq!(pending[0].retry_count, 3);
    assert_eq!(pending[1].retry_count, 0);
}

#[test]
fn increment_retry_on_an_unknown_id_changes_nothing() {
    let mut queue = empty_queue();
    queue.enqueue(ActionType::ClockIn, 1, None, 1).unwrap();
    assert_eq!(queue.increment_retry(5), Ok(()));
    assert_eq!(queue.get_pending()[0].retry_count, 0);
    assert_eq!(queue.count(), 1);
}

#[test]
fn increment_retry_stops_at_the_top_of_the_range() {
    let stored = vec![action(1, ActionType::ClockIn, i32::MAX, 10)];
    let mut queue = OfflineQueue::new(stored, 1).unwrap();
    assert_eq!(queue.increment_retry(1), Err(StorageError::RetryOverflow));
    assert_eq!(queue.get_pending()[0].retry_count, i32::MAX);
}

#[test]
fn ids_exhausted_is_reported() {
    let mut queue = OfflineQueue::new(Vec::new(), i64::MAX).unwrap();
    assert_eq!(queue.enqueue(ActionType::ClockIn, 1, None, 1), Err(StorageError::IdsExhausted));
    assert_eq!(queue.count(), 0);
}

#[test]
fn the_last_id_can_still_be_handed_out() {
    let mut queue = OfflineQueue::new(Vec::new(), i64::MAX - 1).unwrap();
    assert_eq!(queue.enqueue(ActionType::ClockIn, 1, None, 1), Ok(i64::MAX));
    assert_eq!(queue.enqueue(ActionType::ClockIn, 1, None, 1), Err(StorageError::IdsExhausted));
    assert_eq!(queue.count(), 1);
}

#[test]
fn stored_rows_are_taken_up_in_their_order() {
    let stored = vec![
        action(3, ActionType::ClockIn, 0, 10),
        action(4, ActionType::ClockOut, 6, 10),
        action(9, ActionType::ClockIn, 2, 11),
    ];
    let mut queue = OfflineQueue::new(stored, 12).unwrap();
    assert_eq!(ids(&queue), vec![3, 4, 9]);
    assert_eq!(queue.count(), 3);
    assert_eq!(queue.enqueue(ActionType::ClockIn, 1, None, 20), Ok(13));
}

#[test]
fn stored_rows_out_of_order_are_corrupt() {
    let stored = vec![action(2, ActionType::ClockIn, 0, 10), action(1, ActionType::ClockOut, 0, 11)];
    assert_eq!(OfflineQueue::new(stored, 5).err(), Some(StorageError::Corrupt));
}

#[test]
fn stored_rows_with_a_repeated_id_are_corrupt() {
    let stored = vec![action(2, ActionType::ClockIn, 0, 10), action(2, ActionType::ClockOut, 0, 11)];
    assert_eq!(OfflineQueue::new(stored, 5).err(), Some(StorageError::Corrupt));
}

#[test]
fn stored_rows_beyond_the_last_id_are_corrupt() {
    let stored = vec![action(6, ActionType::ClockIn, 0, 10)];
    assert_eq!(OfflineQueue::new(stored, 5).err(), Some(StorageError::Corrupt));
}

#[test]
fn stored_rows_with_a_negative_count_are_corrupt() {
    let stored = vec![action(1, ActionType::ClockIn, -1, 10)];
    assert_eq!(OfflineQueue::new(stored, 5).err(), Some(StorageError::Corrupt));
}

#[test]
fn stored_rows_with_an_id_below_one_are_corrupt() {
    let stored = vec![action(0, ActionType::ClockIn, 0, 10)];
    assert_eq!(OfflineQueue::new(stored, 5).err(), Some(StorageError::Corrupt));
}

#[test]
fn stored_rows_with_falling_times_are_corrupt() {
    let stored = vec![action(1, ActionType::ClockIn, 0, 10), action(2, ActionType::ClockOut, 0, 9)];
    assert_eq!(OfflineQueue::new(stored, 5).err(), Some(StorageError::Corrupt));
}

#[test]
fn a_negative_last_id_is_corrupt() {
    assert_eq!(OfflineQueue::new(Vec::new(), -1).err(), Some(StorageError::Corrupt));
}

#[test]
fn a_clock_that_falls_behind_does_not_reorder_the_queue() {
    let mut queue = empty_queue();
    queue.enqueue(ActionType::ClockIn, 500, None, 500).unwrap();
    queue.enqueue(ActionType::ClockOut, 400, None, 400).unwrap();
    queue.enqueue(ActionType::ClockIn, 600, None, 600).unwrap();
    let pending = queue.get_pending();
    let stamps: Vec<i64> = pending.iter().map(|a| a.created_at).collect();
    assert_eq!(stamps, vec![500, 500, 600]);
    let effective: Vec<i64> = pending.iter().map(|a| a.timestamp).collect();
    assert_eq!(effective, vec![500, 400, 600]);
    assert_eq!(ids(&queue), vec![1, 2, 3]);
}

#[test]
fn tags_name_the_kind_between_quotes() {
    assert_eq!(ActionType::ClockIn.tag(), "\"ClockIn\"");
    assert_eq!(ActionType::ClockOut.tag(), "\"ClockOut\"");
    assert_eq!(ActionType::ClockOutWithBreak.tag(), "\"ClockOutWithBreak\"");
}

#[test]
fn tags_are_read_back() {
    for kind in [ActionType::ClockIn, ActionType::ClockOut, ActionType::ClockOutWithBreak] {
        assert_eq!(ActionType::from_tag(kind.tag()), Some(kind));
    }
    assert_eq!(ActionType::from_tag("ClockIn"), None);
    assert_eq!(ActionType::from_tag("\"clockin\""), None);
    assert_eq!(ActionType::from_tag(""), None);
}

#[test]
fn cloning_an_action_keeps_every_field() {
    let action = QueuedAction {
        id: 4,
        action_type: ActionType::ClockOutWithBreak,
        timestamp: -5,
        payload: Some("p".to_string()),
        retry_count: 2,
        created_at: 8,
    };
    let copy = action.clone();
    assert_eq!(copy.id, 4);
    assert_eq!(copy.action_type, ActionType::ClockOutWithBreak);
    assert_eq!(copy.timestamp, -5);
    assert_eq!(copy.payload.as_deref(), Some("p"));
    assert_eq!(copy.retry_count, 2);
    assert_eq!(copy.created_at, 8);
}

#[test]
fn the_last_id_outlives_removals() {
    let mut queue = empty_queue();
    assert_eq!(queue.last_id(), 0);
    queue.enqueue(ActionType::ClockIn, 1, None, 1).unwrap();
    queue.enqueue(ActionType::ClockOut, 2, None, 2).unwrap();
    queue.mark_completed(2);
    queue.mark_completed(1);
    assert_eq!(queue.last_id(), 2);
    let reopened = OfflineQueue::new(queue.get_pending(), queue.last_id()).unwrap();
    assert_eq!(reopened.last_id(), 2);
    assert_eq!(reopened.count(), 0);
}
