use serde_json::Value;
use trackio::{Batcher, LogItem};

fn numbered(step: i64) -> LogItem {
    LogItem::new(Value::from(step), Some(step), None)
}

fn steps_of(batch: &[LogItem]) -> Vec<i64> {
    batch.iter().map(|item| item.step.unwrap()).collect()
}

#[test]
fn a_new_batcher_is_empty() {
    let batcher = Batcher::new(4, 200);
    assert_eq!(batcher.len(), 0);
    assert!(batcher.is_empty());
    assert_eq!(batcher.max_batch(), 4);
    assert_eq!(batcher.flush_interval_ms(), 200);
}

#[test]
fn a_zero_batch_size_or_interval_counts_as_one() {
    let mut batcher = Batcher::new(0, 0);
    assert_eq!(batcher.max_batch(), 1);
    assert_eq!(batcher.flush_interval_ms(), 1);
    let batch = batcher.enqueue(numbered(7)).expect("every record is a batch");
    assert_eq!(steps_of(&batch), vec![7]);
    assert!(batcher.is_empty());
}

#[test]
fn below_the_threshold_nothing_is_due() {
    let mut batcher = Batcher::new(4, 200);
    for step in 0..3 {
        assert!(batcher.enqueue(numbered(step)).is_none());
    }
    assert_eq!(batcher.len(), 3);
}

#[test]
fn the_record_that_reaches_the_threshold_is_answered_with_the_batch() {
    let mut batcher = Batcher::new(3, 200);
    assert!(batcher.enqueue(numbered(10)).is_none());
    assert!(batcher.enqueue(numbered(11)).is_none());
    let batch = batcher.enqueue(numbered(12)).expect("third record fills the batch");
    assert_eq!(steps_of(&batch), vec![10, 11, 12]);
    assert_eq!(batcher.len(), 0);
}

#[test]
fn seven_records_at_threshold_three_leave_one_pending() {
    let mut batcher = Batcher::new(3, 200);
    let mut batches: Vec<Vec<i64>> = Vec::new();
    let mut answered: Vec<i64> = Vec::new();
    for step in 0..7 {
        if let Some(batch) = batcher.enqueue(numbered(step)) {
            batches.push(steps_of(&batch));
            answered.push(step);
        }
    }
    assert_eq!(batches, vec![vec![0, 1, 2], vec![3, 4, 5]]);
    assert_eq!(answered, vec![2, 5]);
    assert_eq!(batcher.len(), 7 % 3);
}

#[test]
fn six_records_at_threshold_three_leave_none_pending() {
    let mut batcher = Batcher::new(3, 200);
    let mut count = 0;
    for step in 0..6 {
        if batcher.enqueue(numbered(step)).is_some() {
            count += 1;
        }
    }
    assert_eq!(count, 2);
    assert_eq!(batcher.len(), 0);
}

#[test]
fn flush_hands_out_what_is_pending_in_order() {
    let mut batcher = Batcher::new(10, 200);
    for step in [5, 3, 9] {
        assert!(batcher.enqueue(numbered(step)).is_none());
    }
    let batch = batcher.flush().expect("three records are pending");
    assert_eq!(steps_of(&batch), vec![5, 3, 9]);
    assert!(batcher.is_empty());
}

#[test]
fn flush_of_an_empty_buffer_gives_no_batch() {
    let mut batcher = Batcher::new(10, 200);
    assert!(batcher.flush().is_none());
    assert!(batcher.flush().is_none());
    assert_eq!(batcher.len(), 0);
}

#[test]
fn records_that_arrive_after_a_flush_go_to_the_next_batch() {
    let mut batcher = Batcher::new(10, 200);
    batcher.enqueue(numbered(1));
    batcher.enqueue(numbered(2));
    let first = batcher.flush().expect("two records are pending");
    // The first batch is still on its way when two more records come in.
    batcher.enqueue(numbered(3));
    batcher.enqueue(numbered(4));
    assert_eq!(steps_of(&first), vec![1, 2]);
    assert_eq!(batcher.len(), 2);
    let second = batcher.flush().expect("two more records are pending");
    assert_eq!(steps_of(&second), vec![3, 4]);
    assert!(batcher.is_empty());
}

#[test]
fn every_record_leaves_once_whatever_the_order_of_steps() {
    let mut batcher = Batcher::new(3, 200);
    let mut out: Vec<i64> = Vec::new();
    let mut next = 0;
    // e: enqueue, f: flush
    for op in "eefeeeefefeeeeeeef".chars() {
        let batch = if op == 'e' {
            next += 1;
            batcher.enqueue(numbered(next))
        } else {
            batcher.flush()
        };
        if let Some(batch) = batch {
            assert!(batch.len() <= 3);
            out.extend(steps_of(&batch));
        }
        assert!(batcher.len() < 3);
    }
    if let Some(batch) = batcher.flush() {
        out.extend(steps_of(&batch));
    }
    let expected: Vec<i64> = (1..=next).collect();
    assert_eq!(out, expected);
}

#[test]
fn a_copy_of_a_record_is_the_same_record() {
    let mut fields = serde_json::Map::new();
    fields.insert(String::from("loss"), Value::from(0.25));
    let item = LogItem::new(Value::Object(fields), Some(3), Some(String::from("2024-05-01T10:00:00Z")));
    let copy = item.clone();
    assert_eq!(copy.metrics, item.metrics);
    assert_eq!(copy.step, Some(3));
    assert_eq!(copy.timestamp.as_deref(), Some("2024-05-01T10:00:00Z"));
    assert_eq!(copy.metrics["loss"], Value::from(0.25));
}
