use serde_json::Value;
use trackio::payload::MISSING_STEP;
use trackio::{BulkPayload, LogItem};

fn metrics(name: &str, value: f64) -> Value {
    let mut fields = serde_json::Map::new();
    fields.insert(String::from(name), Value::from(value));
    Value::Object(fields)
}

#[test]
fn entries_with_the_same_index_describe_the_same_record() {
    let a = LogItem::new(metrics("loss", 0.5), Some(0), Some(String::from("t0")));
    let b = LogItem::new(metrics("acc", 0.8), Some(7), Some(String::from("t7")));
    let c = LogItem::new(metrics("lr", 0.001), Some(3), Some(String::from("t3")));
    let payload = BulkPayload::from_items("proj", "run-1", vec![a, b, c]);
    assert_eq!(payload.project(), "proj");
    assert_eq!(payload.run(), "run-1");
    assert_eq!(payload.len(), 3);
    assert_eq!(
        payload.metrics_list(),
        &vec![metrics("loss", 0.5), metrics("acc", 0.8), metrics("lr", 0.001)]
    );
    assert_eq!(payload.steps(), &vec![0, 7, 3]);
    assert_eq!(payload.timestamps(), &vec![String::from("t0"), String::from("t7"), String::from("t3")]);
    assert!(payload.config().is_none());
}

#[test]
fn a_missing_step_is_sent_as_minus_one() {
    let payload = BulkPayload::from_items(
        "p",
        "r",
        vec![
            LogItem::new(Value::Null, None, Some(String::from("now"))),
            LogItem::new(Value::Null, Some(-5), None),
        ],
    );
    assert_eq!(MISSING_STEP, -1);
    assert_eq!(payload.steps(), &vec![-1, -5]);
}

#[test]
fn a_missing_timestamp_is_sent_as_the_empty_text() {
    let payload = BulkPayload::from_items(
        "p",
        "r",
        vec![
            LogItem::new(Value::Null, Some(1), None),
            LogItem::new(Value::Null, Some(2), Some(String::from("2024-01-01"))),
            LogItem::new(Value::Null, None, None),
        ],
    );
    assert_eq!(payload.timestamps(), &vec![String::new(), String::from("2024-01-01"), String::new()]);
    assert_eq!(payload.steps(), &vec![1, 2, -1]);
}

#[test]
fn the_body_of_no_records_has_three_empty_lists() {
    let payload = BulkPayload::from_items("p", "r", Vec::new());
    assert_eq!(payload.len(), 0);
    assert!(payload.metrics_list().is_empty());
    assert!(payload.steps().is_empty());
    assert!(payload.timestamps().is_empty());
}

#[test]
fn the_three_lists_are_as_long_as_the_batch() {
    let mut items = Vec::new();
    for step in 0..50 {
        items.push(LogItem::new(Value::from(step), if step % 2 == 0 { Some(step) } else { None }, None));
    }
    let payload = BulkPayload::from_items("p", "r", items);
    assert_eq!(payload.len(), 50);
    assert_eq!(payload.metrics_list().len(), 50);
    assert_eq!(payload.steps().len(), 50);
    assert_eq!(payload.timestamps().len(), 50);
    for i in 0..50 {
        assert_eq!(payload.metrics_list()[i], Value::from(i as i64));
        assert_eq!(payload.steps()[i], if i % 2 == 0 { i as i64 } else { -1 });
    }
}
