//! A single measurement record.

use vstd::prelude::*;

verus! {

/// One logged measurement: the metric values, the step they belong to and the
/// time they were taken at. The last two are optional.
#[derive(Debug)]
pub struct LogItem {
    pub metrics: serde_json::Value,
    pub step: Option<i64>,
    pub timestamp: Option<String>,
}

/// What a [`LogItem`] means: the same record with its text as a sequence of
/// characters.
pub ghost struct LogRecord {
    pub metrics: serde_json::Value,
    pub step: Option<i64>,
    pub timestamp: Option<Seq<char>>,
}

impl View for LogItem {
    type V = LogRecord;

    open spec fn view(&self) -> LogRecord {
        LogRecord {
            metrics: self.metrics,
            step: self.step,
            timestamp: match self.timestamp {
                Some(t) => Some(t@),
                None => None,
            },
        }
    }
}

impl Clone for LogItem {
    /// A copy is the same record.
    fn clone(&self) -> (copy: LogItem)
        ensures
            copy == *self,
    {
        let timestamp = match &self.timestamp {
            Some(t) => Some(t.clone()),
            None => None,
        };
        LogItem { metrics: self.metrics.clone(), step: self.step, timestamp }
    }
}

impl LogItem {
    /// Puts a record together from its three parts.
    pub fn new(metrics: serde_json::Value, step: Option<i64>, timestamp: Option<String>) -> (item: LogItem)
        ensures
            item == (LogItem { metrics, step, timestamp }),
    {
        LogItem { metrics, step, timestamp }
    }
}

} // verus!
