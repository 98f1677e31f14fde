//! The body of one bulk submission: many records as parallel lists.

use vstd::prelude::*;
use crate::item::{LogItem, LogRecord};

verus! {

/// The step that is sent for a record without one.
pub const MISSING_STEP: i64 = -1;

/// The step as it goes over the wire.
pub open spec fn wire_step(step: Option<i64>) -> i64 {
    match step {
        Some(s) => s,
        None => MISSING_STEP,
    }
}

/// The timestamp as it goes over the wire: the empty text where there is none.
pub open spec fn wire_timestamp(timestamp: Option<Seq<char>>) -> Seq<char> {
    match timestamp {
        Some(t) => t,
        None => Seq::empty(),
    }
}

/// What a [`BulkPayload`] means: the fields of the request body.
pub ghost struct WireBody {
    pub project: Seq<char>,
    pub run: Seq<char>,
    pub metrics_list: Seq<serde_json::Value>,
    pub steps: Seq<i64>,
    pub timestamps: Seq<Seq<char>>,
    pub config: Option<serde_json::Value>,
}

/// The records behind a list of items.
pub open spec fn records(items: Seq<LogItem>) -> Seq<LogRecord> {
    items.map_values(|item: LogItem| item@)
}

/// The request body that carries `items`, in their order, for `project` and
/// `run`. Entry `i` of each of the three lists comes from record `i`.
pub open spec fn wire_body(project: Seq<char>, run: Seq<char>, items: Seq<LogRecord>) -> WireBody {
    WireBody {
        project,
        run,
        metrics_list: items.map_values(|r: LogRecord| r.metrics),
        steps: items.map_values(|r: LogRecord| wire_step(r.step)),
        timestamps: items.map_values(|r: LogRecord| wire_timestamp(r.timestamp)),
        config: None,
    }
}

/// The texts of a list of strings.
pub open spec fn texts(strings: Seq<String>) -> Seq<Seq<char>> {
    strings.map_values(|s: String| s@)
}

/// The body of one bulk submission. The three lists always have the same
/// length, and entry `i` of each describes the same record.
#[derive(Debug)]
pub struct BulkPayload {
    project: String,
    run: String,
    metrics_list: Vec<serde_json::Value>,
    steps: Vec<i64>,
    timestamps: Vec<String>,
    config: Option<serde_json::Value>,
}

impl View for BulkPayload {
    type V = WireBody;

    closed spec fn view(&self) -> WireBody {
        WireBody {
            project: self.project@,
            run: self.run@,
            metrics_list: self.metrics_list@,
            steps: self.steps@,
            timestamps: texts(self.timestamps@),
            config: self.config,
        }
    }
}

impl BulkPayload {
    #[verifier::type_invariant]
    spec fn aligned(self) -> bool {
        &&& self.metrics_list@.len() == self.steps@.len()
        &&& self.steps@.len() == self.timestamps@.len()
    }

    /// The project that the records belong to.
    pub fn project(&self) -> (project: &str)
        ensures
            project@ == self@.project,
    {
        self.project.as_str()
    }

    /// The run that the records belong to.
    pub fn run(&self) -> (run: &str)
        ensures
            run@ == self@.run,
    {
        self.run.as_str()
    }

    /// The metric values, one entry per record.
    pub fn metrics_list(&self) -> (list: &Vec<serde_json::Value>)
        ensures
            list@ == self@.metrics_list,
    {
        &self.metrics_list
    }

    /// The steps, one entry per record.
    pub fn steps(&self) -> (list: &Vec<i64>)
        ensures
            list@ == self@.steps,
    {
        &self.steps
    }

    /// The timestamps, one entry per record.
    pub fn timestamps(&self) -> (list: &Vec<String>)
        ensures
            texts(list@) == self@.timestamps,
    {
        &self.timestamps
    }

    /// The run configuration, which no record carries.
    pub fn config(&self) -> (config: &Option<serde_json::Value>)
        ensures
            *config == self@.config,
    {
        &self.config
    }

    /// The number of records, which is the length of each of the three lists.
    pub fn len(&self) -> (len: usize)
        ensures
            len == self@.metrics_list.len(),
            len == self@.steps.len(),
            len == self@.timestamps.len(),
    {
        proof {
            use_type_invariant(self);
        }
        self.steps.len()
    }

    /// Builds the body that carries `items` in the order given.
    pub fn from_items(project: &str, run: &str, items: Vec<LogItem>) -> (payload: BulkPayload)
        ensures
            payload@ == wire_body(project@, run@, records(items@)),
    {
        let ghost all = items@;
        let mut metrics_list: Vec<serde_json::Value> = Vec::with_capacity(items.len());
        let mut steps: Vec<i64> = Vec::with_capacity(items.len());
        let mut timestamps: Vec<String> = Vec::with_capacity(items.len());
        for item in it: items
            invariant
                it.seq() == all,
                metrics_list@ == records(all.take(it.index())).map_values(|r: LogRecord| r.metrics),
                steps@ == records(all.take(it.index())).map_values(|r: LogRecord| wire_step(r.step)),
                texts(timestamps@) == records(all.take(it.index())).map_values(
                    |r: LogRecord| wire_timestamp(r.timestamp),
                ),
        {
            let ghost done = all.take(it.index());
            let ghost sent = texts(timestamps@);
            let ghost record = item@;
            assert(all.take(it.index() + 1) == done.push(item));
            metrics_list.push(item.metrics);
            steps.push(
                match item.step {
                    Some(s) => s,
                    None => MISSING_STEP,
                },
            );
            timestamps.push(
                match item.timestamp {
                    Some(t) => t,
                    None => String::new(),
                },
            );
            assert(texts(timestamps@) == sent.push(wire_timestamp(record.timestamp)));
        }
        assert(all.take(all.len() as int) == all);
        BulkPayload {
            project: project.to_owned(),
            run: run.to_owned(),
            metrics_list,
            steps,
            timestamps,
            config: None,
        }
    }
}

/// The three lists of a request body are as long as the list of records, and
/// entry `i` of each comes from record `i`.
pub proof fn lemma_entries_describe_one_record(
    project: Seq<char>,
    run: Seq<char>,
    items: Seq<LogRecord>,
    i: int,
)
    requires
        0 <= i < items.len(),
    ensures
        wire_body(project, run, items).metrics_list.len() == items.len(),
        wire_body(project, run, items).steps.len() == items.len(),
        wire_body(project, run, items).timestamps.len() == items.len(),
        wire_body(project, run, items).metrics_list[i] == items[i].metrics,
        wire_body(project, run, items).steps[i] == wire_step(items[i].step),
        wire_body(project, run, items).timestamps[i] == wire_timestamp(items[i].timestamp),
{
}

} // verus!
