//! The client: configuration, buffer and endpoint discovery in one place.
//!
//! The client decides; the caller sends. `log`, `flush` and `close` hand back
//! a [`Submission`] whenever a batch is due. The caller POSTs it, outside any
//! lock it holds on the client, and passes the outcome to `complete`, which
//! says whether the flush is over or the batch is to be sent again by another
//! route.

use vstd::prelude::*;
use crate::batcher::{
    effective_batch, effective_interval, enqueue_all, lemma_batches_are_full_groups,
    lemma_below_threshold_nothing_is_due, lemma_every_record_once, lemma_flush_at_each_threshold_crossing,
    logged, run, Batcher, BatcherState, BufferOp,
};
use crate::error::TrackioError;
use crate::item::LogItem;
use crate::payload::{records, wire_body, BulkPayload, WireBody};
use crate::resolver::{first_path, first_route, resolved_after, step_after, EndpointResolver, Route, Step};
use crate::settings::{settings_from, text_of, EnvValues, Settings, SettingsView};
use crate::transport::{classified, classify, endpoint_url, HttpOutcome};

verus! {

/// What a [`Client`] means.
pub ghost struct ClientState {
    pub base_url: Seq<char>,
    pub project: Seq<char>,
    pub run: Seq<char>,
    pub write_token: Option<Seq<char>>,
    pub timeout_ms: u64,
    /// The buffer and its threshold.
    pub batcher: BatcherState,
    /// The path that accepts bulk submissions, once one is known.
    pub resolved: Option<Seq<char>>,
}

/// What a [`Submission`] means: one POST that is to be made.
pub ghost struct Posting {
    /// The address to POST to.
    pub url: Seq<char>,
    /// The write token to attach, if any.
    pub write_token: Option<Seq<char>>,
    /// The request body.
    pub body: WireBody,
    /// Which path the address leads to.
    pub route: Route,
}

/// What [`Progress`] means.
pub ghost enum Outlook {
    Done(Result<(), TrackioError>),
    Retry(Posting),
}

/// One thing that can happen to a client.
pub ghost enum ClientEvent {
    /// A record is logged.
    Log(LogItem),
    /// A flush is asked for, by the caller or by the timer.
    Flush,
    /// The request described by the posting has ended with the outcome.
    Complete(Posting, HttpOutcome),
}

impl ClientState {
    /// The state of a new client with the given settings.
    pub open spec fn initial(settings: SettingsView) -> ClientState {
        ClientState {
            base_url: settings.base_url,
            project: settings.project,
            run: settings.run,
            write_token: settings.write_token,
            timeout_ms: settings.timeout_ms,
            batcher: BatcherState {
                pending: Seq::empty(),
                threshold: effective_batch(settings.max_batch),
                interval_ms: effective_interval(settings.flush_interval_ms),
            },
            resolved: None,
        }
    }

    /// The first POST for a batch: to the remembered path if there is one,
    /// else to the first candidate.
    pub open spec fn posting(self, batch: Seq<LogItem>) -> Posting {
        Posting {
            url: self.base_url + first_path(self.resolved),
            write_token: self.write_token,
            body: wire_body(self.project, self.run, records(batch)),
            route: first_route(self.resolved),
        }
    }

    /// What is to be sent for the batch that the batcher hands out, if it
    /// hands one out.
    pub open spec fn posting_for(self, batch: Option<Seq<LogItem>>) -> Option<Posting> {
        match batch {
            Some(due) => Some(self.posting(due)),
            None => None,
        }
    }

    /// One record is logged.
    pub open spec fn log(self, item: LogItem) -> (ClientState, Option<Posting>) {
        let (batcher, batch) = self.batcher.enqueue(item);
        (ClientState { batcher, ..self }, self.posting_for(batch))
    }

    /// What happens when `items` are logged one after another: the state at
    /// the end, and what became due for sending on the way, in order.
    pub open spec fn log_all(self, items: Seq<LogItem>) -> (ClientState, Seq<Posting>)
        decreases items.len(),
    {
        if items.len() == 0 {
            (self, Seq::empty())
        } else {
            let (before, sent) = self.log_all(items.drop_last());
            let (after, due) = before.log(items.last());
            (
                after,
                match due {
                    Some(posting) => sent.push(posting),
                    None => sent,
                },
            )
        }
    }

    /// A flush is asked for.
    pub open spec fn flush(self) -> (ClientState, Option<Posting>) {
        let (batcher, batch) = self.batcher.flush();
        (ClientState { batcher, ..self }, self.posting_for(batch))
    }

    /// The POST described by `posting` has ended with `outcome`.
    pub open spec fn complete(self, posting: Posting, outcome: HttpOutcome) -> (ClientState, Outlook) {
        let result = classified(outcome);
        let state = ClientState { resolved: resolved_after(self.resolved, posting.route, result), ..self };
        let outlook = match step_after(posting.route, result) {
            Step::Done(result) => Outlook::Done(result),
            Step::Retry(route) => Outlook::Retry(
                Posting { url: self.base_url + route.candidate().unwrap(), route, ..posting },
            ),
        };
        (state, outlook)
    }

    /// What `event` does to the buffer, if anything.
    pub open spec fn buffer_op(event: ClientEvent) -> Option<BufferOp> {
        match event {
            ClientEvent::Log(item) => Some(BufferOp::Enqueue(item)),
            ClientEvent::Flush => Some(BufferOp::Flush),
            ClientEvent::Complete(_, _) => None,
        }
    }

    /// What `events` do to the buffer, in order.
    pub open spec fn buffer_ops(events: Seq<ClientEvent>) -> Seq<BufferOp>
        decreases events.len(),
    {
        if events.len() == 0 {
            Seq::empty()
        } else {
            match Self::buffer_op(events.last()) {
                Some(op) => Self::buffer_ops(events.drop_last()).push(op),
                None => Self::buffer_ops(events.drop_last()),
            }
        }
    }

    /// The state after `event`.
    pub open spec fn step(self, event: ClientEvent) -> ClientState {
        match event {
            ClientEvent::Log(item) => self.log(item).0,
            ClientEvent::Flush => self.flush().0,
            ClientEvent::Complete(posting, outcome) => self.complete(posting, outcome).0,
        }
    }

    /// The state after `events`, one after another.
    pub open spec fn after(self, events: Seq<ClientEvent>) -> ClientState
        decreases events.len(),
    {
        if events.len() == 0 {
            self
        } else {
            self.after(events.drop_last()).step(events.last())
        }
    }
}

/// One POST that is to be made: where to, with which token, and what.
#[derive(Debug)]
pub struct Submission {
    url: String,
    write_token: Option<String>,
    payload: BulkPayload,
    route: Route,
}

impl View for Submission {
    type V = Posting;

    closed spec fn view(&self) -> Posting {
        Posting {
            url: self.url@,
            write_token: text_of(self.write_token),
            body: self.payload@,
            route: self.route,
        }
    }
}

impl Submission {
    /// The address to POST to.
    pub fn url(&self) -> (url: &str)
        ensures
            url@ == self@.url,
    {
        self.url.as_str()
    }

    /// The write token to attach to the request, if one is configured.
    pub fn write_token(&self) -> (token: Option<&str>)
        ensures
            match token {
                Some(t) => self@.write_token == Some(t@),
                None => self@.write_token is None,
            },
    {
        match &self.write_token {
            Some(t) => Some(t.as_str()),
            None => None,
        }
    }

    /// The request body.
    pub fn payload(&self) -> (payload: &BulkPayload)
        ensures
            payload@ == self@.body,
    {
        &self.payload
    }

    /// Which path the address leads to.
    pub fn route(&self) -> (route: Route)
        ensures
            route == self@.route,
    {
        self.route
    }
}

/// What follows from the outcome of a POST.
#[derive(Debug)]
pub enum Progress {
    /// The flush is over, with this result.
    Done(Result<(), TrackioError>),
    /// The batch is to be sent again, as this submission says.
    Retry(Submission),
}

impl View for Progress {
    type V = Outlook;

    open spec fn view(&self) -> Outlook {
        match self {
            Progress::Done(result) => Outlook::Done(*result),
            Progress::Retry(submission) => Outlook::Retry(submission@),
        }
    }
}

/// A copy of an optional string.
fn copy_of(value: &Option<String>) -> (copy: Option<String>)
    ensures
        copy == *value,
{
    match value {
        Some(s) => Some(s.clone()),
        None => None,
    }
}

/// A client for one project and run on one server.
#[derive(Debug)]
pub struct Client {
    base_url: String,
    project: String,
    run: String,
    write_token: Option<String>,
    timeout_ms: u64,
    batcher: Batcher,
    resolver: EndpointResolver,
}

impl View for Client {
    type V = ClientState;

    closed spec fn view(&self) -> ClientState {
        ClientState {
            base_url: self.base_url@,
            project: self.project@,
            run: self.run@,
            write_token: text_of(self.write_token),
            timeout_ms: self.timeout_ms,
            batcher: self.batcher@,
            resolved: self.resolver@,
        }
    }
}

impl Client {
    /// A client configured by the environment, whose values the caller has
    /// read. What the environment leaves open is set to its default.
    pub fn new(env: EnvValues) -> (client: Client)
        ensures
            client@ == ClientState::initial(settings_from(env@)),
            client@.batcher.valid(),
    {
        Client::with_settings(Settings::from_env(env))
    }

    /// A client with the given settings, an empty buffer and no endpoint
    /// found yet.
    pub fn with_settings(settings: Settings) -> (client: Client)
        ensures
            client@ == ClientState::initial(settings@),
            client@.batcher.valid(),
    {
        Client {
            base_url: settings.base_url,
            project: settings.project,
            run: settings.run,
            write_token: settings.write_token,
            timeout_ms: settings.timeout_ms,
            batcher: Batcher::new(settings.max_batch, settings.flush_interval_ms),
            resolver: EndpointResolver::new(),
        }
    }

    /// The same client for another project.
    pub fn with_project(self, project: &str) -> (client: Client)
        ensures
            client@ == (ClientState { project: project@, ..self@ }),
    {
        let mut client = self;
        client.project = project.to_owned();
        client
    }

    /// The same client for another run.
    pub fn with_run(self, run: &str) -> (client: Client)
        ensures
            client@ == (ClientState { run: run@, ..self@ }),
    {
        let mut client = self;
        client.run = run.to_owned();
        client
    }

    /// The same client for another server.
    pub fn with_base_url(self, base_url: &str) -> (client: Client)
        ensures
            client@ == (ClientState { base_url: base_url@, ..self@ }),
    {
        let mut client = self;
        client.base_url = base_url.to_owned();
        client
    }

    /// The address of the server, without a path.
    pub fn base_url(&self) -> (base_url: &str)
        ensures
            base_url@ == self@.base_url,
    {
        self.base_url.as_str()
    }

    /// The project that the metrics belong to.
    pub fn project(&self) -> (project: &str)
        ensures
            project@ == self@.project,
    {
        self.project.as_str()
    }

    /// The run that the metrics belong to.
    pub fn run(&self) -> (run: &str)
        ensures
            run@ == self@.run,
    {
        self.run.as_str()
    }

    /// The token that authorises writes, if one is configured.
    pub fn write_token(&self) -> (token: Option<&str>)
        ensures
            match token {
                Some(t) => self@.write_token == Some(t@),
                None => self@.write_token is None,
            },
    {
        match &self.write_token {
            Some(t) => Some(t.as_str()),
            None => None,
        }
    }

    /// How long one request may take, in milliseconds.
    pub fn timeout_ms(&self) -> (timeout: u64)
        ensures
            timeout == self@.timeout_ms,
    {
        self.timeout_ms
    }

    /// The number of pending records at which the buffer is flushed.
    pub fn max_batch(&self) -> (max_batch: usize)
        ensures
            max_batch == self@.batcher.threshold,
    {
        self.batcher.max_batch()
    }

    /// The period of the flush timer, in milliseconds.
    pub fn flush_interval_ms(&self) -> (interval: u64)
        ensures
            interval == self@.batcher.interval_ms,
    {
        self.batcher.flush_interval_ms()
    }

    /// The number of records in the buffer.
    pub fn pending(&self) -> (count: usize)
        ensures
            count == self@.batcher.pending.len(),
            self@.batcher.valid(),
    {
        self.batcher.len()
    }

    /// The path that accepts bulk submissions, once one is known.
    pub fn bulk_path(&self) -> (path: Option<&str>)
        ensures
            match path {
                Some(p) => self@.resolved == Some(p@),
                None => self@.resolved is None,
            },
    {
        self.resolver.cached_path()
    }

    /// The first submission for a batch that was collected outside this
    /// client's buffer: to the remembered path if there is one, else to the
    /// first candidate. An empty batch gives none: there is nothing to send.
    /// The client's own buffer is not touched.
    pub fn submit(&self, batch: Vec<LogItem>) -> (submission: Option<Submission>)
        ensures
            match submission {
                Some(s) => batch@.len() > 0 && s@ == self@.posting(batch@),
                None => batch@.len() == 0,
            },
    {
        if batch.len() == 0 {
            None
        } else {
            Some(self.first_submission(batch))
        }
    }

    /// The first submission for `batch`.
    fn first_submission(&self, batch: Vec<LogItem>) -> (submission: Submission)
        ensures
            submission@ == self@.posting(batch@),
    {
        let (route, path) = self.resolver.first_attempt();
        Submission {
            url: endpoint_url(self.base_url.as_str(), path.as_str()),
            write_token: copy_of(&self.write_token),
            payload: BulkPayload::from_items(self.project.as_str(), self.run.as_str(), batch),
            route,
        }
    }

    /// The first submission for a batch that has just left the buffer, if one
    /// has.
    fn submit_due(&self, batch: Option<Vec<LogItem>>) -> (submission: Option<Submission>)
        ensures
            match (batch, submission) {
                (Some(due), Some(s)) => s@ == self@.posting(due@),
                (None, None) => true,
                _ => false,
            },
    {
        match batch {
            Some(due) => Some(self.first_submission(due)),
            None => None,
        }
    }

    /// Puts one record into the buffer. This never fails. Where the record
    /// brings the buffer up to the batch size, the buffer is emptied and the
    /// batch comes back as a submission that the caller is to send now.
    pub fn log(&mut self, metrics: serde_json::Value, step: Option<i64>, timestamp: Option<String>) -> (due:
        Option<Submission>)
        ensures
            final(self)@ == old(self)@.log(LogItem { metrics, step, timestamp }).0,
            match due {
                Some(s) => old(self)@.log(LogItem { metrics, step, timestamp }).1 == Some(s@),
                None => old(self)@.log(LogItem { metrics, step, timestamp }).1 is None,
            },
            final(self)@.batcher.valid(),
    {
        let batch = self.batcher.enqueue(LogItem::new(metrics, step, timestamp));
        self.submit_due(batch)
    }

    /// Empties the buffer and hands back the submission that carries what was
    /// in it. With an empty buffer there is nothing to send: the flush has
    /// succeeded without a request, and the result is `None`.
    pub fn flush(&mut self) -> (due: Option<Submission>)
        ensures
            final(self)@ == old(self)@.flush().0,
            match due {
                Some(s) => old(self)@.flush().1 == Some(s@),
                None => old(self)@.flush().1 is None,
            },
            old(self)@.batcher.pending.len() == 0 ==> due is None && final(self)@ == old(self)@,
            final(self)@.batcher.valid(),
    {
        let batch = self.batcher.flush();
        self.submit_due(batch)
    }

    /// The last flush of a client. Call it before the client is dropped:
    /// what is still in the buffer then is lost.
    pub fn close(&mut self) -> (due: Option<Submission>)
        ensures
            final(self)@ == old(self)@.flush().0,
            match due {
                Some(s) => old(self)@.flush().1 == Some(s@),
                None => old(self)@.flush().1 is None,
            },
            old(self)@.batcher.pending.len() == 0 ==> due is None && final(self)@ == old(self)@,
            final(self)@.batcher.valid(),
    {
        self.flush()
    }

    /// Takes in how the POST of `submission` ended.
    ///
    /// A success ends the flush, and a candidate path that has succeeded is
    /// remembered for good. A failure on the remembered path ends the flush
    /// with that failure. A failure on a candidate path leads to the next
    /// candidate, or, after the last one, to
    /// [`TrackioError::NoBulkEndpoint`]. However the flush ends, the batch is
    /// not put back into the buffer.
    pub fn complete(&mut self, submission: Submission, outcome: HttpOutcome) -> (progress: Progress)
        ensures
            final(self)@ == old(self)@.complete(submission@, outcome).0,
            progress@ == old(self)@.complete(submission@, outcome).1,
    {
        let Submission { url: _, write_token, payload, route } = submission;
        match self.resolver.settle(route, classify(outcome)) {
            Step::Done(result) => Progress::Done(result),
            Step::Retry(next) => {
                let path = next.candidate_path().unwrap();
                Progress::Retry(
                    Submission {
                        url: endpoint_url(self.base_url.as_str(), path),
                        write_token,
                        payload,
                        route: next,
                    },
                )
            },
        }
    }
}

/// Logging touches nothing but the buffer, and a submission becomes due
/// exactly when the batcher hands out a batch: it carries that batch.
pub proof fn lemma_log_all_follows_the_batcher(state: ClientState, items: Seq<LogItem>)
    ensures
        state.log_all(items).0 == (ClientState { batcher: enqueue_all(state.batcher, items).0, ..state }),
        state.log_all(items).1.len() == enqueue_all(state.batcher, items).1.len(),
        forall|j: int|
            0 <= j < state.log_all(items).1.len() ==> #[trigger] state.log_all(items).1[j]
                == state.posting(enqueue_all(state.batcher, items).1[j]),
    decreases items.len(),
{
    if items.len() > 0 {
        lemma_log_all_follows_the_batcher(state, items.drop_last());
    }
}

/// Fewer log calls than the batch size, on a client with an empty buffer,
/// make nothing due for sending: every record stays in the buffer until a
/// flush is asked for.
pub proof fn lemma_logging_below_batch_size_sends_nothing(state: ClientState, items: Seq<LogItem>)
    requires
        state.batcher.valid(),
        state.batcher.pending.len() == 0,
        items.len() < state.batcher.threshold,
    ensures
        state.log_all(items).1.len() == 0,
        state.log_all(items).0 == (ClientState {
            batcher: BatcherState { pending: items, ..state.batcher },
            ..state
        }),
{
    lemma_log_all_follows_the_batcher(state, items);
    lemma_below_threshold_nothing_is_due(state.batcher, items);
}

/// However many records are logged on a client with an empty buffer, each
/// full group of `threshold` records has become due as one submission, in
/// order, and the buffer holds the `n` modulo `threshold` records after the
/// last full group.
pub proof fn lemma_logging_sends_full_batches(state: ClientState, items: Seq<LogItem>)
    requires
        state.batcher.valid(),
        state.batcher.pending.len() == 0,
    ensures
        state.log_all(items).0.batcher.pending.len() == items.len() % state.batcher.threshold,
        state.log_all(items).0.batcher.pending == items.subrange(
            items.len() - items.len() % state.batcher.threshold,
            items.len() as int,
        ),
        state.log_all(items).1.len() == items.len() / state.batcher.threshold,
        forall|j: int|
            0 <= j < items.len() / state.batcher.threshold ==> #[trigger] state.log_all(items).1[j]
                == state.posting(
                items.subrange(j * state.batcher.threshold, (j + 1) * state.batcher.threshold),
            ),
{
    lemma_log_all_follows_the_batcher(state, items);
    lemma_batches_are_full_groups(state.batcher, items);
}

/// A submission becomes due within the log call that brings the buffer up to
/// the batch size, and within no other: on a client with an empty buffer,
/// call number `k + 1` is answered with a submission exactly when `k + 1` is
/// a multiple of the batch size.
pub proof fn lemma_logging_sends_within_the_crossing_call(state: ClientState, items: Seq<LogItem>, k: int)
    requires
        state.batcher.valid(),
        state.batcher.pending.len() == 0,
        0 <= k < items.len(),
    ensures
        state.log_all(items.take(k)).0.log(items[k]).1 is Some <==> (k + 1) % (
        state.batcher.threshold as int) == 0,
        (k + 1) % (state.batcher.threshold as int) == 0 ==> k + 1 >= state.batcher.threshold
            && state.log_all(items.take(k)).0.log(items[k]).1 == Some(
            state.posting(items.subrange(k + 1 - state.batcher.threshold, k + 1)),
        ),
{
    lemma_log_all_follows_the_batcher(state, items.take(k));
    lemma_flush_at_each_threshold_crossing(state.batcher, items, k);
}

/// A flush of an empty buffer sends nothing and changes nothing.
pub proof fn lemma_flush_of_empty_buffer_sends_nothing(state: ClientState)
    requires
        state.batcher.pending.len() == 0,
    ensures
        state.flush() == (state, None::<Posting>),
{
}

/// A candidate path that accepts a batch becomes the remembered path, where
/// none was remembered before.
pub proof fn lemma_success_fixes_the_endpoint(state: ClientState, posting: Posting, outcome: HttpOutcome)
    requires
        state.resolved is None,
        posting.route != Route::Cached,
        classified(outcome) is Ok,
    ensures
        state.complete(posting, outcome).0.resolved == posting.route.candidate(),
        state.complete(posting, outcome).0.resolved is Some,
        state.complete(posting, outcome).1 == Outlook::Done(Ok(())),
{
}

/// The remembered path never changes, whatever happens to the client
/// afterwards: records logged, flushes, and requests that end well or badly,
/// on whatever route they were made.
pub proof fn lemma_endpoint_is_fixed_for_good(state: ClientState, events: Seq<ClientEvent>)
    requires
        state.resolved is Some,
    ensures
        state.after(events).resolved == state.resolved,
    decreases events.len(),
{
    if events.len() > 0 {
        lemma_endpoint_is_fixed_for_good(state, events.drop_last());
    }
}

/// No record is lost and none is sent twice, whatever happens to the
/// client, and in particular when records are logged while a batch is on its
/// way: the buffer goes through the batcher's steps and nothing else touches
/// it, so the batches that have left, in order, followed by what is in the
/// buffer, are the records that were in the buffer at the start followed by
/// those that were logged, each once and in the order of arrival.
pub proof fn lemma_no_record_lost_or_sent_twice(state: ClientState, events: Seq<ClientEvent>)
    ensures
        state.after(events).batcher == run(state.batcher, ClientState::buffer_ops(events)).0,
        run(state.batcher, ClientState::buffer_ops(events)).1.flatten() + state.after(
            events,
        ).batcher.pending == state.batcher.pending + logged(ClientState::buffer_ops(events)),
    decreases events.len(),
{
    lemma_every_record_once(state.batcher, ClientState::buffer_ops(events));
    if events.len() > 0 {
        lemma_no_record_lost_or_sent_twice(state, events.drop_last());
        let ops = ClientState::buffer_ops(events.drop_last());
        match ClientState::buffer_op(events.last()) {
            Some(op) => {
                assert(ops.push(op).drop_last() =~= ops);
            },
            None => {},
        }
    }
}

/// However a request ends, the buffer stays as it is: a batch that could not
/// be sent is not put back.
pub proof fn lemma_outcomes_leave_the_buffer_alone(state: ClientState, posting: Posting, outcome: HttpOutcome)
    ensures
        state.complete(posting, outcome).0.batcher == state.batcher,
{
}

/// Once a path is remembered, a flush tries that path and no other: its one
/// request goes to the remembered path, and whatever the outcome, the flush is
/// over, with that outcome as its result.
pub proof fn lemma_resolved_flush_tries_one_path(state: ClientState, batch: Seq<LogItem>, outcome: HttpOutcome)
    requires
        state.resolved is Some,
    ensures
        state.posting(batch).route == Route::Cached,
        state.posting(batch).url == state.base_url + state.resolved.unwrap(),
        state.complete(state.posting(batch), outcome).1 == Outlook::Done(classified(outcome)),
{
}

} // verus!
