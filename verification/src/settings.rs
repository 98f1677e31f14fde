//! What a client is configured with.

use vstd::prelude::*;
use crate::deps::{decimal_u64, parse_u64};

verus! {

/// The environment variable that names the server.
pub const ENV_SERVER_URL: &'static str = "TRACKIO_SERVER_URL";

/// The environment variable that names the project.
pub const ENV_PROJECT: &'static str = "TRACKIO_PROJECT";

/// The environment variable that names the run.
pub const ENV_RUN: &'static str = "TRACKIO_RUN";

/// The environment variable that holds the write token.
pub const ENV_WRITE_TOKEN: &'static str = "TRACKIO_WRITE_TOKEN";

/// The environment variable that gives the request timeout in milliseconds.
pub const ENV_TIMEOUT_MS: &'static str = "TRACKIO_TIMEOUT_MS";

/// The environment variable that gives the batch size.
pub const ENV_MAX_BATCH: &'static str = "TRACKIO_MAX_BATCH";

/// The environment variable that gives the flush interval in milliseconds.
pub const ENV_FLUSH_INTERVAL_MS: &'static str = "TRACKIO_FLUSH_INTERVAL_MS";

/// The server that is used when none is named.
pub const DEFAULT_SERVER_URL: &'static str = "http://127.0.0.1:7860";

/// The request timeout that is used when none is given, in milliseconds.
pub const DEFAULT_TIMEOUT_MS: u64 = 5000;

/// The batch size that is used when none is given.
pub const DEFAULT_MAX_BATCH: usize = 128;

/// The flush interval that is used when none is given, in milliseconds.
pub const DEFAULT_FLUSH_INTERVAL_MS: u64 = 200;

/// The text of an optional string.
pub open spec fn text_of(value: Option<String>) -> Option<Seq<char>> {
    match value {
        Some(s) => Some(s@),
        None => None,
    }
}

/// The configuration of a client. It is fixed when the client is made.
#[derive(Debug)]
pub struct Settings {
    /// The address of the server, without a path.
    pub base_url: String,
    /// The project that the metrics belong to.
    pub project: String,
    /// The run that the metrics belong to.
    pub run: String,
    /// The token that authorises writes, if the server asks for one.
    pub write_token: Option<String>,
    /// How long one request may take, in milliseconds.
    pub timeout_ms: u64,
    /// The number of pending records at which a flush happens by itself.
    pub max_batch: usize,
    /// The period of the flush timer, in milliseconds.
    pub flush_interval_ms: u64,
}

/// What [`Settings`] mean.
pub ghost struct SettingsView {
    pub base_url: Seq<char>,
    pub project: Seq<char>,
    pub run: Seq<char>,
    pub write_token: Option<Seq<char>>,
    pub timeout_ms: u64,
    pub max_batch: usize,
    pub flush_interval_ms: u64,
}

impl View for Settings {
    type V = SettingsView;

    open spec fn view(&self) -> SettingsView {
        SettingsView {
            base_url: self.base_url@,
            project: self.project@,
            run: self.run@,
            write_token: text_of(self.write_token),
            timeout_ms: self.timeout_ms,
            max_batch: self.max_batch,
            flush_interval_ms: self.flush_interval_ms,
        }
    }
}

/// The settings of a client for which nothing was configured.
pub open spec fn default_settings() -> SettingsView {
    SettingsView {
        base_url: DEFAULT_SERVER_URL@,
        project: Seq::empty(),
        run: Seq::empty(),
        write_token: None,
        timeout_ms: DEFAULT_TIMEOUT_MS,
        max_batch: DEFAULT_MAX_BATCH,
        flush_interval_ms: DEFAULT_FLUSH_INTERVAL_MS,
    }
}

/// The values of the environment variables that configure a client, each as
/// it was found, or `None` where the variable is not set.
#[derive(Debug)]
pub struct EnvValues {
    pub server_url: Option<String>,
    pub project: Option<String>,
    pub run: Option<String>,
    pub write_token: Option<String>,
    pub timeout_ms: Option<String>,
    pub max_batch: Option<String>,
    pub flush_interval_ms: Option<String>,
}

/// What [`EnvValues`] mean.
pub ghost struct EnvView {
    pub server_url: Option<Seq<char>>,
    pub project: Option<Seq<char>>,
    pub run: Option<Seq<char>>,
    pub write_token: Option<Seq<char>>,
    pub timeout_ms: Option<Seq<char>>,
    pub max_batch: Option<Seq<char>>,
    pub flush_interval_ms: Option<Seq<char>>,
}

impl View for EnvValues {
    type V = EnvView;

    open spec fn view(&self) -> EnvView {
        EnvView {
            server_url: text_of(self.server_url),
            project: text_of(self.project),
            run: text_of(self.run),
            write_token: text_of(self.write_token),
            timeout_ms: text_of(self.timeout_ms),
            max_batch: text_of(self.max_batch),
            flush_interval_ms: text_of(self.flush_interval_ms),
        }
    }
}

/// The text that is configured: `raw` where it is set, else `default`.
pub open spec fn text_or(raw: Option<Seq<char>>, default: Seq<char>) -> Seq<char> {
    match raw {
        Some(text) => text,
        None => default,
    }
}

/// The number that is configured: what `raw` writes in base ten, or `default`
/// where it is not set or writes no number.
pub open spec fn number_or(raw: Option<Seq<char>>, default: u64) -> u64 {
    match raw {
        Some(text) => match decimal_u64(text) {
            Some(number) => number,
            None => default,
        },
        None => default,
    }
}

/// The size that is configured: as [`number_or`], with a number that is too
/// large for a size counting as no number.
pub open spec fn size_or(raw: Option<Seq<char>>, default: usize) -> usize {
    match raw {
        Some(text) => match decimal_u64(text) {
            Some(number) => if number <= usize::MAX {
                number as usize
            } else {
                default
            },
            None => default,
        },
        None => default,
    }
}

/// The settings that the environment asks for.
pub open spec fn settings_from(env: EnvView) -> SettingsView {
    SettingsView {
        base_url: text_or(env.server_url, DEFAULT_SERVER_URL@),
        project: text_or(env.project, Seq::empty()),
        run: text_or(env.run, Seq::empty()),
        write_token: env.write_token,
        timeout_ms: number_or(env.timeout_ms, DEFAULT_TIMEOUT_MS),
        max_batch: size_or(env.max_batch, DEFAULT_MAX_BATCH),
        flush_interval_ms: number_or(env.flush_interval_ms, DEFAULT_FLUSH_INTERVAL_MS),
    }
}

/// The number that `raw` configures, or `default`.
fn read_number(raw: &Option<String>, default: u64) -> (number: u64)
    ensures
        number == number_or(text_of(*raw), default),
{
    match raw {
        Some(text) => match parse_u64(text.as_str()) {
            Some(number) => number,
            None => default,
        },
        None => default,
    }
}

/// The size that `raw` configures, or `default`.
fn read_size(raw: &Option<String>, default: usize) -> (size: usize)
    ensures
        size == size_or(text_of(*raw), default),
{
    match raw {
        Some(text) => match parse_u64(text.as_str()) {
            Some(number) => if number <= usize::MAX as u64 {
                number as usize
            } else {
                default
            },
            None => default,
        },
        None => default,
    }
}

impl Settings {
    /// The settings that the environment asks for. A variable that is not set
    /// leaves the default in place, and so does a number that cannot be read.
    pub fn from_env(env: EnvValues) -> (settings: Settings)
        ensures
            settings@ == settings_from(env@),
    {
        let timeout_ms = read_number(&env.timeout_ms, DEFAULT_TIMEOUT_MS);
        let max_batch = read_size(&env.max_batch, DEFAULT_MAX_BATCH);
        let flush_interval_ms = read_number(&env.flush_interval_ms, DEFAULT_FLUSH_INTERVAL_MS);
        Settings {
            base_url: match env.server_url {
                Some(url) => url,
                None => DEFAULT_SERVER_URL.to_owned(),
            },
            project: match env.project {
                Some(project) => project,
                None => String::new(),
            },
            run: match env.run {
                Some(run) => run,
                None => String::new(),
            },
            write_token: env.write_token,
            timeout_ms,
            max_batch,
            flush_interval_ms,
        }
    }
}

impl Default for Settings {
    /// The settings of a client for which nothing was configured.
    fn default() -> (settings: Settings)
        ensures
            settings@ == default_settings(),
    {
        Settings {
            base_url: DEFAULT_SERVER_URL.to_owned(),
            project: String::new(),
            run: String::new(),
            write_token: None,
            timeout_ms: DEFAULT_TIMEOUT_MS,
            max_batch: DEFAULT_MAX_BATCH,
            flush_interval_ms: DEFAULT_FLUSH_INTERVAL_MS,
        }
    }
}

} // verus!
