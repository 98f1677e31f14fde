//! Finding the path that accepts bulk submissions, and remembering it.
//!
//! A client that has not sent anything yet does not know which path its
//! server offers. It tries the candidates in order and keeps the first one
//! that accepts a batch; from then on it uses that path and no other.

use vstd::prelude::*;
use once_cell::sync::OnceCell;
use crate::deps::{cell_get, cell_new, cell_set, cell_text};
use crate::error::TrackioError;

verus! {

/// The path that is tried first.
pub const PRIMARY_PATH: &'static str = "/api/bulk_log";

/// The path that is tried when the first one fails.
pub const FALLBACK_PATH: &'static str = "/gradio_api/bulk_log";

/// Where one attempt to send a batch goes.
#[derive(Debug, Clone, Copy, PartialEq, Eq, Structural)]
pub enum Route {
    /// To the path that an earlier flush found.
    Cached,
    /// To the first candidate, to find out whether the server offers it.
    Primary,
    /// To the second candidate, after the first one failed.
    Fallback,
}

impl Route {
    /// The candidate path that this route tries out, if it tries one.
    pub open spec fn candidate(self) -> Option<Seq<char>> {
        match self {
            Route::Cached => None,
            Route::Primary => Some(PRIMARY_PATH@),
            Route::Fallback => Some(FALLBACK_PATH@),
        }
    }

    /// The route to take when this one has failed, if there is one left.
    pub open spec fn next(self) -> Option<Route> {
        match self {
            Route::Primary => Some(Route::Fallback),
            Route::Cached | Route::Fallback => None,
        }
    }

    /// The candidate path that this route tries out, if it tries one.
    pub fn candidate_path(self) -> (path: Option<&'static str>)
        ensures
            match path {
                Some(p) => self.candidate() == Some(p@),
                None => self.candidate() is None,
            },
    {
        match self {
            Route::Cached => None,
            Route::Primary => Some(PRIMARY_PATH),
            Route::Fallback => Some(FALLBACK_PATH),
        }
    }

    /// The route to take when this one has failed, if there is one left.
    pub fn successor(self) -> (route: Option<Route>)
        ensures
            route == self.next(),
    {
        match self {
            Route::Primary => Some(Route::Fallback),
            Route::Cached | Route::Fallback => None,
        }
    }
}

/// What follows from one attempt.
#[derive(Debug)]
pub enum Step {
    /// The flush is over, with this result.
    Done(Result<(), TrackioError>),
    /// The same batch is to be sent again, by this route.
    Retry(Route),
}

/// The route of the first attempt of a flush.
pub open spec fn first_route(resolved: Option<Seq<char>>) -> Route {
    if resolved is Some {
        Route::Cached
    } else {
        Route::Primary
    }
}

/// The path of the first attempt of a flush.
pub open spec fn first_path(resolved: Option<Seq<char>>) -> Seq<char> {
    match resolved {
        Some(path) => path,
        None => PRIMARY_PATH@,
    }
}

/// The remembered path after an attempt by `route` has ended with `result`.
/// Only a success writes, and only where nothing was remembered yet.
pub open spec fn resolved_after(
    resolved: Option<Seq<char>>,
    route: Route,
    result: Result<(), TrackioError>,
) -> Option<Seq<char>> {
    if result is Ok && resolved is None {
        route.candidate()
    } else {
        resolved
    }
}

/// What follows from an attempt by `route` that has ended with `result`.
///
/// A success ends the flush. A failure on the remembered path ends it with
/// that failure. A failure on a candidate, of whatever kind, moves on to the
/// next candidate; after the last one the flush ends with
/// [`TrackioError::NoBulkEndpoint`].
pub open spec fn step_after(route: Route, result: Result<(), TrackioError>) -> Step {
    match result {
        Ok(()) => Step::Done(Ok(())),
        Err(error) => match route {
            Route::Cached => Step::Done(Err(error)),
            Route::Primary | Route::Fallback => match route.next() {
                Some(next) => Step::Retry(next),
                None => Step::Done(Err(TrackioError::NoBulkEndpoint)),
            },
        },
    }
}

/// Remembers which path accepts bulk submissions, once one has.
#[derive(Debug)]
pub struct EndpointResolver {
    found: OnceCell<String>,
}

impl View for EndpointResolver {
    type V = Option<Seq<char>>;

    /// The remembered path, if there is one.
    closed spec fn view(&self) -> Option<Seq<char>> {
        cell_text(self.found)
    }
}

impl EndpointResolver {
    /// A resolver that remembers nothing yet.
    pub fn new() -> (resolver: EndpointResolver)
        ensures
            resolver@ is None,
    {
        EndpointResolver { found: cell_new() }
    }

    /// The remembered path, if there is one.
    pub fn cached_path(&self) -> (path: Option<&str>)
        ensures
            match path {
                Some(p) => self@ == Some(p@),
                None => self@ is None,
            },
    {
        match cell_get(&self.found) {
            Some(p) => Some(p.as_str()),
            None => None,
        }
    }

    /// The route and the path of the first attempt of a flush: the remembered
    /// path where there is one, else the first candidate.
    pub fn first_attempt(&self) -> (attempt: (Route, String))
        ensures
            attempt.0 == first_route(self@),
            attempt.1@ == first_path(self@),
    {
        match self.cached_path() {
            Some(p) => (Route::Cached, p.to_owned()),
            None => (Route::Primary, PRIMARY_PATH.to_owned()),
        }
    }

    /// Takes in how an attempt by `route` ended, and says what follows.
    pub fn settle(&mut self, route: Route, result: Result<(), TrackioError>) -> (step: Step)
        ensures
            final(self)@ == resolved_after(old(self)@, route, result),
            step == step_after(route, result),
    {
        match result {
            Ok(()) => {
                match route.candidate_path() {
                    Some(path) => {
                        let _ = cell_set(&mut self.found, path.to_owned());
                    },
                    None => {},
                }
                Step::Done(Ok(()))
            },
            Err(error) => match route {
                Route::Cached => Step::Done(Err(error)),
                Route::Primary | Route::Fallback => match route.successor() {
                    Some(next) => Step::Retry(next),
                    None => Step::Done(Err(TrackioError::NoBulkEndpoint)),
                },
            },
        }
    }
}

} // verus!
