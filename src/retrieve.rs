//! The retrieval decisions: cache first, then each server in order, with
//! not-found and request failures falling through to the next server.
//!
//! The caller performs each [`Action`] (an existence check, a request) and
//! reports what happened as an [`Event`].

use vstd::prelude::*;
use crate::ident::SymFileInfo;
use crate::layout::{download_url, download_url_of, relative_path, relative_path_of};
use crate::server::{SymSrvList, SymSrvSpec};

verus! {

#[derive(Clone, Debug, PartialEq, Eq)]
pub enum DownloadError {
    /// Server returned a 404 error. Try the next one.
    FileNotFound,
    /// The request failed; the transport's description.
    Request(String),
    /// The local cache could not be written; the description.
    Other(String),
}

#[derive(Clone, Copy, Debug, PartialEq, Eq)]
pub enum DownloadStatus {
    /// The symbol file already exists in the filesystem.
    AlreadyExists,
    /// The symbol file was successfully downloaded from the remote server.
    DownloadedOk,
}

/// How a request for a file ended.
#[derive(Clone, Debug, PartialEq, Eq)]
pub enum FetchReply {
    /// The file was fetched and published in the cache.
    Stored,
    /// The server does not host the file.
    NotFound,
    /// The request failed (connection, protocol, timeout).
    RequestFailed(String),
    /// The file was fetched but could not be written to the cache.
    StoreFailed(String),
}

/// What the caller observed after performing an action.
#[derive(Clone, Debug, PartialEq, Eq)]
pub enum Event {
    /// Whether the cache root holds the two-tier marker `index2.txt`.
    Layout(bool),
    /// Whether the file exists in the cache.
    Cached(bool),
    /// How the request ended.
    Fetched(FetchReply),
}

/// What the caller is to do next.
#[derive(Debug, PartialEq, Eq)]
pub enum Action {
    /// Check whether `index2.txt` exists directly under `cache_path`.
    DetectLayout { cache_path: String },
    /// Check whether `relative` exists below `cache_path`.
    CheckCache { cache_path: String, relative: String },
    /// Request `url`; on success write the bytes to a temporary file and move
    /// it to `relative` below `cache_path`.
    Fetch { url: String, cache_path: String, relative: String },
    /// The retrieval is over.
    Finish(Result<DownloadStatus, DownloadError>),
}

#[derive(Clone, Copy, Debug, PartialEq, Eq)]
pub enum Phase {
    Detecting,
    Checking,
    Fetching,
    Done,
}

/// One retrieval of one symbol file over an ordered list of servers.
pub struct Retrieval {
    pub info: SymFileInfo,
    pub filename: String,
    pub servers: Vec<SymSrvSpec>,
    /// The server being tried.
    pub index: usize,
    pub phase: Phase,
    /// Whether the current server's cache is two-tier.
    pub two_tier: bool,
    /// The most recent request failure.
    pub failure: Option<String>,
}

/// The error that ends a retrieval in which no server had the file: the
/// most recent request failure, or not-found when there was none.
pub open spec fn exhausted_error(failure: Option<String>) -> DownloadError {
    match failure {
        Some(m) => DownloadError::Request(m),
        None => DownloadError::FileNotFound,
    }
}

/// `a` asks to check for the marker of server `i`.
pub open spec fn is_detect(a: Action, servers: Seq<SymSrvSpec>, i: int) -> bool {
    a matches Action::DetectLayout { cache_path } && cache_path@ == servers[i].cache_path@
}

/// `a` asks to look for `rel` below `cache`.
pub open spec fn is_check(a: Action, cache: Seq<char>, rel: Seq<char>) -> bool {
    a matches Action::CheckCache { cache_path, relative } && cache_path@ == cache && relative@ == rel
}

/// `a` asks to request `u` and store it at `rel` below `cache`.
pub open spec fn is_fetch(a: Action, u: Seq<char>, cache: Seq<char>, rel: Seq<char>) -> bool {
    a matches Action::Fetch { url, cache_path, relative } && url@ == u && cache_path@ == cache
        && relative@ == rel
}

impl Retrieval {
    pub open spec fn wf(&self) -> bool {
        self.phase != Phase::Done ==> self.index < self.servers@.len()
    }

    /// The storage path below the current server's cache root.
    pub open spec fn relative(&self) -> Seq<char> {
        relative_path_of(self.info, self.filename@, self.two_tier)
    }

    /// `ev` is the kind of event that the last action asked for.
    pub open spec fn accepts_spec(&self, ev: Event) -> bool {
        match self.phase {
            Phase::Detecting => ev is Layout,
            Phase::Checking => ev is Cached,
            Phase::Fetching => ev is Fetched,
            Phase::Done => false,
        }
    }

    /// Starts a retrieval; the returned action checks the first server's
    /// layout, or ends the retrieval with not-found when the list is empty.
    pub fn new(info: SymFileInfo, filename: String, servers: SymSrvList) -> (r: (Retrieval, Action))
        ensures
            r.0.wf(),
            r.0.info == info,
            r.0.filename == filename,
            r.0.servers@ == servers.0@,
            r.0.failure is None,
            r.0.index == 0,
            servers.0@.len() > 0 ==> r.0.phase == Phase::Detecting && is_detect(r.1, servers.0@, 0),
            servers.0@.len() == 0 ==> r.0.phase == Phase::Done && r.1 == Action::Finish(
                Err(DownloadError::FileNotFound),
            ),
    {
        let list = servers.0.into_vec();
        if list.len() == 0 {
            let s = Retrieval {
                info,
                filename,
                servers: list,
                index: 0,
                phase: Phase::Done,
                two_tier: false,
                failure: None,
            };
            return (s, Action::Finish(Err(DownloadError::FileNotFound)));
        }
        let a = Action::DetectLayout { cache_path: list[0].cache_path.clone() };
        let s = Retrieval {
            info,
            filename,
            servers: list,
            index: 0,
            phase: Phase::Detecting,
            two_tier: false,
            failure: None,
        };
        (s, a)
    }

    /// Whether `ev` is the kind of event that the last action asked for.
    pub fn accepts(&self, ev: &Event) -> (r: bool)
        ensures
            r == self.accepts_spec(*ev),
    {
        match self.phase {
            Phase::Detecting => matches!(ev, Event::Layout(_)),
            Phase::Checking => matches!(ev, Event::Cached(_)),
            Phase::Fetching => matches!(ev, Event::Fetched(_)),
            Phase::Done => false,
        }
    }

    /// Moves on to the next server, or ends the retrieval when none is left.
    fn advance(&mut self) -> (a: Action)
        requires
            old(self).wf(),
            old(self).phase != Phase::Done,
        ensures
            final(self).wf(),
            final(self).info == old(self).info,
            final(self).filename == old(self).filename,
            final(self).servers == old(self).servers,
            final(self).failure == old(self).failure,
            final(self).two_tier == old(self).two_tier,
            old(self).index + 1 < old(self).servers@.len() ==> final(self).index == old(self).index + 1
                && final(self).phase == Phase::Detecting && is_detect(a, old(self).servers@, old(self).index + 1),
            old(self).index + 1 >= old(self).servers@.len() ==> final(self).index == old(self).index
                && final(self).phase == Phase::Done && a == Action::Finish(Err(exhausted_error(old(self).failure))),
    {
        if self.index < self.servers.len() - 1 {
            self.index = self.index + 1;
            self.phase = Phase::Detecting;
            Action::DetectLayout { cache_path: self.servers[self.index].cache_path.clone() }
        } else {
            self.phase = Phase::Done;
            let e = match &self.failure {
                Some(m) => DownloadError::Request(m.clone()),
                None => DownloadError::FileNotFound,
            };
            Action::Finish(Err(e))
        }
    }

    /// Takes the outcome of the last action and decides the next one.
    ///
    /// A cache hit ends with `AlreadyExists`; a miss requests the file from
    /// the same server; a stored file ends with `DownloadedOk`; a failed
    /// write ends with that error; not-found and request failures move on to
    /// the next server, the latter being remembered for the final error.
    pub fn step(&mut self, ev: Event) -> (a: Action)
        requires
            old(self).wf(),
            old(self).accepts_spec(ev),
        ensures
            final(self).wf(),
            final(self).info == old(self).info,
            final(self).filename == old(self).filename,
            final(self).servers == old(self).servers,
            ev matches Event::Layout(t) ==> final(self).phase == Phase::Checking && final(self).two_tier == t
                && final(self).index == old(self).index && final(self).failure == old(self).failure
                && is_check(
                    a,
                    old(self).servers@[old(self).index as int].cache_path@,
                    relative_path_of(old(self).info, old(self).filename@, t),
                ),
            ev == Event::Cached(true) ==> final(self).phase == Phase::Done
                && a == Action::Finish(Ok(DownloadStatus::AlreadyExists)),
            ev == Event::Cached(false) ==> final(self).phase == Phase::Fetching
                && final(self).index == old(self).index && final(self).two_tier == old(self).two_tier
                && final(self).failure == old(self).failure
                && is_fetch(
                    a,
                    download_url_of(
                        old(self).servers@[old(self).index as int].server_url@,
                        old(self).info,
                        old(self).filename@,
                    ),
                    old(self).servers@[old(self).index as int].cache_path@,
                    old(self).relative(),
                ),
            ev == Event::Fetched(FetchReply::Stored) ==> final(self).phase == Phase::Done
                && a == Action::Finish(Ok(DownloadStatus::DownloadedOk)),
            ev matches Event::Fetched(FetchReply::StoreFailed(m)) ==> final(self).phase == Phase::Done
                && a == Action::Finish(Err(DownloadError::Other(m))),
            ev matches Event::Fetched(FetchReply::RequestFailed(m)) ==> final(self).failure == Some(m),
            ev == Event::Fetched(FetchReply::NotFound) ==> final(self).failure == old(self).failure,
            (ev == Event::Fetched(FetchReply::NotFound) || ev is Fetched && ev->Fetched_0 is RequestFailed)
                ==> {
                &&& old(self).index + 1 < old(self).servers@.len() ==> final(self).index == old(self).index + 1
                    && final(self).phase == Phase::Detecting
                    && is_detect(a, old(self).servers@, old(self).index + 1)
                &&& old(self).index + 1 >= old(self).servers@.len() ==> final(self).phase == Phase::Done
                    && final(self).index == old(self).index
                    && a == Action::Finish(Err(exhausted_error(final(self).failure)))
            },
    {
        match ev {
            Event::Layout(t) => {
                self.two_tier = t;
                self.phase = Phase::Checking;
                let relative = relative_path(&self.info, self.filename.as_str(), t);
                Action::CheckCache { cache_path: self.servers[self.index].cache_path.clone(), relative }
            },
            Event::Cached(true) => {
                self.phase = Phase::Done;
                Action::Finish(Ok(DownloadStatus::AlreadyExists))
            },
            Event::Cached(false) => {
                self.phase = Phase::Fetching;
                let url = download_url(
                    self.servers[self.index].server_url.as_str(),
                    &self.info,
                    self.filename.as_str(),
                );
                let relative = relative_path(&self.info, self.filename.as_str(), self.two_tier);
                Action::Fetch { url, cache_path: self.servers[self.index].cache_path.clone(), relative }
            },
            Event::Fetched(FetchReply::Stored) => {
                self.phase = Phase::Done;
                Action::Finish(Ok(DownloadStatus::DownloadedOk))
            },
            Event::Fetched(FetchReply::StoreFailed(m)) => {
                self.phase = Phase::Done;
                Action::Finish(Err(DownloadError::Other(m)))
            },
            Event::Fetched(FetchReply::NotFound) => self.advance(),
            Event::Fetched(FetchReply::RequestFailed(m)) => {
                self.failure = Some(m);
                self.advance()
            },
        }
    }
}

} // verus!
