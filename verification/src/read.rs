//! Reading a user's progress through the cache.
//!
//! The decisions of a read are a small machine. Whoever runs it performs
//! each action on the cache or the store and hands the outcome back as the
//! next event, until the machine finishes.

use crate::cache::CacheEntry;
use crate::error::PipelineError;
use crate::progress::{Progress, ProgressView};
use vstd::prelude::*;

verus! {

/// How far a read has come.
#[derive(Clone, Copy, Debug, PartialEq, Eq, Structural)]
pub enum ReadPhase {
    Created,
    AskingCache,
    AskingStore,
    FillingCache,
    Finished,
}

/// What the world answered to the last action of a read.
#[derive(Clone, Debug, PartialEq, Eq)]
pub enum ReadEvent {
    /// The read begins.
    Start,
    /// The cache holds a snapshot that could be read.
    CacheHit(Progress),
    /// The cache holds nothing of use, or did not answer.
    CacheMiss,
    /// The store holds this record.
    Row(Progress),
    /// The store holds no record.
    NoRow,
    /// The store did not answer.
    StoreFailed,
    /// The cache took the snapshot, or failed to; the read does not care.
    CacheFilled,
}

/// What a read asks of the world next.
#[derive(Debug, PartialEq, Eq)]
pub enum ReadAction {
    /// Look up the key in the cache.
    Lookup { key: String },
    /// Ask the store for the record.
    Query { user_id: u32, task_id: i32 },
    /// Put the record into the cache under the key, for so many seconds.
    Fill { key: String, record: Progress, ttl: u64 },
    /// The read is over, with this result.
    Finish(Result<Progress, PipelineError>),
}

/// A read of the progress of one user on one task.
#[derive(Clone, Debug, PartialEq, Eq)]
pub struct ProgressRead {
    pub user_id: u32,
    pub task_id: i32,
    pub phase: ReadPhase,
    /// The record that the store gave, while the cache is being filled.
    pub found: Option<Progress>,
}

/// A read event as a mathematical value.
pub enum ReadEventView {
    Start,
    CacheHit(ProgressView),
    CacheMiss,
    Row(ProgressView),
    NoRow,
    StoreFailed,
    CacheFilled,
}

/// A read action as a mathematical value.
pub enum ReadActionView {
    Lookup { key: Seq<char> },
    Query { user_id: u32, task_id: i32 },
    Fill { key: Seq<char>, record: ProgressView, ttl: u64 },
    Finish(Result<ProgressView, PipelineError>),
}

/// A read as a mathematical value.
pub struct ProgressReadView {
    pub user_id: u32,
    pub task_id: i32,
    pub phase: ReadPhase,
    pub found: Option<ProgressView>,
}

impl View for ReadEvent {
    type V = ReadEventView;

    open spec fn view(&self) -> ReadEventView {
        match self {
            ReadEvent::Start => ReadEventView::Start,
            ReadEvent::CacheHit(record) => ReadEventView::CacheHit(record@),
            ReadEvent::CacheMiss => ReadEventView::CacheMiss,
            ReadEvent::Row(record) => ReadEventView::Row(record@),
            ReadEvent::NoRow => ReadEventView::NoRow,
            ReadEvent::StoreFailed => ReadEventView::StoreFailed,
            ReadEvent::CacheFilled => ReadEventView::CacheFilled,
        }
    }
}

impl View for ReadAction {
    type V = ReadActionView;

    open spec fn view(&self) -> ReadActionView {
        match self {
            ReadAction::Lookup { key } => ReadActionView::Lookup { key: key@ },
            ReadAction::Query { user_id, task_id } => ReadActionView::Query {
                user_id: *user_id,
                task_id: *task_id,
            },
            ReadAction::Fill { key, record, ttl } => ReadActionView::Fill {
                key: key@,
                record: record@,
                ttl: *ttl,
            },
            ReadAction::Finish(Ok(record)) => ReadActionView::Finish(Ok(record@)),
            ReadAction::Finish(Err(error)) => ReadActionView::Finish(Err(*error)),
        }
    }
}

impl View for ProgressRead {
    type V = ProgressReadView;

    open spec fn view(&self) -> ProgressReadView {
        ProgressReadView {
            user_id: self.user_id,
            task_id: self.task_id,
            phase: self.phase,
            found: match self.found {
                Some(record) => Some(record@),
                None => None,
            },
        }
    }
}

impl ProgressReadView {
    /// The read, over.
    pub open spec fn finished(self) -> ProgressReadView {
        ProgressReadView { phase: ReadPhase::Finished, found: None, ..self }
    }

    /// The cache entry that the read is about.
    pub open spec fn entry(self) -> CacheEntry {
        CacheEntry::Progress { user_id: self.user_id, task_id: self.task_id }
    }

    /// The step that a read takes on an event: its next state and what it
    /// asks for.
    ///
    /// A read asks the cache first. A hit ends it. On a miss it asks the
    /// store; a record found there is put into the cache and then returned,
    /// and a missing record ends the read with `NotFound`. A store that does
    /// not answer ends it with `StoreUnavailable`. An event that the phase
    /// does not expect ends it with `OutOfOrder`.
    pub open spec fn next(self, event: ReadEventView) -> (ProgressReadView, ReadActionView) {
        match (self.phase, event) {
            (ReadPhase::Created, ReadEventView::Start) => (
                ProgressReadView { phase: ReadPhase::AskingCache, ..self },
                ReadActionView::Lookup { key: self.entry().key_text() },
            ),
            (ReadPhase::AskingCache, ReadEventView::CacheHit(record)) => (
                self.finished(),
                ReadActionView::Finish(Ok(record)),
            ),
            (ReadPhase::AskingCache, ReadEventView::CacheMiss) => (
                ProgressReadView { phase: ReadPhase::AskingStore, ..self },
                ReadActionView::Query { user_id: self.user_id, task_id: self.task_id },
            ),
            (ReadPhase::AskingStore, ReadEventView::Row(record)) => (
                ProgressReadView { phase: ReadPhase::FillingCache, found: Some(record), ..self },
                ReadActionView::Fill {
                    key: self.entry().key_text(),
                    record,
                    ttl: self.entry().lifetime(),
                },
            ),
            (ReadPhase::AskingStore, ReadEventView::NoRow) => (
                self.finished(),
                ReadActionView::Finish(Err(PipelineError::NotFound)),
            ),
            (ReadPhase::AskingStore, ReadEventView::StoreFailed) => (
                self.finished(),
                ReadActionView::Finish(Err(PipelineError::StoreUnavailable)),
            ),
            (ReadPhase::FillingCache, ReadEventView::CacheFilled) => match self.found {
                Some(record) => (self.finished(), ReadActionView::Finish(Ok(record))),
                None => (self.finished(), ReadActionView::Finish(Err(PipelineError::OutOfOrder))),
            },
            _ => (self.finished(), ReadActionView::Finish(Err(PipelineError::OutOfOrder))),
        }
    }
}

impl ProgressRead {
    /// A read of the progress of `user_id` on `task_id`, not yet begun.
    pub fn new(user_id: u32, task_id: i32) -> (read: ProgressRead)
        ensures
            read@ == (ProgressReadView {
                user_id,
                task_id,
                phase: ReadPhase::Created,
                found: None,
            }),
    {
        ProgressRead { user_id, task_id, phase: ReadPhase::Created, found: None }
    }

    /// Takes one step: the read after `event`, and what it asks for next.
    pub fn step(self, event: ReadEvent) -> (next: (ProgressRead, ReadAction))
        ensures
            (next.0@, next.1@) == self@.next(event@),
    {
        let user_id = self.user_id;
        let task_id = self.task_id;
        let entry = CacheEntry::Progress { user_id, task_id };
        let over = ProgressRead { user_id, task_id, phase: ReadPhase::Finished, found: None };
        match (self.phase, event) {
            (ReadPhase::Created, ReadEvent::Start) => (
                ProgressRead { user_id, task_id, phase: ReadPhase::AskingCache, found: self.found },
                ReadAction::Lookup { key: entry.key() },
            ),
            (ReadPhase::AskingCache, ReadEvent::CacheHit(record)) => (
                over,
                ReadAction::Finish(Ok(record)),
            ),
            (ReadPhase::AskingCache, ReadEvent::CacheMiss) => (
                ProgressRead { user_id, task_id, phase: ReadPhase::AskingStore, found: self.found },
                ReadAction::Query { user_id, task_id },
            ),
            (ReadPhase::AskingStore, ReadEvent::Row(record)) => {
                let copy = record.duplicate();
                (
                    ProgressRead {
                        user_id,
                        task_id,
                        phase: ReadPhase::FillingCache,
                        found: Some(record),
                    },
                    ReadAction::Fill { key: entry.key(), record: copy, ttl: entry.ttl() },
                )
            },
            (ReadPhase::AskingStore, ReadEvent::NoRow) => (
                over,
                ReadAction::Finish(Err(PipelineError::NotFound)),
            ),
            (ReadPhase::AskingStore, ReadEvent::StoreFailed) => (
                over,
                ReadAction::Finish(Err(PipelineError::StoreUnavailable)),
            ),
            (ReadPhase::FillingCache, ReadEvent::CacheFilled) => match self.found {
                Some(record) => (over, ReadAction::Finish(Ok(record))),
                None => (over, ReadAction::Finish(Err(PipelineError::OutOfOrder))),
            },
            _ => (over, ReadAction::Finish(Err(PipelineError::OutOfOrder))),
        }
    }
}

} // verus!
