//! A model of the world around the machines: the progress store, the cache,
//! the reference data and the grading service, as mathematical values.
//!
//! Running a machine against this model says what the machine achieves when
//! each of its actions is carried out faithfully. The laws of the library
//! are stated over such runs.
//!
//! The model is sequential: one run ends before the next begins. Snapshots
//! stay in the cache until they are deleted; that one may vanish early, when
//! its lifetime is over, is left out. The store answers every question and
//! refuses a write only where an attempt count cannot grow any further.

use crate::cache::CacheEntry;
use crate::dispatch::{GradingJobView, JobActionView, JobEventView, JobPhase};
use crate::error::PipelineError;
use crate::progress::{stored_after, ProgressView, ProgressWriteView};
use crate::read::{ProgressReadView, ReadActionView, ReadEventView, ReadPhase};
use crate::submit::{
    SubmissionView, SubmitActionView, SubmitEventView, SubmitPhase, SubmitResultView,
    TaskSubmissionView,
};
use crate::task::PromptReplyView;
use vstd::prelude::*;

verus! {

/// The state of everything outside the machines.
pub struct World {
    /// The progress store: at most one record for a user and a task.
    pub rows: Map<(u32, i32), ProgressView>,
    /// The progress snapshots that the cache holds, by key.
    pub snapshots: Map<Seq<char>, ProgressView>,
    /// Whether the cache answers. While it does not, lookups miss and
    /// nothing is stored or deleted.
    pub cache_up: bool,
    /// The stored answers of quizzes and matching tasks, by task.
    pub answers: Map<i32, Seq<char>>,
    /// The attempt limits that free-text tasks state, by task.
    pub limits: Map<i32, i32>,
    /// Question and additional hint of free-text tasks, by task.
    pub details: Map<i32, (Seq<char>, Option<Seq<char>>)>,
    /// How often the store was asked for a progress record.
    pub store_reads: nat,
    /// How often the grading service was asked.
    pub grader_calls: nat,
    /// The identifier that the store gives the next new record.
    pub fresh_id: u32,
    /// The time of the next write.
    pub now: i64,
}

impl World {
    /// The record of a user on a task, if the store holds one.
    pub open spec fn row(self, user_id: u32, task_id: i32) -> Option<ProgressView> {
        if self.rows.contains_key((user_id, task_id)) {
            Some(self.rows[(user_id, task_id)])
        } else {
            None
        }
    }

    /// The attempt count of a user on a task: zero where the store holds no
    /// record.
    pub open spec fn attempts(self, user_id: u32, task_id: i32) -> int {
        match self.row(user_id, task_id) {
            Some(record) => record.attempts as int,
            None => 0,
        }
    }

    /// The limit that a task states, if it states one.
    pub open spec fn limit(self, task_id: i32) -> Option<i32> {
        if self.limits.contains_key(task_id) {
            Some(self.limits[task_id])
        } else {
            None
        }
    }

    /// The world after the store was asked to take `write`, and whether it
    /// took it.
    pub open spec fn store(self, write: ProgressWriteView) -> (World, bool) {
        match stored_after(
            self.row(write.user_id, write.task_id),
            write,
            self.fresh_id,
            self.now,
        ) {
            Some(record) => (
                World { rows: self.rows.insert((write.user_id, write.task_id), record), ..self },
                true,
            ),
            None => (self, false),
        }
    }

    /// The world after the cache was asked to delete `keys`.
    pub open spec fn invalidate(self, keys: Seq<Seq<char>>) -> World {
        if self.cache_up {
            World {
                snapshots: Map::new(
                    |key: Seq<char>| self.snapshots.contains_key(key) && !keys.contains(key),
                    |key: Seq<char>| self.snapshots[key],
                ),
                ..self
            }
        } else {
            self
        }
    }

    /// What the world makes of an action of a submission: the world
    /// afterwards, and the event that answers the action.
    pub open spec fn answer_submission(self, action: SubmitActionView) -> (
        World,
        SubmitEventView,
    ) {
        match action {
            SubmitActionView::Store(write) => {
                let (world, taken) = self.store(write);
                if taken {
                    (world, SubmitEventView::Stored)
                } else {
                    (world, SubmitEventView::StoreFailed)
                }
            },
            SubmitActionView::Invalidate { keys } => (
                self.invalidate(keys),
                SubmitEventView::Invalidated,
            ),
            SubmitActionView::FetchAnswers { task_type, task_id } => {
                if self.answers.contains_key(task_id) {
                    (self, SubmitEventView::Answers(self.answers[task_id]))
                } else {
                    (self, SubmitEventView::StoreFailed)
                }
            },
            SubmitActionView::FetchAttempts { user_id, task_id } => match self.row(
                user_id,
                task_id,
            ) {
                Some(record) => (
                    self,
                    SubmitEventView::Attempts {
                        attempts: record.attempts,
                        max_attempts: self.limit(task_id),
                    },
                ),
                None => (self, SubmitEventView::StoreFailed),
            },
            SubmitActionView::Finish(_) => (self, SubmitEventView::Start),
        }
    }

    /// What the world makes of an action of a read.
    pub open spec fn answer_read(self, action: ReadActionView) -> (World, ReadEventView) {
        match action {
            ReadActionView::Lookup { key } => {
                if self.cache_up && self.snapshots.contains_key(key) {
                    (self, ReadEventView::CacheHit(self.snapshots[key]))
                } else {
                    (self, ReadEventView::CacheMiss)
                }
            },
            ReadActionView::Query { user_id, task_id } => {
                let world = World { store_reads: self.store_reads + 1, ..self };
                match self.row(user_id, task_id) {
                    Some(record) => (world, ReadEventView::Row(record)),
                    None => (world, ReadEventView::NoRow),
                }
            },
            ReadActionView::Fill { key, record, ttl } => {
                if self.cache_up {
                    (
                        World { snapshots: self.snapshots.insert(key, record), ..self },
                        ReadEventView::CacheFilled,
                    )
                } else {
                    (self, ReadEventView::CacheFilled)
                }
            },
            ReadActionView::Finish(_) => (self, ReadEventView::Start),
        }
    }

    /// What the world makes of an action of a grading job, where the
    /// grading service, if asked, answers `reply`, or fails where `reply` is
    /// nothing.
    pub open spec fn answer_job(self, action: JobActionView, reply: Option<PromptReplyView>) -> (
        World,
        JobEventView,
    ) {
        match action {
            JobActionView::FetchDetails { task_id } => {
                if self.details.contains_key(task_id) {
                    (
                        self,
                        JobEventView::Details {
                            question: self.details[task_id].0,
                            additional_prompt: self.details[task_id].1,
                        },
                    )
                } else {
                    (self, JobEventView::StoreFailed)
                }
            },
            JobActionView::Ask { message } => {
                let world = World { grader_calls: self.grader_calls + 1, ..self };
                match reply {
                    Some(answer) => (world, JobEventView::Reply(answer)),
                    None => (world, JobEventView::GraderFailed),
                }
            },
            JobActionView::Store(write) => {
                let (world, taken) = self.store(write);
                if taken {
                    (world, JobEventView::Stored)
                } else {
                    (world, JobEventView::StoreFailed)
                }
            },
            JobActionView::Invalidate { keys } => (self.invalidate(keys), JobEventView::Invalidated),
            JobActionView::Finish(_) => (self, JobEventView::Start),
        }
    }
}

/// A submission run to its end, in at most `steps` steps: the world
/// afterwards and the result.
pub open spec fn run_submission(
    world: World,
    state: SubmissionView,
    event: SubmitEventView,
    steps: nat,
) -> (World, SubmitResultView)
    decreases steps,
{
    let (next, action) = state.next(event);
    match action {
        SubmitActionView::Finish(result) => (world, result),
        _ => {
            if steps == 0 {
                (world, SubmitResultView::Rejected(PipelineError::OutOfOrder))
            } else {
                let (after, answer) = world.answer_submission(action);
                run_submission(after, next, answer, (steps - 1) as nat)
            }
        },
    }
}

/// A read run to its end, in at most `steps` steps.
pub open spec fn run_read(world: World, state: ProgressReadView, event: ReadEventView, steps: nat)
    -> (World, Result<ProgressView, PipelineError>)
    decreases steps,
{
    let (next, action) = state.next(event);
    match action {
        ReadActionView::Finish(result) => (world, result),
        _ => {
            if steps == 0 {
                (world, Err(PipelineError::OutOfOrder))
            } else {
                let (after, answer) = world.answer_read(action);
                run_read(after, next, answer, (steps - 1) as nat)
            }
        },
    }
}

/// A grading job run to its end, in at most `steps` steps.
pub open spec fn run_job(
    world: World,
    state: GradingJobView,
    event: JobEventView,
    reply: Option<PromptReplyView>,
    steps: nat,
) -> (World, Result<(), PipelineError>)
    decreases steps,
{
    let (next, action) = state.next(event);
    match action {
        JobActionView::Finish(result) => (world, result),
        _ => {
            if steps == 0 {
                (world, Err(PipelineError::OutOfOrder))
            } else {
                let (after, answer) = world.answer_job(action, reply);
                run_job(after, next, answer, reply, (steps - 1) as nat)
            }
        },
    }
}

/// The number of steps that is enough for any run.
pub open spec fn enough_steps() -> nat {
    8
}

/// What handing in `work` does to the world, and how it ends.
pub open spec fn submit(world: World, user_id: u32, task_id: i32, work: TaskSubmissionView) -> (
    World,
    SubmitResultView,
) {
    run_submission(
        world,
        SubmissionView { user_id, task_id, work, phase: SubmitPhase::Created },
        SubmitEventView::Start,
        enough_steps(),
    )
}

/// What reading the progress of a user on a task does to the world, and
/// what it returns.
pub open spec fn get_progress(world: World, user_id: u32, task_id: i32) -> (
    World,
    Result<ProgressView, PipelineError>,
) {
    run_read(
        world,
        ProgressReadView { user_id, task_id, phase: ReadPhase::Created, found: None },
        ReadEventView::Start,
        enough_steps(),
    )
}

/// What running a grading job does to the world, and how it ends.
pub open spec fn grade(world: World, job: GradingJobView, reply: Option<PromptReplyView>) -> (
    World,
    Result<(), PipelineError>,
) {
    run_job(world, job, JobEventView::Start, reply, enough_steps())
}

/// The key under which the cache holds the progress of a user on a task.
pub open spec fn progress_key(user_id: u32, task_id: i32) -> Seq<char> {
    CacheEntry::Progress { user_id, task_id }.key_text()
}

} // verus!
