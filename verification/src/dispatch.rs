//! Grading a free-text submission with the help of the grading service.
//!
//! Such grading runs apart from the request that handed the text in. Its
//! decisions are a small machine: whoever runs it performs each action and
//! hands the outcome back as the next event, until the machine finishes.

use crate::cache::{invalidation_keys, stale_keys};
use crate::error::PipelineError;
use crate::grading::{
    build_grading_prompt, grade_reply, grading_prompt, outcome_write, record_outcome,
    reply_outcome,
};
use crate::progress::{ProgressWrite, ProgressWriteView};
use crate::task::{PromptReply, PromptReplyView};
use crate::text::text_views;
use vstd::prelude::*;

verus! {

/// How far a grading job has come.
#[derive(Clone, Copy, Debug, PartialEq, Eq, Structural)]
pub enum JobPhase {
    Created,
    ReadingTask,
    Asking,
    Recording,
    Clearing,
    Finished,
}

/// The grading of one free-text submission.
#[derive(Clone, Debug, PartialEq, Eq)]
pub struct GradingJob {
    pub user_id: u32,
    pub task_id: i32,
    /// What the user wrote.
    pub user_prompt: String,
    pub phase: JobPhase,
}

/// What the world answered to the last action of a grading job.
#[derive(Clone, Debug, PartialEq, Eq)]
pub enum JobEvent {
    /// The job begins.
    Start,
    /// The task's question and its additional hint, if it has one.
    Details { question: String, additional_prompt: Option<String> },
    /// The grading service's answer, read successfully.
    Reply(PromptReply),
    /// The grading service failed, or answered what cannot be read.
    GraderFailed,
    /// The store took the write.
    Stored,
    /// The store did not answer, or refused.
    StoreFailed,
    /// The cache deleted the keys, or failed to; the job does not care.
    Invalidated,
}

/// What a grading job asks of the world next.
#[derive(Debug, PartialEq, Eq)]
pub enum JobAction {
    /// Read the task's question and hint from the store.
    FetchDetails { task_id: i32 },
    /// Send the message to the grading service.
    Ask { message: String },
    /// Write to the progress store.
    Store(ProgressWrite),
    /// Delete the keys from the cache.
    Invalidate { keys: Vec<String> },
    /// The job is over, with this result.
    Finish(Result<(), PipelineError>),
}

/// A grading job as a mathematical value.
pub struct GradingJobView {
    pub user_id: u32,
    pub task_id: i32,
    pub user_prompt: Seq<char>,
    pub phase: JobPhase,
}

/// A job event as a mathematical value.
pub enum JobEventView {
    Start,
    Details { question: Seq<char>, additional_prompt: Option<Seq<char>> },
    Reply(PromptReplyView),
    GraderFailed,
    Stored,
    StoreFailed,
    Invalidated,
}

/// A job action as a mathematical value.
pub enum JobActionView {
    FetchDetails { task_id: i32 },
    Ask { message: Seq<char> },
    Store(ProgressWriteView),
    Invalidate { keys: Seq<Seq<char>> },
    Finish(Result<(), PipelineError>),
}

impl View for GradingJob {
    type V = GradingJobView;

    open spec fn view(&self) -> GradingJobView {
        GradingJobView {
            user_id: self.user_id,
            task_id: self.task_id,
            user_prompt: self.user_prompt@,
            phase: self.phase,
        }
    }
}

impl View for JobEvent {
    type V = JobEventView;

    open spec fn view(&self) -> JobEventView {
        match self {
            JobEvent::Start => JobEventView::Start,
            JobEvent::Details { question, additional_prompt } => JobEventView::Details {
                question: question@,
                additional_prompt: match additional_prompt {
                    Some(hint) => Some(hint@),
                    None => None,
                },
            },
            JobEvent::Reply(reply) => JobEventView::Reply(reply@),
            JobEvent::GraderFailed => JobEventView::GraderFailed,
            JobEvent::Stored => JobEventView::Stored,
            JobEvent::StoreFailed => JobEventView::StoreFailed,
            JobEvent::Invalidated => JobEventView::Invalidated,
        }
    }
}

impl View for JobAction {
    type V = JobActionView;

    open spec fn view(&self) -> JobActionView {
        match self {
            JobAction::FetchDetails { task_id } => JobActionView::FetchDetails {
                task_id: *task_id,
            },
            JobAction::Ask { message } => JobActionView::Ask { message: message@ },
            JobAction::Store(write) => JobActionView::Store(write@),
            JobAction::Invalidate { keys } => JobActionView::Invalidate {
                keys: text_views(keys@),
            },
            JobAction::Finish(result) => JobActionView::Finish(*result),
        }
    }
}

impl GradingJobView {
    /// The job in another phase.
    pub open spec fn at(self, phase: JobPhase) -> GradingJobView {
        GradingJobView { phase, ..self }
    }

    /// The job, over with a failure.
    pub open spec fn failed(self, error: PipelineError) -> (GradingJobView, JobActionView) {
        (self.at(JobPhase::Finished), JobActionView::Finish(Err(error)))
    }

    /// The step that a grading job takes on an event: its next state and
    /// what it asks for.
    ///
    /// A job reads the task's question and hint, sends the grading service
    /// the message made of them and of the user's text, records what the
    /// answer comes to, and then has the stale cache keys deleted. Where the
    /// grading service fails, the job ends with `UpstreamGradingFailure` and
    /// writes nothing. A store that fails ends it with `StoreUnavailable`,
    /// an event that the phase does not expect with `OutOfOrder`.
    pub open spec fn next(self, event: JobEventView) -> (GradingJobView, JobActionView) {
        match (self.phase, event) {
            (JobPhase::Created, JobEventView::Start) => (
                self.at(JobPhase::ReadingTask),
                JobActionView::FetchDetails { task_id: self.task_id },
            ),
            (JobPhase::ReadingTask, JobEventView::Details { question, additional_prompt }) => (
                self.at(JobPhase::Asking),
                JobActionView::Ask {
                    message: grading_prompt(question, self.user_prompt, additional_prompt),
                },
            ),
            (JobPhase::ReadingTask, JobEventView::StoreFailed) => self.failed(
                PipelineError::StoreUnavailable,
            ),
            (JobPhase::Asking, JobEventView::Reply(reply)) => (
                self.at(JobPhase::Recording),
                JobActionView::Store(
                    outcome_write(
                        self.user_id,
                        self.task_id,
                        reply_outcome(reply.score, reply.reply, reply.feedback),
                    ),
                ),
            ),
            (JobPhase::Asking, JobEventView::GraderFailed) => self.failed(
                PipelineError::UpstreamGradingFailure,
            ),
            (JobPhase::Recording, JobEventView::Stored) => (
                self.at(JobPhase::Clearing),
                JobActionView::Invalidate { keys: stale_keys(self.user_id, self.task_id) },
            ),
            (JobPhase::Recording, JobEventView::StoreFailed) => self.failed(
                PipelineError::StoreUnavailable,
            ),
            (JobPhase::Clearing, JobEventView::Invalidated) => (
                self.at(JobPhase::Finished),
                JobActionView::Finish(Ok(())),
            ),
            _ => self.failed(PipelineError::OutOfOrder),
        }
    }
}

impl GradingJob {
    /// The grading of what `user_id` wrote for `task_id`, not yet begun.
    pub fn new(user_id: u32, task_id: i32, user_prompt: String) -> (job: GradingJob)
        ensures
            job@ == (GradingJobView {
                user_id,
                task_id,
                user_prompt: user_prompt@,
                phase: JobPhase::Created,
            }),
    {
        GradingJob { user_id, task_id, user_prompt, phase: JobPhase::Created }
    }

    /// Takes one step: the job after `event`, and what it asks for next.
    pub fn step(self, event: JobEvent) -> (next: (GradingJob, JobAction))
        ensures
            (next.0@, next.1@) == self@.next(event@),
    {
        let user_id = self.user_id;
        let task_id = self.task_id;
        let phase = self.phase;
        let mut job = self;
        match (phase, event) {
            (JobPhase::Created, JobEvent::Start) => {
                job.phase = JobPhase::ReadingTask;
                (job, JobAction::FetchDetails { task_id })
            },
            (JobPhase::ReadingTask, JobEvent::Details { question, additional_prompt }) => {
                let message = build_grading_prompt(
                    question.as_str(),
                    job.user_prompt.as_str(),
                    additional_prompt,
                );
                job.phase = JobPhase::Asking;
                (job, JobAction::Ask { message })
            },
            (JobPhase::ReadingTask, JobEvent::StoreFailed) => {
                job.phase = JobPhase::Finished;
                (job, JobAction::Finish(Err(PipelineError::StoreUnavailable)))
            },
            (JobPhase::Asking, JobEvent::Reply(reply)) => {
                let write = record_outcome(user_id, task_id, grade_reply(&reply));
                job.phase = JobPhase::Recording;
                (job, JobAction::Store(write))
            },
            (JobPhase::Asking, JobEvent::GraderFailed) => {
                job.phase = JobPhase::Finished;
                (job, JobAction::Finish(Err(PipelineError::UpstreamGradingFailure)))
            },
            (JobPhase::Recording, JobEvent::Stored) => {
                job.phase = JobPhase::Clearing;
                (job, JobAction::Invalidate { keys: invalidation_keys(user_id, task_id) })
            },
            (JobPhase::Recording, JobEvent::StoreFailed) => {
                job.phase = JobPhase::Finished;
                (job, JobAction::Finish(Err(PipelineError::StoreUnavailable)))
            },
            (JobPhase::Clearing, JobEvent::Invalidated) => {
                job.phase = JobPhase::Finished;
                (job, JobAction::Finish(Ok(())))
            },
            _ => {
                job.phase = JobPhase::Finished;
                (job, JobAction::Finish(Err(PipelineError::OutOfOrder)))
            },
        }
    }
}

} // verus!
