//! Handing in work for a task.
//!
//! The decisions of a submission are a small machine. Whoever runs it
//! performs each action on the store or the cache and hands the outcome back
//! as the next event, until the machine finishes.

use crate::cache::{invalidation_keys, stale_keys};
use crate::dispatch::{GradingJob, GradingJobView, JobPhase};
use crate::error::PipelineError;
use crate::grading::{
    attempts_exhausted, exact_match_outcome, grade_pass_through, limit_reached, outcome_write,
    pass_through_outcome, record_outcome, submit_quiz_task,
};
use crate::progress::{eval_write, ProgressWrite, ProgressWriteView};
use crate::task::{QuizUserAnswer, TaskType};
use crate::text::text_views;
use vstd::prelude::*;

verus! {

/// What a user hands in, by kind of task.
#[derive(Clone, Debug, PartialEq, Eq)]
pub enum TaskSubmission {
    /// The choices made in a quiz.
    Quiz(QuizUserAnswer),
    /// The pairs made in a matching task.
    Match(QuizUserAnswer),
    /// The text written for a free-text task.
    Prompt { user_prompt: String },
    /// A lecture, which is handed in by being read.
    Lecture,
}

/// What a user hands in, as a mathematical value.
pub enum TaskSubmissionView {
    Quiz(Seq<u8>),
    Match(Seq<u8>),
    Prompt { user_prompt: Seq<char> },
    Lecture,
}

impl View for TaskSubmission {
    type V = TaskSubmissionView;

    open spec fn view(&self) -> TaskSubmissionView {
        match self {
            TaskSubmission::Quiz(choice) => TaskSubmissionView::Quiz(choice.answers@),
            TaskSubmission::Match(choice) => TaskSubmissionView::Match(choice.answers@),
            TaskSubmission::Prompt { user_prompt } => TaskSubmissionView::Prompt {
                user_prompt: user_prompt@,
            },
            TaskSubmission::Lecture => TaskSubmissionView::Lecture,
        }
    }
}

impl TaskSubmissionView {
    /// The kind of task that the work is for.
    pub open spec fn kind(self) -> TaskType {
        match self {
            TaskSubmissionView::Quiz(_) => TaskType::Quiz,
            TaskSubmissionView::Match(_) => TaskType::Match,
            TaskSubmissionView::Prompt { .. } => TaskType::Prompt,
            TaskSubmissionView::Lecture => TaskType::Lecture,
        }
    }

    /// What is handed in for a task of kind `task_type`, given the answers
    /// and the text that the request holds. A quiz and a matching task need
    /// answers; a free-text task takes the text, or the empty text where
    /// there is none; a lecture takes nothing.
    pub open spec fn for_task(
        task_type: TaskType,
        answers: Option<Seq<u8>>,
        user_prompt: Option<Seq<char>>,
    ) -> Option<TaskSubmissionView> {
        match task_type {
            TaskType::Quiz => match answers {
                Some(given) => Some(TaskSubmissionView::Quiz(given)),
                None => None,
            },
            TaskType::Match => match answers {
                Some(given) => Some(TaskSubmissionView::Match(given)),
                None => None,
            },
            TaskType::Prompt => Some(
                TaskSubmissionView::Prompt {
                    user_prompt: match user_prompt {
                        Some(text) => text,
                        None => Seq::<char>::empty(),
                    },
                },
            ),
            TaskType::Lecture => Some(TaskSubmissionView::Lecture),
        }
    }
}

/// The view of optional work.
pub open spec fn work_view(work: Option<TaskSubmission>) -> Option<TaskSubmissionView> {
    match work {
        Some(given) => Some(given@),
        None => None,
    }
}

impl TaskSubmission {
    /// The kind of task that the work is for.
    pub fn task_type(&self) -> (kind: TaskType)
        ensures
            kind == self@.kind(),
    {
        match self {
            TaskSubmission::Quiz(_) => TaskType::Quiz,
            TaskSubmission::Match(_) => TaskType::Match,
            TaskSubmission::Prompt { .. } => TaskType::Prompt,
            TaskSubmission::Lecture => TaskType::Lecture,
        }
    }

    /// Makes the work for a task of kind `task_type` out of what a request
    /// holds: nothing where a quiz or a matching task comes without answers.
    pub fn for_task(
        task_type: TaskType,
        answers: Option<QuizUserAnswer>,
        user_prompt: Option<String>,
    ) -> (work: Option<TaskSubmission>)
        ensures
            work_view(work) == TaskSubmissionView::for_task(
                task_type,
                match answers {
                    Some(given) => Some(given.answers@),
                    None => None,
                },
                match user_prompt {
                    Some(text) => Some(text@),
                    None => None,
                },
            ),
    {
        match task_type {
            TaskType::Quiz => match answers {
                Some(given) => Some(TaskSubmission::Quiz(given)),
                None => None,
            },
            TaskType::Match => match answers {
                Some(given) => Some(TaskSubmission::Match(given)),
                None => None,
            },
            TaskType::Prompt => Some(
                TaskSubmission::Prompt {
                    user_prompt: match user_prompt {
                        Some(text) => text,
                        None => String::new(),
                    },
                },
            ),
            TaskType::Lecture => Some(TaskSubmission::Lecture),
        }
    }
}

/// How far a submission has come.
#[derive(Clone, Copy, Debug, PartialEq, Eq, Structural)]
pub enum SubmitPhase {
    Created,
    /// The `EVAL` mark is being written.
    Marking,
    /// The cache is being cleared after the `EVAL` mark.
    ClearingMark,
    /// The stored answers are being read.
    ReadingAnswers,
    /// The attempt count and its limit are being read.
    ReadingAttempts,
    /// The result is being written.
    Recording,
    /// The cache is being cleared after the result.
    Clearing,
    Finished,
}

/// What the world answered to the last action of a submission.
#[derive(Clone, Debug, PartialEq, Eq)]
pub enum SubmitEvent {
    /// The submission begins.
    Start,
    /// The store took the write.
    Stored,
    /// The store did not answer, or refused.
    StoreFailed,
    /// The cache deleted the keys, or failed to; the submission does not
    /// care.
    Invalidated,
    /// The task's stored answers.
    Answers(String),
    /// The user's attempt count on the task, and the task's own limit where
    /// it states one.
    Attempts { attempts: i32, max_attempts: Option<i32> },
}

/// How a submission ended.
#[derive(Debug, PartialEq, Eq)]
pub enum SubmitResult {
    /// Graded and recorded.
    Accepted,
    /// Taken; this job grades it apart from the request.
    Dispatched(GradingJob),
    /// Not taken.
    Rejected(PipelineError),
}

/// What a submission asks of the world next.
#[derive(Debug, PartialEq, Eq)]
pub enum SubmitAction {
    /// Write to the progress store.
    Store(ProgressWrite),
    /// Delete the keys from the cache.
    Invalidate { keys: Vec<String> },
    /// Read the stored answers of the task.
    FetchAnswers { task_type: TaskType, task_id: i32 },
    /// Read the user's attempt count on the task and the task's limit.
    FetchAttempts { user_id: u32, task_id: i32 },
    /// The submission is over, with this result.
    Finish(SubmitResult),
}

/// One submission of one user for one task.
#[derive(Clone, Debug, PartialEq, Eq)]
pub struct Submission {
    pub user_id: u32,
    pub task_id: i32,
    pub work: TaskSubmission,
    pub phase: SubmitPhase,
}

/// A submit event as a mathematical value.
pub enum SubmitEventView {
    Start,
    Stored,
    StoreFailed,
    Invalidated,
    Answers(Seq<char>),
    Attempts { attempts: i32, max_attempts: Option<i32> },
}

/// The end of a submission as a mathematical value.
pub enum SubmitResultView {
    Accepted,
    Dispatched(GradingJobView),
    Rejected(PipelineError),
}

/// A submit action as a mathematical value.
pub enum SubmitActionView {
    Store(ProgressWriteView),
    Invalidate { keys: Seq<Seq<char>> },
    FetchAnswers { task_type: TaskType, task_id: i32 },
    FetchAttempts { user_id: u32, task_id: i32 },
    Finish(SubmitResultView),
}

/// A submission as a mathematical value.
pub struct SubmissionView {
    pub user_id: u32,
    pub task_id: i32,
    pub work: TaskSubmissionView,
    pub phase: SubmitPhase,
}

impl View for SubmitEvent {
    type V = SubmitEventView;

    open spec fn view(&self) -> SubmitEventView {
        match self {
            SubmitEvent::Start => SubmitEventView::Start,
            SubmitEvent::Stored => SubmitEventView::Stored,
            SubmitEvent::StoreFailed => SubmitEventView::StoreFailed,
            SubmitEvent::Invalidated => SubmitEventView::Invalidated,
            SubmitEvent::Answers(stored) => SubmitEventView::Answers(stored@),
            SubmitEvent::Attempts { attempts, max_attempts } => SubmitEventView::Attempts {
                attempts: *attempts,
                max_attempts: *max_attempts,
            },
        }
    }
}

impl View for SubmitResult {
    type V = SubmitResultView;

    open spec fn view(&self) -> SubmitResultView {
        match self {
            SubmitResult::Accepted => SubmitResultView::Accepted,
            SubmitResult::Dispatched(job) => SubmitResultView::Dispatched(job@),
            SubmitResult::Rejected(error) => SubmitResultView::Rejected(*error),
        }
    }
}

impl View for SubmitAction {
    type V = SubmitActionView;

    open spec fn view(&self) -> SubmitActionView {
        match self {
            SubmitAction::Store(write) => SubmitActionView::Store(write@),
            SubmitAction::Invalidate { keys } => SubmitActionView::Invalidate {
                keys: text_views(keys@),
            },
            SubmitAction::FetchAnswers { task_type, task_id } => SubmitActionView::FetchAnswers {
                task_type: *task_type,
                task_id: *task_id,
            },
            SubmitAction::FetchAttempts { user_id, task_id } => SubmitActionView::FetchAttempts {
                user_id: *user_id,
                task_id: *task_id,
            },
            SubmitAction::Finish(result) => SubmitActionView::Finish(result@),
        }
    }
}

impl View for Submission {
    type V = SubmissionView;

    open spec fn view(&self) -> SubmissionView {
        SubmissionView {
            user_id: self.user_id,
            task_id: self.task_id,
            work: self.work@,
            phase: self.phase,
        }
    }
}

impl SubmissionView {
    /// The submission in another phase.
    pub open spec fn at(self, phase: SubmitPhase) -> SubmissionView {
        SubmissionView { phase, ..self }
    }

    /// The submission, over with this result.
    pub open spec fn ended(self, result: SubmitResultView) -> (SubmissionView, SubmitActionView) {
        (self.at(SubmitPhase::Finished), SubmitActionView::Finish(result))
    }

    /// The keys that go stale with a write of this submission.
    pub open spec fn keys(self) -> Seq<Seq<char>> {
        stale_keys(self.user_id, self.task_id)
    }

    /// What a submission does once its `EVAL` mark stands and the cache is
    /// cleared: it reads the stored answers for a quiz or a matching task,
    /// reads the attempt count for a free-text task, and records a lecture
    /// as passed at once.
    pub open spec fn after_mark(self) -> (SubmissionView, SubmitActionView) {
        match self.work {
            TaskSubmissionView::Quiz(_) => (
                self.at(SubmitPhase::ReadingAnswers),
                SubmitActionView::FetchAnswers { task_type: TaskType::Quiz, task_id: self.task_id },
            ),
            TaskSubmissionView::Match(_) => (
                self.at(SubmitPhase::ReadingAnswers),
                SubmitActionView::FetchAnswers {
                    task_type: TaskType::Match,
                    task_id: self.task_id,
                },
            ),
            TaskSubmissionView::Prompt { .. } => (
                self.at(SubmitPhase::ReadingAttempts),
                SubmitActionView::FetchAttempts { user_id: self.user_id, task_id: self.task_id },
            ),
            TaskSubmissionView::Lecture => (
                self.at(SubmitPhase::Recording),
                SubmitActionView::Store(
                    outcome_write(self.user_id, self.task_id, pass_through_outcome()),
                ),
            ),
        }
    }

    /// The step that a submission takes on an event: its next state and
    /// what it asks for.
    ///
    /// A submission first writes the `EVAL` mark, which counts no attempt,
    /// and has the stale cache keys deleted. A quiz or a matching task is
    /// then graded against the stored answers and a lecture is passed; the
    /// result is written, the stale keys are deleted once more, and the
    /// submission ends as accepted. A free-text task whose attempt limit is
    /// reached ends with `MaxAttemptsExceeded`, nothing more being written;
    /// one below its limit ends with a grading job to run apart. Every
    /// deletion follows a write that the store took. A store that fails ends
    /// the submission with `StoreUnavailable`, an event that the phase does
    /// not expect with `OutOfOrder`.
    pub open spec fn next(self, event: SubmitEventView) -> (SubmissionView, SubmitActionView) {
        match (self.phase, event) {
            (SubmitPhase::Created, SubmitEventView::Start) => (
                self.at(SubmitPhase::Marking),
                SubmitActionView::Store(eval_write(self.user_id, self.task_id)),
            ),
            (SubmitPhase::Marking, SubmitEventView::Stored) => (
                self.at(SubmitPhase::ClearingMark),
                SubmitActionView::Invalidate { keys: self.keys() },
            ),
            (SubmitPhase::ClearingMark, SubmitEventView::Invalidated) => self.after_mark(),
            (SubmitPhase::ReadingAnswers, SubmitEventView::Answers(stored)) => match self.work {
                TaskSubmissionView::Quiz(answers) | TaskSubmissionView::Match(answers) => (
                    self.at(SubmitPhase::Recording),
                    SubmitActionView::Store(
                        outcome_write(
                            self.user_id,
                            self.task_id,
                            exact_match_outcome(stored, answers),
                        ),
                    ),
                ),
                _ => self.ended(SubmitResultView::Rejected(PipelineError::OutOfOrder)),
            },
            (
                SubmitPhase::ReadingAttempts,
                SubmitEventView::Attempts { attempts, max_attempts },
            ) => match self.work {
                TaskSubmissionView::Prompt { user_prompt } => if attempts_exhausted(
                    attempts,
                    max_attempts,
                ) {
                    self.ended(SubmitResultView::Rejected(PipelineError::MaxAttemptsExceeded))
                } else {
                    self.ended(
                        SubmitResultView::Dispatched(
                            GradingJobView {
                                user_id: self.user_id,
                                task_id: self.task_id,
                                user_prompt,
                                phase: JobPhase::Created,
                            },
                        ),
                    )
                },
                _ => self.ended(SubmitResultView::Rejected(PipelineError::OutOfOrder)),
            },
            (SubmitPhase::Recording, SubmitEventView::Stored) => (
                self.at(SubmitPhase::Clearing),
                SubmitActionView::Invalidate { keys: self.keys() },
            ),
            (SubmitPhase::Clearing, SubmitEventView::Invalidated) => self.ended(
                SubmitResultView::Accepted,
            ),
            (SubmitPhase::Marking, SubmitEventView::StoreFailed)
            | (SubmitPhase::ReadingAnswers, SubmitEventView::StoreFailed)
            | (SubmitPhase::ReadingAttempts, SubmitEventView::StoreFailed)
            | (SubmitPhase::Recording, SubmitEventView::StoreFailed) => self.ended(
                SubmitResultView::Rejected(PipelineError::StoreUnavailable),
            ),
            _ => self.ended(SubmitResultView::Rejected(PipelineError::OutOfOrder)),
        }
    }
}

impl Submission {
    /// The submission of `work` by `user_id` for `task_id`, not yet begun.
    pub fn new(user_id: u32, task_id: i32, work: TaskSubmission) -> (submission: Submission)
        ensures
            submission@ == (SubmissionView {
                user_id,
                task_id,
                work: work@,
                phase: SubmitPhase::Created,
            }),
    {
        Submission { user_id, task_id, work, phase: SubmitPhase::Created }
    }

    /// Takes one step: the submission after `event`, and what it asks for
    /// next.
    pub fn step(self, event: SubmitEvent) -> (next: (Submission, SubmitAction))
        ensures
            (next.0@, next.1@) == self@.next(event@),
    {
        let user_id = self.user_id;
        let task_id = self.task_id;
        let phase = self.phase;
        let mut submission = self;
        match (phase, event) {
            (SubmitPhase::Created, SubmitEvent::Start) => {
                submission.phase = SubmitPhase::Marking;
                (submission, SubmitAction::Store(ProgressWrite::eval(user_id, task_id)))
            },
            (SubmitPhase::Marking, SubmitEvent::Stored) => {
                submission.phase = SubmitPhase::ClearingMark;
                (submission, SubmitAction::Invalidate { keys: invalidation_keys(user_id, task_id) })
            },
            (SubmitPhase::ClearingMark, SubmitEvent::Invalidated) => {
                let action = match &submission.work {
                    TaskSubmission::Quiz(_) => {
                        submission.phase = SubmitPhase::ReadingAnswers;
                        SubmitAction::FetchAnswers { task_type: TaskType::Quiz, task_id }
                    },
                    TaskSubmission::Match(_) => {
                        submission.phase = SubmitPhase::ReadingAnswers;
                        SubmitAction::FetchAnswers { task_type: TaskType::Match, task_id }
                    },
                    TaskSubmission::Prompt { .. } => {
                        submission.phase = SubmitPhase::ReadingAttempts;
                        SubmitAction::FetchAttempts { user_id, task_id }
                    },
                    TaskSubmission::Lecture => {
                        submission.phase = SubmitPhase::Recording;
                        SubmitAction::Store(
                            record_outcome(user_id, task_id, grade_pass_through()),
                        )
                    },
                };
                (submission, action)
            },
            (SubmitPhase::ReadingAnswers, SubmitEvent::Answers(stored)) => {
                let action = match &submission.work {
                    TaskSubmission::Quiz(answers) | TaskSubmission::Match(answers) => {
                        let write = submit_quiz_task(user_id, task_id, stored.as_str(), answers);
                        submission.phase = SubmitPhase::Recording;
                        SubmitAction::Store(write)
                    },
                    _ => {
                        submission.phase = SubmitPhase::Finished;
                        SubmitAction::Finish(SubmitResult::Rejected(PipelineError::OutOfOrder))
                    },
                };
                (submission, action)
            },
            (SubmitPhase::ReadingAttempts, SubmitEvent::Attempts { attempts, max_attempts }) => {
                let result = match &submission.work {
                    TaskSubmission::Prompt { user_prompt } => {
                        if limit_reached(attempts, max_attempts) {
                            SubmitResult::Rejected(PipelineError::MaxAttemptsExceeded)
                        } else {
                            SubmitResult::Dispatched(
                                GradingJob::new(user_id, task_id, user_prompt.clone()),
                            )
                        }
                    },
                    _ => SubmitResult::Rejected(PipelineError::OutOfOrder),
                };
                submission.phase = SubmitPhase::Finished;
                (submission, SubmitAction::Finish(result))
            },
            (SubmitPhase::Recording, SubmitEvent::Stored) => {
                submission.phase = SubmitPhase::Clearing;
                (submission, SubmitAction::Invalidate { keys: invalidation_keys(user_id, task_id) })
            },
            (SubmitPhase::Clearing, SubmitEvent::Invalidated) => {
                submission.phase = SubmitPhase::Finished;
                (submission, SubmitAction::Finish(SubmitResult::Accepted))
            },
            (SubmitPhase::Marking, SubmitEvent::StoreFailed)
            | (SubmitPhase::ReadingAnswers, SubmitEvent::StoreFailed)
            | (SubmitPhase::ReadingAttempts, SubmitEvent::StoreFailed)
            | (SubmitPhase::Recording, SubmitEvent::StoreFailed) => {
                submission.phase = SubmitPhase::Finished;
                (
                    submission,
                    SubmitAction::Finish(SubmitResult::Rejected(PipelineError::StoreUnavailable)),
                )
            },
            _ => {
                submission.phase = SubmitPhase::Finished;
                (submission, SubmitAction::Finish(SubmitResult::Rejected(PipelineError::OutOfOrder)))
            },
        }
    }
}

} // verus!
