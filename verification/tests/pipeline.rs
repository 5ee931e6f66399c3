use std::collections::HashMap;

use neoteo_courses::cache::{invalidation_keys, CacheEntry};
use neoteo_courses::dispatch::{GradingJob, JobAction, JobEvent, JobPhase};
use neoteo_courses::error::PipelineError;
use neoteo_courses::grading::{build_grading_prompt, PROMPT_TEMPLATE};
use neoteo_courses::progress::{update_or_insert, Progress, ProgressStatus, ProgressWrite};
use neoteo_courses::read::{ProgressRead, ReadAction, ReadEvent, ReadPhase};
use neoteo_courses::score::Score;
use neoteo_courses::submit::{
    Submission, SubmitAction, SubmitEvent, SubmitPhase, SubmitResult, TaskSubmission,
};
use neoteo_courses::task::{PromptReply, QuizUserAnswer, TaskType};

/// A store, a cache and a grading service that live in memory and count how
/// often they are asked.
struct World {
    rows: HashMap<(u32, i32), Progress>,
    cache: HashMap<String, Progress>,
    cache_up: bool,
    answers: HashMap<i32, String>,
    limits: HashMap<i32, i32>,
    details: HashMap<i32, (String, Option<String>)>,
    store_reads: usize,
    store_writes: usize,
    grader_calls: usize,
    asked: Vec<String>,
    next_id: u32,
    now: i64,
}

impl World {
    fn new() -> World {
        World {
            rows: HashMap::new(),
            cache: HashMap::new(),
            cache_up: true,
            answers: HashMap::new(),
            limits: HashMap::new(),
            details: HashMap::new(),
            store_reads: 0,
            store_writes: 0,
            grader_calls: 0,
            asked: Vec::new(),
            next_id: 1,
            now: 1_000,
        }
    }

    fn store(&mut self, write: ProgressWrite) -> bool {
        let key = (write.user_id, write.task_id);
        let existing = self.rows.get(&key).cloned();
        self.now += 1;
        match update_or_insert(existing, write, self.next_id, self.now) {
            Some(record) => {
                if record.id == self.next_id {
                    self.next_id += 1;
                }
                self.rows.insert(key, record);
                self.store_writes += 1;
                true
            }
            None => false,
        }
    }

    fn invalidate(&mut self, keys: Vec<String>) {
        if self.cache_up {
            for key in keys {
                self.cache.remove(&key);
            }
        }
    }

    fn submit(&mut self, user_id: u32, task_id: i32, work: TaskSubmission) -> SubmitResult {
        let mut submission = Submission::new(user_id, task_id, work);
        let mut event = SubmitEvent::Start;
        loop {
            let (next, action) = submission.step(event);
            submission = next;
            event = match action {
                SubmitAction::Store(write) => {
                    if self.store(write) {
                        SubmitEvent::Stored
                    } else {
                        SubmitEvent::StoreFailed
                    }
                }
                SubmitAction::Invalidate { keys } => {
                    self.invalidate(keys);
                    SubmitEvent::Invalidated
                }
                SubmitAction::FetchAnswers { task_id, .. } => match self.answers.get(&task_id) {
                    Some(stored) => SubmitEvent::Answers(stored.clone()),
                    None => SubmitEvent::StoreFailed,
                },
                SubmitAction::FetchAttempts { user_id, task_id } => {
                    match self.rows.get(&(user_id, task_id)) {
                        Some(record) => SubmitEvent::Attempts {
                            attempts: record.attempts,
                            max_attempts: self.limits.get(&task_id).copied(),
                        },
                        None => SubmitEvent::StoreFailed,
                    }
                }
                SubmitAction::Finish(result) => {
                    assert_eq!(submission.phase, SubmitPhase::Finished);
                    return result;
                }
            };
        }
    }

    fn grade(&mut self, job: GradingJob, reply: Option<PromptReply>) -> Result<(), PipelineError> {
        let mut job = job;
        let mut event = JobEvent::Start;
        loop {
            let (next, action) = job.step(event);
            job = next;
            event = match action {
                JobAction::FetchDetails { task_id } => match self.details.get(&task_id) {
                    Some((question, hint)) => JobEvent::Details {
                        question: question.clone(),
                        additional_prompt: hint.clone(),
                    },
                    None => JobEvent::StoreFailed,
                },
                JobAction::Ask { message } => {
                    self.grader_calls += 1;
                    self.asked.push(message);
                    match reply.clone() {
                        Some(answer) => JobEvent::Reply(answer),
                        None => JobEvent::GraderFailed,
                    }
                }
                JobAction::Store(write) => {
                    if self.store(write) {
                        JobEvent::Stored
                    } else {
                        JobEvent::StoreFailed
                    }
                }
                JobAction::Invalidate { keys } => {
                    self.invalidate(keys);
                    JobEvent::Invalidated
                }
                JobAction::Finish(result) => {
                    assert_eq!(job.phase, JobPhase::Finished);
                    return result;
                }
            };
        }
    }

    fn get_progress(&mut self, user_id: u32, task_id: i32) -> Result<Progress, PipelineError> {
        let mut read = ProgressRead::new(user_id, task_id);
        let mut event = ReadEvent::Start;
        loop {
            let (next, action) = read.step(event);
            read = next;
            event = match action {
                ReadAction::Lookup { key } => {
                    if !self.cache_up {
                        ReadEvent::CacheMiss
                    } else {
                        match self.cache.get(&key) {
                            Some(snapshot) => ReadEvent::CacheHit(snapshot.clone()),
                            None => ReadEvent::CacheMiss,
                        }
                    }
                }
                ReadAction::Query { user_id, task_id } => {
                    self.store_reads += 1;
                    match self.rows.get(&(user_id, task_id)) {
                        Some(record) => ReadEvent::Row(record.clone()),
                        None => ReadEvent::NoRow,
                    }
                }
                ReadAction::Fill { key, record, ttl } => {
                    assert_eq!(ttl, 120);
                    if self.cache_up {
                        self.cache.insert(key, record);
                    }
                    ReadEvent::CacheFilled
                }
                ReadAction::Finish(result) => {
                    assert_eq!(read.phase, ReadPhase::Finished);
                    return result;
                }
            };
        }
    }
}

fn quiz(values: &[u8]) -> TaskSubmission {
    TaskSubmission::Quiz(QuizUserAnswer { answers: values.to_vec() })
}

fn prompt(text: &str) -> TaskSubmission {
    TaskSubmission::Prompt { user_prompt: String::from(text) }
}

fn reply(score: f32) -> PromptReply {
    PromptReply {
        score: Score::from_bits(score.to_bits()),
        reply: String::from("reply"),
        feedback: String::from("feedback"),
    }
}

fn world_with_quiz() -> World {
    let mut world = World::new();
    world.answers.insert(5, String::from("1;0;1"));
    world
}

fn world_with_prompt(limit: Option<i32>) -> World {
    let mut world = World::new();
    world.details.insert(9, (String::from("Ask for a poem"), Some(String::from("In English"))));
    if let Some(limit) = limit {
        world.limits.insert(9, limit);
    }
    world
}

#[test]
fn the_right_answers_are_recorded_as_success() {
    let mut world = world_with_quiz();
    assert_eq!(world.submit(1, 5, quiz(&[1, 0, 1])), SubmitResult::Accepted);
    let record = world.rows[&(1, 5)].clone();
    assert_eq!(record.status, ProgressStatus::Success);
    assert_eq!(f32::from_bits(record.score.to_bits()), 1.0);
    assert_eq!(record.attempts, 1);
    assert_eq!(record.submission, "{\"answers\":[1,0,1]}");
    assert_eq!(record.user_id, 1);
    assert_eq!(record.task_id, 5);
}

#[test]
fn wrong_answers_are_recorded_as_failed() {
    let mut world = world_with_quiz();
    assert_eq!(world.submit(1, 5, quiz(&[1, 1, 1])), SubmitResult::Accepted);
    let record = world.rows[&(1, 5)].clone();
    assert_eq!(record.status, ProgressStatus::Failed);
    assert_eq!(f32::from_bits(record.score.to_bits()), 0.0);
    assert_eq!(record.attempts, 1);
    assert_eq!(record.submission, "{\"answers\":[1,1,1]}");
}

#[test]
fn every_graded_quiz_submission_counts_one_attempt() {
    let mut world = world_with_quiz();
    let mut old = 0;
    for given in [&[1u8, 1, 1][..], &[1, 0], &[1, 0, 1], &[], &[1, 0, 1]] {
        assert_eq!(world.submit(1, 5, quiz(given)), SubmitResult::Accepted);
        let record = world.rows[&(1, 5)].clone();
        assert_eq!(record.attempts, old + 1);
        let right = given == [1u8, 0, 1];
        assert_eq!(
            record.status,
            if right { ProgressStatus::Success } else { ProgressStatus::Failed }
        );
        assert_eq!(f32::from_bits(record.score.to_bits()), if right { 1.0 } else { 0.0 });
        old = record.attempts;
    }
    assert_eq!(old, 5);
}

#[test]
fn a_matching_task_is_graded_like_a_quiz() {
    let mut world = world_with_quiz();
    let work = TaskSubmission::Match(QuizUserAnswer { answers: vec![1, 0, 1] });
    assert_eq!(work.task_type(), TaskType::Match);
    assert_eq!(world.submit(2, 5, work), SubmitResult::Accepted);
    assert_eq!(world.rows[&(2, 5)].status, ProgressStatus::Success);
    assert_eq!(world.rows[&(2, 5)].attempts, 1);
}

#[test]
fn a_lecture_is_passed_by_handing_in() {
    let mut world = World::new();
    assert_eq!(world.submit(1, 2, TaskSubmission::Lecture), SubmitResult::Accepted);
    let record = world.rows[&(1, 2)].clone();
    assert_eq!(record.status, ProgressStatus::Success);
    assert_eq!(f32::from_bits(record.score.to_bits()), 1.0);
    assert_eq!(record.submission, "None");
    assert_eq!(record.attempts, 1);
}

#[test]
fn a_submission_asks_in_the_order_write_delete_read_write_delete() {
    let submission = Submission::new(1, 5, quiz(&[1]));
    let (submission, action) = submission.step(SubmitEvent::Start);
    assert_eq!(action, SubmitAction::Store(ProgressWrite::eval(1, 5)));
    assert_eq!(submission.phase, SubmitPhase::Marking);
    let (submission, action) = submission.step(SubmitEvent::Stored);
    assert_eq!(action, SubmitAction::Invalidate { keys: invalidation_keys(1, 5) });
    let (submission, action) = submission.step(SubmitEvent::Invalidated);
    assert_eq!(action, SubmitAction::FetchAnswers { task_type: TaskType::Quiz, task_id: 5 });
    let (submission, action) = submission.step(SubmitEvent::Answers(String::from("1")));
    match action {
        SubmitAction::Store(write) => {
            assert_eq!(write.status, ProgressStatus::Success);
            assert_eq!(write.attempts, 1);
        }
        other => panic!("unexpected action {:?}", other),
    }
    let (submission, action) = submission.step(SubmitEvent::Stored);
    assert_eq!(action, SubmitAction::Invalidate { keys: invalidation_keys(1, 5) });
    let (submission, action) = submission.step(SubmitEvent::Invalidated);
    assert_eq!(action, SubmitAction::Finish(SubmitResult::Accepted));
    assert_eq!(submission.phase, SubmitPhase::Finished);
}

#[test]
fn the_eval_mark_is_empty_and_counts_nothing() {
    let mark = ProgressWrite::eval(4, 8);
    assert_eq!(
        mark,
        ProgressWrite {
            user_id: 4,
            task_id: 8,
            status: ProgressStatus::Eval,
            submission: String::new(),
            score: Score::zero(),
            attempts: 0,
        }
    );
}

#[test]
fn a_store_failure_ends_the_submission() {
    let submission = Submission::new(1, 5, quiz(&[1]));
    let (submission, _) = submission.step(SubmitEvent::Start);
    let (submission, action) = submission.step(SubmitEvent::StoreFailed);
    assert_eq!(
        action,
        SubmitAction::Finish(SubmitResult::Rejected(PipelineError::StoreUnavailable))
    );
    assert_eq!(submission.phase, SubmitPhase::Finished);

    let mut world = World::new();
    assert_eq!(
        world.submit(1, 5, quiz(&[1])),
        SubmitResult::Rejected(PipelineError::StoreUnavailable)
    );
    assert_eq!(world.rows[&(1, 5)].status, ProgressStatus::Eval);
}

#[test]
fn an_event_out_of_turn_ends_the_submission() {
    let submission = Submission::new(1, 5, quiz(&[1]));
    let (submission, action) = submission.step(SubmitEvent::Invalidated);
    assert_eq!(action, SubmitAction::Finish(SubmitResult::Rejected(PipelineError::OutOfOrder)));
    let (_, action) = submission.step(SubmitEvent::Start);
    assert_eq!(action, SubmitAction::Finish(SubmitResult::Rejected(PipelineError::OutOfOrder)));

    let submission = Submission::new(1, 5, TaskSubmission::Lecture);
    let (_, action) = submission.step(SubmitEvent::StoreFailed);
    assert_eq!(action, SubmitAction::Finish(SubmitResult::Rejected(PipelineError::OutOfOrder)));
}

#[test]
fn the_interim_state_leaves_the_attempts_as_they_were() {
    let mut world = world_with_prompt(Some(3));
    let result = world.submit(7, 9, prompt("first"));
    let job = match result {
        SubmitResult::Dispatched(job) => job,
        other => panic!("unexpected result {:?}", other),
    };
    assert_eq!(world.rows[&(7, 9)].status, ProgressStatus::Eval);
    assert_eq!(world.rows[&(7, 9)].attempts, 0);
    assert_eq!(world.grade(job, Some(reply(0.8))), Ok(()));
    assert_eq!(world.rows[&(7, 9)].attempts, 1);

    let result = world.submit(7, 9, prompt("second"));
    assert!(matches!(result, SubmitResult::Dispatched(_)));
    assert_eq!(world.rows[&(7, 9)].status, ProgressStatus::Eval);
    assert_eq!(world.rows[&(7, 9)].attempts, 1);
    assert_eq!(world.rows[&(7, 9)].submission, "");
    assert_eq!(f32::from_bits(world.rows[&(7, 9)].score.to_bits()), 0.0);
}

#[test]
fn the_eval_mark_keeps_the_count_of_a_record() {
    let before = Progress::new(
        3,
        1,
        5,
        ProgressStatus::Success,
        String::from("x"),
        Score::one(),
        41,
        10,
    );
    let after = update_or_insert(Some(before), ProgressWrite::eval(1, 5), 99, 20).unwrap();
    assert_eq!(
        after,
        Progress::new(3, 1, 5, ProgressStatus::Eval, String::new(), Score::zero(), 41, 20)
    );
}

#[test]
fn a_first_write_creates_the_record_with_what_it_brings() {
    let created = update_or_insert(None, ProgressWrite::eval(1, 5), 99, 20).unwrap();
    assert_eq!(
        created,
        Progress::new(99, 1, 5, ProgressStatus::Eval, String::new(), Score::zero(), 0, 20)
    );
    let write = ProgressWrite {
        user_id: 1,
        task_id: 5,
        status: ProgressStatus::Failed,
        submission: String::from("s"),
        score: Score::zero(),
        attempts: 1,
    };
    let created = update_or_insert(None, write, 7, 30).unwrap();
    assert_eq!(
        created,
        Progress::new(7, 1, 5, ProgressStatus::Failed, String::from("s"), Score::zero(), 1, 30)
    );
}

#[test]
fn a_later_write_adds_one_attempt_unless_it_is_the_mark() {
    let before =
        Progress::new(3, 1, 5, ProgressStatus::Eval, String::new(), Score::zero(), 2, 10);
    for status in [ProgressStatus::Failed, ProgressStatus::Success, ProgressStatus::MaxAttempts] {
        let write = ProgressWrite {
            user_id: 1,
            task_id: 5,
            status,
            submission: String::from("s"),
            score: Score::one(),
            attempts: 0,
        };
        let after = update_or_insert(Some(before.clone()), write, 99, 20).unwrap();
        assert_eq!(after, Progress::new(3, 1, 5, status, String::from("s"), Score::one(), 3, 20));
    }
}

#[test]
fn a_count_that_cannot_grow_refuses_the_write() {
    let full =
        Progress::new(3, 1, 5, ProgressStatus::Eval, String::new(), Score::zero(), i32::MAX, 10);
    let write = ProgressWrite {
        user_id: 1,
        task_id: 5,
        status: ProgressStatus::Success,
        submission: String::new(),
        score: Score::one(),
        attempts: 1,
    };
    assert_eq!(update_or_insert(Some(full.clone()), write, 99, 20), None);
    let marked = update_or_insert(Some(full), ProgressWrite::eval(1, 5), 99, 20).unwrap();
    assert_eq!(marked.attempts, i32::MAX);
}

#[test]
fn a_copy_of_a_record_is_the_record() {
    let record =
        Progress::new(3, 1, 5, ProgressStatus::Failed, String::from("s"), Score::one(), 2, 10);
    assert_eq!(record.duplicate(), record);
}

#[test]
fn after_three_graded_attempts_the_fourth_is_refused() {
    let mut world = world_with_prompt(Some(3));
    for round in 0..3 {
        let result = world.submit(7, 9, prompt("try"));
        let job = match result {
            SubmitResult::Dispatched(job) => job,
            other => panic!("unexpected result {:?}", other),
        };
        assert_eq!(job, GradingJob::new(7, 9, String::from("try")));
        assert_eq!(world.grade(job, Some(reply(0.2))), Ok(()));
        assert_eq!(world.rows[&(7, 9)].attempts, round + 1);
        assert_eq!(world.rows[&(7, 9)].status, ProgressStatus::Failed);
    }
    assert_eq!(world.grader_calls, 3);
    let writes = world.store_writes;
    let result = world.submit(7, 9, prompt("once more"));
    assert_eq!(result, SubmitResult::Rejected(PipelineError::MaxAttemptsExceeded));
    assert_eq!(world.grader_calls, 3);
    assert_eq!(world.rows[&(7, 9)].attempts, 3);
    assert_eq!(world.rows[&(7, 9)].status, ProgressStatus::Eval);
    assert_eq!(world.store_writes, writes + 1);
}

#[test]
fn the_limit_is_enforced_for_every_limit() {
    for limit in 0..6 {
        let mut world = world_with_prompt(Some(limit));
        for _ in 0..limit {
            match world.submit(7, 9, prompt("try")) {
                SubmitResult::Dispatched(job) => assert_eq!(world.grade(job, Some(reply(0.9))), Ok(())),
                other => panic!("unexpected result {:?}", other),
            }
        }
        assert_eq!(world.grader_calls, limit as usize);
        assert_eq!(
            world.submit(7, 9, prompt("one too many")),
            SubmitResult::Rejected(PipelineError::MaxAttemptsExceeded)
        );
        assert_eq!(world.grader_calls, limit as usize);
    }
}

#[test]
fn a_task_without_a_limit_allows_three_attempts() {
    let mut world = world_with_prompt(None);
    for _ in 0..3 {
        match world.submit(7, 9, prompt("try")) {
            SubmitResult::Dispatched(job) => assert_eq!(world.grade(job, Some(reply(0.9))), Ok(())),
            other => panic!("unexpected result {:?}", other),
        }
    }
    assert_eq!(
        world.submit(7, 9, prompt("try")),
        SubmitResult::Rejected(PipelineError::MaxAttemptsExceeded)
    );
}

#[test]
fn a_failed_grader_leaves_the_record_in_eval() {
    let mut world = world_with_prompt(Some(3));
    let job = match world.submit(7, 9, prompt("try")) {
        SubmitResult::Dispatched(job) => job,
        other => panic!("unexpected result {:?}", other),
    };
    let writes = world.store_writes;
    assert_eq!(world.grade(job, None), Err(PipelineError::UpstreamGradingFailure));
    assert_eq!(world.grader_calls, 1);
    assert_eq!(world.store_writes, writes);
    assert_eq!(world.rows[&(7, 9)].status, ProgressStatus::Eval);
    assert_eq!(world.rows[&(7, 9)].attempts, 0);
}

#[test]
fn a_grading_job_sends_the_filled_template_and_records_the_reply() {
    let mut world = world_with_prompt(Some(3));
    let job = match world.submit(7, 9, prompt("Write a poem")) {
        SubmitResult::Dispatched(job) => job,
        other => panic!("unexpected result {:?}", other),
    };
    let answer = PromptReply {
        score: Score::from_bits(0.75f32.to_bits()),
        reply: String::from("Roses"),
        feedback: String::from("Clear"),
    };
    assert_eq!(world.grade(job, Some(answer)), Ok(()));
    assert_eq!(
        world.asked,
        vec![build_grading_prompt("Ask for a poem", "Write a poem", Some(String::from("In English")))]
    );
    assert_ne!(world.asked[0], PROMPT_TEMPLATE);
    let record = world.rows[&(7, 9)].clone();
    assert_eq!(record.status, ProgressStatus::Success);
    assert_eq!(f32::from_bits(record.score.to_bits()), 0.75);
    assert_eq!(record.submission, "{\"feedback\":\"Clear\",\"reply\":\"Roses\"}");
    assert_eq!(record.attempts, 1);
}

#[test]
fn a_grading_job_asks_in_the_order_read_ask_write_delete() {
    let job = GradingJob::new(7, 9, String::from("text"));
    let (job, action) = job.step(JobEvent::Start);
    assert_eq!(action, JobAction::FetchDetails { task_id: 9 });
    let (job, action) = job.step(JobEvent::Details {
        question: String::from("Q"),
        additional_prompt: None,
    });
    assert_eq!(action, JobAction::Ask { message: build_grading_prompt("Q", "text", None) });
    let (job, action) = job.step(JobEvent::Reply(reply(0.1)));
    match action {
        JobAction::Store(write) => {
            assert_eq!(write.status, ProgressStatus::Failed);
            assert_eq!(write.user_id, 7);
            assert_eq!(write.task_id, 9);
            assert_eq!(write.attempts, 1);
        }
        other => panic!("unexpected action {:?}", other),
    }
    let (job, action) = job.step(JobEvent::Stored);
    assert_eq!(action, JobAction::Invalidate { keys: invalidation_keys(7, 9) });
    let (job, action) = job.step(JobEvent::Invalidated);
    assert_eq!(action, JobAction::Finish(Ok(())));
    assert_eq!(job.phase, JobPhase::Finished);
}

#[test]
fn a_grading_job_gives_up_on_store_failures_and_strange_events() {
    let job = GradingJob::new(7, 9, String::from("text"));
    let (job, _) = job.step(JobEvent::Start);
    let (_, action) = job.step(JobEvent::StoreFailed);
    assert_eq!(action, JobAction::Finish(Err(PipelineError::StoreUnavailable)));

    let job = GradingJob::new(7, 9, String::from("text"));
    let (_, action) = job.step(JobEvent::Stored);
    assert_eq!(action, JobAction::Finish(Err(PipelineError::OutOfOrder)));

    let mut world = World::new();
    let job = GradingJob::new(7, 9, String::from("text"));
    assert_eq!(world.grade(job, Some(reply(0.5))), Err(PipelineError::StoreUnavailable));
    assert_eq!(world.grader_calls, 0);
}

#[test]
fn two_reads_in_a_row_ask_the_store_once() {
    let mut world = world_with_quiz();
    assert_eq!(world.submit(1, 5, quiz(&[1, 0, 1])), SubmitResult::Accepted);
    assert_eq!(world.store_reads, 0);
    let first = world.get_progress(1, 5).unwrap();
    assert_eq!(world.store_reads, 1);
    let second = world.get_progress(1, 5).unwrap();
    assert_eq!(world.store_reads, 1);
    assert_eq!(first, second);
    assert_eq!(first, world.rows[&(1, 5)]);
}

#[test]
fn a_read_after_a_write_shows_the_new_state() {
    let mut world = world_with_quiz();
    assert_eq!(world.submit(1, 5, quiz(&[0, 0, 0])), SubmitResult::Accepted);
    let stale = world.get_progress(1, 5).unwrap();
    assert_eq!(stale.status, ProgressStatus::Failed);
    assert!(world.cache.contains_key("progress:1:5"));

    assert_eq!(world.submit(1, 5, quiz(&[1, 0, 1])), SubmitResult::Accepted);
    assert!(!world.cache.contains_key("progress:1:5"));
    let fresh = world.get_progress(1, 5).unwrap();
    assert_eq!(fresh.status, ProgressStatus::Success);
    assert_eq!(fresh.attempts, 2);
    assert_eq!(fresh, world.rows[&(1, 5)]);
}

#[test]
fn a_read_while_grading_shows_eval_and_then_the_result() {
    let mut world = world_with_prompt(Some(3));
    let job = match world.submit(7, 9, prompt("try")) {
        SubmitResult::Dispatched(job) => job,
        other => panic!("unexpected result {:?}", other),
    };
    assert_eq!(world.get_progress(7, 9).unwrap().status, ProgressStatus::Eval);
    assert_eq!(world.grade(job, Some(reply(0.9))), Ok(()));
    let after = world.get_progress(7, 9).unwrap();
    assert_eq!(after.status, ProgressStatus::Success);
    assert_eq!(after.attempts, 1);
}

#[test]
fn a_write_for_one_user_leaves_the_snapshots_of_others() {
    let mut world = world_with_quiz();
    assert_eq!(world.submit(1, 5, quiz(&[1, 0, 1])), SubmitResult::Accepted);
    assert_eq!(world.submit(2, 5, quiz(&[0, 0, 0])), SubmitResult::Accepted);
    world.get_progress(1, 5).unwrap();
    world.get_progress(2, 5).unwrap();
    let reads = world.store_reads;
    assert_eq!(world.submit(2, 5, quiz(&[1, 0, 1])), SubmitResult::Accepted);
    assert_eq!(world.get_progress(1, 5).unwrap().status, ProgressStatus::Success);
    assert_eq!(world.store_reads, reads);
    assert_eq!(world.get_progress(2, 5).unwrap().status, ProgressStatus::Success);
    assert_eq!(world.store_reads, reads + 1);
}

#[test]
fn a_user_without_a_record_is_not_found() {
    let mut world = World::new();
    assert_eq!(world.get_progress(1, 5), Err(PipelineError::NotFound));
    assert_eq!(world.get_progress(1, 5), Err(PipelineError::NotFound));
    assert_eq!(world.store_reads, 2);
    assert!(world.cache.is_empty());
}

#[test]
fn a_cache_that_is_down_is_not_noticed() {
    let mut world = world_with_quiz();
    world.cache_up = false;
    assert_eq!(world.submit(1, 5, quiz(&[1, 0, 1])), SubmitResult::Accepted);
    let first = world.get_progress(1, 5).unwrap();
    let second = world.get_progress(1, 5).unwrap();
    assert_eq!(first, second);
    assert_eq!(first, world.rows[&(1, 5)]);
    assert_eq!(world.store_reads, 2);
    assert!(world.cache.is_empty());
}

#[test]
fn a_read_asks_cache_then_store_then_fills_the_cache() {
    let record =
        Progress::new(3, 1, 5, ProgressStatus::Failed, String::from("s"), Score::zero(), 2, 10);
    let read = ProgressRead::new(1, 5);
    let (read, action) = read.step(ReadEvent::Start);
    assert_eq!(action, ReadAction::Lookup { key: String::from("progress:1:5") });
    let (read, action) = read.step(ReadEvent::CacheMiss);
    assert_eq!(action, ReadAction::Query { user_id: 1, task_id: 5 });
    let (read, action) = read.step(ReadEvent::Row(record.clone()));
    assert_eq!(
        action,
        ReadAction::Fill {
            key: CacheEntry::Progress { user_id: 1, task_id: 5 }.key(),
            record: record.clone(),
            ttl: 120,
        }
    );
    let (read, action) = read.step(ReadEvent::CacheFilled);
    assert_eq!(action, ReadAction::Finish(Ok(record.clone())));
    assert_eq!(read.phase, ReadPhase::Finished);

    let read = ProgressRead::new(1, 5);
    let (read, _) = read.step(ReadEvent::Start);
    let (_, action) = read.step(ReadEvent::CacheHit(record.clone()));
    assert_eq!(action, ReadAction::Finish(Ok(record)));
}

#[test]
fn a_read_reports_store_failures_and_strange_events() {
    let read = ProgressRead::new(1, 5);
    let (read, _) = read.step(ReadEvent::Start);
    let (read, _) = read.step(ReadEvent::CacheMiss);
    let (_, action) = read.step(ReadEvent::StoreFailed);
    assert_eq!(action, ReadAction::Finish(Err(PipelineError::StoreUnavailable)));

    let read = ProgressRead::new(1, 5);
    let (_, action) = read.step(ReadEvent::NoRow);
    assert_eq!(action, ReadAction::Finish(Err(PipelineError::OutOfOrder)));
}

#[test]
fn work_is_made_from_what_a_request_holds() {
    let given = QuizUserAnswer { answers: vec![1, 2] };
    assert_eq!(
        TaskSubmission::for_task(TaskType::Quiz, Some(given.clone()), None),
        Some(TaskSubmission::Quiz(given.clone()))
    );
    assert_eq!(
        TaskSubmission::for_task(TaskType::Match, Some(given.clone()), Some(String::from("x"))),
        Some(TaskSubmission::Match(given.clone()))
    );
    assert_eq!(TaskSubmission::for_task(TaskType::Quiz, None, Some(String::from("x"))), None);
    assert_eq!(TaskSubmission::for_task(TaskType::Match, None, None), None);
    assert_eq!(
        TaskSubmission::for_task(TaskType::Prompt, None, Some(String::from("x"))),
        Some(prompt("x"))
    );
    assert_eq!(TaskSubmission::for_task(TaskType::Prompt, Some(given), None), Some(prompt("")));
    assert_eq!(
        TaskSubmission::for_task(TaskType::Lecture, None, None),
        Some(TaskSubmission::Lecture)
    );
    assert_eq!(prompt("x").task_type(), TaskType::Prompt);
    assert_eq!(TaskSubmission::Lecture.task_type(), TaskType::Lecture);
    assert_eq!(quiz(&[]).task_type(), TaskType::Quiz);
}
