//! What the library guarantees, stated over runs of its machines against
//! the model of the world, and proved.

use crate::cache::{law_keys_are_distinct, stale_keys, CacheEntry};
use crate::dispatch::{GradingJobView, JobActionView, JobEventView, JobPhase};
use crate::error::PipelineError;
use crate::grading::{
    answer_key, attempt_limit, exact_match_outcome, outcome_write, pass_through_outcome,
    reply_outcome,
};
use crate::model::{
    get_progress, grade, progress_key, run_job, run_read, run_submission, submit, World,
};
use crate::progress::{eval_write, stored_after, ProgressStatus, ProgressView, ProgressWriteView};
use crate::score::{ONE_BITS, ZERO_BITS};
use crate::submit::{
    SubmissionView, SubmitActionView, SubmitEventView, SubmitResultView, TaskSubmissionView,
};
use crate::task::PromptReplyView;
use vstd::prelude::*;

verus! {

/// Writing the `EVAL` mark counts no attempt: the record keeps the count it
/// had, and a record that the mark creates starts at zero.
pub proof fn law_eval_mark_counts_no_attempt(
    existing: Option<ProgressView>,
    user_id: u32,
    task_id: i32,
    fresh_id: u32,
    now: i64,
)
    ensures
        stored_after(existing, eval_write(user_id, task_id), fresh_id, now) matches Some(record)
            && record.status == ProgressStatus::Eval && record.attempts == (match existing {
            Some(before) => before.attempts,
            None => 0,
        }),
{
}

/// Every write that is not the `EVAL` mark, and that the store takes, adds
/// exactly one to the attempt count of a record that exists.
pub proof fn law_terminal_write_counts_one_attempt(
    before: ProgressView,
    write: ProgressWriteView,
    fresh_id: u32,
    now: i64,
)
    requires
        write.status.is_terminal(),
        before.attempts < i32::MAX,
    ensures
        stored_after(Some(before), write, fresh_id, now) matches Some(record) && record.attempts
            == before.attempts + 1 && record.status == write.status && record.score == write.score,
{
}

/// What is graded without the grading service is scored within the range
/// of scores: a quiz or a matching task with zero or one, a lecture with
/// the one nominal score, whatever was handed in.
pub proof fn law_scores_are_in_range(stored: Seq<char>, answers: Seq<u8>)
    ensures
        exact_match_outcome(stored, answers).score.in_range(),
        pass_through_outcome().score.in_range(),
        pass_through_outcome().score.bits == ONE_BITS,
        pass_through_outcome().status == ProgressStatus::Success,
{
}

/// Handing in a lecture is recorded as passed with the nominal score, which
/// lies in the range of scores, and counts exactly one attempt.
pub proof fn law_lecture_submission(world: World, user_id: u32, task_id: i32)
    requires
        world.attempts(user_id, task_id) < i32::MAX,
    ensures
        ({
            let (after, result) = submit(world, user_id, task_id, TaskSubmissionView::Lecture);
            &&& result == SubmitResultView::Accepted
            &&& after.row(user_id, task_id) matches Some(record) && record.status
                == ProgressStatus::Success && record.score.bits == ONE_BITS
                && record.score.in_range() && record.attempts == world.attempts(user_id, task_id)
                + 1
        }),
{
    reveal_with_fuel(run_submission, 9);
}

/// Handing in the stored answers of a quiz or a matching task, in their
/// order, is recorded as passed with score one; handing in anything else is
/// recorded as failed with score zero. Either way the submission is accepted
/// and the attempt count grows by exactly one.
pub proof fn law_exact_match_submission(
    world: World,
    user_id: u32,
    task_id: i32,
    answers: Seq<u8>,
    matching: bool,
)
    requires
        world.answers.contains_key(task_id),
        world.attempts(user_id, task_id) < i32::MAX,
    ensures
        ({
            let work = if matching {
                TaskSubmissionView::Match(answers)
            } else {
                TaskSubmissionView::Quiz(answers)
            };
            let (after, result) = submit(world, user_id, task_id, work);
            let right = answer_key(world.answers[task_id]) == answers;
            &&& result == SubmitResultView::Accepted
            &&& after.row(user_id, task_id) matches Some(record) && record.status == (if right {
                ProgressStatus::Success
            } else {
                ProgressStatus::Failed
            }) && record.score.bits == (if right {
                ONE_BITS
            } else {
                ZERO_BITS
            }) && record.attempts == world.attempts(user_id, task_id) + 1
        }),
{
    reveal_with_fuel(run_submission, 9);
}

/// A submission that is waiting to be graded has counted no attempt: once a
/// free-text submission is taken, the record stands at `EVAL` with the
/// attempt count it had before.
pub proof fn law_pending_submission_counts_no_attempt(
    world: World,
    user_id: u32,
    task_id: i32,
    user_prompt: Seq<char>,
)
    ensures
        ({
            let (after, result) = submit(
                world,
                user_id,
                task_id,
                TaskSubmissionView::Prompt { user_prompt },
            );
            &&& after.row(user_id, task_id) matches Some(record) && record.status
                == ProgressStatus::Eval && record.attempts == world.attempts(user_id, task_id)
            &&& after.grader_calls == world.grader_calls
            &&& result == (if world.attempts(user_id, task_id) >= attempt_limit(
                world.limit(task_id),
            ) {
                SubmitResultView::Rejected(PipelineError::MaxAttemptsExceeded)
            } else {
                SubmitResultView::Dispatched(
                    GradingJobView { user_id, task_id, user_prompt, phase: JobPhase::Created },
                )
            })
        }),
{
    reveal_with_fuel(run_submission, 9);
}

/// Two reads in a row return the same, and change nothing in the store.
/// Where the first returns a record and the cache answers, the second does
/// not ask the store.
pub proof fn law_read_is_idempotent(world: World, user_id: u32, task_id: i32)
    ensures
        ({
            let (first_world, first) = get_progress(world, user_id, task_id);
            let (second_world, second) = get_progress(first_world, user_id, task_id);
            &&& second == first
            &&& second_world.rows == world.rows
            &&& world.cache_up && first is Ok ==> second_world.store_reads
                == first_world.store_reads
        }),
{
    reveal_with_fuel(run_read, 9);
    let (first_world, first) = get_progress(world, user_id, task_id);
    if world.cache_up && first is Ok {
        assert(first_world.snapshots.contains_key(progress_key(user_id, task_id)));
    }
}

/// While the cache does not answer, a read returns what the store holds.
pub proof fn law_cache_outage_is_invisible(world: World, user_id: u32, task_id: i32)
    requires
        !world.cache_up,
    ensures
        get_progress(world, user_id, task_id).1 == (match world.row(user_id, task_id) {
            Some(record) => Ok::<ProgressView, PipelineError>(record),
            None => Err(PipelineError::NotFound),
        }),
{
    reveal_with_fuel(run_read, 9);
}

/// A user without a record is told so, whatever the cache holds for others.
pub proof fn law_missing_record_is_not_found(world: World, user_id: u32, task_id: i32)
    requires
        !world.rows.contains_key((user_id, task_id)),
        !world.snapshots.contains_key(progress_key(user_id, task_id)),
    ensures
        get_progress(world, user_id, task_id).1 == Err::<ProgressView, PipelineError>(
            PipelineError::NotFound,
        ),
{
    reveal_with_fuel(run_read, 9);
}

/// After a submission, a read returns the record as the store now holds it,
/// whatever the cache held before: no stale snapshot survives a write.
pub proof fn law_read_after_submission_is_fresh(
    world: World,
    user_id: u32,
    task_id: i32,
    work: TaskSubmissionView,
)
    requires
        world.cache_up,
    ensures
        ({
            let (after, result) = submit(world, user_id, task_id, work);
            &&& after.rows.contains_key((user_id, task_id))
            &&& get_progress(after, user_id, task_id).1 == Ok::<ProgressView, PipelineError>(
                after.rows[(user_id, task_id)],
            )
        }),
{
    reveal_with_fuel(run_submission, 9);
    reveal_with_fuel(run_read, 9);
    let keys = stale_keys(user_id, task_id);
    assert(keys[0] == progress_key(user_id, task_id));
    assert(keys.contains(progress_key(user_id, task_id)));
}

/// After a grading job has recorded its result, a read returns that result,
/// whatever the cache held before.
pub proof fn law_read_after_grading_is_fresh(
    world: World,
    user_id: u32,
    task_id: i32,
    user_prompt: Seq<char>,
    reply: Option<PromptReplyView>,
)
    requires
        world.cache_up,
    ensures
        ({
            let job = GradingJobView { user_id, task_id, user_prompt, phase: JobPhase::Created };
            let (after, result) = grade(world, job, reply);
            result is Ok ==> {
                &&& after.rows.contains_key((user_id, task_id))
                &&& after.rows[(user_id, task_id)].status.is_terminal()
                &&& get_progress(after, user_id, task_id).1 == Ok::<ProgressView, PipelineError>(
                    after.rows[(user_id, task_id)],
                )
            }
        }),
{
    reveal_with_fuel(run_job, 9);
    reveal_with_fuel(run_read, 9);
    let keys = stale_keys(user_id, task_id);
    assert(keys[0] == progress_key(user_id, task_id));
    assert(keys.contains(progress_key(user_id, task_id)));
}

/// A grading job whose grading service fails writes nothing: the record
/// stays as it was.
pub proof fn law_failed_grading_writes_nothing(
    world: World,
    job: GradingJobView,
)
    requires
        job.phase == JobPhase::Created,
        world.details.contains_key(job.task_id),
    ensures
        ({
            let (after, result) = grade(world, job, None);
            &&& result == Err::<(), PipelineError>(PipelineError::UpstreamGradingFailure)
            &&& after.rows == world.rows
            &&& after.snapshots == world.snapshots
        }),
{
    reveal_with_fuel(run_job, 9);
}

/// The world after `count` rounds on a free-text task: in each round the
/// user hands in the next of `prompts`, and where the submission is taken
/// the grading job runs and the grading service answers the next of
/// `replies`.
pub open spec fn graded_rounds(
    world: World,
    user_id: u32,
    task_id: i32,
    prompts: Seq<Seq<char>>,
    replies: Seq<PromptReplyView>,
    count: nat,
) -> World
    decreases count,
{
    if count == 0 {
        world
    } else {
        let before = graded_rounds(world, user_id, task_id, prompts, replies, (count - 1) as nat);
        let (taken, result) = submit(
            before,
            user_id,
            task_id,
            TaskSubmissionView::Prompt { user_prompt: prompts[count - 1] },
        );
        match result {
            SubmitResultView::Dispatched(job) => grade(taken, job, Some(replies[count - 1])).0,
            _ => taken,
        }
    }
}

/// Below the attempt limit every round is graded and counts one attempt:
/// after `count` rounds the attempt count has grown by `count`, and the
/// grading service was asked `count` times.
pub proof fn law_graded_rounds_count(
    world: World,
    user_id: u32,
    task_id: i32,
    prompts: Seq<Seq<char>>,
    replies: Seq<PromptReplyView>,
    count: nat,
)
    requires
        world.details.contains_key(task_id),
        count <= prompts.len(),
        count <= replies.len(),
        world.attempts(user_id, task_id) + count <= attempt_limit(world.limit(task_id)),
    ensures
        ({
            let after = graded_rounds(world, user_id, task_id, prompts, replies, count);
            &&& after.attempts(user_id, task_id) == world.attempts(user_id, task_id) + count
            &&& after.grader_calls == world.grader_calls + count
            &&& after.limits == world.limits
            &&& after.details == world.details
            &&& count > 0 ==> (after.row(user_id, task_id) matches Some(record)
                && record.status.is_terminal())
        }),
    decreases count,
{
    if count > 0 {
        law_graded_rounds_count(
            world,
            user_id,
            task_id,
            prompts,
            replies,
            (count - 1) as nat,
        );
        let before = graded_rounds(world, user_id, task_id, prompts, replies, (count - 1) as nat);
        law_pending_submission_counts_no_attempt(before, user_id, task_id, prompts[count - 1]);
        reveal_with_fuel(run_submission, 9);
        reveal_with_fuel(run_job, 9);
    }
}

/// With a limit of N attempts, a user's first N submissions to a free-text
/// task are graded, and the next one is rejected with `MaxAttemptsExceeded`
/// without the grading service being asked.
pub proof fn law_attempt_limit(
    world: World,
    user_id: u32,
    task_id: i32,
    prompts: Seq<Seq<char>>,
    replies: Seq<PromptReplyView>,
    one_more: Seq<char>,
)
    requires
        !world.rows.contains_key((user_id, task_id)),
        world.details.contains_key(task_id),
        prompts.len() == attempt_limit(world.limit(task_id)),
        replies.len() == prompts.len(),
    ensures
        ({
            let limit = prompts.len();
            let used = graded_rounds(world, user_id, task_id, prompts, replies, limit);
            let (after, result) = submit(
                used,
                user_id,
                task_id,
                TaskSubmissionView::Prompt { user_prompt: one_more },
            );
            &&& used.attempts(user_id, task_id) == limit
            &&& used.grader_calls == world.grader_calls + limit
            &&& result == SubmitResultView::Rejected(PipelineError::MaxAttemptsExceeded)
            &&& after.grader_calls == used.grader_calls
            &&& after.attempts(user_id, task_id) == limit
        }),
{
    let limit = prompts.len();
    law_graded_rounds_count(world, user_id, task_id, prompts, replies, limit);
    let used = graded_rounds(world, user_id, task_id, prompts, replies, limit);
    law_pending_submission_counts_no_attempt(used, user_id, task_id, one_more);
}

/// Whether no snapshot in the cache is stale: every progress snapshot is the
/// record that the store holds.
pub open spec fn coherent(world: World) -> bool {
    forall|user_id: u32, task_id: i32| #[trigger]
        world.snapshots.contains_key(progress_key(user_id, task_id)) ==> world.row(
            user_id,
            task_id,
        ) == Some(world.snapshots[progress_key(user_id, task_id)])
}

/// With no stale snapshot in the cache, a read returns the record that the
/// store holds, or reports that there is none.
pub proof fn law_coherent_read_is_fresh(world: World, user_id: u32, task_id: i32)
    requires
        coherent(world),
    ensures
        get_progress(world, user_id, task_id).1 == (match world.row(user_id, task_id) {
            Some(record) => Ok::<ProgressView, PipelineError>(record),
            None => Err(PipelineError::NotFound),
        }),
{
    reveal_with_fuel(run_read, 9);
    assert(world.snapshots.contains_key(progress_key(user_id, task_id)) ==> world.row(
        user_id,
        task_id,
    ) == Some(world.snapshots[progress_key(user_id, task_id)]));
}

/// A read leaves no stale snapshot behind.
pub proof fn law_read_keeps_cache_coherent(world: World, user_id: u32, task_id: i32)
    requires
        coherent(world),
    ensures
        coherent(get_progress(world, user_id, task_id).0),
        get_progress(world, user_id, task_id).0.rows == world.rows,
{
    reveal_with_fuel(run_read, 9);
    let after = get_progress(world, user_id, task_id).0;
    assert forall|other_user: u32, other_task: i32| #[trigger]
        after.snapshots.contains_key(progress_key(other_user, other_task)) implies after.row(
        other_user,
        other_task,
    ) == Some(after.snapshots[progress_key(other_user, other_task)]) by {
        assert(world.snapshots.contains_key(progress_key(other_user, other_task)) ==> world.row(
            other_user,
            other_task,
        ) == Some(world.snapshots[progress_key(other_user, other_task)]));
        assert(world.snapshots.contains_key(progress_key(user_id, task_id)) ==> world.row(
            user_id,
            task_id,
        ) == Some(world.snapshots[progress_key(user_id, task_id)]));
        if progress_key(other_user, other_task) == progress_key(user_id, task_id) {
            law_keys_are_distinct(
                CacheEntry::Progress { user_id: other_user, task_id: other_task },
                CacheEntry::Progress { user_id, task_id },
            );
        }
    }
}

/// A write followed by the deletion of the keys that it makes stale leaves
/// no stale snapshot behind, as long as the cache answers.
pub proof fn lemma_write_then_invalidate(world: World, write: ProgressWriteView)
    requires
        coherent(world),
        world.cache_up,
    ensures
        coherent(world.store(write).0.invalidate(stale_keys(write.user_id, write.task_id))),
{
    let keys = stale_keys(write.user_id, write.task_id);
    let after = world.store(write).0.invalidate(keys);
    assert(keys[0] == progress_key(write.user_id, write.task_id));
    assert forall|other_user: u32, other_task: i32| #[trigger]
        after.snapshots.contains_key(progress_key(other_user, other_task)) implies after.row(
        other_user,
        other_task,
    ) == Some(after.snapshots[progress_key(other_user, other_task)]) by {
        assert(world.snapshots.contains_key(progress_key(other_user, other_task)));
        assert(!keys.contains(progress_key(other_user, other_task)));
        assert(!(other_user == write.user_id && other_task == write.task_id));
    }
}

/// A submission leaves no stale snapshot behind, as long as the cache
/// answers.
pub proof fn law_submission_keeps_cache_coherent(
    world: World,
    user_id: u32,
    task_id: i32,
    work: TaskSubmissionView,
)
    requires
        coherent(world),
        world.cache_up,
    ensures
        coherent(submit(world, user_id, task_id, work).0),
{
    reveal_with_fuel(run_submission, 9);
    let mark = eval_write(user_id, task_id);
    lemma_write_then_invalidate(world, mark);
    let marked = world.store(mark).0.invalidate(stale_keys(user_id, task_id));
    assert(marked.cache_up);
    match work {
        TaskSubmissionView::Quiz(answers) | TaskSubmissionView::Match(answers) => {
            if marked.answers.contains_key(task_id) {
                let write = outcome_write(
                    user_id,
                    task_id,
                    exact_match_outcome(marked.answers[task_id], answers),
                );
                lemma_write_then_invalidate(marked, write);
            }
        },
        TaskSubmissionView::Lecture => {
            let write = outcome_write(
                user_id,
                task_id,
                pass_through_outcome(),
            );
            lemma_write_then_invalidate(marked, write);
        },
        TaskSubmissionView::Prompt { .. } => {},
    }
}

/// Asking the grading service leaves the cache as it is.
proof fn lemma_asking_keeps_cache_coherent(world: World)
    requires
        coherent(world),
    ensures
        coherent(World { grader_calls: world.grader_calls + 1, ..world }),
{
    let asked = World { grader_calls: world.grader_calls + 1, ..world };
    assert forall|user_id: u32, task_id: i32| #[trigger]
        asked.snapshots.contains_key(progress_key(user_id, task_id)) implies asked.row(
        user_id,
        task_id,
    ) == Some(asked.snapshots[progress_key(user_id, task_id)]) by {
        assert(world.snapshots.contains_key(progress_key(user_id, task_id)));
    }
}

/// A grading job leaves no stale snapshot behind, as long as the cache
/// answers.
pub proof fn law_grading_keeps_cache_coherent(
    world: World,
    job: GradingJobView,
    reply: Option<PromptReplyView>,
)
    requires
        coherent(world),
        world.cache_up,
    ensures
        coherent(grade(world, job, reply).0),
{
    reveal_with_fuel(run_job, 9);
    let asked = World { grader_calls: world.grader_calls + 1, ..world };
    lemma_asking_keeps_cache_coherent(world);
    match reply {
        Some(answer) => {
            let write = outcome_write(
                job.user_id,
                job.task_id,
                reply_outcome(answer.score, answer.reply, answer.feedback),
            );
            lemma_write_then_invalidate(asked, write);
        },
        None => {},
    }
}

/// The attempt count of a record never falls, and a write changes neither
/// whose record it is nor its identifier.
pub proof fn law_attempts_never_decrease(
    before: ProgressView,
    write: ProgressWriteView,
    fresh_id: u32,
    now: i64,
)
    ensures
        stored_after(Some(before), write, fresh_id, now) matches Some(after) ==> after.attempts
            >= before.attempts && after.id == before.id && after.user_id == before.user_id
            && after.task_id == before.task_id,
{
}

/// A submission has cache keys deleted only in answer to a write that the
/// store took: never before the write, and never after one that failed.
pub proof fn law_submission_invalidates_after_writes_only(
    state: SubmissionView,
    event: SubmitEventView,
)
    ensures
        state.next(event).1 is Invalidate ==> event is Stored && state.next(event).1
            == (SubmitActionView::Invalidate {
            keys: stale_keys(state.user_id, state.task_id),
        }),
{
}

/// A grading job has cache keys deleted only in answer to a write that the
/// store took.
pub proof fn law_grading_invalidates_after_writes_only(
    state: GradingJobView,
    event: JobEventView,
)
    ensures
        state.next(event).1 is Invalidate ==> event is Stored && state.next(event).1
            == (JobActionView::Invalidate {
            keys: stale_keys(state.user_id, state.task_id),
        }),
{
}

/// A submission is handed on for grading only in answer to an attempt count
/// below the limit.
pub proof fn law_grading_is_dispatched_below_the_limit_only(
    state: SubmissionView,
    event: SubmitEventView,
)
    ensures
        state.next(event).1 matches SubmitActionView::Finish(
            SubmitResultView::Dispatched(_),
        ) ==> (event matches SubmitEventView::Attempts { attempts, max_attempts }
            && attempts < attempt_limit(max_attempts)),
{
}

/// One use of the library: handing in, grading, or reading.
pub enum Operation {
    Submit { user_id: u32, task_id: i32, work: TaskSubmissionView },
    Grade { job: GradingJobView, reply: Option<PromptReplyView> },
    Read { user_id: u32, task_id: i32 },
}

/// The world after one operation.
pub open spec fn perform(world: World, operation: Operation) -> World {
    match operation {
        Operation::Submit { user_id, task_id, work } => submit(world, user_id, task_id, work).0,
        Operation::Grade { job, reply } => grade(world, job, reply).0,
        Operation::Read { user_id, task_id } => get_progress(world, user_id, task_id).0,
    }
}

/// The world after a sequence of operations, one after the other.
pub open spec fn perform_all(world: World, operations: Seq<Operation>) -> World
    decreases operations.len(),
{
    if operations.len() == 0 {
        world
    } else {
        perform(perform_all(world, operations.drop_last()), operations.last())
    }
}

/// A cache without snapshots holds no stale one.
pub proof fn law_empty_cache_is_coherent(world: World)
    requires
        world.snapshots == Map::<Seq<char>, ProgressView>::empty(),
    ensures
        coherent(world),
{
}

/// No operation leaves a stale snapshot behind, and none stops the cache.
pub proof fn law_operation_keeps_cache_coherent(world: World, operation: Operation)
    requires
        coherent(world),
        world.cache_up,
    ensures
        coherent(perform(world, operation)),
        perform(world, operation).cache_up,
{
    match operation {
        Operation::Submit { user_id, task_id, work } => {
            law_submission_keeps_cache_coherent(world, user_id, task_id, work);
            reveal_with_fuel(run_submission, 9);
        },
        Operation::Grade { job, reply } => {
            law_grading_keeps_cache_coherent(world, job, reply);
            reveal_with_fuel(run_job, 9);
        },
        Operation::Read { user_id, task_id } => {
            law_read_keeps_cache_coherent(world, user_id, task_id);
            reveal_with_fuel(run_read, 9);
        },
    }
}

/// Whatever users do, in whatever order, a read returns the record as the
/// store holds it at that moment, or reports that there is none: starting
/// from a cache without stale snapshots, and as long as the cache answers,
/// no read is ever served a stale snapshot.
pub proof fn law_no_read_is_stale(
    world: World,
    operations: Seq<Operation>,
    user_id: u32,
    task_id: i32,
)
    requires
        coherent(world),
        world.cache_up,
    ensures
        coherent(perform_all(world, operations)),
        perform_all(world, operations).cache_up,
        get_progress(perform_all(world, operations), user_id, task_id).1 == (match perform_all(
            world,
            operations,
        ).row(user_id, task_id) {
            Some(record) => Ok::<ProgressView, PipelineError>(record),
            None => Err(PipelineError::NotFound),
        }),
    decreases operations.len(),
{
    if operations.len() > 0 {
        law_no_read_is_stale(world, operations.drop_last(), user_id, task_id);
        law_operation_keeps_cache_coherent(
            perform_all(world, operations.drop_last()),
            operations.last(),
        );
    }
    law_coherent_read_is_fresh(perform_all(world, operations), user_id, task_id);
}

} // verus!
