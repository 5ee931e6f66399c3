//! The progress record of one user on one task, and the rule by which a
//! write changes it.

use crate::score::Score;
use crate::text::{all_ascii, ascii_lowercase, lowercase, to_lowercase};
use vstd::prelude::*;

verus! {

/// Where a user's work on a task stands.
#[derive(Clone, Copy, Debug, PartialEq, Eq, Structural)]
pub enum ProgressStatus {
    /// Handed in and being graded.
    Eval,
    /// Graded and not passed.
    Failed,
    /// Graded and passed.
    Success,
    /// No attempt is left.
    MaxAttempts,
}

impl ProgressStatus {
    /// The name under which the status is stored and sent.
    pub open spec fn name(self) -> Seq<char> {
        match self {
            ProgressStatus::Eval => "EVAL"@,
            ProgressStatus::Failed => "FAILED"@,
            ProgressStatus::Success => "SUCCESS"@,
            ProgressStatus::MaxAttempts => "MAX_ATTEMPTS"@,
        }
    }

    /// The status that a word in lower case names, if it names one.
    pub open spec fn named(word: Seq<char>) -> Option<ProgressStatus> {
        if word == "eval"@ {
            Some(ProgressStatus::Eval)
        } else if word == "failed"@ {
            Some(ProgressStatus::Failed)
        } else if word == "success"@ {
            Some(ProgressStatus::Success)
        } else if word == "max_attempts"@ {
            Some(ProgressStatus::MaxAttempts)
        } else {
            None
        }
    }

    /// Whether the status ends the grading of a submission.
    pub open spec fn is_terminal(self) -> bool {
        self != ProgressStatus::Eval
    }

    /// The name of the status.
    pub fn to_string(&self) -> (name: String)
        ensures
            name@ == self.name(),
    {
        match self {
            ProgressStatus::Eval => String::from_str("EVAL"),
            ProgressStatus::Failed => String::from_str("FAILED"),
            ProgressStatus::Success => String::from_str("SUCCESS"),
            ProgressStatus::MaxAttempts => String::from_str("MAX_ATTEMPTS"),
        }
    }

    /// The status that `word`, taken as it stands, names.
    pub fn from_lowercase(word: &String) -> (status: Option<ProgressStatus>)
        ensures
            status == Self::named(word@),
    {
        if *word == String::from_str("eval") {
            Some(ProgressStatus::Eval)
        } else if *word == String::from_str("failed") {
            Some(ProgressStatus::Failed)
        } else if *word == String::from_str("success") {
            Some(ProgressStatus::Success)
        } else if *word == String::from_str("max_attempts") {
            Some(ProgressStatus::MaxAttempts)
        } else {
            None
        }
    }

    /// The status that `value` names in any mix of upper and lower case.
    pub fn from(value: String) -> (status: ProgressStatus)
        requires
            Self::named(lowercase(value@)) is Some,
        ensures
            Some(status) == Self::named(lowercase(value@)),
            all_ascii(value@) ==> Some(status) == Self::named(ascii_lowercase(value@)),
    {
        let lower = to_lowercase(value.as_str());
        match Self::from_lowercase(&lower) {
            Some(status) => status,
            None => unreached(),
        }
    }

    /// The status that `value` names in any mix of upper and lower case, if
    /// it names one.
    pub fn parse(value: String) -> (status: Option<ProgressStatus>)
        ensures
            status == Self::named(lowercase(value@)),
            all_ascii(value@) ==> status == Self::named(ascii_lowercase(value@)),
    {
        let lower = to_lowercase(value.as_str());
        if Self::from_lowercase(&lower).is_some() {
            Some(Self::from(value))
        } else {
            None
        }
    }

    /// Whether the status ends the grading of a submission.
    pub fn ends_grading(&self) -> (terminal: bool)
        ensures
            terminal == self.is_terminal(),
    {
        !matches!(self, ProgressStatus::Eval)
    }
}

/// The name of every status is read back as that status, in capital letters
/// as it is written and in small letters alike.
pub proof fn law_status_names_are_read_back(status: ProgressStatus)
    ensures
        all_ascii(status.name()),
        ProgressStatus::named(ascii_lowercase(status.name())) == Some(status),
        ProgressStatus::named(ascii_lowercase(ascii_lowercase(status.name()))) == Some(status),
{
    reveal_strlit("EVAL");
    reveal_strlit("FAILED");
    reveal_strlit("SUCCESS");
    reveal_strlit("MAX_ATTEMPTS");
    reveal_strlit("eval");
    reveal_strlit("failed");
    reveal_strlit("success");
    reveal_strlit("max_attempts");
    let lower = ascii_lowercase(status.name());
    match status {
        ProgressStatus::Eval => {
            assert(lower =~= "eval"@);
        },
        ProgressStatus::Failed => {
            assert(lower =~= "failed"@);
        },
        ProgressStatus::Success => {
            assert(lower =~= "success"@);
        },
        ProgressStatus::MaxAttempts => {
            assert(lower =~= "max_attempts"@);
        },
    }
    assert(ascii_lowercase(lower) =~= lower);
    assert("eval"@.len() != "failed"@.len());
    assert("eval"@.len() != "success"@.len());
    assert("eval"@.len() != "max_attempts"@.len());
    assert("failed"@.len() != "success"@.len());
    assert("failed"@.len() != "max_attempts"@.len());
    assert("success"@.len() != "max_attempts"@.len());
}

/// The stored record of one user's progress on one task.
#[derive(Clone, Debug, PartialEq, Eq)]
pub struct Progress {
    pub id: u32,
    pub user_id: u32,
    pub task_id: i32,
    pub status: ProgressStatus,
    /// What was handed in or what the grader answered, as stored text.
    pub submission: String,
    pub score: Score,
    /// How many graded submissions the record has seen.
    pub attempts: i32,
    /// Time of the last write, in microseconds since the Unix epoch.
    pub updated_at: i64,
}

/// A progress record as a mathematical value.
pub struct ProgressView {
    pub id: u32,
    pub user_id: u32,
    pub task_id: i32,
    pub status: ProgressStatus,
    pub submission: Seq<char>,
    pub score: Score,
    pub attempts: i32,
    pub updated_at: i64,
}

impl View for Progress {
    type V = ProgressView;

    open spec fn view(&self) -> ProgressView {
        ProgressView {
            id: self.id,
            user_id: self.user_id,
            task_id: self.task_id,
            status: self.status,
            submission: self.submission@,
            score: self.score,
            attempts: self.attempts,
            updated_at: self.updated_at,
        }
    }
}

impl Progress {
    /// A record with the given fields.
    pub fn new(
        id: u32,
        user_id: u32,
        task_id: i32,
        status: ProgressStatus,
        submission: String,
        score: Score,
        attempts: i32,
        updated_at: i64,
    ) -> (record: Progress)
        ensures
            record@ == (ProgressView {
                id,
                user_id,
                task_id,
                status,
                submission: submission@,
                score,
                attempts,
                updated_at,
            }),
    {
        Progress { id, user_id, task_id, status, submission, score, attempts, updated_at }
    }

    /// A copy of the record.
    pub fn duplicate(&self) -> (copy: Progress)
        ensures
            copy@ == self@,
    {
        Progress {
            id: self.id,
            user_id: self.user_id,
            task_id: self.task_id,
            status: self.status,
            submission: self.submission.clone(),
            score: self.score,
            attempts: self.attempts,
            updated_at: self.updated_at,
        }
    }
}

/// One write to the progress store: what a submission or a grader asks the
/// store to record for a user and a task.
#[derive(Clone, Debug, PartialEq, Eq)]
pub struct ProgressWrite {
    pub user_id: u32,
    pub task_id: i32,
    pub status: ProgressStatus,
    pub submission: String,
    pub score: Score,
    /// The attempt count of the record if this write creates it.
    pub attempts: i32,
}

/// A write as a mathematical value.
pub struct ProgressWriteView {
    pub user_id: u32,
    pub task_id: i32,
    pub status: ProgressStatus,
    pub submission: Seq<char>,
    pub score: Score,
    pub attempts: i32,
}

impl View for ProgressWrite {
    type V = ProgressWriteView;

    open spec fn view(&self) -> ProgressWriteView {
        ProgressWriteView {
            user_id: self.user_id,
            task_id: self.task_id,
            status: self.status,
            submission: self.submission@,
            score: self.score,
            attempts: self.attempts,
        }
    }
}

/// The write that marks a submission as being graded: status `EVAL`, no
/// text, score zero, and no attempt counted.
pub open spec fn eval_write(user_id: u32, task_id: i32) -> ProgressWriteView {
    ProgressWriteView {
        user_id,
        task_id,
        status: ProgressStatus::Eval,
        submission: Seq::<char>::empty(),
        score: Score { bits: crate::score::ZERO_BITS },
        attempts: 0,
    }
}

/// The record that the store holds for a user and a task after `write`,
/// given the record it held before, if any.
///
/// A first write creates the record with the attempt count it brings. A
/// later write replaces status, text and score; it leaves the attempt count
/// as it is when it writes `EVAL`, and adds one to it otherwise. A count that
/// cannot grow any further makes the store refuse the write.
pub open spec fn stored_after(
    existing: Option<ProgressView>,
    write: ProgressWriteView,
    fresh_id: u32,
    now: i64,
) -> Option<ProgressView> {
    match existing {
        None => Some(
            ProgressView {
                id: fresh_id,
                user_id: write.user_id,
                task_id: write.task_id,
                status: write.status,
                submission: write.submission,
                score: write.score,
                attempts: write.attempts,
                updated_at: now,
            },
        ),
        Some(row) => if write.status == ProgressStatus::Eval {
            Some(
                ProgressView {
                    status: write.status,
                    submission: write.submission,
                    score: write.score,
                    updated_at: now,
                    ..row
                },
            )
        } else if row.attempts < i32::MAX {
            Some(
                ProgressView {
                    status: write.status,
                    submission: write.submission,
                    score: write.score,
                    attempts: (row.attempts + 1) as i32,
                    updated_at: now,
                    ..row
                },
            )
        } else {
            None
        },
    }
}

/// The view of an optional record.
pub open spec fn row_view(row: Option<Progress>) -> Option<ProgressView> {
    match row {
        Some(record) => Some(record@),
        None => None,
    }
}

impl ProgressWrite {
    /// The write that marks the work of `user_id` on `task_id` as being
    /// graded.
    pub fn eval(user_id: u32, task_id: i32) -> (write: ProgressWrite)
        ensures
            write@ == eval_write(user_id, task_id),
    {
        ProgressWrite {
            user_id,
            task_id,
            status: ProgressStatus::Eval,
            submission: String::new(),
            score: Score::zero(),
            attempts: 0,
        }
    }
}

/// Applies `write` to the record that the store holds for its user and
/// task: the record afterwards, or nothing where the store refuses the write.
/// `fresh_id` is the identifier of a record that the write creates, `now` the
/// time of the write.
pub fn update_or_insert(
    existing: Option<Progress>,
    write: ProgressWrite,
    fresh_id: u32,
    now: i64,
) -> (row: Option<Progress>)
    requires
        existing matches Some(old_row) ==> old_row.user_id == write.user_id && old_row.task_id
            == write.task_id,
    ensures
        row_view(row) == stored_after(row_view(existing), write@, fresh_id, now),
{
    match existing {
        None => Some(
            Progress {
                id: fresh_id,
                user_id: write.user_id,
                task_id: write.task_id,
                status: write.status,
                submission: write.submission,
                score: write.score,
                attempts: write.attempts,
                updated_at: now,
            },
        ),
        Some(old_row) => {
            let attempts: i32 = if write.status == ProgressStatus::Eval {
                old_row.attempts
            } else if old_row.attempts < i32::MAX {
                old_row.attempts + 1
            } else {
                return None;
            };
            Some(
                Progress {
                    id: old_row.id,
                    user_id: old_row.user_id,
                    task_id: old_row.task_id,
                    status: write.status,
                    submission: write.submission,
                    score: write.score,
                    attempts,
                    updated_at: now,
                },
            )
        },
    }
}

} // verus!
