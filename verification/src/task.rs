//! Tasks: their kinds, the shapes in which they are listed and shown, and
//! what a user hands in for them.

use crate::progress::ProgressStatus;
use crate::score::Score;
use crate::text::{
    all_ascii, ascii_lowercase, lowercase, split, split_on, text_views, to_lowercase,
};
use vstd::prelude::*;

verus! {

/// The kind of a task, which decides how a submission is graded.
#[derive(Clone, Copy, Debug, PartialEq, Eq, Structural)]
pub enum TaskType {
    Quiz,
    Lecture,
    Prompt,
    Match,
}

impl TaskType {
    /// The name under which the kind is stored and sent.
    pub open spec fn name(self) -> Seq<char> {
        match self {
            TaskType::Quiz => "QUIZ"@,
            TaskType::Lecture => "LECTURE"@,
            TaskType::Prompt => "PROMPT"@,
            TaskType::Match => "MATCH"@,
        }
    }

    /// The kind that a word in lower case names, if it names one.
    pub open spec fn named(word: Seq<char>) -> Option<TaskType> {
        if word == "quiz"@ {
            Some(TaskType::Quiz)
        } else if word == "lecture"@ {
            Some(TaskType::Lecture)
        } else if word == "prompt"@ {
            Some(TaskType::Prompt)
        } else if word == "match"@ {
            Some(TaskType::Match)
        } else {
            None
        }
    }

    /// The name of the kind.
    pub fn to_string(&self) -> (name: String)
        ensures
            name@ == self.name(),
    {
        match self {
            TaskType::Quiz => String::from_str("QUIZ"),
            TaskType::Lecture => String::from_str("LECTURE"),
            TaskType::Prompt => String::from_str("PROMPT"),
            TaskType::Match => String::from_str("MATCH"),
        }
    }

    /// The kind that `word`, taken as it stands, names.
    pub fn from_lowercase(word: &String) -> (kind: Option<TaskType>)
        ensures
            kind == Self::named(word@),
    {
        if *word == String::from_str("quiz") {
            Some(TaskType::Quiz)
        } else if *word == String::from_str("lecture") {
            Some(TaskType::Lecture)
        } else if *word == String::from_str("prompt") {
            Some(TaskType::Prompt)
        } else if *word == String::from_str("match") {
            Some(TaskType::Match)
        } else {
            None
        }
    }

    /// The kind that `value` names in any mix of upper and lower case.
    pub fn from(value: String) -> (kind: TaskType)
        requires
            Self::named(lowercase(value@)) is Some,
        ensures
            Some(kind) == Self::named(lowercase(value@)),
            all_ascii(value@) ==> Some(kind) == Self::named(ascii_lowercase(value@)),
    {
        let lower = to_lowercase(value.as_str());
        match Self::from_lowercase(&lower) {
            Some(kind) => kind,
            None => unreached(),
        }
    }

    /// The kind that `value` names in any mix of upper and lower case, if it
    /// names one.
    pub fn parse(value: String) -> (kind: Option<TaskType>)
        ensures
            kind == Self::named(lowercase(value@)),
            all_ascii(value@) ==> kind == Self::named(ascii_lowercase(value@)),
    {
        let lower = to_lowercase(value.as_str());
        if Self::from_lowercase(&lower).is_some() {
            Some(Self::from(value))
        } else {
            None
        }
    }
}

/// The name of every kind of task is read back as that kind, in capital
/// letters as it is written and in small letters alike.
pub proof fn law_task_type_names_are_read_back(kind: TaskType)
    ensures
        all_ascii(kind.name()),
        TaskType::named(ascii_lowercase(kind.name())) == Some(kind),
        TaskType::named(ascii_lowercase(ascii_lowercase(kind.name()))) == Some(kind),
{
    reveal_strlit("QUIZ");
    reveal_strlit("LECTURE");
    reveal_strlit("PROMPT");
    reveal_strlit("MATCH");
    reveal_strlit("quiz");
    reveal_strlit("lecture");
    reveal_strlit("prompt");
    reveal_strlit("match");
    let lower = ascii_lowercase(kind.name());
    match kind {
        TaskType::Quiz => {
            assert(lower =~= "quiz"@);
        },
        TaskType::Lecture => {
            assert(lower =~= "lecture"@);
        },
        TaskType::Prompt => {
            assert(lower =~= "prompt"@);
        },
        TaskType::Match => {
            assert(lower =~= "match"@);
        },
    }
    assert(ascii_lowercase(lower) =~= lower);
    assert("quiz"@.len() != "lecture"@.len());
    assert("quiz"@.len() != "prompt"@.len());
    assert("quiz"@.len() != "match"@.len());
    assert("lecture"@.len() != "prompt"@.len());
    assert("lecture"@.len() != "match"@.len());
    assert("prompt"@.len() != "match"@.len());
}

/// A task as it stands in the list of a module's tasks.
#[derive(Clone, Debug, PartialEq, Eq)]
pub struct TaskShortInfo {
    pub id: i32,
    pub module_id: i32,
    pub title: String,
    pub task_type: TaskType,
    /// The reader's progress on the task, where it was asked for and exists.
    pub status: Option<ProgressStatus>,
}

impl TaskShortInfo {
    /// A list entry with the given fields.
    pub fn new(
        id: i32,
        module_id: i32,
        title: String,
        task_type: TaskType,
        status: Option<ProgressStatus>,
    ) -> (info: TaskShortInfo)
        ensures
            info.id == id,
            info.module_id == module_id,
            info.title == title,
            info.task_type == task_type,
            info.status == status,
    {
        TaskShortInfo { id, module_id, title, task_type, status }
    }
}

/// What a task shows to the user, by kind. Lists of choices are stored as one
/// text with `;` between the items.
#[derive(Clone, Debug, PartialEq, Eq)]
pub enum TaskContent {
    Quiz { question: String, possible_answers: Vec<String>, is_multiple: bool },
    Lecture { text: String },
    Match { question: String, left_items: Vec<String>, right_items: Vec<String> },
    Prompt { question: String, max_attempts: i32 },
}

impl TaskContent {
    /// The kind of task that the content belongs to.
    pub open spec fn kind(self) -> TaskType {
        match self {
            TaskContent::Quiz { .. } => TaskType::Quiz,
            TaskContent::Lecture { .. } => TaskType::Lecture,
            TaskContent::Match { .. } => TaskType::Match,
            TaskContent::Prompt { .. } => TaskType::Prompt,
        }
    }

    /// The content of a quiz whose choices are stored as `possible_answers`.
    pub fn quiz(question: String, possible_answers: &str, is_multiple: bool) -> (content:
        TaskContent)
        ensures
            content matches TaskContent::Quiz { question: q, possible_answers: items, is_multiple: m }
                && q == question && m == is_multiple && text_views(items@) == split_on(
                possible_answers@,
                ';',
            ),
    {
        TaskContent::Quiz { question, possible_answers: split(possible_answers, ';'), is_multiple }
    }

    /// The content of a lecture.
    pub fn lecture(text: String) -> (content: TaskContent)
        ensures
            content matches TaskContent::Lecture { text: t } && t == text,
    {
        TaskContent::Lecture { text }
    }

    /// The content of a matching task whose two columns are stored as
    /// `left_items` and `right_items`.
    pub fn matching(question: String, left_items: &str, right_items: &str) -> (content:
        TaskContent)
        ensures
            content matches TaskContent::Match { question: q, left_items: left, right_items: right }
                && q == question && text_views(left@) == split_on(left_items@, ';')
                && text_views(right@) == split_on(right_items@, ';'),
    {
        TaskContent::Match {
            question,
            left_items: split(left_items, ';'),
            right_items: split(right_items, ';'),
        }
    }

    /// The content of a free-text task.
    pub fn prompt(question: String, max_attempts: i32) -> (content: TaskContent)
        ensures
            content matches TaskContent::Prompt { question: q, max_attempts: m } && q == question
                && m == max_attempts,
    {
        TaskContent::Prompt { question, max_attempts }
    }

    /// The kind of task that the content belongs to.
    pub fn task_type(&self) -> (kind: TaskType)
        ensures
            kind == self.kind(),
    {
        match self {
            TaskContent::Quiz { .. } => TaskType::Quiz,
            TaskContent::Lecture { .. } => TaskType::Lecture,
            TaskContent::Match { .. } => TaskType::Match,
            TaskContent::Prompt { .. } => TaskType::Prompt,
        }
    }
}

/// A task in full, as it is shown to a user.
#[derive(Clone, Debug, PartialEq, Eq)]
pub struct Task {
    pub id: i32,
    pub module_id: i32,
    pub title: String,
    pub task_type: TaskType,
    pub content: TaskContent,
    /// The reader's progress on the task, where it was asked for and exists.
    pub status: Option<ProgressStatus>,
    /// The reader's score on the task, where it was asked for and exists.
    pub score: Option<Score>,
}

impl Task {
    /// A task with the given fields.
    pub fn new(
        id: i32,
        module_id: i32,
        title: String,
        task_type: TaskType,
        content: TaskContent,
        status: Option<ProgressStatus>,
        score: Option<Score>,
    ) -> (task: Task)
        ensures
            task.id == id,
            task.module_id == module_id,
            task.title == title,
            task.task_type == task_type,
            task.content == content,
            task.status == status,
            task.score == score,
    {
        Task { id, module_id, title, task_type, content, status, score }
    }
}

/// A quiz as it is stored.
#[derive(Clone, Debug, PartialEq, Eq)]
pub struct QuizTask {
    pub question: String,
    pub possible_answers: Vec<String>,
    pub is_multiple: bool,
    pub answers: Vec<u8>,
    pub picture_url: String,
}

/// The choices that a user hands in for a quiz or a matching task.
#[derive(Clone, Debug, PartialEq, Eq)]
pub struct QuizUserAnswer {
    pub answers: Vec<u8>,
}

/// A lecture as it is stored.
#[derive(Clone, Debug, PartialEq, Eq)]
pub struct LectureTask {
    pub text: String,
    pub picture_url: String,
    pub video_url: String,
}

/// What the grading service answers to a free-text submission.
#[derive(Clone, Debug, PartialEq, Eq)]
pub struct PromptReply {
    pub score: Score,
    pub reply: String,
    pub feedback: String,
}

/// A grading service's answer as a mathematical value.
pub struct PromptReplyView {
    pub score: Score,
    pub reply: Seq<char>,
    pub feedback: Seq<char>,
}

impl View for PromptReply {
    type V = PromptReplyView;

    open spec fn view(&self) -> PromptReplyView {
        PromptReplyView { score: self.score, reply: self.reply@, feedback: self.feedback@ }
    }
}

/// The query of a request for the tasks of a module.
#[derive(Clone, Copy, Debug, PartialEq, Eq, Structural)]
pub struct StatusQueryOptional {
    /// Whether each task is to come with the reader's progress on it.
    pub with_status: bool,
}

/// The query of a request for one task.
#[derive(Clone, Copy, Debug, PartialEq, Eq, Structural)]
pub struct ProgressQueryOptional {
    /// Whether the task is to come with the reader's progress and score.
    pub with_progress: bool,
}

/// The user whose progress the tasks of a module are listed with: the
/// reader where the query asks for it, nobody otherwise.
pub fn status_viewer(query: Option<StatusQueryOptional>, user_id: u32) -> (viewer: Option<u32>)
    ensures
        viewer == (match query {
            Some(asked) => if asked.with_status {
                Some(user_id)
            } else {
                None
            },
            None => None,
        }),
{
    match query {
        Some(asked) => if asked.with_status {
            Some(user_id)
        } else {
            None
        },
        None => None,
    }
}

/// The user whose progress a task is shown with: the reader where the query
/// asks for it, nobody otherwise.
pub fn progress_viewer(query: Option<ProgressQueryOptional>, user_id: u32) -> (viewer: Option<u32>)
    ensures
        viewer == (match query {
            Some(asked) => if asked.with_progress {
                Some(user_id)
            } else {
                None
            },
            None => None,
        }),
{
    match query {
        Some(asked) => if asked.with_progress {
            Some(user_id)
        } else {
            None
        },
        None => None,
    }
}

} // verus!
