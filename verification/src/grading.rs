//! The three ways of grading a submission, and what each makes of it.

use crate::json::{answers_document, reply_document, write_answers_document, write_reply_document};
use crate::progress::{ProgressStatus, ProgressWrite, ProgressWriteView};
use crate::score::{Score, NOMINAL_BITS, ONE_BITS, ZERO_BITS};
use crate::task::{PromptReply, QuizUserAnswer, TaskType};
use crate::text::{parse_u8, parse_u8_spec, replace, replaced, split, split_on, text_views};
use vstd::prelude::*;

verus! {

/// The instruction sent to the grading service for a free-text task. The
/// three names in braces are replaced, in this order, by the task's question,
/// by what the user wrote and by the task's additional hint.
pub const PROMPT_TEMPLATE: &'static str = r#"
Ты выступаешь как система оценки качества промптов для ИИ. Пользователь должен был написать промпт, соответствующий заданной задаче. Вот описание задачи:

{question}

Вот промпт, написанный пользователем (ТЫ ДОЛЖЕН ОЦЕНИВАТЬ ЕГО):
{user_prompt}

(Дополнительный контекст, который следует учитывать при оценке промпта:
{additional_prompt})

Оцени этот промпт по следующим критериям:
1. Насколько чётко и конкретно сформулирована задача.
2. Соответствует ли промпт цели задания.
3. Содержит ли промпт необходимую структуру, ключевые слова или примеры.
4. Есть ли грамматические или логические ошибки.
5. Насколько он эффективен с точки зрения получения правильного ответа от ИИ.

Верни ответ в формате JSON без лишних символов, т.е без `:
{
  "score": <число от 0.0 до 1.0, где 0 - 0%, 1.0 - 100%>,
  "reply": <ответ на промпт пользователя, ты должен выполнить его задание, он не сильно распространенный, довольно краткий, но не сильно>,
  "feedback": "<краткий текстовый отзыв>"
}
"#;

/// The hint sent for a task that has no additional hint.
pub const NO_ADDITIONAL_PROMPT: &'static str = "Нет доп. промпта";

/// The number of graded attempts allowed on a free-text task that states no
/// limit of its own.
pub const DEFAULT_MAX_ATTEMPTS: i32 = 3;

/// A way of grading.
#[derive(Clone, Copy, Debug, PartialEq, Eq, Structural)]
pub enum GradingStrategy {
    /// The submission must equal the stored answers, item by item.
    ExactMatch,
    /// Nothing is graded: handing in is passing.
    PassThrough,
    /// An outside service grades the text; the number of attempts is limited.
    AiDelegated,
}

/// The way in which tasks of a kind are graded.
pub open spec fn strategy_for(kind: TaskType) -> GradingStrategy {
    match kind {
        TaskType::Quiz => GradingStrategy::ExactMatch,
        TaskType::Match => GradingStrategy::ExactMatch,
        TaskType::Lecture => GradingStrategy::PassThrough,
        TaskType::Prompt => GradingStrategy::AiDelegated,
    }
}

/// The way in which tasks of a kind are graded.
pub fn select_strategy(kind: TaskType) -> (strategy: GradingStrategy)
    ensures
        strategy == strategy_for(kind),
{
    match kind {
        TaskType::Quiz => GradingStrategy::ExactMatch,
        TaskType::Match => GradingStrategy::ExactMatch,
        TaskType::Lecture => GradingStrategy::PassThrough,
        TaskType::Prompt => GradingStrategy::AiDelegated,
    }
}

/// What grading made of one submission.
#[derive(Clone, Debug, PartialEq, Eq)]
pub struct GradingOutcome {
    pub status: ProgressStatus,
    pub score: Score,
    /// The text to store with the result.
    pub submission: String,
    /// By how much the submission raises the attempt count.
    pub attempts_delta: i32,
}

/// A grading outcome as a mathematical value.
pub struct GradingOutcomeView {
    pub status: ProgressStatus,
    pub score: Score,
    pub submission: Seq<char>,
    pub attempts_delta: i32,
}

impl View for GradingOutcome {
    type V = GradingOutcomeView;

    open spec fn view(&self) -> GradingOutcomeView {
        GradingOutcomeView {
            status: self.status,
            score: self.score,
            submission: self.submission@,
            attempts_delta: self.attempts_delta,
        }
    }
}

/// The choice that one piece of a stored answer key stands for: the number it
/// denotes, and zero where it denotes none.
pub open spec fn choice_of(piece: Seq<char>) -> u8 {
    match parse_u8_spec(piece) {
        Some(choice) => choice,
        None => 0u8,
    }
}

/// The answers that a stored answer key holds: its pieces between `;`, each
/// read as a choice.
pub open spec fn answer_key(stored: Seq<char>) -> Seq<u8> {
    split_on(stored, ';').map_values(|piece: Seq<char>| choice_of(piece))
}

/// Reads a stored answer key.
pub fn parse_answer_key(stored: &str) -> (key: Vec<u8>)
    ensures
        key@ == answer_key(stored@),
{
    let pieces = split(stored, ';');
    let mut key: Vec<u8> = Vec::new();
    let mut i: usize = 0;
    while i < pieces.len()
        invariant
            i <= pieces.len(),
            text_views(pieces@) == split_on(stored@, ';'),
            key@.len() == i,
            forall|j: int| 0 <= j < i ==> key@[j] == choice_of(#[trigger] split_on(stored@, ';')[j]),
        decreases pieces.len() - i,
    {
        assert(text_views(pieces@)[i as int] == pieces@[i as int]@);
        let choice: u8 = match parse_u8(pieces[i].as_str()) {
            Some(choice) => choice,
            None => 0,
        };
        key.push(choice);
        i = i + 1;
    }
    assert(key@ =~= answer_key(stored@));
    key
}

/// Whether two lists of answers are the same list.
pub fn same_answers(left: &Vec<u8>, right: &Vec<u8>) -> (same: bool)
    ensures
        same == (left@ == right@),
{
    if left.len() != right.len() {
        return false;
    }
    let mut i: usize = 0;
    while i < left.len()
        invariant
            i <= left.len(),
            left.len() == right.len(),
            forall|j: int| 0 <= j < i ==> left@[j] == right@[j],
        decreases left.len() - i,
    {
        if left[i] != right[i] {
            return false;
        }
        i = i + 1;
    }
    assert(left@ =~= right@);
    true
}

/// What exact-match grading makes of `answers` against a stored key: passed
/// with score one where the answers are the key's, in number and in order;
/// failed with score zero otherwise. Either way the answers are stored and
/// one attempt is counted.
pub open spec fn exact_match_outcome(stored: Seq<char>, answers: Seq<u8>) -> GradingOutcomeView {
    if answer_key(stored) == answers {
        GradingOutcomeView {
            status: ProgressStatus::Success,
            score: Score { bits: ONE_BITS },
            submission: answers_document(answers),
            attempts_delta: 1,
        }
    } else {
        GradingOutcomeView {
            status: ProgressStatus::Failed,
            score: Score { bits: ZERO_BITS },
            submission: answers_document(answers),
            attempts_delta: 1,
        }
    }
}

/// What handing in a lecture comes to: passed, with the nominal score of one, the
/// word `None` as text, and one attempt counted.
pub open spec fn pass_through_outcome() -> GradingOutcomeView {
    GradingOutcomeView {
        status: ProgressStatus::Success,
        score: Score { bits: NOMINAL_BITS },
        submission: "None"@,
        attempts_delta: 1,
    }
}

/// What the grading service's answer comes to: failed where its score is
/// below the pass mark, passed otherwise; the score as given; reply and
/// feedback stored; one attempt counted.
pub open spec fn reply_outcome(score: Score, reply: Seq<char>, feedback: Seq<char>)
    -> GradingOutcomeView {
    GradingOutcomeView {
        status: if score.passes() {
            ProgressStatus::Success
        } else {
            ProgressStatus::Failed
        },
        score,
        submission: reply_document(reply, feedback),
        attempts_delta: 1,
    }
}

/// Grades a quiz or a matching task.
pub fn grade_exact_match(stored_answers: &str, user_answers: &QuizUserAnswer) -> (outcome:
    GradingOutcome)
    ensures
        outcome@ == exact_match_outcome(stored_answers@, user_answers.answers@),
{
    let key = parse_answer_key(stored_answers);
    let submission = write_answers_document(&user_answers.answers);
    if same_answers(&key, &user_answers.answers) {
        GradingOutcome {
            status: ProgressStatus::Success,
            score: Score::one(),
            submission,
            attempts_delta: 1,
        }
    } else {
        GradingOutcome {
            status: ProgressStatus::Failed,
            score: Score::zero(),
            submission,
            attempts_delta: 1,
        }
    }
}

/// Grades a lecture.
pub fn grade_pass_through() -> (outcome: GradingOutcome)
    ensures
        outcome@ == pass_through_outcome(),
{
    GradingOutcome {
        status: ProgressStatus::Success,
        score: Score::nominal(),
        submission: String::from_str("None"),
        attempts_delta: 1,
    }
}

/// Turns the grading service's answer into an outcome.
pub fn grade_reply(reply: &PromptReply) -> (outcome: GradingOutcome)
    ensures
        outcome@ == reply_outcome(reply.score, reply.reply@, reply.feedback@),
{
    let status = if reply.score.is_pass() {
        ProgressStatus::Success
    } else {
        ProgressStatus::Failed
    };
    GradingOutcome {
        status,
        score: reply.score,
        submission: write_reply_document(reply.reply.as_str(), reply.feedback.as_str()),
        attempts_delta: 1,
    }
}

/// The write that records an outcome for a user and a task.
pub open spec fn outcome_write(user_id: u32, task_id: i32, outcome: GradingOutcomeView)
    -> ProgressWriteView {
    ProgressWriteView {
        user_id,
        task_id,
        status: outcome.status,
        submission: outcome.submission,
        score: outcome.score,
        attempts: outcome.attempts_delta,
    }
}

/// The write that records `outcome` for `user_id` and `task_id`.
pub fn record_outcome(user_id: u32, task_id: i32, outcome: GradingOutcome) -> (write:
    ProgressWrite)
    ensures
        write@ == outcome_write(user_id, task_id, outcome@),
{
    ProgressWrite {
        user_id,
        task_id,
        status: outcome.status,
        submission: outcome.submission,
        score: outcome.score,
        attempts: outcome.attempts_delta,
    }
}

/// Grades what a user handed in for a quiz or a matching task against the
/// task's stored answers, and gives the write that records the result.
pub fn submit_quiz_task(
    user_id: u32,
    task_id: i32,
    task_answers: &str,
    user_answers: &QuizUserAnswer,
) -> (write: ProgressWrite)
    ensures
        write@ == outcome_write(
            user_id,
            task_id,
            exact_match_outcome(task_answers@, user_answers.answers@),
        ),
{
    record_outcome(user_id, task_id, grade_exact_match(task_answers, user_answers))
}

/// The limit on graded attempts for a free-text task: its own, or the
/// default where it states none.
pub open spec fn attempt_limit(max_attempts: Option<i32>) -> i32 {
    match max_attempts {
        Some(limit) => limit,
        None => DEFAULT_MAX_ATTEMPTS,
    }
}

/// Whether a user who has `attempts` graded attempts behind them may not
/// hand in again.
pub open spec fn attempts_exhausted(attempts: i32, max_attempts: Option<i32>) -> bool {
    attempts >= attempt_limit(max_attempts)
}

/// Whether the attempt limit of a free-text task is reached.
pub fn limit_reached(attempts: i32, max_attempts: Option<i32>) -> (reached: bool)
    ensures
        reached == attempts_exhausted(attempts, max_attempts),
{
    let limit: i32 = match max_attempts {
        Some(limit) => limit,
        None => DEFAULT_MAX_ATTEMPTS,
    };
    attempts >= limit
}

/// The instruction for the grading service: the template with the question,
/// then the user's text, then the hint put in; each replacement acts on the
/// whole text that the one before it left.
pub open spec fn grading_prompt(
    question: Seq<char>,
    user_prompt: Seq<char>,
    additional_prompt: Option<Seq<char>>,
) -> Seq<char> {
    let hint = match additional_prompt {
        Some(hint) => hint,
        None => NO_ADDITIONAL_PROMPT@,
    };
    replaced(
        replaced(
            replaced(PROMPT_TEMPLATE@, "{question}"@, question),
            "{user_prompt}"@,
            user_prompt,
        ),
        "{additional_prompt}"@,
        hint,
    )
}

/// Writes the instruction for the grading service.
pub fn build_grading_prompt(
    question: &str,
    user_prompt: &str,
    additional_prompt: Option<String>,
) -> (message: String)
    ensures
        message@ == grading_prompt(
            question@,
            user_prompt@,
            match additional_prompt {
                Some(hint) => Some(hint@),
                None => None,
            },
        ),
{
    proof {
        reveal_strlit("{question}");
        reveal_strlit("{user_prompt}");
        reveal_strlit("{additional_prompt}");
    }
    let hint = match additional_prompt {
        Some(hint) => hint,
        None => String::from_str(NO_ADDITIONAL_PROMPT),
    };
    let with_question = replace(PROMPT_TEMPLATE, "{question}", question);
    let with_user_prompt = replace(with_question.as_str(), "{user_prompt}", user_prompt);
    replace(with_user_prompt.as_str(), "{additional_prompt}", hint.as_str())
}

} // verus!
