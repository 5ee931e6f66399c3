use neoteo_courses::grading::{select_strategy, GradingStrategy};
use neoteo_courses::task::{
    progress_viewer, status_viewer, ProgressQueryOptional, StatusQueryOptional, Task, TaskContent,
    TaskShortInfo, TaskType,
};

#[test]
fn test_tasktype_into_str() {
    let task_type = TaskType::Lecture;
    assert_eq!(task_type.to_string(), "LECTURE");

    let task_type = TaskType::Match;
    assert_eq!(task_type.to_string(), "MATCH");

    let task_type = TaskType::Prompt;
    assert_eq!(task_type.to_string(), "PROMPT");

    let task_type = TaskType::Quiz;
    assert_eq!(task_type.to_string(), "QUIZ");
}

#[test]
fn test_str_into_tasktype() {
    let str = String::from("LECTURE");
    let task_type: TaskType = TaskType::from(str);
    assert_eq!(task_type, TaskType::Lecture);

    let str = String::from("match");
    let task_type: TaskType = TaskType::from(str);
    assert_eq!(task_type, TaskType::Match);

    let str = String::from("PROMPT");
    let task_type: TaskType = TaskType::from(str);
    assert_eq!(task_type, TaskType::Prompt);

    let str = String::from("quiz");
    let task_type: TaskType = TaskType::from(str);
    assert_eq!(task_type, TaskType::Quiz);
}

#[test]
fn parse_takes_any_case_and_refuses_other_words() {
    assert_eq!(TaskType::parse(String::from("QuIz")), Some(TaskType::Quiz));
    assert_eq!(TaskType::parse(String::from("Lecture")), Some(TaskType::Lecture));
    assert_eq!(TaskType::parse(String::from("essay")), None);
    assert_eq!(TaskType::parse(String::from("")), None);
    assert_eq!(TaskType::parse(String::from(" quiz")), None);
}

#[test]
fn every_name_is_read_back_in_both_cases() {
    for kind in [TaskType::Quiz, TaskType::Lecture, TaskType::Prompt, TaskType::Match] {
        assert_eq!(TaskType::parse(kind.to_string()), Some(kind));
        assert_eq!(TaskType::parse(kind.to_string().to_ascii_lowercase()), Some(kind));
        assert_eq!(TaskType::from(kind.to_string()), kind);
    }
}

#[test]
fn from_lowercase_takes_the_word_as_it_stands() {
    assert_eq!(TaskType::from_lowercase(&String::from("prompt")), Some(TaskType::Prompt));
    assert_eq!(TaskType::from_lowercase(&String::from("PROMPT")), None);
}

#[test]
fn every_kind_has_its_strategy() {
    assert_eq!(select_strategy(TaskType::Quiz), GradingStrategy::ExactMatch);
    assert_eq!(select_strategy(TaskType::Match), GradingStrategy::ExactMatch);
    assert_eq!(select_strategy(TaskType::Lecture), GradingStrategy::PassThrough);
    assert_eq!(select_strategy(TaskType::Prompt), GradingStrategy::AiDelegated);
}

#[test]
fn quiz_content_splits_the_choices() {
    let content = TaskContent::quiz(String::from("Pick"), "red;green;;blue", true);
    assert_eq!(
        content,
        TaskContent::Quiz {
            question: String::from("Pick"),
            possible_answers: vec![
                String::from("red"),
                String::from("green"),
                String::from(""),
                String::from("blue"),
            ],
            is_multiple: true,
        }
    );
    assert_eq!(content.task_type(), TaskType::Quiz);
}

#[test]
fn matching_content_splits_both_columns() {
    let content = TaskContent::matching(String::from("Pair"), "a;b", "1;2;");
    assert_eq!(
        content,
        TaskContent::Match {
            question: String::from("Pair"),
            left_items: vec![String::from("a"), String::from("b")],
            right_items: vec![String::from("1"), String::from("2"), String::from("")],
        }
    );
    assert_eq!(content.task_type(), TaskType::Match);
}

#[test]
fn lecture_and_prompt_content_keep_their_fields() {
    assert_eq!(
        TaskContent::lecture(String::from("text")),
        TaskContent::Lecture { text: String::from("text") }
    );
    let prompt = TaskContent::prompt(String::from("Write"), 3);
    assert_eq!(prompt, TaskContent::Prompt { question: String::from("Write"), max_attempts: 3 });
    assert_eq!(prompt.task_type(), TaskType::Prompt);
}

#[test]
fn task_constructors_keep_their_fields() {
    let info = TaskShortInfo::new(4, 2, String::from("Intro"), TaskType::Lecture, None);
    assert_eq!(info.id, 4);
    assert_eq!(info.module_id, 2);
    assert_eq!(info.title, "Intro");
    assert_eq!(info.task_type, TaskType::Lecture);
    assert_eq!(info.status, None);

    let task = Task::new(
        7,
        2,
        String::from("Quiz"),
        TaskType::Quiz,
        TaskContent::lecture(String::from("x")),
        None,
        None,
    );
    assert_eq!(task.id, 7);
    assert_eq!(task.title, "Quiz");
    assert_eq!(task.content, TaskContent::Lecture { text: String::from("x") });
}

#[test]
fn progress_is_shown_only_where_asked_for() {
    assert_eq!(status_viewer(None, 5), None);
    assert_eq!(status_viewer(Some(StatusQueryOptional { with_status: false }), 5), None);
    assert_eq!(status_viewer(Some(StatusQueryOptional { with_status: true }), 5), Some(5));
    assert_eq!(progress_viewer(None, 5), None);
    assert_eq!(progress_viewer(Some(ProgressQueryOptional { with_progress: false }), 5), None);
    assert_eq!(progress_viewer(Some(ProgressQueryOptional { with_progress: true }), 5), Some(5));
}
