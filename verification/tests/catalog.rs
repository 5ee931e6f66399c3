use neoteo_courses::certs::{add_certs_query, certificate_object_name, CertStatus, CERTS_BUCKET};
use neoteo_courses::course::{
    ids_to_fetch, placeholders, CourseAccess, CourseProgress, ShortCourseInfo,
};
use neoteo_courses::error::{AppError, ErrorResponse, ErrorTypes, PipelineError};
use neoteo_courses::module::{sees_theory, ModuleInfo, ModuleShortInfo};
use neoteo_courses::token::{
    bearer_header, bearer_token, fetch_failure, user_info_endpoint, BearerCheck,
    OptionalBearerClaims,
};
use neoteo_courses::user::{get_courses_info, UserCourseRow, UserInfoFull, UserStats, ValueInfo};

#[test]
fn error_kinds_have_their_names() {
    assert_eq!(ErrorTypes::InternalError.to_string(), "server_internal_error");
    assert_eq!(ErrorTypes::JwtTokenExpired.to_string(), "jwt_token_expired");
    assert_eq!(ErrorTypes::MaxAttemptsSubmit.to_string(), "max_attempts_submit");
    assert_eq!(ErrorTypes::CourseNotOwned.to_string(), "course_not_owned");
    assert_eq!(ErrorTypes::NoAuthHeader.to_string(), "no_auth_header");
}

#[test]
fn an_error_response_names_kind_and_message() {
    let response = ErrorResponse::new(ErrorTypes::CourseNotOwned, "User does not own this course");
    assert_eq!(response.error_type, "course_not_owned");
    assert_eq!(response.error_msg, "User does not own this course");
}

#[test]
fn an_internal_failure_is_reported_with_its_cause() {
    let response = AppError { cause: String::from("no rows") }.response();
    assert_eq!(response.error_type, "server_internal_error");
    assert_eq!(response.error_msg, "Something went wrong: no rows");
}

#[test]
fn a_broken_request_is_reported_with_what_is_known() {
    assert_eq!(
        ErrorResponse::for_panic(Some("boom")),
        ErrorResponse::new(ErrorTypes::InternalError, "boom")
    );
    assert_eq!(
        ErrorResponse::for_panic(None),
        ErrorResponse::new(ErrorTypes::InternalError, "Unknown panic message")
    );
}

#[test]
fn pipeline_failures_are_reported_by_kind() {
    assert_eq!(PipelineError::MaxAttemptsExceeded.status_code(), 400);
    assert_eq!(PipelineError::MaxAttemptsExceeded.error_type(), ErrorTypes::MaxAttemptsSubmit);
    assert_eq!(
        PipelineError::MaxAttemptsExceeded.response(),
        ErrorResponse::new(ErrorTypes::MaxAttemptsSubmit, "Try again later")
    );
    for error in [
        PipelineError::UpstreamGradingFailure,
        PipelineError::StoreUnavailable,
        PipelineError::OutOfOrder,
    ] {
        assert_eq!(error.status_code(), 500);
        assert_eq!(error.error_type(), ErrorTypes::InternalError);
        assert_eq!(error.response().error_type, "server_internal_error");
    }
    assert_eq!(PipelineError::StoreUnavailable.response().error_msg, "The store is not available");
}

#[test]
fn missing_progress_is_no_failure_of_the_server() {
    assert_eq!(PipelineError::NotFound.status_code(), 404);
    assert_eq!(PipelineError::NotFound.error_type(), ErrorTypes::NotFound);
    assert_eq!(ErrorTypes::NotFound.to_string(), "not_found");
    assert_eq!(
        PipelineError::NotFound.response(),
        ErrorResponse::new(ErrorTypes::NotFound, "The user has handed in nothing for the task")
    );
}

#[test]
fn the_token_is_the_last_word_of_the_header() {
    assert_eq!(bearer_token("Bearer abc.def.ghi"), Some(String::from("abc.def.ghi")));
    assert_eq!(bearer_token("abc"), Some(String::from("abc")));
    assert_eq!(bearer_token("  Bearer \t abc  \n"), Some(String::from("abc")));
    assert_eq!(bearer_token("a b c"), Some(String::from("c")));
    assert_eq!(bearer_token("a\u{a0}b\u{2003}c\u{3000}"), Some(String::from("c")));
    assert_eq!(bearer_token(""), None);
    assert_eq!(bearer_token(" \t\r\n"), None);
}

#[test]
fn the_token_is_found_as_the_standard_library_finds_it() {
    for header in ["", " ", "x", "Bearer x", "Bearer  x ", "\tx\ty\t", "é ü", "a\u{85}b"] {
        assert_eq!(bearer_token(header), header.split_whitespace().last().map(String::from));
    }
}

#[test]
fn ascii_white_space_is_tab_to_carriage_return_and_space() {
    for code in 0u8..=127 {
        let c = code as char;
        let white = (9..=13).contains(&code) || code == 32;
        assert_eq!(bearer_token(&c.to_string()).is_none(), white, "{}", code);
        let header = format!("a{}b", c);
        let expected = if white { "b" } else { header.as_str() };
        assert_eq!(bearer_token(&header), Some(String::from(expected)), "{}", code);
    }
}

#[test]
fn an_optional_bearer_is_resolved() {
    assert_eq!(OptionalBearerClaims::resolve(BearerCheck::NoHeader), Ok(OptionalBearerClaims(None)));
    assert_eq!(OptionalBearerClaims::resolve(BearerCheck::Invalid), Ok(OptionalBearerClaims(None)));
    assert_eq!(
        OptionalBearerClaims::resolve(BearerCheck::Valid(9)),
        Ok(OptionalBearerClaims(Some(9)))
    );
    assert_eq!(
        OptionalBearerClaims::resolve(BearerCheck::NotBearer),
        Err(AppError { cause: String::from("Could not decode bearer") })
    );
}

#[test]
fn requests_to_the_account_service_are_addressed() {
    assert_eq!(bearer_header("abc"), "Bearer abc");
    assert_eq!(user_info_endpoint("http://auth:8000"), "http://auth:8000/user/info?value=user");
    assert_eq!(
        fetch_failure("http://auth/x", "denied"),
        "Internal error: could not fetch http://auth/x: denied"
    );
}

#[test]
fn the_courses_of_a_user_are_those_present() {
    assert_eq!(get_courses_info(&vec![Some(3), None, Some(1), Some(3)]), vec![3, 1, 3]);
    assert_eq!(get_courses_info(&vec![None]), Vec::<i32>::new());
    assert_eq!(get_courses_info(&vec![]), Vec::<i32>::new());
}

fn row(name: &str, course_id: Option<i32>) -> UserCourseRow {
    UserCourseRow { username: String::from(name), email: format!("{}@example.org", name), course_id }
}

#[test]
fn a_profile_is_made_of_the_rows_of_a_user() {
    let full = UserInfoFull::from_rows(vec![row("ann", Some(2)), row("ann", None), row("ann", Some(5))]);
    assert_eq!(
        full,
        Some(UserInfoFull {
            username: String::from("ann"),
            email: String::from("ann@example.org"),
            courses: vec![2, 5],
        })
    );
    let lonely = UserInfoFull::from_rows(vec![row("bob", None)]).unwrap();
    assert_eq!(lonely.username, "bob");
    assert_eq!(lonely.courses, Vec::<i32>::new());
    assert_eq!(UserInfoFull::from_rows(vec![]), None);
}

#[test]
fn missing_statistics_count_as_zero() {
    assert_eq!(
        UserStats::new(3, 2, None),
        UserStats { courses_owned: 3, courses_started: 2, courses_completed: 0 }
    );
    assert_eq!(
        UserStats::new(3, 2, Some(1)),
        UserStats { courses_owned: 3, courses_started: 2, courses_completed: 1 }
    );
}

#[test]
fn the_part_of_a_profile_is_named_in_lower_case() {
    assert_eq!(ValueInfo::parse(&String::from("courses")), Some(ValueInfo::Courses));
    assert_eq!(ValueInfo::parse(&String::from("user")), Some(ValueInfo::User));
    assert_eq!(ValueInfo::parse(&String::from("all")), Some(ValueInfo::All));
    assert_eq!(ValueInfo::parse(&String::from("All")), None);
    assert_eq!(ValueInfo::parse(&String::from("")), None);
}

#[test]
fn course_constructors_keep_their_fields() {
    let info = ShortCourseInfo::new(1, String::from("t"), String::from("b"), String::from("p"), 2, 3);
    assert_eq!(info.course_id, 1);
    assert_eq!(info.title, "t");
    assert_eq!(info.brief_description, "b");
    assert_eq!(info.picture_url, "p");
    assert_eq!(info.tasks_passed, 2);
    assert_eq!(info.tasks_total, 3);
    assert_eq!(
        CourseProgress::new(4, 5, 6),
        CourseProgress { course_id: Some(4), tasks_passed: Some(5), tasks_total: Some(6) }
    );
}

#[test]
fn an_unknown_reader_sees_no_progress() {
    assert_eq!(
        CourseAccess::resolve(None, true, Some(1), Some(2)),
        CourseAccess { has_course: false, tasks_passed: None, tasks_total: None }
    );
}

#[test]
fn a_known_reader_sees_what_they_own() {
    assert_eq!(
        CourseAccess::resolve(Some(1), true, Some(1), Some(2)),
        CourseAccess { has_course: true, tasks_passed: Some(1), tasks_total: Some(2) }
    );
    assert_eq!(
        CourseAccess::resolve(Some(1), false, Some(1), Some(2)),
        CourseAccess { has_course: false, tasks_passed: None, tasks_total: Some(2) }
    );
    assert_eq!(
        CourseAccess::resolve(Some(1), true, None, None),
        CourseAccess { has_course: true, tasks_passed: None, tasks_total: None }
    );
}

#[test]
fn only_what_the_cache_did_not_give_is_fetched() {
    assert_eq!(ids_to_fetch(&vec![1, 2, 3, 4], &vec![true, false, true, false]), vec![2, 4]);
    assert_eq!(ids_to_fetch(&vec![1, 2], &vec![true, true]), Vec::<i32>::new());
    assert_eq!(ids_to_fetch(&vec![1, 2], &vec![false, false]), vec![1, 2]);
    assert_eq!(ids_to_fetch(&vec![], &vec![]), Vec::<i32>::new());
}

#[test]
fn placeholders_are_separated_by_commas() {
    assert_eq!(placeholders(0), "");
    assert_eq!(placeholders(1), "?");
    assert_eq!(placeholders(3), "?, ?, ?");
    for count in 0..6 {
        let expected: Vec<String> = (0..count).map(|_| String::from("?")).collect();
        assert_eq!(placeholders(count), expected.join(", "));
    }
}

#[test]
fn a_preview_of_a_module_has_no_theory() {
    let module = ModuleInfo {
        id: 1,
        course_id: 2,
        title: String::from("t"),
        description: String::from("d"),
        theory: String::from("secret"),
    };
    assert_eq!(
        module.preview(20, 10),
        ModuleShortInfo { id: 10, course_id: 20, title: String::from("t"), description: String::from("d") }
    );
}

#[test]
fn theory_is_for_owners() {
    assert!(sees_theory(Some(1), true));
    assert!(!sees_theory(Some(1), false));
    assert!(!sees_theory(None, true));
    assert!(!sees_theory(None, false));
}

#[test]
fn certificate_states_have_their_names() {
    assert_eq!(CertStatus::Created.to_string(), "CREATED");
    assert_eq!(CertStatus::NotCreated.to_string(), "NOT_CREATED");
    assert_eq!(CertStatus::from(String::from("CREATED")), CertStatus::Created);
    assert_eq!(CertStatus::from(String::from("NOT_CREATED")), CertStatus::NotCreated);
    assert_eq!(CertStatus::from(String::from("created")), CertStatus::NotCreated);
    assert_eq!(CertStatus::from(String::from("")), CertStatus::NotCreated);
}

#[test]
fn a_certificate_file_is_named_by_user_and_course() {
    assert_eq!(CERTS_BUCKET, "user-certs");
    assert_eq!(certificate_object_name(34, "Rust"), "34/certs/Rust-certificate.pdf");
    assert_eq!(certificate_object_name(0, ""), "0/certs/-certificate.pdf");
}

#[test]
fn certificates_are_inserted_in_one_statement() {
    assert_eq!(add_certs_query(0), None);
    assert_eq!(
        add_certs_query(1),
        Some(String::from(
            "INSERT IGNORE INTO user_certs (user_id, course_id, status) VALUES (?, ?, 'NOT_CREATED')"
        ))
    );
    assert_eq!(
        add_certs_query(3),
        Some(String::from(
            "INSERT IGNORE INTO user_certs (user_id, course_id, status) VALUES (?, ?, 'NOT_CREATED'), (?, ?, 'NOT_CREATED'), (?, ?, 'NOT_CREATED')"
        ))
    );
}
