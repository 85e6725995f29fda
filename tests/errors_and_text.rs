use tutor_catalog::errors::EzyTutorError;
use tutor_catalog::frontend::{course_url, NewCourse, UpdateCourse};
use tutor_catalog::models::{Course, PostedTime, UpdateCourse as CourseChanges};
use tutor_catalog::text::{decimal_text, signed_decimal_text};

#[test]
fn error_kinds_map_to_status_codes() {
    assert_eq!(EzyTutorError::DBError("db down".into()).status_code(), 500);
    assert_eq!(EzyTutorError::NotFound("gone".into()).status_code(), 404);
    assert_eq!(EzyTutorError::InvalidInput("bad".into()).status_code(), 400);
}

#[test]
fn error_body_has_one_shape() {
    let e = EzyTutorError::NotFound("Course id not found".into());
    assert_eq!(e.error_message(), "Course id not found");
    assert_eq!(e.error_body(), "{\"error_message\":\"Course id not found\"}");
    let quoted = EzyTutorError::InvalidInput("say \"hi\"\n\\\u{1}\u{1f}/é".into());
    assert_eq!(
        quoted.error_body(),
        "{\"error_message\":\"say \\\"hi\\\"\\n\\\\\\u0001\\u001f/é\"}"
    );
}

#[test]
fn storage_failure_text_stays_hidden() {
    let e = EzyTutorError::DBError("password authentication failed for user \"x\"".into());
    assert_eq!(e.error_message(), "Database error");
    assert_eq!(e.error_body(), "{\"error_message\":\"Database error\"}");
}

#[test]
fn decimal_notation() {
    assert_eq!(decimal_text(0), "0");
    assert_eq!(decimal_text(7), "7");
    assert_eq!(decimal_text(1230), "1230");
    assert_eq!(decimal_text(u64::MAX), "18446744073709551615");
    assert_eq!(signed_decimal_text(-45), "-45");
    assert_eq!(signed_decimal_text(i32::MIN), "-2147483648");
    assert_eq!(signed_decimal_text(i32::MAX), "2147483647");
}

#[test]
fn course_address() {
    assert_eq!(course_url("http://localhost:3000", 1, 21), "http://localhost:3000/courses/1/21");
    assert_eq!(course_url("http://h", -3, 0), "http://h/courses/-3/0");
}

#[test]
fn form_to_creation_request() {
    let form = NewCourse {
        course_name: "Rust".into(),
        course_description: "Intro".into(),
        course_format: "video".into(),
        course_duration: "2h".into(),
        course_structure: None,
        course_price: Some(10),
        course_lenguage: Some("English".into()),
        course_level: None,
    };
    let req = form.to_create_course(4);
    assert_eq!(req.tutor_id, 4);
    assert_eq!(req.course_name, "Rust");
    assert_eq!(req.course_description, Some("Intro".to_string()));
    assert_eq!(req.course_format, Some("video".to_string()));
    assert_eq!(req.course_duration, Some("2h".to_string()));
    assert_eq!(req.course_structure, None);
    assert_eq!(req.course_price, Some(10));
    assert_eq!(req.course_level, None);
}

#[test]
fn form_to_partial_update_and_merge() {
    let form = UpdateCourse {
        course_name: None,
        course_description: Some("new".into()),
        course_format: None,
        course_duration: None,
        course_structure: None,
        course_price: Some(5),
        course_lenguage: None,
        course_level: None,
    };
    let changes: CourseChanges = form.to_course_changes();
    let stored = Course {
        course_id: 2,
        tutor_id: 1,
        course_name: "old name".into(),
        course_description: Some("old".into()),
        course_format: Some("text".into()),
        course_structure: None,
        course_duration: None,
        course_price: Some(1),
        course_lenguage: Some("German".into()),
        course_level: None,
        posted_time: Some(PostedTime { secs: 1_650_000_000, nanos: 5 }),
    };
    let merged = stored.merged(&changes);
    assert_eq!(merged.course_name, "old name");
    assert_eq!(merged.course_description, Some("new".to_string()));
    assert_eq!(merged.course_format, Some("text".to_string()));
    assert_eq!(merged.course_price, Some(5));
    assert_eq!(merged.course_lenguage, Some("German".to_string()));
    assert_eq!(merged.posted_time, Some(PostedTime { secs: 1_650_000_000, nanos: 5 }));
    assert_eq!(merged.course_id, 2);
}
