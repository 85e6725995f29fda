use tutor_catalog::errors::EzyTutorError;
use tutor_catalog::handlers::{
    delete_course, get_course_details, get_courses_for_tutor, health_check_handler, post_new_course,
    post_new_course_parsed, status_of, update_course_details, update_course_details_parsed, AppState,
};
use tutor_catalog::models::{CreateCourse, PostedTime, UpdateCourse};

fn request_time() -> PostedTime {
    PostedTime { secs: 1_651_848_570, nanos: 123_456_789 }
}

fn course_named(tutor_id: i32, name: &str) -> CreateCourse {
    CreateCourse {
        tutor_id,
        course_name: name.to_string(),
        course_description: None,
        course_format: None,
        course_structure: None,
        course_duration: None,
        course_price: None,
        course_lenguage: None,
        course_level: None,
    }
}

/// A service state whose store holds courses 1 to `n` of tutor 1.
fn seeded_state(n: i32) -> AppState {
    let mut state = AppState::new(String::new());
    for i in 1..=n {
        let created = post_new_course(&mut state, course_named(1, &format!("Course {}", i)), request_time()).unwrap();
        assert_eq!(created.course_id, i);
    }
    state
}

#[test]
fn handlers_get_all_courses_success() {
    let state = seeded_state(2);
    let res = get_courses_for_tutor(&state, 1);
    assert_eq!(status_of(&res), 200);
}

#[test]
fn get_course_detail_test() {
    let state = seeded_state(2);
    let res = get_course_details(&state, 1, 2);
    assert_eq!(status_of(&res), 200);
}

#[test]
fn handlers_post_course_success() {
    let mut state = seeded_state(0);
    let new_course_msg = course_named(1, "This is the next course");
    let res = post_new_course(&mut state, new_course_msg, request_time());
    assert_eq!(status_of(&res), 200);
}

#[test]
fn course_get_all_courses_success() {
    let state = seeded_state(2);
    let res = get_courses_for_tutor(&state, 1);
    assert_eq!(status_of(&res), 200);
}

#[test]
fn get_course_detail_success_test() {
    let state = seeded_state(2);
    let res = get_course_details(&state, 1, 2);
    assert_eq!(status_of(&res), 200);
}

#[test]
fn get_course_detail_failure_test() {
    let state = seeded_state(2);
    let res = get_course_details(&state, 1, 21);
    match res {
        Ok(_) => println!("Something wrong"),
        Err(err) => assert_eq!(err.status_code(), 404),
    }
}

#[test]
fn course_post_course_success() {
    let mut state = seeded_state(0);
    let new_course_msg = CreateCourse {
        tutor_id: 1,
        course_name: "This is the next course".into(),
        course_description: Some("This is a test course".into()),
        course_format: None,
        course_level: Some("Beginner".into()),
        course_price: None,
        course_duration: None,
        course_lenguage: Some("English".into()),
        course_structure: None,
    };
    let res = post_new_course(&mut state, new_course_msg, request_time());
    assert_eq!(status_of(&res), 200);
}

#[test]
fn update_course_success() {
    let mut state = seeded_state(2);
    let new_course_msg = UpdateCourse {
        course_name: Some("Course name changed".into()),
        course_description: Some("This is a yet another test course".into()),
        course_format: None,
        course_level: Some("Intermediate".into()),
        course_price: None,
        course_duration: None,
        course_lenguage: Some("German".into()),
        course_structure: None,
    };
    let res = update_course_details(&mut state, new_course_msg, 1, 2);
    assert_eq!(status_of(&res), 200);
}

#[test]
fn delete_test_success() {
    let mut state = seeded_state(5);
    let res = delete_course(&mut state, 1, 5);
    assert_eq!(status_of(&res), 200);
}

#[test]
fn delete_test_failure() {
    let mut state = seeded_state(5);
    let res = delete_course(&mut state, 1, 21);
    match res {
        Ok(_) => println!("Something wrong"),
        Err(err) => assert_eq!(err.status_code(), 404),
    }
}

#[test]
fn list_for_tutor_without_courses_is_empty_success() {
    let state = seeded_state(3);
    let res = get_courses_for_tutor(&state, 7);
    assert_eq!(status_of(&res), 200);
    assert!(res.unwrap().is_empty());
    let empty = AppState::new(String::new());
    assert!(get_courses_for_tutor(&empty, 1).unwrap().is_empty());
}

#[test]
fn list_keeps_only_the_tutors_courses_in_order() {
    let mut state = AppState::new(String::new());
    post_new_course(&mut state, course_named(1, "a"), request_time()).unwrap();
    post_new_course(&mut state, course_named(2, "b"), request_time()).unwrap();
    post_new_course(&mut state, course_named(1, "c"), request_time()).unwrap();
    let listed = get_courses_for_tutor(&state, 1).unwrap();
    let names: Vec<&str> = listed.iter().map(|c| c.course_name.as_str()).collect();
    assert_eq!(names, vec!["a", "c"]);
    assert_eq!(listed[1].course_id, 3);
}

#[test]
fn absent_key_is_not_found_everywhere() {
    let mut state = seeded_state(2);
    // (2, 1): the id exists, but under another tutor.
    for (tutor_id, course_id) in [(1, 21), (2, 1)] {
        let got = get_course_details(&state, tutor_id, course_id);
        assert_eq!(status_of(&got), 404);
        let err = got.unwrap_err();
        assert!(!err.error_message().is_empty());
        let changes = UpdateCourse {
            course_name: Some("x".into()),
            course_description: None,
            course_format: None,
            course_structure: None,
            course_duration: None,
            course_price: None,
            course_lenguage: None,
            course_level: None,
        };
        let updated = update_course_details(&mut state, changes, tutor_id, course_id);
        assert_eq!(status_of(&updated), 404);
        let deleted = delete_course(&mut state, tutor_id, course_id);
        assert_eq!(status_of(&deleted), 404);
    }
    assert_eq!(get_courses_for_tutor(&state, 1).unwrap().len(), 2);
}

#[test]
fn create_then_fetch_round_trip() {
    let mut state = AppState::new(String::new());
    let mut new_course = course_named(1, "X");
    new_course.course_description = Some("Y".into());
    let created = post_new_course(&mut state, new_course, request_time()).unwrap();
    assert_eq!(created.posted_time, Some(request_time()));
    let fetched = get_course_details(&state, 1, created.course_id).unwrap();
    assert_eq!(fetched.course_name, "X");
    assert_eq!(fetched.course_description, Some("Y".to_string()));
    assert_eq!(fetched.posted_time, created.posted_time);
    assert!(fetched.posted_time.is_some());
}

#[test]
fn update_of_level_changes_only_the_level() {
    let mut state = AppState::new(String::new());
    post_new_course(&mut state, course_named(1, "first"), request_time()).unwrap();
    let full = CreateCourse {
        tutor_id: 1,
        course_name: "second".into(),
        course_description: Some("desc".into()),
        course_format: Some("video".into()),
        course_structure: Some("weekly".into()),
        course_duration: Some("4 weeks".into()),
        course_price: Some(100),
        course_lenguage: Some("English".into()),
        course_level: Some("Advanced".into()),
    };
    post_new_course(&mut state, full, request_time()).unwrap();
    let before = get_course_details(&state, 1, 2).unwrap();
    let changes = UpdateCourse {
        course_name: None,
        course_description: None,
        course_format: None,
        course_structure: None,
        course_duration: None,
        course_price: None,
        course_lenguage: None,
        course_level: Some("Beginner".into()),
    };
    let updated = update_course_details(&mut state, changes, 1, 2).unwrap();
    let after = get_course_details(&state, 1, 2).unwrap();
    assert_eq!(updated.course_level, Some("Beginner".to_string()));
    assert_eq!(after.course_level, Some("Beginner".to_string()));
    assert_eq!(after.course_name, before.course_name);
    assert_eq!(after.course_description, before.course_description);
    assert_eq!(after.course_format, before.course_format);
    assert_eq!(after.course_structure, before.course_structure);
    assert_eq!(after.course_duration, before.course_duration);
    assert_eq!(after.course_price, before.course_price);
    assert_eq!(after.course_lenguage, before.course_lenguage);
    assert_eq!(after.posted_time, before.posted_time);
    assert_eq!(get_course_details(&state, 1, 1).unwrap().course_name, "first");
}

#[test]
fn health_check_counts_each_visit() {
    let mut state = AppState::new("I'm good. You've already asked me".to_string());
    assert_eq!(health_check_handler(&mut state), "I'm good. You've already asked me 0 times");
    assert_eq!(health_check_handler(&mut state), "I'm good. You've already asked me 1 times");
    let mut seen = Vec::new();
    for _ in 0..25 {
        let before = state.visit_count;
        health_check_handler(&mut state);
        seen.push(before);
    }
    for pair in seen.windows(2) {
        assert!(pair[0] < pair[1]);
    }
    assert_eq!(state.visit_count, 27);
    assert_eq!(health_check_handler(&mut state), "I'm good. You've already asked me 27 times");
}

#[test]
fn delete_twice_second_is_not_found() {
    let mut state = seeded_state(3);
    let first = delete_course(&mut state, 1, 2);
    assert_eq!(status_of(&first), 200);
    assert_eq!(first.unwrap(), "Deleted 1 record");
    let second = delete_course(&mut state, 1, 2);
    assert_eq!(status_of(&second), 404);
    assert_eq!(status_of(&get_course_details(&state, 1, 2)), 404);
    assert_eq!(status_of(&get_course_details(&state, 1, 3)), 200);
}

#[test]
fn malformed_create_body_is_invalid_input() {
    let mut state = seeded_state(1);
    let res = post_new_course_parsed(&mut state, Err("missing field `course_name`".to_string()), request_time());
    assert_eq!(status_of(&res), 400);
    match res {
        Err(EzyTutorError::InvalidInput(m)) => assert_eq!(m, "missing field `course_name`"),
        other => panic!("unexpected outcome {:?}", other),
    }
    assert_eq!(get_courses_for_tutor(&state, 1).unwrap().len(), 1);
    let ok = post_new_course_parsed(&mut state, Ok(course_named(1, "fine")), request_time());
    assert_eq!(ok.unwrap().course_id, 2);
}

#[test]
fn malformed_update_body_is_invalid_input() {
    let mut state = seeded_state(2);
    let res = update_course_details_parsed(&mut state, Err("invalid type: integer".to_string()), 1, 2);
    assert_eq!(status_of(&res), 400);
    assert_eq!(get_course_details(&state, 1, 2).unwrap().course_name, "Course 2");
    let missing = update_course_details_parsed(&mut state, Err("bad".to_string()), 1, 21);
    assert_eq!(status_of(&missing), 400);
}
