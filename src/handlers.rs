use vstd::prelude::*;
use crate::catalog::CourseCatalog;
use crate::errors::EzyTutorError;
use crate::models::{Course, CreateCourse, PostedTime, UpdateCourse};
use crate::text::{decimal, decimal_text};

verus! {

/// The state that every request handler borrows: the health message, the
/// number of health checks served so far, and the course store.
///
/// Callers that serve requests concurrently hold it under one lock, so each
/// handler runs as a single read-modify-write.
pub struct AppState {
    pub health_check_response: String,
    pub visit_count: u64,
    pub db: CourseCatalog,
}

/// The health message for a given count: `"<message> <count> times"`.
pub open spec fn health_message(response: Seq<char>, count: nat) -> Seq<char> {
    response + " "@ + decimal(count) + " times"@
}

impl AppState {
    /// The state of a freshly started service: no visits and no courses.
    pub fn new(health_check_response: String) -> (r: AppState)
        ensures
            r.health_check_response == health_check_response,
            r.visit_count == 0,
            r.db@.courses.len() == 0,
            r.db@.next_id == 1,
            r.well_formed(),
    {
        AppState { health_check_response, visit_count: 0, db: CourseCatalog::new() }
    }

    pub open spec fn well_formed(&self) -> bool {
        self.db@.well_formed()
    }
}

/// The HTTP status of a handler's outcome: 200 on success, else the status
/// of the error kind.
pub fn status_of<T>(outcome: &Result<T, EzyTutorError>) -> (r: u16)
    ensures
        r == match outcome {
            Ok(_) => 200u16,
            Err(e) => e.spec_status_code(),
        },
{
    match outcome {
        Ok(_) => 200,
        Err(e) => e.status_code(),
    }
}

/// Reports the number of health checks served before this one and counts
/// this one.
pub fn health_check_handler(app_state: &mut AppState) -> (r: String)
    requires
        old(app_state).visit_count < u64::MAX,
    ensures
        r@ == health_message(old(app_state).health_check_response@, old(app_state).visit_count as nat),
        final(app_state).visit_count == old(app_state).visit_count + 1,
        final(app_state).health_check_response == old(app_state).health_check_response,
        final(app_state).db == old(app_state).db,
{
    let mut response = app_state.health_check_response.clone();
    response.append(" ");
    let count = decimal_text(app_state.visit_count);
    response.append(count.as_str());
    response.append(" times");
    app_state.visit_count = app_state.visit_count + 1;
    response
}

/// Lists a tutor's courses; a tutor without courses gets an empty list.
pub fn get_courses_for_tutor(app_state: &AppState, tutor_id: i32) -> (r: Result<Vec<Course>, EzyTutorError>)
    ensures
        r matches Ok(v) && v@ == app_state.db@.courses_of(tutor_id),
{
    Ok(app_state.db.list_courses_for_tutor(tutor_id))
}

/// Fetches one course by its key.
pub fn get_course_details(app_state: &AppState, tutor_id: i32, course_id: i32) -> (r: Result<Course, EzyTutorError>)
    requires
        app_state.well_formed(),
    ensures
        match app_state.db@.lookup(tutor_id, course_id) {
            Some(c) => r == Ok::<Course, EzyTutorError>(c),
            None => r matches Err(e) && e.is_not_found() && e.spec_message().len() > 0,
        },
{
    app_state.db.get_course(tutor_id, course_id)
}

/// The outcome of reading a creation body: a body that could not be read
/// is `InvalidInput` with the reader's message; a readable one goes on.
pub fn create_request(body: Result<CreateCourse, String>) -> (r: Result<CreateCourse, EzyTutorError>)
    ensures
        match body {
            Ok(c) => r == Ok::<CreateCourse, EzyTutorError>(c),
            Err(m) => r == Err::<CreateCourse, EzyTutorError>(EzyTutorError::InvalidInput(m)),
        },
{
    match body {
        Ok(c) => Ok(c),
        Err(m) => Err(EzyTutorError::InvalidInput(m)),
    }
}

/// The outcome of reading an update body: a body that could not be read
/// is `InvalidInput` with the reader's message; a readable one goes on.
pub fn update_request(body: Result<UpdateCourse, String>) -> (r: Result<UpdateCourse, EzyTutorError>)
    ensures
        match body {
            Ok(u) => r == Ok::<UpdateCourse, EzyTutorError>(u),
            Err(m) => r == Err::<UpdateCourse, EzyTutorError>(EzyTutorError::InvalidInput(m)),
        },
{
    match body {
        Ok(u) => Ok(u),
        Err(m) => Err(EzyTutorError::InvalidInput(m)),
    }
}

/// Creates a course from a well-shaped body; `posted_time` is the moment of
/// the request, which storage stamps on the course.
pub fn post_new_course(app_state: &mut AppState, new_course: CreateCourse, posted_time: PostedTime) -> (r: Result<Course, EzyTutorError>)
    requires
        old(app_state).well_formed(),
    ensures
        final(app_state).well_formed(),
        final(app_state).visit_count == old(app_state).visit_count,
        old(app_state).db@.can_create() ==> {
            &&& r == Ok::<Course, EzyTutorError>(
                Course::spec_from_create(old(app_state).db@.next_id as i32, new_course, posted_time),
            )
            &&& final(app_state).db@ == old(app_state).db@.after_create(new_course, posted_time)
        },
        !old(app_state).db@.can_create() ==> {
            &&& r matches Err(e) && e.is_db_error()
            &&& final(app_state).db@ == old(app_state).db@
        },
{
    app_state.db.create_course(new_course, posted_time)
}

/// Creates a course from the outcome of reading the request body. A body
/// that could not be read is `InvalidInput`, and the store is not touched.
pub fn post_new_course_parsed(app_state: &mut AppState, body: Result<CreateCourse, String>, posted_time: PostedTime) -> (r: Result<Course, EzyTutorError>)
    requires
        old(app_state).well_formed(),
    ensures
        final(app_state).well_formed(),
        final(app_state).visit_count == old(app_state).visit_count,
        match body {
            Err(m) => r == Err::<Course, EzyTutorError>(EzyTutorError::InvalidInput(m))
                && final(app_state).db@ == old(app_state).db@,
            Ok(new_course) => {
                &&& old(app_state).db@.can_create() ==> {
                    &&& r == Ok::<Course, EzyTutorError>(
                        Course::spec_from_create(old(app_state).db@.next_id as i32, new_course, posted_time),
                    )
                    &&& final(app_state).db@ == old(app_state).db@.after_create(new_course, posted_time)
                }
                &&& !old(app_state).db@.can_create() ==> {
                    &&& r matches Err(e) && e.is_db_error()
                    &&& final(app_state).db@ == old(app_state).db@
                }
            },
        },
{
    match create_request(body) {
        Err(e) => Err(e),
        Ok(new_course) => post_new_course(app_state, new_course, posted_time),
    }
}

/// Deletes a course by its key.
pub fn delete_course(app_state: &mut AppState, tutor_id: i32, course_id: i32) -> (r: Result<String, EzyTutorError>)
    requires
        old(app_state).well_formed(),
    ensures
        final(app_state).well_formed(),
        final(app_state).visit_count == old(app_state).visit_count,
        match old(app_state).db@.lookup(tutor_id, course_id) {
            Some(c) => (r matches Ok(m) && m@ == "Deleted 1 record"@)
                && final(app_state).db@ == old(app_state).db@.after_delete(tutor_id, course_id),
            None => (r matches Err(e) && e.is_not_found() && e.spec_message().len() > 0)
                && final(app_state).db@ == old(app_state).db@,
        },
{
    app_state.db.delete_course(tutor_id, course_id)
}

/// Applies a partial update to a course and returns the merged course.
pub fn update_course_details(app_state: &mut AppState, update_course: UpdateCourse, tutor_id: i32, course_id: i32) -> (r: Result<Course, EzyTutorError>)
    requires
        old(app_state).well_formed(),
    ensures
        final(app_state).well_formed(),
        final(app_state).visit_count == old(app_state).visit_count,
        match old(app_state).db@.lookup(tutor_id, course_id) {
            Some(c) => r == Ok::<Course, EzyTutorError>(c.spec_merged(update_course))
                && final(app_state).db@ == old(app_state).db@.after_update(tutor_id, course_id, update_course),
            None => (r matches Err(e) && e.is_not_found() && e.spec_message().len() > 0)
                && final(app_state).db@ == old(app_state).db@,
        },
{
    app_state.db.update_course(tutor_id, course_id, &update_course)
}


/// Applies a partial update from the outcome of reading the request body.
/// A body that could not be read is `InvalidInput`, and the store is not
/// touched.
pub fn update_course_details_parsed(app_state: &mut AppState, body: Result<UpdateCourse, String>, tutor_id: i32, course_id: i32) -> (r: Result<Course, EzyTutorError>)
    requires
        old(app_state).well_formed(),
    ensures
        final(app_state).well_formed(),
        final(app_state).visit_count == old(app_state).visit_count,
        match body {
            Err(m) => r == Err::<Course, EzyTutorError>(EzyTutorError::InvalidInput(m))
                && final(app_state).db@ == old(app_state).db@,
            Ok(update) => match old(app_state).db@.lookup(tutor_id, course_id) {
                Some(c) => r == Ok::<Course, EzyTutorError>(c.spec_merged(update))
                    && final(app_state).db@ == old(app_state).db@.after_update(tutor_id, course_id, update),
                None => (r matches Err(e) && e.is_not_found() && e.spec_message().len() > 0)
                    && final(app_state).db@ == old(app_state).db@,
            },
        },
{
    match update_request(body) {
        Err(e) => Err(e),
        Ok(update) => update_course_details(app_state, update, tutor_id, course_id),
    }
}

} // verus!
