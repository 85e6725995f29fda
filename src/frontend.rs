use vstd::prelude::*;
use crate::models::{CreateCourse, UpdateCourse as CourseChanges};
use crate::text::{signed_decimal, signed_decimal_text};

verus! {

/// The sign-up form of a tutor.
#[derive(Debug)]
pub struct TutorRegisterForm {
    pub username: String,
    pub password: String,
    pub confirmation: String,
    pub name: String,
    pub imageurl: String,
    pub profile: String,
}

/// A tutor as the service reports it.
#[derive(Debug)]
pub struct TutorResponse {
    pub tutor_id: i32,
    pub tutor_name: String,
    pub tutor_pic_url: String,
    pub tutor_profile: String,
}

/// A user account of the web front end.
#[derive(Debug)]
pub struct User {
    pub username: String,
    pub tutor_id: i32,
    pub user_password: String,
}

/// The sign-in form of a tutor.
#[derive(Debug)]
pub struct TutorSigninForm {
    pub username: String,
    pub password: String,
}

/// The course form of the web front end; the tutor comes from the path.
#[derive(Debug)]
pub struct NewCourse {
    pub course_name: String,
    pub course_description: String,
    pub course_format: String,
    pub course_duration: String,
    pub course_structure: Option<String>,
    pub course_price: Option<i32>,
    pub course_lenguage: Option<String>,
    pub course_level: Option<String>,
}

/// The course that the service returns after a creation.
#[derive(Debug)]
pub struct NewCourseResponse {
    pub course_id: i32,
    pub tutor_id: i32,
    pub course_name: String,
    pub course_description: String,
    pub course_format: String,
    pub course_duration: String,
    pub course_structure: Option<String>,
    pub course_price: Option<i32>,
    pub course_lenguage: Option<String>,
    pub course_level: Option<String>,
    pub posted_time: String,
}

/// The change form of the web front end: only the fields given change.
#[derive(Debug)]
pub struct UpdateCourse {
    pub course_name: Option<String>,
    pub course_description: Option<String>,
    pub course_format: Option<String>,
    pub course_duration: Option<String>,
    pub course_structure: Option<String>,
    pub course_price: Option<i32>,
    pub course_lenguage: Option<String>,
    pub course_level: Option<String>,
}

/// The course that the service returns after an update.
#[derive(Debug)]
pub struct UpdateCourseResponse {
    pub course_id: i32,
    pub tutor_id: i32,
    pub course_name: String,
    pub course_description: String,
    pub course_format: String,
    pub course_duration: String,
    pub course_structure: String,
    pub course_price: i32,
    pub course_lenguage: String,
    pub course_level: String,
    pub posted_time: String,
}

impl NewCourse {
    /// The creation request that the front end sends for `tutor_id`.
    pub open spec fn spec_to_create_course(self, tutor_id: i32) -> CreateCourse {
        CreateCourse {
            tutor_id,
            course_name: self.course_name,
            course_description: Some(self.course_description),
            course_format: Some(self.course_format),
            course_structure: self.course_structure,
            course_duration: Some(self.course_duration),
            course_price: self.course_price,
            course_lenguage: self.course_lenguage,
            course_level: self.course_level,
        }
    }

    /// Turns the form into the service's creation request for `tutor_id`.
    pub fn to_create_course(self, tutor_id: i32) -> (r: CreateCourse)
        ensures
            r == self.spec_to_create_course(tutor_id),
    {
        CreateCourse {
            tutor_id,
            course_name: self.course_name,
            course_description: Some(self.course_description),
            course_format: Some(self.course_format),
            course_structure: self.course_structure,
            course_duration: Some(self.course_duration),
            course_price: self.course_price,
            course_lenguage: self.course_lenguage,
            course_level: self.course_level,
        }
    }
}

impl UpdateCourse {
    /// The partial update that the front end sends: the same fields, absent
    /// ones left absent.
    pub open spec fn spec_to_course_changes(self) -> CourseChanges {
        CourseChanges {
            course_name: self.course_name,
            course_description: self.course_description,
            course_format: self.course_format,
            course_structure: self.course_structure,
            course_duration: self.course_duration,
            course_price: self.course_price,
            course_lenguage: self.course_lenguage,
            course_level: self.course_level,
        }
    }

    /// Turns the form into the service's partial update.
    pub fn to_course_changes(self) -> (r: CourseChanges)
        ensures
            r == self.spec_to_course_changes(),
    {
        CourseChanges {
            course_name: self.course_name,
            course_description: self.course_description,
            course_format: self.course_format,
            course_structure: self.course_structure,
            course_duration: self.course_duration,
            course_price: self.course_price,
            course_lenguage: self.course_lenguage,
            course_level: self.course_level,
        }
    }
}

/// The address of one course on the service at `base`:
/// `<base>/courses/<tutor_id>/<course_id>`.
pub open spec fn spec_course_url(base: Seq<char>, tutor_id: i32, course_id: i32) -> Seq<char> {
    base + "/courses/"@ + signed_decimal(tutor_id as int) + "/"@ + signed_decimal(course_id as int)
}

/// The address that the front end reads, changes or deletes a course at.
pub fn course_url(base: &str, tutor_id: i32, course_id: i32) -> (r: String)
    ensures
        r@ == spec_course_url(base@, tutor_id, course_id),
{
    let mut url = String::from_str(base);
    url.append("/courses/");
    let tutor = signed_decimal_text(tutor_id);
    url.append(tutor.as_str());
    url.append("/");
    let course = signed_decimal_text(course_id);
    url.append(course.as_str());
    url
}

} // verus!
