use vstd::prelude::*;

verus! {

/// A moment in time: whole seconds since the Unix epoch (UTC) and the
/// nanoseconds past that second.
#[derive(Clone, Copy, Debug, PartialEq, Eq, Structural)]
pub struct PostedTime {
    pub secs: i64,
    pub nanos: u32,
}

/// A course as storage holds it.
///
/// `(tutor_id, course_id)` is its key. `posted_time` is the moment of
/// insertion, set by storage.
#[derive(Debug)]
pub struct Course {
    pub course_id: i32,
    pub tutor_id: i32,
    pub course_name: String,
    pub course_description: Option<String>,
    pub course_format: Option<String>,
    pub course_structure: Option<String>,
    pub course_duration: Option<String>,
    pub course_price: Option<i32>,
    pub course_lenguage: Option<String>,
    pub course_level: Option<String>,
    pub posted_time: Option<PostedTime>,
}

/// The input of a course creation: every field of a course but its id and
/// its posting time.
#[derive(Debug)]
pub struct CreateCourse {
    pub tutor_id: i32,
    pub course_name: String,
    pub course_description: Option<String>,
    pub course_format: Option<String>,
    pub course_structure: Option<String>,
    pub course_duration: Option<String>,
    pub course_price: Option<i32>,
    pub course_lenguage: Option<String>,
    pub course_level: Option<String>,
}

/// The input of a partial update: a present field replaces the stored value,
/// an absent one leaves it as it is.
#[derive(Debug)]
pub struct UpdateCourse {
    pub course_name: Option<String>,
    pub course_description: Option<String>,
    pub course_format: Option<String>,
    pub course_structure: Option<String>,
    pub course_duration: Option<String>,
    pub course_price: Option<i32>,
    pub course_lenguage: Option<String>,
    pub course_level: Option<String>,
}

/// A copy of an optional string.
pub fn copy_text(s: &Option<String>) -> (r: Option<String>)
    ensures
        r == *s,
{
    match s {
        Some(t) => Some(t.clone()),
        None => None,
    }
}

/// The present value if there is one, else the stored one.
pub open spec fn overlay<T>(update: Option<T>, stored: T) -> T {
    match update {
        Some(v) => v,
        None => stored,
    }
}

/// An optional field after a partial update: replaced when the update holds
/// a value, kept otherwise.
pub open spec fn overlay_opt<T>(update: Option<T>, stored: Option<T>) -> Option<T> {
    match update {
        Some(v) => Some(v),
        None => stored,
    }
}

fn merge_text(update: &Option<String>, stored: &Option<String>) -> (r: Option<String>)
    ensures
        r == overlay_opt(*update, *stored),
{
    match update {
        Some(v) => Some(v.clone()),
        None => copy_text(stored),
    }
}

impl Course {
    /// The course that storage makes of a creation request, with the id and
    /// the time that it assigns.
    pub open spec fn spec_from_create(course_id: i32, new_course: CreateCourse, posted_time: PostedTime) -> Course {
        Course {
            course_id,
            tutor_id: new_course.tutor_id,
            course_name: new_course.course_name,
            course_description: new_course.course_description,
            course_format: new_course.course_format,
            course_structure: new_course.course_structure,
            course_duration: new_course.course_duration,
            course_price: new_course.course_price,
            course_lenguage: new_course.course_lenguage,
            course_level: new_course.course_level,
            posted_time: Some(posted_time),
        }
    }

    /// The course after a partial update: the key and the posting time stay,
    /// each field present in the update replaces the stored one.
    pub open spec fn spec_merged(self, update: UpdateCourse) -> Course {
        Course {
            course_id: self.course_id,
            tutor_id: self.tutor_id,
            course_name: overlay(update.course_name, self.course_name),
            course_description: overlay_opt(update.course_description, self.course_description),
            course_format: overlay_opt(update.course_format, self.course_format),
            course_structure: overlay_opt(update.course_structure, self.course_structure),
            course_duration: overlay_opt(update.course_duration, self.course_duration),
            course_price: overlay_opt(update.course_price, self.course_price),
            course_lenguage: overlay_opt(update.course_lenguage, self.course_lenguage),
            course_level: overlay_opt(update.course_level, self.course_level),
            posted_time: self.posted_time,
        }
    }

    /// Whether the course has the key `(tutor_id, course_id)`.
    pub open spec fn has_key(self, tutor_id: i32, course_id: i32) -> bool {
        self.tutor_id == tutor_id && self.course_id == course_id
    }

    pub fn from_create(course_id: i32, new_course: CreateCourse, posted_time: PostedTime) -> (r: Course)
        ensures
            r == Course::spec_from_create(course_id, new_course, posted_time),
    {
        Course {
            course_id,
            tutor_id: new_course.tutor_id,
            course_name: new_course.course_name,
            course_description: new_course.course_description,
            course_format: new_course.course_format,
            course_structure: new_course.course_structure,
            course_duration: new_course.course_duration,
            course_price: new_course.course_price,
            course_lenguage: new_course.course_lenguage,
            course_level: new_course.course_level,
            posted_time: Some(posted_time),
        }
    }

    /// A field-by-field copy.
    pub fn copy(&self) -> (r: Course)
        ensures
            r == *self,
    {
        Course {
            course_id: self.course_id,
            tutor_id: self.tutor_id,
            course_name: self.course_name.clone(),
            course_description: copy_text(&self.course_description),
            course_format: copy_text(&self.course_format),
            course_structure: copy_text(&self.course_structure),
            course_duration: copy_text(&self.course_duration),
            course_price: self.course_price,
            course_lenguage: copy_text(&self.course_lenguage),
            course_level: copy_text(&self.course_level),
            posted_time: self.posted_time,
        }
    }

    /// Applies a partial update: fields absent from `update` keep their
    /// stored values.
    pub fn merged(&self, update: &UpdateCourse) -> (r: Course)
        ensures
            r == self.spec_merged(*update),
    {
        let course_name = match &update.course_name {
            Some(v) => v.clone(),
            None => self.course_name.clone(),
        };
        Course {
            course_id: self.course_id,
            tutor_id: self.tutor_id,
            course_name,
            course_description: merge_text(&update.course_description, &self.course_description),
            course_format: merge_text(&update.course_format, &self.course_format),
            course_structure: merge_text(&update.course_structure, &self.course_structure),
            course_duration: merge_text(&update.course_duration, &self.course_duration),
            course_price: match update.course_price {
                Some(p) => Some(p),
                None => self.course_price,
            },
            course_lenguage: merge_text(&update.course_lenguage, &self.course_lenguage),
            course_level: merge_text(&update.course_level, &self.course_level),
            posted_time: self.posted_time,
        }
    }
}

} // verus!
