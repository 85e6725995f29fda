use vstd::prelude::*;
use crate::errors::EzyTutorError;
use crate::models::{Course, CreateCourse, PostedTime, UpdateCourse};

verus! {

/// What a catalog holds: its courses in order of insertion, and the id that
/// the next created course receives.
pub struct CatalogView {
    pub courses: Seq<Course>,
    pub next_id: int,
}

/// The predicate "is taught by `tutor_id`".
pub open spec fn taught_by(tutor_id: i32) -> spec_fn(Course) -> bool {
    |c: Course| c.tutor_id == tutor_id
}

/// Whether some course in `s` has the key `(tutor_id, course_id)`.
pub open spec fn contains_key(s: Seq<Course>, tutor_id: i32, course_id: i32) -> bool {
    exists|i: int| 0 <= i < s.len() && (#[trigger] s[i]).has_key(tutor_id, course_id)
}

/// The position of the course with the given key, where there is one.
pub open spec fn key_index(s: Seq<Course>, tutor_id: i32, course_id: i32) -> int {
    choose|i: int| 0 <= i < s.len() && (#[trigger] s[i]).has_key(tutor_id, course_id)
}

/// No two courses share a key.
pub open spec fn unique_keys(s: Seq<Course>) -> bool {
    forall|i: int, j: int|
        0 <= i < s.len() && 0 <= j < s.len() && i != j
            ==> !(#[trigger] s[i]).has_key(#[trigger] s[j].tutor_id, s[j].course_id)
}

impl CatalogView {
    /// Keys are unique, ids lie below the next id, and the next id is positive.
    pub open spec fn well_formed(self) -> bool {
        &&& unique_keys(self.courses)
        &&& 1 <= self.next_id <= i32::MAX
        &&& forall|i: int| 0 <= i < self.courses.len() ==> (#[trigger] self.courses[i]).course_id < self.next_id
    }

    /// The courses of one tutor, in order of insertion.
    pub open spec fn courses_of(self, tutor_id: i32) -> Seq<Course> {
        self.courses.filter(taught_by(tutor_id))
    }

    /// The course with the given key, if the catalog holds one.
    pub open spec fn lookup(self, tutor_id: i32, course_id: i32) -> Option<Course> {
        if contains_key(self.courses, tutor_id, course_id) {
            Some(self.courses[key_index(self.courses, tutor_id, course_id)])
        } else {
            None
        }
    }

    /// Whether a course can still be created: the id space is not used up.
    pub open spec fn can_create(self) -> bool {
        self.next_id < i32::MAX
    }

    /// The catalog after creating `new_course` at `posted_time`.
    pub open spec fn after_create(self, new_course: CreateCourse, posted_time: PostedTime) -> CatalogView {
        CatalogView {
            courses: self.courses.push(
                Course::spec_from_create(self.next_id as i32, new_course, posted_time),
            ),
            next_id: self.next_id + 1,
        }
    }

    /// The catalog after a partial update of the course with the given key.
    pub open spec fn after_update(self, tutor_id: i32, course_id: i32, update: UpdateCourse) -> CatalogView {
        let i = key_index(self.courses, tutor_id, course_id);
        CatalogView {
            courses: self.courses.update(i, self.courses[i].spec_merged(update)),
            next_id: self.next_id,
        }
    }

    /// The catalog after deleting the course with the given key.
    pub open spec fn after_delete(self, tutor_id: i32, course_id: i32) -> CatalogView {
        CatalogView {
            courses: self.courses.remove(key_index(self.courses, tutor_id, course_id)),
            next_id: self.next_id,
        }
    }
}

/// With unique keys, a position that holds the key is the key's position.
pub proof fn lemma_key_index(s: Seq<Course>, tutor_id: i32, course_id: i32, i: int)
    requires
        unique_keys(s),
        0 <= i < s.len(),
        s[i].has_key(tutor_id, course_id),
    ensures
        contains_key(s, tutor_id, course_id),
        key_index(s, tutor_id, course_id) == i,
{
    let j = key_index(s, tutor_id, course_id);
    assert(0 <= j < s.len() && s[j].has_key(tutor_id, course_id));
}

/// An in-memory store that keeps the data access contract: lookups by
/// `(tutor_id, course_id)`, creation with a store-assigned id and the time of
/// the request as posting time,
/// partial update and deletion, each reporting a missing key as `NotFound`.
pub struct CourseCatalog {
    courses: Vec<Course>,
    next_id: i32,
}

impl View for CourseCatalog {
    type V = CatalogView;

    closed spec fn view(&self) -> CatalogView {
        CatalogView { courses: self.courses@, next_id: self.next_id as int }
    }
}

/// Replacing one course by another with the same key keeps a catalog well
/// formed.
pub proof fn lemma_update_keeps_keys(db: CatalogView, i: int, courses: Seq<Course>)
    requires
        db.well_formed(),
        0 <= i < db.courses.len(),
        courses.len() == db.courses.len(),
        courses[i].has_key(db.courses[i].tutor_id, db.courses[i].course_id),
        forall|k: int| 0 <= k < courses.len() && k != i ==> courses[k] == db.courses[k],
    ensures
        (CatalogView { courses, next_id: db.next_id }).well_formed(),
{
    assert forall|a: int, b: int|
        0 <= a < courses.len() && 0 <= b < courses.len() && a != b
            implies !(#[trigger] courses[a]).has_key(#[trigger] courses[b].tutor_id, courses[b].course_id) by {
        assert(courses[a].has_key(db.courses[a].tutor_id, db.courses[a].course_id));
        assert(courses[b].has_key(db.courses[b].tutor_id, db.courses[b].course_id));
    }
    assert forall|k: int| 0 <= k < courses.len() implies (#[trigger] courses[k]).course_id < db.next_id by {
        assert(courses[k].course_id == db.courses[k].course_id);
    }
}

fn not_found() -> (e: EzyTutorError)
    ensures
        e.is_not_found(),
        e.spec_message().len() > 0,
{
    proof {
        reveal_strlit("Course id not found");
    }
    EzyTutorError::NotFound(String::from_str("Course id not found"))
}

impl CourseCatalog {
    /// An empty catalog; the first course created gets id 1.
    pub fn new() -> (r: CourseCatalog)
        ensures
            r@.courses.len() == 0,
            r@.next_id == 1,
            r@.well_formed(),
    {
        CourseCatalog { courses: Vec::new(), next_id: 1 }
    }

    fn find(&self, tutor_id: i32, course_id: i32) -> (r: Option<usize>)
        requires
            self@.well_formed(),
        ensures
            match r {
                Some(i) => i < self@.courses.len() && key_index(self@.courses, tutor_id, course_id) == i
                    && contains_key(self@.courses, tutor_id, course_id),
                None => !contains_key(self@.courses, tutor_id, course_id),
            },
    {
        let mut i: usize = 0;
        while i < self.courses.len()
            invariant
                i <= self.courses@.len(),
                self@.well_formed(),
                forall|k: int| 0 <= k < i ==> !(#[trigger] self.courses@[k]).has_key(tutor_id, course_id),
            decreases self.courses@.len() - i,
        {
            if self.courses[i].tutor_id == tutor_id && self.courses[i].course_id == course_id {
                proof {
                    lemma_key_index(self@.courses, tutor_id, course_id, i as int);
                }
                return Some(i);
            }
            i += 1;
        }
        None
    }

    /// All courses of a tutor, in order of insertion; empty, not an error,
    /// when the tutor has none.
    pub fn list_courses_for_tutor(&self, tutor_id: i32) -> (r: Vec<Course>)
        ensures
            r@ == self@.courses_of(tutor_id),
    {
        let mut out: Vec<Course> = Vec::new();
        let mut i: usize = 0;
        while i < self.courses.len()
            invariant
                i <= self.courses@.len(),
                out@ == self.courses@.subrange(0, i as int).filter(taught_by(tutor_id)),
            decreases self.courses@.len() - i,
        {
            proof {
                reveal(Seq::filter);
                assert(self.courses@.subrange(0, i + 1).drop_last() == self.courses@.subrange(0, i as int));
            }
            if self.courses[i].tutor_id == tutor_id {
                out.push(self.courses[i].copy());
            }
            i += 1;
        }
        assert(self.courses@.subrange(0, self.courses@.len() as int) == self.courses@);
        out
    }

    /// The course with the given key, or `NotFound` when there is none.
    pub fn get_course(&self, tutor_id: i32, course_id: i32) -> (r: Result<Course, EzyTutorError>)
        requires
            self@.well_formed(),
        ensures
            match self@.lookup(tutor_id, course_id) {
                Some(c) => r == Ok::<Course, EzyTutorError>(c),
                None => r matches Err(e) && e.is_not_found() && e.spec_message().len() > 0,
            },
    {
        match self.find(tutor_id, course_id) {
            Some(i) => Ok(self.courses[i].copy()),
            None => Err(not_found()),
        }
    }

    /// Creates a course stamped with `posted_time` and the next free id.
    /// Fails with `DBError` only once the id space is used up.
    pub fn create_course(&mut self, new_course: CreateCourse, posted_time: PostedTime) -> (r: Result<Course, EzyTutorError>)
        requires
            old(self)@.well_formed(),
        ensures
            final(self)@.well_formed(),
            old(self)@.can_create() ==> {
                &&& r == Ok::<Course, EzyTutorError>(
                    Course::spec_from_create(old(self)@.next_id as i32, new_course, posted_time),
                )
                &&& final(self)@ == old(self)@.after_create(new_course, posted_time)
            },
            !old(self)@.can_create() ==> {
                &&& r matches Err(e) && e.is_db_error()
                &&& final(self)@ == old(self)@
            },
    {
        if self.next_id == i32::MAX {
            return Err(EzyTutorError::DBError(String::from_str("No course id left to assign")));
        }
        let course = Course::from_create(self.next_id, new_course, posted_time);
        let echoed = course.copy();
        self.courses.push(course);
        self.next_id = self.next_id + 1;
        Ok(echoed)
    }

    /// Applies a partial update to the course with the given key and returns
    /// the merged course, or `NotFound` when there is none.
    pub fn update_course(&mut self, tutor_id: i32, course_id: i32, update: &UpdateCourse) -> (r: Result<Course, EzyTutorError>)
        requires
            old(self)@.well_formed(),
        ensures
            final(self)@.well_formed(),
            match old(self)@.lookup(tutor_id, course_id) {
                Some(c) => r == Ok::<Course, EzyTutorError>(c.spec_merged(*update))
                    && final(self)@ == old(self)@.after_update(tutor_id, course_id, *update),
                None => (r matches Err(e) && e.is_not_found() && e.spec_message().len() > 0)
                    && final(self)@ == old(self)@,
            },
    {
        match self.find(tutor_id, course_id) {
            Some(i) => {
                let merged = self.courses[i].merged(update);
                let echoed = merged.copy();
                self.courses.set(i, merged);
                proof {
                    lemma_update_keeps_keys(old(self)@, i as int, self@.courses);
                }
                Ok(echoed)
            },
            None => Err(not_found()),
        }
    }

    /// Deletes the course with the given key, or reports `NotFound` when
    /// there is none.
    pub fn delete_course(&mut self, tutor_id: i32, course_id: i32) -> (r: Result<String, EzyTutorError>)
        requires
            old(self)@.well_formed(),
        ensures
            final(self)@.well_formed(),
            match old(self)@.lookup(tutor_id, course_id) {
                Some(c) => (r matches Ok(m) && m@ == "Deleted 1 record"@)
                    && final(self)@ == old(self)@.after_delete(tutor_id, course_id),
                None => (r matches Err(e) && e.is_not_found() && e.spec_message().len() > 0)
                    && final(self)@ == old(self)@,
            },
    {
        match self.find(tutor_id, course_id) {
            Some(i) => {
                let ghost before = self@.courses;
                let _removed = self.courses.remove(i);
                proof {
                    let s = self@.courses;
                    assert forall|k: int| 0 <= k < s.len() implies #[trigger] s[k] == before[if k < i { k } else { k + 1 }] by {}
                    assert forall|a: int, b: int|
                        0 <= a < s.len() && 0 <= b < s.len() && a != b
                            implies !(#[trigger] s[a]).has_key(#[trigger] s[b].tutor_id, s[b].course_id) by {
                        let a0 = if a < i { a } else { a + 1 };
                        let b0 = if b < i { b } else { b + 1 };
                        assert(s[a] == before[a0]);
                        assert(s[b] == before[b0]);
                    }
                }
                Ok(String::from_str("Deleted 1 record"))
            },
            None => Err(not_found()),
        }
    }
}

} // verus!
