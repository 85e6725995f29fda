use vstd::prelude::*;
use crate::catalog::{CatalogView, taught_by, key_index, lemma_key_index, lemma_update_keeps_keys};
use crate::handlers::AppState;
use crate::models::{Course, CreateCourse, PostedTime, UpdateCourse};

verus! {

/// A tutor that teaches no course in the catalog gets an empty listing, not
/// a failure.
pub proof fn lemma_list_without_courses_is_empty(db: CatalogView, tutor_id: i32)
    requires
        forall|i: int| 0 <= i < db.courses.len() ==> (#[trigger] db.courses[i]).tutor_id != tutor_id,
    ensures
        db.courses_of(tutor_id).len() == 0,
{
    lemma_filter_none(db.courses, tutor_id);
}

proof fn lemma_filter_none(s: Seq<Course>, tutor_id: i32)
    requires
        forall|i: int| 0 <= i < s.len() ==> (#[trigger] s[i]).tutor_id != tutor_id,
    ensures
        s.filter(taught_by(tutor_id)).len() == 0,
    decreases s.len(),
{
    reveal(Seq::filter);
    if s.len() > 0 {
        let p = s.drop_last();
        assert forall|i: int| 0 <= i < p.len() implies (#[trigger] p[i]).tutor_id != tutor_id by {
            assert(p[i] == s[i]);
        }
        lemma_filter_none(p, tutor_id);
        assert(s[s.len() - 1].tutor_id != tutor_id);
    }
}

/// A key that no stored course carries has no lookup result, so fetching,
/// updating or deleting it reports `NotFound`.
pub proof fn lemma_absent_key_has_no_course(db: CatalogView, tutor_id: i32, course_id: i32)
    requires
        forall|i: int| 0 <= i < db.courses.len() ==> !(#[trigger] db.courses[i]).has_key(tutor_id, course_id),
    ensures
        db.lookup(tutor_id, course_id) is None,
{
}

/// Creating a course and then fetching it by its tutor and the id that was
/// returned yields the course as created: the same name and description, and
/// the posting time that storage stamped.
pub proof fn lemma_create_then_get(db: CatalogView, new_course: CreateCourse, posted_time: PostedTime)
    requires
        db.well_formed(),
        db.can_create(),
    ensures
        ({
            let after = db.after_create(new_course, posted_time);
            let id = db.next_id as i32;
            &&& after.well_formed()
            &&& after.lookup(new_course.tutor_id, id) == Some(Course::spec_from_create(id, new_course, posted_time))
            &&& Course::spec_from_create(id, new_course, posted_time).course_name == new_course.course_name
            &&& Course::spec_from_create(id, new_course, posted_time).course_description == new_course.course_description
            &&& Course::spec_from_create(id, new_course, posted_time).posted_time == Some(posted_time)
        }),
{
    let after = db.after_create(new_course, posted_time);
    let id = db.next_id as i32;
    let s = after.courses;
    let n = db.courses.len() as int;
    assert(s[n] == Course::spec_from_create(id, new_course, posted_time));
    assert forall|a: int, b: int|
        0 <= a < s.len() && 0 <= b < s.len() && a != b
            implies !(#[trigger] s[a]).has_key(#[trigger] s[b].tutor_id, s[b].course_id) by {
        if a < n && b < n {
            assert(s[a] == db.courses[a] && s[b] == db.courses[b]);
        } else if a < n {
            assert(s[a] == db.courses[a]);
        } else {
            assert(s[b] == db.courses[b]);
        }
    }
    assert forall|k: int| 0 <= k < s.len() implies (#[trigger] s[k]).course_id < after.next_id by {
        if k < n {
            assert(s[k] == db.courses[k]);
        }
    }
    lemma_key_index(s, new_course.tutor_id, id, n);
}

/// An update that holds only a level changes the level of that course and
/// nothing else: every other field, and every other course, stays as stored.
pub proof fn lemma_update_level_only(db: CatalogView, tutor_id: i32, course_id: i32, update: UpdateCourse)
    requires
        db.well_formed(),
        db.lookup(tutor_id, course_id) is Some,
        update.course_name is None,
        update.course_description is None,
        update.course_format is None,
        update.course_structure is None,
        update.course_duration is None,
        update.course_price is None,
        update.course_lenguage is None,
    ensures
        ({
            let before = db.lookup(tutor_id, course_id)->Some_0;
            let after = db.after_update(tutor_id, course_id, update);
            let i = key_index(db.courses, tutor_id, course_id);
            &&& after.lookup(tutor_id, course_id) == Some(Course { course_level: overlay_level(update, before), ..before })
            &&& after.courses.len() == db.courses.len()
            &&& forall|k: int| 0 <= k < db.courses.len() && k != i ==> #[trigger] after.courses[k] == db.courses[k]
        }),
{
    let i = key_index(db.courses, tutor_id, course_id);
    let after = db.after_update(tutor_id, course_id, update);
    assert(after.courses[i].has_key(tutor_id, course_id));
    lemma_update_keeps_keys(db, i, after.courses);
    lemma_key_index(after.courses, tutor_id, course_id, i);
}

/// The level that an update leaves: the new one when given, else the stored one.
pub open spec fn overlay_level(update: UpdateCourse, before: Course) -> Option<String> {
    crate::models::overlay_opt(update.course_level, before.course_level)
}

/// Once a course is deleted its key is gone: deleting it a second time, like
/// fetching it, reports `NotFound`.
pub proof fn lemma_delete_twice(db: CatalogView, tutor_id: i32, course_id: i32)
    requires
        db.well_formed(),
        db.lookup(tutor_id, course_id) is Some,
    ensures
        db.after_delete(tutor_id, course_id).lookup(tutor_id, course_id) is None,
{
    let i = key_index(db.courses, tutor_id, course_id);
    let s = db.after_delete(tutor_id, course_id).courses;
    assert(db.courses[i].has_key(tutor_id, course_id));
    assert forall|k: int| 0 <= k < s.len() implies !(#[trigger] s[k]).has_key(tutor_id, course_id) by {
        let k0 = if k < i { k } else { k + 1 };
        assert(s[k] == db.courses[k0]);
        assert(k0 != i);
    }
}

/// Health checks run one after another under the lock, each on the state the
/// previous one left, report strictly increasing counts: no two report the
/// same count.
pub proof fn lemma_health_counts_increase(states: Seq<AppState>)
    requires
        forall|i: int| 0 <= i < states.len() - 1 ==> (#[trigger] states[i + 1]).visit_count == states[i].visit_count + 1,
    ensures
        forall|i: int, j: int| 0 <= i < j < states.len() ==> (#[trigger] states[i]).visit_count < (#[trigger] states[j]).visit_count,
    decreases states.len(),
{
    if states.len() > 1 {
        let prefix = states.drop_last();
        assert forall|i: int| 0 <= i < prefix.len() - 1 implies (#[trigger] prefix[i + 1]).visit_count == prefix[i].visit_count + 1 by {
            assert(prefix[i + 1] == states[i + 1] && prefix[i] == states[i]);
        }
        lemma_health_counts_increase(prefix);
        let last = states.len() - 1;
        assert forall|i: int, j: int| 0 <= i < j < states.len() implies (#[trigger] states[i]).visit_count < (#[trigger] states[j]).visit_count by {
            if j < last {
                assert(prefix[i] == states[i] && prefix[j] == states[j]);
            } else {
                let k = last - 1;
                assert(states[k + 1].visit_count == states[k].visit_count + 1);
                if i < k {
                    assert(prefix[i] == states[i] && prefix[k] == states[k]);
                }
            }
        }
    }
}

} // verus!
