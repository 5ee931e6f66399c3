//! Courses: what a user sees of them, and how several are asked for at
//! once.

use vstd::prelude::*;

verus! {

/// A course in a user's list.
#[derive(Clone, Debug, PartialEq, Eq)]
pub struct ShortCourseInfo {
    pub course_id: i32,
    pub title: String,
    pub brief_description: String,
    pub picture_url: String,
    pub tasks_passed: i32,
    pub tasks_total: i32,
}

impl ShortCourseInfo {
    /// A list entry with the given fields.
    pub fn new(
        course_id: i32,
        title: String,
        brief_description: String,
        picture_url: String,
        tasks_passed: i32,
        tasks_total: i32,
    ) -> (info: ShortCourseInfo)
        ensures
            info.course_id == course_id,
            info.title == title,
            info.brief_description == brief_description,
            info.picture_url == picture_url,
            info.tasks_passed == tasks_passed,
            info.tasks_total == tasks_total,
    {
        ShortCourseInfo { course_id, title, brief_description, picture_url, tasks_passed, tasks_total }
    }
}

/// How far a user has come in a course.
#[derive(Clone, Copy, Debug, PartialEq, Eq, Structural)]
pub struct CourseProgress {
    pub course_id: Option<i32>,
    pub tasks_passed: Option<i64>,
    pub tasks_total: Option<i64>,
}

impl CourseProgress {
    /// The progress of a user in a course of `tasks_total` tasks, of which
    /// they have passed `tasks_passed`.
    pub fn new(course_id: i32, tasks_passed: i64, tasks_total: i64) -> (progress: CourseProgress)
        ensures
            progress == (CourseProgress {
                course_id: Some(course_id),
                tasks_passed: Some(tasks_passed),
                tasks_total: Some(tasks_total),
            }),
    {
        CourseProgress {
            course_id: Some(course_id),
            tasks_passed: Some(tasks_passed),
            tasks_total: Some(tasks_total),
        }
    }
}

/// The identifiers of the courses that a request asks for.
#[derive(Clone, Debug, PartialEq, Eq)]
pub struct IdsStruct {
    pub ids: Vec<i32>,
}

/// What a reader may see of a course beyond its description.
#[derive(Clone, Copy, Debug, PartialEq, Eq, Structural)]
pub struct CourseAccess {
    pub has_course: bool,
    pub tasks_passed: Option<i64>,
    pub tasks_total: Option<i64>,
}

impl CourseAccess {
    /// What a reader sees who is not known.
    pub open spec fn anonymous() -> CourseAccess {
        CourseAccess { has_course: false, tasks_passed: None, tasks_total: None }
    }

    /// What a known reader sees: whether they own the course; how many of
    /// its tasks they have passed, where they own it and the count could be
    /// had; and how many tasks it has, where that count could be had.
    pub open spec fn known(owned: bool, passed: Option<i64>, total: Option<i64>) -> CourseAccess {
        CourseAccess {
            has_course: owned,
            tasks_passed: if owned {
                passed
            } else {
                None
            },
            tasks_total: total,
        }
    }

    /// What `reader` sees of a course: `owned` says whether they own it,
    /// `passed` and `total` are the counts as far as they could be had.
    pub fn resolve(
        reader: Option<u32>,
        owned: bool,
        passed: Option<i64>,
        total: Option<i64>,
    ) -> (access: CourseAccess)
        ensures
            access == (match reader {
                Some(_) => Self::known(owned, passed, total),
                None => Self::anonymous(),
            }),
    {
        match reader {
            Some(_) => CourseAccess {
                has_course: owned,
                tasks_passed: if owned {
                    passed
                } else {
                    None
                },
                tasks_total: total,
            },
            None => CourseAccess { has_course: false, tasks_passed: None, tasks_total: None },
        }
    }
}

/// The identifiers in `ids` at whose place `found` says no.
pub open spec fn not_found(ids: Seq<i32>, found: Seq<bool>) -> Seq<i32>
    recommends
        ids.len() == found.len(),
    decreases ids.len(),
{
    if ids.len() == 0 || found.len() == 0 {
        Seq::<i32>::empty()
    } else if found.last() {
        not_found(ids.drop_last(), found.drop_last())
    } else {
        not_found(ids.drop_last(), found.drop_last()).push(ids.last())
    }
}

/// The courses that are still to be fetched from the store, where `found`
/// says for each of `ids` whether the cache gave it.
pub fn ids_to_fetch(ids: &Vec<i32>, found: &Vec<bool>) -> (missing: Vec<i32>)
    requires
        ids.len() == found.len(),
    ensures
        missing@ == not_found(ids@, found@),
{
    let mut missing: Vec<i32> = Vec::new();
    let mut i: usize = 0;
    assert(ids@.take(0) =~= Seq::<i32>::empty());
    while i < ids.len()
        invariant
            i <= ids.len(),
            ids.len() == found.len(),
            missing@ == not_found(ids@.take(i as int), found@.take(i as int)),
        decreases ids.len() - i,
    {
        proof {
            assert(ids@.take(i + 1).drop_last() =~= ids@.take(i as int));
            assert(found@.take(i + 1).drop_last() =~= found@.take(i as int));
            assert(ids@.take(i + 1).last() == ids@[i as int]);
            assert(found@.take(i + 1).last() == found@[i as int]);
        }
        if !found[i] {
            missing.push(ids[i]);
        }
        i = i + 1;
    }
    assert(ids@.take(i as int) =~= ids@);
    assert(found@.take(i as int) =~= found@);
    missing
}

/// `count` question marks with a comma and a space between neighbours.
pub open spec fn placeholder_list(count: nat) -> Seq<char>
    decreases count,
{
    if count == 0 {
        Seq::<char>::empty()
    } else if count == 1 {
        seq!['?']
    } else {
        placeholder_list((count - 1) as nat) + seq![',', ' ', '?']
    }
}

/// The list of placeholders for `count` values in a query.
pub fn placeholders(count: usize) -> (list: String)
    ensures
        list@ == placeholder_list(count as nat),
{
    let mut list = String::new();
    let mut i: usize = 0;
    while i < count
        invariant
            i <= count,
            list@ == placeholder_list(i as nat),
        decreases count - i,
    {
        proof {
            reveal_strlit("?");
            reveal_strlit(", ?");
        }
        if i == 0 {
            list.append("?");
            assert(list@ =~= placeholder_list(1));
        } else {
            list.append(", ?");
            assert(list@ =~= placeholder_list((i + 1) as nat));
        }
        i = i + 1;
    }
    list
}

} // verus!
