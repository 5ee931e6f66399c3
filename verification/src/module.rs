//! Modules of a course.

use vstd::prelude::*;

verus! {

/// A module in full.
#[derive(Clone, Debug, PartialEq, Eq)]
pub struct ModuleInfo {
    pub id: i32,
    pub course_id: i32,
    pub title: String,
    pub description: String,
    pub theory: String,
}

/// A module without its theory, as shown to readers who do not own the
/// course.
#[derive(Clone, Debug, PartialEq, Eq)]
pub struct ModuleShortInfo {
    pub id: i32,
    pub course_id: i32,
    pub title: String,
    pub description: String,
}

impl ModuleInfo {
    /// What a reader who does not own the course sees of the module asked
    /// for as module `module_id` of course `course_id`: title and
    /// description, under the identifiers of the request.
    pub fn preview(self, course_id: i32, module_id: i32) -> (short: ModuleShortInfo)
        ensures
            short.id == module_id,
            short.course_id == course_id,
            short.title == self.title,
            short.description == self.description,
    {
        ModuleShortInfo {
            id: module_id,
            course_id,
            title: self.title,
            description: self.description,
        }
    }
}

/// Whether a reader may see a module in full: they are known and own the
/// course.
pub fn sees_theory(reader: Option<u32>, owns_course: bool) -> (full: bool)
    ensures
        full == (reader is Some && owns_course),
{
    reader.is_some() && owns_course
}

} // verus!
