//! Users: profile, courses and statistics.

use vstd::prelude::*;

verus! {

/// A user's name and address.
#[derive(Clone, Debug, PartialEq, Eq)]
pub struct UserInfo {
    pub username: String,
    pub email: String,
}

/// A user's name and address with the courses they own.
#[derive(Clone, Debug, PartialEq, Eq)]
pub struct UserInfoFull {
    pub username: String,
    pub email: String,
    pub courses: Vec<i32>,
}

/// How many courses a user owns, has begun and has completed.
#[derive(Clone, Copy, Debug, PartialEq, Eq, Structural)]
pub struct UserStats {
    pub courses_owned: i64,
    pub courses_started: i64,
    pub courses_completed: i64,
}

/// One row of a user joined with the courses they own: the course is
/// missing for a user without courses.
#[derive(Clone, Debug, PartialEq, Eq)]
pub struct UserCourseRow {
    pub username: String,
    pub email: String,
    pub course_id: Option<i32>,
}

/// Which part of a user's profile a request asks for.
#[derive(Clone, Copy, Debug, PartialEq, Eq, Structural)]
pub enum ValueInfo {
    Courses,
    User,
    All,
}

/// The query of a request for a user's profile.
#[derive(Clone, Copy, Debug, PartialEq, Eq, Structural)]
pub struct UserInfoQuery {
    pub value: ValueInfo,
}

/// The identifiers in `ids` that are present, in order.
pub open spec fn present(ids: Seq<Option<i32>>) -> Seq<i32>
    decreases ids.len(),
{
    if ids.len() == 0 {
        Seq::<i32>::empty()
    } else {
        match ids.last() {
            Some(id) => present(ids.drop_last()).push(id),
            None => present(ids.drop_last()),
        }
    }
}

/// The course column of a sequence of rows.
pub open spec fn course_column(rows: Seq<UserCourseRow>) -> Seq<Option<i32>> {
    rows.map_values(|row: UserCourseRow| row.course_id)
}

/// The courses that a user owns, from the course column of their rows.
pub fn get_courses_info(ids: &Vec<Option<i32>>) -> (courses: Vec<i32>)
    ensures
        courses@ == present(ids@),
{
    let mut courses: Vec<i32> = Vec::new();
    let mut i: usize = 0;
    assert(ids@.take(0) =~= Seq::<Option<i32>>::empty());
    while i < ids.len()
        invariant
            i <= ids.len(),
            courses@ == present(ids@.take(i as int)),
        decreases ids.len() - i,
    {
        proof {
            assert(ids@.take(i + 1).drop_last() =~= ids@.take(i as int));
            assert(ids@.take(i + 1).last() == ids@[i as int]);
        }
        match ids[i] {
            Some(id) => {
                courses.push(id);
            },
            None => {},
        }
        i = i + 1;
    }
    assert(ids@.take(i as int) =~= ids@);
    courses
}

impl ValueInfo {
    /// The word by which a request names the part.
    pub open spec fn name(self) -> Seq<char> {
        match self {
            ValueInfo::Courses => "courses"@,
            ValueInfo::User => "user"@,
            ValueInfo::All => "all"@,
        }
    }

    /// The part that a word names, if it names one.
    pub open spec fn named(word: Seq<char>) -> Option<ValueInfo> {
        if word == "courses"@ {
            Some(ValueInfo::Courses)
        } else if word == "user"@ {
            Some(ValueInfo::User)
        } else if word == "all"@ {
            Some(ValueInfo::All)
        } else {
            None
        }
    }

    /// The part of the profile that `word` names.
    pub fn parse(word: &String) -> (part: Option<ValueInfo>)
        ensures
            part == Self::named(word@),
    {
        if *word == String::from_str("courses") {
            Some(ValueInfo::Courses)
        } else if *word == String::from_str("user") {
            Some(ValueInfo::User)
        } else if *word == String::from_str("all") {
            Some(ValueInfo::All)
        } else {
            None
        }
    }
}

impl UserInfoFull {
    /// The profile that the rows of one user make up: name and address of
    /// the first row, and the courses of all rows. No rows, no user.
    pub fn from_rows(rows: Vec<UserCourseRow>) -> (profile: Option<UserInfoFull>)
        ensures
            rows@.len() == 0 <==> profile is None,
            profile matches Some(full) ==> full.username == rows@[0].username && full.email
                == rows@[0].email && full.courses@ == present(course_column(rows@)),
    {
        if rows.len() == 0 {
            return None;
        }
        let mut ids: Vec<Option<i32>> = Vec::new();
        let mut i: usize = 0;
        while i < rows.len()
            invariant
                i <= rows.len(),
                ids@ == course_column(rows@).take(i as int),
            decreases rows.len() - i,
        {
            ids.push(rows[i].course_id);
            assert(ids@ =~= course_column(rows@).take(i + 1));
            i = i + 1;
        }
        assert(ids@ =~= course_column(rows@));
        let courses = get_courses_info(&ids);
        let mut rows = rows;
        let first = rows.swap_remove(0);
        Some(UserInfoFull { username: first.username, email: first.email, courses })
    }
}

impl UserStats {
    /// The statistics of a user; a missing count of completed courses is
    /// zero.
    pub fn new(courses_owned: i64, courses_started: i64, courses_completed: Option<i64>) -> (stats:
        UserStats)
        ensures
            stats.courses_owned == courses_owned,
            stats.courses_started == courses_started,
            stats.courses_completed == (match courses_completed {
                Some(count) => count,
                None => 0,
            }),
    {
        UserStats {
            courses_owned,
            courses_started,
            courses_completed: match courses_completed {
                Some(count) => count,
                None => 0,
            },
        }
    }
}

} // verus!
