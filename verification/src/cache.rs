//! What the cache holds: the kinds of entries, the key and the lifetime of
//! each, and the entries that a change of progress makes stale.

use crate::text::{
    decimal_int, decimal_nat, free_of, is_digit, joined, lemma_decimal_int_chars,
    lemma_decimal_int_injective, lemma_decimal_nat_digits, lemma_decimal_nat_injective,
    lemma_joined_2, lemma_joined_3, lemma_joined_4, lemma_joined_injective, push_decimal,
    push_decimal_signed, text_views,
};
use vstd::prelude::*;

verus! {

/// Lifetime, in seconds, of entries that change when a user acts.
pub const SHORT_TTL: u64 = 120;

/// Lifetime, in seconds, of a user's lists and summaries.
pub const MEDIUM_TTL: u64 = 300;

/// Lifetime, in seconds, of entries of the catalogue, which hardly change.
pub const LONG_TTL: u64 = 3600;

/// One entry of the cache, named by what it is a snapshot of.
#[derive(Clone, Copy, Debug, PartialEq, Eq, Structural)]
pub enum CacheEntry {
    /// A user's progress on a task.
    Progress { user_id: u32, task_id: i32 },
    /// A task in full.
    Task { task_id: i32 },
    /// The tasks of a module.
    ModuleTasks { module_id: i32 },
    /// A course, as fetched among several.
    CourseOfBatch { course_id: i32 },
    /// A course, as fetched alone.
    Course { course_id: i32 },
    /// The identifiers of all courses.
    AllCourses,
    /// The identifiers of the courses that a user owns.
    UserCourses { user_id: u32 },
    /// The fact that a user owns a course.
    Ownership { user_id: u32, course_id: i32 },
    /// The identifiers of a user's favourite courses.
    Favourites { user_id: u32 },
    /// The modules of a course.
    CourseModules { course_id: i32 },
    /// A module of a course.
    Module { course_id: i32, module_id: i32 },
    /// A user's profile with their courses.
    UserInfoAll { user_id: u32 },
    /// A user's courses as part of their profile.
    UserInfoCourses { user_id: u32 },
    /// A user's statistics.
    UserStats { user_id: u32 },
}

impl CacheEntry {
    /// The parts of the entry's key: words and decimal numerals.
    pub open spec fn key_parts(self) -> Seq<Seq<char>> {
        match self {
            CacheEntry::Progress { user_id, task_id } => seq![
                "progress"@,
                decimal_nat(user_id as nat),
                decimal_int(task_id as int),
            ],
            CacheEntry::Task { task_id } => seq!["task"@, decimal_int(task_id as int)],
            CacheEntry::ModuleTasks { module_id } => seq![
                "modules"@,
                decimal_int(module_id as int),
                "tasks"@,
            ],
            CacheEntry::CourseOfBatch { course_id } => seq![
                "course"@,
                decimal_int(course_id as int),
            ],
            CacheEntry::Course { course_id } => seq!["courses"@, decimal_int(course_id as int)],
            CacheEntry::AllCourses => seq!["courses"@, "all"@],
            CacheEntry::UserCourses { user_id } => seq![
                "courses"@,
                "users"@,
                decimal_nat(user_id as nat),
            ],
            CacheEntry::Ownership { user_id, course_id } => seq![
                "ownership"@,
                decimal_nat(user_id as nat),
                decimal_int(course_id as int),
            ],
            CacheEntry::Favourites { user_id } => seq![
                "courses"@,
                "favourite"@,
                "user"@,
                decimal_nat(user_id as nat),
            ],
            CacheEntry::CourseModules { course_id } => seq![
                "courses"@,
                decimal_int(course_id as int),
                "modules"@,
            ],
            CacheEntry::Module { course_id, module_id } => seq![
                "courses"@,
                decimal_int(course_id as int),
                "modules"@,
                decimal_int(module_id as int),
            ],
            CacheEntry::UserInfoAll { user_id } => seq![
                "user"@,
                "info"@,
                "all"@,
                decimal_nat(user_id as nat),
            ],
            CacheEntry::UserInfoCourses { user_id } => seq![
                "user"@,
                "info"@,
                "courses"@,
                decimal_nat(user_id as nat),
            ],
            CacheEntry::UserStats { user_id } => seq![
                "user"@,
                "stats"@,
                decimal_nat(user_id as nat),
            ],
        }
    }

    /// The key of the entry: its parts with a colon between neighbours.
    pub open spec fn key_text(self) -> Seq<char> {
        joined(self.key_parts(), ':')
    }

    /// How long the entry may stay in the cache, in seconds.
    pub open spec fn lifetime(self) -> u64 {
        match self {
            CacheEntry::Progress { .. } => SHORT_TTL,
            CacheEntry::UserCourses { .. } => SHORT_TTL,
            CacheEntry::Ownership { .. } => SHORT_TTL,
            CacheEntry::Favourites { .. } => MEDIUM_TTL,
            CacheEntry::UserInfoAll { .. } => MEDIUM_TTL,
            CacheEntry::UserInfoCourses { .. } => MEDIUM_TTL,
            CacheEntry::UserStats { .. } => MEDIUM_TTL,
            _ => LONG_TTL,
        }
    }

    /// The key of the entry.
    pub fn key(&self) -> (key: String)
        ensures
            key@ == self.key_text(),
    {
        match self {
            CacheEntry::Progress { user_id, task_id } => {
                let mut key = String::from_str("progress");
                push_id(&mut key, *user_id);
                push_signed_id(&mut key, *task_id);
                proof {
                    lemma_joined_3(
                        "progress"@,
                        decimal_nat(*user_id as nat),
                        decimal_int(*task_id as int),
                        ':',
                    );
                }
                key
            },
            CacheEntry::Task { task_id } => {
                let mut key = String::from_str("task");
                push_signed_id(&mut key, *task_id);
                proof {
                    lemma_joined_2("task"@, decimal_int(*task_id as int), ':');
                }
                key
            },
            CacheEntry::ModuleTasks { module_id } => {
                let mut key = String::from_str("modules");
                push_signed_id(&mut key, *module_id);
                push_word(&mut key, "tasks");
                proof {
                    lemma_joined_3("modules"@, decimal_int(*module_id as int), "tasks"@, ':');
                }
                key
            },
            CacheEntry::CourseOfBatch { course_id } => {
                let mut key = String::from_str("course");
                push_signed_id(&mut key, *course_id);
                proof {
                    lemma_joined_2("course"@, decimal_int(*course_id as int), ':');
                }
                key
            },
            CacheEntry::Course { course_id } => {
                let mut key = String::from_str("courses");
                push_signed_id(&mut key, *course_id);
                proof {
                    lemma_joined_2("courses"@, decimal_int(*course_id as int), ':');
                }
                key
            },
            CacheEntry::AllCourses => {
                let mut key = String::from_str("courses");
                push_word(&mut key, "all");
                proof {
                    lemma_joined_2("courses"@, "all"@, ':');
                }
                key
            },
            CacheEntry::UserCourses { user_id } => {
                let mut key = String::from_str("courses");
                push_word(&mut key, "users");
                push_id(&mut key, *user_id);
                proof {
                    lemma_joined_3("courses"@, "users"@, decimal_nat(*user_id as nat), ':');
                }
                key
            },
            CacheEntry::Ownership { user_id, course_id } => {
                let mut key = String::from_str("ownership");
                push_id(&mut key, *user_id);
                push_signed_id(&mut key, *course_id);
                proof {
                    lemma_joined_3(
                        "ownership"@,
                        decimal_nat(*user_id as nat),
                        decimal_int(*course_id as int),
                        ':',
                    );
                }
                key
            },
            CacheEntry::Favourites { user_id } => {
                let mut key = String::from_str("courses");
                push_word(&mut key, "favourite");
                push_word(&mut key, "user");
                push_id(&mut key, *user_id);
                proof {
                    lemma_joined_4(
                        "courses"@,
                        "favourite"@,
                        "user"@,
                        decimal_nat(*user_id as nat),
                        ':',
                    );
                }
                key
            },
            CacheEntry::CourseModules { course_id } => {
                let mut key = String::from_str("courses");
                push_signed_id(&mut key, *course_id);
                push_word(&mut key, "modules");
                proof {
                    lemma_joined_3("courses"@, decimal_int(*course_id as int), "modules"@, ':');
                }
                key
            },
            CacheEntry::Module { course_id, module_id } => {
                let mut key = String::from_str("courses");
                push_signed_id(&mut key, *course_id);
                push_word(&mut key, "modules");
                push_signed_id(&mut key, *module_id);
                proof {
                    lemma_joined_4(
                        "courses"@,
                        decimal_int(*course_id as int),
                        "modules"@,
                        decimal_int(*module_id as int),
                        ':',
                    );
                }
                key
            },
            CacheEntry::UserInfoAll { user_id } => {
                let mut key = String::from_str("user");
                push_word(&mut key, "info");
                push_word(&mut key, "all");
                push_id(&mut key, *user_id);
                proof {
                    lemma_joined_4("user"@, "info"@, "all"@, decimal_nat(*user_id as nat), ':');
                }
                key
            },
            CacheEntry::UserInfoCourses { user_id } => {
                let mut key = String::from_str("user");
                push_word(&mut key, "info");
                push_word(&mut key, "courses");
                push_id(&mut key, *user_id);
                proof {
                    lemma_joined_4(
                        "user"@,
                        "info"@,
                        "courses"@,
                        decimal_nat(*user_id as nat),
                        ':',
                    );
                }
                key
            },
            CacheEntry::UserStats { user_id } => {
                let mut key = String::from_str("user");
                push_word(&mut key, "stats");
                push_id(&mut key, *user_id);
                proof {
                    lemma_joined_3("user"@, "stats"@, decimal_nat(*user_id as nat), ':');
                }
                key
            },
        }
    }

    /// How long the entry may stay in the cache, in seconds.
    pub fn ttl(&self) -> (seconds: u64)
        ensures
            seconds == self.lifetime(),
    {
        match self {
            CacheEntry::Progress { .. } => SHORT_TTL,
            CacheEntry::UserCourses { .. } => SHORT_TTL,
            CacheEntry::Ownership { .. } => SHORT_TTL,
            CacheEntry::Favourites { .. } => MEDIUM_TTL,
            CacheEntry::UserInfoAll { .. } => MEDIUM_TTL,
            CacheEntry::UserInfoCourses { .. } => MEDIUM_TTL,
            CacheEntry::UserStats { .. } => MEDIUM_TTL,
            _ => LONG_TTL,
        }
    }
}

/// Appends a colon and a word to a key.
fn push_word(key: &mut String, word: &str)
    ensures
        final(key)@ == old(key)@.push(':') + word@,
{
    proof {
        reveal_strlit(":");
    }
    key.append(":");
    key.append(word);
    assert(key@ =~= old(key)@.push(':') + word@);
}

/// Appends a colon and the numeral of an unsigned identifier to a key.
fn push_id(key: &mut String, id: u32)
    ensures
        final(key)@ == old(key)@.push(':') + decimal_nat(id as nat),
{
    proof {
        reveal_strlit(":");
    }
    key.append(":");
    push_decimal(key, id);
    assert(key@ =~= old(key)@.push(':') + decimal_nat(id as nat));
}

/// Appends a colon and the numeral of a signed identifier to a key.
fn push_signed_id(key: &mut String, id: i32)
    ensures
        final(key)@ == old(key)@.push(':') + decimal_int(id as int),
{
    proof {
        reveal_strlit(":");
    }
    key.append(":");
    push_decimal_signed(key, id);
    assert(key@ =~= old(key)@.push(':') + decimal_int(id as int));
}

/// The entries that go stale when the progress of `user_id` on `task_id`
/// changes: the progress itself, the task, which is shown with the reader's
/// progress, and the user's profile, course list and statistics.
pub open spec fn stale_entries(user_id: u32, task_id: i32) -> Seq<CacheEntry> {
    seq![
        CacheEntry::Progress { user_id, task_id },
        CacheEntry::Task { task_id },
        CacheEntry::UserInfoAll { user_id },
        CacheEntry::UserInfoCourses { user_id },
        CacheEntry::UserStats { user_id },
    ]
}

/// The keys of the entries that go stale when the progress of `user_id` on
/// `task_id` changes.
pub open spec fn stale_keys(user_id: u32, task_id: i32) -> Seq<Seq<char>> {
    stale_entries(user_id, task_id).map_values(|entry: CacheEntry| entry.key_text())
}

/// The entries to delete after a write to the progress of `user_id` on
/// `task_id`.
pub fn invalidation_entries(user_id: u32, task_id: i32) -> (entries: Vec<CacheEntry>)
    ensures
        entries@ == stale_entries(user_id, task_id),
{
    let mut entries: Vec<CacheEntry> = Vec::new();
    entries.push(CacheEntry::Progress { user_id, task_id });
    entries.push(CacheEntry::Task { task_id });
    entries.push(CacheEntry::UserInfoAll { user_id });
    entries.push(CacheEntry::UserInfoCourses { user_id });
    entries.push(CacheEntry::UserStats { user_id });
    assert(entries@ =~= stale_entries(user_id, task_id));
    entries
}

/// The keys to delete after a write to the progress of `user_id` on
/// `task_id`.
pub fn invalidation_keys(user_id: u32, task_id: i32) -> (keys: Vec<String>)
    ensures
        text_views(keys@) == stale_keys(user_id, task_id),
{
    let entries = invalidation_entries(user_id, task_id);
    let mut keys: Vec<String> = Vec::new();
    let mut i: usize = 0;
    while i < entries.len()
        invariant
            i <= entries.len(),
            entries@ == stale_entries(user_id, task_id),
            keys@.len() == i,
            forall|j: int| 0 <= j < i ==> (#[trigger] keys@[j])@ == entries@[j].key_text(),
        decreases entries.len() - i,
    {
        keys.push(entries[i].key());
        i = i + 1;
    }
    assert(text_views(keys@) =~= stale_keys(user_id, task_id));
    keys
}


/// The words that keys are made of: each is a word of a key, and their
/// lengths and first letters are these.
proof fn lemma_words()
    ensures
        key_word("progress"@),
        key_word("task"@),
        key_word("tasks"@),
        key_word("modules"@),
        key_word("course"@),
        key_word("courses"@),
        key_word("all"@),
        key_word("users"@),
        key_word("user"@),
        key_word("ownership"@),
        key_word("favourite"@),
        key_word("info"@),
        key_word("stats"@),
        "progress"@.len() == 8,
        "task"@.len() == 4,
        "tasks"@.len() == 5,
        "modules"@.len() == 7,
        "course"@.len() == 6,
        "courses"@.len() == 7,
        "all"@.len() == 3,
        "users"@.len() == 5,
        "user"@.len() == 4,
        "ownership"@.len() == 9,
        "favourite"@.len() == 9,
        "info"@.len() == 4,
        "stats"@.len() == 5,
        "modules"@[0] == 'm',
        "courses"@[0] == 'c',
        "progress"@[0] == 'p',
        "ownership"@[0] == 'o',
        "task"@[0] == 't',
        "user"@[0] == 'u',
        "course"@[0] == 'c',
        "all"@[0] == 'a',
        "info"@[0] == 'i',
        "stats"@[0] == 's',
        "users"@[0] == 'u',
        "favourite"@[0] == 'f',
{
    reveal_strlit("progress");
    reveal_strlit("task");
    reveal_strlit("tasks");
    reveal_strlit("modules");
    reveal_strlit("course");
    reveal_strlit("courses");
    reveal_strlit("all");
    reveal_strlit("users");
    reveal_strlit("user");
    reveal_strlit("ownership");
    reveal_strlit("favourite");
    reveal_strlit("info");
    reveal_strlit("stats");
}

/// A word of a key: not empty, free of the colon, and beginning with a
/// small letter.
pub open spec fn key_word(s: Seq<char>) -> bool {
    &&& s.len() >= 1
    &&& free_of(s, ':')
    &&& 97 <= s[0] as u32 <= 122
}

/// A numeral of a key: not empty, free of the colon, and beginning with a
/// digit or a minus sign.
pub open spec fn key_numeral(s: Seq<char>) -> bool {
    &&& s.len() >= 1
    &&& free_of(s, ':')
    &&& (is_digit(s[0]) || s[0] == '-')
}

/// Decimal numerals are numerals of a key.
proof fn lemma_numerals(n: nat, i: int)
    ensures
        key_numeral(decimal_nat(n)),
        key_numeral(decimal_int(i)),
{
    lemma_decimal_nat_digits(n);
    lemma_decimal_int_chars(i);
    assert(is_digit(decimal_nat(n)[0]));
    assert(is_digit(decimal_int(i)[0]) || decimal_int(i)[0] == '-');
}

/// Every part of a key is free of the colon, and a key has at least one
/// part.
pub proof fn lemma_key_parts_plain(entry: CacheEntry)
    ensures
        entry.key_parts().len() >= 1,
        forall|i: int|
            0 <= i < entry.key_parts().len() ==> free_of(#[trigger] entry.key_parts()[i], ':'),
{
    lemma_words();
    match entry {
        CacheEntry::Progress { user_id, task_id } => {
            lemma_numerals(user_id as nat, task_id as int);
        },
        CacheEntry::Task { task_id } => {
            lemma_numerals(0, task_id as int);
        },
        CacheEntry::ModuleTasks { module_id } => {
            lemma_numerals(0, module_id as int);
        },
        CacheEntry::CourseOfBatch { course_id } => {
            lemma_numerals(0, course_id as int);
        },
        CacheEntry::Course { course_id } => {
            lemma_numerals(0, course_id as int);
        },
        CacheEntry::AllCourses => {},
        CacheEntry::UserCourses { user_id } => {
            lemma_numerals(user_id as nat, 0);
        },
        CacheEntry::Ownership { user_id, course_id } => {
            lemma_numerals(user_id as nat, course_id as int);
        },
        CacheEntry::Favourites { user_id } => {
            lemma_numerals(user_id as nat, 0);
        },
        CacheEntry::CourseModules { course_id } => {
            lemma_numerals(0, course_id as int);
        },
        CacheEntry::Module { course_id, module_id } => {
            lemma_numerals(0, course_id as int);
            lemma_numerals(0, module_id as int);
        },
        CacheEntry::UserInfoAll { user_id } => {
            lemma_numerals(user_id as nat, 0);
        },
        CacheEntry::UserInfoCourses { user_id } => {
            lemma_numerals(user_id as nat, 0);
        },
        CacheEntry::UserStats { user_id } => {
            lemma_numerals(user_id as nat, 0);
        },
    }
}

/// Identifiers with the same numeral are the same identifier.
proof fn lemma_same_numerals(a: u32, b: u32, c: i32, d: i32)
    ensures
        decimal_nat(a as nat) == decimal_nat(b as nat) ==> a == b,
        decimal_int(c as int) == decimal_int(d as int) ==> c == d,
{
    if decimal_nat(a as nat) == decimal_nat(b as nat) {
        lemma_decimal_nat_injective(a as nat, b as nat);
    }
    if decimal_int(c as int) == decimal_int(d as int) {
        lemma_decimal_int_injective(c as int, d as int);
    }
}

/// How many parts the key of an entry has, and which of them are words and
/// which numerals.
proof fn lemma_key_shape(entry: CacheEntry)
    ensures
        key_word(entry.key_parts()[0]),
        match entry {
            CacheEntry::Progress { .. } | CacheEntry::Ownership { .. } => {
                &&& entry.key_parts().len() == 3
                &&& key_numeral(entry.key_parts()[1])
                &&& key_numeral(entry.key_parts()[2])
            },
            CacheEntry::Task { .. } | CacheEntry::CourseOfBatch { .. } | CacheEntry::Course {
                ..
            } => {
                &&& entry.key_parts().len() == 2
                &&& key_numeral(entry.key_parts()[1])
            },
            CacheEntry::ModuleTasks { .. } | CacheEntry::CourseModules { .. } => {
                &&& entry.key_parts().len() == 3
                &&& key_numeral(entry.key_parts()[1])
                &&& key_word(entry.key_parts()[2])
            },
            CacheEntry::AllCourses => {
                &&& entry.key_parts().len() == 2
                &&& key_word(entry.key_parts()[1])
            },
            CacheEntry::UserCourses { .. } | CacheEntry::UserStats { .. } => {
                &&& entry.key_parts().len() == 3
                &&& key_word(entry.key_parts()[1])
                &&& key_numeral(entry.key_parts()[2])
            },
            CacheEntry::Module { .. } => {
                &&& entry.key_parts().len() == 4
                &&& key_numeral(entry.key_parts()[1])
                &&& key_word(entry.key_parts()[2])
                &&& key_numeral(entry.key_parts()[3])
            },
            CacheEntry::Favourites { .. } | CacheEntry::UserInfoAll { .. }
            | CacheEntry::UserInfoCourses { .. } => {
                &&& entry.key_parts().len() == 4
                &&& key_word(entry.key_parts()[1])
                &&& key_word(entry.key_parts()[2])
                &&& key_numeral(entry.key_parts()[3])
            },
        },
{
    lemma_words();
    match entry {
        CacheEntry::Progress { user_id, task_id } => {
            lemma_numerals(user_id as nat, task_id as int);
        },
        CacheEntry::Task { task_id } => {
            lemma_numerals(0, task_id as int);
        },
        CacheEntry::ModuleTasks { module_id } => {
            lemma_numerals(0, module_id as int);
        },
        CacheEntry::CourseOfBatch { course_id } => {
            lemma_numerals(0, course_id as int);
        },
        CacheEntry::Course { course_id } => {
            lemma_numerals(0, course_id as int);
        },
        CacheEntry::AllCourses => {},
        CacheEntry::UserCourses { user_id } => {
            lemma_numerals(user_id as nat, 0);
        },
        CacheEntry::Ownership { user_id, course_id } => {
            lemma_numerals(user_id as nat, course_id as int);
        },
        CacheEntry::Favourites { user_id } => {
            lemma_numerals(user_id as nat, 0);
        },
        CacheEntry::CourseModules { course_id } => {
            lemma_numerals(0, course_id as int);
        },
        CacheEntry::Module { course_id, module_id } => {
            lemma_numerals(0, course_id as int);
            lemma_numerals(0, module_id as int);
        },
        CacheEntry::UserInfoAll { user_id } => {
            lemma_numerals(user_id as nat, 0);
        },
        CacheEntry::UserInfoCourses { user_id } => {
            lemma_numerals(user_id as nat, 0);
        },
        CacheEntry::UserStats { user_id } => {
            lemma_numerals(user_id as nat, 0);
        },
    }
}

/// Two entries whose keys have the same parts are the same entry.
pub proof fn lemma_key_parts_injective(left: CacheEntry, right: CacheEntry)
    requires
        left.key_parts() == right.key_parts(),
    ensures
        left == right,
{
    lemma_words();
    lemma_key_shape(left);
    lemma_key_shape(right);
    let l = left.key_parts();
    let r = right.key_parts();
    assert(l.len() == r.len());
    assert(l[0] == r[0]);
    assert(l[1] == r[1]);
    if l.len() >= 3 {
        assert(l[2] == r[2]);
    }
    if l.len() >= 4 {
        assert(l[3] == r[3]);
    }
    match left {
        CacheEntry::Progress { user_id, task_id } => {
            if let CacheEntry::Progress { user_id: u, task_id: t } = right {
                lemma_same_numerals(user_id, u, task_id, t);
            } else if let CacheEntry::Ownership { .. } = right {
            }
        },
        CacheEntry::Task { task_id } => {
            if let CacheEntry::Task { task_id: t } = right {
                lemma_same_numerals(0, 0, task_id, t);
            }
        },
        CacheEntry::ModuleTasks { module_id } => {
            if let CacheEntry::ModuleTasks { module_id: m } = right {
                lemma_same_numerals(0, 0, module_id, m);
            }
        },
        CacheEntry::CourseOfBatch { course_id } => {
            if let CacheEntry::CourseOfBatch { course_id: c } = right {
                lemma_same_numerals(0, 0, course_id, c);
            }
        },
        CacheEntry::Course { course_id } => {
            if let CacheEntry::Course { course_id: c } = right {
                lemma_same_numerals(0, 0, course_id, c);
            }
        },
        CacheEntry::AllCourses => {},
        CacheEntry::UserCourses { user_id } => {
            if let CacheEntry::UserCourses { user_id: u } = right {
                lemma_same_numerals(user_id, u, 0, 0);
            }
        },
        CacheEntry::Ownership { user_id, course_id } => {
            if let CacheEntry::Ownership { user_id: u, course_id: c } = right {
                lemma_same_numerals(user_id, u, course_id, c);
            }
        },
        CacheEntry::Favourites { user_id } => {
            if let CacheEntry::Favourites { user_id: u } = right {
                lemma_same_numerals(user_id, u, 0, 0);
            }
        },
        CacheEntry::CourseModules { course_id } => {
            if let CacheEntry::CourseModules { course_id: c } = right {
                lemma_same_numerals(0, 0, course_id, c);
            }
        },
        CacheEntry::Module { course_id, module_id } => {
            if let CacheEntry::Module { course_id: c, module_id: m } = right {
                lemma_same_numerals(0, 0, course_id, c);
                lemma_same_numerals(0, 0, module_id, m);
            }
        },
        CacheEntry::UserInfoAll { user_id } => {
            if let CacheEntry::UserInfoAll { user_id: u } = right {
                lemma_same_numerals(user_id, u, 0, 0);
            }
        },
        CacheEntry::UserInfoCourses { user_id } => {
            if let CacheEntry::UserInfoCourses { user_id: u } = right {
                lemma_same_numerals(user_id, u, 0, 0);
            }
        },
        CacheEntry::UserStats { user_id } => {
            if let CacheEntry::UserStats { user_id: u } = right {
                lemma_same_numerals(user_id, u, 0, 0);
            }
        },
    }
}

/// Every lifetime is bounded: what changes when a user acts lives for five
/// minutes at most, and nothing lives for more than an hour.
pub proof fn law_lifetimes_are_bounded(entry: CacheEntry)
    ensures
        SHORT_TTL <= entry.lifetime() <= LONG_TTL,
        LONG_TTL == 3600,
        (entry is Progress || entry is UserCourses || entry is Ownership || entry is Favourites
            || entry is UserInfoAll || entry is UserInfoCourses || entry is UserStats)
            ==> entry.lifetime() <= 300,
{
}

/// No two entries share a key: deleting or overwriting one entry never
/// touches another, and a lookup never finds another entry's snapshot.
pub proof fn law_keys_are_distinct(left: CacheEntry, right: CacheEntry)
    requires
        left.key_text() == right.key_text(),
    ensures
        left == right,
{
    lemma_key_parts_plain(left);
    lemma_key_parts_plain(right);
    lemma_joined_injective(left.key_parts(), right.key_parts(), ':');
    lemma_key_parts_injective(left, right);
}

} // verus!
