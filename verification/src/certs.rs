//! Certificates of completed courses.

use crate::text::{decimal_nat, push_decimal};
use vstd::prelude::*;

verus! {

/// The bucket that holds the certificate files.
pub const CERTS_BUCKET: &'static str = "user-certs";

/// Whether the file of a certificate exists.
#[derive(Clone, Copy, Debug, PartialEq, Eq, Structural)]
pub enum CertStatus {
    Created,
    NotCreated,
}

/// A certificate in a user's list.
#[derive(Clone, Debug, PartialEq, Eq)]
pub struct CertInfo {
    pub id: i32,
    pub course_title: String,
    pub status: CertStatus,
}

/// The request to make the file of a certificate.
#[derive(Clone, Copy, Debug, PartialEq, Eq, Structural)]
pub struct CreateCertReq {
    /// The identifier of the certificate.
    pub id: i32,
}

impl CertStatus {
    /// The name under which the status is stored.
    pub open spec fn name(self) -> Seq<char> {
        match self {
            CertStatus::Created => "CREATED"@,
            CertStatus::NotCreated => "NOT_CREATED"@,
        }
    }

    /// The status that a stored name stands for: created for `CREATED`, not
    /// created for anything else.
    pub open spec fn named(value: Seq<char>) -> CertStatus {
        if value == "CREATED"@ {
            CertStatus::Created
        } else {
            CertStatus::NotCreated
        }
    }

    /// The name of the status.
    pub fn to_string(&self) -> (name: String)
        ensures
            name@ == self.name(),
    {
        match self {
            CertStatus::Created => String::from_str("CREATED"),
            CertStatus::NotCreated => String::from_str("NOT_CREATED"),
        }
    }

    /// The status that the stored name `value` stands for.
    pub fn from(value: String) -> (status: CertStatus)
        ensures
            status == Self::named(value@),
    {
        if value == String::from_str("CREATED") {
            CertStatus::Created
        } else {
            CertStatus::NotCreated
        }
    }
}

/// Reading back the name of a status gives the status.
pub proof fn law_cert_status_round_trip(status: CertStatus)
    ensures
        CertStatus::named(status.name()) == status,
{
    reveal_strlit("CREATED");
    reveal_strlit("NOT_CREATED");
    assert("CREATED"@.len() != "NOT_CREATED"@.len());
}

/// The name of the file that holds a user's certificate for a course.
pub open spec fn certificate_object(user_id: u32, course_title: Seq<char>) -> Seq<char> {
    decimal_nat(user_id as nat) + "/certs/"@ + course_title + "-certificate.pdf"@
}

/// The name of the file that holds the certificate of `user_id` for the
/// course titled `course_title`.
pub fn certificate_object_name(user_id: u32, course_title: &str) -> (name: String)
    ensures
        name@ == certificate_object(user_id, course_title@),
{
    let mut name = String::new();
    push_decimal(&mut name, user_id);
    name.append("/certs/");
    name.append(course_title);
    name.append("-certificate.pdf");
    assert(name@ =~= certificate_object(user_id, course_title@));
    name
}

/// The rows of an insertion of `count` certificates: one group of
/// placeholders for each, with a comma and a space between neighbours.
pub open spec fn certificate_rows(count: nat) -> Seq<char>
    decreases count,
{
    if count == 0 {
        Seq::<char>::empty()
    } else if count == 1 {
        "(?, ?, 'NOT_CREATED')"@
    } else {
        certificate_rows((count - 1) as nat) + ", "@ + "(?, ?, 'NOT_CREATED')"@
    }
}

/// The statement that gives a user a certificate, not yet created, for each
/// of `count` courses, unless they have one already; its values are the
/// user and the course, for each course in turn. No statement for no course.
pub fn add_certs_query(count: usize) -> (statement: Option<String>)
    ensures
        count == 0 <==> statement is None,
        statement matches Some(text) ==> text@
            == "INSERT IGNORE INTO user_certs (user_id, course_id, status) VALUES "@
            + certificate_rows(count as nat),
{
    if count == 0 {
        return None;
    }
    let mut text = String::from_str(
        "INSERT IGNORE INTO user_certs (user_id, course_id, status) VALUES ",
    );
    let ghost head = text@;
    let mut i: usize = 0;
    assert(text@ =~= head + certificate_rows(0));
    while i < count
        invariant
            i <= count,
            text@ == head + certificate_rows(i as nat),
        decreases count - i,
    {
        if i > 0 {
            text.append(", ");
        }
        text.append("(?, ?, 'NOT_CREATED')");
        assert(text@ =~= head + certificate_rows((i + 1) as nat));
        i = i + 1;
    }
    Some(text)
}

} // verus!
