//! The JSON documents that the library writes itself: the stored form of
//! what a user handed in and of what the grader answered.
//!
//! The library frames these documents; the text of a JSON string, with its
//! quotes and escapes, comes from `serde_json`.

use crate::text::{decimal_nat, push_decimal};
use vstd::prelude::*;

verus! {

/// The character that stands for the hexadecimal digit `d`, in lower case.
pub open spec fn hex_char(d: int) -> char {
    if d == 0 {
        '0'
    } else if d == 1 {
        '1'
    } else if d == 2 {
        '2'
    } else if d == 3 {
        '3'
    } else if d == 4 {
        '4'
    } else if d == 5 {
        '5'
    } else if d == 6 {
        '6'
    } else if d == 7 {
        '7'
    } else if d == 8 {
        '8'
    } else if d == 9 {
        '9'
    } else if d == 10 {
        'a'
    } else if d == 11 {
        'b'
    } else if d == 12 {
        'c'
    } else if d == 13 {
        'd'
    } else if d == 14 {
        'e'
    } else {
        'f'
    }
}

/// How one character stands inside a JSON string: the quotation mark and the
/// backslash behind a backslash; backspace, tab, line feed, form feed and
/// carriage return by their letter; every other character below the space as
/// `\u00` and two hexadecimal digits; any other character as itself.
pub open spec fn json_escaped(c: char) -> Seq<char> {
    let code = c as u32;
    if code == 0x22 {
        seq!['\\', '"']
    } else if code == 0x5C {
        seq!['\\', '\\']
    } else if code == 0x08 {
        seq!['\\', 'b']
    } else if code == 0x09 {
        seq!['\\', 't']
    } else if code == 0x0A {
        seq!['\\', 'n']
    } else if code == 0x0C {
        seq!['\\', 'f']
    } else if code == 0x0D {
        seq!['\\', 'r']
    } else if code < 0x20 {
        seq!['\\', 'u', '0', '0', hex_char(code as int / 16), hex_char(code as int % 16)]
    } else {
        seq![c]
    }
}

/// The characters of `text` as they stand inside a JSON string.
pub open spec fn json_escaped_text(text: Seq<char>) -> Seq<char>
    decreases text.len(),
{
    if text.len() == 0 {
        Seq::<char>::empty()
    } else {
        json_escaped_text(text.drop_last()) + json_escaped(text.last())
    }
}

/// The JSON string that holds `text`: its escaped characters between two
/// quotation marks.
pub open spec fn json_string_spec(text: Seq<char>) -> Seq<char> {
    seq!['"'] + json_escaped_text(text) + seq!['"']
}

/// `serde_json::Value::to_string` on a JSON string: the compact text of the
/// value `Value::String(text)`, which is `text` between quotation marks with
/// the escapes of `serde_json`'s own escape table.
#[verifier::external_body]
pub(crate) fn json_string(text: &str) -> (document: String)
    ensures
        document@ == json_string_spec(text@),
{
    serde_json::Value::from(text).to_string()
}

/// The decimal numerals of `values`, separated by commas.
pub open spec fn joined_numbers(values: Seq<u8>) -> Seq<char>
    decreases values.len(),
{
    if values.len() == 0 {
        Seq::<char>::empty()
    } else if values.len() == 1 {
        decimal_nat(values[0] as nat)
    } else {
        joined_numbers(values.drop_last()) + seq![','] + decimal_nat(values.last() as nat)
    }
}

/// The stored form of a list of chosen answers: an object whose one member,
/// `answers`, is the array of the numbers.
pub open spec fn answers_document(answers: Seq<u8>) -> Seq<char> {
    "{\"answers\":["@ + joined_numbers(answers) + "]}"@
}

/// The stored form of a grader's answer: an object with the members
/// `feedback` and `reply`, in that order, both JSON strings.
pub open spec fn reply_document(reply: Seq<char>, feedback: Seq<char>) -> Seq<char> {
    "{\"feedback\":"@ + json_string_spec(feedback) + ",\"reply\":"@ + json_string_spec(reply)
        + "}"@
}

/// Writes the stored form of a list of chosen answers.
pub fn write_answers_document(answers: &Vec<u8>) -> (document: String)
    ensures
        document@ == answers_document(answers@),
{
    let mut document = String::from_str("{\"answers\":[");
    let ghost head = document@;
    let mut i: usize = 0;
    assert(answers@.take(0) =~= Seq::<u8>::empty());
    while i < answers.len()
        invariant
            i <= answers.len(),
            head == "{\"answers\":["@,
            document@ == head + joined_numbers(answers@.take(i as int)),
        decreases answers.len() - i,
    {
        proof {
            reveal_strlit(",");
            assert(answers@.take(i + 1).drop_last() =~= answers@.take(i as int));
            assert(answers@.take(i + 1).last() == answers@[i as int]);
        }
        if i > 0 {
            document.append(",");
        }
        push_decimal(&mut document, answers[i] as u32);
        assert(document@ =~= head + joined_numbers(answers@.take(i + 1)));
        i = i + 1;
    }
    assert(answers@.take(i as int) =~= answers@);
    document.append("]}");
    document
}

/// Writes the stored form of a grader's answer.
pub fn write_reply_document(reply: &str, feedback: &str) -> (document: String)
    ensures
        document@ == reply_document(reply@, feedback@),
{
    let mut document = String::from_str("{\"feedback\":");
    document.append(json_string(feedback).as_str());
    document.append(",\"reply\":");
    document.append(json_string(reply).as_str());
    document.append("}");
    document
}

} // verus!
