//! Who is asking: the claims of a verified token, and how the token is
//! found in a request. Verifying a token is not done here.

use crate::error::AppError;
use crate::text::{all_ascii, chars_of};
use vstd::prelude::*;

verus! {

/// What a verified token says of its bearer.
#[derive(Clone, Copy, Debug, PartialEq, Eq, Structural)]
pub struct Claims {
    /// The user's identifier.
    pub id: u32,
    /// When the token expires, in seconds since the Unix epoch.
    pub exp: i64,
}

/// The bearer of a request that must come with a valid token.
#[derive(Clone, Debug, PartialEq, Eq)]
pub struct AuthHeader {
    pub claims: Claims,
    pub token: String,
}

/// The bearer of a request that may come without a token: the user's
/// identifier where a valid token came with it.
#[derive(Clone, Copy, Debug, PartialEq, Eq, Structural)]
pub struct OptionalBearerClaims(pub Option<u32>);

/// What checking the authorization header of a request found.
#[derive(Clone, Copy, Debug, PartialEq, Eq, Structural)]
pub enum BearerCheck {
    /// The request has no such header.
    NoHeader,
    /// The header is not a bearer token.
    NotBearer,
    /// The token is not valid.
    Invalid,
    /// The token is valid and names this user.
    Valid(u32),
}

/// Whether the standard library counts a character as white space.
pub uninterp spec fn is_white_space(c: char) -> bool;

/// The white space among the ASCII characters: tab, line feed, vertical tab,
/// form feed, carriage return and the space.
pub open spec fn ascii_white_space(c: char) -> bool {
    9 <= c as u32 <= 13 || c as u32 == 32
}

/// `char::is_whitespace`: whether `c` has Unicode's `White_Space` property.
/// Among the ASCII characters these are the tab, the line feed, the vertical
/// tab, the form feed, the carriage return and the space; nothing more is
/// claimed of other characters.
#[verifier::external_body]
fn char_is_whitespace(c: char) -> (white: bool)
    ensures
        white == is_white_space(c),
        c as u32 <= 127 ==> white == ascii_white_space(c),
{
    c.is_whitespace()
}

/// White space as the standard library knows it.
pub open spec fn unicode_white() -> spec_fn(char) -> bool {
    |c: char| is_white_space(c)
}

/// White space among the ASCII characters.
pub open spec fn ascii_white() -> spec_fn(char) -> bool {
    |c: char| ascii_white_space(c)
}

/// The text without the white space at its end, where `white` says what
/// white space is.
pub open spec fn without_trailing_space(text: Seq<char>, white: spec_fn(char) -> bool) -> Seq<
    char,
>
    decreases text.len(),
{
    if text.len() > 0 && white(text.last()) {
        without_trailing_space(text.drop_last(), white)
    } else {
        text
    }
}

/// The longest end of the text that holds no white space.
pub open spec fn trailing_word(text: Seq<char>, white: spec_fn(char) -> bool) -> Seq<char>
    decreases text.len(),
{
    if text.len() > 0 && !white(text.last()) {
        trailing_word(text.drop_last(), white).push(text.last())
    } else {
        Seq::<char>::empty()
    }
}

/// The last of the words of a text, where words are what stands between
/// white space; nothing where the text holds only white space.
pub open spec fn last_word_by(text: Seq<char>, white: spec_fn(char) -> bool) -> Option<
    Seq<char>,
> {
    let trimmed = without_trailing_space(text, white);
    if trimmed.len() == 0 {
        None
    } else {
        Some(trailing_word(trimmed, white))
    }
}

/// The last word of a text, with white space as the standard library knows
/// it.
pub open spec fn last_word(text: Seq<char>) -> Option<Seq<char>> {
    last_word_by(text, unicode_white())
}

/// The last word of a text, with the white space of ASCII.
pub open spec fn last_ascii_word(text: Seq<char>) -> Option<Seq<char>> {
    last_word_by(text, ascii_white())
}

/// A text whose characters from `end` on are white space, and whose
/// character before `end`, if there is one, is not, is `end` characters long
/// without the white space at its end.
proof fn lemma_without_trailing_space(text: Seq<char>, white: spec_fn(char) -> bool, end: int)
    requires
        0 <= end <= text.len(),
        forall|i: int| end <= i < text.len() ==> white(#[trigger] text[i]),
        end > 0 ==> !white(text[end - 1]),
    ensures
        without_trailing_space(text, white) == text.take(end),
    decreases text.len(),
{
    if text.len() == end {
        assert(text.take(end) =~= text);
    } else {
        let shorter = text.drop_last();
        assert(white(text[text.len() - 1]));
        assert forall|i: int| end <= i < shorter.len() implies white(#[trigger] shorter[i]) by {
            assert(shorter[i] == text[i]);
        }
        lemma_without_trailing_space(shorter, white, end);
        assert(shorter.take(end) =~= text.take(end));
    }
}

/// A text whose characters from `start` on are no white space, and whose
/// character before `start`, if there is one, is white space, ends in the
/// word that begins at `start`.
proof fn lemma_trailing_word(text: Seq<char>, white: spec_fn(char) -> bool, start: int)
    requires
        0 <= start <= text.len(),
        forall|i: int| start <= i < text.len() ==> !white(#[trigger] text[i]),
        start > 0 ==> white(text[start - 1]),
    ensures
        trailing_word(text, white) == text.subrange(start, text.len() as int),
    decreases text.len(),
{
    if text.len() == start {
        assert(text.subrange(start, text.len() as int) =~= Seq::<char>::empty());
    } else {
        let shorter = text.drop_last();
        assert(!white(text[text.len() - 1]));
        assert forall|i: int| start <= i < shorter.len() implies !white(#[trigger] shorter[i]) by {
            assert(shorter[i] == text[i]);
        }
        lemma_trailing_word(shorter, white, start);
        assert(shorter.subrange(start, shorter.len() as int).push(text.last())
            =~= text.subrange(start, text.len() as int));
    }
}

/// Where the last word of a text stands: behind it there is only white
/// space, in it there is none, and before it there is white space or
/// nothing.
proof fn lemma_last_word(text: Seq<char>, white: spec_fn(char) -> bool, start: int, end: int)
    requires
        0 <= start <= end <= text.len(),
        forall|i: int| end <= i < text.len() ==> white(#[trigger] text[i]),
        forall|i: int| start <= i < end ==> !white(#[trigger] text[i]),
        end > 0 ==> start < end,
        start > 0 ==> white(text[start - 1]),
    ensures
        last_word_by(text, white) == (if end == 0 {
            None
        } else {
            Some(text.subrange(start, end))
        }),
{
    lemma_without_trailing_space(text, white, end);
    let trimmed = text.take(end);
    if end > 0 {
        assert forall|i: int| start <= i < trimmed.len() implies !white(#[trigger] trimmed[i]) by {
            assert(trimmed[i] == text[i]);
        }
        if start > 0 {
            assert(trimmed[start - 1] == text[start - 1]);
        }
        lemma_trailing_word(trimmed, white, start);
        assert(trimmed.subrange(start, trimmed.len() as int) =~= text.subrange(start, end));
    }
}

/// The token in the value of an authorization header: its last word. Of a
/// header of ASCII characters, which is all that a header can hold, the
/// white space that parts the words is that of ASCII.
pub fn bearer_token(header: &str) -> (token: Option<String>)
    ensures
        match token {
            Some(word) => last_word(header@) == Some(word@),
            None => last_word(header@) is None,
        },
        all_ascii(header@) ==> (match token {
            Some(word) => last_ascii_word(header@) == Some(word@),
            None => last_ascii_word(header@) is None,
        }),
{
    let chars = chars_of(header);
    let mut end: usize = chars.len();
    while end > 0 && char_is_whitespace(chars[end - 1])
        invariant
            chars@ == header@,
            end <= chars.len(),
            forall|i: int| end <= i < header@.len() ==> is_white_space(#[trigger] header@[i]),
            all_ascii(header@) ==> forall|i: int|
                end <= i < header@.len() ==> ascii_white_space(#[trigger] header@[i]),
        decreases end,
    {
        end = end - 1;
    }
    let mut start: usize = end;
    while start > 0 && !char_is_whitespace(chars[start - 1])
        invariant
            chars@ == header@,
            start <= end <= chars.len(),
            end > 0 ==> !is_white_space(header@[end - 1]),
            forall|i: int| start <= i < end ==> !is_white_space(#[trigger] header@[i]),
            all_ascii(header@) ==> forall|i: int|
                start <= i < end ==> !ascii_white_space(#[trigger] header@[i]),
        decreases start,
    {
        start = start - 1;
    }
    proof {
        let std_white = unicode_white();
        assert forall|i: int| end <= i < header@.len() implies std_white(
            #[trigger] header@[i],
        ) by {
            assert(is_white_space(header@[i]));
        }
        assert forall|i: int| start <= i < end implies !std_white(#[trigger] header@[i]) by {
            assert(!is_white_space(header@[i]));
        }
        lemma_last_word(header@, std_white, start as int, end as int);
        if all_ascii(header@) {
            let plain_white = ascii_white();
            assert forall|i: int| end <= i < header@.len() implies plain_white(
                #[trigger] header@[i],
            ) by {
                assert(ascii_white_space(header@[i]));
            }
            assert forall|i: int| start <= i < end implies !plain_white(#[trigger] header@[i]) by {
                assert(!ascii_white_space(header@[i]));
            }
            if start > 0 {
                assert(header@[start - 1] as u32 <= 127);
            }
            lemma_last_word(header@, plain_white, start as int, end as int);
        }
    }
    if end == 0 {
        return None;
    }
    Some(String::from_str(header.substring_char(start, end)))
}

impl OptionalBearerClaims {
    /// Whom a request that may come without a token is made by: nobody where
    /// it has no header or its token is not valid, the user whom a valid
    /// token names; a header that is not a bearer token is a failure.
    pub open spec fn resolved(check: BearerCheck) -> Option<OptionalBearerClaims> {
        match check {
            BearerCheck::NoHeader => Some(OptionalBearerClaims(None)),
            BearerCheck::NotBearer => None,
            BearerCheck::Invalid => Some(OptionalBearerClaims(None)),
            BearerCheck::Valid(id) => Some(OptionalBearerClaims(Some(id))),
        }
    }

    /// Whom a request that may come without a token is made by.
    pub fn resolve(check: BearerCheck) -> (bearer: Result<OptionalBearerClaims, AppError>)
        ensures
            match bearer {
                Ok(claims) => Self::resolved(check) == Some(claims),
                Err(error) => Self::resolved(check) is None && error.cause@
                    == "Could not decode bearer"@,
            },
    {
        match check {
            BearerCheck::NoHeader => Ok(OptionalBearerClaims(None)),
            BearerCheck::NotBearer => Err(
                AppError { cause: String::from_str("Could not decode bearer") },
            ),
            BearerCheck::Invalid => Ok(OptionalBearerClaims(None)),
            BearerCheck::Valid(id) => Ok(OptionalBearerClaims(Some(id))),
        }
    }
}

/// The value of the authorization header that carries `token`.
pub fn bearer_header(token: &str) -> (value: String)
    ensures
        value@ == "Bearer "@ + token@,
{
    let mut value = String::from_str("Bearer ");
    value.append(token);
    value
}

/// The address at which the account service, found at `base`, tells who the
/// bearer of a token is.
pub fn user_info_endpoint(base: &str) -> (address: String)
    ensures
        address@ == base@ + "/user/info?value=user"@,
{
    let mut address = String::from_str(base);
    address.append("/user/info?value=user");
    address
}

/// The message that reports a request to another service that was answered
/// with a failure.
pub fn fetch_failure(address: &str, reason: &str) -> (message: String)
    ensures
        message@ == "Internal error: could not fetch "@ + address@ + ": "@ + reason@,
{
    let mut message = String::from_str("Internal error: could not fetch ");
    message.append(address);
    message.append(": ");
    message.append(reason);
    message
}

} // verus!
