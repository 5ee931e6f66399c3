//! Text helpers shared by the rest of the library: decimal numerals, splitting
//! on a separator, reading small unsigned numbers, and the two operations on
//! strings that the standard library performs for us.

use vstd::prelude::*;

verus! {

/// The character that stands for the decimal digit `d`.
pub open spec fn digit_char(d: int) -> char {
    if d == 0 {
        '0'
    } else if d == 1 {
        '1'
    } else if d == 2 {
        '2'
    } else if d == 3 {
        '3'
    } else if d == 4 {
        '4'
    } else if d == 5 {
        '5'
    } else if d == 6 {
        '6'
    } else if d == 7 {
        '7'
    } else if d == 8 {
        '8'
    } else {
        '9'
    }
}

/// Whether `c` is one of the ten ASCII digits.
pub open spec fn is_digit(c: char) -> bool {
    48 <= c as u32 <= 57
}

/// The number that the ASCII digit `c` stands for.
pub open spec fn digit_value(c: char) -> nat {
    (c as u32 - 48) as nat
}

/// The decimal numeral of a natural number, most significant digit first,
/// without leading zeros.
pub open spec fn decimal_nat(n: nat) -> Seq<char>
    decreases n,
{
    if n < 10 {
        seq![digit_char(n as int)]
    } else {
        decimal_nat(n / 10).push(digit_char((n % 10) as int))
    }
}

/// The decimal numeral of an integer: a minus sign in front of a negative one.
pub open spec fn decimal_int(i: int) -> Seq<char> {
    if i < 0 {
        seq!['-'] + decimal_nat((-i) as nat)
    } else {
        decimal_nat(i as nat)
    }
}

/// The views of a sequence of strings.
pub open spec fn text_views(items: Seq<String>) -> Seq<Seq<char>> {
    items.map_values(|s: String| s@)
}

/// A decimal numeral is never empty and holds digits only.
pub proof fn lemma_decimal_nat_digits(n: nat)
    ensures
        decimal_nat(n).len() >= 1,
        forall|i: int| 0 <= i < decimal_nat(n).len() ==> is_digit(#[trigger] decimal_nat(n)[i]),
        n >= 10 ==> decimal_nat(n).len() >= 2,
    decreases n,
{
    if n >= 10 {
        lemma_decimal_nat_digits(n / 10);
    }
}

/// Two natural numbers with the same decimal numeral are the same number.
pub proof fn lemma_decimal_nat_injective(a: nat, b: nat)
    requires
        decimal_nat(a) == decimal_nat(b),
    ensures
        a == b,
    decreases a,
{
    lemma_decimal_nat_digits(a);
    lemma_decimal_nat_digits(b);
    if a < 10 {
        assert(b < 10);
        assert(decimal_nat(a)[0] == digit_char(a as int));
        assert(decimal_nat(b)[0] == digit_char(b as int));
    } else {
        assert(b >= 10);
        let da = decimal_nat(a / 10);
        let db = decimal_nat(b / 10);
        assert(da.push(digit_char((a % 10) as int)).drop_last() == da);
        assert(db.push(digit_char((b % 10) as int)).drop_last() == db);
        assert(da.push(digit_char((a % 10) as int)).last() == digit_char((a % 10) as int));
        assert(db.push(digit_char((b % 10) as int)).last() == digit_char((b % 10) as int));
        lemma_decimal_nat_injective(a / 10, b / 10);
        assert(a % 10 == b % 10);
    }
}

/// Two integers with the same decimal numeral are the same integer.
pub proof fn lemma_decimal_int_injective(a: int, b: int)
    requires
        decimal_int(a) == decimal_int(b),
    ensures
        a == b,
{
    let na = (if a < 0 { -a } else { a }) as nat;
    let nb = (if b < 0 { -b } else { b }) as nat;
    lemma_decimal_nat_digits(na);
    lemma_decimal_nat_digits(nb);
    if a < 0 && b < 0 {
        assert(decimal_nat(na) == decimal_int(a).drop_first());
        assert(decimal_nat(nb) == decimal_int(b).drop_first());
        lemma_decimal_nat_injective(na, nb);
    } else if a >= 0 && b >= 0 {
        lemma_decimal_nat_injective(na, nb);
    } else if a < 0 {
        assert(decimal_int(a)[0] == '-');
        assert(is_digit(decimal_nat(nb)[0]));
    } else {
        assert(decimal_int(b)[0] == '-');
        assert(is_digit(decimal_nat(na)[0]));
    }
}

/// The numeral of an integer holds digits and, at most, a leading minus sign.
pub proof fn lemma_decimal_int_chars(i: int)
    ensures
        decimal_int(i).len() >= 1,
        forall|k: int|
            0 <= k < decimal_int(i).len() ==> is_digit(#[trigger] decimal_int(i)[k])
                || decimal_int(i)[k] == '-',
{
    let n = (if i < 0 { -i } else { i }) as nat;
    lemma_decimal_nat_digits(n);
    if i < 0 {
        assert forall|k: int| 0 <= k < decimal_int(i).len() implies is_digit(
            #[trigger] decimal_int(i)[k],
        ) || decimal_int(i)[k] == '-' by {
            if k > 0 {
                assert(decimal_int(i)[k] == decimal_nat(n)[k - 1]);
            }
        }
    }
}

/// The text of one decimal digit.
fn digit_text(d: u32) -> (s: &'static str)
    requires
        d < 10,
    ensures
        s@ == seq![digit_char(d as int)],
{
    proof {
        reveal_strlit("0");
        reveal_strlit("1");
        reveal_strlit("2");
        reveal_strlit("3");
        reveal_strlit("4");
        reveal_strlit("5");
        reveal_strlit("6");
        reveal_strlit("7");
        reveal_strlit("8");
        reveal_strlit("9");
    }
    let s = if d == 0 {
        "0"
    } else if d == 1 {
        "1"
    } else if d == 2 {
        "2"
    } else if d == 3 {
        "3"
    } else if d == 4 {
        "4"
    } else if d == 5 {
        "5"
    } else if d == 6 {
        "6"
    } else if d == 7 {
        "7"
    } else if d == 8 {
        "8"
    } else {
        "9"
    };
    assert(s@ =~= seq![digit_char(d as int)]);
    s
}

/// Appends the decimal numeral of `n` to `out`.
pub fn push_decimal(out: &mut String, n: u32)
    ensures
        final(out)@ == old(out)@ + decimal_nat(n as nat),
    decreases n,
{
    if n >= 10 {
        push_decimal(out, n / 10);
    }
    out.append(digit_text(n % 10));
    assert(out@ =~= old(out)@ + decimal_nat(n as nat));
}

/// Appends the decimal numeral of `n`, with its sign, to `out`.
pub fn push_decimal_signed(out: &mut String, n: i32)
    ensures
        final(out)@ == old(out)@ + decimal_int(n as int),
{
    if n < 0 {
        proof {
            reveal_strlit("-");
        }
        out.append("-");
        let magnitude: u32 = if n == i32::MIN {
            2147483648u32
        } else {
            (-n) as u32
        };
        push_decimal(out, magnitude);
        assert(out@ =~= old(out)@ + decimal_int(n as int));
    } else {
        push_decimal(out, n as u32);
    }
}

/// The characters of a string slice, in order.
pub fn chars_of(s: &str) -> (chars: Vec<char>)
    ensures
        chars@ == s@,
{
    let mut chars: Vec<char> = Vec::new();
    for c in it: s.chars()
        invariant
            chars@ == it.seq().take(it.index@),
    {
        chars.push(c);
    }
    chars
}

/// The pieces of `s` between occurrences of `sep`, in order. A text without
/// the separator is one piece; the empty text is one empty piece; a separator
/// at either end borders an empty piece.
pub open spec fn split_on(s: Seq<char>, sep: char) -> Seq<Seq<char>>
    decreases s.len(),
{
    if s.len() == 0 {
        seq![Seq::<char>::empty()]
    } else {
        let before = split_on(s.drop_last(), sep);
        if s.last() == sep {
            before.push(Seq::<char>::empty())
        } else {
            before.drop_last().push(before.last().push(s.last()))
        }
    }
}

/// A split always yields at least one piece.
pub proof fn lemma_split_on_nonempty(s: Seq<char>, sep: char)
    ensures
        split_on(s, sep).len() >= 1,
    decreases s.len(),
{
    if s.len() > 0 {
        lemma_split_on_nonempty(s.drop_last(), sep);
    }
}

/// Splits `s` at every occurrence of `sep`.
pub fn split(s: &str, sep: char) -> (pieces: Vec<String>)
    ensures
        text_views(pieces@) == split_on(s@, sep),
{
    let chars = chars_of(s);
    let mut pieces: Vec<String> = Vec::new();
    let mut start: usize = 0;
    let mut i: usize = 0;
    proof {
        lemma_split_on_nonempty(s@.take(0), sep);
        assert(s@.take(0) =~= Seq::<char>::empty());
        assert(text_views(pieces@) =~= split_on(s@.take(0), sep).drop_last());
        assert(s@.subrange(0, 0) =~= split_on(s@.take(0), sep).last());
    }
    while i < chars.len()
        invariant
            chars@ == s@,
            start <= i <= chars.len(),
            text_views(pieces@) == split_on(s@.take(i as int), sep).drop_last(),
            s@.subrange(start as int, i as int) == split_on(s@.take(i as int), sep).last(),
        decreases chars.len() - i,
    {
        let ghost before = split_on(s@.take(i as int), sep);
        proof {
            lemma_split_on_nonempty(s@.take(i as int), sep);
            assert(s@.take(i + 1).drop_last() =~= s@.take(i as int));
            assert(s@.take(i + 1).last() == s@[i as int]);
        }
        if chars[i] == sep {
            let piece = s.substring_char(start, i);
            let ghost old_pieces = pieces@;
            pieces.push(String::from_str(piece));
            start = i + 1;
            proof {
                assert(text_views(pieces@) =~= text_views(old_pieces).push(piece@));
                assert(before.drop_last().push(before.last()) =~= before);
                assert(before.push(Seq::<char>::empty()).drop_last() =~= before);
                assert(s@.subrange(start as int, i + 1) =~= Seq::<char>::empty());
            }
        } else {
            proof {
                assert(s@.subrange(start as int, i + 1) =~= s@.subrange(
                    start as int,
                    i as int,
                ).push(s@[i as int]));
                let after = before.drop_last().push(before.last().push(s@[i as int]));
                assert(after.drop_last() =~= before.drop_last());
            }
        }
        i = i + 1;
    }
    let piece = s.substring_char(start, i);
    let ghost old_pieces = pieces@;
    pieces.push(String::from_str(piece));
    proof {
        lemma_split_on_nonempty(s@, sep);
        assert(s@.take(i as int) =~= s@);
        let whole = split_on(s@, sep);
        assert(text_views(pieces@) =~= text_views(old_pieces).push(piece@));
        assert(whole.drop_last().push(whole.last()) =~= whole);
    }
    pieces
}

/// The value of a text of digits read as a decimal numeral; zero for the
/// empty text.
pub open spec fn digits_value(s: Seq<char>) -> nat
    decreases s.len(),
{
    if s.len() == 0 {
        0
    } else {
        digits_value(s.drop_last()) * 10 + digit_value(s.last())
    }
}

/// Whether every character of `s` is an ASCII digit.
pub open spec fn all_digits(s: Seq<char>) -> bool {
    forall|i: int| 0 <= i < s.len() ==> is_digit(#[trigger] s[i])
}

/// The text without one leading plus sign, if it has one.
pub open spec fn without_plus(s: Seq<char>) -> Seq<char> {
    if s.len() > 0 && s[0] == '+' {
        s.drop_first()
    } else {
        s
    }
}

/// The number in 0..=255 that `s` denotes: an optional plus sign, then one or
/// more ASCII digits and nothing else. No number for any other text, nor for
/// a numeral above 255.
pub open spec fn parse_u8_spec(s: Seq<char>) -> Option<u8> {
    let body = without_plus(s);
    if body.len() > 0 && all_digits(body) && digits_value(body) <= 255 {
        Some(digits_value(body) as u8)
    } else {
        None
    }
}

/// A text of digits is worth at least as much as each of its prefixes.
pub proof fn lemma_digits_value_grows(s: Seq<char>, k: int)
    requires
        0 <= k <= s.len(),
    ensures
        digits_value(s.take(k)) <= digits_value(s),
    decreases s.len() - k,
{
    if k == s.len() {
        assert(s.take(k) =~= s);
    } else {
        lemma_digits_value_grows(s, k + 1);
        assert(s.take(k + 1).drop_last() =~= s.take(k));
        assert(digits_value(s.take(k + 1)) >= digits_value(s.take(k)) * 10) by (nonlinear_arith)
            requires
                digits_value(s.take(k + 1)) == digits_value(s.take(k)) * 10 + digit_value(
                    s.take(k + 1).last(),
                ),
        ;
    }
}

/// Reads a number in 0..=255 from `s`.
pub fn parse_u8(s: &str) -> (value: Option<u8>)
    ensures
        value == parse_u8_spec(s@),
{
    let chars = chars_of(s);
    let n = chars.len();
    let first: usize = if n > 0 && chars[0] == '+' {
        1
    } else {
        0
    };
    let ghost body = without_plus(s@);
    assert(body =~= s@.subrange(first as int, n as int));
    if first == n {
        return None;
    }
    let mut acc: u32 = 0;
    let mut i: usize = first;
    proof {
        assert(body.take(0) =~= Seq::<char>::empty());
    }
    while i < n
        invariant
            chars@ == s@,
            n == chars.len(),
            first <= i <= n,
            body == without_plus(s@),
            body == s@.subrange(first as int, n as int),
            all_digits(body.take(i - first)),
            acc == digits_value(body.take(i - first)),
            acc <= 255,
        decreases n - i,
    {
        let c = chars[i];
        let ghost k = i - first;
        proof {
            assert(body[k] == c);
            assert(body.take(k + 1).drop_last() =~= body.take(k));
            assert(body.take(k + 1).last() == c);
        }
        let code: u32 = c as u32;
        if code < 48 || code > 57 {
            assert(!is_digit(body[k]));
            return None;
        }
        let d: u32 = code - 48;
        let next: u32 = acc * 10 + d;
        if next > 255 {
            proof {
                if all_digits(body) {
                    lemma_digits_value_grows(body, k + 1);
                }
            }
            return None;
        }
        proof {
            assert forall|j: int| 0 <= j < body.take(k + 1).len() implies is_digit(
                #[trigger] body.take(k + 1)[j],
            ) by {
                if j < k {
                    assert(body.take(k + 1)[j] == body.take(k)[j]);
                }
            }
        }
        acc = next;
        i = i + 1;
    }
    proof {
        assert(body.take(n - first) =~= body);
    }
    Some(acc as u8)
}

/// The lower-case form that the standard library gives a text.
pub uninterp spec fn lowercase(text: Seq<char>) -> Seq<char>;

/// Whether every character of `text` is an ASCII character.
pub open spec fn all_ascii(text: Seq<char>) -> bool {
    forall|i: int| 0 <= i < text.len() ==> (#[trigger] text[i]) as u32 <= 127
}

/// The small letter of an ASCII capital letter; any other character as it
/// is.
pub open spec fn ascii_lower(c: char) -> char {
    if 65 <= c as u32 <= 90 {
        ((c as u32 + 32) as u8) as char
    } else {
        c
    }
}

/// `text` with each ASCII capital letter replaced by its small letter.
pub open spec fn ascii_lowercase(text: Seq<char>) -> Seq<char> {
    Seq::new(text.len(), |i: int| ascii_lower(text[i]))
}

/// `str::to_lowercase`: the lower-case equivalent of `text` under Unicode's
/// rules, as a new string. The result depends on the text alone. Of a text
/// of ASCII characters it is the text with each capital letter replaced by
/// its small letter; nothing more is claimed of other texts.
#[verifier::external_body]
pub(crate) fn to_lowercase(text: &str) -> (lower: String)
    ensures
        lower@ == lowercase(text@),
        all_ascii(text@) ==> lower@ == ascii_lowercase(text@),
{
    text.to_lowercase()
}

/// Whether `needle` stands in `text` at position `at`.
pub open spec fn occurs_at(text: Seq<char>, needle: Seq<char>, at: int) -> bool {
    0 <= at && at + needle.len() <= text.len() && text.subrange(at, at + needle.len()) == needle
}

/// `text` with every occurrence of `needle` replaced by `with`. Occurrences
/// are found from the left and do not overlap: the search goes on behind each
/// occurrence found.
pub open spec fn replaced(text: Seq<char>, needle: Seq<char>, with: Seq<char>) -> Seq<char>
    recommends
        needle.len() > 0,
    decreases text.len(),
{
    if needle.len() == 0 || text.len() < needle.len() {
        text
    } else if occurs_at(text, needle, 0) {
        with + replaced(text.subrange(needle.len() as int, text.len() as int), needle, with)
    } else {
        seq![text[0]] + replaced(text.drop_first(), needle, with)
    }
}

/// `str::replace` with a string pattern: a new string in which every match of
/// `needle` in `text`, found from the left without overlap, is replaced by
/// `with`. An empty pattern is left out.
#[verifier::external_body]
pub(crate) fn replace(text: &str, needle: &str, with: &str) -> (result: String)
    requires
        needle@.len() > 0,
    ensures
        result@ == replaced(text@, needle@, with@),
{
    text.replace(needle, with)
}


/// The texts of `parts` in order, with `sep` between neighbours.
pub open spec fn joined(parts: Seq<Seq<char>>, sep: char) -> Seq<char>
    decreases parts.len(),
{
    if parts.len() == 0 {
        Seq::<char>::empty()
    } else if parts.len() == 1 {
        parts[0]
    } else {
        joined(parts.drop_last(), sep).push(sep) + parts.last()
    }
}

/// Whether the character `c` occurs nowhere in `s`.
pub open spec fn free_of(s: Seq<char>, c: char) -> bool {
    forall|i: int| 0 <= i < s.len() ==> #[trigger] s[i] != c
}

/// Text without the separator, put behind any text, only makes the last
/// piece of that text longer.
pub proof fn lemma_split_on_append(s: Seq<char>, t: Seq<char>, sep: char)
    requires
        free_of(t, sep),
    ensures
        split_on(s + t, sep) == split_on(s, sep).drop_last().push(split_on(s, sep).last() + t),
    decreases t.len(),
{
    lemma_split_on_nonempty(s, sep);
    let pieces = split_on(s, sep);
    if t.len() == 0 {
        assert(s + t =~= s);
        assert(pieces.last() + t =~= pieces.last());
        assert(pieces.drop_last().push(pieces.last()) =~= pieces);
    } else {
        let shorter = t.drop_last();
        assert(free_of(shorter, sep)) by {
            assert forall|i: int| 0 <= i < shorter.len() implies #[trigger] shorter[i] != sep by {
                assert(shorter[i] == t[i]);
            }
        }
        lemma_split_on_append(s, shorter, sep);
        assert((s + t).drop_last() =~= s + shorter);
        assert((s + t).last() == t.last());
        assert(t.last() == t[t.len() - 1]);
        let before = split_on(s + shorter, sep);
        assert(before.drop_last() =~= pieces.drop_last());
        assert((pieces.last() + shorter).push(t.last()) =~= pieces.last() + t);
    }
}

/// Splitting undoes joining: parts that are free of the separator come back
/// as they were.
pub proof fn lemma_split_on_joined(parts: Seq<Seq<char>>, sep: char)
    requires
        parts.len() >= 1,
        forall|i: int| 0 <= i < parts.len() ==> free_of(#[trigger] parts[i], sep),
    ensures
        split_on(joined(parts, sep), sep) == parts,
    decreases parts.len(),
{
    let empty = Seq::<char>::empty();
    if parts.len() == 1 {
        lemma_split_on_append(empty, parts[0], sep);
        assert(empty + parts[0] =~= parts[0]);
        assert(split_on(empty, sep) =~= seq![empty]);
        assert(seq![empty].drop_last().push(seq![empty].last() + parts[0]) =~= parts);
    } else {
        let front = parts.drop_last();
        assert forall|i: int| 0 <= i < front.len() implies free_of(#[trigger] front[i], sep) by {
            assert(front[i] == parts[i]);
        }
        lemma_split_on_joined(front, sep);
        let head = joined(front, sep).push(sep);
        assert(head.drop_last() =~= joined(front, sep));
        assert(split_on(head, sep) == front.push(empty));
        lemma_split_on_append(head, parts.last(), sep);
        assert(front.push(empty).drop_last() =~= front);
        assert(empty + parts.last() =~= parts.last());
        assert(front.push(parts.last()) =~= parts);
    }
}

/// Two lists of parts, all free of the separator, that join to the same text
/// are the same list.
pub proof fn lemma_joined_injective(left: Seq<Seq<char>>, right: Seq<Seq<char>>, sep: char)
    requires
        left.len() >= 1,
        right.len() >= 1,
        forall|i: int| 0 <= i < left.len() ==> free_of(#[trigger] left[i], sep),
        forall|i: int| 0 <= i < right.len() ==> free_of(#[trigger] right[i], sep),
        joined(left, sep) == joined(right, sep),
    ensures
        left == right,
{
    lemma_split_on_joined(left, sep);
    lemma_split_on_joined(right, sep);
}


/// Two parts joined.
pub proof fn lemma_joined_2(a: Seq<char>, b: Seq<char>, sep: char)
    ensures
        joined(seq![a, b], sep) == a.push(sep) + b,
{
    assert(seq![a, b].drop_last() =~= seq![a]);
    assert(seq![a][0] == a);
    assert(joined(seq![a], sep) == a);
    assert(seq![a, b].last() == b);
}

/// Three parts joined.
pub proof fn lemma_joined_3(a: Seq<char>, b: Seq<char>, c: Seq<char>, sep: char)
    ensures
        joined(seq![a, b, c], sep) == (a.push(sep) + b).push(sep) + c,
{
    assert(seq![a, b, c].drop_last() =~= seq![a, b]);
    assert(seq![a, b, c].last() == c);
    lemma_joined_2(a, b, sep);
}

/// Four parts joined.
pub proof fn lemma_joined_4(a: Seq<char>, b: Seq<char>, c: Seq<char>, d: Seq<char>, sep: char)
    ensures
        joined(seq![a, b, c, d], sep) == ((a.push(sep) + b).push(sep) + c).push(sep) + d,
{
    assert(seq![a, b, c, d].drop_last() =~= seq![a, b, c]);
    assert(seq![a, b, c, d].last() == d);
    lemma_joined_3(a, b, c, sep);
}

} // verus!
