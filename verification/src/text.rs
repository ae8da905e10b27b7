//! Small operations on strings and lists of strings that the rest of the crate
//! builds its messages from.

use vstd::prelude::*;
use vstd::string::*;

verus! {

/// The character sequences held by a list of strings, in order.
pub open spec fn texts(items: Seq<String>) -> Seq<Seq<char>> {
    items.map_values(|item: String| item@)
}

/// The character sequences held by a list of string slices, in order.
pub open spec fn slice_texts(items: Seq<&'static str>) -> Seq<Seq<char>> {
    items.map_values(|item: &'static str| item@)
}

/// `lines` written one after the other with `separator` between neighbours.
pub open spec fn joined(lines: Seq<Seq<char>>, separator: Seq<char>) -> Seq<char>
    decreases lines.len(),
{
    if lines.len() == 0 {
        Seq::empty()
    } else if lines.len() == 1 {
        lines[0]
    } else {
        joined(lines.drop_last(), separator) + separator + lines.last()
    }
}

/// The decimal digit for `value`, which is meant to be below ten.
pub open spec fn digit_char(value: nat) -> char {
    if value == 0 {
        '0'
    } else if value == 1 {
        '1'
    } else if value == 2 {
        '2'
    } else if value == 3 {
        '3'
    } else if value == 4 {
        '4'
    } else if value == 5 {
        '5'
    } else if value == 6 {
        '6'
    } else if value == 7 {
        '7'
    } else if value == 8 {
        '8'
    } else {
        '9'
    }
}

/// `value` in decimal notation, without sign or leading zeros.
pub open spec fn decimal_text(value: nat) -> Seq<char>
    decreases value,
{
    if value < 10 {
        seq![digit_char(value)]
    } else {
        decimal_text(value / 10).push(digit_char(value % 10))
    }
}

/// Equality of string slices as `str::eq` computes it: two slices are equal
/// exactly when they hold the same characters.
pub assume_specification[ <str as PartialEq>::eq ](left: &str, right: &str) -> (equal: bool)
    ensures
        equal == (left@ == right@),
;

/// `str::strip_prefix` with a string prefix: where `text` begins with
/// `prefix` the remainder comes back, otherwise nothing does.
#[verifier::external_body]
pub(crate) fn strip_prefix<'a>(text: &'a str, prefix: &str) -> (rest: Option<&'a str>)
    ensures
        match rest {
            Some(tail) => text@ == prefix@ + tail@,
            None => !prefix@.is_prefix_of(text@),
        },
{
    text.strip_prefix(prefix)
}

fn digit_str(value: usize) -> (digit: &'static str)
    requires
        value < 10,
    ensures
        digit@ == seq![digit_char(value as nat)],
{
    proof {
        reveal_strlit("0");
        reveal_strlit("1");
        reveal_strlit("2");
        reveal_strlit("3");
        reveal_strlit("4");
        reveal_strlit("5");
        reveal_strlit("6");
        reveal_strlit("7");
        reveal_strlit("8");
        reveal_strlit("9");
    }
    let digit = if value == 0 {
        "0"
    } else if value == 1 {
        "1"
    } else if value == 2 {
        "2"
    } else if value == 3 {
        "3"
    } else if value == 4 {
        "4"
    } else if value == 5 {
        "5"
    } else if value == 6 {
        "6"
    } else if value == 7 {
        "7"
    } else if value == 8 {
        "8"
    } else {
        "9"
    };
    digit
}

/// Writes `value` in decimal notation.
pub fn decimal(value: usize) -> (text: String)
    ensures
        text@ == decimal_text(value as nat),
    decreases value,
{
    if value < 10 {
        digit_str(value).to_string()
    } else {
        let mut text = decimal(value / 10);
        text.append(digit_str(value % 10));
        text
    }
}

/// The concatenation of two pieces of text.
pub fn concatenate(left: &str, right: &str) -> (text: String)
    ensures
        text@ == left@ + right@,
{
    let mut text = left.to_string();
    text.append(right);
    text
}

/// Joins `lines` with `separator` between neighbours.
pub fn join(lines: &Vec<String>, separator: &str) -> (text: String)
    ensures
        text@ == joined(texts(lines@), separator@),
{
    let mut text = String::new();
    let mut index: usize = 0;
    while index < lines.len()
        invariant
            index <= lines.len(),
            text@ == joined(texts(lines@).take(index as int), separator@),
        decreases lines.len() - index,
    {
        let ghost before = texts(lines@).take(index as int);
        let ghost after = texts(lines@).take(index + 1);
        assert(after.drop_last() =~= before);
        if index > 0 {
            text.append(separator);
        }
        text.append(lines[index].as_str());
        index += 1;
    }
    assert(texts(lines@).take(lines.len() as int) =~= texts(lines@));
    text
}

/// Tells whether `name` occurs in `names`.
pub fn contains(names: &Vec<String>, name: &str) -> (found: bool)
    ensures
        found == texts(names@).contains(name@),
{
    let mut index: usize = 0;
    while index < names.len()
        invariant
            index <= names.len(),
            forall|i: int| 0 <= i < index ==> texts(names@)[i] != name@,
        decreases names.len() - index,
    {
        if names[index].as_str().eq(name) {
            assert(texts(names@)[index as int] == name@);
            return true;
        }
        index += 1;
    }
    false
}

/// An owned copy of every string in `items`.
pub fn clone_all(items: &Vec<String>) -> (copy: Vec<String>)
    ensures
        texts(copy@) == texts(items@),
{
    let mut copy: Vec<String> = Vec::new();
    let mut index: usize = 0;
    while index < items.len()
        invariant
            index <= items.len(),
            copy@.len() == index,
            texts(copy@) == texts(items@).take(index as int),
        decreases items.len() - index,
    {
        copy.push(items[index].clone());
        index += 1;
    }
    copy
}

/// Appends an owned copy of every string in `more` to `lines`.
pub fn append_all(lines: &mut Vec<String>, more: &Vec<String>)
    ensures
        texts(final(lines)@) == texts(old(lines)@) + texts(more@),
{
    let mut index: usize = 0;
    while index < more.len()
        invariant
            index <= more.len(),
            lines@.len() == old(lines)@.len() + index,
            texts(lines@) == texts(old(lines)@) + texts(more@).take(index as int),
        decreases more.len() - index,
    {
        let ghost before = lines@;
        lines.push(more[index].clone());
        assert(texts(lines@) =~= texts(before).push(more@[index as int]@));
        index += 1;
    }
}

/// Joins a few pieces of text with single spaces.
pub fn spaced(parts: Vec<String>) -> (line: String)
    ensures
        line@ == joined(texts(parts@), " "@),
{
    join(&parts, " ")
}

/// Two pieces of text with a space between them.
pub fn pair(left: String, right: String) -> (line: String)
    ensures
        line@ == joined(seq![left@, right@], " "@),
{
    let mut parts: Vec<String> = Vec::new();
    let ghost wanted = seq![left@, right@];
    parts.push(left);
    parts.push(right);
    assert(texts(parts@) =~= wanted);
    spaced(parts)
}

/// Three pieces of text with a space between neighbours.
pub fn triple(left: String, middle: String, right: String) -> (line: String)
    ensures
        line@ == joined(seq![left@, middle@, right@], " "@),
{
    let mut parts: Vec<String> = Vec::new();
    let ghost wanted = seq![left@, middle@, right@];
    parts.push(left);
    parts.push(middle);
    parts.push(right);
    assert(texts(parts@) =~= wanted);
    spaced(parts)
}

} // verus!
