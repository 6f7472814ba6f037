//! Text as sequences of characters.
//!
//! Contracts in this crate speak of a string through its view, a `Seq<char>`.
//! The functions here build, split and compare strings against that view.

use vstd::prelude::*;
use vstd::string::*;

verus! {

/// The number of a character.
pub(crate) fn char_code(c: char) -> (code: u32)
    ensures
        code as int == c as int,
{
    c as u32
}

/// The characters of `text`, in order.
pub fn chars_of(text: &str) -> (chars: Vec<char>)
    ensures
        chars@ == text@,
{
    let mut chars: Vec<char> = Vec::new();
    for c in it: text.chars()
        invariant
            chars@ == it.seq().take(it.index() as int),
            it.seq() == text@,
    {
        proof {
            assert(it.seq().take(it.index() as int + 1) =~= it.seq().take(
                it.index() as int,
            ).push(c));
        }
        chars.push(c);
    }
    proof {
        assert(text@.take(text@.len() as int) =~= text@);
    }
    chars
}

/// The string that holds exactly the given characters.
///
/// `String::from_iter` over the characters: the standard library documents that
/// collecting characters into a `String` keeps each of them, in order.
#[verifier::external_body]
pub(crate) fn string_of(chars: &[char]) -> (text: String)
    ensures
        text@ == chars@,
{
    String::from_iter(chars.iter())
}

/// Whether the two strings hold the same characters.
pub fn same_text(left: &str, right: &str) -> (same: bool)
    ensures
        same == (left@ == right@),
{
    left.to_owned() == right.to_owned()
}

/// The two strings one after the other.
pub fn joined(left: &str, right: &str) -> (text: String)
    ensures
        text@ == left@ + right@,
{
    let mut text: String = left.to_owned();
    text.append(right);
    text
}

/// The decimal digits of `n`, most significant first, without leading zeros.
pub open spec fn decimal_digits(n: nat) -> Seq<char>
    decreases n,
{
    if n < 10 {
        seq![digit_char(n)]
    } else {
        decimal_digits(n / 10).push(digit_char(n % 10))
    }
}

/// The character of one digit below ten.
pub open spec fn digit_char(d: nat) -> char {
    if d == 0 {
        '0'
    } else if d == 1 {
        '1'
    } else if d == 2 {
        '2'
    } else if d == 3 {
        '3'
    } else if d == 4 {
        '4'
    } else if d == 5 {
        '5'
    } else if d == 6 {
        '6'
    } else if d == 7 {
        '7'
    } else if d == 8 {
        '8'
    } else {
        '9'
    }
}

fn digit_of(d: u64) -> (c: char)
    requires
        d < 10,
    ensures
        c == digit_char(d as nat),
{
    match d {
        0 => '0',
        1 => '1',
        2 => '2',
        3 => '3',
        4 => '4',
        5 => '5',
        6 => '6',
        7 => '7',
        8 => '8',
        _ => '9',
    }
}

fn decimal_chars(n: u64) -> (digits: Vec<char>)
    ensures
        digits@ == decimal_digits(n as nat),
    decreases n,
{
    if n < 10 {
        let mut digits: Vec<char> = Vec::new();
        digits.push(digit_of(n));
        proof {
            assert(digits@ =~= decimal_digits(n as nat));
        }
        digits
    } else {
        let mut digits = decimal_chars(n / 10);
        digits.push(digit_of(n % 10));
        digits
    }
}

/// `n` written in decimal.
pub fn decimal(n: u64) -> (text: String)
    ensures
        text@ == decimal_digits(n as nat),
{
    string_of(decimal_chars(n).as_slice())
}

/// A number in decimal, with a `-` where it is below zero.
pub open spec fn signed_digits(n: int) -> Seq<char> {
    if n < 0 {
        seq!['-'] + decimal_digits((-n) as nat)
    } else {
        decimal_digits(n as nat)
    }
}

/// `n` written in decimal.
pub fn signed_decimal(n: i32) -> (text: String)
    ensures
        text@ == signed_digits(n as int),
{
    let wide: i64 = n as i64;
    if wide < 0 {
        proof {
            reveal_strlit("-");
            assert("-"@ =~= seq!['-']);
        }
        joined("-", decimal((0 - wide) as u64).as_str())
    } else {
        decimal(wide as u64)
    }
}

/// Whether `text` begins with `prefix`.
pub open spec fn begins_with(text: Seq<char>, prefix: Seq<char>) -> bool {
    prefix.len() <= text.len() && text.subrange(0, prefix.len() as int) == prefix
}

/// Whether `chars` begins with `prefix`.
pub fn chars_begin_with(chars: &[char], prefix: &[char]) -> (result: bool)
    ensures
        result == begins_with(chars@, prefix@),
{
    if prefix.len() > chars.len() {
        return false;
    }
    let mut i: usize = 0;
    while i < prefix.len()
        invariant
            i <= prefix.len(),
            prefix.len() <= chars.len(),
            forall|j: int| 0 <= j < i ==> chars@[j] == prefix@[j],
        decreases prefix.len() - i,
    {
        if chars[i] != prefix[i] {
            proof {
                assert(chars@.subrange(0, prefix@.len() as int)[i as int] == chars@[i as int]);
            }
            return false;
        }
        i += 1;
    }
    proof {
        assert(chars@.subrange(0, prefix@.len() as int) =~= prefix@);
    }
    true
}

/// Whether `text` begins with `prefix`.
pub fn starts_with(text: &str, prefix: &str) -> (result: bool)
    ensures
        result == begins_with(text@, prefix@),
{
    chars_begin_with(chars_of(text).as_slice(), chars_of(prefix).as_slice())
}

/// What follows `prefix` in `text`, where `text` begins with it.
pub fn after_prefix(text: &str, prefix: &str) -> (rest: Option<String>)
    ensures
        rest is Some <==> begins_with(text@, prefix@),
        rest is Some ==> rest->0@ == text@.skip(prefix@.len() as int),
{
    let chars = chars_of(text);
    let head = chars_of(prefix);
    if chars_begin_with(chars.as_slice(), head.as_slice()) {
        let rest = vstd::slice::slice_subrange(chars.as_slice(), head.len(), chars.len());
        proof {
            assert(rest@ =~= text@.skip(prefix@.len() as int));
        }
        Some(string_of(rest))
    } else {
        None
    }
}

/// The pieces of `text` between occurrences of `mark`: always at least one.
pub open spec fn pieces(text: Seq<char>, mark: char) -> Seq<Seq<char>>
    decreases text.len(),
{
    if text.len() == 0 {
        seq![Seq::<char>::empty()]
    } else {
        let before = pieces(text.drop_last(), mark);
        if text.last() == mark {
            before.push(Seq::<char>::empty())
        } else {
            before.drop_last().push(before.last().push(text.last()))
        }
    }
}

pub proof fn lemma_pieces_nonempty(text: Seq<char>, mark: char)
    ensures
        pieces(text, mark).len() > 0,
    decreases text.len(),
{
    if text.len() > 0 {
        lemma_pieces_nonempty(text.drop_last(), mark);
    }
}

/// The views of a list of character vectors.
pub open spec fn char_lists(list: Seq<Vec<char>>) -> Seq<Seq<char>> {
    list.map_values(|chars: Vec<char>| chars@)
}

/// Splits `chars` at each `mark`.
pub fn split_chars(chars: &[char], mark: char) -> (list: Vec<Vec<char>>)
    ensures
        char_lists(list@) == pieces(chars@, mark),
        list@.len() > 0,
{
    let mut done: Vec<Vec<char>> = Vec::new();
    let mut current: Vec<char> = Vec::new();
    let mut i: usize = 0;
    proof {
        assert(chars@.take(0) =~= Seq::<char>::empty());
        assert(char_lists(done@).push(current@) =~= seq![Seq::<char>::empty()]);
    }
    while i < chars.len()
        invariant
            i <= chars.len(),
            char_lists(done@).push(current@) == pieces(chars@.take(i as int), mark),
        decreases chars.len() - i,
    {
        let ghost done_before = done@;
        let ghost current_before = current@;
        let c = chars[i];
        proof {
            let prefix = chars@.take(i as int + 1);
            assert(prefix.drop_last() =~= chars@.take(i as int));
            assert(prefix.last() == c);
            let before = char_lists(done_before).push(current_before);
            assert(before.drop_last() =~= char_lists(done_before));
            assert(before.last() == current_before);
        }
        if c == mark {
            done.push(current);
            current = Vec::new();
            proof {
                assert(char_lists(done@) =~= char_lists(done_before).push(current_before));
                assert(char_lists(done@).push(current@) =~= pieces(
                    chars@.take(i as int + 1),
                    mark,
                ));
            }
        } else {
            current.push(c);
        }
        i += 1;
    }
    let ghost done_before = done@;
    let ghost current_before = current@;
    done.push(current);
    proof {
        assert(chars@.take(chars@.len() as int) =~= chars@);
        assert(char_lists(done@) =~= char_lists(done_before).push(current_before));
    }
    done
}

/// The views of a list of strings.
pub open spec fn texts(list: Seq<String>) -> Seq<Seq<char>> {
    list.map_values(|text: String| text@)
}

/// Adds a text to the end of a list.
pub fn push_text(list: &mut Vec<String>, text: &str)
    ensures
        texts(final(list)@) == texts(old(list)@).push(text@),
{
    let ghost before = list@;
    list.push(text.to_owned());
    proof {
        assert(texts(list@) =~= texts(before).push(text@));
    }
}

/// Whether `list` holds a string with exactly the characters of `text`.
pub fn list_contains(list: &[String], text: &str) -> (found: bool)
    ensures
        found == texts(list@).contains(text@),
{
    let mut i: usize = 0;
    while i < list.len()
        invariant
            i <= list.len(),
            forall|j: int| 0 <= j < i ==> list@[j]@ != text@,
        decreases list.len() - i,
    {
        if same_text(list[i].as_str(), text) {
            proof {
                assert(texts(list@)[i as int] == text@);
            }
            return true;
        }
        i += 1;
    }
    proof {
        assert forall|j: int| 0 <= j < texts(list@).len() implies texts(list@)[j] != text@ by {
            assert(texts(list@)[j] == list@[j]@);
        }
    }
    false
}

/// Whether the two lists hold the same strings in the same order.
pub fn same_texts(left: &[String], right: &[String]) -> (same: bool)
    ensures
        same == (texts(left@) == texts(right@)),
{
    if left.len() != right.len() {
        proof {
            assert(texts(left@).len() != texts(right@).len());
        }
        return false;
    }
    let mut i: usize = 0;
    while i < left.len()
        invariant
            i <= left.len(),
            left.len() == right.len(),
            forall|j: int| 0 <= j < i ==> left@[j]@ == right@[j]@,
        decreases left.len() - i,
    {
        if !same_text(left[i].as_str(), right[i].as_str()) {
            proof {
                assert(texts(left@)[i as int] == left@[i as int]@);
                assert(texts(right@)[i as int] == right@[i as int]@);
            }
            return false;
        }
        i += 1;
    }
    proof {
        assert(texts(left@) =~= texts(right@));
    }
    true
}

/// A copy of the list of strings.
pub fn copy_texts(list: &[String]) -> (copy: Vec<String>)
    ensures
        copy@ == list@,
{
    let mut copy: Vec<String> = Vec::new();
    let mut i: usize = 0;
    while i < list.len()
        invariant
            i <= list.len(),
            copy@ == list@.take(i as int),
        decreases list.len() - i,
    {
        copy.push(list[i].clone());
        proof {
            assert(list@.take(i as int + 1) =~= list@.take(i as int).push(list@[i as int]));
        }
        i += 1;
    }
    proof {
        assert(list@.take(list@.len() as int) =~= list@);
    }
    copy
}

/// The pieces joined by `mark`, with nothing before the first or after the last.
pub open spec fn joined_by(list: Seq<Seq<char>>, mark: Seq<char>) -> Seq<char>
    decreases list.len(),
{
    if list.len() == 0 {
        Seq::empty()
    } else if list.len() == 1 {
        list[0]
    } else {
        joined_by(list.drop_last(), mark) + mark + list.last()
    }
}

/// What stands before and after the first `mark` of a text.
pub open spec fn cut_at(text: Seq<char>, mark: char) -> Option<(Seq<char>, Seq<char>)>
    decreases text.len(),
{
    if text.len() == 0 {
        None
    } else if text[0] == mark {
        Some((Seq::empty(), text.drop_first()))
    } else {
        match cut_at(text.drop_first(), mark) {
            Some((before, after)) => Some((seq![text[0]] + before, after)),
            None => None,
        }
    }
}

pub proof fn lemma_cut_at(text: Seq<char>, mark: char, i: int)
    requires
        0 <= i <= text.len(),
        forall|j: int| 0 <= j < i ==> text[j] != mark,
    ensures
        i < text.len() && text[i] == mark ==> cut_at(text, mark) == Some(
            (text.take(i), text.skip(i + 1)),
        ),
        i == text.len() ==> cut_at(text, mark) is None,
    decreases text.len(),
{
    if text.len() > 0 && i > 0 {
        let rest = text.drop_first();
        assert forall|j: int| 0 <= j < i - 1 implies rest[j] != mark by {
            assert(rest[j] == text[j + 1]);
        }
        lemma_cut_at(rest, mark, i - 1);
        if i < text.len() && text[i] == mark {
            assert(rest[i - 1] == mark);
            assert(seq![text[0]] + rest.take(i - 1) =~= text.take(i));
            assert(rest.skip(i) =~= text.skip(i + 1));
        }
    } else if text.len() > 0 {
        assert(text.take(0) =~= Seq::<char>::empty());
        assert(text.skip(1) =~= text.drop_first());
    }
}

/// Cuts a text at the first `mark`.
pub fn split_once(text: &str, mark: char) -> (parts: Option<(String, String)>)
    ensures
        match parts {
            Some((before, after)) => cut_at(text@, mark) == Some((before@, after@)),
            None => cut_at(text@, mark) is None,
        },
{
    let chars = chars_of(text);
    let mut i: usize = 0;
    while i < chars.len()
        invariant
            i <= chars.len(),
            chars@ == text@,
            forall|j: int| 0 <= j < i ==> chars@[j] != mark,
        decreases chars.len() - i,
    {
        if chars[i] == mark {
            proof {
                lemma_cut_at(text@, mark, i as int);
            }
            let before = vstd::slice::slice_subrange(chars.as_slice(), 0, i);
            let after = vstd::slice::slice_subrange(chars.as_slice(), i + 1, chars.len());
            proof {
                assert(before@ =~= text@.take(i as int));
                assert(after@ =~= text@.skip(i as int + 1));
            }
            return Some((string_of(before), string_of(after)));
        }
        i += 1;
    }
    proof {
        lemma_cut_at(text@, mark, i as int);
    }
    None
}

} // verus!
