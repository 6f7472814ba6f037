//! Trimming, lines and letter case.

use vstd::prelude::*;
use vstd::string::*;
use vstd::utf8::{decode_utf8, encode_utf8, valid_utf8};

use crate::text::{
    begins_with, char_code, char_lists, chars_begin_with, chars_of, lemma_pieces_nonempty, pieces,
    split_chars, string_of, texts,
};

verus! {

/// Whether a character is white space (the Unicode property `White_Space`).
pub open spec fn is_white(c: char) -> bool {
    let code = c as int;
    ||| 0x9 <= code <= 0xd
    ||| code == 0x20
    ||| code == 0x85
    ||| code == 0xa0
    ||| code == 0x1680
    ||| 0x2000 <= code <= 0x200a
    ||| code == 0x2028
    ||| code == 0x2029
    ||| code == 0x202f
    ||| code == 0x205f
    ||| code == 0x3000
}

fn white(c: char) -> (result: bool)
    ensures
        result == is_white(c),
{
    let code: u32 = char_code(c);
    (0x9 <= code && code <= 0xd) || code == 0x20 || code == 0x85 || code == 0xa0 || code == 0x1680
        || (0x2000 <= code && code <= 0x200a) || code == 0x2028 || code == 0x2029 || code == 0x202f
        || code == 0x205f || code == 0x3000
}

/// The text without white space at its beginning.
pub open spec fn trimmed_start(text: Seq<char>) -> Seq<char>
    decreases text.len(),
{
    if text.len() > 0 && is_white(text[0]) {
        trimmed_start(text.drop_first())
    } else {
        text
    }
}

/// The text without white space at its end.
pub open spec fn trimmed_end(text: Seq<char>) -> Seq<char>
    decreases text.len(),
{
    if text.len() > 0 && is_white(text.last()) {
        trimmed_end(text.drop_last())
    } else {
        text
    }
}

/// The text without white space at either end.
pub open spec fn trimmed(text: Seq<char>) -> Seq<char> {
    trimmed_end(trimmed_start(text))
}

/// The text without white space at either end.
pub fn trim(text: &str) -> (result: String)
    ensures
        result@ == trimmed(text@),
{
    let chars = chars_of(text);
    let mut start: usize = 0;
    proof {
        assert(chars@.skip(0) =~= chars@);
    }
    while start < chars.len() && white(chars[start])
        invariant
            start <= chars.len(),
            trimmed_start(chars@) == trimmed_start(chars@.skip(start as int)),
        decreases chars.len() - start,
    {
        proof {
            assert(chars@.skip(start as int).drop_first() =~= chars@.skip(start as int + 1));
        }
        start += 1;
    }
    let ghost inner = chars@.skip(start as int);
    proof {
        assert(trimmed_start(chars@) == inner);
        assert(chars@.subrange(start as int, chars@.len() as int) =~= inner);
    }
    let mut end: usize = chars.len();
    while end > start && white(chars[end - 1])
        invariant
            start <= end <= chars.len(),
            trimmed_end(inner) == trimmed_end(chars@.subrange(start as int, end as int)),
        decreases end,
    {
        proof {
            let here = chars@.subrange(start as int, end as int);
            assert(here.drop_last() =~= chars@.subrange(start as int, end as int - 1));
            assert(here.last() == chars@[end as int - 1]);
        }
        end -= 1;
    }
    let kept = vstd::slice::slice_subrange(chars.as_slice(), start, end);
    string_of(kept)
}

/// Whether nothing but white space is in the text.
pub fn is_blank(text: &str) -> (result: bool)
    ensures
        result == (trimmed(text@).len() == 0),
{
    trim(text).as_str().is_empty()
}

/// The lower-case form of an ASCII letter; any other character as it is.
pub open spec fn lower_char(c: char) -> char {
    if c == 'A' { 'a' } else if c == 'B' { 'b' } else if c == 'C' { 'c' } else if c == 'D' { 'd' }
    else if c == 'E' { 'e' } else if c == 'F' { 'f' } else if c == 'G' { 'g' }
    else if c == 'H' { 'h' } else if c == 'I' { 'i' } else if c == 'J' { 'j' }
    else if c == 'K' { 'k' } else if c == 'L' { 'l' } else if c == 'M' { 'm' }
    else if c == 'N' { 'n' } else if c == 'O' { 'o' } else if c == 'P' { 'p' }
    else if c == 'Q' { 'q' } else if c == 'R' { 'r' } else if c == 'S' { 's' }
    else if c == 'T' { 't' } else if c == 'U' { 'u' } else if c == 'V' { 'v' }
    else if c == 'W' { 'w' } else if c == 'X' { 'x' } else if c == 'Y' { 'y' }
    else if c == 'Z' { 'z' } else { c }
}

fn lower(c: char) -> (result: char)
    ensures
        result == lower_char(c),
{
    match c {
        'A' => 'a',
        'B' => 'b',
        'C' => 'c',
        'D' => 'd',
        'E' => 'e',
        'F' => 'f',
        'G' => 'g',
        'H' => 'h',
        'I' => 'i',
        'J' => 'j',
        'K' => 'k',
        'L' => 'l',
        'M' => 'm',
        'N' => 'n',
        'O' => 'o',
        'P' => 'p',
        'Q' => 'q',
        'R' => 'r',
        'S' => 's',
        'T' => 't',
        'U' => 'u',
        'V' => 'v',
        'W' => 'w',
        'X' => 'x',
        'Y' => 'y',
        'Z' => 'z',
        _ => c,
    }
}

/// The upper-case form of an ASCII letter; any other character as it is.
pub open spec fn upper_char(c: char) -> char {
    if c == 'a' { 'A' } else if c == 'b' { 'B' } else if c == 'c' { 'C' } else if c == 'd' { 'D' }
    else if c == 'e' { 'E' } else if c == 'f' { 'F' } else if c == 'g' { 'G' }
    else if c == 'h' { 'H' } else if c == 'i' { 'I' } else if c == 'j' { 'J' }
    else if c == 'k' { 'K' } else if c == 'l' { 'L' } else if c == 'm' { 'M' }
    else if c == 'n' { 'N' } else if c == 'o' { 'O' } else if c == 'p' { 'P' }
    else if c == 'q' { 'Q' } else if c == 'r' { 'R' } else if c == 's' { 'S' }
    else if c == 't' { 'T' } else if c == 'u' { 'U' } else if c == 'v' { 'V' }
    else if c == 'w' { 'W' } else if c == 'x' { 'X' } else if c == 'y' { 'Y' }
    else if c == 'z' { 'Z' } else { c }
}

/// The upper-case form of the letter.
pub fn upper(c: char) -> (result: char)
    ensures
        result == upper_char(c),
{
    match c {
        'a' => 'A',
        'b' => 'B',
        'c' => 'C',
        'd' => 'D',
        'e' => 'E',
        'f' => 'F',
        'g' => 'G',
        'h' => 'H',
        'i' => 'I',
        'j' => 'J',
        'k' => 'K',
        'l' => 'L',
        'm' => 'M',
        'n' => 'N',
        'o' => 'O',
        'p' => 'P',
        'q' => 'Q',
        'r' => 'R',
        's' => 'S',
        't' => 'T',
        'u' => 'U',
        'v' => 'V',
        'w' => 'W',
        'x' => 'X',
        'y' => 'Y',
        'z' => 'Z',
        _ => c,
    }
}

/// The text with its ASCII letters in lower case.
pub open spec fn lowered(text: Seq<char>) -> Seq<char> {
    text.map_values(|c: char| lower_char(c))
}

/// The text with its ASCII letters in lower case.
pub fn to_ascii_lowercase(text: &str) -> (result: String)
    ensures
        result@ == lowered(text@),
{
    let chars = chars_of(text);
    let mut out: Vec<char> = Vec::new();
    let mut i: usize = 0;
    while i < chars.len()
        invariant
            i <= chars.len(),
            out@ == lowered(chars@.take(i as int)),
        decreases chars.len() - i,
    {
        out.push(lower(chars[i]));
        proof {
            assert(lowered(chars@.take(i as int + 1)) =~= lowered(chars@.take(i as int)).push(
                lower_char(chars@[i as int]),
            ));
        }
        i += 1;
    }
    proof {
        assert(chars@.take(chars@.len() as int) =~= chars@);
    }
    string_of(out.as_slice())
}

/// The text with one character in place of another.
pub open spec fn replaced(text: Seq<char>, from: char, to: char) -> Seq<char> {
    text.map_values(
        |c: char|
            if c == from {
                to
            } else {
                c
            },
    )
}

/// The text with one character in place of another.
pub fn replace_char(text: &str, from: char, to: char) -> (result: String)
    ensures
        result@ == replaced(text@, from, to),
{
    let chars = chars_of(text);
    let mut out: Vec<char> = Vec::new();
    let mut i: usize = 0;
    while i < chars.len()
        invariant
            i <= chars.len(),
            out@ == replaced(chars@.take(i as int), from, to),
        decreases chars.len() - i,
    {
        let c: char = chars[i];
        let next: char = if c == from {
            to
        } else {
            c
        };
        out.push(next);
        proof {
            assert(replaced(chars@.take(i as int + 1), from, to) =~= replaced(
                chars@.take(i as int),
                from,
                to,
            ).push(next));
        }
        i += 1;
    }
    proof {
        assert(chars@.take(chars@.len() as int) =~= chars@);
    }
    string_of(out.as_slice())
}

/// Whether there is white space in a text.
pub open spec fn has_white(text: Seq<char>) -> bool {
    exists|i: int| 0 <= i < text.len() && is_white(#[trigger] text[i])
}

/// Whether there is white space in the text.
pub fn contains_white(text: &str) -> (found: bool)
    ensures
        found == has_white(text@),
{
    let chars = chars_of(text);
    let mut i: usize = 0;
    while i < chars.len()
        invariant
            i <= chars.len(),
            chars@ == text@,
            forall|j: int| 0 <= j < i ==> !is_white(#[trigger] text@[j]),
        decreases chars.len() - i,
    {
        if white(chars[i]) {
            assert(is_white(text@[i as int]));
            return true;
        }
        i += 1;
    }
    false
}

/// The text with another in place of each occurrence of a pattern, which are found
/// from the beginning and do not overlap.
pub open spec fn substituted(text: Seq<char>, pattern: Seq<char>, with: Seq<char>) -> Seq<char>
    decreases text.len(),
{
    if text.len() == 0 || pattern.len() == 0 {
        text
    } else if begins_with(text, pattern) {
        with + substituted(text.skip(pattern.len() as int), pattern, with)
    } else {
        seq![text[0]] + substituted(text.drop_first(), pattern, with)
    }
}

/// The text with another in place of each occurrence of the pattern.
pub fn substitute(text: &str, pattern: &str, with: &str) -> (result: String)
    requires
        pattern@.len() > 0,
    ensures
        result@ == substituted(text@, pattern@, with@),
{
    let chars = chars_of(text);
    let marks = chars_of(pattern);
    let mut result: String = String::new();
    let mut i: usize = 0;
    proof {
        assert(chars@.skip(0) =~= chars@);
        assert(result@ + substituted(chars@, pattern@, with@) =~= substituted(
            text@,
            pattern@,
            with@,
        ));
    }
    while i < chars.len()
        invariant
            i <= chars.len(),
            chars@ == text@,
            marks@ == pattern@,
            marks@.len() > 0,
            result@ + substituted(chars@.skip(i as int), pattern@, with@) == substituted(
                text@,
                pattern@,
                with@,
            ),
        decreases chars.len() - i,
    {
        let ghost rest = chars@.skip(i as int);
        let ghost before = result@;
        let tail = vstd::slice::slice_subrange(chars.as_slice(), i, chars.len());
        proof {
            assert(tail@ =~= rest);
        }
        if chars_begin_with(tail, marks.as_slice()) {
            result.append(with);
            i += marks.len();
            proof {
                assert(rest.skip(pattern@.len() as int) =~= chars@.skip(i as int));
                assert(before + (with@ + substituted(chars@.skip(i as int), pattern@, with@))
                    =~= result@ + substituted(chars@.skip(i as int), pattern@, with@));
            }
        } else {
            let one: [char; 1] = [chars[i]];
            let next = string_of(one.as_slice());
            result.append(next.as_str());
            i += 1;
            proof {
                assert(next@ =~= seq![rest[0]]);
                assert(rest.drop_first() =~= chars@.skip(i as int));
                assert(before + (seq![rest[0]] + substituted(
                    chars@.skip(i as int),
                    pattern@,
                    with@,
                )) =~= result@ + substituted(chars@.skip(i as int), pattern@, with@));
            }
        }
    }
    proof {
        assert(chars@.skip(chars@.len() as int) =~= Seq::<char>::empty());
        assert(result@ + Seq::<char>::empty() =~= result@);
    }
    result
}

/// Whether a pattern occurs in a text.
pub open spec fn occurs(text: Seq<char>, pattern: Seq<char>) -> bool {
    exists|i: int| 0 <= i <= text.len() && begins_with(#[trigger] text.skip(i), pattern)
}

/// Whether the pattern occurs in the text.
pub fn contains_text(text: &str, pattern: &str) -> (found: bool)
    ensures
        found == occurs(text@, pattern@),
{
    let chars = chars_of(text);
    let marks = chars_of(pattern);
    let mut i: usize = 0;
    while i <= chars.len()
        invariant
            i <= chars.len() + 1,
            chars@ == text@,
            marks@ == pattern@,
            forall|j: int| 0 <= j < i ==> !begins_with(#[trigger] text@.skip(j), pattern@),
        decreases chars.len() + 1 - i,
    {
        let tail = vstd::slice::slice_subrange(chars.as_slice(), i, chars.len());
        proof {
            assert(tail@ =~= text@.skip(i as int));
        }
        if chars_begin_with(tail, marks.as_slice()) {
            return true;
        }
        if i == chars.len() {
            return false;
        }
        i += 1;
    }
    false
}

/// Whether the character is in the text.
pub fn contains_char(text: &str, mark: char) -> (found: bool)
    ensures
        found == text@.contains(mark),
{
    let chars = chars_of(text);
    let mut i: usize = 0;
    while i < chars.len()
        invariant
            i <= chars.len(),
            chars@ == text@,
            forall|j: int| 0 <= j < i ==> chars@[j] != mark,
        decreases chars.len() - i,
    {
        if chars[i] == mark {
            assert(text@[i as int] == mark);
            return true;
        }
        i += 1;
    }
    false
}

/// A line without the carriage return that ends it.
pub open spec fn without_return(line: Seq<char>) -> Seq<char> {
    if line.len() > 0 && line.last() == '\r' {
        line.drop_last()
    } else {
        line
    }
}

/// The lines of a text: ended by a line feed, or by a carriage return and a line
/// feed; the last line may do without.
pub open spec fn lines_of(text: Seq<char>) -> Seq<Seq<char>> {
    let parts = pieces(text, '\n');
    let ended = parts.drop_last().map_values(|line: Seq<char>| without_return(line));
    if parts.last().len() == 0 {
        ended
    } else {
        ended.push(parts.last())
    }
}

/// The lines of the text.
pub fn lines(text: &str) -> (list: Vec<String>)
    ensures
        texts(list@) == lines_of(text@),
{
    let chars = chars_of(text);
    let parts = split_chars(chars.as_slice(), '\n');
    let ghost all = pieces(text@, '\n');
    proof {
        lemma_pieces_nonempty(text@, '\n');
        assert(all.len() == parts@.len());
    }
    let last: usize = parts.len() - 1;
    let mut list: Vec<String> = Vec::new();
    let mut i: usize = 0;
    let ghost ended = all.drop_last().map_values(|line: Seq<char>| without_return(line));
    proof {
        assert(texts(list@) =~= ended.take(0));
    }
    while i < last
        invariant
            i <= last,
            last == parts@.len() - 1,
            all == char_lists(parts@),
            ended == all.drop_last().map_values(|line: Seq<char>| without_return(line)),
            texts(list@) == ended.take(i as int),
        decreases last - i,
    {
        let part = &parts[i];
        let ghost before = list@;
        let end: usize = if part.len() > 0 && part[part.len() - 1] == '\r' {
            part.len() - 1
        } else {
            part.len()
        };
        let line = string_of(vstd::slice::slice_subrange(part.as_slice(), 0, end));
        let ghost added = line@;
        list.push(line);
        proof {
            assert(all[i as int] == part@);
            assert(added =~= without_return(part@));
            assert(ended[i as int] == added);
            assert(ended.take(i as int + 1) =~= ended.take(i as int).push(added));
            assert(texts(list@) =~= texts(before).push(added));
        }
        i += 1;
    }
    proof {
        assert(ended.take(ended.len() as int) =~= ended);
        assert(all.last() == parts@[last as int]@);
    }
    if parts[last].len() > 0 {
        let ghost before = list@;
        list.push(string_of(parts[last].as_slice()));
        proof {
            assert(texts(list@) =~= texts(before).push(parts@[last as int]@));
        }
    }
    list
}

/// `std::str::from_utf8`, with the text copied out: there is a text exactly where
/// the bytes are valid UTF-8, and its encoding is the bytes.
#[verifier::external_body]
pub(crate) fn utf8_text(bytes: &[u8]) -> (text: Option<String>)
    ensures
        text is Some <==> valid_utf8(bytes@),
        text is Some ==> encode_utf8(text->0@) == bytes@,
{
    std::str::from_utf8(bytes).ok().map(str::to_owned)
}

/// The text of bytes of which some may not be UTF-8.
pub uninterp spec fn lossy_text(bytes: Seq<u8>) -> Seq<char>;

/// `String::from_utf8_lossy`. The result is named: it depends on the bytes alone.
/// Where the bytes are valid UTF-8 it is the text that they encode.
#[verifier::external_body]
pub(crate) fn text_lossy(bytes: &[u8]) -> (text: String)
    ensures
        text@ == lossy_text(bytes@),
        valid_utf8(bytes@) ==> text@ == decode_utf8(bytes@),
{
    String::from_utf8_lossy(bytes).into_owned()
}

} // verus!
