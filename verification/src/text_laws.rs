//! What holds of texts and paths: what is cut off, put together, told apart and put in
//! order.

use vstd::prelude::*;
use vstd::string::*;

use crate::lexical::{is_white, occurs, substituted, trimmed, trimmed_end, trimmed_start};
use crate::path::{
    file_name_of, is_rooted, is_under, kept_names, parent_of, path_components, path_join,
    path_names, shortest_beginning, style_of, PathStyle,
};
use crate::privileged::octal_digits;
use crate::sorted::{lemma_text_irreflexive, lemma_text_total, lemma_text_transitive, text_less};
use crate::text::{begins_with, cut_at, decimal_digits, digit_char, joined_by, pieces};

verus! {

proof fn lemma_start(text: Seq<char>) -> (from: int)
    ensures
        0 <= from <= text.len(),
        trimmed_start(text) == text.skip(from),
        forall|i: int| 0 <= i < from ==> is_white(#[trigger] text[i]),
        from < text.len() ==> !is_white(text[from]),
    decreases text.len(),
{
    if text.len() > 0 && is_white(text[0]) {
        let rest = text.drop_first();
        let from = lemma_start(rest);
        assert(text.skip(from + 1) =~= rest.skip(from));
        assert forall|i: int| 0 <= i < from + 1 implies is_white(#[trigger] text[i]) by {
            if i > 0 {
                assert(rest[i - 1] == text[i]);
            }
        }
        if from + 1 < text.len() {
            assert(rest[from] == text[from + 1]);
        }
        from + 1
    } else {
        assert(text.skip(0) =~= text);
        0
    }
}

proof fn lemma_end(text: Seq<char>) -> (to: int)
    ensures
        0 <= to <= text.len(),
        trimmed_end(text) == text.take(to),
        forall|i: int| to <= i < text.len() ==> is_white(#[trigger] text[i]),
        to > 0 ==> !is_white(text[to - 1]),
    decreases text.len(),
{
    if text.len() > 0 && is_white(text.last()) {
        let rest = text.drop_last();
        let to = lemma_end(rest);
        assert(text.take(to) =~= rest.take(to));
        assert forall|i: int| to <= i < text.len() implies is_white(#[trigger] text[i]) by {
            if i < rest.len() {
                assert(rest[i] == text[i]);
            }
        }
        to
    } else {
        assert(text.take(text.len() as int) =~= text);
        text.len() as int
    }
}

/// A trimmed text is a part of the text: only white space stands before and behind it, and
/// it neither begins nor ends with white space.
pub proof fn law_trimming_takes_white_space_off(text: Seq<char>) -> (ends: (int, int))
    ensures
        0 <= ends.0 <= ends.1 <= text.len(),
        trimmed(text) == text.subrange(ends.0, ends.1),
        forall|i: int| 0 <= i < ends.0 ==> is_white(#[trigger] text[i]),
        forall|i: int| ends.1 <= i < text.len() ==> is_white(#[trigger] text[i]),
        ends.0 < ends.1 ==> !is_white(text[ends.0]) && !is_white(text[ends.1 - 1]),
{
    let from = lemma_start(text);
    let rest = text.skip(from);
    let to = lemma_end(rest);
    assert(rest.take(to) =~= text.subrange(from, from + to));
    assert forall|i: int| from + to <= i < text.len() implies is_white(#[trigger] text[i]) by {
        assert(rest[i - from] == text[i]);
    }
    if to > 0 {
        assert(rest[0] == text[from]);
        assert(rest[to - 1] == text[from + to - 1]);
    }
    (from, from + to)
}

/// A text is blank exactly where it holds nothing but white space.
pub proof fn law_blank_texts(text: Seq<char>)
    ensures
        trimmed(text).len() == 0 <==> forall|i: int|
            0 <= i < text.len() ==> is_white(#[trigger] text[i]),
{
    let (from, to) = law_trimming_takes_white_space_off(text);
    if from == to {
        assert forall|i: int| 0 <= i < text.len() implies is_white(#[trigger] text[i]) by {}
    } else {
        assert(!is_white(text[from]));
    }
}

/// A text is cut at the first mark: what stands before it has none, and the two parts with
/// the mark between them are the text; a text without the mark is not cut.
pub proof fn law_texts_are_cut_at_the_first_mark(text: Seq<char>, mark: char)
    ensures
        match cut_at(text, mark) {
            Some((before, after)) => text == before + seq![mark] + after && !before.contains(mark),
            None => !text.contains(mark),
        },
    decreases text.len(),
{
    if text.len() > 0 && text[0] != mark {
        let rest = text.drop_first();
        law_texts_are_cut_at_the_first_mark(rest, mark);
        assert(text =~= seq![text[0]] + rest);
        match cut_at(rest, mark) {
            Some((before, after)) => {
                let whole = seq![text[0]] + before;
                assert(text =~= whole + seq![mark] + after);
                assert forall|i: int| 0 <= i < whole.len() implies whole[i] != mark by {
                    if i > 0 {
                        assert(whole[i] == before[i - 1]);
                        assert(before.contains(before[i - 1]));
                    }
                }
            },
            None => {
                assert forall|i: int| 0 <= i < text.len() implies text[i] != mark by {
                    if i > 0 {
                        assert(rest[i - 1] == text[i]);
                        assert(rest.contains(text[i]));
                    }
                }
            },
        }
    } else if text.len() > 0 {
        assert(text =~= Seq::<char>::empty() + seq![mark] + text.drop_first());
    }
}

proof fn lemma_joined_last(list: Seq<Seq<char>>, mark: Seq<char>, more: Seq<char>)
    requires
        list.len() > 0,
    ensures
        joined_by(list.drop_last().push(list.last() + more), mark) == joined_by(list, mark) + more,
    decreases list.len(),
{
    let grown = list.drop_last().push(list.last() + more);
    assert(grown.drop_last() =~= list.drop_last());
    if list.len() == 1 {
        assert(joined_by(grown, mark) =~= joined_by(list, mark) + more);
    } else {
        assert(joined_by(grown, mark) =~= joined_by(list, mark) + more);
    }
}

/// The pieces of a text hold no mark, and with the mark between them they are the text.
pub proof fn law_pieces_make_the_text(text: Seq<char>, mark: char)
    ensures
        pieces(text, mark).len() > 0,
        joined_by(pieces(text, mark), seq![mark]) == text,
        forall|i: int|
            0 <= i < pieces(text, mark).len() ==> !(#[trigger] pieces(text, mark)[i]).contains(
                mark,
            ),
    decreases text.len(),
{
    let all = pieces(text, mark);
    if text.len() == 0 {
        assert(all =~= seq![Seq::<char>::empty()]);
        assert(joined_by(all, seq![mark]) =~= text);
    } else {
        let head = text.drop_last();
        law_pieces_make_the_text(head, mark);
        let before = pieces(head, mark);
        assert(text =~= head.push(text.last()));
        if text.last() == mark {
            assert(all.drop_last() =~= before);
            assert(all.last() =~= Seq::<char>::empty());
            assert(joined_by(all, seq![mark]) =~= joined_by(before, seq![mark]) + seq![mark]);
            assert forall|i: int| 0 <= i < all.len() implies !(#[trigger] all[i]).contains(
                mark,
            ) by {
                if i < before.len() {
                    assert(all[i] == before[i]);
                }
            }
        } else {
            let last = before.last();
            assert(last.push(text.last()) =~= last + seq![text.last()]);
            lemma_joined_last(before, seq![mark], seq![text.last()]);
            assert(all =~= before.drop_last().push(last + seq![text.last()]));
            assert forall|i: int| 0 <= i < all.len() implies !(#[trigger] all[i]).contains(
                mark,
            ) by {
                if i < before.len() - 1 {
                    assert(all[i] == before[i]);
                } else {
                    let grown = last.push(text.last());
                    if grown.contains(mark) {
                        let k = choose|k: int| 0 <= k < grown.len() && grown[k] == mark;
                        if k < last.len() {
                            assert(last[k] == mark);
                            assert(last.contains(mark));
                        }
                    }
                    assert(before[before.len() - 1] == last);
                }
            }
        }
    }
}

/// A word without the mark joins the last piece.
pub proof fn lemma_pieces_end(text: Seq<char>, word: Seq<char>)
    requires
        !word.contains('/'),
    ensures
        pieces(text + word, '/').len() == pieces(text, '/').len(),
        pieces(text + word, '/') == pieces(text, '/').drop_last().push(
            pieces(text, '/').last() + word,
        ),
        pieces(text, '/').len() > 0,
    decreases word.len(),
{
    lemma_pieces_some(text);
    if word.len() == 0 {
        assert(text + word =~= text);
        let parts = pieces(text, '/');
        assert(parts.last() + word =~= parts.last());
        assert(parts =~= parts.drop_last().push(parts.last() + word));
    } else {
        let head = word.drop_last();
        assert forall|i: int| 0 <= i < head.len() implies head[i] != '/' by {
            assert(word[i] == head[i]);
            assert(word.contains(word[i]));
        }
        lemma_pieces_end(text, head);
        assert(word.contains(word.last()));
        let whole = text + word;
        assert(whole.drop_last() =~= text + head);
        assert(whole.last() == word.last());
        let before = pieces(text + head, '/');
        let parts = pieces(text, '/');
        assert(before.last() == parts.last() + head);
        assert((parts.last() + head).push(word.last()) =~= parts.last() + word);
        assert(before.drop_last() =~= parts.drop_last());
    }
}

proof fn lemma_pieces_some(text: Seq<char>)
    ensures
        pieces(text, '/').len() > 0,
    decreases text.len(),
{
    if text.len() > 0 {
        lemma_pieces_some(text.drop_last());
    }
}

/// A piece that is ended stays as it is.
pub proof fn lemma_pieces_grow(text: Seq<char>, more: Seq<char>, index: int)
    requires
        0 <= index < pieces(text, '/').len() - 1,
    ensures
        pieces(text + more, '/').len() >= pieces(text, '/').len(),
        pieces(text + more, '/')[index] == pieces(text, '/')[index],
    decreases more.len(),
{
    if more.len() == 0 {
        assert(text + more =~= text);
    } else {
        let head = more.drop_last();
        lemma_pieces_grow(text, head, index);
        let whole = text + more;
        assert(whole.drop_last() =~= text + head);
        assert(whole.last() == more.last());
    }
}

/// A text in which the pattern does not occur is left as it is; where it begins with the
/// pattern that is replaced, and the rest is gone through likewise.
pub proof fn law_patterns_are_replaced(text: Seq<char>, pattern: Seq<char>, with: Seq<char>)
    ensures
        pattern.len() > 0 && !occurs(text, pattern) ==> substituted(text, pattern, with) == text,
        pattern.len() > 0 ==> substituted(pattern + text, pattern, with) == with + substituted(
            text,
            pattern,
            with,
        ),
    decreases text.len(),
{
    if pattern.len() > 0 {
        let both = pattern + text;
        assert(both.subrange(0, pattern.len() as int) =~= pattern);
        assert(both.skip(pattern.len() as int) =~= text);
        if text.len() > 0 && !occurs(text, pattern) {
            let rest = text.drop_first();
            assert(text.skip(0) =~= text);
            assert(!begins_with(text.skip(0), pattern));
            assert(!occurs(rest, pattern)) by {
                if occurs(rest, pattern) {
                    let i = choose|i: int|
                        0 <= i <= rest.len() && begins_with(#[trigger] rest.skip(i), pattern);
                    assert(text.skip(i + 1) =~= rest.skip(i));
                    assert(begins_with(text.skip(i + 1), pattern));
                }
            }
            law_patterns_are_replaced(rest, pattern, with);
            assert(seq![text[0]] + rest =~= text);
        }
    }
}

/// The number that decimal digits stand for.
pub open spec fn number_of(digits: Seq<char>, base: nat) -> nat
    decreases digits.len(),
{
    if digits.len() == 0 {
        0
    } else {
        number_of(digits.drop_last(), base) * base + ((digits.last() as int) - ('0' as int)) as nat
    }
}

/// The digits of a number stand for it, in decimal and in octal.
pub proof fn law_digits_stand_for_the_number(n: nat)
    ensures
        number_of(decimal_digits(n), 10) == n,
        number_of(octal_digits(n), 8) == n,
    decreases n,
{
    lemma_decimal(n);
    lemma_octal(n);
}

proof fn lemma_digit(d: nat)
    requires
        d < 10,
    ensures
        (digit_char(d) as int) - ('0' as int) == d,
{
}

proof fn lemma_decimal(n: nat)
    ensures
        number_of(decimal_digits(n), 10) == n,
    decreases n,
{
    reveal_with_fuel(number_of, 2);
    let digits = decimal_digits(n);
    if n < 10 {
        lemma_digit(n);
        assert(digits.drop_last() =~= Seq::<char>::empty());
    } else {
        lemma_digit(n % 10);
        lemma_decimal(n / 10);
        assert(digits.drop_last() =~= decimal_digits(n / 10));
    }
}

proof fn lemma_octal(n: nat)
    ensures
        number_of(octal_digits(n), 8) == n,
    decreases n,
{
    reveal_with_fuel(number_of, 2);
    let digits = octal_digits(n);
    if n < 8 {
        lemma_digit(n);
        assert(digits.drop_last() =~= Seq::<char>::empty());
    } else {
        lemma_digit(n % 8);
        lemma_octal(n / 8);
        assert(digits.drop_last() =~= octal_digits(n / 8));
    }
}

/// Texts are in order by their first difference, and the shorter comes first where there is
/// none; of two different texts exactly one comes first.
pub proof fn law_texts_are_ordered_by_their_first_difference(
    left: Seq<char>,
    right: Seq<char>,
    at: int,
)
    ensures
        0 <= at < left.len() && at < right.len() && left.take(at) == right.take(at) && left[at]
            != right[at] ==> (text_less(left, right) <==> (left[at] as int) < (right[at] as int)),
        left.len() < right.len() && right.take(left.len() as int) == left ==> text_less(
            left,
            right,
        ),
        !(text_less(left, right) && text_less(right, left)),
        left != right ==> text_less(left, right) || text_less(right, left),
        !text_less(left, left),
    decreases left.len(),
{
    lemma_text_irreflexive(left);
    lemma_text_total(left, right);
    if text_less(left, right) && text_less(right, left) {
        lemma_text_transitive(left, right, left);
    }
    if left.len() > 0 && right.len() > 0 && left[0] == right[0] {
        let (a, b) = (left.drop_first(), right.drop_first());
        law_texts_are_ordered_by_their_first_difference(a, b, at - 1);
        if 0 < at < left.len() && at < right.len() && left.take(at) == right.take(at) {
            assert(a.take(at - 1) =~= left.take(at).drop_first());
            assert(b.take(at - 1) =~= right.take(at).drop_first());
        }
        if left.len() < right.len() && right.take(left.len() as int) == left {
            assert(b.take(a.len() as int) =~= right.take(left.len() as int).drop_first());
        }
    }
    if 0 < at < left.len() && at < right.len() && left.take(at) == right.take(at) {
        assert(left.take(at)[0] == right.take(at)[0]);
    }
    if left.len() > 0 && left.len() < right.len() && right.take(left.len() as int) == left {
        assert(right.take(left.len() as int)[0] == left[0]);
    }
}

proof fn lemma_beginning(path: Seq<char>, components: Seq<Seq<char>>, from: int)
    ensures
        match shortest_beginning(path, components, from) {
            Some(found) => path_components(found) == components && found.len() <= path.len()
                && path.take(found.len() as int) == found,
            None => forall|i: int|
                0 <= from <= i <= path.len() ==> path_components(#[trigger] path.take(i))
                    != components,
        },
    decreases path.len() + 1 - from,
{
    if 0 <= from <= path.len() {
        if path_components(path.take(from)) == components {
            assert(path.take(path.take(from).len() as int) =~= path.take(from));
        } else {
            lemma_beginning(path, components, from + 1);
            if shortest_beginning(path, components, from + 1) is None {
                assert forall|i: int| 0 <= from <= i <= path.len() implies path_components(
                    #[trigger] path.take(i),
                ) != components by {}
            }
        }
    }
}

/// A name that is joined to a path is its last component, below all of its own.
pub proof fn law_joined_names_come_last(base: Seq<char>, name: Seq<char>)
    requires
        style_of(base) == PathStyle::Unix,
        style_of(path_join(base, name)) == PathStyle::Unix,
        name.len() > 0,
        !name.contains('/'),
        name != seq!['.'],
    ensures
        path_components(path_join(base, name)) == path_components(base).push(name),
        is_under(path_join(base, name), base),
{
    let joined = path_join(base, name);
    assert(name.contains(name[0]));
    let parts = pieces(base, '/');
    let rooted = is_rooted(base);
    assert(is_rooted(joined) == rooted);
    lemma_pieces_some(base);
    if base.len() > 0 && base.last() != '/' {
        let deeper = base + seq!['/'];
        assert(deeper.drop_last() =~= base);
        assert(deeper.last() == '/');
        assert(pieces(deeper, '/') == parts.push(Seq::empty()));
        lemma_pieces_end(deeper, name);
        assert(Seq::<char>::empty() + name =~= name);
        assert(pieces(joined, '/') =~= parts.push(name));
        assert(parts.push(name).drop_last() =~= parts);
        assert(kept_names(parts.push(name), rooted) == kept_names(parts, rooted).push(name));
    } else {
        if base.len() > 0 {
            let above = base.drop_last();
            assert(parts == pieces(above, '/').push(Seq::empty()));
        } else {
            assert(parts =~= seq![Seq::<char>::empty()]);
        }
        assert(parts.last().len() == 0);
        lemma_pieces_end(base, name);
        assert(parts.last() + name =~= name);
        let head = parts.drop_last();
        assert(pieces(joined, '/') =~= head.push(name));
        assert(head.push(name).drop_last() =~= head);
        assert(kept_names(parts, rooted) =~= kept_names(head, rooted));
        assert(kept_names(head.push(name), rooted) == kept_names(head, rooted).push(name));
    }
    assert(path_components(joined) =~= path_components(base).push(name));
    assert(path_components(base).is_prefix_of(path_components(joined)));
}

/// The directory of a path is a beginning of it that holds all of its components but the
/// last, and the name of a path is its last component.
pub proof fn law_paths_have_a_directory_and_a_name(path: Seq<char>)
    ensures
        match parent_of(path) {
            Some(parent) => path_components(parent) == path_components(path).drop_last()
                && parent.len() <= path.len() && path.take(parent.len() as int) == parent
                && path_names(path, style_of(path)).len() > 0,
            None => true,
        },
        path_names(path, style_of(path)).len() == 0 ==> parent_of(path) is None && file_name_of(
            path,
        ) is None,
        match file_name_of(path) {
            Some(name) => path_components(path).len() > 0 && path_components(path).last() == name
                && name != seq!['.'] && name != seq!['.', '.'],
            None => true,
        },
{
    let names = path_names(path, style_of(path));
    if names.len() > 0 {
        lemma_beginning(path, path_components(path).drop_last(), 0);
        assert(path_components(path).last() == names.last());
    }
}

} // verus!
