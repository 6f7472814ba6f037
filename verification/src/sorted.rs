//! Ordered text.
//!
//! Texts are ordered by their characters, lists of texts by their first
//! difference. A sorted list without repetition is the one list that holds a set
//! of texts in order.

use vstd::prelude::*;
use vstd::string::*;

use crate::text::{char_code, chars_of, texts};

verus! {

/// Whether `left` comes before `right`.
pub open spec fn text_less(left: Seq<char>, right: Seq<char>) -> bool
    decreases left.len(),
{
    if right.len() == 0 {
        false
    } else if left.len() == 0 {
        true
    } else if left[0] != right[0] {
        (left[0] as int) < (right[0] as int)
    } else {
        text_less(left.drop_first(), right.drop_first())
    }
}

/// Whether the list `left` comes before the list `right`.
pub open spec fn list_less(left: Seq<Seq<char>>, right: Seq<Seq<char>>) -> bool
    decreases left.len(),
{
    if right.len() == 0 {
        false
    } else if left.len() == 0 {
        true
    } else if left[0] != right[0] {
        text_less(left[0], right[0])
    } else {
        list_less(left.drop_first(), right.drop_first())
    }
}

pub proof fn lemma_text_irreflexive(text: Seq<char>)
    ensures
        !text_less(text, text),
    decreases text.len(),
{
    if text.len() > 0 {
        lemma_text_irreflexive(text.drop_first());
    }
}

pub proof fn lemma_text_transitive(a: Seq<char>, b: Seq<char>, c: Seq<char>)
    requires
        text_less(a, b),
        text_less(b, c),
    ensures
        text_less(a, c),
    decreases a.len(),
{
    if a.len() > 0 && b.len() > 0 && c.len() > 0 {
        if a[0] == b[0] && b[0] == c[0] {
            lemma_text_transitive(a.drop_first(), b.drop_first(), c.drop_first());
        }
    }
}

pub proof fn lemma_text_total(a: Seq<char>, b: Seq<char>)
    ensures
        text_less(a, b) || a == b || text_less(b, a),
    decreases a.len(),
{
    if a.len() > 0 && b.len() > 0 {
        if a[0] == b[0] {
            lemma_text_total(a.drop_first(), b.drop_first());
            if a.drop_first() == b.drop_first() {
                assert(a =~= seq![a[0]] + a.drop_first());
                assert(b =~= seq![b[0]] + b.drop_first());
            }
        } else {
            let x = a[0];
            let y = b[0];
            assert((x as int) != (y as int));
        }
    } else if a.len() == 0 && b.len() == 0 {
        assert(a =~= b);
    }
}

pub proof fn lemma_list_irreflexive(list: Seq<Seq<char>>)
    ensures
        !list_less(list, list),
    decreases list.len(),
{
    if list.len() > 0 {
        lemma_list_irreflexive(list.drop_first());
    }
}

pub proof fn lemma_list_transitive(a: Seq<Seq<char>>, b: Seq<Seq<char>>, c: Seq<Seq<char>>)
    requires
        list_less(a, b),
        list_less(b, c),
    ensures
        list_less(a, c),
    decreases a.len(),
{
    if a.len() > 0 && b.len() > 0 && c.len() > 0 {
        if a[0] == b[0] && b[0] == c[0] {
            lemma_list_transitive(a.drop_first(), b.drop_first(), c.drop_first());
        } else if a[0] != b[0] && b[0] != c[0] {
            lemma_text_transitive(a[0], b[0], c[0]);
            if a[0] == c[0] {
                lemma_text_irreflexive(a[0]);
            }
        }
    }
}

pub proof fn lemma_list_total(a: Seq<Seq<char>>, b: Seq<Seq<char>>)
    ensures
        list_less(a, b) || a == b || list_less(b, a),
    decreases a.len(),
{
    if a.len() > 0 && b.len() > 0 {
        if a[0] == b[0] {
            lemma_list_total(a.drop_first(), b.drop_first());
            if a.drop_first() == b.drop_first() {
                assert(a =~= seq![a[0]] + a.drop_first());
                assert(b =~= seq![b[0]] + b.drop_first());
            }
        } else {
            lemma_text_total(a[0], b[0]);
        }
    } else if a.len() == 0 && b.len() == 0 {
        assert(a =~= b);
    }
}

/// Whether a list is sorted and holds nothing twice.
pub open spec fn is_sorted_set(list: Seq<Seq<char>>) -> bool {
    forall|i: int, j: int| 0 <= i < j < list.len() ==> text_less(#[trigger] list[i], #[trigger]
        list[j])
}

/// Two sorted lists without repetition that hold the same texts are the same.
pub proof fn law_sorted_set_is_unique(left: Seq<Seq<char>>, right: Seq<Seq<char>>)
    requires
        is_sorted_set(left),
        is_sorted_set(right),
        left.to_set() == right.to_set(),
    ensures
        left == right,
    decreases left.len(),
{
    if left.len() == 0 {
        if right.len() > 0 {
            assert(right.to_set().contains(right[0]));
            assert(left.to_set().contains(right[0]));
        }
        assert(left =~= right);
    } else {
        assert(left.to_set().contains(left[0]));
        assert(right.to_set().contains(left[0]));
        let k = choose|k: int| 0 <= k < right.len() && right[k] == left[0];
        assert(right.to_set().contains(right[0]));
        assert(left.to_set().contains(right[0]));
        let m = choose|m: int| 0 <= m < left.len() && left[m] == right[0];
        if k > 0 {
            assert(text_less(right[0], right[k]));
            if m > 0 {
                assert(text_less(left[0], left[m]));
                lemma_text_transitive(left[0], left[m], left[0]);
            }
            lemma_text_irreflexive(left[0]);
        }
        assert(left[0] == right[0]);
        let l = left.drop_first();
        let r = right.drop_first();
        assert(l.to_set() =~= r.to_set()) by {
            assert forall|t: Seq<char>| l.to_set().contains(t) <==> r.to_set().contains(t) by {
                if l.to_set().contains(t) {
                    let i = choose|i: int| 0 <= i < l.len() && l[i] == t;
                    assert(left[i + 1] == t);
                    assert(left.to_set().contains(t));
                    assert(right.to_set().contains(t));
                    let j = choose|j: int| 0 <= j < right.len() && right[j] == t;
                    if j == 0 {
                        assert(text_less(left[0], left[i + 1]));
                        lemma_text_irreflexive(t);
                    }
                    assert(r[j - 1] == t);
                }
                if r.to_set().contains(t) {
                    let i = choose|i: int| 0 <= i < r.len() && r[i] == t;
                    assert(right[i + 1] == t);
                    assert(right.to_set().contains(t));
                    assert(left.to_set().contains(t));
                    let j = choose|j: int| 0 <= j < left.len() && left[j] == t;
                    if j == 0 {
                        assert(text_less(right[0], right[i + 1]));
                        lemma_text_irreflexive(t);
                    }
                    assert(l[j - 1] == t);
                }
            }
        }
        law_sorted_set_is_unique(l, r);
        assert(left =~= seq![left[0]] + l);
        assert(right =~= seq![right[0]] + r);
    }
}

/// The texts of a set in order.
pub open spec fn in_order(set: Set<Seq<char>>) -> Seq<Seq<char>> {
    choose|list: Seq<Seq<char>>| is_sorted_set(list) && list.to_set() == set
}

pub proof fn lemma_in_order(list: Seq<Seq<char>>)
    requires
        is_sorted_set(list),
    ensures
        in_order(list.to_set()) == list,
{
    let other = in_order(list.to_set());
    assert(is_sorted_set(list) && list.to_set() == list.to_set());
    law_sorted_set_is_unique(other, list);
}

fn chars_less(left: &Vec<char>, right: &Vec<char>) -> (result: bool)
    ensures
        result == text_less(left@, right@),
{
    let mut i: usize = 0;
    proof {
        assert(left@.skip(0) =~= left@);
        assert(right@.skip(0) =~= right@);
    }
    while i < left.len() && i < right.len()
        invariant
            i <= left.len(),
            i <= right.len(),
            text_less(left@, right@) == text_less(left@.skip(i as int), right@.skip(i as int)),
        decreases left.len() - i,
    {
        let c: char = left[i];
        let d: char = right[i];
        if c != d {
            return char_code(c) < char_code(d);
        }
        proof {
            assert(left@.skip(i as int).drop_first() =~= left@.skip(i as int + 1));
            assert(right@.skip(i as int).drop_first() =~= right@.skip(i as int + 1));
        }
        i += 1;
    }
    i < right.len()
}

/// Whether `left` comes before `right`.
pub fn is_less(left: &str, right: &str) -> (result: bool)
    ensures
        result == text_less(left@, right@),
{
    chars_less(&chars_of(left), &chars_of(right))
}

/// Whether the list `left` comes before the list `right`.
pub fn is_list_less(left: &Vec<String>, right: &Vec<String>) -> (result: bool)
    ensures
        result == list_less(texts(left@), texts(right@)),
{
    let mut i: usize = 0;
    let ghost l = texts(left@);
    let ghost r = texts(right@);
    proof {
        assert(l.skip(0) =~= l);
        assert(r.skip(0) =~= r);
    }
    while i < left.len() && i < right.len()
        invariant
            i <= left.len(),
            i <= right.len(),
            l == texts(left@),
            r == texts(right@),
            list_less(l, r) == list_less(l.skip(i as int), r.skip(i as int)),
        decreases left.len() - i,
    {
        proof {
            assert(l.skip(i as int)[0] == left@[i as int]@);
            assert(r.skip(i as int)[0] == right@[i as int]@);
        }
        if !crate::text::same_text(left[i].as_str(), right[i].as_str()) {
            return is_less(left[i].as_str(), right[i].as_str());
        }
        proof {
            assert(l.skip(i as int).drop_first() =~= l.skip(i as int + 1));
            assert(r.skip(i as int).drop_first() =~= r.skip(i as int + 1));
        }
        i += 1;
    }
    i < right.len()
}

/// Puts a text into a sorted list, unless it is there.
pub fn insert_sorted(list: &mut Vec<String>, text: String)
    requires
        is_sorted_set(texts(old(list)@)),
    ensures
        is_sorted_set(texts(final(list)@)),
        texts(final(list)@).to_set() == texts(old(list)@).to_set().insert(text@),
{
    let mut i: usize = 0;
    let ghost before = texts(list@);
    let ghost added = text@;
    while i < list.len() && is_less(list[i].as_str(), text.as_str())
        invariant
            i <= list.len(),
            texts(list@) == before,
            added == text@,
            forall|j: int| 0 <= j < i ==> text_less(#[trigger] before[j], added),
        decreases list.len() - i,
    {
        proof {
            assert(before[i as int] == list@[i as int]@);
        }
        i += 1;
    }
    if i < list.len() && crate::text::same_text(list[i].as_str(), text.as_str()) {
        proof {
            assert(before[i as int] == added);
            assert(before.to_set().contains(added));
            assert(before.to_set().insert(added) =~= before.to_set());
        }
        return ;
    }
    proof {
        if i < list.len() {
            assert(before[i as int] == list@[i as int]@);
            lemma_text_total(before[i as int], added);
        }
    }
    list.insert(i, text);
    proof {
        let after = texts(list@);
        assert(after =~= before.insert(i as int, added));
        assert forall|a: int, b: int| 0 <= a < b < after.len() implies text_less(
            #[trigger] after[a],
            #[trigger] after[b],
        ) by {
            if b == i {
                assert(after[a] == before[a]);
            } else if a == i {
                assert(after[b] == before[b - 1]);
                if b - 1 > i {
                    assert(text_less(before[i as int], before[b - 1]));
                    lemma_text_transitive(added, before[i as int], before[b - 1]);
                }
            } else {
                let x = if a < i {
                    a
                } else {
                    a - 1
                };
                let y = if b < i {
                    b
                } else {
                    b - 1
                };
                assert(after[a] == before[x]);
                assert(after[b] == before[y]);
            }
        }
        assert(after.to_set() =~= before.to_set().insert(added)) by {
            assert forall|t: Seq<char>| after.to_set().contains(t) <==> before.to_set().insert(
                added,
            ).contains(t) by {
                if after.to_set().contains(t) {
                    let j = choose|j: int| 0 <= j < after.len() && after[j] == t;
                    if j < i {
                        assert(before[j] == t);
                    } else if j > i {
                        assert(before[j - 1] == t);
                    }
                }
                if t == added {
                    assert(after[i as int] == t);
                }
                if before.to_set().contains(t) {
                    let j = choose|j: int| 0 <= j < before.len() && before[j] == t;
                    if j < i {
                        assert(after[j] == t);
                    } else {
                        assert(after[j + 1] == t);
                    }
                }
            }
        }
    }
}

/// The texts of a list in order, each once.
pub fn sorted(list: Vec<String>) -> (result: Vec<String>)
    ensures
        is_sorted_set(texts(result@)),
        texts(result@).to_set() == texts(list@).to_set(),
{
    let mut result: Vec<String> = Vec::new();
    let mut i: usize = 0;
    proof {
        assert(texts(list@).take(0).to_set() =~= texts(result@).to_set());
    }
    while i < list.len()
        invariant
            i <= list.len(),
            is_sorted_set(texts(result@)),
            texts(result@).to_set() == texts(list@).take(i as int).to_set(),
        decreases list.len() - i,
    {
        insert_sorted(&mut result, list[i].clone());
        proof {
            let all = texts(list@);
            assert(all.take(i as int + 1) =~= all.take(i as int).push(list@[i as int]@));
            lemma_push_set(all.take(i as int), list@[i as int]@);
        }
        i += 1;
    }
    proof {
        assert(texts(list@).take(list@.len() as int) =~= texts(list@));
    }
    result
}

/// Pushing onto a list puts into its set.
pub proof fn lemma_push_set(list: Seq<Seq<char>>, text: Seq<char>)
    ensures
        list.push(text).to_set() == list.to_set().insert(text),
{
    let after = list.push(text);
    assert(after.to_set() =~= list.to_set().insert(text)) by {
        assert forall|t: Seq<char>| after.to_set().contains(t) <==> list.to_set().insert(
            text,
        ).contains(t) by {
            if after.to_set().contains(t) {
                let j = choose|j: int| 0 <= j < after.len() && after[j] == t;
                if j < list.len() {
                    assert(list[j] == t);
                }
            }
            if t == text {
                assert(after[list.len() as int] == t);
            }
            if list.to_set().contains(t) {
                let j = choose|j: int| 0 <= j < list.len() && list[j] == t;
                assert(after[j] == t);
            }
        }
    }
}

} // verus!
