//! Assessed files by the source that receipts know them by.
//!
//! A list in the order of the sources stands for a map: each source has one file,
//! the one that was put in last.

use vstd::prelude::*;
use vstd::string::*;

use crate::app_lifecycle::{app_source, source_of, AssessedAppFile, AssessedView};
use crate::sorted::{
    is_less, is_sorted_set, lemma_text_irreflexive, lemma_text_total, lemma_text_transitive,
    text_less,
};
use crate::text::same_text;

verus! {

/// The source by which receipts know an assessed file.
pub open spec fn source_in(file: AssessedView) -> Seq<char> {
    app_source(file.category, file.file.source_rel)
}

/// The views of a list of assessed files.
pub open spec fn assessed_views(files: Seq<AssessedAppFile>) -> Seq<AssessedView> {
    files.map_values(|file: AssessedAppFile| file@)
}

/// The sources of a list of assessed files.
pub open spec fn sources_in(files: Seq<AssessedView>) -> Seq<Seq<char>> {
    files.map_values(|file: AssessedView| source_in(file))
}

/// The files of a list by their sources; of those with the same source, the last.
pub open spec fn by_source(files: Seq<AssessedView>) -> Map<Seq<char>, AssessedView>
    decreases files.len(),
{
    if files.len() == 0 {
        Map::empty()
    } else {
        by_source(files.drop_last()).insert(source_in(files.last()), files.last())
    }
}

pub proof fn lemma_by_source(files: Seq<AssessedView>)
    requires
        is_sorted_set(sources_in(files)),
    ensures
        forall|i: int|
            0 <= i < files.len() ==> by_source(files).contains_key(source_in(#[trigger] files[i]))
                && by_source(files)[source_in(files[i])] == files[i],
        forall|source: Seq<char>| #[trigger]
            by_source(files).contains_key(source) ==> exists|i: int|
                0 <= i < files.len() && source_in(#[trigger] files[i]) == source,
    decreases files.len(),
{
    if files.len() > 0 {
        let head = files.drop_last();
        let sources = sources_in(files);
        assert(is_sorted_set(sources_in(head))) by {
            assert forall|i: int, j: int| 0 <= i < j < head.len() implies text_less(
                #[trigger] sources_in(head)[i],
                #[trigger] sources_in(head)[j],
            ) by {
                assert(sources[i] == sources_in(head)[i]);
                assert(sources[j] == sources_in(head)[j]);
            }
        }
        lemma_by_source(head);
        assert forall|i: int| 0 <= i < files.len() implies by_source(files).contains_key(
            source_in(#[trigger] files[i]),
        ) && by_source(files)[source_in(files[i])] == files[i] by {
            if i < head.len() {
                assert(head[i] == files[i]);
                assert(text_less(sources[i], sources[files.len() - 1]));
                lemma_text_irreflexive(sources[i]);
            }
        }
        assert forall|source: Seq<char>| #[trigger]
            by_source(files).contains_key(source) implies exists|i: int|
            0 <= i < files.len() && source_in(#[trigger] files[i]) == source by {
            if source == source_in(files.last()) {
                assert(source_in(files[files.len() - 1]) == source);
            } else {
                assert(by_source(head).contains_key(source));
                let i = choose|i: int|
                    0 <= i < head.len() && source_in(#[trigger] head[i]) == source;
                assert(source_in(files[i]) == source);
            }
        }
    }
}

/// Assessed files by their sources.
#[derive(Clone, Debug)]
pub struct AssessedFiles {
    pub files: Vec<AssessedAppFile>,
}

impl View for AssessedFiles {
    type V = Map<Seq<char>, AssessedView>;

    open spec fn view(&self) -> Map<Seq<char>, AssessedView> {
        by_source(assessed_views(self.files@))
    }
}

impl AssessedFiles {
    /// Whether the files are in the order of their sources, each source once.
    pub open spec fn well_formed(&self) -> bool {
        is_sorted_set(sources_in(assessed_views(self.files@)))
    }

    fn place(&self, source: &str) -> (place: usize)
        requires
            self.well_formed(),
        ensures
            place <= self.files@.len(),
            forall|j: int|
                0 <= j < place ==> text_less(
                    #[trigger] sources_in(assessed_views(self.files@))[j],
                    source@,
                ),
            place < self.files@.len() ==> !text_less(
                sources_in(assessed_views(self.files@))[place as int],
                source@,
            ),
    {
        let ghost sources = sources_in(assessed_views(self.files@));
        let mut i: usize = 0;
        while i < self.files.len()
            invariant
                i <= self.files.len(),
                sources == sources_in(assessed_views(self.files@)),
                forall|j: int| 0 <= j < i ==> text_less(#[trigger] sources[j], source@),
            decreases self.files.len() - i,
        {
            let file = &self.files[i];
            let found = source_of(file.category.as_str(), file.file.source_rel.as_str());
            proof {
                assert(sources[i as int] == found@);
            }
            if !is_less(found.as_str(), source) {
                return i;
            }
            i += 1;
        }
        i
    }

    fn stands_at(&self, place: usize, source: &str) -> (stands: bool)
        ensures
            stands == (place < self.files@.len() && sources_in(
                assessed_views(self.files@),
            )[place as int] == source@),
    {
        if place < self.files.len() {
            let file = &self.files[place];
            let found = source_of(file.category.as_str(), file.file.source_rel.as_str());
            proof {
                assert(sources_in(assessed_views(self.files@))[place as int] == found@);
            }
            same_text(found.as_str(), source)
        } else {
            false
        }
    }

    /// Puts a file in under its source.
    pub fn insert(&mut self, file: AssessedAppFile)
        requires
            old(self).well_formed(),
        ensures
            final(self).well_formed(),
            final(self)@ == old(self)@.insert(source_in(file@), file@),
    {
        let source = source_of(file.category.as_str(), file.file.source_rel.as_str());
        let ghost before = assessed_views(self.files@);
        let ghost sources = sources_in(before);
        let ghost added = file@;
        let place = self.place(source.as_str());
        let known = self.stands_at(place, source.as_str());
        if known {
            self.files.set(place, file);
        } else {
            self.files.insert(place, file);
        }
        proof {
            let after = assessed_views(self.files@);
            let changed = sources_in(after);
            let at = place as int;
            if known {
                assert(after =~= before.update(at, added));
                assert(changed =~= sources);
            } else {
                assert(after =~= before.insert(at, added));
                assert(changed =~= sources.insert(at, source@));
                if at < sources.len() {
                    lemma_text_total(sources[at], source@);
                }
                assert forall|a: int, b: int| 0 <= a < b < changed.len() implies text_less(
                    #[trigger] changed[a],
                    #[trigger] changed[b],
                ) by {
                    if b == at {
                        assert(changed[a] == sources[a]);
                    } else if a == at {
                        assert(changed[b] == sources[b - 1]);
                        if b - 1 > at {
                            assert(text_less(sources[at], sources[b - 1]));
                            lemma_text_transitive(source@, sources[at], sources[b - 1]);
                        }
                    } else {
                        let x = if a < at {
                            a
                        } else {
                            a - 1
                        };
                        let y = if b < at {
                            b
                        } else {
                            b - 1
                        };
                        assert(changed[a] == sources[x]);
                        assert(changed[b] == sources[y]);
                    }
                }
            }
            lemma_by_source(before);
            lemma_by_source(after);
            assert(after[at] == added);
            assert(source_in(after[at]) == source@);
            assert(by_source(after) =~= by_source(before).insert(source@, added)) by {
                assert forall|s: Seq<char>|
                    #![trigger by_source(after).contains_key(s)]
                    #![trigger by_source(before).contains_key(s)]
                    by_source(after).contains_key(s) == by_source(before).insert(
                        source@,
                        added,
                    ).contains_key(s) && (by_source(after).contains_key(s) ==> by_source(after)[s]
                        == by_source(before).insert(source@, added)[s]) by {
                    if by_source(after).contains_key(s) && s != source@ {
                        let i = choose|i: int|
                            0 <= i < after.len() && source_in(#[trigger] after[i]) == s;
                        let x = if known || i < at {
                            i
                        } else {
                            i - 1
                        };
                        assert(i != at);
                        assert(before[x] == after[i]);
                    }
                    if by_source(before).contains_key(s) && s != source@ {
                        let i = choose|i: int|
                            0 <= i < before.len() && source_in(#[trigger] before[i]) == s;
                        let x = if known || i < at {
                            i
                        } else {
                            i + 1
                        };
                        assert(sources[i] == s);
                        assert(after[x] == before[i]);
                    }
                }
            }
        }
    }

    /// The files of a list by their sources.
    pub fn new(list: Vec<AssessedAppFile>) -> (files: AssessedFiles)
        ensures
            files.well_formed(),
            files@ == by_source(assessed_views(list@)),
    {
        let ghost all = assessed_views(list@);
        let mut files = AssessedFiles { files: Vec::new() };
        let mut rest = list;
        let ghost mut done: int = 0;
        proof {
            assert(all.take(0) =~= Seq::<AssessedView>::empty());
            assert(assessed_views(files.files@) =~= Seq::<AssessedView>::empty());
            assert(assessed_views(rest@) =~= all.skip(0));
        }
        while rest.len() > 0
            invariant
                0 <= done <= all.len(),
                files.well_formed(),
                assessed_views(rest@) == all.skip(done),
                files@ == by_source(all.take(done)),
            decreases rest.len(),
        {
            let ghost before = rest@;
            proof {
                assert(assessed_views(rest@).len() == rest@.len());
                assert(all.skip(done)[0] == all[done]);
                assert(assessed_views(rest@)[0] == rest@[0]@);
                assert(all.take(done + 1).drop_last() =~= all.take(done));
                assert(all.take(done + 1).last() == all[done]);
            }
            let file = rest.remove(0);
            proof {
                assert(assessed_views(rest@) =~= assessed_views(before).skip(1));
                assert(all.skip(done).skip(1) =~= all.skip(done + 1));
            }
            files.insert(file);
            proof {
                done = done + 1;
            }
        }
        proof {
            assert(assessed_views(rest@).len() == rest@.len());
            assert(all.take(all.len() as int) =~= all);
        }
        files
    }

    /// Takes out the file of a source.
    pub fn remove(&mut self, source: &str) -> (file: Option<AssessedAppFile>)
        requires
            old(self).well_formed(),
        ensures
            final(self).well_formed(),
            final(self)@ == old(self)@.remove(source@),
            match file {
                Some(file) => old(self)@.contains_key(source@) && old(self)@[source@] == file@,
                None => !old(self)@.contains_key(source@),
            },
    {
        let ghost before = assessed_views(self.files@);
        let ghost sources = sources_in(before);
        let place = self.place(source);
        proof {
            lemma_by_source(before);
        }
        if !self.stands_at(place, source) {
            proof {
                if by_source(before).contains_key(source@) {
                    let i = choose|i: int|
                        0 <= i < before.len() && source_in(#[trigger] before[i]) == source@;
                    let at = place as int;
                    assert(sources[i] == source@);
                    lemma_text_irreflexive(source@);
                    if i > at {
                        assert(text_less(sources[at], sources[i]));
                    }
                }
                assert(by_source(before).remove(source@) =~= by_source(before));
            }
            return None;
        }
        let file = self.files.remove(place);
        proof {
            let at = place as int;
            let after = assessed_views(self.files@);
            let changed = sources_in(after);
            assert(after =~= before.remove(at));
            assert(changed =~= sources.remove(at));
            assert forall|a: int, b: int| 0 <= a < b < changed.len() implies text_less(
                #[trigger] changed[a],
                #[trigger] changed[b],
            ) by {
                let x = if a < at {
                    a
                } else {
                    a + 1
                };
                let y = if b < at {
                    b
                } else {
                    b + 1
                };
                assert(changed[a] == sources[x]);
                assert(changed[b] == sources[y]);
            }
            lemma_by_source(after);
            assert(before[at] == file@);
            assert(source_in(before[at]) == source@);
            assert(by_source(after) =~= by_source(before).remove(source@)) by {
                assert forall|s: Seq<char>|
                    by_source(after).contains_key(s) == by_source(before).remove(
                        source@,
                    ).contains_key(s) && (by_source(after).contains_key(s) ==> by_source(after)[s]
                        == by_source(before)[s]) by {
                    if by_source(after).contains_key(s) {
                        let i = choose|i: int|
                            0 <= i < after.len() && source_in(#[trigger] after[i]) == s;
                        let x = if i < at {
                            i
                        } else {
                            i + 1
                        };
                        assert(before[x] == after[i]);
                        assert(sources[x] == s);
                        lemma_text_irreflexive(s);
                        if x < at {
                            assert(text_less(sources[x], sources[at]));
                        } else {
                            assert(text_less(sources[at], sources[x]));
                        }
                    }
                    if by_source(before).contains_key(s) && s != source@ {
                        let i = choose|i: int|
                            0 <= i < before.len() && source_in(#[trigger] before[i]) == s;
                        let x = if i < at {
                            i
                        } else {
                            i - 1
                        };
                        assert(i != at);
                        assert(after[x] == before[i]);
                    }
                }
            }
        }
        Some(file)
    }
}

} // verus!
