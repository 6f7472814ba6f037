//! The files of categories, assessed one after the other.
//!
//! Each file is assessed once, in order; what it was found to hold is what the rest
//! of an operation works with.

use vstd::prelude::*;
use vstd::string::*;

use crate::app_dest::MetadataError;
use crate::app_flow::{count_privileged_files, privileged_files};
use crate::app_lifecycle::AssessedAppFile;
use crate::app_metadata::MetadataFault;
use crate::app_assess::{asks_generator, wants_generator};
use crate::app_types::{
    category_views, copy_optional, AppCategory, AppCategoryView, AppFile, AppFileView,
    AppGeneratorRequest,
};
use crate::assessed_files::assessed_views;
use crate::content::copy_bytes;
use crate::context::RuntimeContext;
use crate::runtime::{destination_in, CoreRuntime};

verus! {

/// A file that is to be assessed.
#[derive(Clone, Debug)]
pub struct DueFile {
    pub category: String,
    pub file: AppFile,
    pub destination: String,
}

/// A file that is to be assessed, by its values.
pub ghost struct DueView {
    pub category: Seq<char>,
    pub file: AppFileView,
    pub destination: Seq<char>,
}

impl View for DueFile {
    type V = DueView;

    open spec fn view(&self) -> DueView {
        DueView {
            category: self.category@,
            file: self.file@,
            destination: self.destination@,
        }
    }
}

/// Whether a request runs the generator of a file for an operation: none does where the
/// file has no generator, or in a preview.
pub open spec fn requests_generator(
    request: Option<AppGeneratorRequest>,
    due: DueView,
    dry_run: bool,
    explicit: bool,
) -> bool {
    match request {
        None => !asks_generator(due.file, dry_run),
        Some(request) => {
            &&& asks_generator(due.file, dry_run)
            &&& request.category@ == due.category
            &&& request.source@ == due.file.source_rel
            &&& request.generator@ == due.file.generator->0
            &&& request.explicit == explicit
        },
    }
}

impl DueFile {
    /// How the generator of the file is run, if it is.
    pub fn generator_request(&self, dry_run: bool, explicit: bool) -> (request: Option<
        AppGeneratorRequest,
    >)
        ensures
            requests_generator(request, self@, dry_run, explicit),
    {
        match &self.file.generator {
            Some(generator) if wants_generator(&self.file, dry_run) => Some(
                AppGeneratorRequest {
                    category: self.category.clone(),
                    source: self.file.source_rel.clone(),
                    generator: generator.copied(),
                    explicit,
                },
            ),
            _ => None,
        }
    }
}

/// The views of a list of files that are to be assessed.
pub open spec fn due_views(list: Seq<DueFile>) -> Seq<DueView> {
    list.map_values(|due: DueFile| due@)
}

/// The files of a category that are to be assessed, after those before it.
pub open spec fn due_in_category(
    context: RuntimeContext,
    category: AppCategoryView,
    files: Seq<AppFileView>,
    before: Seq<DueView>,
) -> Result<Seq<DueView>, MetadataFault>
    decreases files.len(),
{
    if files.len() == 0 {
        Ok(before)
    } else {
        match due_in_category(context, category, files.drop_last(), before) {
            Err(error) => Err(error),
            Ok(due) => match destination_in(context, category, files.last()) {
                Err(error) => Err(error),
                Ok(destination) => Ok(
                    due.push(
                        DueView { category: category.name, file: files.last(), destination },
                    ),
                ),
            },
        }
    }
}

/// The files of categories that are to be assessed, in order.
pub open spec fn due_of(context: RuntimeContext, categories: Seq<AppCategoryView>) -> Result<
    Seq<DueView>,
    MetadataFault,
>
    decreases categories.len(),
{
    if categories.len() == 0 {
        Ok(Seq::empty())
    } else {
        match due_of(context, categories.drop_last()) {
            Err(error) => Err(error),
            Ok(due) => due_in_category(context, categories.last(), categories.last().files, due),
        }
    }
}

proof fn lemma_file_error_stays(
    context: RuntimeContext,
    category: AppCategoryView,
    files: Seq<AppFileView>,
    before: Seq<DueView>,
    count: int,
)
    requires
        0 <= count <= files.len(),
        due_in_category(context, category, files.take(count), before) is Err,
    ensures
        due_in_category(context, category, files, before) == due_in_category(
            context,
            category,
            files.take(count),
            before,
        ),
    decreases files.len() - count,
{
    if count == files.len() {
        assert(files.take(count) =~= files);
    } else {
        assert(files.take(count + 1).drop_last() =~= files.take(count));
        lemma_file_error_stays(context, category, files, before, count + 1);
    }
}

proof fn lemma_category_error_stays(
    context: RuntimeContext,
    categories: Seq<AppCategoryView>,
    count: int,
)
    requires
        0 <= count <= categories.len(),
        due_of(context, categories.take(count)) is Err,
    ensures
        due_of(context, categories) == due_of(context, categories.take(count)),
    decreases categories.len() - count,
{
    if count == categories.len() {
        assert(categories.take(count) =~= categories);
    } else {
        assert(categories.take(count + 1).drop_last() =~= categories.take(count));
        lemma_category_error_stays(context, categories, count + 1);
    }
}

/// An assessment under way.
#[derive(Clone, Debug)]
pub struct AssessRun {
    due: Vec<DueFile>,
    files: Vec<AssessedAppFile>,
}

/// An assessment under way, by its values.
pub ghost struct AssessRunView {
    pub due: Seq<DueView>,
    pub files: Seq<AssessedAppFile>,
}

impl View for AssessRun {
    type V = AssessRunView;

    closed spec fn view(&self) -> AssessRunView {
        AssessRunView { due: due_views(self.due@), files: self.files@ }
    }
}

/// Whether an assessed file is the one that was due, with content or with the error
/// of its generator.
pub open spec fn is_assessed(file: AssessedAppFile, due: DueView) -> bool {
    &&& file.category@ == due.category
    &&& file.file@ == due.file
    &&& file.destination@ == due.destination
    &&& file.content is Some <==> file.generator_error is None
}

impl AssessRunView {
    /// Each file was assessed once, in order.
    pub open spec fn well_formed(&self) -> bool {
        &&& self.files.len() <= self.due.len()
        &&& forall|i: int|
            0 <= i < self.files.len() ==> is_assessed(#[trigger] self.files[i], self.due[i])
    }

    /// Whether every file was assessed.
    pub open spec fn done(&self) -> bool {
        self.files.len() == self.due.len()
    }
}

impl AssessRun {
    fn push_category(
        core: &CoreRuntime,
        category: &AppCategory,
        due: &mut Vec<DueFile>,
    ) -> (result: Result<(), MetadataError>)
        ensures
            match due_in_category(
                core.context,
                category@,
                category@.files,
                due_views(old(due)@),
            ) {
                Ok(expected) => result is Ok && due_views(final(due)@) == expected,
                Err(error) => result is Err && result->Err_0@ == error,
            },
    {
        let ghost all = category@.files;
        let ghost start = due_views(due@);
        let mut i: usize = 0;
        proof {
            assert(all.take(0) =~= Seq::<AppFileView>::empty());
        }
        while i < category.files.len()
            invariant
                i <= category.files.len(),
                all == category@.files,
                start == due_views(old(due)@),
                due_in_category(core.context, category@, all.take(i as int), start) == Ok::<
                    Seq<DueView>,
                    MetadataFault,
                >(due_views(due@)),
            decreases category.files.len() - i,
        {
            let file = &category.files[i];
            proof {
                assert(all.take(i as int + 1).drop_last() =~= all.take(i as int));
                assert(all.take(i as int + 1).last() == file@);
            }
            match core.app_destination(category, file) {
                Ok(destination) => {
                    let ghost before = due@;
                    let added = DueFile {
                        category: category.name.clone(),
                        file: file.copied(),
                        destination,
                    };
                    let ghost view = added@;
                    due.push(added);
                    proof {
                        assert(due_views(due@) =~= due_views(before).push(view));
                    }
                },
                Err(error) => {
                    proof {
                        lemma_file_error_stays(
                            core.context,
                            category@,
                            all,
                            start,
                            i as int + 1,
                        );
                    }
                    return Err(error);
                },
            }
            i += 1;
        }
        proof {
            assert(all.take(all.len() as int) =~= all);
        }
        Ok(())
    }

    /// An assessment without files.
    pub fn empty() -> (run: AssessRun)
        ensures
            run@ == (AssessRunView { due: Seq::empty(), files: Seq::empty() }),
    {
        let run = AssessRun { due: Vec::new(), files: Vec::new() };
        proof {
            assert(run@.due =~= Seq::empty());
            assert(run@.files =~= Seq::empty());
        }
        run
    }

    /// Starts with the files of the categories, none of them assessed.
    pub fn start(core: &CoreRuntime, categories: &Vec<AppCategory>) -> (result: Result<
        AssessRun,
        MetadataError,
    >)
        ensures
            match due_of(core.context, category_views(categories@)) {
                Ok(due) => {
                    &&& result is Ok
                    &&& result->Ok_0@.well_formed()
                    &&& result->Ok_0@.due == due
                    &&& result->Ok_0@.files.len() == 0
                },
                Err(error) => result is Err && result->Err_0@ == error,
            },
    {
        let ghost all = category_views(categories@);
        let mut due: Vec<DueFile> = Vec::new();
        let mut i: usize = 0;
        proof {
            assert(all.take(0) =~= Seq::<AppCategoryView>::empty());
            assert(due_views(due@) =~= Seq::<DueView>::empty());
        }
        while i < categories.len()
            invariant
                i <= categories.len(),
                all == category_views(categories@),
                due_of(core.context, all.take(i as int)) == Ok::<Seq<DueView>, MetadataFault>(
                    due_views(due@),
                ),
            decreases categories.len() - i,
        {
            proof {
                assert(all.take(i as int + 1).drop_last() =~= all.take(i as int));
                assert(all.take(i as int + 1).last() == categories@[i as int]@);
            }
            if let Err(error) = AssessRun::push_category(core, &categories[i], &mut due) {
                proof {
                    lemma_category_error_stays(core.context, all, i as int + 1);
                }
                return Err(error);
            }
            i += 1;
        }
        proof {
            assert(all.take(all.len() as int) =~= all);
        }
        Ok(AssessRun { due, files: Vec::new() })
    }

    /// Whether every file was assessed.
    pub fn is_done(&self) -> (done: bool)
        requires
            self@.well_formed(),
        ensures
            done == self@.done(),
    {
        self.files.len() == self.due.len()
    }

    /// How many files were assessed.
    pub fn count(&self) -> (count: usize)
        ensures
            count == self@.files.len(),
    {
        self.files.len()
    }

    /// How many of the assessed files need the rights of an administrator.
    pub fn count_privileged(&self) -> (count: usize)
        ensures
            count == privileged_files(self@.files),
    {
        count_privileged_files(&self.files)
    }

    /// The file that is assessed next.
    pub fn next(&self) -> (due: &DueFile)
        requires
            self@.well_formed(),
            !self@.done(),
        ensures
            due@ == self@.due[self@.files.len() as int],
    {
        proof {
            assert(due_views(self.due@)[self.files@.len() as int]
                == self.due@[self.files@.len() as int]@);
        }
        &self.due[self.files.len()]
    }

    fn push(&mut self, content: Option<Vec<u8>>, generator_error: Option<String>)
        requires
            old(self)@.well_formed(),
            !old(self)@.done(),
            content is Some <==> generator_error is None,
        ensures
            final(self)@.well_formed(),
            final(self)@.due == old(self)@.due,
            final(self)@.files.len() == old(self)@.files.len() + 1,
            final(self)@.files.drop_last() == old(self)@.files,
            final(self)@.files.last().content == content,
            final(self)@.files.last().generator_error == generator_error,
    {
        let ghost before = self.files@;
        let due = &self.due[self.files.len()];
        let file = AssessedAppFile {
            category: due.category.clone(),
            file: due.file.copied(),
            destination: due.destination.clone(),
            content,
            generator_error,
        };
        proof {
            assert(due_views(self.due@)[before.len() as int] == due@);
        }
        self.files.push(file);
        proof {
            assert(self.files@.drop_last() =~= before);
            assert forall|i: int| 0 <= i < self@.files.len() implies is_assessed(
                #[trigger] self@.files[i],
                self@.due[i],
            ) by {
                if i < before.len() {
                    assert(self@.files[i] == before[i]);
                }
            }
        }
    }

    /// Goes on with the content of the file.
    pub fn made(&mut self, content: Vec<u8>)
        requires
            old(self)@.well_formed(),
            !old(self)@.done(),
        ensures
            final(self)@.well_formed(),
            final(self)@.due == old(self)@.due,
            final(self)@.files.len() == old(self)@.files.len() + 1,
            final(self)@.files.drop_last() == old(self)@.files,
            final(self)@.files.last().content == Some(content),
    {
        self.push(Some(content), None);
    }

    /// Goes on without content: the generator failed, and what is installed is kept.
    pub fn kept(&mut self, error: String)
        requires
            old(self)@.well_formed(),
            !old(self)@.done(),
        ensures
            final(self)@.well_formed(),
            final(self)@.due == old(self)@.due,
            final(self)@.files.len() == old(self)@.files.len() + 1,
            final(self)@.files.drop_last() == old(self)@.files,
            final(self)@.files.last().generator_error == Some(error),
    {
        self.push(None, Some(error));
    }

    /// An assessed file.
    pub fn file(&self, index: usize) -> (file: &AssessedAppFile)
        requires
            index < self@.files.len(),
        ensures
            *file == self@.files[index as int],
    {
        &self.files[index]
    }

    /// The assessed files once more.
    pub fn copies(&self) -> (files: Vec<AssessedAppFile>)
        ensures
            assessed_views(files@) == assessed_views(self@.files),
    {
        let mut files: Vec<AssessedAppFile> = Vec::new();
        let ghost all = assessed_views(self.files@);
        let mut i: usize = 0;
        proof {
            assert(assessed_views(files@) =~= all.take(0));
        }
        while i < self.files.len()
            invariant
                i <= self.files.len(),
                all == assessed_views(self.files@),
                assessed_views(files@) == all.take(i as int),
            decreases self.files.len() - i,
        {
            let file = &self.files[i];
            let ghost before = files@;
            let copy = AssessedAppFile {
                category: file.category.clone(),
                file: file.file.copied(),
                destination: file.destination.clone(),
                content: match &file.content {
                    Some(content) => Some(copy_bytes(content.as_slice())),
                    None => None,
                },
                generator_error: copy_optional(&file.generator_error),
            };
            let ghost view = copy@;
            files.push(copy);
            proof {
                assert(view == file@);
                assert(assessed_views(files@) =~= assessed_views(before).push(view));
                assert(assessed_views(files@) =~= all.take(i as int + 1));
            }
            i += 1;
        }
        proof {
            assert(all.take(all.len() as int) =~= all);
        }
        files
    }

    /// The assessed files.
    pub fn into_files(self) -> (files: Vec<AssessedAppFile>)
        ensures
            files@ == self@.files,
    {
        self.files
    }
}

proof fn lemma_due_in_category(
    context: RuntimeContext,
    category: AppCategoryView,
    files: Seq<AppFileView>,
    before: Seq<DueView>,
    names: Seq<Seq<char>>,
)
    requires
        names.contains(category.name),
        forall|i: int|
            0 <= i < before.len() ==> names.contains((#[trigger] before[i]).category),
        due_in_category(context, category, files, before) is Ok,
    ensures
        ({
            let due = due_in_category(context, category, files, before)->Ok_0;
            forall|i: int| 0 <= i < due.len() ==> names.contains((#[trigger] due[i]).category)
        }),
    decreases files.len(),
{
    if files.len() > 0 {
        lemma_due_in_category(context, category, files.drop_last(), before, names);
    }
}

/// The files that are due are those of the categories.
pub proof fn lemma_due_categories(
    context: RuntimeContext,
    categories: Seq<AppCategoryView>,
    names: Seq<Seq<char>>,
)
    requires
        forall|i: int|
            0 <= i < categories.len() ==> names.contains((#[trigger] categories[i]).name),
        due_of(context, categories) is Ok,
    ensures
        ({
            let due = due_of(context, categories)->Ok_0;
            forall|i: int| 0 <= i < due.len() ==> names.contains((#[trigger] due[i]).category)
        }),
    decreases categories.len(),
{
    if categories.len() > 0 {
        assert forall|i: int| 0 <= i < categories.drop_last().len() implies names.contains(
            (#[trigger] categories.drop_last()[i]).name,
        ) by {
            assert(categories.drop_last()[i] == categories[i]);
        }
        lemma_due_categories(context, categories.drop_last(), names);
        assert(names.contains(categories[categories.len() - 1].name));
        lemma_due_in_category(
            context,
            categories.last(),
            categories.last().files,
            due_of(context, categories.drop_last())->Ok_0,
            names,
        );
    }
}

} // verus!
