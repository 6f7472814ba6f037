//! The copy of the preset files that Apps are installed from.

use vstd::prelude::*;
use vstd::string::*;

use crate::app_types::AppCacheRequest;
use crate::context::RuntimeContext;
use crate::lifecycle::{
    plain_outcome, LifecycleEffect, LifecycleOutcomeV1, LifecycleStatus, OutcomeView,
};
use crate::path::{is_under, join, path_join};
use crate::presets::PresetFileView;
use crate::runtime::CoreRuntime;
use crate::text::{begins_with, chars_of, joined, same_text, starts_with, string_of};

verus! {

/// A text without the `/` at its end.
pub open spec fn without_slashes(text: Seq<char>) -> Seq<char>
    decreases text.len(),
{
    if text.len() > 0 && text.last() == '/' {
        without_slashes(text.drop_last())
    } else {
        text
    }
}

/// The text without the `/` at its end.
pub fn trim_slashes(text: &str) -> (result: String)
    ensures
        result@ == without_slashes(text@),
{
    let chars = chars_of(text);
    let mut end: usize = chars.len();
    proof {
        assert(chars@.take(chars@.len() as int) =~= chars@);
    }
    while end > 0 && chars[end - 1] == '/'
        invariant
            end <= chars.len(),
            chars@ == text@,
            without_slashes(text@) == without_slashes(chars@.take(end as int)),
        decreases end,
    {
        proof {
            assert(chars@.take(end as int).drop_last() =~= chars@.take(end as int - 1));
            assert(chars@.take(end as int).last() == chars@[end as int - 1]);
        }
        end -= 1;
    }
    let kept = vstd::slice::slice_subrange(chars.as_slice(), 0, end);
    proof {
        assert(kept@ =~= chars@.take(end as int));
    }
    string_of(kept)
}

/// Whether a preset file is the target, or under it.
pub open spec fn is_cached(path: Seq<char>, target: Seq<char>) -> bool {
    path == target || begins_with(path, target + "/"@)
}

/// One thing that is reconciled: a preset file, the directory of all files of the
/// target, or the App manifest.
#[derive(Clone, Debug)]
pub enum CacheTarget {
    File { path: String, content: Vec<u8> },
    Root { path: String },
    Manifest { path: String },
}

/// One thing that is reconciled, by the values.
pub ghost enum CacheTargetView {
    File { path: Seq<char>, content: Seq<u8> },
    Root { path: Seq<char> },
    Manifest { path: Seq<char> },
}

impl View for CacheTarget {
    type V = CacheTargetView;

    open spec fn view(&self) -> CacheTargetView {
        match *self {
            CacheTarget::File { path, content } => CacheTargetView::File {
                path: path@,
                content: content@,
            },
            CacheTarget::Root { path } => CacheTargetView::Root { path: path@ },
            CacheTarget::Manifest { path } => CacheTargetView::Manifest { path: path@ },
        }
    }
}

impl CacheTarget {
    /// Where the target stands.
    pub fn path(&self) -> (path: &str)
        ensures
            path@ == target_path(self@),
    {
        match self {
            CacheTarget::File { path, .. } => path.as_str(),
            CacheTarget::Root { path } => path.as_str(),
            CacheTarget::Manifest { path } => path.as_str(),
        }
    }
}

/// The views of a list of targets.
pub open spec fn cache_target_views(targets: Seq<CacheTarget>) -> Seq<CacheTargetView> {
    targets.map_values(|target: CacheTarget| target@)
}

/// The preset files of the target, by where their copies stand.
pub open spec fn cached_files(
    presets_dir: Seq<char>,
    files: Seq<PresetFileView>,
    target: Seq<char>,
) -> Seq<CacheTargetView>
    decreases files.len(),
{
    if files.len() == 0 {
        Seq::empty()
    } else {
        let before = cached_files(presets_dir, files.drop_last(), target);
        if is_cached(files.last().path, target) {
            before.push(
                CacheTargetView::File {
                    path: path_join(presets_dir, files.last().path),
                    content: files.last().bytes,
                },
            )
        } else {
            before
        }
    }
}

/// What a purge takes beyond the files: the directory, and with all Apps the
/// manifest.
pub open spec fn purged(context: RuntimeContext, request: AppCacheRequest) -> Seq<CacheTargetView> {
    let target = without_slashes(request.prefix@);
    if request.remove && request.purge {
        let root = seq![
            CacheTargetView::Root { path: path_join(context.presets_dir@, target) },
        ];
        if target == "app"@ {
            root.push(CacheTargetView::Manifest { path: context.manifest_text() })
        } else {
            root
        }
    } else {
        Seq::empty()
    }
}

/// All that is reconciled, in order.
pub open spec fn cache_plan(
    context: RuntimeContext,
    files: Seq<PresetFileView>,
    request: AppCacheRequest,
) -> Seq<CacheTargetView> {
    cached_files(context.presets_dir@, files, without_slashes(request.prefix@)) + purged(
        context,
        request,
    )
}

/// Whether what is there has to change: a copy to be removed is there, or a copy
/// to be written is missing, or differs and is to be overwritten.
pub open spec fn needs_change(
    request: AppCacheRequest,
    target: CacheTargetView,
    current: Option<Seq<u8>>,
) -> bool {
    match target {
        CacheTargetView::File { content, .. } => if request.remove {
            current is Some
        } else {
            match current {
                None => true,
                Some(current) => request.overwrite && current != content,
            }
        },
        _ => current is Some,
    }
}

/// What is done to a target.
#[derive(Clone, Copy, Debug, PartialEq, Eq, Structural)]
pub enum CacheStep {
    RemoveFile,
    WriteFile,
    RemoveDirectory,
}

/// What is done to a target that has to change.
pub open spec fn cache_step(request: AppCacheRequest, target: CacheTargetView) -> CacheStep {
    match target {
        CacheTargetView::File { .. } => if request.remove {
            CacheStep::RemoveFile
        } else {
            CacheStep::WriteFile
        },
        CacheTargetView::Root { .. } => CacheStep::RemoveDirectory,
        CacheTargetView::Manifest { .. } => CacheStep::RemoveFile,
    }
}

/// What became of the cache so far.
#[derive(Clone, Copy, Debug, PartialEq, Eq, Structural)]
pub struct CacheRun {
    pub changed: bool,
    pub receipt_removed: bool,
}

/// A content that may be absent.
pub open spec fn optional_bytes(content: Option<Vec<u8>>) -> Option<Seq<u8>> {
    match content {
        Some(content) => Some(content@),
        None => None,
    }
}

fn same_bytes(left: &Vec<u8>, right: &Vec<u8>) -> (same: bool)
    ensures
        same == (left@ == right@),
{
    if left.len() != right.len() {
        return false;
    }
    let mut i: usize = 0;
    while i < left.len()
        invariant
            i <= left.len(),
            left.len() == right.len(),
            forall|j: int| 0 <= j < i ==> left@[j] == right@[j],
        decreases left.len() - i,
    {
        if left[i] != right[i] {
            return false;
        }
        i += 1;
    }
    proof {
        assert(left@ =~= right@);
    }
    true
}

impl CacheRun {
    pub fn new() -> (run: CacheRun)
        ensures
            !run.changed,
            !run.receipt_removed,
    {
        CacheRun { changed: false, receipt_removed: false }
    }

    /// Takes in what is there, and says what is to be done. A preview does nothing.
    pub fn settle(
        &mut self,
        request: &AppCacheRequest,
        target: &CacheTarget,
        current: &Option<Vec<u8>>,
    ) -> (step: Option<CacheStep>)
        ensures
            final(self).changed == (old(self).changed || needs_change(
                *request,
                target@,
                optional_bytes(*current),
            )),
            final(self).receipt_removed == (old(self).receipt_removed || (target is Manifest
                && current is Some)),
            step == if needs_change(*request, target@, optional_bytes(*current))
                && !request.dry_run {
                Some(cache_step(*request, target@))
            } else {
                None
            },
    {
        let (change, step): (bool, CacheStep) = match target {
            CacheTarget::File { content, .. } => {
                if request.remove {
                    (current.is_some(), CacheStep::RemoveFile)
                } else {
                    let differs = match current {
                        None => true,
                        Some(current) => request.overwrite && !same_bytes(current, content),
                    };
                    (differs, CacheStep::WriteFile)
                }
            },
            CacheTarget::Root { .. } => (current.is_some(), CacheStep::RemoveDirectory),
            CacheTarget::Manifest { .. } => {
                if current.is_some() {
                    self.receipt_removed = true;
                }
                (current.is_some(), CacheStep::RemoveFile)
            },
        };
        if change {
            self.changed = true;
        }
        if change && !request.dry_run {
            Some(step)
        } else {
            None
        }
    }
}

/// The effects of what was done, or of what would be.
pub open spec fn cache_effects(request: AppCacheRequest, run: CacheRun) -> Seq<LifecycleEffect> {
    let own = if !run.changed {
        Seq::empty()
    } else if request.remove {
        if request.dry_run {
            seq![LifecycleEffect::CacheRemovePreviewed]
        } else if request.purge {
            seq![LifecycleEffect::CachePurged]
        } else {
            seq![LifecycleEffect::CacheRemoved]
        }
    } else if request.dry_run {
        seq![LifecycleEffect::CacheWritePreviewed]
    } else {
        seq![LifecycleEffect::CacheWritten]
    };
    if !run.receipt_removed {
        own
    } else if request.dry_run {
        own.push(LifecycleEffect::ReceiptRemovePreviewed)
    } else {
        own.push(LifecycleEffect::ReceiptRemoved)
    }
}

/// What is reported of the cache.
pub open spec fn cache_outcome(request: AppCacheRequest, run: CacheRun) -> OutcomeView {
    plain_outcome(
        without_slashes(request.prefix@),
        Some(
            if request.purge {
                "purge"@
            } else {
                "preset-cache"@
            },
        ),
        if !run.changed {
            LifecycleStatus::Unchanged
        } else if request.dry_run {
            LifecycleStatus::Previewed
        } else {
            LifecycleStatus::Changed
        },
        cache_effects(request, run),
    )
}

/// What is reported of the cache.
pub fn finish_app_cache(request: &AppCacheRequest, run: CacheRun) -> (outcome: LifecycleOutcomeV1)
    ensures
        outcome@ == cache_outcome(*request, run),
{
    let target = trim_slashes(request.prefix.as_str());
    let mut effects: Vec<LifecycleEffect> = Vec::new();
    if run.changed {
        effects.push(
            if request.remove {
                if request.dry_run {
                    LifecycleEffect::CacheRemovePreviewed
                } else if request.purge {
                    LifecycleEffect::CachePurged
                } else {
                    LifecycleEffect::CacheRemoved
                }
            } else if request.dry_run {
                LifecycleEffect::CacheWritePreviewed
            } else {
                LifecycleEffect::CacheWritten
            },
        );
    }
    if run.receipt_removed {
        effects.push(
            if request.dry_run {
                LifecycleEffect::ReceiptRemovePreviewed
            } else {
                LifecycleEffect::ReceiptRemoved
            },
        );
    }
    proof {
        assert(effects@ =~= cache_effects(*request, run));
    }
    let status = if !run.changed {
        LifecycleStatus::Unchanged
    } else if request.dry_run {
        LifecycleStatus::Previewed
    } else {
        LifecycleStatus::Changed
    };
    let resource = if request.purge {
        "purge".to_owned()
    } else {
        "preset-cache".to_owned()
    };
    LifecycleOutcomeV1::new(target.as_str(), Some(resource), status, effects)
}

impl CoreRuntime {
    /// All that is reconciled for the request, in order.
    pub fn plan_app_cache(&self, request: &AppCacheRequest) -> (targets: Vec<CacheTarget>)
        ensures
            cache_target_views(targets@) == cache_plan(self.context, self.presets@, *request),
    {
        let target = trim_slashes(request.prefix.as_str());
        let under = joined(target.as_str(), "/");
        let ghost all = self.presets@;
        let mut targets: Vec<CacheTarget> = Vec::new();
        let mut i: usize = 0;
        proof {
            assert(all.take(0) =~= Seq::<PresetFileView>::empty());
            assert(cache_target_views(targets@) =~= Seq::<CacheTargetView>::empty());
        }
        while i < self.presets.files.len()
            invariant
                i <= self.presets.files.len(),
                all == self.presets@,
                under@ == target@ + "/"@,
                cache_target_views(targets@) == cached_files(
                    self.context.presets_dir@,
                    all.take(i as int),
                    target@,
                ),
            decreases self.presets.files.len() - i,
        {
            let file = &self.presets.files[i];
            let ghost before = targets@;
            proof {
                assert(all.take(i as int + 1).drop_last() =~= all.take(i as int));
                assert(all.take(i as int + 1).last() == file@);
            }
            if same_text(file.path.as_str(), target.as_str()) || starts_with(
                file.path.as_str(),
                under.as_str(),
            ) {
                let mut content: Vec<u8> = Vec::new();
                content.extend_from_slice(file.bytes.as_slice());
                proof {
                    assert(content@ =~= file.bytes@);
                }
                let path = join(self.context.presets_dir.as_str(), file.path.as_str());
                let item = CacheTarget::File { path, content };
                let ghost added = item@;
                targets.push(item);
                proof {
                    assert(cache_target_views(targets@) =~= cache_target_views(before).push(
                        added,
                    ));
                }
            }
            i += 1;
        }
        proof {
            assert(all.take(all.len() as int) =~= all);
        }
        let ghost before = cache_target_views(targets@);
        if request.remove && request.purge {
            let root = join(self.context.presets_dir.as_str(), target.as_str());
            targets.push(CacheTarget::Root { path: root });
            if same_text(target.as_str(), "app") {
                targets.push(CacheTarget::Manifest { path: self.context.manifest_path() });
            }
        }
        proof {
            assert(cache_target_views(targets@) =~= before + purged(self.context, *request));
        }
        targets
    }
}

/// A request for one App touches the files of that App only: what is reconciled
/// stands at or under the target in the directory of the preset files.
pub proof fn law_cache_stays_with_its_target(
    presets_dir: Seq<char>,
    files: Seq<PresetFileView>,
    target: Seq<char>,
    i: int,
)
    requires
        0 <= i < cached_files(presets_dir, files, target).len(),
    ensures
        exists|j: int|
            0 <= j < files.len() && is_cached((#[trigger] files[j]).path, target)
                && cached_files(presets_dir, files, target)[i] == (CacheTargetView::File {
                path: path_join(presets_dir, files[j].path),
                content: files[j].bytes,
            }),
    decreases files.len(),
{
    let before = cached_files(presets_dir, files.drop_last(), target);
    if i < before.len() {
        law_cache_stays_with_its_target(presets_dir, files.drop_last(), target, i);
        let j = choose|j: int|
            0 <= j < files.drop_last().len() && is_cached(
                (#[trigger] files.drop_last()[j]).path,
                target,
            ) && before[i] == (CacheTargetView::File {
                path: path_join(presets_dir, files.drop_last()[j].path),
                content: files.drop_last()[j].bytes,
            });
        assert(files[j] == files.drop_last()[j]);
    } else {
        assert(is_cached(files[files.len() - 1].path, target));
    }
}

/// Where a target stands.
pub open spec fn target_path(target: CacheTargetView) -> Seq<char> {
    match target {
        CacheTargetView::File { path, .. } => path,
        CacheTargetView::Root { path } => path,
        CacheTargetView::Manifest { path } => path,
    }
}

/// What a disk holds, by path; a directory is held with any content.
pub type Disk = Map<Seq<char>, Seq<u8>>;

/// What a disk holds at a path.
pub open spec fn held(disk: Disk, path: Seq<char>) -> Option<Seq<u8>> {
    if disk.contains_key(path) {
        Some(disk[path])
    } else {
        None
    }
}

/// A disk after one step. A directory goes with all that is under it.
pub open spec fn stepped(disk: Disk, target: CacheTargetView, step: CacheStep) -> Disk {
    let path = target_path(target);
    match step {
        CacheStep::RemoveFile => disk.remove(path),
        CacheStep::WriteFile => match target {
            CacheTargetView::File { content, .. } => disk.insert(path, content),
            _ => disk,
        },
        CacheStep::RemoveDirectory => disk.remove_keys(
            disk.dom().filter(|other: Seq<char>| is_under(other, path)),
        ),
    }
}

/// What becomes of a disk, and of the run, when the targets are settled in order.
pub open spec fn settled(
    request: AppCacheRequest,
    targets: Seq<CacheTargetView>,
    disk: Disk,
) -> (CacheRun, Disk)
    decreases targets.len(),
{
    if targets.len() == 0 {
        (CacheRun { changed: false, receipt_removed: false }, disk)
    } else {
        let (run, before) = settled(request, targets.drop_last(), disk);
        let target = targets.last();
        let current = held(before, target_path(target));
        let change = needs_change(request, target, current);
        (
            CacheRun {
                changed: run.changed || change,
                receipt_removed: run.receipt_removed || (target is Manifest && current is Some),
            },
            if change && !request.dry_run {
                stepped(before, target, cache_step(request, target))
            } else {
                before
            },
        )
    }
}

/// The request as a preview, or in earnest.
pub open spec fn as_preview(request: AppCacheRequest, dry_run: bool) -> AppCacheRequest {
    AppCacheRequest { dry_run, ..request }
}

proof fn lemma_settled(request: AppCacheRequest, targets: Seq<CacheTargetView>, disk: Disk)
    ensures
        ({
            let (dry, dry_disk) = settled(as_preview(request, true), targets, disk);
            let (made, made_disk) = settled(as_preview(request, false), targets, disk);
            &&& dry_disk == disk
            &&& dry.changed == made.changed
            &&& !made.changed ==> made_disk == disk && !made.receipt_removed
                && !dry.receipt_removed
        }),
    decreases targets.len(),
{
    if targets.len() > 0 {
        lemma_settled(request, targets.drop_last(), disk);
    }
}

/// A preview of the cache leaves the disk alone and foretells what the same request
/// does in earnest: it reports a change to come exactly where a change is made, and
/// where there is none both report nothing done, with no effects.
pub proof fn law_cache_preview_foretells(
    context: RuntimeContext,
    files: Seq<PresetFileView>,
    request: AppCacheRequest,
    disk: Disk,
)
    ensures
        ({
            let preview = as_preview(request, true);
            let earnest = as_preview(request, false);
            let (dry, dry_disk) = settled(preview, cache_plan(context, files, preview), disk);
            let (made, made_disk) = settled(earnest, cache_plan(context, files, earnest), disk);
            let foretold = cache_outcome(preview, dry);
            let done = cache_outcome(earnest, made);
            &&& dry_disk == disk
            &&& foretold.status == LifecycleStatus::Previewed || foretold.status
                == LifecycleStatus::Unchanged
            &&& foretold.status == LifecycleStatus::Previewed <==> done.status
                == LifecycleStatus::Changed
            &&& foretold.status != LifecycleStatus::Previewed ==> {
                &&& done.status == LifecycleStatus::Unchanged
                &&& foretold.effects.len() == 0
                &&& done.effects.len() == 0
                &&& made_disk == disk
            }
        }),
{
    let preview = as_preview(request, true);
    let earnest = as_preview(request, false);
    assert(purged(context, preview) == purged(context, earnest));
    lemma_settled(request, cache_plan(context, files, earnest), disk);
}

/// Whether settling a target can touch a path.
pub open spec fn touches(target: CacheTargetView, path: Seq<char>) -> bool {
    match target {
        CacheTargetView::Root { path: root } => is_under(path, root),
        _ => target_path(target) == path,
    }
}

/// A path that no target touches holds what it held.
pub proof fn lemma_untouched(
    request: AppCacheRequest,
    targets: Seq<CacheTargetView>,
    disk: Disk,
    path: Seq<char>,
)
    requires
        forall|i: int| 0 <= i < targets.len() ==> !touches(#[trigger] targets[i], path),
    ensures
        held(settled(request, targets, disk).1, path) == held(disk, path),
    decreases targets.len(),
{
    if targets.len() > 0 {
        assert(!touches(targets[targets.len() - 1], path));
        assert forall|i: int| 0 <= i < targets.drop_last().len() implies !touches(
            #[trigger] targets.drop_last()[i],
            path,
        ) by {
            assert(!touches(targets[i], path));
        }
        lemma_untouched(request, targets.drop_last(), disk, path);
    }
}

/// A request touches the copies of the preset files at or under its prefix only, and
/// with a purge what is under the directory of the prefix and, for all Apps, the
/// manifest. Any other path holds what it held.
pub proof fn law_cache_leaves_the_rest(
    context: RuntimeContext,
    files: Seq<PresetFileView>,
    request: AppCacheRequest,
    disk: Disk,
    path: Seq<char>,
)
    requires
        forall|j: int|
            0 <= j < files.len() && is_cached(
                (#[trigger] files[j]).path,
                without_slashes(request.prefix@),
            ) ==> path_join(context.presets_dir@, files[j].path) != path,
        request.remove && request.purge ==> !is_under(
            path,
            path_join(context.presets_dir@, without_slashes(request.prefix@)),
        ) && (without_slashes(request.prefix@) == "app"@ ==> path != context.manifest_text()),
    ensures
        held(settled(request, cache_plan(context, files, request), disk).1, path) == held(
            disk,
            path,
        ),
{
    let target = without_slashes(request.prefix@);
    let copies = cached_files(context.presets_dir@, files, target);
    let plan = cache_plan(context, files, request);
    assert forall|i: int| 0 <= i < plan.len() implies !touches(#[trigger] plan[i], path) by {
        if i < copies.len() {
            law_cache_stays_with_its_target(context.presets_dir@, files, target, i);
        }
    }
    lemma_untouched(request, plan, disk, path);
}

/// A name that goes on after the prefix is another App: `app/demo` is not above
/// `app/demo2/file`.
pub proof fn law_cache_prefix_ends_at_a_name(target: Seq<char>, path: Seq<char>)
    requires
        path.len() > target.len(),
        path[target.len() as int] != '/',
    ensures
        !is_cached(path, target),
{
    reveal_strlit("/");
    if begins_with(path, target + "/"@) {
        assert((target + "/"@)[target.len() as int] == '/');
        assert(path.take((target + "/"@).len() as int)[target.len() as int] == '/');
    }
}

/// What is asked for next to reconcile the cache.
#[derive(Clone, Copy, Debug, PartialEq, Eq, Structural)]
pub enum CacheDemand {
    /// Say what stands at a target: the content of a file, anything for a directory.
    Look { index: usize },
    Apply { index: usize, step: CacheStep },
    Finish,
}

/// The cache while it is reconciled.
#[derive(Clone, Debug)]
pub struct CacheDrive {
    request: AppCacheRequest,
    targets: Vec<CacheTarget>,
    done: usize,
    step: Option<CacheStep>,
    run: CacheRun,
}

/// The cache while it is reconciled, by its values.
pub ghost struct CacheDriveView {
    pub request: AppCacheRequest,
    pub targets: Seq<CacheTargetView>,
    pub done: int,
    pub step: Option<CacheStep>,
    pub run: CacheRun,
}

impl View for CacheDrive {
    type V = CacheDriveView;

    closed spec fn view(&self) -> CacheDriveView {
        CacheDriveView {
            request: self.request,
            targets: cache_target_views(self.targets@),
            done: self.done as int,
            step: self.step,
            run: self.run,
        }
    }
}

impl CacheDriveView {
    pub open spec fn well_formed(&self) -> bool {
        &&& 0 <= self.done <= self.targets.len()
        &&& self.step is Some ==> self.done < self.targets.len() && !self.request.dry_run
    }

    /// What is asked for next.
    pub open spec fn demand(&self) -> CacheDemand {
        match self.step {
            Some(step) => CacheDemand::Apply { index: self.done as usize, step },
            None => if self.done < self.targets.len() {
                CacheDemand::Look { index: self.done as usize }
            } else {
                CacheDemand::Finish
            },
        }
    }
}

impl CacheDrive {
    /// Starts with all that is reconciled for the request.
    pub fn start(core: &CoreRuntime, request: AppCacheRequest) -> (drive: CacheDrive)
        ensures
            drive@ == (CacheDriveView {
                request,
                targets: cache_plan(core.context, core.presets@, request),
                done: 0,
                step: None,
                run: CacheRun { changed: false, receipt_removed: false },
            }),
            drive@.well_formed(),
    {
        let targets = core.plan_app_cache(&request);
        CacheDrive { request, targets, done: 0, step: None, run: CacheRun::new() }
    }

    /// What is asked for next.
    pub fn next(&self) -> (demand: CacheDemand)
        requires
            self@.well_formed(),
        ensures
            demand == self@.demand(),
    {
        match self.step {
            Some(step) => CacheDemand::Apply { index: self.done, step },
            None => if self.done < self.targets.len() {
                CacheDemand::Look { index: self.done }
            } else {
                CacheDemand::Finish
            },
        }
    }

    /// The target at hand.
    pub fn target(&self) -> (target: &CacheTarget)
        requires
            self@.well_formed(),
            !(self@.demand() is Finish),
        ensures
            target@ == self@.targets[self@.done],
    {
        proof {
            assert(cache_target_views(self.targets@)[self.done as int] == self.targets@[self.done
                as int]@);
        }
        &self.targets[self.done]
    }

    /// Goes on with what stands at the target.
    pub fn looked(&mut self, current: Option<Vec<u8>>)
        requires
            old(self)@.well_formed(),
            old(self)@.demand() is Look,
        ensures
            final(self)@.well_formed(),
            ({
                let before = old(self)@;
                let target = before.targets[before.done];
                let change = needs_change(before.request, target, optional_bytes(current));
                let run = CacheRun {
                    changed: before.run.changed || change,
                    receipt_removed: before.run.receipt_removed || (target is Manifest
                        && current is Some),
                };
                final(self)@ == if change && !before.request.dry_run {
                    CacheDriveView {
                        run,
                        step: Some(cache_step(before.request, target)),
                        ..before
                    }
                } else {
                    CacheDriveView { run, done: before.done + 1, ..before }
                }
            }),
    {
        proof {
            let total: usize = self.targets.len();
            assert(self.done < total);
            assert(cache_target_views(self.targets@)[self.done as int] == self.targets@[self.done
                as int]@);
        }
        let step = self.run.settle(&self.request, &self.targets[self.done], &current);
        self.step = step;
        if step.is_none() {
            self.done = self.done + 1;
        }
    }

    /// Goes on after the step was taken.
    pub fn applied(&mut self)
        requires
            old(self)@.well_formed(),
            old(self)@.demand() is Apply,
        ensures
            final(self)@.well_formed(),
            final(self)@ == (CacheDriveView {
                step: None,
                done: old(self)@.done + 1,
                ..old(self)@
            }),
    {
        proof {
            let total: usize = self.targets.len();
            assert(self.done < total);
        }
        self.step = None;
        self.done = self.done + 1;
    }

    /// What is reported of the cache.
    pub fn finish(&self) -> (outcome: LifecycleOutcomeV1)
        requires
            self@.well_formed(),
            self@.demand() is Finish,
        ensures
            outcome@ == cache_outcome(self@.request, self@.run),
    {
        finish_app_cache(&self.request, self.run)
    }
}

/// A preview never asks for a step.
pub proof fn law_cache_preview_takes_no_step(drive: CacheDriveView)
    requires
        drive.well_formed(),
        drive.request.dry_run,
    ensures
        !(drive.demand() is Apply),
{
}

} // verus!
