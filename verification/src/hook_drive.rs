//! The hooks of categories that changed, one demand at a time.
//!
//! The categories come in the order in which they are named. The hooks of one are run
//! one after the other, until one fails; what came of them is told before the next
//! category begins.

use vstd::prelude::*;
use vstd::string::*;

use crate::app_code::{
    category_named, find_category, hook_events, hook_failure, hook_note, hook_outcome, hook_start,
    phase_hooks, refused_hook_outcome, HookProgress, HookStart, HookStartView,
};
use crate::app_lifecycle::app_target;
use crate::app_types::{
    category_views, copy_hooks, hook_views, AppCategoryView, AppHook, AppHookPhase, AppHookReport,
    AppHookRequest, AppHookView,
};
use crate::context::RuntimeContext;
use crate::host::{
    event_views, process_views, ProcessOutput, ProcessRequest, ProcessRequestView, RuntimeEvent,
    RuntimeEventView,
};
use crate::lifecycle::{outcome_views, OutcomeView};
use crate::presets::PresetFileView;
use crate::runtime::CoreRuntime;
use crate::text::texts;

verus! {

/// What is to be done for a category that changed.
#[derive(Clone, Debug)]
pub enum HookTask {
    /// Its hooks may not run.
    Refused { name: String, message: String },
    /// Its hooks, and how each of them is called.
    Run { name: String, hooks: Vec<AppHook>, calls: Vec<ProcessRequest> },
}

/// What is to be done for a category that changed, by the values.
pub ghost enum HookTaskView {
    Refused { name: Seq<char>, message: Seq<char> },
    Run { name: Seq<char>, hooks: Seq<AppHookView>, calls: Seq<ProcessRequestView> },
}

impl View for HookTask {
    type V = HookTaskView;

    open spec fn view(&self) -> HookTaskView {
        match *self {
            HookTask::Refused { name, message } => HookTaskView::Refused {
                name: name@,
                message: message@,
            },
            HookTask::Run { name, hooks, calls } => HookTaskView::Run {
                name: name@,
                hooks: hook_views(hooks@),
                calls: process_views(calls@),
            },
        }
    }
}

/// The views of a list of tasks.
pub open spec fn task_views(tasks: Seq<HookTask>) -> Seq<HookTaskView> {
    tasks.map_values(|task: HookTask| task@)
}

/// What is to be done for a category; nothing where it has no hooks.
pub open spec fn hook_task(
    context: RuntimeContext,
    files: Seq<PresetFileView>,
    categories: Seq<AppCategoryView>,
    phase: AppHookPhase,
    name: Seq<char>,
) -> Option<HookTaskView> {
    match hook_start(context, files, categories, phase, name) {
        HookStartView::Nothing => None,
        HookStartView::Refused { message } => Some(HookTaskView::Refused { name, message }),
        HookStartView::Run { calls } => Some(
            HookTaskView::Run {
                name,
                hooks: phase_hooks(category_named(categories, name)->0, phase),
                calls,
            },
        ),
    }
}

/// What is to be done for the categories that changed, in order.
pub open spec fn hook_tasks(
    context: RuntimeContext,
    files: Seq<PresetFileView>,
    categories: Seq<AppCategoryView>,
    phase: AppHookPhase,
    changed: Seq<Seq<char>>,
) -> Seq<HookTaskView>
    decreases changed.len(),
{
    if changed.len() == 0 {
        Seq::empty()
    } else {
        let before = hook_tasks(context, files, categories, phase, changed.drop_last());
        match hook_task(context, files, categories, phase, changed.last()) {
            Some(task) => before.push(task),
            None => before,
        }
    }
}

/// What the hooks ask for next.
#[derive(Clone, Copy, Debug, PartialEq, Eq, Structural)]
pub enum HookDemand {
    /// Run the call of this index of the category at hand.
    Run { index: usize },
    /// Tell the events at hand.
    Tell,
    Finish,
}

/// Hooks under way.
#[derive(Clone, Debug)]
pub struct HookDrive {
    phase: AppHookPhase,
    show_success: bool,
    tasks: Vec<HookTask>,
    at: usize,
    ran: usize,
    progress: HookProgress,
    telling: bool,
    events: Vec<RuntimeEvent>,
    report: AppHookReport,
}

/// Hooks under way, by the values.
pub ghost struct HookDriveView {
    pub phase: AppHookPhase,
    pub show_success: bool,
    pub tasks: Seq<HookTaskView>,
    /// How many categories are through.
    pub at: int,
    /// How many hooks of the category at hand were run, each of them well.
    pub ran: int,
    /// What those hooks had to say.
    pub noted: Seq<Seq<char>>,
    pub telling: bool,
    pub events: Seq<RuntimeEventView>,
    pub outcomes: Seq<OutcomeView>,
    pub notes: Seq<Seq<char>>,
}

impl View for HookDrive {
    type V = HookDriveView;

    closed spec fn view(&self) -> HookDriveView {
        HookDriveView {
            phase: self.phase,
            show_success: self.show_success,
            tasks: task_views(self.tasks@),
            at: self.at as int,
            ran: self.ran as int,
            noted: texts(self.progress.notes@),
            telling: self.telling,
            events: event_views(self.events@),
            outcomes: outcome_views(self.report.outcomes@),
            notes: texts(self.report.notes@),
        }
    }
}

/// Whether a task has a call for each of its hooks, and hooks at all.
pub open spec fn is_complete(task: HookTaskView) -> bool {
    match task {
        HookTaskView::Refused { .. } => true,
        HookTaskView::Run { hooks, calls, .. } => hooks.len() == calls.len() && calls.len() > 0,
    }
}

impl HookDriveView {
    /// Hooks that have not begun.
    pub open spec fn fresh(
        phase: AppHookPhase,
        show_success: bool,
        tasks: Seq<HookTaskView>,
    ) -> HookDriveView {
        HookDriveView {
            phase,
            show_success,
            tasks,
            at: 0,
            ran: 0,
            noted: Seq::empty(),
            telling: false,
            events: Seq::empty(),
            outcomes: Seq::empty(),
            notes: Seq::empty(),
        }
    }

    pub open spec fn well_formed(&self) -> bool {
        &&& forall|i: int| 0 <= i < self.tasks.len() ==> is_complete(#[trigger] self.tasks[i])
        &&& 0 <= self.at <= self.tasks.len()
        &&& self.telling || self.at == self.tasks.len() ==> self.ran == 0 && self.noted.len() == 0
        &&& !self.telling ==> self.events.len() == 0
        &&& !self.telling && self.at < self.tasks.len() ==> self.tasks[self.at] is Run && 0
            <= self.ran < self.tasks[self.at]->calls.len()
    }

    /// What the hooks ask for next.
    pub open spec fn demand(&self) -> HookDemand {
        if self.telling {
            HookDemand::Tell
        } else if self.at < self.tasks.len() {
            HookDemand::Run { index: self.ran as usize }
        } else {
            HookDemand::Finish
        }
    }

    /// Goes on to the next category: where its hooks may not run, that is told.
    pub open spec fn advanced(self) -> HookDriveView {
        if self.at < self.tasks.len() {
            match self.tasks[self.at] {
                HookTaskView::Refused { name, message } => HookDriveView {
                    at: self.at + 1,
                    telling: true,
                    events: seq![
                        RuntimeEventView::Warning {
                            code: "app_hook_permission_required"@,
                            target: Some(app_target(name)),
                            detail: message,
                        },
                    ],
                    outcomes: self.outcomes.push(refused_hook_outcome(name, self.phase)),
                    ..self
                },
                HookTaskView::Run { .. } => self,
            }
        } else {
            self
        }
    }

    /// After the hook at hand was run. Where it failed, or was the last of its
    /// category, what came of the category is told.
    pub open spec fn after_run(self, result: Result<ProcessOutput, String>) -> HookDriveView {
        let task = self.tasks[self.at];
        let hook = task->hooks[self.ran];
        let failure = hook_failure(hook.command, result);
        let noted = match hook_note(hook, result, self.show_success) {
            Some(note) => self.noted.push(note),
            None => self.noted,
        };
        if failure is Some || self.ran + 1 == task->calls.len() {
            HookDriveView {
                at: self.at + 1,
                ran: 0,
                noted: Seq::empty(),
                telling: true,
                events: hook_events(task->Run_name, failure, noted, self.show_success),
                outcomes: self.outcomes.push(
                    hook_outcome(task->Run_name, self.phase, failure is None),
                ),
                notes: self.notes + noted,
                ..self
            }
        } else {
            HookDriveView { ran: self.ran + 1, noted, ..self }
        }
    }
}

fn make_task(core: &CoreRuntime, request: &AppHookRequest, name: &String) -> (task: Option<HookTask>)
    ensures
        match task {
            Some(task) => hook_task(
                core.context,
                core.presets@,
                category_views(request.categories@),
                request.phase,
                name@,
            ) == Some(task@) && is_complete(task@),
            None => hook_task(
                core.context,
                core.presets@,
                category_views(request.categories@),
                request.phase,
                name@,
            ) is None,
        },
{
    match core.start_app_hooks(request, name.as_str()) {
        HookStart::Nothing => None,
        HookStart::Refused(message) => Some(HookTask::Refused { name: name.clone(), message }),
        HookStart::Run(calls) => match find_category(&request.categories, name.as_str()) {
            None => None,
            Some(category) => {
                let own = match request.phase {
                    AppHookPhase::PostInstall => &category.post_install,
                    AppHookPhase::PostUpgrade => &category.post_upgrade,
                };
                let hooks = copy_hooks(own);
                proof {
                    assert(hook_views(hooks@) == phase_hooks(category@, request.phase));
                }
                Some(HookTask::Run { name: name.clone(), hooks, calls })
            },
        },
    }
}

fn make_tasks(core: &CoreRuntime, request: &AppHookRequest) -> (tasks: Vec<HookTask>)
    ensures
        task_views(tasks@) == hook_tasks(
            core.context,
            core.presets@,
            category_views(request.categories@),
            request.phase,
            texts(request.changed@),
        ),
        forall|i: int| 0 <= i < tasks@.len() ==> is_complete((#[trigger] tasks@[i])@),
{
    let mut tasks: Vec<HookTask> = Vec::new();
    let ghost changed = texts(request.changed@);
    let ghost categories = category_views(request.categories@);
    let mut i: usize = 0;
    proof {
        assert(changed.take(0) =~= Seq::<Seq<char>>::empty());
        assert(task_views(tasks@) =~= Seq::<HookTaskView>::empty());
    }
    while i < request.changed.len()
        invariant
            i <= request.changed.len(),
            changed == texts(request.changed@),
            categories == category_views(request.categories@),
            task_views(tasks@) == hook_tasks(
                core.context,
                core.presets@,
                categories,
                request.phase,
                changed.take(i as int),
            ),
            forall|j: int| 0 <= j < tasks@.len() ==> is_complete((#[trigger] tasks@[j])@),
        decreases request.changed.len() - i,
    {
        proof {
            assert(changed.take(i as int + 1).drop_last() =~= changed.take(i as int));
            assert(changed.take(i as int + 1).last() == request.changed@[i as int]@);
        }
        if let Some(task) = make_task(core, request, &request.changed[i]) {
            let ghost before = tasks@;
            let ghost added = task@;
            tasks.push(task);
            proof {
                assert(task_views(tasks@) =~= task_views(before).push(added));
            }
        }
        i += 1;
    }
    proof {
        assert(changed.take(changed.len() as int) =~= changed);
    }
    tasks
}

impl HookDrive {
    /// Whether the hooks stand as `HookDriveView::well_formed` says.
    pub closed spec fn well_formed(&self) -> bool {
        self@.well_formed() && self.progress.failure is None
    }

    /// Starts the hooks of the categories that changed.
    pub fn start(core: &CoreRuntime, request: AppHookRequest) -> (drive: HookDrive)
        ensures
            drive.well_formed(),
            drive@ == HookDriveView::fresh(
                request.phase,
                request.show_success,
                hook_tasks(
                    core.context,
                    core.presets@,
                    category_views(request.categories@),
                    request.phase,
                    texts(request.changed@),
                ),
            ).advanced(),
    {
        let tasks = make_tasks(core, &request);
        proof {
            assert forall|i: int| 0 <= i < task_views(tasks@).len() implies is_complete(
                #[trigger] task_views(tasks@)[i],
            ) by {
                assert(is_complete(tasks@[i]@));
            }
        }
        let mut drive = HookDrive {
            phase: request.phase,
            show_success: request.show_success,
            tasks,
            at: 0,
            ran: 0,
            progress: HookProgress::new(),
            telling: false,
            events: Vec::new(),
            report: AppHookReport::new(),
        };
        proof {
            assert(drive@.noted =~= Seq::empty());
            assert(drive@.events =~= Seq::empty());
            assert(drive@.outcomes =~= Seq::empty());
            assert(drive@.notes =~= Seq::empty());
        }
        drive.advance();
        drive
    }

    fn advance(&mut self)
        requires
            !old(self)@.telling,
            old(self)@.ran == 0,
            old(self)@.noted.len() == 0,
            old(self)@.events.len() == 0,
            old(self).progress.failure is None,
            0 <= old(self)@.at <= old(self)@.tasks.len(),
            forall|i: int|
                0 <= i < old(self)@.tasks.len() ==> is_complete(#[trigger] old(self)@.tasks[i]),
        ensures
            final(self)@ == old(self)@.advanced(),
            final(self).well_formed(),
    {
        if self.at < self.tasks.len() {
            proof {
                assert(task_views(self.tasks@)[self.at as int] == self.tasks@[self.at as int]@);
                assert(is_complete(self@.tasks[self.at as int]));
            }
            if let HookTask::Refused { name, message } = &self.tasks[self.at] {
                let event = self.report.refuse(name.as_str(), self.phase, message.clone());
                let ghost told = event@;
                let mut events: Vec<RuntimeEvent> = Vec::new();
                events.push(event);
                proof {
                    assert(event_views(events@) =~= seq![told]);
                }
                self.events = events;
                self.telling = true;
                self.at = self.at + 1;
            }
        }
    }

    /// What the hooks ask for next.
    pub fn next(&self) -> (demand: HookDemand)
        requires
            self.well_formed(),
        ensures
            demand == self@.demand(),
            self@.well_formed(),
    {
        if self.telling {
            HookDemand::Tell
        } else if self.at < self.tasks.len() {
            HookDemand::Run { index: self.ran }
        } else {
            HookDemand::Finish
        }
    }

    /// The process that is run.
    pub fn call(&self) -> (call: &ProcessRequest)
        requires
            self.well_formed(),
            self@.demand() is Run,
        ensures
            call@ == self@.tasks[self@.at]->calls[self@.ran],
    {
        proof {
            assert(task_views(self.tasks@)[self.at as int] == self.tasks@[self.at as int]@);
        }
        match &self.tasks[self.at] {
            HookTask::Run { calls, .. } => {
                proof {
                    assert(process_views(calls@)[self.ran as int] == calls@[self.ran as int]@);
                }
                &calls[self.ran]
            },
            HookTask::Refused { .. } => vstd::pervasive::unreached(),
        }
    }

    /// Goes on with what the process left behind, or why it could not be run.
    pub fn ran(&mut self, result: Result<ProcessOutput, String>)
        requires
            old(self).well_formed(),
            old(self)@.demand() is Run,
        ensures
            final(self).well_formed(),
            final(self)@ == old(self)@.after_run(result),
    {
        let ghost task = self.tasks@[self.at as int]@;
        proof {
            let total: usize = self.tasks.len();
            assert(self.at < total);
            assert(task_views(self.tasks@)[self.at as int] == task);
            assert(is_complete(self@.tasks[self.at as int]));
        }
        if let HookTask::Run { name, hooks, calls } = &self.tasks[self.at] {
            proof {
                let total: usize = calls.len();
                assert(process_views(calls@).len() == total);
                assert(hook_views(hooks@).len() == hooks@.len());
                assert(hook_views(hooks@)[self.ran as int] == hooks@[self.ran as int]@);
            }
            self.progress.record(&hooks[self.ran], &result, self.show_success);
            if self.progress.failure.is_some() || self.ran + 1 == calls.len() {
                let events = self.report.finish(
                    name.as_str(),
                    self.phase,
                    &self.progress,
                    self.show_success,
                );
                self.events = events;
                self.progress = HookProgress::new();
                self.telling = true;
                self.at = self.at + 1;
                self.ran = 0;
                proof {
                    assert(self@.noted =~= Seq::empty());
                }
            } else {
                self.ran = self.ran + 1;
            }
        }
    }

    /// The events that are told.
    pub fn events(&self) -> (events: &Vec<RuntimeEvent>)
        ensures
            event_views(events@) == self@.events,
    {
        &self.events
    }

    /// Goes on after the events were told.
    pub fn told(&mut self)
        requires
            old(self).well_formed(),
            old(self)@.demand() is Tell,
        ensures
            final(self).well_formed(),
            final(self)@ == (HookDriveView {
                telling: false,
                events: Seq::empty(),
                ..old(self)@
            }).advanced(),
    {
        self.telling = false;
        self.events = Vec::new();
        proof {
            assert(self@.events =~= Seq::empty());
        }
        self.advance();
    }

    /// The report of the hooks.
    pub fn finish(self) -> (report: AppHookReport)
        requires
            self.well_formed(),
            self@.demand() is Finish,
        ensures
            outcome_views(report.outcomes@) == self@.outcomes,
            texts(report.notes@) == self@.notes,
    {
        self.report
    }
}

/// Whether a hook was run well.
pub open spec fn ran_well(result: Result<ProcessOutput, String>) -> bool {
    match result {
        Ok(output) => output.exit_code == Some(0i32),
        Err(_) => false,
    }
}

/// After hooks were run one after the other.
pub open spec fn after_runs(
    drive: HookDriveView,
    results: Seq<Result<ProcessOutput, String>>,
) -> HookDriveView
    decreases results.len(),
{
    if results.len() == 0 {
        drive
    } else {
        after_runs(drive, results.drop_last()).after_run(results.last())
    }
}

proof fn lemma_runs(
    drive: HookDriveView,
    results: Seq<Result<ProcessOutput, String>>,
    count: int,
)
    requires
        drive.well_formed(),
        drive.demand() is Run,
        drive.ran == 0,
        0 <= count <= results.len(),
        count < drive.tasks[drive.at]->calls.len(),
        forall|i: int| 0 <= i < count ==> ran_well(#[trigger] results[i]),
    ensures
        ({
            let after = after_runs(drive, results.take(count));
            after == (HookDriveView { ran: count, noted: after.noted, ..drive })
        }),
    decreases count,
{
    if count > 0 {
        lemma_runs(drive, results, count - 1);
        assert(results.take(count).drop_last() =~= results.take(count - 1));
        assert(results.take(count).last() == results[count - 1]);
        assert(ran_well(results[count - 1]));
    } else {
        assert(results.take(0) =~= Seq::<Result<ProcessOutput, String>>::empty());
    }
}

/// The hooks of a category are run in order, each by its own call, up to the first
/// that fails, or to the last. No later hook of the category is run after a failure:
/// the category is through, with one outcome, which says whether a hook failed.
pub proof fn law_hooks_of_a_category_stop_at_the_first_failure(
    drive: HookDriveView,
    results: Seq<Result<ProcessOutput, String>>,
)
    requires
        drive.well_formed(),
        drive.demand() is Run,
        drive.ran == 0,
        0 < results.len() <= drive.tasks[drive.at]->calls.len(),
        forall|i: int| 0 <= i < results.len() - 1 ==> ran_well(#[trigger] results[i]),
        !ran_well(results.last()) || results.len() == drive.tasks[drive.at]->calls.len(),
    ensures
        forall|i: int|
            0 <= i < results.len() ==> {
                let here = #[trigger] after_runs(drive, results.take(i));
                &&& here.demand() == (HookDemand::Run { index: i as usize })
                &&& here.at == drive.at
                &&& here.ran == i
                &&& here.tasks == drive.tasks
                &&& here.outcomes == drive.outcomes
            },
        ({
            let after = after_runs(drive, results);
            &&& after.demand() is Tell
            &&& after.at == drive.at + 1
            &&& after.tasks == drive.tasks
            &&& after.outcomes == drive.outcomes.push(
                hook_outcome(
                    drive.tasks[drive.at]->Run_name,
                    drive.phase,
                    ran_well(results.last()),
                ),
            )
        }),
{
    assert forall|i: int| 0 <= i < results.len() implies {
        let here = #[trigger] after_runs(drive, results.take(i));
        &&& here.demand() == (HookDemand::Run { index: i as usize })
        &&& here.at == drive.at
        &&& here.ran == i
        &&& here.tasks == drive.tasks
        &&& here.outcomes == drive.outcomes
    } by {
        lemma_runs(drive, results, i);
    }
    let count = results.len() - 1;
    lemma_runs(drive, results, count);
    assert(results.drop_last() =~= results.take(count));
}

/// What came of a category does not stop the others: once it is told, the hooks of the
/// next category are run, or it is told that they may not.
pub proof fn law_a_failing_category_stops_no_other(
    drive: HookDriveView,
    result: Result<ProcessOutput, String>,
)
    requires
        drive.well_formed(),
        drive.demand() is Run,
        drive.after_run(result).demand() is Tell,
    ensures
        ({
            let after = (HookDriveView {
                telling: false,
                events: Seq::empty(),
                ..drive.after_run(result)
            }).advanced();
            &&& after.tasks == drive.tasks
            &&& drive.at + 1 < drive.tasks.len() ==> match drive.tasks[drive.at + 1] {
                HookTaskView::Run { .. } => after.demand() == (HookDemand::Run { index: 0 })
                    && after.at == drive.at + 1,
                HookTaskView::Refused { name, .. } => after.demand() is Tell
                    && after.outcomes.last() == refused_hook_outcome(name, drive.phase),
            }
            &&& drive.at + 1 == drive.tasks.len() ==> after.demand() is Finish
        }),
{
}

/// Each category has its task wherever it stands among those that changed: its hooks,
/// each with its command and its arguments, are the calls of its task.
pub proof fn law_hooks_are_called_as_they_are_written(
    context: RuntimeContext,
    files: Seq<PresetFileView>,
    categories: Seq<AppCategoryView>,
    phase: AppHookPhase,
    name: Seq<char>,
    index: int,
)
    requires
        hook_task(context, files, categories, phase, name) is Some,
        hook_task(context, files, categories, phase, name)->0 is Run,
        0 <= index < phase_hooks(category_named(categories, name)->0, phase).len(),
    ensures
        ({
            let task = hook_task(context, files, categories, phase, name)->0;
            let hook = phase_hooks(category_named(categories, name)->0, phase)[index];
            &&& task->calls.len() == task->hooks.len()
            &&& task->hooks[index] == hook
            &&& task->calls[index].program == hook.command
            &&& task->calls[index].args == hook.args
        }),
{
}

} // verus!
