//! Putting a whole file in place, or taking it away, one demand at a time.
//!
//! The host does what is demanded and reports back. A privileged change waits for
//! the lock of its host before anything is looked at, and holds it to its end.

use vstd::prelude::*;
use vstd::string::*;

use crate::app_install::{
    copy_install, copy_install_outcome, copy_install_reads, copy_install_step_views,
    copy_install_steps, copy_uninstall, copy_uninstall_outcome, decide_copy_install,
    decide_copy_uninstall, CopyInstall, CopyUninstall, InstallOutcome, UninstallOutcome,
};
use crate::content::{content_hash, copy_bytes};
use crate::manifest::{backup_path, backup_suffix, AppEntry};
use crate::recovery_run::{host_step_views, HostStep, HostStepView};

verus! {

/// What a change of a whole file asks for.
#[derive(Clone, Copy, Debug, PartialEq, Eq, Structural)]
pub enum CopyDemand {
    /// Wait for the lock on privileged operations.
    Lock,
    /// Say whether anything stands there: at the destination of an install, or where
    /// the backup of a receipt should be.
    LookAt,
    /// Read the destination.
    Read,
    /// Take the step at hand.
    Take,
    /// Give the backup back: the write that was to follow failed.
    Undo,
    /// Nothing more.
    Finish,
}

/// How far an install came.
#[derive(Clone, Copy, Debug, PartialEq, Eq, Structural)]
pub enum CopyInstallPhase {
    Locking,
    Looking,
    Reading,
    Changing,
    Undoing,
    Done,
}

/// An install of a whole file.
#[derive(Clone, Debug)]
pub struct CopyInstallRun {
    pub destination: String,
    pub content: Vec<u8>,
    pub privileged: bool,
    pub is_managed: bool,
    pub dry_run: bool,
    pub force: bool,
    pub locked: bool,
    pub exists: bool,
    pub decision: CopyInstall,
    pub steps: Vec<HostStep>,
    pub taken: usize,
    pub failed: bool,
    pub phase: CopyInstallPhase,
}

impl CopyInstallRun {
    /// Nothing is looked at or changed before a privileged install has the lock; the
    /// steps are those of the decision; only a backup that was made is given back.
    pub open spec fn well_formed(&self) -> bool {
        &&& self.taken <= self.steps@.len()
        &&& self.dry_run ==> self.phase == CopyInstallPhase::Done && self.decision
            == CopyInstall::Preview
        &&& self.privileged && self.phase != CopyInstallPhase::Locking && self.phase
            != CopyInstallPhase::Done ==> self.locked
        &&& match self.phase {
            CopyInstallPhase::Locking => self.privileged && self.steps@.len() == 0 && !self.failed,
            CopyInstallPhase::Looking => self.steps@.len() == 0 && !self.failed,
            CopyInstallPhase::Reading => {
                &&& self.steps@.len() == 0
                &&& !self.failed
                &&& self.exists && self.is_managed && !self.force
            },
            CopyInstallPhase::Changing => !self.failed,
            CopyInstallPhase::Undoing => {
                &&& self.failed
                &&& self.decision == (CopyInstall::Write { back_up: true })
                &&& self.taken == 1
            },
            CopyInstallPhase::Done => !self.failed ==> self.taken == self.steps@.len(),
        }
        &&& self.phase == CopyInstallPhase::Changing || self.phase == CopyInstallPhase::Undoing
            || self.phase == CopyInstallPhase::Done ==> host_step_views(self.steps@)
            == copy_install_step_views(
            self.decision,
            self.destination@,
            self.content@,
            self.privileged,
        )
    }

    /// Whether this is the same install, however far it came.
    pub open spec fn continues(&self, before: CopyInstallRun) -> bool {
        &&& self.destination == before.destination
        &&& self.content == before.content
        &&& self.privileged == before.privileged
        &&& self.is_managed == before.is_managed
        &&& self.dry_run == before.dry_run
        &&& self.force == before.force
    }

    /// What the install asks for next.
    pub open spec fn demand(&self) -> CopyDemand {
        match self.phase {
            CopyInstallPhase::Locking => CopyDemand::Lock,
            CopyInstallPhase::Looking => CopyDemand::LookAt,
            CopyInstallPhase::Reading => CopyDemand::Read,
            CopyInstallPhase::Changing => if self.taken < self.steps@.len() {
                CopyDemand::Take
            } else {
                CopyDemand::Finish
            },
            CopyInstallPhase::Undoing => CopyDemand::Undo,
            CopyInstallPhase::Done => CopyDemand::Finish,
        }
    }

    /// What the install does, given what was found at the destination.
    pub open spec fn decided(&self, exists: bool, current: Option<Seq<u8>>) -> CopyInstall {
        copy_install(
            self.content@,
            self.is_managed,
            self.dry_run,
            self.force,
            exists,
            current,
        )
    }

    /// Starts an install.
    pub fn start(
        destination: &str,
        content: &[u8],
        privileged: bool,
        is_managed: bool,
        dry_run: bool,
        force: bool,
    ) -> (run: CopyInstallRun)
        ensures
            run.well_formed(),
            run.destination@ == destination@,
            run.content@ == content@,
            run.privileged == privileged,
            run.is_managed == is_managed,
            run.dry_run == dry_run,
            run.force == force,
            !run.failed,
            run.demand() == if dry_run {
                CopyDemand::Finish
            } else if privileged {
                CopyDemand::Lock
            } else {
                CopyDemand::LookAt
            },
    {
        let steps: Vec<HostStep> = Vec::new();
        let phase = if dry_run {
            CopyInstallPhase::Done
        } else if privileged {
            CopyInstallPhase::Locking
        } else {
            CopyInstallPhase::Looking
        };
        proof {
            assert(host_step_views(steps@) =~= Seq::<HostStepView>::empty());
        }
        CopyInstallRun {
            destination: destination.to_owned(),
            content: copy_bytes(content),
            privileged,
            is_managed,
            dry_run,
            force,
            locked: false,
            exists: false,
            decision: CopyInstall::Preview,
            steps,
            taken: 0,
            failed: false,
            phase,
        }
    }

    /// What the install asks for next.
    pub fn next(&self) -> (demand: CopyDemand)
        ensures
            demand == self.demand(),
    {
        match self.phase {
            CopyInstallPhase::Locking => CopyDemand::Lock,
            CopyInstallPhase::Looking => CopyDemand::LookAt,
            CopyInstallPhase::Reading => CopyDemand::Read,
            CopyInstallPhase::Changing => if self.taken < self.steps.len() {
                CopyDemand::Take
            } else {
                CopyDemand::Finish
            },
            CopyInstallPhase::Undoing => CopyDemand::Undo,
            CopyInstallPhase::Done => CopyDemand::Finish,
        }
    }

    /// Goes on with the lock held.
    pub fn lock_acquired(&mut self)
        requires
            old(self).well_formed(),
            old(self).demand() is Lock,
        ensures
            final(self).well_formed(),
            final(self).continues(*old(self)),
            final(self).locked,
            !final(self).failed,
            final(self).demand() is LookAt,
    {
        self.locked = true;
        self.phase = CopyInstallPhase::Looking;
    }

    fn decide(&mut self, current: Option<&[u8]>)
        requires
            old(self).well_formed(),
            old(self).steps@.len() == 0,
            !old(self).failed,
            !old(self).dry_run,
            old(self).privileged ==> old(self).locked,
        ensures
            final(self).well_formed(),
            final(self).continues(*old(self)),
            final(self).locked == old(self).locked,
            final(self).exists == old(self).exists,
            final(self).phase == CopyInstallPhase::Changing,
            final(self).taken == 0,
            final(self).decision == old(self).decided(
                old(self).exists,
                match current {
                    Some(current) => Some(current@),
                    None => None,
                },
            ),
    {
        self.decision = decide_copy_install(
            self.content.as_slice(),
            self.is_managed,
            self.dry_run,
            self.force,
            self.exists,
            current,
        );
        self.steps = copy_install_steps(
            self.decision,
            self.destination.as_str(),
            self.content.as_slice(),
            self.privileged,
        );
        self.taken = 0;
        self.phase = CopyInstallPhase::Changing;
    }

    /// Goes on from whether anything stands at the destination.
    pub fn looked(&mut self, exists: bool)
        requires
            old(self).well_formed(),
            old(self).demand() is LookAt,
        ensures
            final(self).well_formed(),
            final(self).continues(*old(self)),
            final(self).locked == old(self).locked,
            final(self).exists == exists,
            if exists && old(self).is_managed && !old(self).force {
                final(self).demand() is Read
            } else {
                &&& final(self).phase == CopyInstallPhase::Changing
                &&& final(self).taken == 0
                &&& final(self).decision == old(self).decided(exists, None)
            },
    {
        self.exists = exists;
        if copy_install_reads(exists, self.is_managed, self.force) {
            self.phase = CopyInstallPhase::Reading;
        } else {
            self.decide(None);
        }
    }

    /// Goes on from what stands at the destination.
    pub fn read(&mut self, current: &[u8])
        requires
            old(self).well_formed(),
            old(self).demand() is Read,
        ensures
            final(self).well_formed(),
            final(self).continues(*old(self)),
            final(self).locked == old(self).locked,
            final(self).exists,
            final(self).phase == CopyInstallPhase::Changing,
            final(self).taken == 0,
            final(self).decision == old(self).decided(true, Some(current@)),
    {
        self.decide(Some(current));
    }

    /// The step at hand.
    pub fn step(&self) -> (step: &HostStep)
        requires
            self.well_formed(),
            self.demand() is Take,
        ensures
            step@ == copy_install_step_views(
                self.decision,
                self.destination@,
                self.content@,
                self.privileged,
            )[self.taken as int],
    {
        proof {
            assert(host_step_views(self.steps@)[self.taken as int]
                == self.steps@[self.taken as int]@);
        }
        &self.steps[self.taken]
    }

    /// The step that gives the backup back.
    pub fn undo_step(&self) -> (step: HostStep)
        requires
            self.well_formed(),
            self.demand() is Undo,
        ensures
            step@ == (HostStepView::MoveFile {
                from: self.destination@ + backup_suffix(),
                to: self.destination@,
                privileged: self.privileged,
            }),
    {
        HostStep::MoveFile {
            from: backup_path(self.destination.as_str()),
            to: self.destination.clone(),
            privileged: self.privileged,
        }
    }

    /// Goes on after the step at hand was taken, or the backup was given back.
    pub fn step_taken(&mut self)
        requires
            old(self).well_formed(),
            old(self).demand() is Take || old(self).demand() is Undo,
        ensures
            final(self).well_formed(),
            final(self).continues(*old(self)),
            final(self).locked == old(self).locked,
            final(self).exists == old(self).exists,
            final(self).decision == old(self).decision,
            final(self).failed == old(self).failed,
            if old(self).demand() is Take {
                &&& final(self).phase == old(self).phase
                &&& final(self).taken == old(self).taken + 1
            } else {
                final(self).demand() is Finish
            },
    {
        match self.phase {
            CopyInstallPhase::Undoing => {
                self.phase = CopyInstallPhase::Done;
            },
            _ => {
                proof {
                    let total: usize = self.steps.len();
                    assert(self.taken < total);
                }
                self.taken = self.taken + 1;
            },
        }
    }

    /// Goes on after the step at hand failed: a backup that was made is given back.
    pub fn step_failed(&mut self)
        requires
            old(self).well_formed(),
            old(self).demand() is Take,
        ensures
            final(self).well_formed(),
            final(self).continues(*old(self)),
            final(self).locked == old(self).locked,
            final(self).exists == old(self).exists,
            final(self).decision == old(self).decision,
            final(self).failed,
            final(self).demand() == if old(self).taken > 0 {
                CopyDemand::Undo
            } else {
                CopyDemand::Finish
            },
    {
        proof {
            let views = host_step_views(self.steps@);
            assert(views.len() == self.steps@.len());
        }
        self.failed = true;
        self.phase = if self.taken > 0 {
            CopyInstallPhase::Undoing
        } else {
            CopyInstallPhase::Done
        };
    }

    /// What came of the install; nothing where a step failed.
    pub fn outcome(&self) -> (outcome: Option<InstallOutcome>)
        requires
            self.well_formed(),
            self.demand() is Finish,
        ensures
            outcome is None <==> self.failed,
            outcome is Some ==> match self.decision {
                CopyInstall::Preview => outcome->0 is DryRun,
                CopyInstall::AlreadyManaged => outcome->0 is AlreadyManaged,
                CopyInstall::Write { back_up } => if back_up {
                    match outcome->0 {
                        InstallOutcome::BackedUpAndInstalled { backup, hash } => backup@
                            == self.destination@ + backup_suffix() && hash == content_hash(
                            self.content@,
                        ),
                        _ => false,
                    }
                } else {
                    outcome->0 == (InstallOutcome::Installed { hash: content_hash(self.content@) })
                },
            },
    {
        if self.failed {
            return None;
        }
        Some(
            copy_install_outcome(
                self.decision,
                self.destination.as_str(),
                self.content.as_slice(),
            ),
        )
    }
}

/// How far an uninstall came.
#[derive(Clone, Copy, Debug, PartialEq, Eq, Structural)]
pub enum CopyUninstallPhase {
    Locking,
    Reading,
    Removing,
    Looking,
    Returning,
    Done,
}

/// An uninstall of a whole file.
#[derive(Clone, Debug)]
pub struct CopyUninstallRun {
    pub entry: AppEntry,
    pub dry_run: bool,
    pub force: bool,
    pub locked: bool,
    pub decision: CopyUninstall,
    pub backup_present: bool,
    pub phase: CopyUninstallPhase,
}

impl CopyUninstallRun {
    /// Nothing is looked at or changed before a privileged uninstall has the lock;
    /// a backup is given back only after the file was removed.
    pub open spec fn well_formed(&self) -> bool {
        &&& self.dry_run ==> self.phase == CopyUninstallPhase::Done && self.decision
            == CopyUninstall::Preview
        &&& self.entry.requires_admin && self.phase != CopyUninstallPhase::Locking && self.phase
            != CopyUninstallPhase::Done ==> self.locked
        &&& self.backup_present ==> self.entry.backup is Some && self.decision is Remove
        &&& match self.phase {
            CopyUninstallPhase::Locking => self.entry.requires_admin,
            CopyUninstallPhase::Removing => self.decision is Remove && !self.backup_present,
            CopyUninstallPhase::Looking => {
                self.decision is Remove && self.entry.backup is Some && !self.backup_present
            },
            CopyUninstallPhase::Returning => self.backup_present,
            _ => true,
        }
    }

    /// Whether this is the same uninstall, however far it came.
    pub open spec fn continues(&self, before: CopyUninstallRun) -> bool {
        &&& self.entry == before.entry
        &&& self.dry_run == before.dry_run
        &&& self.force == before.force
    }

    /// What the uninstall asks for next.
    pub open spec fn demand(&self) -> CopyDemand {
        match self.phase {
            CopyUninstallPhase::Locking => CopyDemand::Lock,
            CopyUninstallPhase::Reading => CopyDemand::Read,
            CopyUninstallPhase::Removing => CopyDemand::Take,
            CopyUninstallPhase::Looking => CopyDemand::LookAt,
            CopyUninstallPhase::Returning => CopyDemand::Take,
            CopyUninstallPhase::Done => CopyDemand::Finish,
        }
    }

    /// Starts an uninstall.
    pub fn start(entry: AppEntry, dry_run: bool, force: bool) -> (run: CopyUninstallRun)
        ensures
            run.well_formed(),
            run.entry == entry,
            run.dry_run == dry_run,
            run.force == force,
            !run.backup_present,
            run.demand() == if dry_run {
                CopyDemand::Finish
            } else if entry.requires_admin {
                CopyDemand::Lock
            } else {
                CopyDemand::Read
            },
            dry_run ==> run.decision == CopyUninstall::Preview,
    {
        let phase = if dry_run {
            CopyUninstallPhase::Done
        } else if entry.requires_admin {
            CopyUninstallPhase::Locking
        } else {
            CopyUninstallPhase::Reading
        };
        CopyUninstallRun {
            entry,
            dry_run,
            force,
            locked: false,
            decision: CopyUninstall::Preview,
            backup_present: false,
            phase,
        }
    }

    /// What the uninstall asks for next.
    pub fn next(&self) -> (demand: CopyDemand)
        ensures
            demand == self.demand(),
    {
        match self.phase {
            CopyUninstallPhase::Locking => CopyDemand::Lock,
            CopyUninstallPhase::Reading => CopyDemand::Read,
            CopyUninstallPhase::Removing => CopyDemand::Take,
            CopyUninstallPhase::Looking => CopyDemand::LookAt,
            CopyUninstallPhase::Returning => CopyDemand::Take,
            CopyUninstallPhase::Done => CopyDemand::Finish,
        }
    }

    /// Goes on with the lock held.
    pub fn lock_acquired(&mut self)
        requires
            old(self).well_formed(),
            old(self).demand() is Lock,
        ensures
            final(self).well_formed(),
            final(self).continues(*old(self)),
            final(self).locked,
            final(self).backup_present == old(self).backup_present,
            final(self).demand() is Read,
    {
        self.locked = true;
        self.phase = CopyUninstallPhase::Reading;
    }

    /// Goes on from what stands at the destination.
    pub fn read(&mut self, current: Option<&[u8]>)
        requires
            old(self).well_formed(),
            old(self).demand() is Read,
        ensures
            final(self).well_formed(),
            final(self).continues(*old(self)),
            final(self).locked == old(self).locked,
            !final(self).backup_present,
            final(self).decision == copy_uninstall(
                old(self).entry.content_hash,
                false,
                old(self).force,
                match current {
                    Some(current) => Some(current@),
                    None => None,
                },
            ),
            final(self).phase == if final(self).decision is Remove {
                CopyUninstallPhase::Removing
            } else {
                CopyUninstallPhase::Done
            },
    {
        self.backup_present = false;
        self.decision = decide_copy_uninstall(
            self.entry.content_hash,
            self.dry_run,
            self.force,
            current,
        );
        self.phase = match self.decision {
            CopyUninstall::Remove { .. } => CopyUninstallPhase::Removing,
            _ => CopyUninstallPhase::Done,
        };
    }

    /// The step at hand.
    pub fn step(&self) -> (step: HostStep)
        requires
            self.well_formed(),
            self.demand() is Take,
        ensures
            step@ == if self.phase == CopyUninstallPhase::Returning {
                HostStepView::MoveFile {
                    from: self.entry.backup->0@,
                    to: self.entry.destination@,
                    privileged: self.entry.requires_admin,
                }
            } else {
                HostStepView::RemoveFile {
                    path: self.entry.destination@,
                    privileged: self.entry.requires_admin,
                }
            },
    {
        match (self.phase, &self.entry.backup) {
            (CopyUninstallPhase::Returning, Some(backup)) => HostStep::MoveFile {
                from: backup.clone(),
                to: self.entry.destination.clone(),
                privileged: self.entry.requires_admin,
            },
            _ => HostStep::RemoveFile {
                path: self.entry.destination.clone(),
                privileged: self.entry.requires_admin,
            },
        }
    }

    /// Goes on after the step at hand was taken.
    pub fn step_taken(&mut self)
        requires
            old(self).well_formed(),
            old(self).demand() is Take,
        ensures
            final(self).well_formed(),
            final(self).continues(*old(self)),
            final(self).locked == old(self).locked,
            final(self).decision == old(self).decision,
            final(self).backup_present == old(self).backup_present,
            final(self).demand() == if old(self).phase == CopyUninstallPhase::Removing && old(
                self,
            ).entry.backup is Some {
                CopyDemand::LookAt
            } else {
                CopyDemand::Finish
            },
    {
        let removing = match self.phase {
            CopyUninstallPhase::Removing => true,
            _ => false,
        };
        self.phase = if removing && self.entry.backup.is_some() {
            CopyUninstallPhase::Looking
        } else {
            CopyUninstallPhase::Done
        };
    }

    /// Goes on from whether the backup of the receipt is there.
    pub fn looked(&mut self, present: bool)
        requires
            old(self).well_formed(),
            old(self).demand() is LookAt,
        ensures
            final(self).well_formed(),
            final(self).continues(*old(self)),
            final(self).locked == old(self).locked,
            final(self).decision == old(self).decision,
            final(self).backup_present == present,
            final(self).phase == if present {
                CopyUninstallPhase::Returning
            } else {
                CopyUninstallPhase::Done
            },
    {
        self.backup_present = present;
        self.phase = if present {
            CopyUninstallPhase::Returning
        } else {
            CopyUninstallPhase::Done
        };
    }

    /// What came of the uninstall.
    pub fn outcome(&self) -> (outcome: UninstallOutcome)
        requires
            self.well_formed(),
            self.demand() is Finish,
        ensures
            match self.decision {
                CopyUninstall::Preview => outcome is DryRun,
                CopyUninstall::NotFound => outcome is NotFound,
                CopyUninstall::UserModified => outcome is UserModified,
                CopyUninstall::Remove { forced } => if self.backup_present {
                    match outcome {
                        UninstallOutcome::ForceRestoredBackup { backup } => forced && backup@
                            == self.entry.backup->0@,
                        UninstallOutcome::RestoredBackup { backup } => !forced && backup@
                            == self.entry.backup->0@,
                        _ => false,
                    }
                } else if forced {
                    outcome is ForceRemoved
                } else {
                    outcome is Removed
                },
            },
    {
        copy_uninstall_outcome(self.decision, &self.entry, self.backup_present)
    }
}

/// A privileged install or uninstall takes no step before it holds the lock of its
/// host.
pub proof fn law_privileged_change_holds_the_lock(
    install: CopyInstallRun,
    uninstall: CopyUninstallRun,
)
    requires
        install.well_formed(),
        uninstall.well_formed(),
    ensures
        install.privileged && (install.demand() is Take || install.demand() is Undo)
            ==> install.locked,
        uninstall.entry.requires_admin && uninstall.demand() is Take ==> uninstall.locked,
{
}

/// Where an install fails after it made a backup, the file is given back to its
/// place: the step that undoes is the reverse of the step that was taken.
pub proof fn law_failed_install_gives_the_backup_back(run: CopyInstallRun)
    requires
        run.well_formed(),
        run.demand() is Undo,
    ensures
        run.failed,
        host_step_views(run.steps@)[0] == (HostStepView::MoveFile {
            from: run.destination@,
            to: run.destination@ + backup_suffix(),
            privileged: run.privileged,
        }),
        run.taken == 1,
{
}

} // verus!
