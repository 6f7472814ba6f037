//! What installing, removing, refreshing and upgrading a file comes to.
//!
//! The statements are about what stands at the destination of a file before and
//! afterwards, and about what is reported of it.

use vstd::prelude::*;
use vstd::string::*;

use crate::app_install::{
    copy_install, copy_install_step_views, copy_uninstall, desired_hash_of, installed_hash_of,
    json_install, json_uninstall, CopyInstall, CopyUninstall, JsonInstallView, JsonUninstallView,
};
use crate::app_refresh::{refresh_decision, RefreshDecision};
use crate::app_upgrade::{upgrade_decision, UpgradeDecision};
use crate::content::content_hash;
use crate::disk_laws::{after_step, after_steps, held_at, law_suffixed_paths_are_apart, PathDisk};
use crate::guard_laws::lemma_first_missing;
use crate::json::{
    current_json_hash, desired_json_hash, json_object, merge_members, reads_as_written, rendered,
    JsonFault,
};
use crate::path::same_path;
use crate::recovery::FileView;
use crate::recovery_run::HostStepView;

verus! {

/// What an install of a whole file leaves on a disk. A preview leaves it as it is.
/// Otherwise the destination holds what was asked for: the content itself, or, where
/// nothing was written, a file under the library's care whose content has the same
/// identity. What stood there and was not under its care is beside it, as it was; every
/// other path holds what it held.
pub proof fn law_install_puts_the_content_in_place(
    disk: PathDisk,
    destination: Seq<char>,
    content: Seq<u8>,
    is_managed: bool,
    dry_run: bool,
    force: bool,
    exists: bool,
    current: Option<Seq<u8>>,
    privileged: bool,
    mode: Option<u32>,
    other: Seq<char>,
)
    ensures
        ({
            let decision = copy_install(content, is_managed, dry_run, force, exists, current);
            let steps = copy_install_step_views(decision, destination, content, privileged);
            let after = after_steps(disk, steps, mode);
            let backup = destination + ".shine-backup"@;
            &&& dry_run <==> decision == CopyInstall::Preview
            &&& dry_run ==> after == disk
            &&& !dry_run && steps.len() > 0 ==> held_at(after, destination) == (
            FileView::Regular { content, mode })
            &&& !dry_run && steps.len() == 0 ==> {
                &&& decision == CopyInstall::AlreadyManaged
                &&& exists && is_managed && !force
                &&& current is Some && content_hash(current->0) == content_hash(content)
                &&& after == disk
            }
            &&& !dry_run && exists && is_managed && !force && current is Some && content_hash(
                current->0,
            ) == content_hash(content) ==> decision == CopyInstall::AlreadyManaged
            &&& !dry_run && exists && !is_managed ==> held_at(after, backup) == held_at(
                disk,
                destination,
            )
            &&& decision == (CopyInstall::Write { back_up: true }) <==> !dry_run && exists
                && !is_managed
            &&& !same_path(other, destination) && (exists && !is_managed ==> !same_path(
                other,
                backup,
            )) ==> held_at(after, other) == held_at(disk, other)
            &&& forall|i: int|
                0 <= i < steps.len() ==> match #[trigger] steps[i] {
                    HostStepView::MoveFile { privileged: own, .. } => own == privileged,
                    HostStepView::WriteFile { privileged: own, .. } => own == privileged,
                    _ => false,
                }
        }),
{
    let decision = copy_install(content, is_managed, dry_run, force, exists, current);
    let steps = copy_install_step_views(decision, destination, content, privileged);
    reveal_strlit(".shine-backup");
    reveal_strlit(".shine-rollback");
    assert(".shine-backup"@[7] == 'b' && ".shine-rollback"@[7] == 'r');
    law_suffixed_paths_are_apart(destination, ".shine-backup"@, ".shine-rollback"@);
    lemma_steps(disk, steps, mode);
}

proof fn lemma_steps(disk: PathDisk, steps: Seq<HostStepView>, mode: Option<u32>)
    ensures
        steps.len() == 0 ==> after_steps(disk, steps, mode) == disk,
        steps.len() == 1 ==> after_steps(disk, steps, mode) == after_step(disk, steps[0], mode),
        steps.len() == 2 ==> after_steps(disk, steps, mode) == after_step(
            after_step(disk, steps[0], mode),
            steps[1],
            mode,
        ),
{
    if 1 <= steps.len() <= 2 {
        let first = steps.take(1);
        assert(first.drop_last() =~= Seq::<HostStepView>::empty());
        assert(after_steps(disk, Seq::<HostStepView>::empty(), mode) == disk);
        assert(after_steps(disk, first, mode) == after_step(disk, steps[0], mode));
        if steps.len() == 1 {
            assert(first =~= steps);
        } else {
            assert(steps.drop_last() =~= first);
        }
    }
}

/// What an uninstall of a whole file decides. A preview decides nothing; a file that is
/// gone is not found; a file that is as its receipt says is removed; one that a user
/// changed is removed only by force, and then that is said.
pub proof fn law_uninstall_removes_what_was_installed(
    receipt_hash: u64,
    dry_run: bool,
    force: bool,
    current: Option<Seq<u8>>,
)
    ensures
        ({
            let decision = copy_uninstall(receipt_hash, dry_run, force, current);
            &&& decision == CopyUninstall::Preview <==> dry_run
            &&& !dry_run ==> {
                &&& decision == CopyUninstall::NotFound <==> current is None
                &&& decision == (CopyUninstall::Remove { forced: false }) <==> current is Some
                    && content_hash(current->0) == receipt_hash
                &&& decision == (CopyUninstall::Remove { forced: true }) <==> current is Some
                    && content_hash(current->0) != receipt_hash && force
                &&& decision == CopyUninstall::UserModified <==> current is Some && content_hash(
                    current->0,
                ) != receipt_hash && !force
            }
        }),
{
}

/// Installing a whole file and removing it again, without force, gives back what stood
/// there: what was not under the library's care returns from beside it, and nothing is
/// left where nothing stood.
pub proof fn law_uninstall_undoes_install(
    disk: PathDisk,
    destination: Seq<char>,
    content: Seq<u8>,
    exists: bool,
    privileged: bool,
    mode: Option<u32>,
)
    requires
        exists <==> !(held_at(disk, destination) is Missing),
        held_at(disk, destination + ".shine-backup"@) is Missing,
    ensures
        ({
            let backup = destination + ".shine-backup"@;
            let installed = copy_install(content, false, false, false, exists, None);
            let steps = copy_install_step_views(installed, destination, content, privileged);
            let between = after_steps(disk, steps, mode);
            let found = held_at(between, destination);
            let removed = copy_uninstall(
                content_hash(content),
                false,
                false,
                Some(found->content),
            );
            let cleared = after_step(
                between,
                HostStepView::RemoveFile { path: destination, privileged },
                mode,
            );
            let returned = after_step(
                cleared,
                HostStepView::MoveFile { from: backup, to: destination, privileged },
                mode,
            );
            &&& found is Regular
            &&& removed == (CopyUninstall::Remove { forced: false })
            &&& exists ==> held_at(returned, destination) == held_at(disk, destination)
                && held_at(returned, backup) is Missing
            &&& !exists ==> held_at(cleared, destination) is Missing && held_at(cleared, backup)
                is Missing
        }),
{
    let installed = copy_install(content, false, false, false, exists, None);
    let steps = copy_install_step_views(installed, destination, content, privileged);
    reveal_strlit(".shine-backup");
    reveal_strlit(".shine-rollback");
    assert(".shine-backup"@[7] == 'b' && ".shine-rollback"@[7] == 'r');
    law_suffixed_paths_are_apart(destination, ".shine-backup"@, ".shine-rollback"@);
    lemma_steps(disk, steps, mode);
}

/// Whether an object has every one of the keys.
pub open spec fn has_each(text: Seq<u8>, keys: Seq<Seq<char>>) -> bool {
    json_object(text) is Some && forall|i: int|
        0 <= i < keys.len() ==> json_object(text)->0.contains_key(#[trigger] keys[i])
}

/// Whether an object has none of the keys.
pub open spec fn has_none(text: Seq<u8>, keys: Seq<Seq<char>>) -> bool {
    json_object(text) is Some && forall|i: int|
        0 <= i < keys.len() ==> !json_object(text)->0.contains_key(#[trigger] keys[i])
}

/// The members of an object under the keys, by themselves.
pub open spec fn under_keys(text: Seq<u8>, keys: Seq<Seq<char>>) -> Map<Seq<char>, Seq<u8>> {
    json_object(text)->0.restrict(keys.to_set())
}

/// The identity of the keys of an object is that of an object with nothing else: two
/// texts whose members under the keys are the same have the same identity, whatever else
/// they hold, and a source has the identity that it has once installed. Only a source
/// with every key has one; an object with none of them has none.
pub proof fn law_identity_of_keys(text: Seq<u8>, other: Seq<u8>, keys: Seq<Seq<char>>)
    ensures
        current_json_hash(text, keys) == match json_object(text) {
            None => Err::<Option<u64>, JsonFault>(JsonFault::DestinationNotObject),
            Some(_) => if has_none(text, keys) {
                Ok(None)
            } else {
                match rendered(under_keys(text, keys)) {
                    Some(own) => Ok(Some(content_hash(own))),
                    None => Err(JsonFault::NotSerializable),
                }
            },
        },
        desired_json_hash(text, keys) is Ok <==> has_each(text, keys) && rendered(
            under_keys(text, keys),
        ) is Some,
        desired_json_hash(text, keys) is Ok && keys.len() > 0 ==> current_json_hash(text, keys)
            == Ok::<Option<u64>, JsonFault>(Some(desired_json_hash(text, keys)->Ok_0)),
        has_each(text, keys) && has_each(other, keys) && under_keys(text, keys) == under_keys(
            other,
            keys,
        ) ==> desired_json_hash(text, keys) == desired_json_hash(other, keys),
{
    if json_object(text) is Some {
        lemma_first_missing(json_object(text)->0, keys);
    }
    if json_object(other) is Some {
        lemma_first_missing(json_object(other)->0, keys);
    }
    if desired_json_hash(text, keys) is Ok && keys.len() > 0 {
        assert(json_object(text)->0.contains_key(keys[0]));
    }
}

/// What an install of keys leaves. A preview decides nothing. Otherwise nothing is
/// written exactly where an object stands there whose keys already are those of the
/// source; what is written has the keys of the source and every other member that stood
/// there, and is reported under the identity of the source. It fails only where the
/// source lacks a key, where what stands there is no object, or where an object cannot be
/// written.
pub proof fn law_install_puts_the_keys_in_place(
    source: Seq<u8>,
    keys: Seq<Seq<char>>,
    dry_run: bool,
    existing: Option<Seq<u8>>,
    name: Seq<char>,
)
    ensures
        ({
            let decision = json_install(source, keys, dry_run, existing);
            let alike = existing is Some && current_json_hash(existing->0, keys) == Ok::<
                Option<u64>,
                JsonFault,
            >(Some(desired_json_hash(source, keys)->Ok_0));
            let readable = existing is Some ==> json_object(existing->0) is Some;
            &&& dry_run <==> decision is Ok && decision->Ok_0 is Preview
            &&& !dry_run && decision is Ok ==> {
                &&& has_each(source, keys)
                &&& readable
                &&& decision->Ok_0 is AlreadyManaged <==> alike
                &&& match decision->Ok_0 {
                    JsonInstallView::Write { content, hash } => {
                        &&& rendered(under_keys(source, keys)) is Some
                        &&& hash == content_hash(rendered(under_keys(source, keys))->0)
                        &&& reads_as_written(merge_members(existing, source, keys)->Ok_0) ==> {
                            let object = json_object(content);
                            &&& object is Some
                            &&& keys.contains(name) ==> object->0.contains_key(name)
                                && object->0[name] == json_object(source)->0[name]
                            &&& !keys.contains(name) ==> match existing {
                                Some(text) => object->0.contains_key(name) == json_object(
                                    text,
                                )->0.contains_key(name) && (object->0.contains_key(name)
                                    ==> object->0[name] == json_object(text)->0[name]),
                                None => !object->0.contains_key(name),
                            }
                        }
                    },
                    _ => true,
                }
            }
            &&& !dry_run && has_each(source, keys) && rendered(under_keys(source, keys)) is Some
                && readable && (existing is Some ==> current_json_hash(existing->0, keys) is Ok)
                && (alike || rendered(merge_members(existing, source, keys)->Ok_0) is Some)
                ==> decision is Ok
        }),
{
    law_identity_of_keys(source, source, keys);
    if let Some(text) = existing {
        law_identity_of_keys(text, source, keys);
    }
    if keys.contains(name) && has_each(source, keys) {
        let i = choose|i: int| 0 <= i < keys.len() && keys[i] == name;
        assert(json_object(source)->0.contains_key(keys[i]));
        assert(keys.to_set().contains(name));
    }
    if json_object(source) is Some {
        lemma_first_missing(json_object(source)->0, keys);
    }
}

/// What an uninstall of keys does. Keys that are gone are not found; keys that are as the
/// receipt says are taken out; keys that a user changed are taken out only by force, and
/// then that is said. Every other member stays.
pub proof fn law_uninstall_takes_the_keys_out(
    receipt_hash: u64,
    keys: Seq<Seq<char>>,
    dry_run: bool,
    force: bool,
    existing: Option<Seq<u8>>,
    name: Seq<char>,
)
    ensures
        ({
            let decision = json_uninstall(receipt_hash, keys, dry_run, force, existing);
            let text = existing->0;
            let found = content_hash(rendered(under_keys(text, keys))->0);
            &&& dry_run <==> decision is Ok && decision->Ok_0 is Preview
            &&& !dry_run && existing is None ==> decision is Ok && decision->Ok_0 is NotFound
            &&& !dry_run && existing is Some && has_none(text, keys) ==> decision is Ok
                && decision->Ok_0 is NotFound
            &&& !dry_run && existing is Some && json_object(text) is None ==> decision is Err
            &&& !dry_run && decision is Ok && existing is Some && !has_none(text, keys) ==> {
                &&& rendered(under_keys(text, keys)) is Some
                &&& decision->Ok_0 is UserModified <==> found != receipt_hash && !force
                &&& decision->Ok_0 is Write <==> found == receipt_hash || force
                &&& match decision->Ok_0 {
                    JsonUninstallView::Write { content, forced } => {
                        &&& forced <==> found != receipt_hash
                        &&& reads_as_written(json_object(text)->0.remove_keys(keys.to_set())) ==> {
                            let object = json_object(content);
                            &&& object is Some
                            &&& object->0.contains_key(name) <==> json_object(
                                text,
                            )->0.contains_key(name) && !keys.contains(name)
                            &&& object->0.contains_key(name) ==> object->0[name] == json_object(
                                text,
                            )->0[name]
                        }
                    },
                    _ => true,
                }
            }
            &&& !dry_run && existing is Some && json_object(text) is Some && !has_none(text, keys)
                && rendered(under_keys(text, keys)) is Some && rendered(
                json_object(text)->0.remove_keys(keys.to_set()),
            ) is Some ==> decision is Ok
        }),
{
    if existing is Some {
        law_identity_of_keys(existing->0, existing->0, keys);
        assert(keys.to_set().contains(name) <==> keys.contains(name));
    }
}

/// What an upgrade decides about an installed file. Something at a new place is never
/// written over; what a user changed is kept; nothing is done only where the very content
/// that is wanted stands where it is wanted; in every other case, a missing file among
/// them, the content is installed, at the place where it belongs.
pub proof fn law_upgrade_brings_the_content_in_place(
    receipt_hash: u64,
    desired_hash: u64,
    current: Option<u64>,
    relocated: bool,
    occupied: bool,
)
    ensures
        ({
            let decision = upgrade_decision(
                receipt_hash,
                desired_hash,
                current,
                relocated,
                occupied,
            );
            let blocked = relocated && occupied;
            let changed = current is Some && current->0 != receipt_hash;
            &&& decision == UpgradeDecision::Occupied <==> blocked
            &&& decision == UpgradeDecision::UserModified <==> !blocked && changed
            &&& decision == UpgradeDecision::Unchanged ==> !relocated && current == Some(
                desired_hash,
            )
            &&& !relocated && !changed && current == Some(desired_hash) ==> decision
                == UpgradeDecision::Unchanged
            &&& current is None && !blocked ==> decision == (UpgradeDecision::Install { relocated })
            &&& !blocked && !changed && desired_hash != receipt_hash ==> decision == (
            UpgradeDecision::Install { relocated })
            &&& !blocked && !changed && relocated ==> decision == (UpgradeDecision::Install {
                relocated: true,
            })
            &&& decision is Install ==> decision == (UpgradeDecision::Install { relocated })
        }),
{
}

/// What a refresh decides about a generated file: nothing is done only where the very
/// content that was generated stands there; what a user changed is kept unless it is
/// forced; in every other case, a missing file among them, the content is installed.
pub proof fn law_refresh_brings_the_content_in_place(
    receipt_hash: u64,
    desired_hash: u64,
    current: Option<u64>,
    force: bool,
)
    ensures
        ({
            let decision = refresh_decision(receipt_hash, desired_hash, current, force);
            let changed = current is Some && current->0 != receipt_hash;
            &&& decision == RefreshDecision::Unchanged ==> current == Some(desired_hash)
            &&& !changed && current == Some(desired_hash) ==> decision == RefreshDecision::Unchanged
            &&& decision == RefreshDecision::UserModified <==> changed && !force
            &&& current is None ==> decision == RefreshDecision::Install
            &&& changed && force ==> decision == RefreshDecision::Install
            &&& !changed && desired_hash != receipt_hash ==> decision == RefreshDecision::Install
        }),
{
}

/// The identity of what would be installed, and of what is: the whole content for a
/// whole file, the members under the keys for keys. A content has, once installed, the
/// identity that was wanted.
pub proof fn law_installed_content_has_the_wanted_identity(
    keys: Option<Seq<Seq<char>>>,
    content: Seq<u8>,
)
    ensures
        keys is None ==> desired_hash_of(keys, content) == Ok::<u64, JsonFault>(
            content_hash(content),
        ) && installed_hash_of(keys, content) == Ok::<Option<u64>, JsonFault>(
            Some(content_hash(content)),
        ),
        keys is Some ==> installed_hash_of(keys, content) == current_json_hash(content, keys->0)
            && desired_hash_of(keys, content) == desired_json_hash(content, keys->0),
        desired_hash_of(keys, content) is Ok && (keys is Some ==> keys->0.len() > 0)
            ==> installed_hash_of(keys, content) == Ok::<Option<u64>, JsonFault>(
            Some(desired_hash_of(keys, content)->Ok_0),
        ),
{
    if let Some(keys) = keys {
        law_identity_of_keys(content, content, keys);
    }
}

} // verus!
