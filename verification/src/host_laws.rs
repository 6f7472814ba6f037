//! What holds of the host: which commands are found, which resolver entries are in order,
//! and which preset files are taken up.

use vstd::prelude::*;
use vstd::string::*;

use crate::bootstrap::{captured_file, listed, tree_step, TreeStep};
use crate::command_detection::{candidates_in, candidates_of, CandidateView};
use crate::context::RuntimePlatform;
use crate::host::FileKind;
use crate::path::{path_components, path_join};
use crate::presets::PresetSourceKind;
use crate::split_dns::{
    apply_text, is_exact_rule, quoted, removal_text, split_dns_route, PolicyRule, SplitDnsRequest,
};
use crate::text::texts;

verus! {

/// What was found is a command that a platform can run exactly where it is, or leads to, a
/// regular file that on a platform with modes may be executed by somebody.
pub proof fn law_commands_are_executable_files(found: CandidateView, platform: RuntimePlatform)
    ensures
        found.executable(platform) <==> {
            &&& found.resolved is Some
            &&& (found.resolved->0).1.kind == FileKind::File
            &&& platform == RuntimePlatform::Windows || (found.resolved->0).1.unix_mode is None || (
            found.resolved->0).1.unix_mode->0 & 0o111u32 != 0
        },
{
}

/// Where a command is looked for: in each directory under its own name, and on Windows
/// also under the names that a program may have there.
pub proof fn law_commands_are_looked_for_by_name(
    directories: Seq<Seq<char>>,
    command: Seq<char>,
    platform: RuntimePlatform,
    path: Seq<char>,
)
    ensures
        candidates_of(directories, command, platform).contains(path) <==> exists|i: int|
            0 <= i < directories.len() && {
                ||| path == path_join(#[trigger] directories[i], command)
                ||| platform == RuntimePlatform::Windows && {
                    ||| path == path_join(directories[i], command + ".exe"@)
                    ||| path == path_join(directories[i], command + ".cmd"@)
                    ||| path == path_join(directories[i], command + ".bat"@)
                    ||| path == path_join(directories[i], command + ".ps1"@)
                }
            },
    decreases directories.len(),
{
    if directories.len() > 0 {
        let head = directories.drop_last();
        law_commands_are_looked_for_by_name(head, command, platform, path);
        let before = candidates_of(head, command, platform);
        let own = candidates_in(directories.last(), command, platform);
        let all = before + own;
        let last = directories.len() - 1;
        assert(directories[last] == directories.last());
        assert(forall|i: int| 0 <= i < head.len() ==> head[i] == #[trigger] directories[i]);
        if all.contains(path) {
            let k = choose|k: int| 0 <= k < all.len() && all[k] == path;
            if k < before.len() {
                assert(before[k] == path);
            } else {
                assert(own[k - before.len()] == path);
            }
        }
        if before.contains(path) {
            let k = choose|k: int| 0 <= k < before.len() && before[k] == path;
            assert(all[k] == path);
            let i = choose|i: int|
                0 <= i < head.len() && {
                    ||| path == path_join(#[trigger] head[i], command)
                    ||| platform == RuntimePlatform::Windows && {
                        ||| path == path_join(head[i], command + ".exe"@)
                        ||| path == path_join(head[i], command + ".cmd"@)
                        ||| path == path_join(head[i], command + ".bat"@)
                        ||| path == path_join(head[i], command + ".ps1"@)
                    }
                };
            assert(directories[i] == head[i]);
        }
        assert(own[0] == path_join(directories.last(), command));
        assert(all[before.len() as int] == own[0]);
        if platform == RuntimePlatform::Windows {
            assert(all[before.len() as int + 1] == own[1]);
            assert(all[before.len() as int + 2] == own[2]);
            assert(all[before.len() as int + 3] == own[3]);
            assert(all[before.len() as int + 4] == own[4]);
        }
        if exists|i: int|
            0 <= i < directories.len() && {
                ||| path == path_join(#[trigger] directories[i], command)
                ||| platform == RuntimePlatform::Windows && {
                    ||| path == path_join(directories[i], command + ".exe"@)
                    ||| path == path_join(directories[i], command + ".cmd"@)
                    ||| path == path_join(directories[i], command + ".bat"@)
                    ||| path == path_join(directories[i], command + ".ps1"@)
                }
            } {
            let i = choose|i: int|
                0 <= i < directories.len() && {
                    ||| path == path_join(#[trigger] directories[i], command)
                    ||| platform == RuntimePlatform::Windows && {
                        ||| path == path_join(directories[i], command + ".exe"@)
                        ||| path == path_join(directories[i], command + ".cmd"@)
                        ||| path == path_join(directories[i], command + ".bat"@)
                        ||| path == path_join(directories[i], command + ".ps1"@)
                    }
                };
            if i < last {
                assert(head[i] == directories[i]);
            }
        }
    }
}

/// A command is looked for in an earlier directory first, and in each under its own name
/// first.
pub proof fn law_earlier_directories_come_first(
    directories: Seq<Seq<char>>,
    more: Seq<Seq<char>>,
    command: Seq<char>,
    platform: RuntimePlatform,
)
    ensures
        candidates_of(directories + more, command, platform) == candidates_of(
            directories,
            command,
            platform,
        ) + candidates_of(more, command, platform),
        directories.len() > 0 ==> candidates_of(directories, command, platform)[0] == path_join(
            directories[0],
            command,
        ),
    decreases directories.len() + more.len(),
{
    if more.len() > 0 {
        let head = more.drop_last();
        law_earlier_directories_come_first(directories, head, command, platform);
        assert((directories + more).drop_last() =~= directories + head);
        assert((directories + more).last() == more.last());
        assert(candidates_of(directories + more, command, platform) =~= candidates_of(
            directories,
            command,
            platform,
        ) + candidates_of(more, command, platform));
    } else {
        assert(directories + more =~= directories);
        assert(candidates_of(directories, command, platform) + candidates_of(
            more,
            command,
            platform,
        ) =~= candidates_of(directories, command, platform));
        if directories.len() > 0 {
            let head = directories.drop_last();
            law_earlier_directories_come_first(head, more, command, platform);
            if head.len() > 0 {
                assert(head[0] == directories[0]);
                lemma_some(head, command, platform);
            }
        }
    }
}

proof fn lemma_some(
    directories: Seq<Seq<char>>,
    command: Seq<char>,
    platform: RuntimePlatform,
)
    requires
        directories.len() > 0,
    ensures
        candidates_of(directories, command, platform).len() > 0,
{
}

/// Windows takes resolver entries as rules of its policy, every other system as a file,
/// after which only Ubuntu's resolver is restarted.
pub proof fn law_resolver_entries_go_where_the_system_reads_them(os_id: Seq<char>)
    ensures
        split_dns_route(os_id) is PolicyRule <==> os_id == "windows"@,
        split_dns_route(os_id) is File ==> split_dns_route(os_id)->restart_resolver == (os_id
            == "ubuntu"@),
{
}

/// The rules that are in order for two requests are in order for the same item, the same
/// names and the same servers; and one rule that was made for a request is in order for it,
/// while none and more than one are not.
pub proof fn law_rules_are_in_order_for_one_request(
    rules: Seq<PolicyRule>,
    left: SplitDnsRequest,
    right: SplitDnsRequest,
)
    ensures
        is_exact_rule(rules, left) && is_exact_rule(rules, right) ==> {
            &&& left.item_id@ == right.item_id@
            &&& left.resource@ == right.resource@
            &&& texts(left.servers@) == texts(right.servers@)
        },
        rules.len() != 1 ==> !is_exact_rule(rules, left),
        rules.len() == 1 && rules[0].comment@ == "Managed by shine: split-dns:"@ + left.item_id@
            && texts(rules[0].namespace@) == seq![left.resource@] && texts(rules[0].name_servers@)
            == texts(left.servers@) ==> is_exact_rule(rules, left),
{
    if is_exact_rule(rules, left) && is_exact_rule(rules, right) {
        let start = "Managed by shine: split-dns:"@;
        let (a, b) = (start + left.item_id@, start + right.item_id@);
        assert(a == b);
        assert(a.skip(start.len() as int) =~= left.item_id@);
        assert(b.skip(start.len() as int) =~= right.item_id@);
        assert(seq![left.resource@][0] == seq![right.resource@][0]);
    }
}

/// Quoting loses nothing: texts that are quoted alike are the same.
pub proof fn law_quoting_tells_texts_apart(left: Seq<char>, right: Seq<char>)
    requires
        quoted(left) == quoted(right),
    ensures
        left == right,
    decreases left.len() + right.len(),
{
    let (a, b) = (quoted(left), quoted(right));
    if left.len() > 0 {
        assert(a.len() > 0);
        assert(a.last() == left.last());
    }
    if right.len() > 0 {
        assert(b.len() > 0);
        assert(b.last() == right.last());
    }
    if left.len() > 0 && right.len() > 0 {
        let (x, y) = (left.drop_last(), right.drop_last());
        if left.last() == '\'' {
            assert(a.drop_last().drop_last() =~= quoted(x));
            assert(b.drop_last().drop_last() =~= quoted(y));
        } else {
            assert(a.drop_last() =~= quoted(x));
            assert(b.drop_last() =~= quoted(y));
        }
        law_quoting_tells_texts_apart(x, y);
        assert(left =~= x.push(left.last()));
        assert(right =~= y.push(right.last()));
    }
}

/// What sets the rule of an item first removes the rules that it had.
pub proof fn law_rules_are_set_in_place_of_earlier_ones(
    item_id: Seq<char>,
    namespace: Seq<char>,
    servers: Seq<Seq<char>>,
)
    ensures
        removal_text(item_id).is_prefix_of(apply_text(item_id, namespace, servers)),
        apply_text(item_id, namespace, servers).len() > removal_text(item_id).len(),
{
    reveal_strlit("; Add-DnsClientNrptRule -Namespace '");
    let all = apply_text(item_id, namespace, servers);
    let first = removal_text(item_id);
    assert(first =~= all.take(first.len() as int));
}

/// What a snapshot holds for a path: the file of the overlay where it has one, otherwise
/// that of the base, otherwise nothing; each with its own content and marked by where it
/// comes from.
pub proof fn law_snapshots_hold_the_overlay_over_the_base(
    source_kind: PresetSourceKind,
    base_root: Option<Seq<char>>,
    base: Seq<(String, Vec<u8>)>,
    overlay_root: Option<Seq<char>>,
    overlay: Seq<(String, Vec<u8>)>,
    path: Seq<char>,
)
    ensures
        ({
            let file = captured_file(source_kind, base_root, base, overlay_root, overlay, path);
            let over = listed(overlay, path);
            let under = listed(base, path);
            &&& file is Some <==> over is Some || under is Some
            &&& file is Some ==> file->0.path == path
            &&& over is Some ==> file->0.bytes == over->0 && file->0.is_overlay
                && file->0.source_kind == PresetSourceKind::External
            &&& over is None && under is Some ==> file->0.bytes == under->0
                && !file->0.is_overlay && file->0.source_kind == source_kind
            &&& file is Some ==> {
                let root = if over is Some {
                    overlay_root
                } else {
                    base_root
                };
                &&& file->0.physical_path is Some <==> root is Some
                &&& root is Some ==> file->0.physical_path->0 == path_join(root->0, path)
            }
        }),
{
}

/// A path is listed exactly where some entry of the list is for it, and then has the
/// content of the last.
pub proof fn law_the_last_listed_content_counts(
    files: Seq<(String, Vec<u8>)>,
    path: Seq<char>,
    at: int,
)
    ensures
        listed(files, path) is Some <==> exists|i: int|
            0 <= i < files.len() && (#[trigger] files[i]).0@ == path,
        0 <= at < files.len() && files[at].0@ == path && (forall|i: int|
            at < i < files.len() ==> (#[trigger] files[i]).0@ != path) ==> listed(files, path)
            == Some(files[at].1@),
    decreases files.len(),
{
    if files.len() > 0 {
        let head = files.drop_last();
        law_the_last_listed_content_counts(head, path, at);
        let last = files.len() - 1;
        assert(files[last] == files.last());
        assert(forall|i: int| 0 <= i < head.len() ==> head[i] == #[trigger] files[i]);
        if exists|i: int| 0 <= i < head.len() && (#[trigger] head[i]).0@ == path {
            let i = choose|i: int| 0 <= i < head.len() && (#[trigger] head[i]).0@ == path;
            assert(files[i].0@ == path);
        }
        if 0 <= at < last && files[at].0@ == path && (forall|i: int|
            at < i < files.len() ==> (#[trigger] files[i]).0@ != path) {
            assert(files[last].0@ != path);
            assert(head[at] == files[at]);
            assert forall|i: int| at < i < head.len() implies (#[trigger] head[i]).0@ != path by {
                assert(files[i].0@ != path);
            }
        }
    }
}

/// Files are read and directories are entered, but for those of installed dependencies;
/// links are followed nowhere.
pub proof fn law_trees_are_read_without_links(kind: FileKind, path: Seq<char>)
    ensures
        tree_step(kind, path) == TreeStep::Read <==> kind == FileKind::File,
        tree_step(kind, path) == TreeStep::Descend <==> kind == FileKind::Directory && !(
        path_components(path).len() > 0 && path_components(path).last() == "node_modules"@),
        kind == FileKind::Symlink ==> tree_step(kind, path) == TreeStep::Skip,
{
}

} // verus!
