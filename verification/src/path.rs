//! Paths as text.
//!
//! Two paths are the same when they have the same components: repeated separators, a
//! trailing separator and a `.` anywhere but at the very beginning make no difference.
//! On Windows `\` separates names as `/` does, and a path starts at a drive or a share.
//! An absolute path shows by itself how it is written; for a relative one the system
//! says it.

use vstd::prelude::*;
use vstd::string::*;

use crate::lexical::{replace_char, replaced, upper, upper_char};
use crate::text::{
    char_code, char_lists, chars_of, copy_texts, joined_by, pieces, same_texts, split_chars,
    string_of, texts,
};

verus! {

/// How the paths of a system are written.
#[derive(Clone, Copy, Debug, PartialEq, Eq, Structural)]
pub enum PathStyle {
    Unix,
    Windows,
}

/// The component that stands for the root of an absolute path.
pub open spec fn root_component() -> Seq<char> {
    seq!['/']
}

/// Whether `path` starts at the root.
pub open spec fn is_rooted(path: Seq<char>) -> bool {
    path.len() > 0 && path[0] == '/'
}

/// Whether a character is an ASCII letter.
pub open spec fn is_letter(c: char) -> bool {
    65 <= c as int <= 90 || 97 <= c as int <= 122
}

/// Whether a character separates names on Windows.
pub open spec fn is_slash(c: char) -> bool {
    c == '/' || c == '\\'
}

/// Whether `path` names a drive.
pub open spec fn has_drive(path: Seq<char>) -> bool {
    path.len() >= 2 && is_letter(path[0]) && path[1] == ':'
}

/// Whether `path` starts at the root of a drive.
pub open spec fn starts_at_drive_root(path: Seq<char>) -> bool {
    has_drive(path) && path.len() >= 3 && is_slash(path[2])
}

/// Whether `path` starts at a share.
pub open spec fn starts_at_share(path: Seq<char>) -> bool {
    path.len() >= 2 && is_slash(path[0]) && path[1] == path[0]
}

/// Whether `path` starts at the root of its system: on Windows at a drive or a share.
pub open spec fn is_absolute(path: Seq<char>, style: PathStyle) -> bool {
    match style {
        PathStyle::Unix => is_rooted(path),
        PathStyle::Windows => starts_at_drive_root(path) || starts_at_share(path),
    }
}

/// How an absolute path is written: as on Windows where it starts at a drive or at a
/// share that is written with `\\`.
pub open spec fn style_of(path: Seq<char>) -> PathStyle {
    if starts_at_drive_root(path) || (starts_at_share(path) && path[0] == '\\') {
        PathStyle::Windows
    } else {
        PathStyle::Unix
    }
}

/// Whether a piece between separators is a component: not empty, and a `.` only
/// where it opens a relative path.
pub open spec fn keeps_name(name: Seq<char>, rooted: bool, index: int) -> bool {
    name.len() > 0 && (name == seq!['.'] ==> !rooted && index == 0)
}

/// The pieces that are components, in order.
pub open spec fn kept_names(list: Seq<Seq<char>>, rooted: bool) -> Seq<Seq<char>>
    decreases list.len(),
{
    if list.len() == 0 {
        Seq::empty()
    } else {
        let before = kept_names(list.drop_last(), rooted);
        if keeps_name(list.last(), rooted, list.len() - 1) {
            before.push(list.last())
        } else {
            before
        }
    }
}

/// What follows the drive of a path, with `/` between the names.
pub open spec fn behind_drive(path: Seq<char>) -> Seq<char> {
    replaced(
        if has_drive(path) {
            path.skip(2)
        } else {
            path
        },
        '\\',
        '/',
    )
}

/// The components above the names of a path: its drive in upper case, its share, its
/// root.
pub open spec fn path_head(path: Seq<char>, style: PathStyle) -> Seq<Seq<char>> {
    match style {
        PathStyle::Unix => if is_rooted(path) {
            seq![root_component()]
        } else {
            Seq::empty()
        },
        PathStyle::Windows => if starts_at_share(path) {
            seq![seq!['\\', '\\']]
        } else if has_drive(path) && is_rooted(behind_drive(path)) {
            seq![seq![upper_char(path[0]), ':'], seq!['\\']]
        } else if has_drive(path) {
            seq![seq![upper_char(path[0]), ':']]
        } else if is_rooted(behind_drive(path)) {
            seq![seq!['\\']]
        } else {
            Seq::empty()
        },
    }
}

/// The names of a path, in order.
pub open spec fn path_names(path: Seq<char>, style: PathStyle) -> Seq<Seq<char>> {
    match style {
        PathStyle::Unix => kept_names(pieces(path, '/'), is_rooted(path)),
        PathStyle::Windows => kept_names(
            pieces(behind_drive(path), '/'),
            is_rooted(behind_drive(path)),
        ),
    }
}

/// The components of a path on a system, what stands above its names first.
pub open spec fn path_parts(path: Seq<char>, style: PathStyle) -> Seq<Seq<char>> {
    path_head(path, style) + path_names(path, style)
}

/// The components of `path` as it is written.
pub open spec fn path_components(path: Seq<char>) -> Seq<Seq<char>> {
    path_parts(path, style_of(path))
}

/// Whether two paths have the same components on a system.
pub open spec fn same_path_on(left: Seq<char>, right: Seq<char>, style: PathStyle) -> bool {
    path_parts(left, style) == path_parts(right, style)
}

/// Whether two paths have the same components.
pub open spec fn same_path(left: Seq<char>, right: Seq<char>) -> bool {
    path_components(left) == path_components(right)
}

/// The place of the first separator at or behind a place; the end where there is none.
pub open spec fn slash_at(path: Seq<char>, from: int) -> int
    decreases path.len() - from,
{
    if from < 0 || from >= path.len() {
        path.len() as int
    } else if is_slash(path[from]) {
        from
    } else {
        slash_at(path, from + 1)
    }
}

/// The drive or the share that a path stands on.
pub open spec fn volume_of(path: Seq<char>) -> Seq<char> {
    if has_drive(path) {
        path.take(2)
    } else {
        path.take(slash_at(path, slash_at(path, 2) + 1))
    }
}

/// `rest` placed under `base`; an absolute `rest` stands alone. On Windows a `rest`
/// that starts at the root stays on the drive or share of `base`.
pub open spec fn path_join(base: Seq<char>, rest: Seq<char>) -> Seq<char> {
    match style_of(base) {
        PathStyle::Unix => if is_rooted(rest) {
            rest
        } else if base.len() > 0 && base.last() != '/' {
            base + seq!['/'] + rest
        } else {
            base + rest
        },
        PathStyle::Windows => if has_drive(rest) || starts_at_share(rest) {
            rest
        } else if rest.len() > 0 && is_slash(rest[0]) {
            volume_of(base) + rest
        } else if !is_slash(base.last()) {
            base + seq!['\\'] + rest
        } else {
            base + rest
        },
    }
}

/// The components written with one separator between them.
pub open spec fn logical_text(components: Seq<Seq<char>>) -> Seq<char> {
    joined_by(components, seq!['/'])
}

/// Whether `path` lies at or under `root`, component by component.
pub open spec fn is_under(path: Seq<char>, root: Seq<char>) -> bool {
    path_components(root).is_prefix_of(path_components(path))
}

/// The components of `path` below `root`.
pub open spec fn components_below(path: Seq<char>, root: Seq<char>) -> Seq<Seq<char>> {
    path_components(path).skip(path_components(root).len() as int)
}

fn letter(c: char) -> (result: bool)
    ensures
        result == is_letter(c),
{
    let code: u32 = char_code(c);
    (65 <= code && code <= 90) || (97 <= code && code <= 122)
}

fn slash(c: char) -> (result: bool)
    ensures
        result == is_slash(c),
{
    c == '/' || c == '\\'
}

fn drive_first(chars: &Vec<char>) -> (result: bool)
    ensures
        result == has_drive(chars@),
{
    chars.len() >= 2 && letter(chars[0]) && chars[1] == ':'
}

fn share_first(chars: &Vec<char>) -> (result: bool)
    ensures
        result == starts_at_share(chars@),
{
    chars.len() >= 2 && slash(chars[0]) && chars[1] == chars[0]
}

fn drive_root_first(chars: &Vec<char>) -> (result: bool)
    ensures
        result == starts_at_drive_root(chars@),
{
    drive_first(chars) && chars.len() >= 3 && slash(chars[2])
}

/// Whether the path is absolute on the system.
pub fn absolute(path: &str, style: PathStyle) -> (result: bool)
    ensures
        result == is_absolute(path@, style),
{
    let chars = chars_of(path);
    match style {
        PathStyle::Unix => chars.len() > 0 && chars[0] == '/',
        PathStyle::Windows => drive_root_first(&chars) || share_first(&chars),
    }
}

/// How the absolute path is written.
pub fn written_style(path: &str) -> (style: PathStyle)
    ensures
        style == style_of(path@),
{
    let chars = chars_of(path);
    if drive_root_first(&chars) || (share_first(&chars) && chars[0] == '\\') {
        PathStyle::Windows
    } else {
        PathStyle::Unix
    }
}

fn keep_names(path: &str) -> (list: Vec<String>)
    ensures
        texts(list@) == kept_names(pieces(path@, '/'), is_rooted(path@)),
{
    let chars = chars_of(path);
    let rooted = chars.len() > 0 && chars[0] == '/';
    let parts = split_chars(chars.as_slice(), '/');
    let mut list: Vec<String> = Vec::new();
    proof {
        assert(char_lists(parts@).take(0) =~= Seq::<Seq<char>>::empty());
        assert(texts(list@) =~= kept_names(char_lists(parts@).take(0), rooted));
    }
    let mut i: usize = 0;
    while i < parts.len()
        invariant
            i <= parts.len(),
            rooted == is_rooted(path@),
            texts(list@) == kept_names(char_lists(parts@).take(i as int), rooted),
        decreases parts.len() - i,
    {
        let part = &parts[i];
        let ghost before = list@;
        let ghost prefix = char_lists(parts@).take(i as int + 1);
        let dot = part.len() == 1 && part[0] == '.';
        proof {
            assert(prefix.drop_last() =~= char_lists(parts@).take(i as int));
            assert(prefix.last() == part@);
            assert(dot == (part@ == seq!['.'])) by {
                if dot {
                    assert(part@ =~= seq!['.']);
                }
            }
        }
        if part.len() > 0 && (!dot || (!rooted && i == 0)) {
            list.push(string_of(part.as_slice()));
            proof {
                assert(texts(list@) =~= texts(before).push(part@));
                assert(texts(list@) =~= kept_names(prefix, rooted));
            }
        }
        i += 1;
    }
    proof {
        assert(char_lists(parts@).take(parts@.len() as int) =~= char_lists(parts@));
    }
    list
}

fn text_behind_drive(path: &str) -> (rest: String)
    ensures
        rest@ == behind_drive(path@),
{
    let chars = chars_of(path);
    if drive_first(&chars) {
        let rest = vstd::slice::slice_subrange(chars.as_slice(), 2, chars.len());
        proof {
            assert(rest@ =~= path@.skip(2));
        }
        replace_char(string_of(rest).as_str(), '\\', '/')
    } else {
        replace_char(path, '\\', '/')
    }
}

/// The names of the path on the system.
pub fn names(path: &str, style: PathStyle) -> (list: Vec<String>)
    ensures
        texts(list@) == path_names(path@, style),
{
    match style {
        PathStyle::Unix => keep_names(path),
        PathStyle::Windows => keep_names(text_behind_drive(path).as_str()),
    }
}

fn head(path: &str, style: PathStyle) -> (list: Vec<String>)
    ensures
        texts(list@) == path_head(path@, style),
{
    let chars = chars_of(path);
    let mut list: Vec<String> = Vec::new();
    match style {
        PathStyle::Unix => {
            if chars.len() > 0 && chars[0] == '/' {
                let root: [char; 1] = ['/'];
                list.push(string_of(root.as_slice()));
                proof {
                    assert(list@[0]@ =~= root_component());
                }
            }
        },
        PathStyle::Windows => {
            if share_first(&chars) {
                let share: [char; 2] = ['\\', '\\'];
                list.push(string_of(share.as_slice()));
                proof {
                    assert(list@[0]@ =~= seq!['\\', '\\']);
                    assert(texts(list@) =~= path_head(path@, style));
                }
                return list;
            }
            if drive_first(&chars) {
                let drive: [char; 2] = [upper(chars[0]), ':'];
                list.push(string_of(drive.as_slice()));
                proof {
                    assert(list@[0]@ =~= seq![upper_char(path@[0]), ':']);
                }
            }
            let rest = chars_of(text_behind_drive(path).as_str());
            if rest.len() > 0 && rest[0] == '/' {
                let root: [char; 1] = ['\\'];
                list.push(string_of(root.as_slice()));
                proof {
                    assert(list@.last()@ =~= seq!['\\']);
                }
            }
        },
    }
    proof {
        assert(texts(list@) =~= path_head(path@, style));
    }
    list
}

/// Splits the path into its components on the system.
pub fn parts(path: &str, style: PathStyle) -> (list: Vec<String>)
    ensures
        texts(list@) == path_parts(path@, style),
{
    let mut list = head(path, style);
    let mut below = names(path, style);
    let ghost above = list@;
    let ghost under = below@;
    list.append(&mut below);
    proof {
        assert(list@ =~= above + under);
        assert(texts(list@) =~= texts(above) + texts(under));
    }
    list
}

/// Splits `path` into its components.
pub fn components(path: &str) -> (list: Vec<String>)
    ensures
        texts(list@) == path_components(path@),
{
    parts(path, written_style(path))
}

/// Whether the two paths are the same on the system.
pub fn paths_match_on(left: &str, right: &str, style: PathStyle) -> (same: bool)
    ensures
        same == same_path_on(left@, right@, style),
{
    let left_parts = parts(left, style);
    let right_parts = parts(right, style);
    same_texts(left_parts.as_slice(), right_parts.as_slice())
}

/// Whether the two paths are the same.
pub fn paths_match(left: &str, right: &str) -> (same: bool)
    ensures
        same == same_path(left@, right@),
{
    let left_parts = components(left);
    let right_parts = components(right);
    same_texts(left_parts.as_slice(), right_parts.as_slice())
}

fn next_slash(chars: &Vec<char>, from: usize) -> (at: usize)
    requires
        from <= chars@.len(),
    ensures
        at == slash_at(chars@, from as int),
        from <= at <= chars@.len(),
{
    let mut at: usize = from;
    while at < chars.len() && !slash(chars[at])
        invariant
            from <= at <= chars@.len(),
            slash_at(chars@, from as int) == slash_at(chars@, at as int),
        decreases chars@.len() - at,
    {
        at += 1;
    }
    at
}

fn volume(chars: &Vec<char>) -> (text: String)
    requires
        has_drive(chars@) || starts_at_share(chars@),
    ensures
        text@ == volume_of(chars@),
{
    if drive_first(chars) {
        let drive = vstd::slice::slice_subrange(chars.as_slice(), 0, 2);
        proof {
            assert(drive@ =~= volume_of(chars@));
        }
        return string_of(drive);
    }
    let server: usize = next_slash(chars, 2);
    let end: usize = if server < chars.len() {
        next_slash(chars, server + 1)
    } else {
        chars.len()
    };
    let share = vstd::slice::slice_subrange(chars.as_slice(), 0, end);
    proof {
        assert(end == slash_at(chars@, slash_at(chars@, 2) + 1));
        assert(share@ =~= volume_of(chars@));
    }
    string_of(share)
}

/// Places `rest` under `base`.
pub fn join(base: &str, rest: &str) -> (path: String)
    ensures
        path@ == path_join(base@, rest@),
{
    let rest_chars = chars_of(rest);
    let base_chars = chars_of(base);
    match written_style(base) {
        PathStyle::Unix => {
            if rest_chars.len() > 0 && rest_chars[0] == '/' {
                return rest.to_owned();
            }
            let mut path: String = base.to_owned();
            if base_chars.len() > 0 && base_chars[base_chars.len() - 1] != '/' {
                path.append("/");
                proof {
                    reveal_strlit("/");
                    assert("/"@ =~= seq!['/']);
                }
            }
            path.append(rest);
            path
        },
        PathStyle::Windows => {
            if drive_first(&rest_chars) || share_first(&rest_chars) {
                return rest.to_owned();
            }
            if rest_chars.len() > 0 && slash(rest_chars[0]) {
                let mut path: String = volume(&base_chars);
                path.append(rest);
                return path;
            }
            let mut path: String = base.to_owned();
            if !slash(base_chars[base_chars.len() - 1]) {
                path.append("\\");
                proof {
                    reveal_strlit("\\");
                    assert("\\"@ =~= seq!['\\']);
                }
            }
            path.append(rest);
            path
        },
    }
}

/// Joins the strings of `list`, with `mark` between them.
pub fn join_texts(list: &[String], mark: &str) -> (text: String)
    ensures
        text@ == joined_by(texts(list@), mark@),
{
    let mut text: String = String::new();
    let mut i: usize = 0;
    proof {
        assert(texts(list@).take(0) =~= Seq::<Seq<char>>::empty());
    }
    while i < list.len()
        invariant
            i <= list.len(),
            text@ == joined_by(texts(list@).take(i as int), mark@),
        decreases list.len() - i,
    {
        proof {
            let prefix = texts(list@).take(i as int + 1);
            assert(prefix.drop_last() =~= texts(list@).take(i as int));
            assert(prefix.last() == list@[i as int]@);
            assert(Seq::<char>::empty() + list@[i as int]@ =~= list@[i as int]@);
        }
        if i > 0 {
            text.append(mark);
        }
        text.append(list[i].as_str());
        i += 1;
    }
    proof {
        assert(texts(list@).take(list@.len() as int) =~= texts(list@));
    }
    text
}

/// The components of `path` on the system, with one `/` between them.
pub fn logical_path_on(path: &str, style: PathStyle) -> (text: String)
    ensures
        text@ == logical_text(path_parts(path@, style)),
{
    let list = parts(path, style);
    proof {
        reveal_strlit("/");
        assert("/"@ =~= seq!['/']);
    }
    join_texts(list.as_slice(), "/")
}

/// The components of `path` with one `/` between them.
pub fn logical_path(path: &str) -> (text: String)
    ensures
        text@ == logical_text(path_components(path@)),
{
    logical_path_on(path, written_style(path))
}

/// The components of `path` below `root`, where it lies at or under it.
pub fn strip_root(path: &str, root: &str) -> (rest: Option<Vec<String>>)
    ensures
        rest is Some <==> is_under(path@, root@),
        rest is Some ==> texts(rest->0@) == components_below(path@, root@),
{
    let parts = components(path);
    let base = components(root);
    if base.len() > parts.len() {
        return None;
    }
    let head = vstd::slice::slice_subrange(parts.as_slice(), 0, base.len());
    proof {
        assert(texts(head@) =~= path_components(path@).subrange(0, base@.len() as int));
    }
    if !same_texts(head, base.as_slice()) {
        return None;
    }
    let tail = vstd::slice::slice_subrange(parts.as_slice(), base.len(), parts.len());
    let rest = copy_texts(tail);
    proof {
        assert(texts(rest@) =~= components_below(path@, root@));
        assert(path_components(root@) =~= path_components(path@).subrange(0, base@.len() as int));
    }
    Some(rest)
}

/// The place of the last `.` of a name.
pub open spec fn last_dot(name: Seq<char>) -> Option<int>
    decreases name.len(),
{
    if name.len() == 0 {
        None
    } else if name.last() == '.' {
        Some(name.len() - 1)
    } else {
        last_dot(name.drop_last())
    }
}

/// What follows the last `.` of a path's last name; nothing where the name has no
/// `.`, or one only at its beginning.
pub open spec fn extension_of(path: Seq<char>) -> Option<Seq<char>> {
    let names = path_names(path, style_of(path));
    if names.len() == 0 || names.last() == seq!['.', '.'] {
        None
    } else {
        match last_dot(names.last()) {
            Some(dot) => if dot == 0 {
                None
            } else {
                Some(names.last().skip(dot + 1))
            },
            None => None,
        }
    }
}

proof fn lemma_last_dot(name: Seq<char>, dot: int)
    requires
        0 <= dot < name.len(),
        name[dot] == '.',
        forall|j: int| dot < j < name.len() ==> name[j] != '.',
    ensures
        last_dot(name) == Some(dot),
    decreases name.len(),
{
    if dot < name.len() - 1 {
        lemma_last_dot(name.drop_last(), dot);
    }
}

proof fn lemma_no_dot(name: Seq<char>)
    requires
        forall|j: int| 0 <= j < name.len() ==> name[j] != '.',
    ensures
        last_dot(name) is None,
    decreases name.len(),
{
    if name.len() > 0 {
        lemma_no_dot(name.drop_last());
    }
}

/// The extension of the path.
pub fn extension(path: &str) -> (result: Option<String>)
    ensures
        match result {
            Some(text) => extension_of(path@) == Some(text@),
            None => extension_of(path@) is None,
        },
{
    let parts = names(path, written_style(path));
    proof {
        assert(texts(parts@).len() == parts@.len());
    }
    if parts.len() == 0 {
        return None;
    }
    let name = chars_of(parts[parts.len() - 1].as_str());
    proof {
        assert(texts(parts@).last() == name@);
    }
    if name.len() == 2 && name[0] == '.' && name[1] == '.' {
        proof {
            assert(name@ =~= seq!['.', '.']);
        }
        return None;
    }
    let mut end: usize = name.len();
    while end > 0
        invariant
            end <= name.len(),
            texts(parts@) == path_names(path@, style_of(path@)),
            parts@.len() > 0,
            texts(parts@).last() == name@,
            name@ != seq!['.', '.'],
            forall|j: int| end <= j < name@.len() ==> name@[j] != '.',
        decreases end,
    {
        if name[end - 1] == '.' {
            proof {
                lemma_last_dot(name@, end as int - 1);
            }
            if end == 1 {
                return None;
            }
            let rest = vstd::slice::slice_subrange(name.as_slice(), end, name.len());
            proof {
                assert(rest@ =~= name@.skip(end as int));
            }
            return Some(string_of(rest));
        }
        end -= 1;
    }
    proof {
        lemma_no_dot(name@);
    }
    None
}

/// The last name of a path; none where it ends at the root or in `.` or `..`.
pub open spec fn file_name_of(path: Seq<char>) -> Option<Seq<char>> {
    let names = path_names(path, style_of(path));
    if names.len() == 0 || names.last() == seq!['.'] || names.last() == seq!['.', '.'] {
        None
    } else {
        Some(names.last())
    }
}

/// The last name of the path.
pub fn file_name(path: &str) -> (result: Option<String>)
    ensures
        match result {
            Some(text) => file_name_of(path@) == Some(text@),
            None => file_name_of(path@) is None,
        },
{
    let parts = names(path, written_style(path));
    proof {
        assert(texts(parts@).len() == parts@.len());
    }
    if parts.len() == 0 {
        return None;
    }
    let name = chars_of(parts[parts.len() - 1].as_str());
    proof {
        assert(texts(parts@).last() == name@);
    }
    let dot = name.len() == 1 && name[0] == '.';
    let dots = name.len() == 2 && name[0] == '.' && name[1] == '.';
    proof {
        if name.len() == 1 && name@[0] == '.' {
            assert(name@ =~= seq!['.']);
        }
        if dots {
            assert(name@ =~= seq!['.', '.']);
        }
    }
    if dot || dots {
        None
    } else {
        Some(parts[parts.len() - 1].clone())
    }
}

/// The shortest beginning of a path, of at least `from` characters, that has the
/// given components.
pub open spec fn shortest_beginning(
    path: Seq<char>,
    components: Seq<Seq<char>>,
    from: int,
) -> Option<Seq<char>>
    decreases path.len() + 1 - from,
{
    if from < 0 || from > path.len() {
        None
    } else if path_components(path.take(from)) == components {
        Some(path.take(from))
    } else {
        shortest_beginning(path, components, from + 1)
    }
}

/// The path without its last component; none where it has no component or ends
/// at the root.
pub open spec fn parent_of(path: Seq<char>) -> Option<Seq<char>> {
    if path_names(path, style_of(path)).len() == 0 {
        None
    } else {
        shortest_beginning(path, path_components(path).drop_last(), 0)
    }
}

/// The path without its last component.
pub fn parent(path: &str) -> (result: Option<String>)
    ensures
        match result {
            Some(text) => parent_of(path@) == Some(text@),
            None => parent_of(path@) is None,
        },
{
    let parts = components(path);
    proof {
        assert(texts(parts@).len() == parts@.len());
    }
    let own_names = names(path, written_style(path));
    proof {
        assert(texts(own_names@).len() == own_names@.len());
    }
    if own_names.len() == 0 {
        return None;
    }
    let last: usize = parts.len() - 1;
    let above = vstd::slice::slice_subrange(parts.as_slice(), 0, last);
    let ghost wanted = path_components(path@).drop_last();
    proof {
        assert(texts(above@) =~= wanted);
    }
    let chars = chars_of(path);
    let mut end: usize = 0;
    while end <= chars.len()
        invariant
            chars@ == path@,
            end <= chars.len() + 1,
            texts(above@) == wanted,
            shortest_beginning(path@, wanted, 0) == shortest_beginning(
                path@,
                wanted,
                end as int,
            ),
            parent_of(path@) == shortest_beginning(path@, wanted, 0),
        decreases chars.len() + 1 - end,
    {
        let head = string_of(vstd::slice::slice_subrange(chars.as_slice(), 0, end));
        proof {
            assert(head@ =~= path@.take(end as int));
        }
        let own = components(head.as_str());
        if same_texts(own.as_slice(), above) {
            return Some(head);
        }
        if end == chars.len() {
            proof {
                assert(shortest_beginning(path@, wanted, end as int + 1) is None);
            }
            return None;
        }
        end += 1;
    }
    None
}

/// A path is the same as itself, and sameness goes both ways and carries over.
pub proof fn law_same_path_is_equivalence(a: Seq<char>, b: Seq<char>, c: Seq<char>)
    ensures
        same_path(a, a),
        same_path(a, b) ==> same_path(b, a),
        same_path(a, b) && same_path(b, c) ==> same_path(a, c),
{
}

/// On a drive both separators are the same.
pub proof fn law_separators_make_no_difference(path: Seq<char>)
    requires
        starts_at_drive_root(path),
    ensures
        same_path(path, replaced(path, '\\', '/')),
        is_absolute(replaced(path, '\\', '/'), PathStyle::Windows),
{
    let other = replaced(path, '\\', '/');
    assert(other[0] == path[0] && other[1] == path[1]);
    assert(other[2] == '/');
    assert(behind_drive(other) =~= behind_drive(path));
}

/// A path put under an absolute one is absolute, unless it names a drive of its own
/// without its root.
pub proof fn law_join_stays_absolute(base: Seq<char>, rest: Seq<char>)
    requires
        is_absolute(base, style_of(base)),
        style_of(base) == PathStyle::Windows && has_drive(rest) ==> starts_at_drive_root(rest),
    ensures
        is_absolute(path_join(base, rest), style_of(base)),
{
    let path = path_join(base, rest);
    if style_of(base) == PathStyle::Windows && !has_drive(rest) && !starts_at_share(rest) {
        if rest.len() > 0 && is_slash(rest[0]) {
            if !has_drive(base) {
                lemma_slash_at(base, 2);
                lemma_slash_at(base, slash_at(base, 2) + 1);
                assert(path[0] == base[0] && path[1] == base[1]);
            } else {
                assert(path[0] == base[0] && path[1] == base[1] && path[2] == rest[0]);
            }
        } else {
            assert(path[0] == base[0] && path[1] == base[1]);
            if has_drive(base) {
                assert(path[2] == base[2]);
            }
        }
    } else if style_of(base) == PathStyle::Unix && !is_rooted(rest) {
        assert(path[0] == base[0]);
    }
}

proof fn lemma_slash_at(path: Seq<char>, from: int)
    requires
        0 <= from,
    ensures
        from <= path.len() ==> from <= slash_at(path, from) <= path.len(),
        from > path.len() ==> slash_at(path, from) == path.len(),
    decreases path.len() - from,
{
    if from < path.len() && !is_slash(path[from]) {
        lemma_slash_at(path, from + 1);
    }
}

} // verus!
