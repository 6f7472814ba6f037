//! Making up the host that a fixture describes.

use vstd::prelude::*;
use vstd::string::*;
use vstd::utf8::encode_utf8;

use crate::app_dest::{has_parent, parent_name};
use crate::authoring::{
    author_home, author_shine, secret_views, synthetic_views, trust_views,
    PresetAuthoringSyntheticState, SecretVersion, SyntheticFile, SyntheticFileView,
    TrustCapabilityV1, TrustedCapability,
};
use crate::context::{env_pairs, set_env, EnvValue};
use crate::env::{is_env_key, validate_env_key};
use crate::fixture_types::{
    FixtureFault, FixtureFileV1, FixtureHostStateV1, FixturePathBaseV1, FixtureReceiptsV1,
    FixtureTrustV1,
};
use crate::lexical::{
    contains_char, contains_text, contains_white, has_white, is_blank, occurs, substitute,
    substituted, trimmed,
};
use crate::lint::{is_private_path, private_absolute_path};
use crate::path::{
    is_rooted, join, path_join, path_parts, paths_match, same_path, PathStyle,
};
use crate::plan::optional_text;
use crate::text::{
    chars_of, cut_at, list_contains, same_text, split_once, texts,
};

verus! {

/// How long a version of a secret may be.
pub const SECRET_VERSION_LIMIT: usize = 128;

/// How long a file or a receipt of a fixture may be.
pub const FIXTURE_DOCUMENT_LIMIT: usize = 65536;

/// The mode of a file.
pub const PLAIN_FILE_MODE: u32 = 0o100644;

/// The mode of a command.
pub const COMMAND_FILE_MODE: u32 = 0o100755;

/// The directory of data on the made-up host.
pub open spec fn author_data() -> Seq<char> {
    path_join(author_home(), ".local/share"@)
}

/// The directory of commands on the made-up host.
pub open spec fn author_bin() -> Seq<char> {
    path_join(author_shine(), "bin"@)
}

/// The directories of the made-up host.
struct AuthorDirectories {
    home: String,
    shine: String,
    data: String,
    bin: String,
}

impl AuthorDirectories {
    spec fn are_those(&self) -> bool {
        &&& self.home@ == author_home()
        &&& self.shine@ == author_shine()
        &&& self.data@ == author_data()
        &&& self.bin@ == author_bin()
    }

    fn new() -> (directories: AuthorDirectories)
        ensures
            directories.are_those(),
    {
        let home = "/shine-author/home".to_owned();
        let shine = join(home.as_str(), ".shine");
        let data = join(home.as_str(), ".local/share");
        let bin = join(shine.as_str(), "bin");
        AuthorDirectories { home, shine, data, bin }
    }
}

fn byte_count(text: &str) -> (count: usize)
    ensures
        count == encode_utf8(text@).len(),
{
    text.as_bytes().len()
}

/// What is wrong with the names of variables: the first that is no name, or that
/// occurs again.
pub open spec fn environment_fault(names: Seq<Seq<char>>) -> Option<FixtureFault>
    decreases names.len(),
{
    if names.len() == 0 {
        None
    } else {
        match environment_fault(names.drop_last()) {
            Some(fault) => Some(fault),
            None => if !is_env_key(names.last()) {
                Some(FixtureFault::EnvironmentInvalid)
            } else if names.drop_last().contains(names.last()) {
                Some(FixtureFault::EnvironmentDuplicate)
            } else {
                None
            },
        }
    }
}

/// The variables of the host: each is present, and has no value of its own.
pub open spec fn present_env(names: Seq<Seq<char>>) -> Seq<(Seq<char>, Seq<char>)> {
    names.map_values(|name: Seq<char>| (name, "<present>"@))
}

proof fn lemma_environment_fault_stays(names: Seq<Seq<char>>, count: int)
    requires
        0 <= count <= names.len(),
        environment_fault(names.take(count)) is Some,
    ensures
        environment_fault(names) == environment_fault(names.take(count)),
    decreases names.len() - count,
{
    if count == names.len() {
        assert(names.take(count) =~= names);
    } else {
        assert(names.take(count + 1).drop_last() =~= names.take(count));
        lemma_environment_fault_stays(names, count + 1);
    }
}

fn read_environment(names: &Vec<String>) -> (result: Result<Vec<EnvValue>, FixtureFault>)
    ensures
        match environment_fault(texts(names@)) {
            Some(fault) => result is Err && result->Err_0 == fault,
            None => result is Ok && env_pairs(result->Ok_0@) == present_env(texts(names@)),
        },
{
    let ghost all = texts(names@);
    let ghost pairs = present_env(all);
    let mut env: Vec<EnvValue> = Vec::new();
    let mut seen: Vec<String> = Vec::new();
    let mut i: usize = 0;
    proof {
        assert(all.take(0) =~= Seq::<Seq<char>>::empty());
        assert(texts(seen@) =~= all.take(0));
        assert(env_pairs(env@) =~= pairs.take(0));
    }
    while i < names.len()
        invariant
            i <= names.len(),
            all == texts(names@),
            pairs == present_env(all),
            texts(seen@) == all.take(i as int),
            env_pairs(env@) == pairs.take(i as int),
            environment_fault(all.take(i as int)) is None,
        decreases names.len() - i,
    {
        let name = &names[i];
        proof {
            assert(all.take(i as int + 1).drop_last() =~= all.take(i as int));
            assert(all.take(i as int + 1).last() == name@);
        }
        if !validate_env_key(name.as_str()) {
            proof {
                lemma_environment_fault_stays(all, i as int + 1);
            }
            return Err(FixtureFault::EnvironmentInvalid);
        }
        if list_contains(seen.as_slice(), name.as_str()) {
            proof {
                lemma_environment_fault_stays(all, i as int + 1);
            }
            return Err(FixtureFault::EnvironmentDuplicate);
        }
        crate::text::push_text(&mut seen, name.as_str());
        set_env(&mut env, name.as_str(), "<present>");
        proof {
            assert(all.take(i as int + 1) =~= all.take(i as int).push(name@));
            assert(pairs[i as int] == (name@, "<present>"@));
            assert(pairs.take(i as int + 1) =~= pairs.take(i as int).push(pairs[i as int]));
        }
        i += 1;
    }
    proof {
        assert(all.take(all.len() as int) =~= all);
        assert(pairs.take(pairs.len() as int) =~= pairs);
    }
    Ok(env)
}

/// What is wrong with one secret.
pub open spec fn secret_fault(secret: (Seq<char>, Seq<char>), names: Seq<Seq<char>>) -> Option<
    FixtureFault,
> {
    if !is_env_key(secret.0) || trimmed(secret.1).len() == 0 || encode_utf8(secret.1).len()
        > SECRET_VERSION_LIMIT {
        Some(FixtureFault::SecretInvalid)
    } else if names.contains(secret.0) {
        Some(FixtureFault::EnvironmentSecretConflict)
    } else {
        None
    }
}

/// What is wrong with the first secret that is not in order.
pub open spec fn secrets_fault(
    secrets: Seq<(Seq<char>, Seq<char>)>,
    names: Seq<Seq<char>>,
) -> Option<FixtureFault>
    decreases secrets.len(),
{
    if secrets.len() == 0 {
        None
    } else {
        match secrets_fault(secrets.drop_last(), names) {
            Some(fault) => Some(fault),
            None => secret_fault(secrets.last(), names),
        }
    }
}

proof fn lemma_secrets_fault_stays(
    secrets: Seq<(Seq<char>, Seq<char>)>,
    names: Seq<Seq<char>>,
    count: int,
)
    requires
        0 <= count <= secrets.len(),
        secrets_fault(secrets.take(count), names) is Some,
    ensures
        secrets_fault(secrets, names) == secrets_fault(secrets.take(count), names),
    decreases secrets.len() - count,
{
    if count == secrets.len() {
        assert(secrets.take(count) =~= secrets);
    } else {
        assert(secrets.take(count + 1).drop_last() =~= secrets.take(count));
        lemma_secrets_fault_stays(secrets, names, count + 1);
    }
}

fn read_secrets(secrets: &Vec<SecretVersion>, names: &Vec<String>) -> (result: Result<
    Vec<SecretVersion>,
    FixtureFault,
>)
    ensures
        match secrets_fault(secret_views(secrets@), texts(names@)) {
            Some(fault) => result is Err && result->Err_0 == fault,
            None => result is Ok && secret_views(result->Ok_0@) == secret_views(secrets@),
        },
{
    let ghost all = secret_views(secrets@);
    let mut list: Vec<SecretVersion> = Vec::new();
    let mut i: usize = 0;
    proof {
        assert(all.take(0) =~= Seq::<(Seq<char>, Seq<char>)>::empty());
        assert(secret_views(list@) =~= all.take(0));
    }
    while i < secrets.len()
        invariant
            i <= secrets.len(),
            all == secret_views(secrets@),
            secret_views(list@) == all.take(i as int),
            secrets_fault(all.take(i as int), texts(names@)) is None,
        decreases secrets.len() - i,
    {
        let secret = &secrets[i];
        let ghost before = list@;
        proof {
            assert(all.take(i as int + 1).drop_last() =~= all.take(i as int));
            assert(all.take(i as int + 1).last() == (secret.name@, secret.version@));
        }
        if !validate_env_key(secret.name.as_str()) || is_blank(secret.version.as_str())
            || byte_count(secret.version.as_str()) > SECRET_VERSION_LIMIT {
            proof {
                lemma_secrets_fault_stays(all, texts(names@), i as int + 1);
            }
            return Err(FixtureFault::SecretInvalid);
        }
        if list_contains(names.as_slice(), secret.name.as_str()) {
            proof {
                lemma_secrets_fault_stays(all, texts(names@), i as int + 1);
            }
            return Err(FixtureFault::EnvironmentSecretConflict);
        }
        list.push(SecretVersion { name: secret.name.clone(), version: secret.version.clone() });
        proof {
            assert(secret_views(list@) =~= secret_views(before).push((
                secret.name@,
                secret.version@,
            )));
            assert(all.take(i as int + 1) =~= all.take(i as int).push((
                secret.name@,
                secret.version@,
            )));
        }
        i += 1;
    }
    proof {
        assert(all.take(all.len() as int) =~= all);
    }
    Ok(list)
}

/// Where a file of the host stands; none where its path is not accepted. A path
/// leads nowhere up; under a directory it is relative, and an absolute one is not
/// in the home directory of a machine.
pub open spec fn fixture_path(base: FixturePathBaseV1, value: Seq<char>) -> Option<Seq<char>> {
    if value.len() == 0 || path_parts(value, PathStyle::Unix).contains(parent_name()) {
        None
    } else if base == FixturePathBaseV1::Absolute {
        if is_rooted(value) && !is_private_path(value) {
            Some(value)
        } else {
            None
        }
    } else if is_rooted(value) {
        None
    } else {
        Some(
            path_join(
                match base {
                    FixturePathBaseV1::Shine => author_shine(),
                    FixturePathBaseV1::DataDir => author_data(),
                    FixturePathBaseV1::Bin => author_bin(),
                    _ => author_home(),
                },
                value,
            ),
        )
    }
}

fn resolve_fixture_path(
    base: FixturePathBaseV1,
    value: &str,
    directories: &AuthorDirectories,
) -> (path: Option<String>)
    requires
        directories.are_those(),
    ensures
        optional_text(path) == fixture_path(base, value@),
{
    let chars = chars_of(value);
    if chars.len() == 0 || has_parent(value, PathStyle::Unix) {
        return None;
    }
    let rooted = chars[0] == '/';
    let root: &String = match base {
        FixturePathBaseV1::Absolute => {
            return if rooted && !private_absolute_path(value) {
                Some(value.to_owned())
            } else {
                None
            };
        },
        FixturePathBaseV1::Home => &directories.home,
        FixturePathBaseV1::Shine => &directories.shine,
        FixturePathBaseV1::DataDir => &directories.data,
        FixturePathBaseV1::Bin => &directories.bin,
    };
    if rooted {
        return None;
    }
    Some(join(root.as_str(), value))
}

/// Whether a file stands at the path.
pub open spec fn is_taken(files: Seq<SyntheticFileView>, path: Seq<char>) -> bool {
    exists|i: int| 0 <= i < files.len() && same_path((#[trigger] files[i]).path, path)
}

/// The files of the host; the first that is not accepted is an error.
pub open spec fn fixture_files(files: Seq<FixtureFileV1>) -> Result<
    Seq<SyntheticFileView>,
    FixtureFault,
>
    decreases files.len(),
{
    if files.len() == 0 {
        Ok(Seq::empty())
    } else {
        match fixture_files(files.drop_last()) {
            Err(fault) => Err(fault),
            Ok(before) => if encode_utf8(files.last().content@).len() > FIXTURE_DOCUMENT_LIMIT {
                Err(FixtureFault::FileTooLarge)
            } else {
                match fixture_path(files.last().base, files.last().path@) {
                    None => Err(FixtureFault::FilePathInvalid),
                    Some(path) => if is_taken(before, path) {
                        Err(FixtureFault::FileDuplicate)
                    } else {
                        Ok(
                            before.push(
                                SyntheticFileView {
                                    path,
                                    content: encode_utf8(files.last().content@),
                                    mode: PLAIN_FILE_MODE,
                                },
                            ),
                        )
                    },
                }
            },
        }
    }
}

fn taken(files: &Vec<SyntheticFile>, path: &str) -> (found: bool)
    ensures
        found == is_taken(synthetic_views(files@), path@),
{
    let ghost all = synthetic_views(files@);
    let mut i: usize = 0;
    while i < files.len()
        invariant
            i <= files.len(),
            all == synthetic_views(files@),
            forall|j: int| 0 <= j < i ==> !same_path((#[trigger] all[j]).path, path@),
        decreases files.len() - i,
    {
        proof {
            assert(all[i as int] == files@[i as int]@);
        }
        if paths_match(files[i].path.as_str(), path) {
            assert(same_path(all[i as int].path, path@));
            return true;
        }
        i += 1;
    }
    false
}

proof fn lemma_files_fault_stays(files: Seq<FixtureFileV1>, count: int)
    requires
        0 <= count <= files.len(),
        fixture_files(files.take(count)) is Err,
    ensures
        fixture_files(files) == fixture_files(files.take(count)),
    decreases files.len() - count,
{
    if count == files.len() {
        assert(files.take(count) =~= files);
    } else {
        assert(files.take(count + 1).drop_last() =~= files.take(count));
        lemma_files_fault_stays(files, count + 1);
    }
}

fn text_file(path: String, text: &str) -> (file: SyntheticFile)
    ensures
        file@ == (SyntheticFileView {
            path: path@,
            content: encode_utf8(text@),
            mode: PLAIN_FILE_MODE,
        }),
{
    let mut content: Vec<u8> = Vec::new();
    let bytes: &[u8] = text.as_bytes();
    content.extend_from_slice(bytes);
    proof {
        assert(content@ =~= encode_utf8(text@));
    }
    SyntheticFile { path, content, mode: PLAIN_FILE_MODE }
}

fn push_file(files: &mut Vec<SyntheticFile>, file: SyntheticFile)
    ensures
        synthetic_views(final(files)@) == synthetic_views(old(files)@).push(file@),
{
    let ghost before = files@;
    let ghost added = file@;
    files.push(file);
    proof {
        assert(synthetic_views(files@) =~= synthetic_views(before).push(added));
    }
}

fn read_files(files: &Vec<FixtureFileV1>, directories: &AuthorDirectories) -> (result: Result<
    Vec<SyntheticFile>,
    FixtureFault,
>)
    requires
        directories.are_those(),
    ensures
        match fixture_files(files@) {
            Err(fault) => result is Err && result->Err_0 == fault,
            Ok(made) => result is Ok && synthetic_views(result->Ok_0@) == made,
        },
{
    let mut made: Vec<SyntheticFile> = Vec::new();
    let mut i: usize = 0;
    proof {
        assert(files@.take(0) =~= Seq::<FixtureFileV1>::empty());
        assert(synthetic_views(made@) =~= Seq::<SyntheticFileView>::empty());
    }
    while i < files.len()
        invariant
            i <= files.len(),
            directories.are_those(),
            fixture_files(files@.take(i as int)) == Ok::<Seq<SyntheticFileView>, FixtureFault>(
                synthetic_views(made@),
            ),
        decreases files.len() - i,
    {
        let file = &files[i];
        proof {
            assert(files@.take(i as int + 1).drop_last() =~= files@.take(i as int));
            assert(files@.take(i as int + 1).last() == *file);
        }
        if byte_count(file.content.as_str()) > FIXTURE_DOCUMENT_LIMIT {
            proof {
                lemma_files_fault_stays(files@, i as int + 1);
            }
            return Err(FixtureFault::FileTooLarge);
        }
        let path = match resolve_fixture_path(file.base, file.path.as_str(), directories) {
            Some(path) => path,
            None => {
                proof {
                    lemma_files_fault_stays(files@, i as int + 1);
                }
                return Err(FixtureFault::FilePathInvalid);
            },
        };
        if taken(&made, path.as_str()) {
            proof {
                lemma_files_fault_stays(files@, i as int + 1);
            }
            return Err(FixtureFault::FileDuplicate);
        }
        push_file(&mut made, text_file(path, file.content.as_str()));
        i += 1;
    }
    proof {
        assert(files@.take(files@.len() as int) =~= files@);
    }
    Ok(made)
}

/// Whether a text can be the name of a command: not empty, without separators and
/// white space.
pub open spec fn is_command_name(command: Seq<char>) -> bool {
    command.len() > 0 && !command.contains('/') && !command.contains('\\') && !has_white(command)
}

/// Whether each text is the name of a command, and none occurs twice.
pub open spec fn commands_valid(commands: Seq<Seq<char>>) -> bool
    decreases commands.len(),
{
    commands.len() == 0 || (commands_valid(commands.drop_last()) && is_command_name(
        commands.last(),
    ) && !commands.drop_last().contains(commands.last()))
}

/// The file of a command.
pub open spec fn command_file(command: Seq<char>) -> SyntheticFileView {
    SyntheticFileView {
        path: path_join(author_bin(), command),
        content: Seq::empty(),
        mode: COMMAND_FILE_MODE,
    }
}

/// The files of commands.
pub open spec fn command_files(commands: Seq<Seq<char>>) -> Seq<SyntheticFileView> {
    commands.map_values(|command: Seq<char>| command_file(command))
}

proof fn lemma_commands_invalid_stays(commands: Seq<Seq<char>>, count: int)
    requires
        0 <= count <= commands.len(),
        !commands_valid(commands.take(count)),
    ensures
        !commands_valid(commands),
    decreases commands.len() - count,
{
    if count == commands.len() {
        assert(commands.take(count) =~= commands);
    } else {
        assert(commands.take(count + 1).drop_last() =~= commands.take(count));
        lemma_commands_invalid_stays(commands, count + 1);
    }
}

fn push_commands(
    commands: &Vec<String>,
    directories: &AuthorDirectories,
    files: &mut Vec<SyntheticFile>,
) -> (valid: bool)
    requires
        directories.are_those(),
    ensures
        valid == commands_valid(texts(commands@)),
        valid ==> synthetic_views(final(files)@) == synthetic_views(old(files)@) + command_files(
            texts(commands@),
        ),
{
    let ghost all = texts(commands@);
    let ghost before = synthetic_views(files@);
    let ghost made = command_files(all);
    let mut seen: Vec<String> = Vec::new();
    let mut i: usize = 0;
    proof {
        assert(all.take(0) =~= Seq::<Seq<char>>::empty());
        assert(texts(seen@) =~= all.take(0));
        assert(synthetic_views(files@) =~= before + made.take(0));
    }
    while i < commands.len()
        invariant
            i <= commands.len(),
            directories.are_those(),
            all == texts(commands@),
            made == command_files(all),
            texts(seen@) == all.take(i as int),
            commands_valid(all.take(i as int)),
            synthetic_views(files@) == before + made.take(i as int),
        decreases commands.len() - i,
    {
        let command = &commands[i];
        proof {
            assert(all.take(i as int + 1).drop_last() =~= all.take(i as int));
            assert(all.take(i as int + 1).last() == command@);
        }
        if command.as_str().is_empty() || contains_char(command.as_str(), '/') || contains_char(
            command.as_str(),
            '\\',
        ) || contains_white(command.as_str()) || list_contains(seen.as_slice(), command.as_str()) {
            proof {
                lemma_commands_invalid_stays(all, i as int + 1);
            }
            return false;
        }
        crate::text::push_text(&mut seen, command.as_str());
        let path = join(directories.bin.as_str(), command.as_str());
        let file = SyntheticFile { path, content: Vec::new(), mode: COMMAND_FILE_MODE };
        proof {
            assert(file.content@ =~= Seq::<u8>::empty());
            assert(made[i as int] == file@);
            assert(made.take(i as int + 1) =~= made.take(i as int).push(file@));
            assert(all.take(i as int + 1) =~= all.take(i as int).push(command@));
        }
        push_file(files, file);
        proof {
            assert(synthetic_views(files@) =~= before + made.take(i as int + 1));
        }
        i += 1;
    }
    proof {
        assert(all.take(all.len() as int) =~= all);
        assert(made.take(made.len() as int) =~= made);
    }
    true
}

/// A document with the directories of the made-up host in place of its
/// placeholders.
pub open spec fn expanded_document(document: Seq<char>) -> Seq<char> {
    substituted(
        substituted(
            substituted(
                substituted(document, "${HOME}"@, author_home()),
                "${SHINE}"@,
                author_shine(),
            ),
            "${DATA_DIR}"@,
            author_data(),
        ),
        "${BIN}"@,
        author_bin(),
    )
}

/// The document of a receipt as it is on the made-up host.
pub open spec fn receipt_document(document: Seq<char>) -> Result<Seq<char>, FixtureFault> {
    if encode_utf8(document).len() > FIXTURE_DOCUMENT_LIMIT {
        Err(FixtureFault::ReceiptTooLarge)
    } else if occurs(expanded_document(document), "${"@) {
        Err(FixtureFault::ReceiptPlaceholderInvalid)
    } else {
        Ok(expanded_document(document))
    }
}

/// The document of the receipt as it is on the made-up host.
pub fn expand_receipt(document: &str) -> (result: Result<String, FixtureFault>)
    ensures
        match receipt_document(document@) {
            Ok(expanded) => result is Ok && result->Ok_0@ == expanded,
            Err(fault) => result is Err && result->Err_0 == fault,
        },
{
    if byte_count(document) > FIXTURE_DOCUMENT_LIMIT {
        return Err(FixtureFault::ReceiptTooLarge);
    }
    let directories = AuthorDirectories::new();
    proof {
        reveal_strlit("${HOME}");
        reveal_strlit("${SHINE}");
        reveal_strlit("${DATA_DIR}");
        reveal_strlit("${BIN}");
    }
    let home = substitute(document, "${HOME}", directories.home.as_str());
    let shine = substitute(home.as_str(), "${SHINE}", directories.shine.as_str());
    let data = substitute(shine.as_str(), "${DATA_DIR}", directories.data.as_str());
    let expanded = substitute(data.as_str(), "${BIN}", directories.bin.as_str());
    if contains_text(expanded.as_str(), "${") {
        return Err(FixtureFault::ReceiptPlaceholderInvalid);
    }
    Ok(expanded)
}

/// What reading the document of a receipt gave: nothing, or the schema that it
/// names and the one that is supported.
#[derive(Clone, Copy, Debug, PartialEq, Eq, Structural)]
pub enum ReceiptReading {
    Unreadable,
    Schema { found: u32, supported: u32 },
}

/// What reading the documents of the receipts gave. What is said of a receipt that
/// a fixture does not have is not looked at.
#[derive(Clone, Copy, Debug, PartialEq, Eq, Structural)]
pub struct ReceiptReadings {
    pub app: ReceiptReading,
    pub shell: ReceiptReading,
    pub sys: ReceiptReading,
}

/// The files of one receipt: one, or none where the fixture does not have it.
pub open spec fn receipt_files(
    document: Option<Seq<char>>,
    name: Seq<char>,
    reading: ReceiptReading,
) -> Result<Seq<SyntheticFileView>, FixtureFault> {
    match document {
        None => Ok(Seq::empty()),
        Some(document) => match receipt_document(document) {
            Err(fault) => Err(fault),
            Ok(expanded) => match reading {
                ReceiptReading::Unreadable => Err(FixtureFault::ReceiptInvalid),
                ReceiptReading::Schema { found, supported } => if found != supported {
                    Err(FixtureFault::ReceiptSchemaUnsupported)
                } else {
                    Ok(
                        seq![
                            SyntheticFileView {
                                path: path_join(author_shine(), name),
                                content: encode_utf8(expanded),
                                mode: PLAIN_FILE_MODE,
                            },
                        ],
                    )
                },
            },
        },
    }
}

fn push_receipt(
    document: &Option<String>,
    name: &str,
    reading: ReceiptReading,
    directories: &AuthorDirectories,
    files: &mut Vec<SyntheticFile>,
) -> (fault: Option<FixtureFault>)
    requires
        directories.are_those(),
    ensures
        match receipt_files(optional_text(*document), name@, reading) {
            Err(found) => fault == Some(found),
            Ok(made) => fault is None && synthetic_views(final(files)@) == synthetic_views(
                old(files)@,
            ) + made,
        },
{
    let ghost before = synthetic_views(files@);
    let document = match document {
        Some(document) => document,
        None => {
            proof {
                assert(synthetic_views(files@) =~= before + Seq::<SyntheticFileView>::empty());
            }
            return None;
        },
    };
    let expanded = match expand_receipt(document.as_str()) {
        Ok(expanded) => expanded,
        Err(fault) => return Some(fault),
    };
    match reading {
        ReceiptReading::Unreadable => Some(FixtureFault::ReceiptInvalid),
        ReceiptReading::Schema { found, supported } => {
            if found != supported {
                return Some(FixtureFault::ReceiptSchemaUnsupported);
            }
            let path = join(directories.shine.as_str(), name);
            let file = text_file(path, expanded.as_str());
            let ghost added = file@;
            push_file(files, file);
            proof {
                assert(synthetic_views(files@) =~= before + seq![added]);
            }
            None
        },
    }
}

/// The files of all receipts.
pub open spec fn all_receipt_files(receipts: FixtureReceiptsV1, readings: ReceiptReadings) ->
    Result<Seq<SyntheticFileView>, FixtureFault> {
    match receipt_files(optional_text(receipts.app), "app-manifest.toml"@, readings.app) {
        Err(fault) => Err(fault),
        Ok(app) => match receipt_files(
            optional_text(receipts.shell),
            "shell-manifest.toml"@,
            readings.shell,
        ) {
            Err(fault) => Err(fault),
            Ok(shell) => match receipt_files(
                optional_text(receipts.sys),
                "sys-manifest.toml"@,
                readings.sys,
            ) {
                Err(fault) => Err(fault),
                Ok(sys) => Ok(app + shell + sys),
            },
        },
    }
}

fn push_receipts(
    receipts: &FixtureReceiptsV1,
    readings: ReceiptReadings,
    directories: &AuthorDirectories,
    files: &mut Vec<SyntheticFile>,
) -> (fault: Option<FixtureFault>)
    requires
        directories.are_those(),
    ensures
        match all_receipt_files(*receipts, readings) {
            Err(found) => fault == Some(found),
            Ok(made) => fault is None && synthetic_views(final(files)@) == synthetic_views(
                old(files)@,
            ) + made,
        },
{
    let ghost before = synthetic_views(files@);
    if let Some(fault) = push_receipt(
        &receipts.app,
        "app-manifest.toml",
        readings.app,
        directories,
        files,
    ) {
        return Some(fault);
    }
    if let Some(fault) = push_receipt(
        &receipts.shell,
        "shell-manifest.toml",
        readings.shell,
        directories,
        files,
    ) {
        return Some(fault);
    }
    if let Some(fault) = push_receipt(
        &receipts.sys,
        "sys-manifest.toml",
        readings.sys,
        directories,
        files,
    ) {
        return Some(fault);
    }
    proof {
        assert(synthetic_views(files@) =~= before + all_receipt_files(*receipts, readings)->Ok_0);
    }
    None
}

/// Whether a text names a target whose code can be trusted: an App or a system
/// preset by its name alone.
pub open spec fn is_trust_target(target: Seq<char>) -> bool {
    match cut_at(target, '/') {
        None => false,
        Some((kind, name)) => {
            &&& kind == "app"@ || kind == "sys"@
            &&& name.len() > 0
            &&& !name.contains('/')
            &&& !name.contains('\\')
            &&& name != "."@
            &&& name != ".."@
        },
    }
}

/// Whether the text names a target whose code can be trusted.
pub fn is_canonical_trust_target(target: &str) -> (result: bool)
    ensures
        result == is_trust_target(target@),
{
    match split_once(target, '/') {
        None => false,
        Some((kind, name)) => (same_text(kind.as_str(), "app") || same_text(kind.as_str(), "sys"))
            && !name.as_str().is_empty() && !contains_char(name.as_str(), '/') && !contains_char(
            name.as_str(),
            '\\',
        ) && !same_text(name.as_str(), ".") && !same_text(name.as_str(), ".."),
    }
}

/// The trusted code that a fixture names.
pub open spec fn selected_trust(list: Seq<FixtureTrustV1>) -> Seq<(Seq<char>, TrustCapabilityV1)> {
    list.map_values(|item: FixtureTrustV1| (item.target@, item.capability.capability()))
}

/// What is wrong with the trust that a fixture gives.
pub open spec fn trust_fault(list: Seq<(Seq<char>, TrustCapabilityV1)>) -> Option<FixtureFault>
    decreases list.len(),
{
    if list.len() == 0 {
        None
    } else {
        match trust_fault(list.drop_last()) {
            Some(fault) => Some(fault),
            None => if !is_trust_target(list.last().0) {
                Some(FixtureFault::TrustTargetInvalid)
            } else if list.drop_last().contains(list.last()) {
                Some(FixtureFault::TrustDuplicate)
            } else {
                None
            },
        }
    }
}

fn is_trusted(list: &Vec<TrustedCapability>, target: &str, capability: TrustCapabilityV1) -> (found:
    bool)
    ensures
        found == trust_views(list@).contains((target@, capability)),
{
    let ghost all = trust_views(list@);
    let mut i: usize = 0;
    while i < list.len()
        invariant
            i <= list.len(),
            all == trust_views(list@),
            forall|j: int| 0 <= j < i ==> #[trigger] all[j] != (target@, capability),
        decreases list.len() - i,
    {
        proof {
            assert(all[i as int] == (list@[i as int].target@, list@[i as int].capability));
        }
        if list[i].capability == capability && same_text(list[i].target.as_str(), target) {
            assert(all[i as int] == (target@, capability));
            return true;
        }
        i += 1;
    }
    false
}

proof fn lemma_trust_fault_stays(list: Seq<(Seq<char>, TrustCapabilityV1)>, count: int)
    requires
        0 <= count <= list.len(),
        trust_fault(list.take(count)) is Some,
    ensures
        trust_fault(list) == trust_fault(list.take(count)),
    decreases list.len() - count,
{
    if count == list.len() {
        assert(list.take(count) =~= list);
    } else {
        assert(list.take(count + 1).drop_last() =~= list.take(count));
        lemma_trust_fault_stays(list, count + 1);
    }
}

fn read_trust(list: &Vec<FixtureTrustV1>) -> (result: Result<Vec<TrustedCapability>, FixtureFault>)
    ensures
        match trust_fault(selected_trust(list@)) {
            Some(fault) => result is Err && result->Err_0 == fault,
            None => result is Ok && trust_views(result->Ok_0@) == selected_trust(list@),
        },
{
    let ghost all = selected_trust(list@);
    let mut trusted: Vec<TrustedCapability> = Vec::new();
    let mut i: usize = 0;
    proof {
        assert(all.take(0) =~= Seq::<(Seq<char>, TrustCapabilityV1)>::empty());
        assert(trust_views(trusted@) =~= all.take(0));
    }
    while i < list.len()
        invariant
            i <= list.len(),
            all == selected_trust(list@),
            trust_views(trusted@) == all.take(i as int),
            trust_fault(all.take(i as int)) is None,
        decreases list.len() - i,
    {
        let item = &list[i];
        let ghost before = trusted@;
        let capability = TrustCapabilityV1::from(item.capability);
        proof {
            assert(all.take(i as int + 1).drop_last() =~= all.take(i as int));
            assert(all.take(i as int + 1).last() == (item.target@, capability));
        }
        if !is_canonical_trust_target(item.target.as_str()) {
            proof {
                lemma_trust_fault_stays(all, i as int + 1);
            }
            return Err(FixtureFault::TrustTargetInvalid);
        }
        if is_trusted(&trusted, item.target.as_str(), capability) {
            proof {
                lemma_trust_fault_stays(all, i as int + 1);
            }
            return Err(FixtureFault::TrustDuplicate);
        }
        trusted.push(TrustedCapability { target: item.target.clone(), capability });
        proof {
            assert(trust_views(trusted@) =~= trust_views(before).push((item.target@, capability)));
            assert(all.take(i as int + 1) =~= all.take(i as int).push((item.target@, capability)));
        }
        i += 1;
    }
    proof {
        assert(all.take(all.len() as int) =~= all);
    }
    Ok(trusted)
}

/// What is wrong with a fixture: the first of its variables, secrets, files,
/// commands, receipts and trusted code that is not accepted, in that order.
pub open spec fn host_fault(fixture: FixtureHostStateV1, readings: ReceiptReadings) -> Option<
    FixtureFault,
> {
    let names = texts(fixture.environment@);
    match environment_fault(names) {
        Some(fault) => Some(fault),
        None => match secrets_fault(secret_views(fixture.secret_versions@), names) {
            Some(fault) => Some(fault),
            None => match fixture_files(fixture.files@) {
                Err(fault) => Some(fault),
                Ok(_) => if !commands_valid(texts(fixture.commands@)) {
                    Some(FixtureFault::CommandInvalid)
                } else {
                    match all_receipt_files(fixture.receipts, readings) {
                        Err(fault) => Some(fault),
                        Ok(_) => trust_fault(selected_trust(fixture.trust@)),
                    }
                },
            },
        },
    }
}

/// Whether a state is the one that a fixture describes.
pub open spec fn is_described(
    state: PresetAuthoringSyntheticState,
    fixture: FixtureHostStateV1,
    readings: ReceiptReadings,
) -> bool {
    &&& synthetic_views(state.files@) == fixture_files(fixture.files@)->Ok_0 + command_files(
        texts(fixture.commands@),
    ) + all_receipt_files(fixture.receipts, readings)->Ok_0
    &&& env_pairs(state.environment@) == present_env(texts(fixture.environment@))
    &&& secret_views(state.secret_versions@) == secret_views(fixture.secret_versions@)
    &&& optional_text(state.path_env) == if fixture.commands@.len() > 0 {
        Some(author_bin())
    } else {
        None
    }
    &&& state.running_as_admin == fixture.administrator
    &&& trust_views(state.trusted_capabilities@) == selected_trust(fixture.trust@)
    &&& state.lifecycle_state_present == (fixture.files@.len() > 0 || fixture.receipts.app is Some
        || fixture.receipts.shell is Some || fixture.receipts.sys is Some)
}

/// Makes up the host that the fixture describes.
pub fn materialize_host_state(fixture: &FixtureHostStateV1, readings: ReceiptReadings) -> (result:
    Result<PresetAuthoringSyntheticState, FixtureFault>)
    ensures
        match host_fault(*fixture, readings) {
            Some(fault) => result is Err && result->Err_0 == fault,
            None => result is Ok && is_described(result->Ok_0, *fixture, readings),
        },
{
    let directories = AuthorDirectories::new();
    let environment = match read_environment(&fixture.environment) {
        Ok(environment) => environment,
        Err(fault) => return Err(fault),
    };
    let secret_versions = match read_secrets(&fixture.secret_versions, &fixture.environment) {
        Ok(secrets) => secrets,
        Err(fault) => return Err(fault),
    };
    let mut files = match read_files(&fixture.files, &directories) {
        Ok(files) => files,
        Err(fault) => return Err(fault),
    };
    if !push_commands(&fixture.commands, &directories, &mut files) {
        return Err(FixtureFault::CommandInvalid);
    }
    if let Some(fault) = push_receipts(&fixture.receipts, readings, &directories, &mut files) {
        return Err(fault);
    }
    let trusted_capabilities = match read_trust(&fixture.trust) {
        Ok(trusted) => trusted,
        Err(fault) => return Err(fault),
    };
    let path_env = if fixture.commands.len() > 0 {
        Some(directories.bin)
    } else {
        None
    };
    Ok(
        PresetAuthoringSyntheticState {
            files,
            environment,
            secret_versions,
            path_env,
            running_as_admin: fixture.administrator,
            trusted_capabilities,
            lifecycle_state_present: fixture.files.len() > 0 || fixture.receipts.app.is_some()
                || fixture.receipts.shell.is_some() || fixture.receipts.sys.is_some(),
        },
    )
}

} // verus!
