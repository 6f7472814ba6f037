//! Managed members of JSON objects.
//!
//! An App file may own only some top-level members of a JSON object. The object
//! is held by `serde_json`; the functions here read and change the managed
//! members and leave every other member as it is.

use vstd::prelude::*;
use vstd::string::*;

use crate::content::{content_hash, hash_content};
use crate::text::{list_contains, texts};

verus! {

/// A JSON value of `serde_json`.
#[verifier::external_type_specification]
#[verifier::external_body]
pub struct ExternalJsonValue(serde_json::Value);

/// The members of a JSON object of `serde_json`.
#[verifier::external_type_specification]
#[verifier::external_body]
#[verifier::reject_recursive_types(K)]
#[verifier::reject_recursive_types(V)]
pub struct ExternalJsonMap<K, V>(serde_json::Map<K, V>);

/// The compact JSON text of a value.
pub uninterp spec fn json_text(value: serde_json::Value) -> Seq<u8>;

/// The members of an object: the compact JSON text of each value by its name.
pub uninterp spec fn json_members(
    object: serde_json::Map<String, serde_json::Value>,
) -> Map<Seq<char>, Seq<u8>>;

/// The value that JSON text holds, by its compact text; none where the text is
/// not JSON.
pub uninterp spec fn json_value(text: Seq<u8>) -> Option<Seq<u8>>;

/// The members of a value, by its compact text; none where it is no object.
pub uninterp spec fn json_object_of(value: Seq<u8>) -> Option<Map<Seq<char>, Seq<u8>>>;

/// The members of the object that JSON text holds; none where the text is not
/// JSON or is another kind of value.
pub open spec fn json_object(text: Seq<u8>) -> Option<Map<Seq<char>, Seq<u8>>> {
    match json_value(text) {
        Some(value) => json_object_of(value),
        None => None,
    }
}

/// The pretty-printed text of an object with the given members.
pub uninterp spec fn json_pretty(members: Map<Seq<char>, Seq<u8>>) -> Option<Seq<u8>>;

/// Whether two values, by their compact text, are equal as JSON values.
pub uninterp spec fn json_equal(left: Seq<u8>, right: Seq<u8>) -> bool;

/// `serde_json::from_slice` into a value. The result is named: it depends on the
/// bytes alone.
#[verifier::external_body]
fn value_from_slice(text: &[u8]) -> (result: Option<serde_json::Value>)
    ensures
        match result {
            Some(value) => json_value(text@) == Some(json_text(value)),
            None => json_value(text@) is None,
        },
{
    serde_json::from_slice::<serde_json::Value>(text).ok()
}

/// `serde_json::Value::as_object`, with the members cloned. The result is named:
/// the compact text of a value tells whether it is an object, and its members.
#[verifier::external_body]
fn value_as_object(value: &serde_json::Value) -> (result: Option<
    serde_json::Map<String, serde_json::Value>,
>)
    ensures
        match result {
            Some(object) => json_object_of(json_text(*value)) == Some(json_members(object)),
            None => json_object_of(json_text(*value)) is None,
        },
{
    value.as_object().cloned()
}

/// The object that the text holds.
fn object_from_slice(text: &[u8]) -> (result: Option<serde_json::Map<String, serde_json::Value>>)
    ensures
        match result {
            Some(object) => json_object(text@) == Some(json_members(object)),
            None => json_object(text@) is None,
        },
{
    match value_from_slice(text) {
        Some(value) => value_as_object(&value),
        None => None,
    }
}

/// Whether the text holds an object that has this member.
pub open spec fn has_member(text: Seq<u8>, name: Seq<char>, value: Seq<u8>) -> bool {
    match json_object(text) {
        Some(members) => members.contains_key(name) && members[name] == value,
        None => false,
    }
}

/// Whether a value can stand in an object and reads as itself. One that holds a
/// number with a fraction may read as another: numbers are read to within the
/// last digit only.
pub open spec fn reads_back(value: Seq<u8>) -> bool {
    &&& json_value(value) == Some(value)
    &&& exists|text: Seq<u8>, name: Seq<char>| #[trigger] has_member(text, name, value)
}

/// Whether each member reads as itself.
pub open spec fn all_read_back(members: Map<Seq<char>, Seq<u8>>) -> bool {
    forall|name: Seq<char>| #[trigger] members.contains_key(name) ==> reads_back(members[name])
}

/// `serde_json::to_vec_pretty` of an object. The result is named: an object
/// writes its members ordered by name, so the text depends on the members alone.
/// The text has the tokens of the members with white space between them, so where
/// each member reads as itself there is a text, and it reads as those members,
/// with or without a line break at its end.
#[verifier::external_body]
fn object_to_vec_pretty(object: &serde_json::Map<String, serde_json::Value>) -> (result: Option<
    Vec<u8>,
>)
    ensures
        match result {
            Some(text) => json_pretty(json_members(*object)) == Some(text@),
            None => json_pretty(json_members(*object)) is None,
        },
        all_read_back(json_members(*object)) ==> {
            &&& result is Some
            &&& json_object(result->0@) == Some(json_members(*object))
            &&& json_object(result->0@.push(10u8)) == Some(json_members(*object))
        },
{
    serde_json::to_vec_pretty(object).ok()
}

/// The members of an object that has none.
pub open spec fn no_members() -> Map<Seq<char>, Seq<u8>> {
    Map::empty()
}

/// `serde_json::Map::new`: an object without members.
#[verifier::external_body]
fn object_new() -> (object: serde_json::Map<String, serde_json::Value>)
    ensures
        json_members(object) == no_members(),
{
    serde_json::Map::new()
}

/// `serde_json::Map::get`, with the value cloned: the value of the member of
/// that name, where there is one.
#[verifier::external_body]
fn object_get(object: &serde_json::Map<String, serde_json::Value>, name: &str) -> (value: Option<
    serde_json::Value,
>)
    ensures
        value is Some <==> json_members(*object).contains_key(name@),
        value is Some ==> json_text(value->0) == json_members(*object)[name@],
{
    object.get(name).cloned()
}

/// `serde_json::Map::insert`: the member of that name has the value afterwards,
/// and the other members are as they were.
#[verifier::external_body]
fn object_insert(
    object: &mut serde_json::Map<String, serde_json::Value>,
    name: String,
    value: serde_json::Value,
)
    ensures
        json_members(*final(object)) == json_members(*old(object)).insert(name@, json_text(value)),
{
    let _ = object.insert(name, value);
}

/// `serde_json::Map::remove`: there is no member of that name afterwards, and
/// the other members are as they were.
#[verifier::external_body]
fn object_remove(object: &mut serde_json::Map<String, serde_json::Value>, name: &str)
    ensures
        json_members(*final(object)) == json_members(*old(object)).remove(name@),
{
    let _ = object.remove(name);
}

/// `serde_json::Map::keys`: the names of the members, each once.
#[verifier::external_body]
fn object_names(object: &serde_json::Map<String, serde_json::Value>) -> (names: Vec<String>)
    ensures
        texts(names@).no_duplicates(),
        forall|name: Seq<char>|
            texts(names@).contains(name) <==> #[trigger] json_members(*object).contains_key(name),
{
    object.keys().cloned().collect()
}

/// `==` on two values. The result is named: it depends on the values alone, and
/// values of the same text are equal.
#[verifier::external_body]
fn values_equal(left: &serde_json::Value, right: &serde_json::Value) -> (equal: bool)
    ensures
        equal == json_equal(json_text(*left), json_text(*right)),
        json_text(*left) == json_text(*right) ==> equal,
{
    left == right
}

/// Whether JSON text holds an object with a member of that name; none where the
/// text is not JSON.
pub open spec fn json_has_member(text: Seq<u8>, name: Seq<char>) -> Option<bool> {
    match json_value(text) {
        None => None,
        Some(value) => match json_object_of(value) {
            Some(members) => Some(members.contains_key(name)),
            None => Some(false),
        },
    }
}

/// Whether the JSON text holds an object with a member of that name.
pub fn has_json_member(text: &[u8], name: &str) -> (result: Option<bool>)
    ensures
        result == json_has_member(text@, name@),
{
    match value_from_slice(text) {
        None => None,
        Some(value) => match value_as_object(&value) {
            Some(object) => Some(object_get(&object, name).is_some()),
            None => Some(false),
        },
    }
}

/// What keeps managed members from being read or written.
#[derive(Clone, Copy, Debug, PartialEq, Eq, Structural)]
pub enum JsonFault {
    SourceNotObject,
    DestinationNotObject,
    /// The source lacks the managed key at this place of the list.
    MissingManagedKey { index: usize },
    NotSerializable,
}

impl JsonFault {
    pub open spec fn text(self) -> Seq<char> {
        match self {
            JsonFault::SourceNotObject => "json-merge: source must be a JSON object"@,
            JsonFault::DestinationNotObject => "json-merge: destination must be a JSON object"@,
            JsonFault::MissingManagedKey { .. } => "json-merge: source missing managed key"@,
            JsonFault::NotSerializable => "json-merge: serialization failed"@,
        }
    }

    /// The fault in words, without the name of a missing key.
    pub fn summary(self) -> (message: &'static str)
        ensures
            message@ == self.text(),
    {
        match self {
            JsonFault::SourceNotObject => "json-merge: source must be a JSON object",
            JsonFault::DestinationNotObject => "json-merge: destination must be a JSON object",
            JsonFault::MissingManagedKey { .. } => "json-merge: source missing managed key",
            JsonFault::NotSerializable => "json-merge: serialization failed",
        }
    }

    /// The fault in words, with the name of a missing key.
    pub open spec fn full_text(self, keys: Seq<Seq<char>>) -> Seq<char> {
        match self {
            JsonFault::MissingManagedKey { index } => if (index as int) < keys.len() {
                self.text() + " `"@ + keys[index as int] + "`"@
            } else {
                self.text()
            },
            _ => self.text(),
        }
    }

    /// The fault in words, with the name of a missing key.
    pub fn message(self, keys: &[String]) -> (message: String)
        ensures
            message@ == self.full_text(texts(keys@)),
    {
        let mut message: String = self.summary().to_owned();
        if let JsonFault::MissingManagedKey { index } = self {
            if index < keys.len() {
                proof {
                    assert(texts(keys@)[index as int] == keys@[index as int]@);
                }
                message.append(" `");
                message.append(keys[index].as_str());
                message.append("`");
            }
        }
        message
    }
}

/// The names as a set.
pub open spec fn name_set(names: Seq<Seq<char>>) -> Set<Seq<char>> {
    names.to_set()
}

/// The members whose names are managed.
pub open spec fn managed_members(
    members: Map<Seq<char>, Seq<u8>>,
    keys: Seq<Seq<char>>,
) -> Map<Seq<char>, Seq<u8>> {
    members.restrict(name_set(keys))
}

/// The members whose names are not managed.
pub open spec fn unmanaged_members(
    members: Map<Seq<char>, Seq<u8>>,
    keys: Seq<Seq<char>>,
) -> Map<Seq<char>, Seq<u8>> {
    members.remove_keys(name_set(keys))
}

/// `base` with the managed members of `source` put in.
pub open spec fn merged_members(
    base: Map<Seq<char>, Seq<u8>>,
    source: Map<Seq<char>, Seq<u8>>,
    keys: Seq<Seq<char>>,
) -> Map<Seq<char>, Seq<u8>> {
    base.union_prefer_right(managed_members(source, keys))
}

/// `current` with its managed members replaced by those of `original`.
pub open spec fn restored_members(
    current: Map<Seq<char>, Seq<u8>>,
    original: Map<Seq<char>, Seq<u8>>,
    keys: Seq<Seq<char>>,
) -> Map<Seq<char>, Seq<u8>> {
    unmanaged_members(current, keys).union_prefer_right(managed_members(original, keys))
}

/// Whether each managed key is a member.
pub open spec fn has_all_keys(
    members: Map<Seq<char>, Seq<u8>>,
    keys: Seq<Seq<char>>,
) -> bool {
    forall|i: int| 0 <= i < keys.len() ==> members.contains_key(#[trigger] keys[i])
}

/// Whether no managed key is a member.
pub open spec fn has_no_key(members: Map<Seq<char>, Seq<u8>>, keys: Seq<Seq<char>>) -> bool {
    forall|i: int| 0 <= i < keys.len() ==> !members.contains_key(#[trigger] keys[i])
}

/// Whether each managed key is in both objects with equal values, or in neither.
pub open spec fn keys_agree(
    left: Map<Seq<char>, Seq<u8>>,
    right: Map<Seq<char>, Seq<u8>>,
    keys: Seq<Seq<char>>,
) -> bool {
    forall|i: int|
        0 <= i < keys.len() ==> key_agrees(left, right, #[trigger] keys[i])
}

/// Whether one key is in both objects with equal values, or in neither.
pub open spec fn key_agrees(
    left: Map<Seq<char>, Seq<u8>>,
    right: Map<Seq<char>, Seq<u8>>,
    key: Seq<char>,
) -> bool {
    &&& left.contains_key(key) == right.contains_key(key)
    &&& left.contains_key(key) ==> json_equal(left[key], right[key])
}

/// Whether every member is a managed one.
pub open spec fn only_managed(members: Map<Seq<char>, Seq<u8>>, keys: Seq<Seq<char>>) -> bool {
    forall|name: Seq<char>| #[trigger] members.contains_key(name) ==> keys.contains(name)
}

/// The text of an object as it is written to a file: pretty-printed, and ended
/// by a line break.
pub open spec fn rendered(members: Map<Seq<char>, Seq<u8>>) -> Option<Seq<u8>> {
    match json_pretty(members) {
        Some(text) => Some(
            if text.len() > 0 && text.last() == 10u8 {
                text
            } else {
                text.push(10u8)
            },
        ),
        None => None,
    }
}

/// Whether what is written of an object reads as the same members.
pub open spec fn reads_as_written(members: Map<Seq<char>, Seq<u8>>) -> bool {
    match rendered(members) {
        Some(text) => json_object(text) == Some(members),
        None => false,
    }
}

/// The text that is written, or the fault where an object cannot be written.
pub open spec fn written(members: Map<Seq<char>, Seq<u8>>) -> Result<Seq<u8>, JsonFault> {
    match rendered(members) {
        Some(text) => Ok(text),
        None => Err(JsonFault::NotSerializable),
    }
}

/// The place of the first key that is not a member.
pub open spec fn first_missing(members: Map<Seq<char>, Seq<u8>>, keys: Seq<Seq<char>>) -> Option<
    int,
>
    decreases keys.len(),
{
    if keys.len() == 0 {
        None
    } else {
        match first_missing(members, keys.drop_last()) {
            Some(index) => Some(index),
            None => if members.contains_key(keys.last()) {
                None
            } else {
                Some(keys.len() - 1)
            },
        }
    }
}

/// The managed members of a source, all of which it must have.
pub open spec fn payload(source: Seq<u8>, keys: Seq<Seq<char>>) -> Result<
    Map<Seq<char>, Seq<u8>>,
    JsonFault,
> {
    match json_object(source) {
        None => Err(JsonFault::SourceNotObject),
        Some(members) => match first_missing(members, keys) {
            Some(index) => Err(JsonFault::MissingManagedKey { index: index as usize }),
            None => Ok(managed_members(members, keys)),
        },
    }
}

/// The identity of what a source would put under the managed keys.
pub open spec fn desired_json_hash(source: Seq<u8>, keys: Seq<Seq<char>>) -> Result<
    u64,
    JsonFault,
> {
    match payload(source, keys) {
        Err(fault) => Err(fault),
        Ok(members) => match rendered(members) {
            None => Err(JsonFault::NotSerializable),
            Some(text) => Ok(content_hash(text)),
        },
    }
}

/// The identity of what stands under the managed keys; none where none of them
/// is there.
pub open spec fn current_json_hash(text: Seq<u8>, keys: Seq<Seq<char>>) -> Result<
    Option<u64>,
    JsonFault,
> {
    match json_object(text) {
        None => Err(JsonFault::DestinationNotObject),
        Some(members) => if has_no_key(members, keys) {
            Ok(None)
        } else {
            match rendered(managed_members(members, keys)) {
                None => Err(JsonFault::NotSerializable),
                Some(text) => Ok(Some(content_hash(text))),
            }
        },
    }
}

/// The object of a file, by its members; the fault where there is none.
pub open spec fn destination_members(text: Seq<u8>) -> Result<
    Map<Seq<char>, Seq<u8>>,
    JsonFault,
> {
    match json_object(text) {
        Some(members) => Ok(members),
        None => Err(JsonFault::DestinationNotObject),
    }
}

proof fn lemma_take_set(keys: Seq<Seq<char>>, i: int)
    requires
        0 <= i < keys.len(),
    ensures
        name_set(keys.take(i + 1)) == name_set(keys.take(i)).insert(keys[i]),
        keys.take(i + 1).drop_last() == keys.take(i),
        keys.take(i + 1).last() == keys[i],
{
    let next = keys.take(i + 1);
    let head = keys.take(i);
    assert(next.drop_last() =~= head);
    assert(name_set(next) =~= name_set(head).insert(keys[i])) by {
        assert forall|name: Seq<char>| name_set(next).contains(name) <==> name_set(head).insert(
            keys[i],
        ).contains(name) by {
            if name_set(next).contains(name) {
                let j = choose|j: int| 0 <= j < next.len() && next[j] == name;
                if j < i {
                    assert(head[j] == name);
                }
            }
            if name == keys[i] {
                assert(next[i] == name);
            }
            if name_set(head).contains(name) {
                let j = choose|j: int| 0 <= j < head.len() && head[j] == name;
                assert(next[j] == name);
            }
        }
    }
}

pub proof fn lemma_none_missing(members: Map<Seq<char>, Seq<u8>>, keys: Seq<Seq<char>>)
    ensures
        first_missing(members, keys) is None ==> has_all_keys(members, keys),
    decreases keys.len(),
{
    if keys.len() > 0 {
        lemma_none_missing(members, keys.drop_last());
        if first_missing(members, keys) is None {
            assert forall|i: int| 0 <= i < keys.len() implies members.contains_key(
                #[trigger] keys[i],
            ) by {
                if i < keys.len() - 1 {
                    assert(keys.drop_last()[i] == keys[i]);
                }
            }
        }
    }
}

proof fn lemma_first_missing_prefix(
    members: Map<Seq<char>, Seq<u8>>,
    keys: Seq<Seq<char>>,
    i: int,
)
    requires
        0 <= i < keys.len(),
        first_missing(members, keys.take(i)) is None,
        !members.contains_key(keys[i]),
    ensures
        first_missing(members, keys) == Some(i),
    decreases keys.len(),
{
    if i == keys.len() - 1 {
        assert(keys.drop_last() =~= keys.take(i));
    } else {
        assert(keys.drop_last().take(i) =~= keys.take(i));
        assert(keys.drop_last()[i] == keys[i]);
        lemma_first_missing_prefix(members, keys.drop_last(), i);
    }
}

/// Reads the object of a text; `fault` is what comes where there is none.
pub fn parse_json_object(text: &[u8], fault: JsonFault) -> (result: Result<
    serde_json::Map<String, serde_json::Value>,
    JsonFault,
>)
    ensures
        match result {
            Ok(object) => json_object(text@) == Some(json_members(object)),
            Err(found) => json_object(text@) is None && found == fault,
        },
{
    match object_from_slice(text) {
        Some(object) => Ok(object),
        None => Err(fault),
    }
}

/// The text of an object as it is written to a file.
pub fn serialize_json_object(object: &serde_json::Map<String, serde_json::Value>) -> (result:
    Result<Vec<u8>, JsonFault>)
    ensures
        match result {
            Ok(text) => rendered(json_members(*object)) == Some(text@),
            Err(fault) => rendered(json_members(*object)) is None && fault
                == JsonFault::NotSerializable,
        },
        all_read_back(json_members(*object)) ==> result is Ok && reads_as_written(
            json_members(*object),
        ),
{
    match object_to_vec_pretty(object) {
        Some(text) => {
            let mut bytes = text;
            if bytes.len() == 0 || bytes[bytes.len() - 1] != 10 {
                bytes.push(10);
            }
            Ok(bytes)
        },
        None => Err(JsonFault::NotSerializable),
    }
}

/// The managed members of a source; it must have all of them.
pub fn managed_json_payload(source: &[u8], keys: &[String]) -> (result: Result<
    serde_json::Map<String, serde_json::Value>,
    JsonFault,
>)
    ensures
        match result {
            Ok(object) => payload(source@, texts(keys@)) == Ok::<
                Map<Seq<char>, Seq<u8>>,
                JsonFault,
            >(json_members(object)),
            Err(fault) => payload(source@, texts(keys@)) == Err::<
                Map<Seq<char>, Seq<u8>>,
                JsonFault,
            >(fault),
        },
{
    let object = match parse_json_object(source, JsonFault::SourceNotObject) {
        Ok(object) => object,
        Err(fault) => return Err(fault),
    };
    let ghost names = texts(keys@);
    let ghost members = json_members(object);
    let mut managed = object_new();
    let mut i: usize = 0;
    proof {
        assert(names.take(0) =~= Seq::<Seq<char>>::empty());
        assert(json_members(managed) =~= managed_members(members, names.take(0)));
    }
    while i < keys.len()
        invariant
            i <= keys.len(),
            names == texts(keys@),
            members == json_members(object),
            json_object(source@) == Some(members),
            json_members(managed) == managed_members(members, names.take(i as int)),
            first_missing(members, names.take(i as int)) is None,
        decreases keys.len() - i,
    {
        proof {
            lemma_take_set(names, i as int);
        }
        match object_get(&object, keys[i].as_str()) {
            Some(value) => {
                let ghost before = json_members(managed);
                object_insert(&mut managed, keys[i].clone(), value);
                proof {
                    assert(json_members(managed) =~= managed_members(
                        members,
                        names.take(i as int + 1),
                    ));
                }
            },
            None => {
                proof {
                    lemma_first_missing_prefix(members, names, i as int);
                }
                return Err(JsonFault::MissingManagedKey { index: i });
            },
        }
        i += 1;
    }
    proof {
        assert(names.take(names.len() as int) =~= names);
    }
    Ok(managed)
}

/// The identity of what a source would put under the managed keys.
pub fn managed_json_hash(source: &[u8], keys: &[String]) -> (result: Result<u64, JsonFault>)
    ensures
        result == desired_json_hash(source@, texts(keys@)),
{
    match managed_json_payload(source, keys) {
        Ok(managed) => match serialize_json_object(&managed) {
            Ok(text) => Ok(hash_content(text.as_slice())),
            Err(fault) => Err(fault),
        },
        Err(fault) => Err(fault),
    }
}

/// The identity of what stands under the managed keys.
pub fn installed_json_hash(text: &[u8], keys: &[String]) -> (result: Result<
    Option<u64>,
    JsonFault,
>)
    ensures
        result == current_json_hash(text@, texts(keys@)),
{
    let object = match parse_json_object(text, JsonFault::DestinationNotObject) {
        Ok(object) => object,
        Err(fault) => return Err(fault),
    };
    let ghost names = texts(keys@);
    let ghost members = json_members(object);
    let mut managed = object_new();
    let mut found = false;
    let mut i: usize = 0;
    proof {
        assert(names.take(0) =~= Seq::<Seq<char>>::empty());
        assert(json_members(managed) =~= managed_members(members, names.take(0)));
    }
    while i < keys.len()
        invariant
            i <= keys.len(),
            names == texts(keys@),
            members == json_members(object),
            json_members(managed) == managed_members(members, names.take(i as int)),
            found == !has_no_key(members, names.take(i as int)),
        decreases keys.len() - i,
    {
        proof {
            lemma_take_set(names, i as int);
            assert(names[i as int] == keys@[i as int]@);
            assert(has_no_key(members, names.take(i as int + 1)) <==> (has_no_key(
                members,
                names.take(i as int),
            ) && !members.contains_key(names[i as int]))) by {
                let next = names.take(i as int + 1);
                let head = names.take(i as int);
                if has_no_key(members, next) {
                    assert forall|j: int| 0 <= j < head.len() implies !members.contains_key(
                        #[trigger] head[j],
                    ) by {
                        assert(next[j] == head[j]);
                    }
                    assert(next[i as int] == names[i as int]);
                }
                if has_no_key(members, head) && !members.contains_key(names[i as int]) {
                    assert forall|j: int| 0 <= j < next.len() implies !members.contains_key(
                        #[trigger] next[j],
                    ) by {
                        if j < i {
                            assert(next[j] == head[j]);
                        }
                    }
                }
            }
        }
        if let Some(value) = object_get(&object, keys[i].as_str()) {
            found = true;
            object_insert(&mut managed, keys[i].clone(), value);
        }
        proof {
            assert(json_members(managed) =~= managed_members(members, names.take(i as int + 1)));
        }
        i += 1;
    }
    proof {
        assert(names.take(names.len() as int) =~= names);
    }
    if !found {
        return Ok(None);
    }
    match serialize_json_object(&managed) {
        Ok(text) => Ok(Some(hash_content(text.as_slice()))),
        Err(fault) => Err(fault),
    }
}

/// Whether no managed key is in the object of the text.
pub fn managed_json_keys_absent(text: &[u8], keys: &[String]) -> (result: Result<bool, JsonFault>)
    ensures
        result == match destination_members(text@) {
            Ok(members) => Ok(has_no_key(members, texts(keys@))),
            Err(fault) => Err(fault),
        },
{
    let object = match parse_json_object(text, JsonFault::DestinationNotObject) {
        Ok(object) => object,
        Err(fault) => return Err(fault),
    };
    let ghost names = texts(keys@);
    let mut i: usize = 0;
    while i < keys.len()
        invariant
            i <= keys.len(),
            names == texts(keys@),
            json_object(text@) == Some(json_members(object)),
            forall|j: int|
                0 <= j < i ==> !json_members(object).contains_key(#[trigger] names[j]),
        decreases keys.len() - i,
    {
        proof {
            assert(names[i as int] == keys@[i as int]@);
        }
        if object_get(&object, keys[i].as_str()).is_some() {
            return Ok(false);
        }
        i += 1;
    }
    Ok(true)
}

/// Whether the managed keys stand alike in both objects.
pub fn managed_json_keys_match(current: &[u8], original: &[u8], keys: &[String]) -> (result: Result<
    bool,
    JsonFault,
>)
    ensures
        result == match (destination_members(current@), destination_members(original@)) {
            (Ok(left), Ok(right)) => Ok(keys_agree(left, right, texts(keys@))),
            _ => Err(JsonFault::DestinationNotObject),
        },
{
    let left = match parse_json_object(current, JsonFault::DestinationNotObject) {
        Ok(object) => object,
        Err(fault) => return Err(fault),
    };
    let right = match parse_json_object(original, JsonFault::DestinationNotObject) {
        Ok(object) => object,
        Err(fault) => return Err(fault),
    };
    let ghost names = texts(keys@);
    let mut i: usize = 0;
    while i < keys.len()
        invariant
            i <= keys.len(),
            names == texts(keys@),
            json_object(current@) == Some(json_members(left)),
            json_object(original@) == Some(json_members(right)),
            forall|j: int|
                0 <= j < i ==> key_agrees(
                    json_members(left),
                    json_members(right),
                    #[trigger] names[j],
                ),
        decreases keys.len() - i,
    {
        let left_value = object_get(&left, keys[i].as_str());
        let right_value = object_get(&right, keys[i].as_str());
        proof {
            assert(names[i as int] == keys@[i as int]@);
        }
        let agree = match (&left_value, &right_value) {
            (Some(left_value), Some(right_value)) => values_equal(left_value, right_value),
            (None, None) => true,
            _ => false,
        };
        if !agree {
            assert(!key_agrees(json_members(left), json_members(right), names[i as int]));
            return Ok(false);
        }
        i += 1;
    }
    Ok(true)
}

/// Whether every member of the object of the text is a managed one.
pub fn holds_only_managed(text: &[u8], keys: &[String]) -> (result: Result<bool, JsonFault>)
    ensures
        result == match destination_members(text@) {
            Ok(members) => Ok(only_managed(members, texts(keys@))),
            Err(fault) => Err(fault),
        },
{
    let object = match parse_json_object(text, JsonFault::DestinationNotObject) {
        Ok(object) => object,
        Err(fault) => return Err(fault),
    };
    let names = object_names(&object);
    let ghost members = json_members(object);
    let mut i: usize = 0;
    while i < names.len()
        invariant
            i <= names.len(),
            members == json_members(object),
            json_object(text@) == Some(members),
            forall|name: Seq<char>|
                texts(names@).contains(name) <==> #[trigger] members.contains_key(name),
            forall|j: int| 0 <= j < i ==> texts(keys@).contains(#[trigger] texts(names@)[j]),
        decreases names.len() - i,
    {
        proof {
            assert(texts(names@)[i as int] == names@[i as int]@);
            assert(texts(names@).contains(names@[i as int]@));
            assert(members.contains_key(names@[i as int]@));
        }
        if !list_contains(keys, names[i].as_str()) {
            return Ok(false);
        }
        i += 1;
    }
    proof {
        assert forall|name: Seq<char>| #[trigger] members.contains_key(name) implies texts(
            keys@,
        ).contains(name) by {
            assert(texts(names@).contains(name));
            let j = choose|j: int| 0 <= j < texts(names@).len() && texts(names@)[j] == name;
            assert(texts(keys@).contains(texts(names@)[j]));
        }
    }
    Ok(true)
}

fn copy_managed(
    object: &mut serde_json::Map<String, serde_json::Value>,
    from: &serde_json::Map<String, serde_json::Value>,
    keys: &[String],
)
    ensures
        json_members(*final(object)) == merged_members(
            json_members(*old(object)),
            json_members(*from),
            texts(keys@),
        ),
{
    let ghost names = texts(keys@);
    let ghost base = json_members(*object);
    let ghost source = json_members(*from);
    let mut i: usize = 0;
    proof {
        assert(names.take(0) =~= Seq::<Seq<char>>::empty());
        assert(json_members(*object) =~= merged_members(base, source, names.take(0)));
    }
    while i < keys.len()
        invariant
            i <= keys.len(),
            names == texts(keys@),
            source == json_members(*from),
            json_members(*object) == merged_members(base, source, names.take(i as int)),
        decreases keys.len() - i,
    {
        proof {
            lemma_take_set(names, i as int);
            assert(names[i as int] == keys@[i as int]@);
        }
        if let Some(value) = object_get(from, keys[i].as_str()) {
            object_insert(object, keys[i].clone(), value);
        }
        proof {
            assert(json_members(*object) =~= merged_members(
                base,
                source,
                names.take(i as int + 1),
            ));
        }
        i += 1;
    }
    proof {
        assert(names.take(names.len() as int) =~= names);
    }
}

fn drop_managed(object: &mut serde_json::Map<String, serde_json::Value>, keys: &[String])
    ensures
        json_members(*final(object)) == unmanaged_members(
            json_members(*old(object)),
            texts(keys@),
        ),
{
    let ghost names = texts(keys@);
    let ghost base = json_members(*object);
    let mut i: usize = 0;
    proof {
        assert(names.take(0) =~= Seq::<Seq<char>>::empty());
        assert(json_members(*object) =~= unmanaged_members(base, names.take(0)));
    }
    while i < keys.len()
        invariant
            i <= keys.len(),
            names == texts(keys@),
            json_members(*object) == unmanaged_members(base, names.take(i as int)),
        decreases keys.len() - i,
    {
        proof {
            lemma_take_set(names, i as int);
            assert(names[i as int] == keys@[i as int]@);
        }
        object_remove(object, keys[i].as_str());
        proof {
            assert(json_members(*object) =~= unmanaged_members(base, names.take(i as int + 1)));
        }
        i += 1;
    }
    proof {
        assert(names.take(names.len() as int) =~= names);
    }
}

/// The members that merging gives: those of the original with the managed members
/// of the source put in.
pub open spec fn merge_members(
    original: Option<Seq<u8>>,
    source: Seq<u8>,
    keys: Seq<Seq<char>>,
) -> Result<Map<Seq<char>, Seq<u8>>, JsonFault> {
    match payload(source, keys) {
        Err(fault) => Err(fault),
        Ok(managed) => match original {
            None => Ok(managed),
            Some(text) => match json_object(text) {
                None => Err(JsonFault::DestinationNotObject),
                Some(base) => Ok(base.union_prefer_right(managed)),
            },
        },
    }
}

/// What merging gives: the text with the managed members of the source put in.
pub open spec fn merge_result(
    original: Option<Seq<u8>>,
    source: Seq<u8>,
    keys: Seq<Seq<char>>,
) -> Result<Seq<u8>, JsonFault> {
    match merge_members(original, source, keys) {
        Err(fault) => Err(fault),
        Ok(members) => written(members),
    }
}

/// Puts the managed members of a source into an object, or into a new one.
pub fn merge_managed_json_bytes(original: Option<&[u8]>, source: &[u8], keys: &[String]) -> (result:
    Result<Vec<u8>, JsonFault>)
    ensures
        (match result {
            Ok(text) => Ok::<Seq<u8>, JsonFault>(text@),
            Err(fault) => Err(fault),
        }) == merge_result(
            match original {
                Some(text) => Some(text@),
                None => None,
            },
            source@,
            texts(keys@),
        ),
        match merge_members(
            match original {
                Some(text) => Some(text@),
                None => None,
            },
            source@,
            texts(keys@),
        ) {
            Ok(members) => all_read_back(members) ==> result is Ok && json_object(result->Ok_0@)
                == Some(members),
            Err(_) => true,
        },
{
    let managed = match managed_json_payload(source, keys) {
        Ok(managed) => managed,
        Err(fault) => return Err(fault),
    };
    let mut object = match original {
        Some(text) => match parse_json_object(text, JsonFault::DestinationNotObject) {
            Ok(object) => object,
            Err(fault) => return Err(fault),
        },
        None => object_new(),
    };
    let ghost base = json_members(object);
    copy_managed(&mut object, &managed, keys);
    proof {
        let names = texts(keys@);
        let source_members = json_object(source@)->0;
        assert(json_members(managed) == managed_members(source_members, names));
        assert(managed_members(json_members(managed), names) =~= json_members(managed));
        if original is None {
            assert(json_members(object) =~= json_members(managed));
        }
    }
    serialize_json_object(&object)
}

/// What removing gives: the text without the managed members.
pub open spec fn removal_result(text: Seq<u8>, keys: Seq<Seq<char>>) -> Result<
    Seq<u8>,
    JsonFault,
> {
    match json_object(text) {
        None => Err(JsonFault::DestinationNotObject),
        Some(members) => written(unmanaged_members(members, keys)),
    }
}

/// Takes the managed members out of an object.
pub fn remove_managed_json_bytes(text: &[u8], keys: &[String]) -> (result: Result<
    Vec<u8>,
    JsonFault,
>)
    ensures
        (match result {
            Ok(text) => Ok::<Seq<u8>, JsonFault>(text@),
            Err(fault) => Err(fault),
        }) == removal_result(text@, texts(keys@)),
        match json_object(text@) {
            Some(members) => {
                let left = unmanaged_members(members, texts(keys@));
                all_read_back(left) ==> result is Ok && json_object(result->Ok_0@) == Some(left)
            },
            None => true,
        },
{
    let mut object = match parse_json_object(text, JsonFault::DestinationNotObject) {
        Ok(object) => object,
        Err(fault) => return Err(fault),
    };
    drop_managed(&mut object, keys);
    serialize_json_object(&object)
}

/// What restoring gives: the current text with the managed members of the
/// original.
pub open spec fn restore_result(
    current: Seq<u8>,
    original: Seq<u8>,
    keys: Seq<Seq<char>>,
) -> Result<Seq<u8>, JsonFault> {
    match (json_object(current), json_object(original)) {
        (Some(current), Some(original)) => written(restored_members(current, original, keys)),
        _ => Err(JsonFault::DestinationNotObject),
    }
}

/// Puts the managed members of the original back in place of the current ones.
pub fn restore_managed_json_bytes(current: &[u8], original: &[u8], keys: &[String]) -> (result:
    Result<Vec<u8>, JsonFault>)
    ensures
        (match result {
            Ok(text) => Ok::<Seq<u8>, JsonFault>(text@),
            Err(fault) => Err(fault),
        }) == restore_result(current@, original@, texts(keys@)),
        match (json_object(current@), json_object(original@)) {
            (Some(current), Some(original)) => {
                let restored = restored_members(current, original, texts(keys@));
                all_read_back(restored) ==> result is Ok && json_object(result->Ok_0@) == Some(
                    restored,
                )
            },
            _ => true,
        },
{
    let mut object = match parse_json_object(current, JsonFault::DestinationNotObject) {
        Ok(object) => object,
        Err(fault) => return Err(fault),
    };
    let from = match parse_json_object(original, JsonFault::DestinationNotObject) {
        Ok(object) => object,
        Err(fault) => return Err(fault),
    };
    drop_managed(&mut object, keys);
    copy_managed(&mut object, &from, keys);
    serialize_json_object(&object)
}

/// Merging, removing and restoring leave every unmanaged member as it was.
pub proof fn law_unmanaged_members_are_kept(
    current: Map<Seq<char>, Seq<u8>>,
    other: Map<Seq<char>, Seq<u8>>,
    keys: Seq<Seq<char>>,
    name: Seq<char>,
)
    requires
        !keys.contains(name),
    ensures
        merged_members(current, other, keys).contains_key(name) == current.contains_key(name),
        unmanaged_members(current, keys).contains_key(name) == current.contains_key(name),
        restored_members(current, other, keys).contains_key(name) == current.contains_key(name),
        current.contains_key(name) ==> {
            &&& merged_members(current, other, keys)[name] == current[name]
            &&& unmanaged_members(current, keys)[name] == current[name]
            &&& restored_members(current, other, keys)[name] == current[name]
        },
{
}

/// Where what was merged reads as it was written, the managed keys have the
/// identity that was asked for, and every other member is the one that stood there.
pub proof fn law_merged_keys_are_found(
    original: Option<Seq<u8>>,
    source: Seq<u8>,
    keys: Seq<Seq<char>>,
)
    requires
        keys.len() > 0,
        merge_members(original, source, keys) is Ok,
        reads_as_written(merge_members(original, source, keys)->Ok_0),
    ensures
        ({
            let text = merge_result(original, source, keys)->Ok_0;
            &&& merge_result(original, source, keys) is Ok
            &&& match desired_json_hash(source, keys) {
                Ok(hash) => current_json_hash(text, keys) == Ok::<Option<u64>, JsonFault>(
                    Some(hash),
                ),
                Err(fault) => current_json_hash(text, keys) == Err::<Option<u64>, JsonFault>(
                    fault,
                ),
            }
            &&& unmanaged_members(json_object(text)->0, keys) == match original {
                Some(before) => unmanaged_members(json_object(before)->0, keys),
                None => no_members(),
            }
        }),
{
    let members = merge_members(original, source, keys)->Ok_0;
    let given = json_object(source)->0;
    let managed = managed_members(given, keys);
    lemma_none_missing(given, keys);
    assert(given.contains_key(keys[0]));
    assert(name_set(keys).contains(keys[0]));
    assert(managed_members(members, keys) =~= managed) by {
        assert forall|name: Seq<char>| name_set(keys).contains(name) implies given.contains_key(
            name,
        ) by {
            let i = choose|i: int| 0 <= i < keys.len() && keys[i] == name;
            assert(given.contains_key(keys[i]));
        }
    }
    assert(members.contains_key(keys[0]));
    match original {
        Some(before) => {
            let base = json_object(before)->0;
            assert(unmanaged_members(members, keys) =~= unmanaged_members(base, keys));
        },
        None => {
            assert(unmanaged_members(members, keys) =~= no_members());
        },
    }
}

/// Restoring after a merge, or after a removal, gives the original members back.
pub proof fn law_restore_undoes_merge_and_removal(
    original: Map<Seq<char>, Seq<u8>>,
    source: Map<Seq<char>, Seq<u8>>,
    keys: Seq<Seq<char>>,
)
    ensures
        restored_members(merged_members(original, source, keys), original, keys) == original,
        restored_members(unmanaged_members(original, keys), original, keys) == original,
{
    assert(restored_members(merged_members(original, source, keys), original, keys) =~= original);
    assert(restored_members(unmanaged_members(original, keys), original, keys) =~= original);
}

/// Where what is written reads as it was written, the text that restoring makes of
/// a merge, or of a removal, holds the members of the original text.
pub proof fn law_restored_text_holds_the_original(
    original: Seq<u8>,
    source: Seq<u8>,
    keys: Seq<Seq<char>>,
)
    requires
        json_object(original) is Some,
        reads_as_written(json_object(original)->0),
    ensures
        ({
            let merged = merge_members(Some(original), source, keys);
            merged is Ok && reads_as_written(merged->Ok_0) ==> {
                let text = merge_result(Some(original), source, keys)->Ok_0;
                &&& restore_result(text, original, keys) is Ok
                &&& json_object(restore_result(text, original, keys)->Ok_0) == json_object(original)
            }
        }),
        ({
            let left = unmanaged_members(json_object(original)->0, keys);
            reads_as_written(left) ==> {
                let text = removal_result(original, keys)->Ok_0;
                &&& restore_result(text, original, keys) is Ok
                &&& json_object(restore_result(text, original, keys)->Ok_0) == json_object(original)
            }
        }),
{
    let members = json_object(original)->0;
    let merged = merge_members(Some(original), source, keys);
    if merged is Ok {
        let given = json_object(source)->0;
        assert(merged->Ok_0 == merged_members(members, given, keys));
        law_restore_undoes_merge_and_removal(members, given, keys);
    }
    law_restore_undoes_merge_and_removal(members, members, keys);
}

/// Where what is written reads as it was written, the text that undoing makes holds
/// the managed members that stood there before the operation, or none where there
/// were none, and every other member as the user left it.
pub proof fn law_undone_text_keeps_what_the_user_left(
    current: Seq<u8>,
    original: Seq<u8>,
    keys: Seq<Seq<char>>,
)
    requires
        json_object(current) is Some,
        json_object(original) is Some,
    ensures
        ({
            let left = json_object(current)->0;
            let before = json_object(original)->0;
            reads_as_written(restored_members(left, before, keys)) ==> {
                let text = restore_result(current, original, keys)->Ok_0;
                &&& restore_result(current, original, keys) is Ok
                &&& managed_members(json_object(text)->0, keys) == managed_members(before, keys)
                &&& unmanaged_members(json_object(text)->0, keys) == unmanaged_members(left, keys)
            }
        }),
        ({
            let left = json_object(current)->0;
            reads_as_written(unmanaged_members(left, keys)) ==> {
                let text = removal_result(current, keys)->Ok_0;
                &&& removal_result(current, keys) is Ok
                &&& managed_members(json_object(text)->0, keys) == no_members()
                &&& unmanaged_members(json_object(text)->0, keys) == unmanaged_members(left, keys)
            }
        }),
{
    let left = json_object(current)->0;
    let before = json_object(original)->0;
    let restored = restored_members(left, before, keys);
    let removed = unmanaged_members(left, keys);
    assert(managed_members(restored, keys) =~= managed_members(before, keys));
    assert(unmanaged_members(restored, keys) =~= unmanaged_members(left, keys));
    assert(managed_members(removed, keys) =~= no_members());
    assert(unmanaged_members(removed, keys) =~= removed);
}

} // verus!
