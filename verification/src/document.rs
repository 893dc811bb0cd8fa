//! The JSON document that reports a finished migration.
//!
//! The document is built as a value of the `json` crate and printed by it. The
//! crate's values are opaque to the verifier, so each call into it goes through
//! a small function whose contract is taken on trust; the contracts speak of
//! [`JsonModel`], a mathematical picture of a JSON value.

use vstd::prelude::*;
use crate::file::File;

verus! {

/// A JSON value as a mathematical tree.
pub enum JsonModel {
    /// A string.
    Text(Seq<char>),
    /// An array, in order.
    List(Seq<JsonModel>),
    /// An object: its members in the order in which they print, no key twice.
    Record(Seq<(Seq<char>, JsonModel)>),
    /// Null, a boolean or a number, held as the characters it prints as.
    Scalar(Seq<char>),
}

/// A value of the `json` crate. Nothing of its inside is visible here.
#[verifier::external_type_specification]
#[verifier::external_body]
pub struct ExJsonValue(json::JsonValue);

/// The error type of the `json` crate.
#[verifier::external_type_specification]
#[verifier::external_body]
pub struct ExJsonError(json::Error);

/// The tree that a value of the `json` crate holds.
pub uninterp spec fn json_model(value: json::JsonValue) -> JsonModel;

/// The text that the `json` crate prints for a tree, without any whitespace
/// between tokens.
pub uninterp spec fn json_text(model: JsonModel) -> Seq<char>;

/// The members of an object; a value that is no object has none.
pub open spec fn members_of(model: JsonModel) -> Seq<(Seq<char>, JsonModel)> {
    match model {
        JsonModel::Record(members) => members,
        _ => Seq::empty(),
    }
}

/// The members of an object after `key` has been set to `value`: an existing
/// member of that key keeps its place and takes the new value, otherwise the
/// new member goes to the end.
pub open spec fn record_with(
    members: Seq<(Seq<char>, JsonModel)>,
    key: Seq<char>,
    value: JsonModel,
) -> Seq<(Seq<char>, JsonModel)> {
    if exists|i: int| 0 <= i < members.len() && (#[trigger] members[i]).0 == key {
        let i: int = choose|i: int| 0 <= i < members.len() && (#[trigger] members[i]).0 == key;
        members.update(i, (key, value))
    } else {
        members.push((key, value))
    }
}

/// `json::JsonValue::new_object`: a new object without members.
#[verifier::external_body]
fn json_object() -> (value: json::JsonValue)
    ensures
        json_model(value) == JsonModel::Record(Seq::empty()),
{
    json::JsonValue::new_object()
}

/// `json::JsonValue::new_array`: a new array without items.
#[verifier::external_body]
fn json_array() -> (value: json::JsonValue)
    ensures
        json_model(value) == JsonModel::List(Seq::empty()),
{
    json::JsonValue::new_array()
}

/// `json::JsonValue::from` on a string slice: the JSON string of the same
/// characters.
#[verifier::external_body]
fn json_string(text: &str) -> (value: json::JsonValue)
    ensures
        json_model(value) == JsonModel::Text(text@),
{
    json::JsonValue::from(text)
}

/// Assignment through `json::JsonValue`'s index by key. On an object it sets
/// the member `key` to `value`, as [`record_with`] says. Any other value is
/// first replaced by an object without members.
#[verifier::external_body]
fn json_set(object: &mut json::JsonValue, key: &str, value: json::JsonValue)
    ensures
        json_model(*final(object)) == JsonModel::Record(
            record_with(members_of(json_model(*old(object))), key@, json_model(value)),
        ),
{
    object[key] = value;
}

/// `json::JsonValue::push`: on an array it appends the item and returns `Ok`;
/// on any other value it changes nothing and returns an error.
#[verifier::external_body]
fn json_push(array: &mut json::JsonValue, item: json::JsonValue) -> (result: Result<
    (),
    json::Error,
>)
    ensures
        match json_model(*old(array)) {
            JsonModel::List(items) => result is Ok && json_model(*final(array))
                == JsonModel::List(items.push(json_model(item))),
            _ => result is Err && json_model(*final(array)) == json_model(*old(array)),
        },
{
    array.push(item)
}

/// `json::JsonValue::dump`: the value printed as JSON text.
#[verifier::external_body]
fn json_dump(value: &json::JsonValue) -> (text: String)
    ensures
        text@ == json_text(json_model(*value)),
{
    value.dump()
}

/// The object that reports one converted file.
pub open spec fn file_entry(file: File) -> JsonModel {
    JsonModel::Record(
        seq![
            ("fileName"@, JsonModel::Text(file.file_name@)),
            ("fileContent"@, JsonModel::Text(file.file_content@)),
        ],
    )
}

/// The document that reports a migration: the conversion log, then the
/// converted files in the order given.
pub open spec fn document(log: Seq<char>, files: Seq<File>) -> JsonModel {
    JsonModel::Record(
        seq![
            ("log"@, JsonModel::Text(log)),
            ("files"@, JsonModel::List(files.map_values(|f: File| file_entry(f)))),
        ],
    )
}

/// The value of the member `key` of an object, if it has one.
pub open spec fn member(model: JsonModel, key: Seq<char>) -> Option<JsonModel> {
    let members = members_of(model);
    if exists|i: int| 0 <= i < members.len() && (#[trigger] members[i]).0 == key {
        let i: int = choose|i: int| 0 <= i < members.len() && (#[trigger] members[i]).0 == key;
        Some(members[i].1)
    } else {
        None
    }
}

/// Setting two different keys on an object without members gives these two
/// members, in the order in which they were set.
proof fn lemma_record_of_two(first: (Seq<char>, JsonModel), second: (Seq<char>, JsonModel))
    requires
        first.0 != second.0,
    ensures
        record_with(
            record_with(Seq::empty(), first.0, first.1),
            second.0,
            second.1,
        ) == seq![first, second],
{
    let empty = Seq::<(Seq<char>, JsonModel)>::empty();
    let one = empty.push(first);
    assert(record_with(empty, first.0, first.1) == one);
    assert(forall|i: int| 0 <= i < one.len() ==> (#[trigger] one[i]).0 != second.0);
    assert(record_with(one, second.0, second.1) == one.push(second));
    assert(one.push(second) =~= seq![first, second]);
}

/// Builds the object for one file.
fn file_entry_value(file: &File) -> (value: json::JsonValue)
    ensures
        json_model(value) == file_entry(*file),
{
    let mut entry = json_object();
    json_set(&mut entry, "fileName", json_string(file.file_name.as_str()));
    json_set(&mut entry, "fileContent", json_string(file.file_content.as_str()));
    proof {
        reveal_strlit("fileName");
        reveal_strlit("fileContent");
        assert("fileName"@.len() == 8 && "fileContent"@.len() == 11);
        lemma_record_of_two(
            ("fileName"@, JsonModel::Text(file.file_name@)),
            ("fileContent"@, JsonModel::Text(file.file_content@)),
        );
    }
    entry
}

/// Renders the report of a migration as JSON text:
/// `{"log":…,"files":[{"fileName":…,"fileContent":…},…]}`.
pub fn generate_json(log: &str, files: &Vec<File>) -> (text: String)
    ensures
        text@ == json_text(document(log@, files@)),
{
    let mut list = json_array();
    let mut i: usize = 0;
    assert(files@.subrange(0, 0).map_values(|f: File| file_entry(f)) =~= Seq::empty());
    while i < files.len()
        invariant
            i <= files.len(),
            json_model(list) == JsonModel::List(
                files@.subrange(0, i as int).map_values(|f: File| file_entry(f)),
            ),
        decreases files.len() - i,
    {
        let entry = file_entry_value(&files[i]);
        match json_push(&mut list, entry) {
            Ok(()) => {},
            Err(_) => {
                assert(false);
            },
        }
        proof {
            let before = files@.subrange(0, i as int).map_values(|f: File| file_entry(f));
            let after = files@.subrange(0, i + 1).map_values(|f: File| file_entry(f));
            assert(after =~= before.push(file_entry(files@[i as int])));
        }
        i += 1;
    }
    assert(files@.subrange(0, i as int) =~= files@);
    let mut report = json_object();
    json_set(&mut report, "log", json_string(log));
    json_set(&mut report, "files", list);
    proof {
        reveal_strlit("log");
        reveal_strlit("files");
        assert("log"@.len() == 3 && "files"@.len() == 5);
        lemma_record_of_two(("log"@, JsonModel::Text(log@)), ("files"@, json_model(list)));
    }
    json_dump(&report)
}

/// The report holds what it was made of: read back member by member, the
/// document gives the log and, in the order of the files, each file's name
/// and content.
pub proof fn lemma_report_holds_the_files(log: Seq<char>, files: Seq<File>)
    ensures
        member(document(log, files), "log"@) == Some(JsonModel::Text(log)),
        member(document(log, files), "files"@) matches Some(JsonModel::List(entries)) && {
            &&& entries.len() == files.len()
            &&& forall|i: int|
                0 <= i < files.len() ==> {
                    &&& member(#[trigger] entries[i], "fileName"@) == Some(
                        JsonModel::Text(files[i].file_name@),
                    )
                    &&& member(entries[i], "fileContent"@) == Some(
                        JsonModel::Text(files[i].file_content@),
                    )
                }
        },
{
    reveal_strlit("log");
    reveal_strlit("files");
    reveal_strlit("fileName");
    reveal_strlit("fileContent");
    let entries = files.map_values(|f: File| file_entry(f));
    let members = document(log, files)->Record_0;
    assert(members[0].0 == "log"@ && members[1].0 == "files"@);
    assert("log"@.len() == 3 && "files"@.len() == 5);
    assert(member(document(log, files), "files"@) == Some(JsonModel::List(entries)));
    assert forall|i: int| 0 <= i < files.len() implies {
        &&& member(#[trigger] entries[i], "fileName"@) == Some(
            JsonModel::Text(files[i].file_name@),
        )
        &&& member(entries[i], "fileContent"@) == Some(JsonModel::Text(files[i].file_content@))
    } by {
        let pair = entries[i]->Record_0;
        assert(pair[0].0 == "fileName"@ && pair[1].0 == "fileContent"@);
        assert("fileName"@.len() == 8 && "fileContent"@.len() == 11);
    }
}

} // verus!
