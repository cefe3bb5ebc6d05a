//! Reading the arguments of the builtin tools out of JSON.
//!
//! A tool's arguments are a record: a table of named fields, each of a kind,
//! some of them required. A record may be written as an object, whose entries
//! come in any order and whose unknown entries are ignored, or as an array,
//! whose items stand for the fields in order. A field that is absent and not
//! required has its empty value.

use vstd::prelude::*;

use crate::json;
use crate::json::{Json, JsonNumber, JsonNumberView, JsonView};
use crate::text;

verus! {

/// The records that tool arguments are made of.
#[derive(Debug, Clone, Copy, PartialEq, Eq, Structural)]
pub enum Record {
    RunShellCommandArgs,
    ReadFilesArgs,
    ReadFileArg,
    LineRangeArg,
    EditFilesArgs,
    FileDiffArg,
    NewFileArg,
    GrepArgs,
    FileGlobArgs,
    SuggestPromptArgs,
    ReadMcpResourceArgs,
}

/// What a field holds.
#[derive(Debug, Clone, Copy, PartialEq, Eq, Structural)]
pub enum FieldKind {
    Text,
    Flag,
    Count,
    Texts,
    Records(Record),
}

/// A field of a record.
pub struct Field {
    pub name: &'static str,
    pub kind: FieldKind,
    pub required: bool,
}

#[verifier::ext_equal]
pub struct FieldView {
    pub name: Seq<char>,
    pub kind: FieldKind,
    pub required: bool,
}

impl DeepView for Field {
    type V = FieldView;

    open spec fn deep_view(&self) -> FieldView {
        FieldView { name: self.name@, kind: self.kind, required: self.required }
    }
}

pub open spec fn required(name: Seq<char>, kind: FieldKind) -> FieldView {
    FieldView { name, kind, required: true }
}

pub open spec fn optional(name: Seq<char>, kind: FieldKind) -> FieldView {
    FieldView { name, kind, required: false }
}

fn required_field(name: &'static str, kind: FieldKind) -> (field: Field)
    ensures
        field.deep_view() == required(name@, kind),
{
    Field { name, kind, required: true }
}

fn optional_field(name: &'static str, kind: FieldKind) -> (field: Field)
    ensures
        field.deep_view() == optional(name@, kind),
{
    Field { name, kind, required: false }
}

/// The name of a record.
pub open spec fn record_name(record: Record) -> Seq<char> {
    match record {
        Record::RunShellCommandArgs => "RunShellCommandArgs"@,
        Record::ReadFilesArgs => "ReadFilesArgs"@,
        Record::ReadFileArg => "ReadFileArg"@,
        Record::LineRangeArg => "LineRangeArg"@,
        Record::EditFilesArgs => "EditFilesArgs"@,
        Record::FileDiffArg => "FileDiffArg"@,
        Record::NewFileArg => "NewFileArg"@,
        Record::GrepArgs => "GrepArgs"@,
        Record::FileGlobArgs => "FileGlobArgs"@,
        Record::SuggestPromptArgs => "SuggestPromptArgs"@,
        Record::ReadMcpResourceArgs => "ReadMcpResourceArgs"@,
    }
}

/// The fields of a record, in order.
pub open spec fn record_fields(record: Record) -> Seq<FieldView> {
    match record {
        Record::RunShellCommandArgs => seq![
            required("command"@, FieldKind::Text),
            optional("is_read_only"@, FieldKind::Flag),
            optional("is_risky"@, FieldKind::Flag),
        ],
        Record::ReadFilesArgs => seq![
            required("files"@, FieldKind::Records(Record::ReadFileArg)),
        ],
        Record::ReadFileArg => seq![
            required("path"@, FieldKind::Text),
            optional("line_ranges"@, FieldKind::Records(Record::LineRangeArg)),
        ],
        Record::LineRangeArg => seq![
            required("start"@, FieldKind::Count),
            required("end"@, FieldKind::Count),
        ],
        Record::EditFilesArgs => seq![
            optional("summary"@, FieldKind::Text),
            optional("diffs"@, FieldKind::Records(Record::FileDiffArg)),
            optional("new_files"@, FieldKind::Records(Record::NewFileArg)),
            optional("deleted_files"@, FieldKind::Texts),
        ],
        Record::FileDiffArg => seq![
            required("file_path"@, FieldKind::Text),
            required("search"@, FieldKind::Text),
            required("replace"@, FieldKind::Text),
        ],
        Record::NewFileArg => seq![
            required("file_path"@, FieldKind::Text),
            optional("content"@, FieldKind::Text),
            optional("allow_overwrite"@, FieldKind::Flag),
        ],
        Record::GrepArgs => seq![
            required("queries"@, FieldKind::Texts),
            optional("path"@, FieldKind::Text),
        ],
        Record::FileGlobArgs => seq![
            required("patterns"@, FieldKind::Texts),
            optional("search_dir"@, FieldKind::Text),
        ],
        Record::SuggestPromptArgs => seq![
            required("prompt"@, FieldKind::Text),
            optional("label"@, FieldKind::Text),
            optional("is_trigger_irrelevant"@, FieldKind::Flag),
        ],
        Record::ReadMcpResourceArgs => seq![
            required("uri"@, FieldKind::Text),
            optional("server_id"@, FieldKind::Text),
        ],
    }
}

fn name_of(record: Record) -> (name: &'static str)
    ensures
        name@ == record_name(record),
{
    match record {
        Record::RunShellCommandArgs => "RunShellCommandArgs",
        Record::ReadFilesArgs => "ReadFilesArgs",
        Record::ReadFileArg => "ReadFileArg",
        Record::LineRangeArg => "LineRangeArg",
        Record::EditFilesArgs => "EditFilesArgs",
        Record::FileDiffArg => "FileDiffArg",
        Record::NewFileArg => "NewFileArg",
        Record::GrepArgs => "GrepArgs",
        Record::FileGlobArgs => "FileGlobArgs",
        Record::SuggestPromptArgs => "SuggestPromptArgs",
        Record::ReadMcpResourceArgs => "ReadMcpResourceArgs",
    }
}

fn fields_of(record: Record) -> (fields: Vec<Field>)
    ensures
        fields.deep_view() == record_fields(record),
{
    let fields: Vec<Field> = match record {
        Record::RunShellCommandArgs => vec![
            required_field("command", FieldKind::Text),
            optional_field("is_read_only", FieldKind::Flag),
            optional_field("is_risky", FieldKind::Flag),
        ],
        Record::ReadFilesArgs => vec![
            required_field("files", FieldKind::Records(Record::ReadFileArg)),
        ],
        Record::ReadFileArg => vec![
            required_field("path", FieldKind::Text),
            optional_field("line_ranges", FieldKind::Records(Record::LineRangeArg)),
        ],
        Record::LineRangeArg => vec![
            required_field("start", FieldKind::Count),
            required_field("end", FieldKind::Count),
        ],
        Record::EditFilesArgs => vec![
            optional_field("summary", FieldKind::Text),
            optional_field("diffs", FieldKind::Records(Record::FileDiffArg)),
            optional_field("new_files", FieldKind::Records(Record::NewFileArg)),
            optional_field("deleted_files", FieldKind::Texts),
        ],
        Record::FileDiffArg => vec![
            required_field("file_path", FieldKind::Text),
            required_field("search", FieldKind::Text),
            required_field("replace", FieldKind::Text),
        ],
        Record::NewFileArg => vec![
            required_field("file_path", FieldKind::Text),
            optional_field("content", FieldKind::Text),
            optional_field("allow_overwrite", FieldKind::Flag),
        ],
        Record::GrepArgs => vec![
            required_field("queries", FieldKind::Texts),
            optional_field("path", FieldKind::Text),
        ],
        Record::FileGlobArgs => vec![
            required_field("patterns", FieldKind::Texts),
            optional_field("search_dir", FieldKind::Text),
        ],
        Record::SuggestPromptArgs => vec![
            required_field("prompt", FieldKind::Text),
            optional_field("label", FieldKind::Text),
            optional_field("is_trigger_irrelevant", FieldKind::Flag),
        ],
        Record::ReadMcpResourceArgs => vec![
            required_field("uri", FieldKind::Text),
            optional_field("server_id", FieldKind::Text),
        ],
    };
    assert(fields.deep_view() =~= record_fields(record));
    fields
}

/// The value of a field that is absent.
pub open spec fn empty_value(kind: FieldKind) -> JsonView {
    match kind {
        FieldKind::Text => JsonView::Text(Seq::empty()),
        FieldKind::Flag => JsonView::Bool(false),
        FieldKind::Count => JsonView::Number(JsonNumberView::PosInt(0)),
        FieldKind::Texts => JsonView::Array(Seq::empty()),
        FieldKind::Records(_) => JsonView::Array(Seq::empty()),
    }
}

fn absent(kind: FieldKind) -> (value: Json)
    ensures
        value.deep_view() == empty_value(kind),
{
    match kind {
        FieldKind::Text => Json::Text(String::new()),
        FieldKind::Flag => Json::Bool(false),
        FieldKind::Count => Json::Number(JsonNumber::PosInt(0)),
        FieldKind::Texts => {
            let value = json::json_array(Vec::new());
            assert(value.deep_view()->Array_0 =~= Seq::empty());
            value
        },
        FieldKind::Records(_) => {
            let value = json::json_array(Vec::new());
            assert(value.deep_view()->Array_0 =~= Seq::empty());
            value
        },
    }
}

/// The position among the first `count` of `fields` of the one named `key`.
pub open spec fn field_index(fields: Seq<FieldView>, key: Seq<char>, count: nat) -> Option<int>
    decreases count,
{
    if count == 0 {
        None
    } else {
        match field_index(fields, key, (count - 1) as nat) {
            Some(at) => Some(at),
            None => if fields[count - 1].name == key {
                Some(count - 1)
            } else {
                None
            },
        }
    }
}

fn find_field(fields: &Vec<Field>, key: &str) -> (found: Option<usize>)
    ensures
        match found {
            Some(at) => at < fields.len() && field_index(fields.deep_view(), key@, fields@.len())
                == Some(at as int),
            None => field_index(fields.deep_view(), key@, fields@.len()) is None,
        },
{
    let mut found: Option<usize> = None;
    for i in 0..fields.len()
        invariant
            match found {
                Some(at) => at < i && field_index(fields.deep_view(), key@, i as nat) == Some(
                    at as int,
                ),
                None => field_index(fields.deep_view(), key@, i as nat) is None,
            },
    {
        assert(fields.deep_view()[i as int].name == fields@[i as int].name@);
        if found.is_none() && text::same_text(fields[i].name, key) {
            found = Some(i);
        }
    }
    found
}

pub open spec fn missing_field(name: Seq<char>) -> Seq<char> {
    "missing field `"@ + name + "`"@
}

pub open spec fn duplicate_field(name: Seq<char>) -> Seq<char> {
    "duplicate field `"@ + name + "`"@
}

pub open spec fn invalid_length(len: nat, expected: Seq<char>) -> Seq<char> {
    "invalid length "@ + text::decimal(len as int) + ", expected "@ + expected
}

fn field_fault(start: &str, name: &str) -> (message: String)
    ensures
        message@ == start@ + name@ + "`"@,
{
    let mut message = start.to_string();
    message.append(name);
    message.append("`");
    message
}

fn length_fault(len: usize, expected: &str) -> (message: String)
    ensures
        message@ == invalid_length(len as nat, expected@),
{
    let mut message = "invalid length ".to_string();
    message.append(text::unsigned_text(len as u64).as_str());
    message.append(", expected ");
    message.append(expected);
    message
}

/// What a record is called where a value of another type stands.
pub open spec fn record_title(record: Record) -> Seq<char> {
    "struct "@ + record_name(record)
}

/// What a record is called where an array is too short for it.
pub open spec fn record_shape(record: Record) -> Seq<char> {
    if record_fields(record).len() == 1 {
        record_title(record) + " with 1 element"@
    } else {
        record_title(record) + " with "@ + text::decimal(record_fields(record).len() as int)
            + " elements"@
    }
}

fn title_of(record: Record) -> (title: String)
    ensures
        title@ == record_title(record),
{
    let mut title = "struct ".to_string();
    title.append(name_of(record));
    title
}

fn shape_of(record: Record, width: usize) -> (shape: String)
    requires
        width == record_fields(record).len(),
    ensures
        shape@ == record_shape(record),
{
    let mut shape = title_of(record);
    if width == 1 {
        shape.append(" with 1 element");
    } else {
        shape.append(" with ");
        shape.append(text::unsigned_text(width as u64).as_str());
        shape.append(" elements");
    }
    shape
}

/// The value of a field of kind `kind` that `json` writes, or why it writes none.
/// A nested record is the array of its fields' values.
pub open spec fn read_value(kind: FieldKind, json: JsonView) -> Result<JsonView, Seq<char>>
    decreases json, 0nat,
{
    match kind {
        FieldKind::Text => if json is Text {
            Ok(json)
        } else {
            Err(json::type_refusal(json, "a string"@))
        },
        FieldKind::Flag => if json is Bool {
            Ok(json)
        } else {
            Err(json::type_refusal(json, "a boolean"@))
        },
        FieldKind::Count => match json::count_of(json) {
            Some(count) => Ok(JsonView::Number(JsonNumberView::PosInt(count as u64))),
            None => Err(json::count_refusal(json)),
        },
        FieldKind::Texts => match json {
            JsonView::Array(items) => read_items(None, items, items.len()),
            _ => Err(json::type_refusal(json, "a sequence"@)),
        },
        FieldKind::Records(record) => match json {
            JsonView::Array(items) => read_items(Some(record), items, items.len()),
            _ => Err(json::type_refusal(json, "a sequence"@)),
        },
    }
}

/// The list of what the first `count` of `items` write: records where a record
/// is given, else texts. The first fault counts.
pub open spec fn read_items(
    record: Option<Record>,
    items: Seq<JsonView>,
    count: nat,
) -> Result<JsonView, Seq<char>>
    decreases items, count,
{
    if count == 0 {
        Ok(JsonView::Array(Seq::empty()))
    } else if count > items.len() {
        Err(Seq::empty())
    } else {
        match read_items(record, items, (count - 1) as nat) {
            Ok(JsonView::Array(read)) => match match record {
                Some(record) => read_record(record, items[count - 1]),
                None => read_value(FieldKind::Text, items[count - 1]),
            } {
                Ok(value) => Ok(JsonView::Array(read.push(value))),
                Err(message) => Err(message),
            },
            other => other,
        }
    }
}

/// The slots of the fields of a record after the first `count` of the entries of an
/// object were read in order. The first fault counts.
pub open spec fn read_entries(
    record: Record,
    entries: Seq<(Seq<char>, JsonView)>,
    count: nat,
) -> Result<Seq<Option<JsonView>>, Seq<char>>
    decreases entries, count,
{
    let fields = record_fields(record);
    if count == 0 {
        Ok(Seq::new(fields.len(), |i: int| None))
    } else if count > entries.len() {
        Err(Seq::empty())
    } else {
        match read_entries(record, entries, (count - 1) as nat) {
            Ok(slots) => match field_index(fields, entries[count - 1].0, fields.len()) {
                Some(at) => if slots[at] is Some {
                    Err(duplicate_field(fields[at].name))
                } else {
                    match read_value(fields[at].kind, entries[count - 1].1) {
                        Ok(value) => Ok(slots.update(at, Some(value))),
                        Err(message) => Err(message),
                    }
                },
                None => Ok(slots),
            },
            Err(message) => Err(message),
        }
    }
}

/// The values of the first `count` fields, out of the slots that were filled.
pub open spec fn settle(
    fields: Seq<FieldView>,
    slots: Seq<Option<JsonView>>,
    count: nat,
) -> Result<Seq<JsonView>, Seq<char>>
    decreases count,
{
    if count == 0 {
        Ok(Seq::empty())
    } else {
        match settle(fields, slots, (count - 1) as nat) {
            Ok(values) => match slots[count - 1] {
                Some(value) => Ok(values.push(value)),
                None => if fields[count - 1].required {
                    Err(missing_field(fields[count - 1].name))
                } else {
                    Ok(values.push(empty_value(fields[count - 1].kind)))
                },
            },
            Err(message) => Err(message),
        }
    }
}

/// The values of the first `count` fields of a record, out of the items of an array.
pub open spec fn read_positions(
    record: Record,
    items: Seq<JsonView>,
    count: nat,
) -> Result<Seq<JsonView>, Seq<char>>
    decreases items, count,
{
    let fields = record_fields(record);
    if count == 0 {
        Ok(Seq::empty())
    } else {
        match read_positions(record, items, (count - 1) as nat) {
            Ok(values) => if count - 1 < items.len() {
                match read_value(fields[count - 1].kind, items[count - 1]) {
                    Ok(value) => Ok(values.push(value)),
                    Err(message) => Err(message),
                }
            } else if fields[count - 1].required {
                Err(invalid_length((count - 1) as nat, record_shape(record)))
            } else {
                Ok(values.push(empty_value(fields[count - 1].kind)))
            },
            Err(message) => Err(message),
        }
    }
}

/// The record that `json` writes, as the array of its fields' values in order, or
/// why it writes none.
pub open spec fn read_record(record: Record, json: JsonView) -> Result<JsonView, Seq<char>>
    decreases json, 1nat,
{
    let fields = record_fields(record);
    match json {
        JsonView::Object(entries) => match read_entries(record, entries, entries.len()) {
            Ok(slots) => match settle(fields, slots, fields.len()) {
                Ok(values) => Ok(JsonView::Array(values)),
                Err(message) => Err(message),
            },
            Err(message) => Err(message),
        },
        JsonView::Array(items) => match read_positions(record, items, fields.len()) {
            Ok(values) => if items.len() > fields.len() {
                Err(invalid_length(items.len(), "fewer elements in array"@))
            } else {
                Ok(JsonView::Array(values))
            },
            Err(message) => Err(message),
        },
        _ => Err(json::type_refusal(json, record_title(record))),
    }
}

/// What a reading came to, over views.
pub open spec fn reading(read: Result<Json, String>) -> Result<JsonView, Seq<char>> {
    match read {
        Ok(value) => Ok(value.deep_view()),
        Err(message) => Err(message@),
    }
}

/// Reads the value of a field.
fn decode_value(kind: FieldKind, json: &Json) -> (read: Result<Json, String>)
    ensures
        reading(read) == read_value(kind, json.deep_view()),
    decreases json, 0nat,
{
    match kind {
        FieldKind::Text => match json::read_text(json) {
            Ok(value) => Ok(Json::Text(value)),
            Err(message) => Err(message),
        },
        FieldKind::Flag => match json::read_flag(json) {
            Ok(value) => Ok(Json::Bool(value)),
            Err(message) => Err(message),
        },
        FieldKind::Count => match json::read_count(json) {
            Ok(value) => Ok(Json::Number(JsonNumber::PosInt(value as u64))),
            Err(message) => Err(message),
        },
        FieldKind::Texts => match json {
            Json::Array(items) => {
                assert(decreases_to!(*json => json->Array_0));
                assert(json.deep_view()->Array_0 =~= items.deep_view());
                decode_items(None, items)
            },
            _ => Err(json::refuse_type(json, "a sequence")),
        },
        FieldKind::Records(record) => match json {
            Json::Array(items) => {
                assert(decreases_to!(*json => json->Array_0));
                assert(json.deep_view()->Array_0 =~= items.deep_view());
                decode_items(Some(record), items)
            },
            _ => Err(json::refuse_type(json, "a sequence")),
        },
    }
}

proof fn items_fault_stays(record: Option<Record>, items: Seq<JsonView>, from: nat, to: nat)
    requires
        from <= to <= items.len(),
        read_items(record, items, from) is Err,
    ensures
        read_items(record, items, to) == read_items(record, items, from),
    decreases to,
{
    if from < to {
        items_fault_stays(record, items, from, (to - 1) as nat);
    }
}

/// Reads the items of a list.
fn decode_items(record: Option<Record>, items: &Vec<Json>) -> (read: Result<Json, String>)
    ensures
        reading(read) == read_items(record, items.deep_view(), items@.len()),
    decreases items, 0nat,
{
    let mut values: Vec<Json> = Vec::new();
    assert(values.deep_view() =~= Seq::empty());
    for i in 0..items.len()
        invariant
            read_items(record, items.deep_view(), i as nat) == Ok::<JsonView, Seq<char>>(
                JsonView::Array(values.deep_view()),
            ),
    {
        assert(decreases_to!(items => items@));
        assert(decreases_to!(items@ => items@[i as int]));
        assert(items.deep_view()[i as int] == items@[i as int].deep_view());
        let read = match record {
            Some(record) => decode_record(record, &items[i]),
            None => decode_value(FieldKind::Text, &items[i]),
        };
        let ghost before = values.deep_view();
        match read {
            Ok(value) => {
                values.push(value);
                assert(values.deep_view() =~= before.push(value.deep_view()));
            },
            Err(message) => {
                proof {
                    items_fault_stays(record, items.deep_view(), (i + 1) as nat, items@.len());
                }
                return Err(message);
            },
        }
    }
    Ok(json::json_array(values))
}

proof fn entries_fault_stays(
    record: Record,
    entries: Seq<(Seq<char>, JsonView)>,
    from: nat,
    to: nat,
)
    requires
        from <= to <= entries.len(),
        read_entries(record, entries, from) is Err,
    ensures
        read_entries(record, entries, to) == read_entries(record, entries, from),
    decreases to,
{
    if from < to {
        entries_fault_stays(record, entries, from, (to - 1) as nat);
    }
}

/// Reads the entries of an object into the slots of a record's fields.
fn decode_entries(
    record: Record,
    fields: &Vec<Field>,
    entries: &Vec<(String, Json)>,
) -> (read: Result<Vec<Option<Json>>, String>)
    requires
        fields.deep_view() == record_fields(record),
    ensures
        match read {
            Ok(slots) => slots@.len() == fields@.len() && read_entries(
                record,
                entries.deep_view(),
                entries@.len(),
            ) == Ok::<Seq<Option<JsonView>>, Seq<char>>(slots.deep_view()),
            Err(message) => read_entries(record, entries.deep_view(), entries@.len()) == Err::<
                Seq<Option<JsonView>>,
                Seq<char>,
            >(message@),
        },
    decreases entries, 0nat,
{
    let mut slots: Vec<Option<Json>> = Vec::new();
    for i in 0..fields.len()
        invariant
            slots@.len() == i,
            forall|k: int| 0 <= k < i ==> (#[trigger] slots@[k]) is None,
    {
        slots.push(None);
    }
    assert(slots.deep_view() =~= Seq::new(record_fields(record).len(), |i: int| None));
    for i in 0..entries.len()
        invariant
            fields.deep_view() == record_fields(record),
            slots@.len() == fields@.len(),
            read_entries(record, entries.deep_view(), i as nat) == Ok::<
                Seq<Option<JsonView>>,
                Seq<char>,
            >(slots.deep_view()),
    {
        assert(decreases_to!(entries => entries@));
        assert(decreases_to!(entries@ => entries@[i as int]));
        assert(entries.deep_view()[i as int] == entries@[i as int].deep_view());
        if let Some(at) = find_field(fields, entries[i].0.as_str()) {
            assert(fields.deep_view()[at as int] == fields@[at as int].deep_view());
            assert(slots.deep_view()[at as int] == slots@[at as int].deep_view());
            if slots[at].is_some() {
                proof {
                    entries_fault_stays(record, entries.deep_view(), (i + 1) as nat, entries@.len());
                }
                return Err(field_fault("duplicate field `", fields[at].name));
            }
            match decode_value(fields[at].kind, &entries[i].1) {
                Ok(value) => {
                    let ghost before = slots.deep_view();
                    slots.set(at, Some(value));
                    assert(slots.deep_view() =~= before.update(at as int, Some(value.deep_view())));
                },
                Err(message) => {
                    proof {
                        entries_fault_stays(
                            record,
                            entries.deep_view(),
                            (i + 1) as nat,
                            entries@.len(),
                        );
                    }
                    return Err(message);
                },
            }
        }
    }
    Ok(slots)
}

proof fn settle_fault_stays(
    fields: Seq<FieldView>,
    slots: Seq<Option<JsonView>>,
    from: nat,
    to: nat,
)
    requires
        from <= to,
        settle(fields, slots, from) is Err,
    ensures
        settle(fields, slots, to) == settle(fields, slots, from),
    decreases to,
{
    if from < to {
        settle_fault_stays(fields, slots, from, (to - 1) as nat);
    }
}

/// Gives every field its value, out of the slots that were filled.
fn settle_slots(fields: &Vec<Field>, slots: &Vec<Option<Json>>) -> (read: Result<Json, String>)
    requires
        slots@.len() == fields@.len(),
    ensures
        match settle(fields.deep_view(), slots.deep_view(), fields@.len()) {
            Ok(values) => reading(read) == Ok::<JsonView, Seq<char>>(JsonView::Array(values)),
            Err(message) => reading(read) == Err::<JsonView, Seq<char>>(message),
        },
{
    let mut values: Vec<Json> = Vec::new();
    assert(values.deep_view() =~= Seq::empty());
    for i in 0..fields.len()
        invariant
            slots@.len() == fields@.len(),
            settle(fields.deep_view(), slots.deep_view(), i as nat) == Ok::<
                Seq<JsonView>,
                Seq<char>,
            >(values.deep_view()),
    {
        assert(fields.deep_view()[i as int] == fields@[i as int].deep_view());
        assert(slots.deep_view()[i as int] == slots@[i as int].deep_view());
        let ghost before = values.deep_view();
        let value = match &slots[i] {
            Some(value) => value.clone(),
            None => {
                if fields[i].required {
                    proof {
                        settle_fault_stays(
                            fields.deep_view(),
                            slots.deep_view(),
                            (i + 1) as nat,
                            fields@.len(),
                        );
                    }
                    return Err(field_fault("missing field `", fields[i].name));
                }
                absent(fields[i].kind)
            },
        };
        values.push(value);
        assert(values.deep_view() =~= before.push(value.deep_view()));
    }
    Ok(json::json_array(values))
}

proof fn positions_fault_stays(record: Record, items: Seq<JsonView>, from: nat, to: nat)
    requires
        from <= to,
        read_positions(record, items, from) is Err,
    ensures
        read_positions(record, items, to) == read_positions(record, items, from),
    decreases to,
{
    if from < to {
        positions_fault_stays(record, items, from, (to - 1) as nat);
    }
}

/// Reads the items of an array as the fields of a record, in order.
fn decode_positions(record: Record, fields: &Vec<Field>, items: &Vec<Json>) -> (read: Result<
    Json,
    String,
>)
    requires
        fields.deep_view() == record_fields(record),
    ensures
        match read_positions(record, items.deep_view(), fields@.len()) {
            Ok(values) => reading(read) == Ok::<JsonView, Seq<char>>(JsonView::Array(values)),
            Err(message) => reading(read) == Err::<JsonView, Seq<char>>(message),
        },
    decreases items, 0nat,
{
    let mut values: Vec<Json> = Vec::new();
    assert(values.deep_view() =~= Seq::empty());
    for i in 0..fields.len()
        invariant
            fields.deep_view() == record_fields(record),
            read_positions(record, items.deep_view(), i as nat) == Ok::<Seq<JsonView>, Seq<char>>(
                values.deep_view(),
            ),
    {
        assert(fields.deep_view()[i as int] == fields@[i as int].deep_view());
        let ghost before = values.deep_view();
        let value = if i < items.len() {
            assert(decreases_to!(items => items@));
            assert(decreases_to!(items@ => items@[i as int]));
            assert(items.deep_view()[i as int] == items@[i as int].deep_view());
            match decode_value(fields[i].kind, &items[i]) {
                Ok(value) => value,
                Err(message) => {
                    proof {
                        positions_fault_stays(
                            record,
                            items.deep_view(),
                            (i + 1) as nat,
                            fields@.len(),
                        );
                    }
                    return Err(message);
                },
            }
        } else if fields[i].required {
            proof {
                positions_fault_stays(record, items.deep_view(), (i + 1) as nat, fields@.len());
            }
            return Err(length_fault(i, shape_of(record, fields.len()).as_str()));
        } else {
            absent(fields[i].kind)
        };
        values.push(value);
        assert(values.deep_view() =~= before.push(value.deep_view()));
    }
    Ok(json::json_array(values))
}

/// Reads a record, as the array of its fields' values in order.
pub fn decode_record(record: Record, json: &Json) -> (read: Result<Json, String>)
    ensures
        reading(read) == read_record(record, json.deep_view()),
    decreases json, 1nat,
{
    let fields = fields_of(record);
    match json {
        Json::Object(entries) => {
            assert(decreases_to!(*json => json->Object_0));
            assert(json.deep_view()->Object_0 =~= entries.deep_view());
            match decode_entries(record, &fields, entries) {
                Ok(slots) => settle_slots(&fields, &slots),
                Err(message) => Err(message),
            }
        },
        Json::Array(items) => {
            assert(decreases_to!(*json => json->Array_0));
            assert(json.deep_view()->Array_0 =~= items.deep_view());
            match decode_positions(record, &fields, items) {
                Ok(values) => {
                    if items.len() > fields.len() {
                        Err(length_fault(items.len(), "fewer elements in array"))
                    } else {
                        Ok(values)
                    }
                },
                Err(message) => Err(message),
            }
        },
        _ => Err(json::refuse_type(json, title_of(record).as_str())),
    }
}

/// The value at a position of a record that was read.
pub open spec fn item_at(row: JsonView, at: int) -> JsonView {
    match row {
        JsonView::Array(values) => if 0 <= at < values.len() {
            values[at]
        } else {
            JsonView::Null
        },
        _ => JsonView::Null,
    }
}

/// The text that a value is; empty where it is none.
pub open spec fn text_in(json: JsonView) -> Seq<char> {
    match json {
        JsonView::Text(content) => content,
        _ => Seq::empty(),
    }
}

/// The items of the list that a value is; none where it is no list.
pub open spec fn list_in(json: JsonView) -> Seq<JsonView> {
    match json {
        JsonView::Array(items) => items,
        _ => Seq::empty(),
    }
}

/// The text field at a position of a record.
pub open spec fn text_at(row: JsonView, at: int) -> Seq<char> {
    text_in(item_at(row, at))
}

/// The flag at a position of a record.
pub open spec fn flag_at(row: JsonView, at: int) -> bool {
    item_at(row, at) == JsonView::Bool(true)
}

/// The count at a position of a record.
pub open spec fn count_at(row: JsonView, at: int) -> u32 {
    match json::count_of(item_at(row, at)) {
        Some(count) => count,
        None => 0,
    }
}

/// The list at a position of a record.
pub open spec fn list_at(row: JsonView, at: int) -> Seq<JsonView> {
    list_in(item_at(row, at))
}

/// The list of texts at a position of a record.
pub open spec fn texts_at(row: JsonView, at: int) -> Seq<Seq<char>> {
    list_at(row, at).map_values(|item: JsonView| text_in(item))
}

fn get_item(row: &Json, at: usize) -> (item: Option<&Json>)
    ensures
        match item {
            Some(value) => value.deep_view() == item_at(row.deep_view(), at as int),
            None => item_at(row.deep_view(), at as int) is Null,
        },
{
    match row {
        Json::Array(values) => {
            assert(row.deep_view()->Array_0 =~= values.deep_view());
            if at < values.len() {
                Some(&values[at])
            } else {
                None
            }
        },
        _ => None,
    }
}

/// Takes the text field at a position of a record.
pub fn get_text(row: &Json, at: usize) -> (content: String)
    ensures
        content@ == text_at(row.deep_view(), at as int),
{
    match get_item(row, at) {
        Some(Json::Text(content)) => content.clone(),
        _ => String::new(),
    }
}

/// Takes the flag at a position of a record.
pub fn get_flag(row: &Json, at: usize) -> (flag: bool)
    ensures
        flag == flag_at(row.deep_view(), at as int),
{
    match get_item(row, at) {
        Some(Json::Bool(flag)) => *flag,
        _ => false,
    }
}

/// Takes the count at a position of a record.
pub fn get_count(row: &Json, at: usize) -> (count: u32)
    ensures
        count == count_at(row.deep_view(), at as int),
{
    match get_item(row, at) {
        Some(Json::Number(JsonNumber::PosInt(n))) => if *n <= u32::MAX as u64 {
            *n as u32
        } else {
            0
        },
        Some(Json::Number(JsonNumber::NegInt(n))) => if 0 <= *n && *n <= u32::MAX as i64 {
            *n as u32
        } else {
            0
        },
        _ => 0,
    }
}

/// Takes the list at a position of a record.
pub fn get_list(row: &Json, at: usize) -> (items: Vec<Json>)
    ensures
        items.deep_view() == list_at(row.deep_view(), at as int),
{
    match get_item(row, at) {
        Some(Json::Array(items)) => {
            let copied = items.clone();
            assert(copied.deep_view() =~= items.deep_view());
            assert(Json::Array(*items).deep_view()->Array_0 =~= items.deep_view());
            copied
        },
        _ => {
            let items: Vec<Json> = Vec::new();
            assert(items.deep_view() =~= Seq::empty());
            items
        },
    }
}

/// Takes the list of texts at a position of a record.
pub fn get_texts(row: &Json, at: usize) -> (texts: Vec<String>)
    ensures
        texts.deep_view() == texts_at(row.deep_view(), at as int),
{
    let items = get_list(row, at);
    let mut texts: Vec<String> = Vec::new();
    for i in 0..items.len()
        invariant
            texts@.len() == i,
            forall|k: int|
                0 <= k < i ==> (#[trigger] texts@[k])@ == text_in(items.deep_view()[k]),
    {
        assert(items.deep_view()[i as int] == items@[i as int].deep_view());
        match &items[i] {
            Json::Text(content) => texts.push(content.clone()),
            _ => texts.push(String::new()),
        }
    }
    assert(texts.deep_view() =~= texts_at(row.deep_view(), at as int));
    texts
}

} // verus!
