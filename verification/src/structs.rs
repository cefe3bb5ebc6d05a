//! Conversion between JSON values and the schemaless values of the agent API.

use vstd::prelude::*;

use crate::api::value::{ProtoValue, ProtoValueView, Struct, StructView};
use crate::json;
use crate::json::{Json, JsonNumber, JsonNumberView, JsonView};
use crate::text;

verus! {

/// The schemaless value for a JSON value. Every number becomes a double.
pub open spec fn proto_of(json: JsonView) -> ProtoValueView
    decreases json,
{
    match json {
        JsonView::Null => ProtoValueView::Null,
        JsonView::Bool(flag) => ProtoValueView::Bool(flag),
        JsonView::Number(number) => ProtoValueView::Number(json::nearest_double(number)),
        JsonView::Text(text) => ProtoValueView::Text(text),
        JsonView::Array(items) => ProtoValueView::List(
            Seq::new(
                items.len(),
                |i: int|
                    if 0 <= i < items.len() {
                        proto_of(items[i])
                    } else {
                        ProtoValueView::Unset
                    },
            ),
        ),
        JsonView::Object(entries) => ProtoValueView::Struct(
            Seq::new(
                entries.len(),
                |i: int|
                    if 0 <= i < entries.len() {
                        (entries[i].0, proto_of(entries[i].1))
                    } else {
                        (Seq::empty(), ProtoValueView::Unset)
                    },
            ),
        ),
    }
}

/// The schemaless struct for the entries of a JSON object.
pub open spec fn struct_of(entries: Seq<(Seq<char>, JsonView)>) -> StructView {
    StructView {
        fields: entries.map_values(
            |entry: (Seq<char>, JsonView)| (entry.0, proto_of(entry.1)),
        ),
    }
}

/// The JSON value for a schemaless value. What JSON has no number for is null.
pub open spec fn json_of(value: ProtoValueView) -> JsonView
    decreases value,
{
    match value {
        ProtoValueView::Unset => JsonView::Null,
        ProtoValueView::Null => JsonView::Null,
        ProtoValueView::Bool(flag) => JsonView::Bool(flag),
        ProtoValueView::Number(text) => JsonView::Number(JsonNumberView::Float(text)),
        ProtoValueView::NonFinite => JsonView::Null,
        ProtoValueView::Text(text) => JsonView::Text(text),
        ProtoValueView::List(items) => JsonView::Array(
            Seq::new(
                items.len(),
                |i: int|
                    if 0 <= i < items.len() {
                        json_of(items[i])
                    } else {
                        JsonView::Null
                    },
            ),
        ),
        ProtoValueView::Struct(fields) => JsonView::Object(
            Seq::new(
                fields.len(),
                |i: int|
                    if 0 <= i < fields.len() {
                        (fields[i].0, json_of(fields[i].1))
                    } else {
                        (Seq::empty(), JsonView::Null)
                    },
            ),
        ),
    }
}

/// The JSON object for a schemaless struct.
pub open spec fn object_of(value: StructView) -> JsonView {
    JsonView::Object(
        value.fields.map_values(
            |field: (Seq<char>, ProtoValueView)| (field.0, json_of(field.1)),
        ),
    )
}

/// Whether every number in a JSON value is a double, by the text that is printed for it.
pub open spec fn all_doubles(json: JsonView) -> bool
    decreases json,
{
    match json {
        JsonView::Number(number) => number matches JsonNumberView::Float(text)
            && json::nearest_double(number) == text,
        JsonView::Array(items) => forall|i: int|
            0 <= i < items.len() ==> all_doubles(#[trigger] items[i]),
        JsonView::Object(entries) => forall|i: int|
            0 <= i < entries.len() ==> all_doubles((#[trigger] entries[i]).1),
        _ => true,
    }
}

/// Whether JSON has a form for everything in a schemaless value: all of it is set, and every
/// number is finite and in the text that is printed for it.
pub open spec fn settled(value: ProtoValueView) -> bool
    decreases value,
{
    match value {
        ProtoValueView::Unset => false,
        ProtoValueView::NonFinite => false,
        ProtoValueView::Number(text) => json::nearest_double(JsonNumberView::Float(text)) == text,
        ProtoValueView::List(items) => forall|i: int|
            0 <= i < items.len() ==> settled(#[trigger] items[i]),
        ProtoValueView::Struct(fields) => forall|i: int|
            0 <= i < fields.len() ==> settled((#[trigger] fields[i]).1),
        _ => true,
    }
}

/// Whether JSON has a form for everything in a schemaless struct.
pub open spec fn settled_struct(value: StructView) -> bool {
    forall|i: int| 0 <= i < value.fields.len() ==> settled((#[trigger] value.fields[i]).1)
}

/// Whether every struct in a schemaless value, at any depth, has its fields in the order of their
/// keys, and no key twice.
pub open spec fn keyed_value(value: ProtoValueView) -> bool
    decreases value,
{
    match value {
        ProtoValueView::List(items) => forall|i: int|
            0 <= i < items.len() ==> keyed_value(#[trigger] items[i]),
        ProtoValueView::Struct(fields) => json::keys_ascend(fields) && forall|i: int|
            0 <= i < fields.len() ==> keyed_value((#[trigger] fields[i]).1),
        _ => true,
    }
}

/// Whether a schemaless struct, and every struct in it, has its fields in the order of their keys,
/// and no key twice.
pub open spec fn keyed_struct(value: StructView) -> bool {
    json::keys_ascend(value.fields) && forall|i: int|
        0 <= i < value.fields.len() ==> keyed_value((#[trigger] value.fields[i]).1)
}

/// The schemaless form has its keys in order exactly where the JSON value has.
pub proof fn proto_keeps_keys(json: JsonView)
    ensures
        keyed_value(proto_of(json)) == json::keyed(json),
    decreases json,
{
    match json {
        JsonView::Array(items) => {
            let through = proto_of(json)->List_0;
            assert forall|i: int| 0 <= i < items.len() implies keyed_value(#[trigger] through[i])
                == json::keyed(items[i]) by {
                proto_keeps_keys(items[i]);
            }
            if keyed_value(proto_of(json)) {
                assert forall|i: int| 0 <= i < items.len() implies json::keyed(
                    #[trigger] items[i],
                ) by {
                    assert(keyed_value(through[i]));
                }
            }
        },
        JsonView::Object(entries) => {
            let through = proto_of(json)->Struct_0;
            assert forall|i: int| 0 <= i < entries.len() implies keyed_value(
                (#[trigger] through[i]).1,
            ) == json::keyed(entries[i].1) && through[i].0 == entries[i].0 by {
                proto_keeps_keys(entries[i].1);
            }
            if keyed_value(proto_of(json)) {
                assert forall|i: int| 0 <= i < entries.len() implies json::keyed(
                    (#[trigger] entries[i]).1,
                ) by {
                    assert(keyed_value(through[i].1));
                }
                assert forall|i: int, j: int| 0 <= i < j < entries.len() implies text::below(
                    (#[trigger] entries[i]).0,
                    (#[trigger] entries[j]).0,
                ) by {
                    assert(text::below(through[i].0, through[j].0));
                }
            }
        },
        _ => {},
    }
}

/// The JSON value has its keys in order exactly where the schemaless form has.
pub proof fn json_keeps_keys(value: ProtoValueView)
    ensures
        json::keyed(json_of(value)) == keyed_value(value),
    decreases value,
{
    match value {
        ProtoValueView::List(items) => {
            let through = json_of(value)->Array_0;
            assert forall|i: int| 0 <= i < items.len() implies json::keyed(#[trigger] through[i])
                == keyed_value(items[i]) by {
                json_keeps_keys(items[i]);
            }
            if json::keyed(json_of(value)) {
                assert forall|i: int| 0 <= i < items.len() implies keyed_value(
                    #[trigger] items[i],
                ) by {
                    assert(json::keyed(through[i]));
                }
            }
        },
        ProtoValueView::Struct(fields) => {
            let through = json_of(value)->Object_0;
            assert forall|i: int| 0 <= i < fields.len() implies json::keyed(
                (#[trigger] through[i]).1,
            ) == keyed_value(fields[i].1) && through[i].0 == fields[i].0 by {
                json_keeps_keys(fields[i].1);
            }
            if json::keyed(json_of(value)) {
                assert forall|i: int| 0 <= i < fields.len() implies keyed_value(
                    (#[trigger] fields[i]).1,
                ) by {
                    assert(json::keyed(through[i].1));
                }
                assert forall|i: int, j: int| 0 <= i < j < fields.len() implies text::below(
                    (#[trigger] fields[i]).0,
                    (#[trigger] fields[j]).0,
                ) by {
                    assert(text::below(through[i].0, through[j].0));
                }
            }
        },
        _ => {},
    }
}

proof fn struct_is_value(entries: Seq<(Seq<char>, JsonView)>)
    ensures
        ProtoValueView::Struct(struct_of(entries).fields) == proto_of(JsonView::Object(entries)),
{
    assert(struct_of(entries).fields =~= proto_of(JsonView::Object(entries))->Struct_0);
}

proof fn object_is_value(value: StructView)
    ensures
        object_of(value) == json_of(ProtoValueView::Struct(value.fields)),
{
    assert(object_of(value)->Object_0 =~= json_of(
        ProtoValueView::Struct(value.fields),
    )->Object_0);
}

/// The JSON object has its keys in order exactly where the schemaless struct has.
pub proof fn struct_keeps_keys(value: StructView)
    ensures
        json::keyed(object_of(value)) == keyed_struct(value),
{
    object_is_value(value);
    json_keeps_keys(ProtoValueView::Struct(value.fields));
}

/// The schemaless value for a JSON value.
pub fn json_value_to_prost(value: &Json) -> (result: ProtoValue)
    ensures
        result.deep_view() == proto_of(value.deep_view()),
        settled(result.deep_view()),
        keyed_value(result.deep_view()) == json::keyed(value.deep_view()),
    decreases value,
{
    proof {
        proto_keeps_keys(value.deep_view());
    }
    match value {
        Json::Null => ProtoValue::Null,
        Json::Bool(flag) => ProtoValue::Bool(*flag),
        Json::Number(number) => ProtoValue::Number(json::round_to_double(number)),
        Json::Text(text) => ProtoValue::Text(text.clone()),
        Json::Array(items) => {
            let mut values: Vec<ProtoValue> = Vec::new();
            for i in 0..items.len()
                invariant
                    *value == Json::Array(*items),
                    values@.len() == i,
                    forall|k: int|
                        0 <= k < i ==> values@[k].deep_view() == proto_of(
                            (#[trigger] items@[k]).deep_view(),
                        ) && settled(values@[k].deep_view()),
            {
                assert(decreases_to!(*value => value->Array_0));
                assert(decreases_to!(items@ => items@[i as int]));
                values.push(json_value_to_prost(&items[i]));
            }
            let result = ProtoValue::List(values);
            assert(result.deep_view()->List_0 =~= proto_of(value.deep_view())->List_0);
            assert forall|k: int| 0 <= k < values@.len() implies settled(
                #[trigger] result.deep_view()->List_0[k],
            ) by {
                assert(settled(proto_of(items@[k].deep_view())));
            }
            result
        },
        Json::Object(entries) => {
            let mut fields: Vec<(String, ProtoValue)> = Vec::new();
            for i in 0..entries.len()
                invariant
                    *value == Json::Object(*entries),
                    fields@.len() == i,
                    forall|k: int|
                        0 <= k < i ==> (#[trigger] fields@[k]).0@ == entries@[k].0@
                            && fields@[k].1.deep_view() == proto_of(entries@[k].1.deep_view())
                            && settled(fields@[k].1.deep_view()),
            {
                assert(decreases_to!(*value => value->Object_0));
                assert(decreases_to!(entries@ => entries@[i as int]));
                fields.push((entries[i].0.clone(), json_value_to_prost(&entries[i].1)));
            }
            let result = ProtoValue::Struct(fields);
            assert(result.deep_view()->Struct_0 =~= proto_of(value.deep_view())->Struct_0);
            assert forall|k: int| 0 <= k < fields@.len() implies settled(
                (#[trigger] result.deep_view()->Struct_0[k]).1,
            ) by {
                assert(settled(fields@[k].1.deep_view()));
            }
            result
        },
    }
}

/// The schemaless struct for the entries of a JSON object.
pub fn json_map_to_prost_struct(map: &Vec<(String, Json)>) -> (result: Struct)
    ensures
        result.deep_view() == struct_of(map.deep_view()),
        settled_struct(result.deep_view()),
        keyed_struct(result.deep_view()) == json::keyed(JsonView::Object(map.deep_view())),
{
    proof {
        struct_is_value(map.deep_view());
        proto_keeps_keys(JsonView::Object(map.deep_view()));
    }
    let mut fields: Vec<(String, ProtoValue)> = Vec::new();
    for i in 0..map.len()
        invariant
            fields@.len() == i,
            forall|k: int|
                0 <= k < i ==> (#[trigger] fields@[k]).0@ == map@[k].0@ && fields@[k].1.deep_view()
                    == proto_of(map@[k].1.deep_view()) && settled(fields@[k].1.deep_view()),
    {
        fields.push((map[i].0.clone(), json_value_to_prost(&map[i].1)));
    }
    let result = Struct { fields };
    assert(result.deep_view().fields =~= struct_of(map.deep_view()).fields);
    assert forall|k: int| 0 <= k < fields@.len() implies settled(
        (#[trigger] result.deep_view().fields[k]).1,
    ) by {
        assert(settled(fields@[k].1.deep_view()));
    }
    result
}

/// The JSON value for a schemaless value.
pub fn prost_value_to_json(value: &ProtoValue) -> (result: Json)
    ensures
        result.deep_view() == json_of(value.deep_view()),
        json::keyed(result.deep_view()) == keyed_value(value.deep_view()),
    decreases value,
{
    proof {
        json_keeps_keys(value.deep_view());
    }
    match value {
        ProtoValue::Unset => Json::Null,
        ProtoValue::Null => Json::Null,
        ProtoValue::Bool(flag) => Json::Bool(*flag),
        ProtoValue::Number(text) => Json::Number(JsonNumber::Float(text.clone())),
        ProtoValue::NonFinite => Json::Null,
        ProtoValue::Text(text) => Json::Text(text.clone()),
        ProtoValue::List(values) => {
            let mut items: Vec<Json> = Vec::new();
            for i in 0..values.len()
                invariant
                    *value == ProtoValue::List(*values),
                    items@.len() == i,
                    forall|k: int|
                        0 <= k < i ==> items@[k].deep_view() == json_of(
                            (#[trigger] values@[k]).deep_view(),
                        ),
            {
                assert(decreases_to!(*value => value->List_0));
                assert(decreases_to!(values@ => values@[i as int]));
                items.push(prost_value_to_json(&values[i]));
            }
            let result = Json::Array(items);
            assert(result.deep_view()->Array_0 =~= json_of(value.deep_view())->Array_0);
            result
        },
        ProtoValue::Struct(fields) => {
            let mut entries: Vec<(String, Json)> = Vec::new();
            for i in 0..fields.len()
                invariant
                    *value == ProtoValue::Struct(*fields),
                    entries@.len() == i,
                    forall|k: int|
                        0 <= k < i ==> (#[trigger] entries@[k]).0@ == fields@[k].0@
                            && entries@[k].1.deep_view() == json_of(fields@[k].1.deep_view()),
            {
                assert(decreases_to!(*value => value->Struct_0));
                assert(decreases_to!(fields@ => fields@[i as int]));
                entries.push((fields[i].0.clone(), prost_value_to_json(&fields[i].1)));
            }
            let result = Json::Object(entries);
            assert(result.deep_view()->Object_0 =~= json_of(value.deep_view())->Object_0);
            result
        },
    }
}

/// The JSON object for a schemaless struct.
pub fn prost_struct_to_json(value: &Struct) -> (result: Json)
    ensures
        result.deep_view() == object_of(value.deep_view()),
        json::keyed(result.deep_view()) == keyed_struct(value.deep_view()),
{
    proof {
        struct_keeps_keys(value.deep_view());
    }
    let mut entries: Vec<(String, Json)> = Vec::new();
    for i in 0..value.fields.len()
        invariant
            entries@.len() == i,
            forall|k: int|
                0 <= k < i ==> (#[trigger] entries@[k]).0@ == value.fields@[k].0@
                    && entries@[k].1.deep_view() == json_of(value.fields@[k].1.deep_view()),
    {
        entries.push((value.fields[i].0.clone(), prost_value_to_json(&value.fields[i].1)));
    }
    let result = Json::Object(entries);
    assert(result.deep_view()->Object_0 =~= object_of(value.deep_view())->Object_0);
    result
}

/// A JSON value with each of its numbers as the double nearest to it.
pub open spec fn with_doubles(json: JsonView) -> JsonView
    decreases json,
{
    match json {
        JsonView::Number(number) => JsonView::Number(
            JsonNumberView::Float(json::nearest_double(number)),
        ),
        JsonView::Array(items) => JsonView::Array(
            Seq::new(
                items.len(),
                |i: int|
                    if 0 <= i < items.len() {
                        with_doubles(items[i])
                    } else {
                        JsonView::Null
                    },
            ),
        ),
        JsonView::Object(entries) => JsonView::Object(
            Seq::new(
                entries.len(),
                |i: int|
                    if 0 <= i < entries.len() {
                        (entries[i].0, with_doubles(entries[i].1))
                    } else {
                        (Seq::empty(), JsonView::Null)
                    },
            ),
        ),
        other => other,
    }
}

/// A JSON value that went through the schemaless form comes back as it was, but
/// for its numbers, which come back as doubles.
pub proof fn json_round_trip(json: JsonView)
    ensures
        json_of(proto_of(json)) == with_doubles(json),
    decreases json,
{
    match json {
        JsonView::Array(items) => {
            assert forall|i: int| 0 <= i < items.len() implies json_of(
                proto_of(#[trigger] items[i]),
            ) == with_doubles(items[i]) by {
                json_round_trip(items[i]);
            }
            assert(json_of(proto_of(json))->Array_0 =~= with_doubles(json)->Array_0);
        },
        JsonView::Object(entries) => {
            assert forall|i: int| 0 <= i < entries.len() implies json_of(
                proto_of((#[trigger] entries[i]).1),
            ) == with_doubles(entries[i].1) by {
                json_round_trip(entries[i].1);
            }
            assert(json_of(proto_of(json))->Object_0 =~= with_doubles(json)->Object_0);
        },
        _ => {},
    }
}

/// The arguments of a tool call come back from a schemaless struct as they
/// were, but for their numbers, which come back as doubles.
pub proof fn object_round_trip(entries: Seq<(Seq<char>, JsonView)>)
    ensures
        object_of(struct_of(entries)) == with_doubles(JsonView::Object(entries)),
{
    assert forall|i: int| 0 <= i < entries.len() implies json_of(
        proto_of((#[trigger] entries[i]).1),
    ) == with_doubles(entries[i].1) by {
        json_round_trip(entries[i].1);
    }
    assert(object_of(struct_of(entries))->Object_0 =~= with_doubles(
        JsonView::Object(entries),
    )->Object_0);
}

/// A JSON value whose numbers are all doubles comes back from the schemaless form as it was.
pub proof fn doubles_come_back(json: JsonView)
    ensures
        all_doubles(json) ==> json_of(proto_of(json)) == json,
    decreases json,
{
    match json {
        JsonView::Array(items) => {
            assert forall|i: int| 0 <= i < items.len() && all_doubles(json) implies json_of(
                proto_of(#[trigger] items[i]),
            ) == items[i] by {
                doubles_come_back(items[i]);
            }
            if all_doubles(json) {
                assert(json_of(proto_of(json))->Array_0 =~= items);
            }
        },
        JsonView::Object(entries) => {
            assert forall|i: int| 0 <= i < entries.len() && all_doubles(json) implies json_of(
                proto_of((#[trigger] entries[i]).1),
            ) == entries[i].1 by {
                doubles_come_back(entries[i].1);
            }
            if all_doubles(json) {
                assert(json_of(proto_of(json))->Object_0 =~= entries);
            }
        },
        _ => {},
    }
}

/// A schemaless value that JSON has a form for comes back from that form as it was. All of the
/// numbers in the form are doubles.
pub proof fn value_round_trip(value: ProtoValueView)
    ensures
        settled(value) ==> proto_of(json_of(value)) == value && all_doubles(json_of(value)),
    decreases value,
{
    match value {
        ProtoValueView::List(items) => {
            assert forall|i: int| 0 <= i < items.len() && settled(value) implies proto_of(
                json_of(#[trigger] items[i]),
            ) == items[i] && all_doubles(json_of(items[i])) by {
                value_round_trip(items[i]);
            }
            if settled(value) {
                let through = json_of(value)->Array_0;
                assert forall|i: int| 0 <= i < through.len() implies all_doubles(
                    #[trigger] through[i],
                ) by {
                    assert(through[i] == json_of(items[i]));
                }
                assert(proto_of(json_of(value))->List_0 =~= items);
            }
        },
        ProtoValueView::Struct(fields) => {
            assert forall|i: int| 0 <= i < fields.len() && settled(value) implies proto_of(
                json_of((#[trigger] fields[i]).1),
            ) == fields[i].1 && all_doubles(json_of(fields[i].1)) by {
                value_round_trip(fields[i].1);
            }
            if settled(value) {
                let through = json_of(value)->Object_0;
                assert forall|i: int| 0 <= i < through.len() implies all_doubles(
                    (#[trigger] through[i]).1,
                ) by {
                    assert(through[i].1 == json_of(fields[i].1));
                }
                assert(proto_of(json_of(value))->Struct_0 =~= fields);
            }
        },
        _ => {},
    }
}

/// A schemaless struct that JSON has a form for comes back from that form as it was.
pub proof fn struct_round_trip(value: StructView)
    ensures
        settled_struct(value) ==> struct_of(object_of(value)->Object_0) == value,
{
    if settled_struct(value) {
        let through = struct_of(object_of(value)->Object_0);
        assert forall|i: int| 0 <= i < value.fields.len() implies proto_of(
            json_of((#[trigger] value.fields[i]).1),
        ) == value.fields[i].1 by {
            value_round_trip(value.fields[i].1);
        }
        assert(through.fields =~= value.fields);
    }
}

/// Whether a schemaless value is what a JSON value looks like: of the same kind and with the same
/// content, item by item and key by key. Only a number is the double nearest to it.
pub open spec fn mirrors(json: JsonView, value: ProtoValueView) -> bool
    decreases json,
{
    match (json, value) {
        (JsonView::Null, ProtoValueView::Null) => true,
        (JsonView::Bool(left), ProtoValueView::Bool(right)) => left == right,
        (JsonView::Number(number), ProtoValueView::Number(text)) => text == json::nearest_double(
            number,
        ),
        (JsonView::Text(left), ProtoValueView::Text(right)) => left == right,
        (JsonView::Array(left), ProtoValueView::List(right)) => left.len() == right.len() && forall|
            i: int,
        |
            0 <= i < left.len() ==> mirrors(#[trigger] left[i], right[i]),
        (JsonView::Object(left), ProtoValueView::Struct(right)) => left.len() == right.len()
            && forall|i: int|
            0 <= i < left.len() ==> (#[trigger] left[i]).0 == right[i].0 && mirrors(
                left[i].1,
                right[i].1,
            ),
        _ => false,
    }
}

/// Whether the fields of a struct are what the entries of an object look like.
pub open spec fn mirrors_entries(
    entries: Seq<(Seq<char>, JsonView)>,
    fields: Seq<(Seq<char>, ProtoValueView)>,
) -> bool {
    entries.len() == fields.len() && forall|i: int|
        0 <= i < entries.len() ==> (#[trigger] entries[i]).0 == fields[i].0 && mirrors(
            entries[i].1,
            fields[i].1,
        )
}

/// Whether a JSON value is what a schemaless value looks like: of the same kind and with the same
/// content. What JSON has no form for is null.
pub open spec fn reflects(value: ProtoValueView, json: JsonView) -> bool
    decreases value,
{
    match (value, json) {
        (ProtoValueView::Unset, JsonView::Null) => true,
        (ProtoValueView::Null, JsonView::Null) => true,
        (ProtoValueView::NonFinite, JsonView::Null) => true,
        (ProtoValueView::Bool(left), JsonView::Bool(right)) => left == right,
        (ProtoValueView::Number(text), JsonView::Number(JsonNumberView::Float(shown))) => text
            == shown,
        (ProtoValueView::Text(left), JsonView::Text(right)) => left == right,
        (ProtoValueView::List(left), JsonView::Array(right)) => left.len() == right.len() && forall|
            i: int,
        |
            0 <= i < left.len() ==> reflects(#[trigger] left[i], right[i]),
        (ProtoValueView::Struct(left), JsonView::Object(right)) => left.len() == right.len()
            && forall|i: int|
            0 <= i < left.len() ==> (#[trigger] left[i]).0 == right[i].0 && reflects(
                left[i].1,
                right[i].1,
            ),
        _ => false,
    }
}

/// Whether the entries of an object are what the fields of a struct look like.
pub open spec fn reflects_fields(
    fields: Seq<(Seq<char>, ProtoValueView)>,
    entries: Seq<(Seq<char>, JsonView)>,
) -> bool {
    fields.len() == entries.len() && forall|i: int|
        0 <= i < fields.len() ==> (#[trigger] fields[i]).0 == entries[i].0 && reflects(
            fields[i].1,
            entries[i].1,
        )
}

/// The schemaless form of a JSON value is of the same kind and has the same content.
pub proof fn value_mirrors_json(json: JsonView)
    ensures
        mirrors(json, proto_of(json)),
    decreases json,
{
    match json {
        JsonView::Array(items) => {
            assert forall|i: int| 0 <= i < items.len() implies mirrors(
                #[trigger] items[i],
                proto_of(json)->List_0[i],
            ) by {
                value_mirrors_json(items[i]);
            }
        },
        JsonView::Object(entries) => {
            assert forall|i: int| 0 <= i < entries.len() implies (#[trigger] entries[i]).0
                == proto_of(json)->Struct_0[i].0 && mirrors(
                entries[i].1,
                proto_of(json)->Struct_0[i].1,
            ) by {
                value_mirrors_json(entries[i].1);
            }
        },
        _ => {},
    }
}

/// The schemaless struct of an object has its keys and what they hold.
pub proof fn struct_mirrors_object(entries: Seq<(Seq<char>, JsonView)>)
    ensures
        mirrors_entries(entries, struct_of(entries).fields),
{
    assert forall|i: int| 0 <= i < entries.len() implies (#[trigger] entries[i]).0 == struct_of(
        entries,
    ).fields[i].0 && mirrors(entries[i].1, struct_of(entries).fields[i].1) by {
        value_mirrors_json(entries[i].1);
    }
}

/// The JSON form of a schemaless value is of the same kind and has the same content.
pub proof fn json_reflects_value(value: ProtoValueView)
    ensures
        reflects(value, json_of(value)),
    decreases value,
{
    match value {
        ProtoValueView::List(items) => {
            assert forall|i: int| 0 <= i < items.len() implies reflects(
                #[trigger] items[i],
                json_of(value)->Array_0[i],
            ) by {
                json_reflects_value(items[i]);
            }
        },
        ProtoValueView::Struct(fields) => {
            assert forall|i: int| 0 <= i < fields.len() implies (#[trigger] fields[i]).0 == json_of(
                value,
            )->Object_0[i].0 && reflects(fields[i].1, json_of(value)->Object_0[i].1) by {
                json_reflects_value(fields[i].1);
            }
        },
        _ => {},
    }
}

/// The JSON object of a schemaless struct has its keys and what they hold.
pub proof fn object_reflects_struct(value: StructView)
    ensures
        object_of(value) matches JsonView::Object(entries) && reflects_fields(value.fields, entries),
{
    let entries = object_of(value)->Object_0;
    assert forall|i: int| 0 <= i < value.fields.len() implies (#[trigger] value.fields[i]).0
        == entries[i].0 && reflects(value.fields[i].1, entries[i].1) by {
        json_reflects_value(value.fields[i].1);
    }
}

} // verus!
