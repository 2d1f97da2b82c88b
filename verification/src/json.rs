//! JSON values as the plugin exchanges them with the gateway and with HomeCore.

use crate::text::same;
use vstd::prelude::*;

verus! {

/// A JSON value. A number is kept as the text that stands in the document.
#[derive(Debug, PartialEq, Eq)]
pub enum Json {
    Null,
    Bool(bool),
    Number(String),
    Str(String),
    Array(Vec<Json>),
    Object(Vec<(String, Json)>),
}

/// What a JSON value says.
#[verifier::ext_equal]
pub enum JsonView {
    Null,
    Bool(bool),
    Number(Seq<char>),
    Str(Seq<char>),
    Array(Seq<JsonView>),
    Object(Seq<(Seq<char>, JsonView)>),
}

/// What a JSON value says, from the inside out.
pub open spec fn meaning(value: Json) -> JsonView
    decreases value,
{
    match value {
        Json::Null => JsonView::Null,
        Json::Bool(b) => JsonView::Bool(b),
        Json::Number(n) => JsonView::Number(n@),
        Json::Str(s) => JsonView::Str(s@),
        Json::Array(items) => JsonView::Array(
            Seq::new(
                items@.len(),
                |i: int|
                    if 0 <= i < items@.len() {
                        meaning(items@[i])
                    } else {
                        arbitrary()
                    },
            ),
        ),
        Json::Object(fields) => JsonView::Object(
            Seq::new(
                fields@.len(),
                |i: int|
                    if 0 <= i < fields@.len() {
                        (fields@[i].0@, meaning(fields@[i].1))
                    } else {
                        arbitrary()
                    },
            ),
        ),
    }
}

impl View for Json {
    type V = JsonView;

    open spec fn view(&self) -> JsonView {
        meaning(*self)
    }
}

/// What each value of a list says.
pub open spec fn values(items: Seq<Json>) -> Seq<JsonView> {
    items.map_values(|item: Json| item@)
}

/// What each field of an object says.
pub open spec fn members(fields: Seq<(String, Json)>) -> Seq<(Seq<char>, JsonView)> {
    fields.map_values(|field: (String, Json)| (field.0@, field.1@))
}

/// The value of the first field with the given key.
pub open spec fn lookup(fields: Seq<(Seq<char>, JsonView)>, key: Seq<char>) -> Option<JsonView>
    decreases fields.len(),
{
    if fields.len() == 0 {
        None
    } else if fields[0].0 == key {
        Some(fields[0].1)
    } else {
        lookup(fields.drop_first(), key)
    }
}

impl JsonView {
    /// The value that stands under a key: only an object has any.
    pub open spec fn get(self, key: Seq<char>) -> Option<JsonView> {
        match self {
            JsonView::Object(fields) => lookup(fields, key),
            _ => None,
        }
    }

    /// The keys of an object, in order.
    pub open spec fn keys(self) -> Seq<Seq<char>> {
        match self {
            JsonView::Object(fields) => fields.map_values(
                |field: (Seq<char>, JsonView)| field.0,
            ),
            _ => Seq::empty(),
        }
    }
}

impl Json {
    /// A JSON string.
    pub fn text(text: &str) -> (value: Json)
        ensures
            value@ == JsonView::Str(text@),
    {
        Json::Str(text.to_owned())
    }

    /// A JSON array of the given values.
    pub fn array(items: Vec<Json>) -> (value: Json)
        ensures
            value@ == JsonView::Array(values(items@)),
    {
        proof {
            reveal_with_fuel(meaning, 2);
        }
        let value = Json::Array(items);
        assert(value@->Array_0 =~= values(items@));
        value
    }

    /// A JSON object of the given fields.
    pub fn object(fields: Vec<(String, Json)>) -> (value: Json)
        ensures
            value@ == JsonView::Object(members(fields@)),
    {
        proof {
            reveal_with_fuel(meaning, 2);
        }
        let value = Json::Object(fields);
        assert(value@->Object_0 =~= members(fields@));
        value
    }

    /// The value under a key of an object.
    pub fn get(&self, key: &str) -> (found: Option<&Json>)
        ensures
            match found {
                Some(value) => self@.get(key@) == Some(value@),
                None => self@.get(key@) is None,
            },
    {
        proof {
            reveal_with_fuel(meaning, 2);
        }
        match self {
            Json::Object(fields) => {
                let ghost all = members(fields@);
                assert(self@->Object_0 =~= all);
                assert(all.skip(0) =~= all);
                let mut i: usize = 0;
                while i < fields.len()
                    invariant
                        i <= fields@.len(),
                        all == members(fields@),
                        self@ == JsonView::Object(all),
                        lookup(all, key@) == lookup(all.skip(i as int), key@),
                    decreases fields@.len() - i,
                {
                    assert(all.skip(i as int).drop_first() =~= all.skip(i + 1));
                    if same(fields[i].0.as_str(), key) {
                        return Some(&fields[i].1);
                    }
                    i = i + 1;
                }
                None
            },
            _ => None,
        }
    }
}

/// A JSON value is read as it is: its kind, its text or flag, and every item and field of it in
/// order.
pub proof fn a_value_is_read_as_it_is(value: Json)
    ensures
        match value {
            Json::Null => value@ == JsonView::Null,
            Json::Bool(b) => value@ == JsonView::Bool(b),
            Json::Number(n) => value@ == JsonView::Number(n@),
            Json::Str(s) => value@ == JsonView::Str(s@),
            Json::Array(items) => {
                &&& value@ is Array
                &&& value@->Array_0.len() == items@.len()
                &&& forall|i: int|
                    0 <= i < items@.len() ==> (#[trigger] value@->Array_0[i]) == items@[i]@
            },
            Json::Object(fields) => {
                &&& value@ is Object
                &&& value@->Object_0.len() == fields@.len()
                &&& forall|i: int|
                    0 <= i < fields@.len() ==> (#[trigger] value@->Object_0[i]) == (
                        fields@[i].0@,
                        fields@[i].1@,
                    )
            },
        },
{
    reveal_with_fuel(meaning, 2);
}

/// Lists of values and of fields are read one by one, in order and without loss.
pub proof fn values_and_fields_are_read_as_they_are(items: Seq<Json>, fields: Seq<(String, Json)>)
    ensures
        values(items).len() == items.len(),
        forall|i: int| 0 <= i < items.len() ==> (#[trigger] values(items)[i]) == items[i]@,
        members(fields).len() == fields.len(),
        forall|i: int|
            0 <= i < fields.len() ==> (#[trigger] members(fields)[i]) == (
                fields[i].0@,
                fields[i].1@,
            ),
{
}

/// Under a key of an object stands the value of the first field with that key.
pub proof fn the_first_field_with_a_key_counts(
    fields: Seq<(Seq<char>, JsonView)>,
    key: Seq<char>,
    at: int,
)
    requires
        0 <= at < fields.len(),
        fields[at].0 == key,
        forall|i: int| 0 <= i < at ==> (#[trigger] fields[i]).0 != key,
    ensures
        JsonView::Object(fields).get(key) == Some(fields[at].1),
    decreases fields.len(),
{
    if at > 0 {
        assert(fields[0].0 != key);
        let rest = fields.drop_first();
        assert forall|i: int| 0 <= i < at - 1 implies (#[trigger] rest[i]).0 != key by {
            assert(fields[i + 1].0 != key);
        }
        the_first_field_with_a_key_counts(rest, key, at - 1);
    }
}

/// Under a key that an object does not have stands nothing, and a value that is no object has no
/// keys at all.
pub proof fn a_missing_key_has_no_value(value: JsonView, key: Seq<char>)
    requires
        value matches JsonView::Object(fields) ==> forall|i: int|
            0 <= i < fields.len() ==> (#[trigger] fields[i]).0 != key,
    ensures
        value.get(key) is None,
    decreases value->Object_0.len(),
{
    if let JsonView::Object(fields) = value {
        if fields.len() > 0 {
            assert(fields[0].0 != key);
            let rest = fields.drop_first();
            assert forall|i: int| 0 <= i < rest.len() implies (#[trigger] rest[i]).0 != key by {
                assert(fields[i + 1].0 != key);
            }
            a_missing_key_has_no_value(JsonView::Object(rest), key);
        }
    }
}

} // verus!
