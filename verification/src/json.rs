//! The data handed to the template engine: JSON values.
//!
//! The engine renders `handlebars::JsonValue`. This module gives such a value
//! a mathematical content, `Json`, and builds the values that the pages need
//! from the library's own data through a handful of constructors whose
//! contracts are taken on trust from the JSON library.

use vstd::prelude::*;
use crate::models::{cat_views, Cat, CatView};

verus! {

/// `handlebars::JsonValue` (`serde_json::Value`), opaque to the verifier.
#[verifier::external_type_specification]
#[verifier::external_body]
pub struct ExJsonValue(handlebars::JsonValue);

/// The content of a JSON value, as far as the pages use JSON: no fractions,
/// no booleans. The fields of an object have no order.
pub enum Json {
    Null,
    Number(int),
    Text(Seq<char>),
    List(Seq<Json>),
    Object(Map<Seq<char>, Json>),
}

/// What a `handlebars::JsonValue` holds.
pub uninterp spec fn json_content(value: handlebars::JsonValue) -> Json;

impl Json {
    /// The fields of an object; `null` counts as the object without fields.
    pub open spec fn fields(self) -> Map<Seq<char>, Json> {
        match self {
            Json::Object(fields) => fields,
            _ => Map::empty(),
        }
    }

    /// The object that a cat is rendered from: its three columns by name.
    pub open spec fn of_cat(cat: CatView) -> Json {
        Json::Object(
            Map::<Seq<char>, Json>::empty().insert("id"@, Json::Number(cat.id)).insert(
                "name"@,
                Json::Text(cat.name),
            ).insert("image_path"@, Json::Text(cat.image_path)),
        )
    }

    /// The list that a sequence of cats is rendered from.
    pub open spec fn of_cats(cats: Seq<CatView>) -> Json {
        Json::List(Seq::new(cats.len(), |i: int| Json::of_cat(cats[i])))
    }
}

/// `JsonValue::Null`: the value that holds nothing.
#[verifier::external_body]
pub(crate) fn json_null() -> (value: handlebars::JsonValue)
    ensures
        json_content(value) == Json::Null,
{
    handlebars::JsonValue::Null
}

/// `JsonValue::from` on an `i32`: the JSON number with that value.
#[verifier::external_body]
pub(crate) fn json_number(number: i32) -> (value: handlebars::JsonValue)
    ensures
        json_content(value) == Json::Number(number as int),
{
    handlebars::JsonValue::from(number)
}

/// `JsonValue::from` on a `&str`: the JSON string with those characters.
#[verifier::external_body]
pub(crate) fn json_text(text: &str) -> (value: handlebars::JsonValue)
    ensures
        json_content(value) == Json::Text(text@),
{
    handlebars::JsonValue::from(text)
}

/// `JsonValue::Array`: the JSON array with the given items, in their order.
#[verifier::external_body]
pub(crate) fn json_list(items: Vec<handlebars::JsonValue>) -> (value: handlebars::JsonValue)
    ensures
        json_content(value) == Json::List(
            Seq::new(items@.len(), |i: int| json_content(items@[i])),
        ),
{
    handlebars::JsonValue::Array(items)
}

/// Assignment through `JsonValue`'s index by a string key: on an object it
/// sets the field `key` to `value`, replacing what the field held; `null`
/// becomes an object with that one field. On any other value it panics.
#[verifier::external_body]
pub(crate) fn json_set(object: &mut handlebars::JsonValue, key: &str, value: handlebars::JsonValue)
    requires
        json_content(*old(object)) is Object || json_content(*old(object)) is Null,
    ensures
        json_content(*final(object)) == Json::Object(
            json_content(*old(object)).fields().insert(key@, json_content(value)),
        ),
{
    object[key] = value;
}

/// The JSON object of a cat: `id`, `name` and `image_path`.
pub(crate) fn cat_value(cat: &Cat) -> (value: handlebars::JsonValue)
    ensures
        json_content(value) == Json::of_cat(cat@),
{
    let mut value = json_null();
    json_set(&mut value, "id", json_number(cat.id));
    json_set(&mut value, "name", json_text(cat.name.as_str()));
    json_set(&mut value, "image_path", json_text(cat.image_path.as_str()));
    value
}

/// The JSON array of the objects of some cats, in their order.
pub(crate) fn cats_value(cats: &Vec<Cat>) -> (value: handlebars::JsonValue)
    ensures
        json_content(value) == Json::of_cats(cat_views(cats@)),
{
    let mut items: Vec<handlebars::JsonValue> = Vec::new();
    let mut i: usize = 0;
    while i < cats.len()
        invariant
            i <= cats.len(),
            items@.len() == i,
            forall|j: int| 0 <= j < i ==> json_content(#[trigger] items@[j]) == Json::of_cat(cats@[j]@),
        decreases cats.len() - i,
    {
        items.push(cat_value(&cats[i]));
        i += 1;
    }
    let value = json_list(items);
    assert(Seq::new(items@.len(), |i: int| json_content(items@[i])) =~= Seq::new(
        cat_views(cats@).len(),
        |i: int| Json::of_cat(cat_views(cats@)[i]),
    ));
    value
}

} // verus!
