//! The documents and events that the runtime writes, as values.

use crate::double::{Double, Percent};
use crate::paths::{paths_view, strings_view, PathModel, RuntimePath};
use crate::text::option_view;
use vstd::prelude::*;

verus! {

/// A JSON document as a mathematical value: objects are maps, whatever order they are written in.
#[verifier::ext_equal]
pub enum JsonModel {
    Null,
    Bool(bool),
    Int(int),
    Float(Double),
    Percent(Percent),
    Str(Seq<char>),
    Path(PathModel),
    Array(Seq<JsonModel>),
    Object(Map<Seq<char>, JsonModel>),
}

/// A JSON document.
#[derive(Debug)]
pub enum Json {
    /// `null`.
    Null,
    /// A truth value.
    Bool(bool),
    /// A number that is not negative.
    UInt(u64),
    /// A signed number.
    Int(i64),
    /// A double-precision number; written as `null` unless it is finite.
    Float(Double),
    /// A percentage, evaluated when it is written.
    Percent(Percent),
    /// A string.
    Str(String),
    /// A path, written as a string in the platform's notation.
    Path(RuntimePath),
    /// An array.
    Array(Vec<Json>),
    /// An object; of two fields with one key the later one counts.
    Object(Vec<Field>),
}

/// A field of a JSON object.
#[derive(Debug)]
pub struct Field {
    /// The field's name.
    pub key: String,
    /// The field's value.
    pub value: Json,
}

impl Json {
    /// The document as a mathematical value.
    pub open spec fn model(self) -> JsonModel
        decreases self,
    {
        match self {
            Json::Null => JsonModel::Null,
            Json::Bool(b) => JsonModel::Bool(b),
            Json::UInt(n) => JsonModel::Int(n as int),
            Json::Int(n) => JsonModel::Int(n as int),
            Json::Float(x) => JsonModel::Float(x),
            Json::Percent(p) => JsonModel::Percent(p),
            Json::Str(s) => JsonModel::Str(s@),
            Json::Path(p) => JsonModel::Path(p.model()),
            Json::Array(items) => JsonModel::Array(items_model(items@)),
            Json::Object(fields) => JsonModel::Object(fields_model(fields@)),
        }
    }
}

/// The items of an array, in order.
pub open spec fn items_model(items: Seq<Json>) -> Seq<JsonModel>
    decreases items,
{
    if items.len() == 0 {
        Seq::empty()
    } else {
        items_model(items.drop_last()).push(items.last().model())
    }
}

/// What an object maps its keys to: of two fields with one key the later one counts.
pub open spec fn fields_model(fields: Seq<Field>) -> Map<Seq<char>, JsonModel>
    decreases fields,
{
    if fields.len() == 0 {
        Map::empty()
    } else {
        fields_model(fields.drop_last()).insert(fields.last().key@, fields.last().value.model())
    }
}

/// An array with one more item.
pub proof fn items_model_push(items: Seq<Json>, item: Json)
    ensures
        items_model(items.push(item)) == items_model(items).push(item.model()),
{
    assert(items.push(item).drop_last() =~= items);
}

/// An object with one more field.
pub proof fn fields_model_push(fields: Seq<Field>, field: Field)
    ensures
        fields_model(fields.push(field)) == fields_model(fields).insert(
            field.key@,
            field.value.model(),
        ),
{
    assert(fields.push(field).drop_last() =~= fields);
}

/// Appending the fields of one object to another overrides what both hold with the appended ones.
pub proof fn fields_model_append(fields: Seq<Field>, more: Seq<Field>)
    ensures
        fields_model(fields + more) == fields_model(fields).union_prefer_right(fields_model(more)),
    decreases more.len(),
{
    if more.len() == 0 {
        assert(fields + more =~= fields);
        assert(fields_model(fields).union_prefer_right(fields_model(more)) =~= fields_model(
            fields,
        ));
    } else {
        fields_model_append(fields, more.drop_last());
        assert((fields + more).drop_last() =~= fields + more.drop_last());
        assert(fields_model(fields + more) =~= fields_model(fields).union_prefer_right(
            fields_model(more),
        ));
    }
}

impl Json {
    /// A copy of the document.
    pub fn copy(&self) -> (out: Json)
        ensures
            out.model() == self.model(),
        decreases self,
    {
        match self {
            Json::Null => Json::Null,
            Json::Bool(b) => Json::Bool(*b),
            Json::UInt(n) => Json::UInt(*n),
            Json::Int(n) => Json::Int(*n),
            Json::Float(x) => Json::Float(*x),
            Json::Percent(p) => Json::Percent(*p),
            Json::Str(s) => Json::Str(s.clone()),
            Json::Path(p) => Json::Path(p.copy()),
            Json::Array(items) => {
                let mut out: Vec<Json> = Vec::new();
                let mut i: usize = 0;
                while i < items.len()
                    invariant
                        i <= items.len(),
                        *self == Json::Array(*items),
                        items_model(out@) == items_model(items@.take(i as int)),
                    decreases items.len() - i,
                {
                    assert(decreases_to!(*self => self->Array_0@));
                    assert(decreases_to!(items@ => items@[i as int]));
                    let item = items[i].copy();
                    proof {
                        items_model_push(out@, item);
                        assert(items@.take(i + 1).drop_last() =~= items@.take(i as int));
                    }
                    out.push(item);
                    i = i + 1;
                }
                assert(items@.take(i as int) =~= items@);
                Json::Array(out)
            },
            Json::Object(fields) => {
                let mut out: Vec<Field> = Vec::new();
                let mut i: usize = 0;
                while i < fields.len()
                    invariant
                        i <= fields.len(),
                        *self == Json::Object(*fields),
                        fields_model(out@) == fields_model(fields@.take(i as int)),
                    decreases fields.len() - i,
                {
                    assert(decreases_to!(*self => self->Object_0@));
                    assert(decreases_to!(fields@ => fields@[i as int]));
                    assert(decreases_to!(fields@[i as int] => fields@[i as int].value));
                    let field = Field { key: fields[i].key.clone(), value: fields[i].value.copy() };
                    proof {
                        fields_model_push(out@, field);
                        assert(fields@.take(i + 1).drop_last() =~= fields@.take(i as int));
                    }
                    out.push(field);
                    i = i + 1;
                }
                assert(fields@.take(i as int) =~= fields@);
                Json::Object(out)
            },
        }
    }
}

/// A JSON object under construction.
#[derive(Debug)]
pub struct ObjectBuilder {
    fields: Vec<Field>,
}

impl View for ObjectBuilder {
    type V = Map<Seq<char>, JsonModel>;

    closed spec fn view(&self) -> Map<Seq<char>, JsonModel> {
        fields_model(self.fields@)
    }
}

impl ObjectBuilder {
    /// An object without fields.
    pub fn new() -> (object: ObjectBuilder)
        ensures
            object@ == Map::<Seq<char>, JsonModel>::empty(),
    {
        ObjectBuilder { fields: Vec::new() }
    }

    /// Sets a field, in place of any earlier value under the key.
    pub fn put(&mut self, key: &str, value: Json)
        ensures
            final(self)@ == old(self)@.insert(key@, value.model()),
    {
        let field = Field { key: key.to_owned(), value };
        proof {
            fields_model_push(self.fields@, field);
        }
        self.fields.push(field);
    }

    /// Sets every field of `more`, in place of any earlier values under their keys.
    pub fn put_all(&mut self, more: Vec<Field>)
        ensures
            final(self)@ == old(self)@.union_prefer_right(fields_model(more@)),
    {
        let mut more = more;
        proof {
            fields_model_append(self.fields@, more@);
        }
        self.fields.append(&mut more);
    }

    /// Sets every field of `extra` if it is an object, and nothing otherwise.
    pub fn merge(&mut self, extra: Json)
        ensures
            final(self)@ == merged(old(self)@, extra.model()),
    {
        if let Json::Object(fields) = extra {
            self.put_all(fields);
        }
    }

    /// The finished object.
    pub fn build(self) -> (object: Json)
        ensures
            object.model() == JsonModel::Object(self@),
    {
        Json::Object(self.fields)
    }
}

/// The fields of an object together with those of `extra` if that is an object: where both hold a
/// key, the one of `extra` counts.
pub open spec fn merged(
    fields: Map<Seq<char>, JsonModel>,
    extra: JsonModel,
) -> Map<Seq<char>, JsonModel> {
    match extra {
        JsonModel::Object(more) => fields.union_prefer_right(more),
        _ => fields,
    }
}

/// The model of an optional string: what is missing is `null`.
pub open spec fn opt_str_model(s: Option<Seq<char>>) -> JsonModel {
    match s {
        Some(text) => JsonModel::Str(text),
        None => JsonModel::Null,
    }
}

/// The model of an optional number: what is missing is `null`.
pub open spec fn opt_float_model(x: Option<Double>) -> JsonModel {
    match x {
        Some(value) => JsonModel::Float(value),
        None => JsonModel::Null,
    }
}

/// A JSON string.
pub fn json_str(s: &str) -> (out: Json)
    ensures
        out.model() == JsonModel::Str(s@),
{
    Json::Str(s.to_owned())
}

/// A JSON string, or `null` where there is none.
pub fn json_opt_str(s: &Option<String>) -> (out: Json)
    ensures
        out.model() == opt_str_model(option_view(*s)),
{
    match s {
        Some(text) => Json::Str(text.clone()),
        None => Json::Null,
    }
}

/// A JSON number, or `null` where there is none.
pub fn json_opt_float(x: Option<Double>) -> (out: Json)
    ensures
        out.model() == opt_float_model(x),
{
    match x {
        Some(value) => Json::Float(value),
        None => Json::Null,
    }
}

/// A JSON array of strings.
pub fn json_strings(strings: &Vec<String>) -> (out: Json)
    ensures
        out.model() == JsonModel::Array(
            strings_view(strings@).map_values(|s: Seq<char>| JsonModel::Str(s)),
        ),
{
    let mut items: Vec<Json> = Vec::new();
    let ghost texts = strings_view(strings@);
    let ghost to_model = |s: Seq<char>| JsonModel::Str(s);
    let mut i: usize = 0;
    while i < strings.len()
        invariant
            i <= strings.len(),
            texts == strings_view(strings@),
            to_model == (|s: Seq<char>| JsonModel::Str(s)),
            items_model(items@) == texts.take(i as int).map_values(to_model),
        decreases strings.len() - i,
    {
        let item = Json::Str(strings[i].clone());
        proof {
            items_model_push(items@, item);
            assert(texts.take(i + 1).map_values(to_model) =~= texts.take(i as int).map_values(
                to_model,
            ).push(item.model()));
        }
        items.push(item);
        i = i + 1;
    }
    assert(texts.take(i as int) =~= texts);
    Json::Array(items)
}

/// A JSON array of paths.
pub fn json_paths(paths: &Vec<RuntimePath>) -> (out: Json)
    ensures
        out.model() == JsonModel::Array(
            paths_view(paths@).map_values(|p: PathModel| JsonModel::Path(p)),
        ),
{
    let mut items: Vec<Json> = Vec::new();
    let ghost models = paths_view(paths@);
    let ghost to_model = |p: PathModel| JsonModel::Path(p);
    let mut i: usize = 0;
    while i < paths.len()
        invariant
            i <= paths.len(),
            models == paths_view(paths@),
            to_model == (|p: PathModel| JsonModel::Path(p)),
            items_model(items@) == models.take(i as int).map_values(to_model),
        decreases paths.len() - i,
    {
        let item = Json::Path(paths[i].copy());
        proof {
            items_model_push(items@, item);
            assert(models.take(i + 1).map_values(to_model) =~= models.take(i as int).map_values(
                to_model,
            ).push(item.model()));
        }
        items.push(item);
        i = i + 1;
    }
    assert(models.take(i as int) =~= models);
    Json::Array(items)
}

/// Merging overrides the fields of an object by those of another one, and keeps the rest; what is
/// no object changes nothing.
pub proof fn merging_overrides(
    fields: Map<Seq<char>, JsonModel>,
    extra: JsonModel,
    key: Seq<char>,
)
    ensures
        extra is Object ==> {
            let more = extra->Object_0;
            let all = merged(fields, extra);
            &&& all.contains_key(key) <==> fields.contains_key(key) || more.contains_key(key)
            &&& more.contains_key(key) ==> all[key] == more[key]
            &&& fields.contains_key(key) && !more.contains_key(key) ==> all[key] == fields[key]
        },
        !(extra is Object) ==> merged(fields, extra) == fields,
{
}

/// A document stands for what it holds: plain values for themselves, an array for its items in
/// their order, an object for its fields, the last one under each name.
pub proof fn documents_stand_for_what_they_hold(
    truth: bool,
    unsigned: u64,
    signed: i64,
    number: Double,
    percent: Percent,
    text: String,
    path: RuntimePath,
    items: Vec<Json>,
    fields: Vec<Field>,
    i: int,
)
    ensures
        Json::Null.model() == JsonModel::Null,
        Json::Bool(truth).model() == JsonModel::Bool(truth),
        Json::UInt(unsigned).model() == JsonModel::Int(unsigned as int),
        Json::Int(signed).model() == JsonModel::Int(signed as int),
        Json::Float(number).model() == JsonModel::Float(number),
        Json::Percent(percent).model() == JsonModel::Percent(percent),
        Json::Str(text).model() == JsonModel::Str(text@),
        Json::Path(path).model() == JsonModel::Path(path.model()),
        Json::Array(items).model() is Array,
        Json::Array(items).model()->Array_0.len() == items@.len(),
        0 <= i < items@.len() ==> Json::Array(items).model()->Array_0[i] == items@[i].model(),
        Json::Object(fields).model() is Object,
        0 <= i < fields@.len() ==> Json::Object(fields).model()->Object_0.contains_key(
            fields@[i].key@,
        ),
        0 <= i < fields@.len() && (forall|j: int|
            i < j < fields@.len() ==> (#[trigger] fields@[j]).key@ != fields@[i].key@)
            ==> Json::Object(fields).model()->Object_0[fields@[i].key@] == fields@[i].value.model(),
{
    reveal_with_fuel(Json::model, 2);
    if 0 <= i < items@.len() {
        item_at(items@, i);
    } else {
        items_keep_their_number(items@);
    }
    if 0 <= i < fields@.len() {
        field_at(fields@, i);
    }
}

proof fn items_keep_their_number(items: Seq<Json>)
    ensures
        items_model(items).len() == items.len(),
    decreases items.len(),
{
    if items.len() > 0 {
        items_keep_their_number(items.drop_last());
    }
}

proof fn item_at(items: Seq<Json>, i: int)
    requires
        0 <= i < items.len(),
    ensures
        items_model(items).len() == items.len(),
        items_model(items)[i] == items[i].model(),
    decreases items.len(),
{
    items_keep_their_number(items.drop_last());
    if i < items.len() - 1 {
        item_at(items.drop_last(), i);
    }
}

proof fn field_at(fields: Seq<Field>, i: int)
    requires
        0 <= i < fields.len(),
    ensures
        fields_model(fields).contains_key(fields[i].key@),
        (forall|j: int| i < j < fields.len() ==> (#[trigger] fields[j]).key@ != fields[i].key@)
            ==> fields_model(fields)[fields[i].key@] == fields[i].value.model(),
    decreases fields.len(),
{
    if i < fields.len() - 1 {
        let rest = fields.drop_last();
        field_at(rest, i);
        assert(rest[i] == fields[i]);
        if forall|j: int| i < j < fields.len() ==> (#[trigger] fields[j]).key@ != fields[i].key@ {
            assert forall|j: int| i < j < rest.len() implies (#[trigger] rest[j]).key@
                != rest[i].key@ by {
                assert(rest[j] == fields[j]);
            }
            assert(fields[fields.len() - 1].key@ != fields[i].key@);
        }
    }
}

} // verus!
