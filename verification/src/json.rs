//! JSON documents: what the library reads in a reply and what it writes.
use serde_json::{Number, Value};
use vstd::prelude::*;

use crate::text;

verus! {

/// A JSON number. Integers are kept as they are; any other number is kept as its
/// decimal numeral.
#[derive(Debug)]
pub enum JsonNumber {
    PosInt(u64),
    NegInt(i64),
    Float(String),
}

/// A JSON document. Where an object names a key twice the later entry counts.
#[derive(Debug)]
pub enum Json {
    Null,
    Bool(bool),
    Number(JsonNumber),
    Text(String),
    Array(Vec<Json>),
    Object(Vec<(String, Json)>),
}

/// What a JSON number is.
pub enum NumberModel {
    PosInt(u64),
    NegInt(i64),
    Float(Seq<char>),
}

/// What a JSON document is.
pub enum JsonModel {
    Null,
    Bool(bool),
    Number(NumberModel),
    Text(Seq<char>),
    Array(Seq<JsonModel>),
    Object(Map<Seq<char>, JsonModel>),
}

impl View for JsonNumber {
    type V = NumberModel;

    open spec fn view(&self) -> NumberModel {
        match *self {
            JsonNumber::PosInt(n) => NumberModel::PosInt(n),
            JsonNumber::NegInt(n) => NumberModel::NegInt(n),
            JsonNumber::Float(t) => NumberModel::Float(t@),
        }
    }
}

/// The document that a value holds.
pub open spec fn model(v: Json) -> JsonModel
    decreases v,
{
    match v {
        Json::Null => JsonModel::Null,
        Json::Bool(b) => JsonModel::Bool(b),
        Json::Number(n) => JsonModel::Number(n@),
        Json::Text(t) => JsonModel::Text(t@),
        Json::Array(items) => JsonModel::Array(item_models(items@)),
        Json::Object(fields) => JsonModel::Object(field_models(fields@)),
    }
}

/// The documents that a row of values holds.
pub open spec fn item_models(items: Seq<Json>) -> Seq<JsonModel>
    decreases items,
{
    if items.len() == 0 {
        Seq::empty()
    } else {
        item_models(items.drop_last()).push(model(items.last()))
    }
}

/// The fields that a row of entries makes: the last entry of each key.
pub open spec fn field_models(fields: Seq<(String, Json)>) -> Map<Seq<char>, JsonModel>
    decreases fields,
{
    if fields.len() == 0 {
        Map::empty()
    } else {
        field_models(fields.drop_last()).insert(fields.last().0@, model(fields.last().1))
    }
}

impl View for Json {
    type V = JsonModel;

    open spec fn view(&self) -> JsonModel {
        model(*self)
    }
}

impl JsonModel {
    /// The value under `key`, null where there is none.
    pub open spec fn field(self, key: Seq<char>) -> JsonModel {
        match self {
            JsonModel::Object(fields) => if fields.contains_key(key) {
                fields[key]
            } else {
                JsonModel::Null
            },
            _ => JsonModel::Null,
        }
    }

    /// The text that the value is, or `default` where it is no text.
    pub open spec fn text_or(self, default: Seq<char>) -> Seq<char> {
        match self {
            JsonModel::Text(t) => t,
            _ => default,
        }
    }

    /// The unsigned integer that the value is, zero where it is none.
    pub open spec fn unsigned_or_zero(self) -> u64 {
        match self {
            JsonModel::Number(NumberModel::PosInt(n)) => n,
            JsonModel::Number(NumberModel::NegInt(n)) => if n >= 0 { n as u64 } else { 0 },
            _ => 0,
        }
    }
}

/// One entry more sets one field more.
proof fn lemma_one_more_entry(fields: Seq<(String, Json)>, i: int)
    requires
        0 <= i < fields.len(),
    ensures
        field_models(fields.take(i + 1)) == field_models(fields.take(i)).insert(
            fields[i].0@,
            model(fields[i].1),
        ),
{
    assert(fields.take(i + 1).drop_last() =~= fields.take(i));
}

/// The place of the entry that counts for `key`.
pub fn find_field(fields: &Vec<(String, Json)>, key: &str) -> (found: Option<usize>)
    ensures
        match found {
            Some(i) => {
                &&& i < fields@.len()
                &&& fields@[i as int].0@ == key@
                &&& forall|j: int| i < j < fields@.len() ==> (#[trigger] fields@[j]).0@ != key@
                &&& field_models(fields@).contains_key(key@)
                &&& model(fields@[i as int].1) == field_models(fields@)[key@]
            },
            None => !field_models(fields@).contains_key(key@),
        },
{
    let mut i: usize = fields.len();
    assert(fields@.take(i as int) =~= fields@);
    while i > 0
        invariant
            i <= fields@.len(),
            field_models(fields@).contains_key(key@) == field_models(
                fields@.take(i as int),
            ).contains_key(key@),
            field_models(fields@)[key@] == field_models(fields@.take(i as int))[key@],
            forall|j: int| i <= j < fields@.len() ==> (#[trigger] fields@[j]).0@ != key@,
        decreases i,
    {
        i -= 1;
        proof {
            lemma_one_more_entry(fields@, i as int);
        }
        if text::same_text(fields[i].0.as_str(), key) {
            return Some(i);
        }
    }
    None
}

/// A new value in the entry that counts for a key sets that key.
proof fn lemma_overwritten_entry(fields: Seq<(String, Json)>, i: int, entry: (String, Json))
    requires
        0 <= i < fields.len(),
        fields[i].0@ == entry.0@,
        forall|j: int| i < j < fields.len() ==> (#[trigger] fields[j]).0@ != entry.0@,
    ensures
        field_models(fields.update(i, entry)) == field_models(fields).insert(
            entry.0@,
            model(entry.1),
        ),
    decreases fields.len(),
{
    let changed = fields.update(i, entry);
    let rest = fields.drop_last();
    if i == fields.len() - 1 {
        assert(changed.drop_last() =~= rest);
    } else {
        assert(changed.drop_last() =~= rest.update(i, entry));
        assert forall|j: int| i < j < rest.len() implies (#[trigger] rest[j]).0@ != entry.0@ by {
            assert(rest[j] == fields[j]);
        }
        lemma_overwritten_entry(rest, i, entry);
        assert(fields.last() == fields[fields.len() - 1]);
    }
    assert(field_models(changed) =~= field_models(fields).insert(entry.0@, model(entry.1)));
}

/// Sets `key` to `value`: in the entry that counts for it, or in a new one.
fn set_field(fields: &mut Vec<(String, Json)>, key: &str, value: Json)
    ensures
        field_models(final(fields)@) == field_models(old(fields)@).insert(key@, value@),
{
    let entry = (key.to_owned(), value);
    match find_field(fields, key) {
        Some(i) => {
            proof {
                lemma_overwritten_entry(fields@, i as int, entry);
            }
            fields.set(i, entry);
        },
        None => {
            fields.push(entry);
            assert(fields@.drop_last() =~= old(fields)@);
        },
    }
}

/// Sets `key` to a text.
pub fn set_text(fields: &mut Vec<(String, Json)>, key: &str, value: &str)
    ensures
        field_models(final(fields)@) == field_models(old(fields)@).insert(
            key@,
            JsonModel::Text(value@),
        ),
{
    set_field(fields, key, Json::Text(value.to_owned()))
}

/// Sets `key` to an unsigned integer.
pub fn set_unsigned(fields: &mut Vec<(String, Json)>, key: &str, value: u64)
    ensures
        field_models(final(fields)@) == field_models(old(fields)@).insert(
            key@,
            JsonModel::Number(NumberModel::PosInt(value)),
        ),
{
    set_field(fields, key, Json::Number(JsonNumber::PosInt(value)))
}

/// The models of the items, one by one.
pub proof fn lemma_item_models(items: Seq<Json>)
    ensures
        item_models(items).len() == items.len(),
        forall|i: int| 0 <= i < items.len() ==> #[trigger] item_models(items)[i] == model(items[i]),
    decreases items.len(),
{
    if items.len() > 0 {
        lemma_item_models(items.drop_last());
    }
}

impl Json {
    /// The value under `key`, null where there is none.
    pub fn field<'a>(&'a self, key: &str) -> (v: &'a Json)
        ensures
            v@ == self@.field(key@),
    {
        match self {
            Json::Object(fields) => {
                match find_field(fields, key) {
                    Some(i) => &fields[i].1,
                    None => &Json::Null,
                }
            },
            _ => &Json::Null,
        }
    }

    /// The text that the value is, or `default` where it is no text.
    pub fn text_or<'a>(&'a self, default: &'a str) -> (t: &'a str)
        ensures
            t@ == self@.text_or(default@),
    {
        match self {
            Json::Text(t) => t.as_str(),
            _ => default,
        }
    }

    /// The unsigned integer that the value is, zero where it is none.
    pub fn unsigned_or_zero(&self) -> (n: u64)
        ensures
            n == self@.unsigned_or_zero(),
    {
        match self {
            Json::Number(JsonNumber::PosInt(n)) => *n,
            Json::Number(JsonNumber::NegInt(n)) => if *n >= 0 { *n as u64 } else { 0 },
            _ => 0,
        }
    }
}

/// The serde_json crate's own document type.
#[verifier::external_type_specification]
#[verifier::external_body]
pub struct ExValue(serde_json::Value);

/// Turns a document into serde_json's `Value`, variant by variant. An object's
/// entries go through `Map::insert` in their order, which updates a key that is there
/// already. A float numeral that names no finite number becomes null.
#[verifier::external_body]
fn to_value(v: &Json) -> Value {
    match v {
        Json::Null => Value::Null,
        Json::Bool(b) => Value::Bool(*b),
        Json::Number(JsonNumber::PosInt(n)) => Value::from(*n),
        Json::Number(JsonNumber::NegInt(n)) => Value::from(*n),
        Json::Number(JsonNumber::Float(t)) => Value::from(t.parse().ok().and_then(Number::from_f64)),
        Json::Text(t) => Value::String(t.clone()),
        Json::Array(a) => Value::Array(a.iter().map(to_value).collect()),
        Json::Object(o) => {
            let mut m = serde_json::Map::new();
            for (k, x) in o { m.insert(k.clone(), to_value(x)); }
            Value::Object(m)
        },
    }
}

/// The JSON text of a document.
pub uninterp spec fn json_text_of(v: JsonModel) -> Seq<char>;

/// `to_string` of the serde_json crate. It fails only on a map key that is no
/// string or on a writer that fails; a document has neither, so it succeeds, with a
/// text that depends on the document alone.
#[verifier::external_body]
fn write_value(v: &Json) -> (t: Result<String, String>)
    ensures
        t is Ok,
        t->Ok_0@ == json_text_of(v@),
{
    serde_json::to_string(&to_value(v)).map_err(|e| e.to_string())
}

/// The JSON text of a document.
pub fn json_text(v: &Json) -> (t: String)
    ensures
        t@ == json_text_of(v@),
{
    write_value(v).unwrap()
}

/// A field that is set reads back as what it was set to, and no other field changes.
/// A key that is not set reads as null, and so does any key of a value that is no
/// object.
pub proof fn set_fields_read_back(
    fields: Map<Seq<char>, JsonModel>,
    key: Seq<char>,
    value: JsonModel,
    other: Seq<char>,
)
    requires
        other != key,
    ensures
        JsonModel::Object(fields.insert(key, value)).field(key) == value,
        JsonModel::Object(fields.insert(key, value)).field(other) == JsonModel::Object(
            fields,
        ).field(other),
        JsonModel::Object(fields.remove(key)).field(key) == JsonModel::Null,
        !(value is Object) ==> value.field(key) == JsonModel::Null,
{
}

/// A text reads as itself whatever the default, and any other value as the default.
pub proof fn texts_read_as_themselves(v: JsonModel, t: Seq<char>, default: Seq<char>)
    ensures
        JsonModel::Text(t).text_or(default) == t,
        !(v is Text) ==> v.text_or(default) == default,
{
}

/// An integer that is not negative reads as itself, and any other value as zero.
pub proof fn unsigned_integers_read_as_themselves(v: JsonModel, n: u64, m: i64)
    ensures
        JsonModel::Number(NumberModel::PosInt(n)).unsigned_or_zero() == n,
        m >= 0 ==> JsonModel::Number(NumberModel::NegInt(m)).unsigned_or_zero() == m,
        m < 0 ==> JsonModel::Number(NumberModel::NegInt(m)).unsigned_or_zero() == 0,
        !(v is Number) ==> v.unsigned_or_zero() == 0,
        v matches JsonModel::Number(NumberModel::Float(_)) ==> v.unsigned_or_zero() == 0,
{
}

/// Of two rows of entries, one after the other, the later one counts for every key that
/// it names, and the earlier one for the rest.
pub proof fn later_entries_count(a: Seq<(String, Json)>, b: Seq<(String, Json)>, key: Seq<char>)
    ensures
        field_models(a + b).contains_key(key) <==> field_models(a).contains_key(key)
            || field_models(b).contains_key(key),
        field_models(b).contains_key(key) ==> field_models(a + b)[key] == field_models(b)[key],
        !field_models(b).contains_key(key) ==> field_models(a + b)[key] == field_models(a)[key],
    decreases b.len(),
{
    if b.len() == 0 {
        assert(a + b =~= a);
    } else {
        assert((a + b).drop_last() =~= a + b.drop_last());
        assert((a + b).last() == b.last());
        later_entries_count(a, b.drop_last(), key);
    }
}

/// A single entry names its own key and no other.
pub proof fn entry_names_its_key(entry: (String, Json))
    ensures
        field_models(seq![entry]) == map![entry.0@ => model(entry.1)],
{
    assert(seq![entry].drop_last() =~= Seq::empty());
    assert(field_models(seq![entry].drop_last()) =~= Map::empty());
    assert(field_models(seq![entry]) =~= map![entry.0@ => model(entry.1)]);
}

/// Values without parts are seen as what they hold, and a row as its items one by one.
pub proof fn values_are_seen_as_they_are(
    b: bool,
    n: u64,
    m: i64,
    t: String,
    items: Vec<Json>,
    i: int,
)
    requires
        0 <= i < items@.len(),
    ensures
        model(Json::Null) == JsonModel::Null,
        model(Json::Bool(b)) == JsonModel::Bool(b),
        model(Json::Number(JsonNumber::PosInt(n))) == JsonModel::Number(NumberModel::PosInt(n)),
        model(Json::Number(JsonNumber::NegInt(m))) == JsonModel::Number(NumberModel::NegInt(m)),
        model(Json::Number(JsonNumber::Float(t))) == JsonModel::Number(NumberModel::Float(t@)),
        model(Json::Text(t)) == JsonModel::Text(t@),
        model(Json::Array(items)) matches JsonModel::Array(seen) && seen.len() == items@.len()
            && seen[i] == model(items@[i]),
{
    lemma_item_models(items@);
}

} // verus!
