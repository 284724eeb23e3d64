use vstd::prelude::*;

verus! {

/// serde_json's number, carried through unread.
#[verifier::external_type_specification]
#[verifier::external_body]
pub struct ExNumber(serde_json::Number);

/// serde_json's document type, met only inside the conversions below.
#[verifier::external_type_specification]
#[verifier::external_body]
pub struct ExValue(serde_json::Value);

/// A JSON document, one variant for each kind of JSON value.
pub enum Json {
    Null,
    Bool(bool),
    Number(serde_json::Number),
    Str(String),
    Array(Vec<Json>),
    Object(Vec<(String, Json)>),
}

/// The mathematical value of a JSON document.
pub enum JsonV {
    Null,
    Bool(bool),
    Number(serde_json::Number),
    Str(Seq<char>),
    Array(Seq<JsonV>),
    Object(Seq<(Seq<char>, JsonV)>),
}

impl View for Json {
    type V = JsonV;

    open spec fn view(&self) -> JsonV {
        json_view(self)
    }
}

/// The value of a document, field by field and item by item.
pub open spec fn json_view(j: &Json) -> JsonV
    decreases j,
{
        match j {
            Json::Null => JsonV::Null,
            Json::Bool(b) => JsonV::Bool(*b),
            Json::Number(n) => JsonV::Number(*n),
            Json::Str(s) => JsonV::Str(s@),
            Json::Array(items) => JsonV::Array(
                Seq::new(
                    items@.len(),
                    |i: int|
                        if 0 <= i < items@.len() {
                            json_view(&items@[i])
                        } else {
                            JsonV::Null
                        },
                ),
            ),
            Json::Object(fields) => JsonV::Object(
                Seq::new(
                    fields@.len(),
                    |i: int|
                        if 0 <= i < fields@.len() {
                            (fields@[i].0@, json_view(&fields@[i].1))
                        } else {
                            (Seq::empty(), JsonV::Null)
                        },
                ),
            ),
        }
}

/// The first value stored under `key` among `fields`, if any.
pub open spec fn field_of(fields: Seq<(Seq<char>, JsonV)>, key: Seq<char>) -> Option<JsonV>
    decreases fields.len(),
{
    if fields.len() == 0 {
        None
    } else if fields[0].0 == key {
        Some(fields[0].1)
    } else {
        field_of(fields.drop_first(), key)
    }
}

/// The first value stored under `key` where `v` is an object; `None` for any other value.
pub open spec fn member(v: JsonV, key: Seq<char>) -> Option<JsonV> {
    match v {
        JsonV::Object(fields) => field_of(fields, key),
        _ => None,
    }
}

/// A field counts as absent when it is missing or holds `null`.
pub open spec fn is_absent(f: Option<JsonV>) -> bool {
    f is None || f == Some(JsonV::Null)
}

/// The document that serde_json reads from `text`, or `None` where `text` is not JSON.
pub uninterp spec fn parsed_json(text: Seq<char>) -> Option<JsonV>;

/// The compact JSON text that serde_json writes for a document.
pub uninterp spec fn printed_json(v: JsonV) -> Seq<char>;

/// The value of a document that may be missing.
pub open spec fn opt_view(r: Option<Json>) -> Option<JsonV> {
    match r {
        Some(v) => Some(v@),
        None => None,
    }
}

/// Converts a serde_json value to a `Json`, variant for variant; an object's entries
/// keep the order in which serde_json's map yields them.
#[verifier::external_body]
fn json_from_value(v: serde_json::Value) -> Json {
    match v {
        serde_json::Value::Null => Json::Null,
        serde_json::Value::Bool(b) => Json::Bool(b),
        serde_json::Value::Number(n) => Json::Number(n),
        serde_json::Value::String(s) => Json::Str(s),
        serde_json::Value::Array(a) => Json::Array(a.into_iter().map(json_from_value).collect()),
        serde_json::Value::Object(m) => Json::Object(
            m.into_iter().map(|(k, x)| (k, json_from_value(x))).collect(),
        ),
    }
}

/// Converts a `Json` to a serde_json value, variant for variant.
#[verifier::external_body]
fn value_from_json(v: &Json) -> serde_json::Value {
    match v {
        Json::Null => serde_json::Value::Null,
        Json::Bool(b) => serde_json::Value::Bool(*b),
        Json::Number(n) => serde_json::Value::Number(n.clone()),
        Json::Str(s) => serde_json::Value::String(s.clone()),
        Json::Array(a) => serde_json::Value::Array(a.iter().map(value_from_json).collect()),
        Json::Object(m) => serde_json::Value::Object(
            m.iter().map(|(k, x)| (k.clone(), value_from_json(x))).collect(),
        ),
    }
}

/// Relies on serde_json::from_str: reads a whole text as one JSON document.
#[verifier::external_body]
pub(crate) fn parse_json(text: &str) -> (r: Option<Json>)
    ensures
        opt_view(r) == parsed_json(text@),
{
    serde_json::from_str::<serde_json::Value>(text).ok().map(json_from_value)
}

/// Relies on serde_json's `Display` for `Value`: the compact JSON text of a document.
#[verifier::external_body]
pub(crate) fn print_json(v: &Json) -> (r: String)
    ensures
        r@ == printed_json(v@),
{
    value_from_json(v).to_string()
}

impl Json {
    /// The first value stored under `key`, where `self` is an object.
    pub fn get(&self, key: &String) -> (r: Option<&Json>)
        ensures
            member(self@, key@) == match r {
                Some(x) => Some(x@),
                None => None,
            },
    {
        match self {
            Json::Object(fields) => {
                let ghost fs = self@->Object_0;
                assert(fs.subrange(0, fields@.len() as int) =~= fs);
                let mut i: usize = 0;
                while i < fields.len()
                    invariant
                        0 <= i <= fields@.len(),
                        self@ == JsonV::Object(fs),
                        fs.len() == fields@.len(),
                        forall|j: int| 0 <= j < fs.len() ==> #[trigger] fs[j] == (fields@[j].0@, fields@[j].1@),
                        field_of(fs, key@) == field_of(fs.subrange(i as int, fields@.len() as int), key@),
                    decreases fields@.len() - i,
                {
                    let ghost rest = fs.subrange(i as int, fields@.len() as int);
                    assert(rest[0] == fs[i as int]);
                    if fields[i].0 == *key {
                        return Some(&fields[i].1);
                    }
                    assert(rest.drop_first() =~= fs.subrange(i + 1, fields@.len() as int));
                    i = i + 1;
                }
                assert(fs.subrange(i as int, fields@.len() as int).len() == 0);
                None
            }
            _ => None,
        }
    }
}

} // verus!
