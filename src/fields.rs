use vstd::prelude::*;

use crate::text::str_eq;

verus! {

#[verifier::external_type_specification]
#[verifier::external_body]
pub struct ExJsonValue(serde_json::Value);

#[verifier::external_type_specification]
#[verifier::external_body]
#[verifier::reject_recursive_types(K)]
#[verifier::reject_recursive_types(V)]
pub struct ExJsonMap<K, V>(serde_json::Map<K, V>);

#[verifier::external_type_specification]
#[verifier::external_body]
pub struct ExJsonError(serde_json::Error);

/// A JSON object map, as the field set holds it.
pub type JsonObject = serde_json::Map<String, serde_json::Value>;

/// The entries of a JSON object map whose value is a string: each key mapped to
/// that string.
pub uninterp spec fn json_entries(m: JsonObject) -> Map<Seq<char>, Seq<char>>;

/// Whether every value of a JSON object map is a string.
pub uninterp spec fn json_all_strings(m: JsonObject) -> bool;

/// The compact JSON text of an object that maps each key of `entries` to its string.
pub uninterp spec fn json_object_text(entries: Map<Seq<char>, Seq<char>>) -> Seq<char>;

/// Relies on `serde_json::Map::new`: the map starts empty.
#[verifier::external_body]
fn new_json_map() -> (r: JsonObject)
    ensures
        json_entries(r).dom().len() == 0 && json_entries(r).dom().finite(),
        json_all_strings(r),
{
    serde_json::Map::new()
}

/// Relies on `serde_json::Map::insert`: the key maps to the string afterwards, and an
/// earlier value under that key is replaced; a map of strings stays one.
#[verifier::external_body]
fn insert_string(m: &mut JsonObject, k: String, v: String)
    ensures
        json_entries(*final(m)) == json_entries(*old(m)).insert(k@, v@),
        json_all_strings(*old(m)) ==> json_all_strings(*final(m)),
{
    m.insert(k, serde_json::Value::String(v));
}

/// Relies on `serde_json::to_string` on a map whose values are all strings: the
/// compact JSON text of the map, with its keys in order (the map is a `BTreeMap`).
/// It writes into a `Vec`, which cannot fail, and string keys and `Value::String`
/// values go through `serialize_str` alone, which cannot fail either, so the result is
/// always `Ok`. That function escapes every control character, so no NUL is written.
#[verifier::external_body]
fn json_to_string(m: &JsonObject) -> (r: Result<String, serde_json::Error>)
    requires
        json_all_strings(*m),
    ensures
        r is Ok,
        r matches Ok(s) ==> s@ == json_object_text(json_entries(*m)),
        r matches Ok(s) ==> forall|i: int| 0 <= i < s@.len() ==> s@[i] != '\0',
{
    serde_json::to_string(m)
}

/// The fields recorded for one event or span: each field's name mapped to its
/// debug-formatted value, and the value of the field named `message`.
pub struct FieldSet {
    message: String,
    fields: JsonObject,
}

pub open spec fn message_key() -> Seq<char> {
    "message"@
}

impl FieldSet {
    /// Only strings are stored as values.
    pub closed spec fn wf(&self) -> bool {
        json_all_strings(self.fields)
    }
}

/// The text holds no NUL character.
pub open spec fn nul_free(s: Seq<char>) -> bool {
    forall|i: int| 0 <= i < s.len() ==> s[i] != '\0'
}

impl View for FieldSet {
    /// The message, then the map from field name to value.
    type V = (Seq<char>, Map<Seq<char>, Seq<char>>);

    closed spec fn view(&self) -> (Seq<char>, Map<Seq<char>, Seq<char>>) {
        (self.message@, json_entries(self.fields))
    }
}

impl FieldSet {
    /// An empty field set with an empty message.
    pub fn new() -> (r: FieldSet)
        ensures
            r.wf(),
            r@.0 == Seq::<char>::empty(),
            r@.1 == Map::<Seq<char>, Seq<char>>::empty(),
    {
        let fields = new_json_map();
        proof {
            json_entries(fields).dom().lemma_len0_is_empty();
            assert(json_entries(fields) =~= Map::<Seq<char>, Seq<char>>::empty());
        }
        FieldSet { message: String::new(), fields }
    }

    /// Records one field. A later value for the same name replaces the earlier one;
    /// the field named `message` also becomes the message.
    pub fn record(&mut self, name: &str, value: String)
        requires
            old(self).wf(),
        ensures
            final(self).wf(),
            final(self)@.1 == old(self)@.1.insert(name@, value@),
            final(self)@.0 == (if name@ == message_key() {
                value@
            } else {
                old(self)@.0
            }),
    {
        if str_eq(name, "message") {
            self.message = value.clone();
        }
        insert_string(&mut self.fields, String::from_str(name), value);
    }

    /// The JSON object text of the fields.
    pub fn fields(&self) -> (r: String)
        requires
            self.wf(),
        ensures
            r@ == json_object_text(self@.1),
            nul_free(r@),
    {
        match json_to_string(&self.fields) {
            Ok(s) => s,
            Err(_) => {
                assert(false);
                String::new()
            },
        }
    }

    /// The recorded message, empty when no field was named `message`.
    pub fn message(self) -> (r: String)
        ensures
            r@ == self@.0,
    {
        self.message
    }
}

} // verus!
