//! The upstream response envelope: a JSON object shaped
//! `{ "data": { <field>: <value>, ... } }` from which exactly one named
//! string field is read per hop. Parsing and lookup are done by serde_json;
//! what it finds in a given body is named by [`json_string_field`], and all
//! classification above it is verified.

use vstd::prelude::*;

verus! {

/// What serde_json finds when `body` is parsed and the string field
/// `outer.field` is read: `None` when `body` is not well-formed JSON;
/// `Some(None)` when it parses but `outer.field` is absent or not a
/// string; `Some(Some(v))` when the field holds the string `v`. Parsing is
/// a function of the text alone.
pub uninterp spec fn json_string_field(body: Seq<char>, outer: Seq<char>, field: Seq<char>) -> Option<
    Option<Seq<char>>,
>;

/// The three outcomes of reading one field, mirrored as an executable
/// value.
pub enum FieldLookup {
    /// The body is not well-formed JSON.
    Malformed,
    /// The body parsed, but the field is absent or not a string.
    Missing,
    /// The field holds this string.
    Found(String),
}

/// Relies on serde_json: `from_str::<Value>` accepts exactly the
/// well-formed JSON texts, `Value::get` on a non-object or absent key
/// returns `None`, and `Value::as_str` returns the string exactly when the
/// value is a JSON string.
#[verifier::external_body]
fn lookup_string_field(body: &str, outer: &str, field: &str) -> (r: FieldLookup)
    ensures
        r is Malformed <==> json_string_field(body@, outer@, field@) is None,
        r is Missing <==> json_string_field(body@, outer@, field@) == Some(
            Option::<Seq<char>>::None,
        ),
        (match r {
            FieldLookup::Found(v) => json_string_field(body@, outer@, field@) == Some(Some(v@)),
            _ => true,
        }),
{
    match serde_json::from_str::<serde_json::Value>(body) {
        Err(_) => FieldLookup::Malformed,
        Ok(v) => match v.get(outer) {
            Some(d) => match d.get(field) {
                Some(x) => match x.as_str() {
                    Some(s) => FieldLookup::Found(s.to_string()),
                    None => FieldLookup::Missing,
                },
                None => FieldLookup::Missing,
            },
            None => FieldLookup::Missing,
        },
    }
}

/// What reading `data.<field>` of the envelope in `body` yields, with the
/// same three-way shape as [`json_string_field`].
pub open spec fn data_field(body: Seq<char>, field: Seq<char>) -> Option<Option<Seq<char>>> {
    json_string_field(body, "data"@, field)
}

/// Reads the single string field `data.<field>` of the upstream envelope
/// in `body`.
pub fn envelope_field(body: &str, field: &str) -> (r: FieldLookup)
    ensures
        r is Malformed <==> data_field(body@, field@) is None,
        r is Missing <==> data_field(body@, field@) == Some(Option::<Seq<char>>::None),
        (match r {
            FieldLookup::Found(v) => data_field(body@, field@) == Some(Some(v@)),
            _ => true,
        }),
{
    lookup_string_field(body, "data", field)
}

} // verus!
