//! A model of JSON values for the protocol client: inbound frames are parsed
//! by serde_json and converted into this model, and everything the client
//! reads out of a response — ids, result objects, data fields, dimensions —
//! is verified against it.

use vstd::prelude::*;

use crate::strutil::str_eq;

verus! {

/// A JSON value as the protocol client reads it. Numbers outside the signed
/// 64-bit integers are carried as `Other`: the client never reads them.
pub enum Json {
    JNull,
    JBool(bool),
    JInt(i64),
    JStr(String),
    JArr(Vec<Json>),
    JObj(Vec<(String, Json)>),
    JOther,
}

/// The JSON value a text parses to, or `None` where it is not valid JSON.
/// A function of the text alone.
pub uninterp spec fn json_parse_of(s: Seq<char>) -> Option<Json>;

#[verifier::external_type_specification]
#[verifier::external_body]
pub struct ExValue(serde_json::Value);

/// Conversion helper of `parse_json`: moves one parsed value into the
/// library's model, one arm per variant; integers that do not fit a signed
/// 64-bit value become `JOther`.
#[verifier::external_body]
fn json_of_value(v: &serde_json::Value) -> Json {
    match v {
        serde_json::Value::Null => Json::JNull,
        serde_json::Value::Bool(b) => Json::JBool(*b),
        serde_json::Value::Number(n) => match n.as_i64() {
            Some(i) => Json::JInt(i),
            None => Json::JOther,
        },
        serde_json::Value::String(s) => Json::JStr(s.clone()),
        serde_json::Value::Array(a) => Json::JArr(a.iter().map(json_of_value).collect()),
        serde_json::Value::Object(m) => Json::JObj(
            m.iter().map(|(k, x)| (k.clone(), json_of_value(x))).collect(),
        ),
    }
}

/// Relies on serde_json::from_str: parses the text as JSON, failing exactly
/// where the text is not valid JSON; the parse is a function of the text
/// alone.
#[verifier::external_body]
pub(crate) fn parse_json(s: &str) -> (r: Option<Json>)
    ensures
        r == json_parse_of(s@),
{
    serde_json::from_str::<serde_json::Value>(s).ok().map(|v| json_of_value(&v))
}

/// The value under the first field with the given name, if any.
pub open spec fn obj_lookup(fields: Seq<(String, Json)>, key: Seq<char>) -> Option<Json>
    decreases fields.len(),
{
    if fields.len() == 0 {
        None
    } else if fields.first().0@ == key {
        Some(fields.first().1)
    } else {
        obj_lookup(fields.drop_first(), key)
    }
}

/// The value under a field of an object; anything else has no fields.
pub open spec fn json_get(j: Json, key: Seq<char>) -> Option<Json> {
    match j {
        Json::JObj(fields) => obj_lookup(fields@, key),
        _ => None,
    }
}

/// The text of a JSON string, if the value is one.
pub open spec fn json_str(j: Json) -> Option<Seq<char>> {
    match j {
        Json::JStr(s) => Some(s@),
        _ => None,
    }
}

/// The value of a JSON integer, if the value is one.
pub open spec fn json_int(j: Json) -> Option<int> {
    match j {
        Json::JInt(n) => Some(n as int),
        _ => None,
    }
}

/// The string under a field, if the value is an object and the field a
/// string.
pub open spec fn str_field(j: Json, key: Seq<char>) -> Option<Seq<char>> {
    match json_get(j, key) {
        Option::Some(v) => json_str(v),
        Option::None => None,
    }
}

/// The integer under a field, if the value is an object and the field an
/// integer.
pub open spec fn int_field(j: Json, key: Seq<char>) -> Option<int> {
    match json_get(j, key) {
        Option::Some(v) => json_int(v),
        Option::None => None,
    }
}

/// The value under the first field with the given name.
pub fn get_field<'a>(j: &'a Json, key: &str) -> (r: Option<&'a Json>)
    ensures
        match r {
            Option::Some(v) => json_get(*j, key@) == Some(*v),
            Option::None => json_get(*j, key@) is None,
        },
{
    match j {
        Json::JObj(fields) => {
            let n = fields.len();
            proof {
                assert(fields@.skip(0) =~= fields@);
            }
            for i in 0..n
                invariant
                    n == fields@.len(),
                    json_get(*j, key@) == obj_lookup(fields@, key@),
                    obj_lookup(fields@, key@) == obj_lookup(fields@.skip(i as int), key@),
            {
                proof {
                    assert(fields@.skip(i as int).first() == fields@[i as int]);
                    assert(fields@.skip(i as int).drop_first() =~= fields@.skip(i + 1));
                }
                if str_eq(fields[i].0.as_str(), key) {
                    return Some(&fields[i].1);
                }
            }
            proof {
                assert(fields@.skip(n as int) =~= Seq::<(String, Json)>::empty());
            }
            None
        },
        _ => None,
    }
}

/// Moves the value under the first field with the given name out of an
/// object, consuming the value.
pub fn take_field(j: Json, key: &str) -> (r: Option<Json>)
    ensures
        match r {
            Option::Some(v) => json_get(j, key@) == Some(v),
            Option::None => json_get(j, key@) is None,
        },
{
    match j {
        Json::JObj(mut fields) => {
            let ghost fseq = fields@;
            let n = fields.len();
            proof {
                assert(fseq.skip(0) =~= fseq);
            }
            for i in 0..n
                invariant
                    n == fields@.len(),
                    fields@ == fseq,
                    json_get(j, key@) == obj_lookup(fseq, key@),
                    obj_lookup(fseq, key@) == obj_lookup(fseq.skip(i as int), key@),
            {
                proof {
                    assert(fseq.skip(i as int).first() == fseq[i as int]);
                    assert(fseq.skip(i as int).drop_first() =~= fseq.skip(i + 1));
                }
                if str_eq(fields[i].0.as_str(), key) {
                    let pair = fields.remove(i);
                    return Some(pair.1);
                }
            }
            proof {
                assert(fseq.skip(n as int) =~= Seq::<(String, Json)>::empty());
            }
            None
        },
        _ => None,
    }
}

/// The text of a JSON string.
pub fn as_str_value(j: &Json) -> (r: Option<String>)
    ensures
        crate::meta::opt_str_view(r) == json_str(*j),
{
    match j {
        Json::JStr(s) => Some(s.clone()),
        _ => None,
    }
}

/// The value of a JSON integer.
pub fn as_int_value(j: &Json) -> (r: Option<i64>)
    ensures
        match r {
            Option::Some(v) => json_int(*j) == Some(v as int),
            Option::None => json_int(*j) is None,
        },
{
    match j {
        Json::JInt(n) => Some(*n),
        _ => None,
    }
}

/// The string under a field of an object.
pub fn get_str_field(j: &Json, key: &str) -> (r: Option<String>)
    ensures
        crate::meta::opt_str_view(r) == str_field(*j, key@),
{
    match get_field(j, key) {
        Option::Some(v) => as_str_value(v),
        Option::None => None,
    }
}

/// The integer under a field of an object.
pub fn get_int_field(j: &Json, key: &str) -> (r: Option<i64>)
    ensures
        match r {
            Option::Some(v) => int_field(*j, key@) == Some(v as int),
            Option::None => int_field(*j, key@) is None,
        },
{
    match get_field(j, key) {
        Option::Some(v) => as_int_value(v),
        Option::None => None,
    }
}

} // verus!
