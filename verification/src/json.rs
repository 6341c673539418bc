//! A JSON document model and the lookups that the pricing, queue and
//! provider-catalog logic performs on documents read with serde_json.

use vstd::prelude::*;

verus! {

/// A JSON value. Object members keep the order in which the parser yields
/// them; a number keeps its text and, when it is an integer that fits, its
/// `i64` value.
pub enum Json {
    Null,
    Bool(bool),
    Number(Option<i64>, String),
    Str(String),
    Array(Vec<Json>),
    Object(Vec<(String, Json)>),
}

#[verifier::external_type_specification]
#[verifier::external_body]
pub struct ExSerdeJsonValue(serde_json::Value);

/// The document that serde_json reads from `text` as a `serde_json::Value`,
/// in the library's representation, or `None` where serde_json rejects the
/// text.
pub uninterp spec fn json_document(text: Seq<char>) -> Option<Json>;

/// Parses `text` with `serde_json::from_str::<serde_json::Value>`. The
/// contract claims only that the result is a function of the text (named
/// `json_document`); nothing is claimed about JSON syntax itself.
#[verifier::external_body]
pub fn parse_json(text: &str) -> (r: Option<Json>)
    ensures
        r == json_document(text@),
{
    serde_json::from_str::<serde_json::Value>(text).ok().map(json_from_value)
}

/// Moves a `serde_json::Value` into the library's representation, one arm
/// per variant; only `parse_json` calls it.
#[verifier::external_body]
fn json_from_value(v: serde_json::Value) -> Json {
    match v {
        serde_json::Value::Null => Json::Null,
        serde_json::Value::Bool(b) => Json::Bool(b),
        serde_json::Value::Number(n) => Json::Number(n.as_i64(), n.to_string()),
        serde_json::Value::String(s) => Json::Str(s),
        serde_json::Value::Array(a) => Json::Array(a.into_iter().map(json_from_value).collect()),
        serde_json::Value::Object(m) => Json::Object(
            m.into_iter().map(|(k, v)| (k, json_from_value(v))).collect(),
        ),
    }
}

/// The value of the first member named `key`.
pub open spec fn member(entries: Seq<(String, Json)>, key: Seq<char>) -> Option<Json>
    decreases entries.len(),
{
    if entries.len() == 0 {
        None
    } else if entries[0].0@ == key {
        Some(entries[0].1)
    } else {
        member(entries.drop_first(), key)
    }
}

/// `Value::get` with a string key: the member of an object, `None` for
/// anything else.
pub open spec fn json_get(j: Json, key: Seq<char>) -> Option<Json> {
    match j {
        Json::Object(entries) => member(entries@, key),
        _ => None,
    }
}

/// `value[key]`: the member, or `Null` where there is none.
pub open spec fn json_index(j: Json, key: Seq<char>) -> Json {
    match json_get(j, key) {
        Some(v) => v,
        None => Json::Null,
    }
}

/// `Value::as_str`.
pub open spec fn json_as_str(j: Json) -> Option<Seq<char>> {
    match j {
        Json::Str(s) => Some(s@),
        _ => None,
    }
}

/// `Value::as_i64`.
pub open spec fn json_as_i64(j: Json) -> Option<i64> {
    match j {
        Json::Number(v, _) => v,
        _ => None,
    }
}

/// `Value::as_object` followed by taking the first member's value:
/// `None` for a non-object, `Some(None)` for an empty object.
pub open spec fn json_first_member(j: Json) -> Option<Option<Json>> {
    match j {
        Json::Object(entries) => Some(
            if entries@.len() > 0 {
                Some(entries@[0].1)
            } else {
                None
            },
        ),
        _ => None,
    }
}

/// The referenced value of an optional reference.
pub open spec fn deref_opt(o: Option<&Json>) -> Option<Json> {
    match o {
        Some(x) => Some(*x),
        None => None,
    }
}

impl Json {
    /// Looks up the member named `key`, as `Value::get` does.
    pub fn get(&self, key: &str) -> (r: Option<&Json>)
        ensures
            deref_opt(r) == json_get(*self, key@),
    {
        match self {
            Json::Object(entries) => {
                let k = String::from_str(key);
                let mut i: usize = 0;
                assert(entries@.skip(0) =~= entries@);
                while i < entries.len()
                    invariant
                        i <= entries.len(),
                        k@ == key@,
                        json_get(*self, key@) == member(entries@, key@),
                        member(entries@, key@) == member(entries@.skip(i as int), key@),
                    decreases entries.len() - i,
                {
                    let ghost rest = entries@.skip(i as int);
                    assert(rest.drop_first() =~= entries@.skip(i + 1));
                    assert(rest[0] == entries@[i as int]);
                    if entries[i].0 == k {
                        return Some(&entries[i].1);
                    }
                    i = i + 1;
                }
                None
            },
            _ => None,
        }
    }

    /// The member named `key`, or `Null`, as `value[key]` does.
    pub fn index(&self, key: &str) -> (r: &Json)
        ensures
            *r == json_index(*self, key@),
    {
        match self.get(key) {
            Some(v) => v,
            None => &Json::Null,
        }
    }

    /// The text of a string value.
    pub fn as_str(&self) -> (r: Option<&String>)
        ensures
            match r {
                Some(s) => json_as_str(*self) == Some(s@),
                None => json_as_str(*self) is None,
            },
    {
        match self {
            Json::Str(s) => Some(s),
            _ => None,
        }
    }

    /// The value of an integer number that fits in `i64`.
    pub fn as_i64(&self) -> (r: Option<i64>)
        ensures
            r == json_as_i64(*self),
    {
        match self {
            Json::Number(v, _) => *v,
            _ => None,
        }
    }

    /// The elements of an array.
    pub fn as_array(&self) -> (r: Option<&Vec<Json>>)
        ensures
            match r {
                Some(v) => *self == Json::Array(*v),
                None => !(*self is Array),
            },
    {
        match self {
            Json::Array(v) => Some(v),
            _ => None,
        }
    }

    /// For an object, the value of its first member (if any).
    pub fn first_member(&self) -> (r: Option<Option<&Json>>)
        ensures
            match r {
                Some(m) => json_first_member(*self) == Some(deref_opt(m)),
                None => json_first_member(*self) is None,
            },
    {
        match self {
            Json::Object(entries) => {
                if entries.len() > 0 {
                    Some(Some(&entries[0].1))
                } else {
                    Some(None)
                }
            },
            _ => None,
        }
    }
}

} // verus!
