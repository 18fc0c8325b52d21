//! The crate's own JSON value type, and the parser behind it.
//!
//! The gateway and the identity service answer with JSON text.  Parsing is
//! done by `serde_json`; the parsed document is rebuilt as the crate's own
//! [`Json`] type, so that the decoding logic above it can be verified over
//! plain values.

use vstd::prelude::*;

verus! {

/// A JSON document as a plain value.
///
/// A number is kept only where it fits a signed 64-bit integer; every other
/// number (fractions, larger magnitudes) becomes [`Json::OtherNumber`],
/// which every numeric field decoder rejects.  An object keeps its fields
/// as a list of pairs; a later pair with the same name shadows an earlier
/// one, as in JSON text.
#[derive(Debug)]
pub enum Json {
    Null,
    Bool(bool),
    Int(i64),
    OtherNumber,
    Str(String),
    Arr(Vec<Json>),
    Obj(Vec<(String, Json)>),
}

/// The value of the last field named `key` among `fields`, or `Json::Null`
/// where no field carries that name.
pub open spec fn spec_field_in(fields: Seq<(String, Json)>, key: Seq<char>) -> Json
    decreases fields.len(),
{
    if fields.len() == 0 {
        Json::Null
    } else if fields.last().0@ == key {
        fields.last().1
    } else {
        spec_field_in(fields.drop_last(), key)
    }
}

impl Json {
    /// The value under `key`: `Json::Null` where `self` is not an object or
    /// has no field of that name, mirroring how indexing a JSON value
    /// behaves.
    pub open spec fn spec_lookup(self, key: Seq<char>) -> Json {
        match self {
            Json::Obj(fields) => spec_field_in(fields@, key),
            _ => Json::Null,
        }
    }

    /// The field of `self` named `key`, where `self` is an object that has
    /// one; the last occurrence wins, as in [`Json::spec_lookup`].
    pub fn get<'a>(&'a self, key: &String) -> (r: Option<&'a Json>)
        ensures
            (match r {
                Option::Some(v) => *v,
                Option::None => Json::Null,
            }) == self.spec_lookup(key@),
    {
        match self {
            Json::Obj(fields) => {
                let n = fields.len();
                let mut i: usize = 0;
                let mut found: Option<usize> = Option::None;
                while i < n
                    invariant
                        n == fields@.len(),
                        i <= n,
                        match found {
                            Option::Some(j) => {
                                &&& j < i
                                &&& fields@[j as int].0@ == key@
                                &&& spec_field_in(fields@.take(i as int), key@)
                                    == fields@[j as int].1
                            },
                            Option::None => spec_field_in(fields@.take(i as int), key@)
                                == Json::Null,
                        },
                    decreases n - i,
                {
                    proof {
                        assert(fields@.take(i + 1).drop_last() =~= fields@.take(i as int));
                        assert(fields@.take(i + 1).last() == fields@[i as int]);
                    }
                    if fields[i].0 == *key {
                        found = Option::Some(i);
                    }
                    i += 1;
                }
                proof {
                    assert(fields@.take(n as int) =~= fields@);
                }
                match found {
                    Option::Some(j) => Option::Some(&fields[j].1),
                    Option::None => Option::None,
                }
            },
            _ => Option::None,
        }
    }
}

/// What `serde_json` yields on a given text, rebuilt as the crate's own
/// [`Json`] type: `None` where the text is not a valid JSON document.
pub uninterp spec fn parsed_json(s: Seq<char>) -> Option<Json>;

#[verifier::external_type_specification]
#[verifier::external_body]
pub struct ExValue(serde_json::Value);

/// Relies on the variants of `serde_json::Value` and on
/// `serde_json::Number::as_i64` to rebuild a parsed document as the crate's
/// own [`Json`] type, one variant for one variant; a number that `as_i64`
/// refuses becomes [`Json::OtherNumber`].
#[verifier::external_body]
fn from_parsed(v: serde_json::Value) -> Json {
    match v {
        serde_json::Value::Null => Json::Null,
        serde_json::Value::Bool(b) => Json::Bool(b),
        serde_json::Value::Number(n) => match n.as_i64() {
            Option::Some(i) => Json::Int(i),
            Option::None => Json::OtherNumber,
        },
        serde_json::Value::String(s) => Json::Str(s),
        serde_json::Value::Array(a) => Json::Arr(a.into_iter().map(from_parsed).collect()),
        serde_json::Value::Object(m) => Json::Obj(
            m.into_iter().map(|f| (f.0, from_parsed(f.1))).collect(),
        ),
    }
}

/// Relies on `serde_json::from_str::<serde_json::Value>`: what a text
/// parses to is a function of the text alone, named by [`parsed_json`];
/// the parsed document is rebuilt by [`from_parsed`].
#[verifier::external_body]
pub fn parse_json(s: &str) -> (r: Option<Json>)
    ensures
        r == parsed_json(s@),
{
    match serde_json::from_str::<serde_json::Value>(s) {
        Result::Ok(v) => Option::Some(from_parsed(v)),
        Result::Err(_) => Option::None,
    }
}

} // verus!
