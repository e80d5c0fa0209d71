//! The library's model of a loosely-typed provider response: a JSON-like
//! tree over plain values. Numbers are carried as their decimal text, so
//! that every reading of a numeric field is a verified function of that
//! text. Only the initial parse of the response body is trusted.

use vstd::prelude::*;
use vstd::string::StrSliceExecFns;
use crate::text::{spec_parse_u64, spec_parse_hundredths, parse_u64_str, parse_hundredths, str_eq};

verus! {

/// A structured-data value: what a provider response body holds.
#[derive(Debug)]
pub enum Json {
    Null,
    Bool(bool),
    /// A number, as the decimal text the provider wrote.
    Num(String),
    Str(String),
    Arr(Vec<Json>),
    Obj(Vec<(String, Json)>),
}

/// The value under `key` in an entry list: the first entry whose key
/// matches. (Entries parsed from a provider body have unique keys.)
pub open spec fn obj_lookup(entries: Seq<(String, Json)>, key: Seq<char>) -> Option<Json>
    decreases entries.len(),
{
    if entries.len() == 0 {
        None
    } else if entries[0].0@ == key {
        Some(entries[0].1)
    } else {
        obj_lookup(entries.drop_first(), key)
    }
}

/// The value under `key` when `j` is an object; nothing otherwise.
pub open spec fn spec_get(j: Json, key: Seq<char>) -> Option<Json> {
    match j {
        Json::Obj(entries) => obj_lookup(entries@, key),
        _ => None,
    }
}

pub open spec fn spec_as_str(j: Json) -> Option<Seq<char>> {
    match j {
        Json::Str(s) => Some(s@),
        _ => None,
    }
}

pub open spec fn spec_num_text(j: Json) -> Option<Seq<char>> {
    match j {
        Json::Num(s) => Some(s@),
        _ => None,
    }
}

pub open spec fn spec_elems(j: Json) -> Option<Seq<Json>> {
    match j {
        Json::Arr(v) => Some(v@),
        _ => None,
    }
}

/// Lifts a borrowed optional node to its spec value.
pub open spec fn ov(o: Option<&Json>) -> Option<Json> {
    match o {
        Some(j) => Some(*j),
        None => None,
    }
}

// The defensive navigation steps: each takes "a node, perhaps" and yields
// the next node of the fallback chain, perhaps.

pub open spec fn ospec_get(o: Option<Json>, key: Seq<char>) -> Option<Json> {
    match o {
        Some(j) => spec_get(j, key),
        None => None,
    }
}

pub open spec fn ospec_first(o: Option<Json>) -> Option<Json> {
    match o {
        Some(j) => match spec_elems(j) {
            Some(a) => if a.len() > 0 {
                Some(a[0])
            } else {
                None
            },
            None => None,
        },
        None => None,
    }
}

pub open spec fn ospec_str(o: Option<Json>) -> Option<Seq<char>> {
    match o {
        Some(j) => spec_as_str(j),
        None => None,
    }
}

pub open spec fn ospec_u64(o: Option<Json>) -> Option<u64> {
    match o {
        Some(j) => match spec_num_text(j) {
            Some(t) => spec_parse_u64(t),
            None => None,
        },
        None => None,
    }
}

pub open spec fn ospec_hundredths(o: Option<Json>) -> Option<int> {
    match o {
        Some(j) => match spec_num_text(j) {
            Some(t) => spec_parse_hundredths(t),
            None => None,
        },
        None => None,
    }
}

impl Json {
    /// The child under `key`, when this node is an object that has one.
    #[verifier::loop_isolation(false)]
    pub fn get<'a>(&'a self, key: &str) -> (r: Option<&'a Json>)
        ensures
            ov(r) == spec_get(*self, key@),
    {
        match self {
            Json::Obj(entries) => {
                let n = entries.len();
                assert(entries@.skip(0) =~= entries@);
                let mut i: usize = 0;
                while i < n
                    invariant
                        n == entries@.len(),
                        i <= n,
                        obj_lookup(entries@, key@) == obj_lookup(entries@.skip(i as int), key@),
                    decreases n - i,
                {
                    let e = &entries[i];
                    proof {
                        assert(entries@.skip(i as int)[0] == entries@[i as int]);
                        assert(entries@.skip(i as int).drop_first() =~= entries@.skip(i as int + 1));
                    }
                    if str_eq(e.0.as_str(), key) {
                        assert(obj_lookup(entries@.skip(i as int), key@)
                            == Some(entries@[i as int].1));
                        return Some(&e.1);
                    }
                    i += 1;
                }
                assert(entries@.skip(n as int) =~= Seq::<(String, Json)>::empty());
                None
            },
            _ => None,
        }
    }

    /// The characters of this node, when it is a string.
    pub fn as_str<'a>(&'a self) -> (r: Option<&'a str>)
        ensures
            match r {
                Some(s) => spec_as_str(*self) == Some(s@),
                None => spec_as_str(*self) is None,
            },
    {
        match self {
            Json::Str(s) => Some(s.as_str()),
            _ => None,
        }
    }

    /// The elements of this node, when it is an array.
    pub fn elems<'a>(&'a self) -> (r: Option<&'a Vec<Json>>)
        ensures
            match r {
                Some(v) => spec_elems(*self) == Some(v@),
                None => spec_elems(*self) is None,
            },
    {
        match self {
            Json::Arr(v) => Some(v),
            _ => None,
        }
    }
}

/// `o.get(key)` for an optional node.
pub fn jget<'a>(o: Option<&'a Json>, key: &str) -> (r: Option<&'a Json>)
    ensures
        ov(r) == ospec_get(ov(o), key@),
{
    match o {
        Some(j) => j.get(key),
        None => None,
    }
}

/// The first element, for an optional node that is a non-empty array.
pub fn jfirst<'a>(o: Option<&'a Json>) -> (r: Option<&'a Json>)
    ensures
        ov(r) == ospec_first(ov(o)),
{
    match o {
        Some(j) => match j.elems() {
            Some(v) => if v.len() > 0 {
                Some(&v[0])
            } else {
                None
            },
            None => None,
        },
        None => None,
    }
}

/// The string characters, for an optional node that is a string.
pub fn jstr<'a>(o: Option<&'a Json>) -> (r: Option<&'a str>)
    ensures
        match r {
            Some(s) => ospec_str(ov(o)) == Some(s@),
            None => ospec_str(ov(o)) is None,
        },
{
    match o {
        Some(j) => j.as_str(),
        None => None,
    }
}

/// The numeric value, for an optional node whose number text is a
/// non-negative integer.
pub fn ju64(o: Option<&Json>) -> (r: Option<u64>)
    ensures
        r == ospec_u64(ov(o)),
{
    match o {
        Some(j) => match j {
            Json::Num(t) => parse_u64_str(t.as_str()),
            _ => None,
        },
        None => None,
    }
}

/// The amount in hundredths, for an optional node that is a number.
pub fn jhundredths(o: Option<&Json>) -> (r: Option<i64>)
    ensures
        match r {
            Some(v) => ospec_hundredths(ov(o)) == Some(v as int),
            None => ospec_hundredths(ov(o)) is None,
        },
{
    match o {
        Some(j) => match j {
            Json::Num(t) => parse_hundredths(t.as_str()),
            _ => None,
        },
        None => None,
    }
}

#[verifier::external_type_specification]
#[verifier::external_body]
pub struct ExValue(serde_json::Value);

/// What parsing body text as JSON yields: the value tree, or the parse
/// error's rendering. Both depend on the text alone. The trusted
/// [`parse_json`] is the only place this name is given a value.
pub uninterp spec fn json_of(s: Seq<char>) -> Result<Json, Seq<char>>;

/// Builds the library's tree from serde_json's: one arm per variant,
/// moving fields; numbers keep their decimal text. Used by [`parse_json`]
/// only.
#[verifier::external_body]
fn value_to_json(v: serde_json::Value) -> Json {
    match v {
        serde_json::Value::Null => Json::Null,
        serde_json::Value::Bool(b) => Json::Bool(b),
        serde_json::Value::Number(n) => Json::Num(n.to_string()),
        serde_json::Value::String(s) => Json::Str(s),
        serde_json::Value::Array(a) => Json::Arr(a.into_iter().map(value_to_json).collect()),
        serde_json::Value::Object(o) => Json::Obj(
            o.into_iter().map(|(k, x)| (k, value_to_json(x))).collect(),
        ),
    }
}

/// Relies on serde_json::from_str: text that is well-formed JSON parses
/// to its value tree, deterministically in the text; text that is not
/// yields an error, whose rendering is returned.
#[verifier::external_body]
pub(crate) fn parse_json(text: &str) -> (r: Result<Json, String>)
    ensures
        r is Ok <==> json_of(text@) is Ok,
        r is Ok ==> json_of(text@) == Ok::<Json, Seq<char>>(r->Ok_0),
        r is Err ==> json_of(text@) == Err::<Json, Seq<char>>(r->Err_0@),
{
    match serde_json::from_str::<serde_json::Value>(text) {
        Ok(v) => Ok(value_to_json(v)),
        Err(e) => Err(e.to_string()),
    }
}

} // verus!
