//! A transparent JSON tree and the trusted bridge that fills it.
//!
//! Upstream services answer with JSON bodies.  `serde_json` does the actual
//! parsing; the parsed document is rebuilt node for node as [`Json`], a tree
//! of plain values that every later pipeline stage reads under full
//! verification.  Numbers are kept in their textual form, so the tree holds
//! no floating point.

use vstd::prelude::*;
use crate::text;

verus! {

/// A JSON document, with numbers kept in their textual form.
pub enum Json {
    Null,
    Bool(bool),
    Num(String),
    Str(String),
    Arr(Vec<Json>),
    Obj(Vec<(String, Json)>),
}

#[verifier::external_type_specification]
#[verifier::external_body]
pub struct ExValue(serde_json::Value);

/// What parsing a text as JSON yields, if anything.  The same text always
/// yields the same document.
pub uninterp spec fn json_parse(s: Seq<char>) -> Option<Json>;

/// Relies on `serde_json::Value`'s variants: rebuilds the parsed document as
/// the library's tree, one node for one node, numbers in their textual form
/// and object members in the order the parser keeps them.
#[verifier::external_body]
fn json_of_value(v: &serde_json::Value) -> Json {
    match v {
        serde_json::Value::Null => Json::Null,
        serde_json::Value::Bool(b) => Json::Bool(*b),
        serde_json::Value::Number(n) => Json::Num(n.to_string()),
        serde_json::Value::String(s) => Json::Str(s.clone()),
        serde_json::Value::Array(a) => Json::Arr(a.iter().map(json_of_value).collect()),
        serde_json::Value::Object(o) => Json::Obj(
            o.iter().map(|(k, x)| (k.clone(), json_of_value(x))).collect(),
        ),
    }
}

/// Relies on `serde_json::from_str`: parsing is a function of the text alone,
/// and a text either parses to one document or fails to parse.
#[verifier::external_body]
pub fn parse_json(s: &str) -> (r: Option<Json>)
    ensures
        match r {
            Some(j) => json_parse(s@) == Some(j),
            None => json_parse(s@) is None,
        },
{
    match serde_json::from_str::<serde_json::Value>(s) {
        Ok(v) => Some(json_of_value(&v)),
        Err(_) => None,
    }
}

// ---------------------------------------------------------------------------
// Reading the tree
// ---------------------------------------------------------------------------

/// First member of an object's member list with the given name.
pub open spec fn obj_get(pairs: Seq<(String, Json)>, k: Seq<char>) -> Option<Json>
    decreases pairs.len(),
{
    if pairs.len() == 0 {
        None
    } else if pairs[0].0@ == k {
        Some(pairs[0].1)
    } else {
        obj_get(pairs.drop_first(), k)
    }
}

/// Member `k` of `j`, when `j` is an object that has one.
pub open spec fn j_get(j: Json, k: Seq<char>) -> Option<Json> {
    match j {
        Json::Obj(ps) => obj_get(ps@, k),
        _ => None,
    }
}

pub open spec fn j_bool(j: Json) -> Option<bool> {
    match j {
        Json::Bool(b) => Some(b),
        _ => None,
    }
}

/// The value of a number node whose text is a plain integer numeral.
pub open spec fn j_int(j: Json) -> Option<int> {
    match j {
        Json::Num(t) => text::int_of_text(t@),
        _ => None,
    }
}

/// The value of a number node in hundred-thousandths, rounded to five
/// decimal places.
pub open spec fn j_dec5(j: Json) -> Option<int> {
    match j {
        Json::Num(t) => text::dec5_of_text(t@),
        _ => None,
    }
}

impl Json {
    /// Looks a member up by name.
    pub fn get<'a>(&'a self, key: &str) -> (r: Option<&'a Json>)
        ensures
            match r {
                Some(x) => j_get(*self, key@) == Some(*x),
                None => j_get(*self, key@) is None,
            },
    {
        match self {
            Json::Obj(ps) => {
                let needle = key.to_owned();
                let n = ps.len();
                let mut i: usize = 0;
                proof {
                    assert(ps@.skip(0) =~= ps@);
                }
                while i < n
                    invariant
                        i <= n == ps@.len(),
                        needle@ == key@,
                        j_get(*self, key@) == obj_get(ps@, key@),
                        obj_get(ps@, key@) == obj_get(ps@.skip(i as int), key@),
                    decreases n - i,
                {
                    if ps[i].0 == needle {
                        proof {
                            assert(ps@.skip(i as int)[0] == ps@[i as int]);
                        }
                        return Some(&ps[i].1);
                    }
                    proof {
                        assert(ps@.skip(i as int).drop_first() =~= ps@.skip(i + 1));
                    }
                    i = i + 1;
                }
                proof {
                    assert(ps@.skip(n as int) =~= Seq::<(String, Json)>::empty());
                }
                None
            },
            _ => None,
        }
    }

    pub fn as_str_node(&self) -> (r: Option<&String>)
        ensures
            match r {
                Some(s) => *self == Json::Str(*s),
                None => !(*self is Str),
            },
    {
        match self {
            Json::Str(s) => Some(s),
            _ => None,
        }
    }

    pub fn as_arr_node(&self) -> (r: Option<&Vec<Json>>)
        ensures
            match r {
                Some(a) => *self == Json::Arr(*a),
                None => !(*self is Arr),
            },
    {
        match self {
            Json::Arr(a) => Some(a),
            _ => None,
        }
    }

    pub fn as_bool_node(&self) -> (r: Option<bool>)
        ensures
            r == j_bool(*self),
    {
        match self {
            Json::Bool(b) => Some(*b),
            _ => None,
        }
    }

    pub fn as_int_node(&self) -> (r: Option<i64>)
        ensures
            match r {
                Some(v) => j_int(*self) == Some(v as int),
                None => j_int(*self) is None,
            },
    {
        match self {
            Json::Num(t) => text::parse_int_text(t.as_str()),
            _ => None,
        }
    }

    pub fn as_dec5_node(&self) -> (r: Option<i64>)
        ensures
            match r {
                Some(v) => j_dec5(*self) == Some(v as int),
                None => j_dec5(*self) is None,
            },
    {
        match self {
            Json::Num(t) => text::parse_dec5_text(t.as_str()),
            _ => None,
        }
    }

    /// The textual form of a number node, for fields the pipeline carries
    /// along without interpreting.
    pub fn as_num_text(&self) -> (r: Option<&String>)
        ensures
            match r {
                Some(t) => *self == Json::Num(*t),
                None => !(*self is Num),
            },
    {
        match self {
            Json::Num(t) => Some(t),
            _ => None,
        }
    }
}

} // verus!
