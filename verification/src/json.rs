//! The JSON model: responses are parsed by serde_json behind one trusted
//! wrapper, converted into the plain `Json` tree below, and every rule that
//! reads a response is verified over that tree.
use vstd::prelude::*;

verus! {

/// A parsed JSON document as plain values. Numbers that are integers in
/// i64 range keep their value; any other number (floating point or out of
/// range) is `OtherNum`, which every decoder in this crate rejects. An
/// object parsed from text carries one entry per name, in sorted name
/// order, so the first-match lookup below is unambiguous.
pub enum Json {
    Null,
    Bool(bool),
    Int(i64),
    OtherNum,
    Str(String),
    Arr(Vec<Json>),
    Obj(Vec<(String, Json)>),
}

/// The value under `key` in an object's entry list: the first entry whose
/// name matches.
pub open spec fn obj_lookup(entries: Seq<(String, Json)>, key: Seq<char>) -> Option<Json>
    decreases entries.len(),
{
    if entries.len() == 0 {
        None
    } else if entries[0].0@ == key {
        Some(entries[0].1)
    } else {
        obj_lookup(entries.drop_first(), key)
    }
}

/// Descends one key: defined only on objects that carry the key.
pub open spec fn get_key_spec(j: Json, key: Seq<char>) -> Option<Json> {
    match j {
        Json::Obj(entries) => obj_lookup(entries@, key),
        _ => None,
    }
}

/// Descends a whole path of object keys, short-circuiting to `None` as soon
/// as a key is absent or the value at hand is not an object.
pub open spec fn get_path_spec(j: Json, path: Seq<Seq<char>>) -> Option<Json>
    decreases path.len(),
{
    if path.len() == 0 {
        Some(j)
    } else {
        match get_key_spec(j, path[0]) {
            Some(v) => get_path_spec(v, path.drop_first()),
            None => None,
        }
    }
}

/// Looks `key` up in `j`, if `j` is an object that carries it.
pub fn get_key<'a>(j: &'a Json, key: &String) -> (r: Option<&'a Json>)
    ensures
        match r {
            Some(v) => get_key_spec(*j, key@) == Some(*v),
            None => get_key_spec(*j, key@) is None,
        },
{
    match j {
        Json::Obj(entries) => {
            let n = entries.len();
            let mut i: usize = 0;
            proof {
                assert(entries@.skip(0) =~= entries@);
            }
            while i < n
                invariant
                    0 <= i <= n == entries@.len(),
                    get_key_spec(*j, key@) == obj_lookup(entries@, key@),
                    obj_lookup(entries@, key@) == obj_lookup(entries@.skip(i as int), key@),
                decreases n - i,
            {
                let pair = &entries[i];
                if pair.0 == *key {
                    proof {
                        let sk = entries@.skip(i as int);
                        assert(sk[0] == entries@[i as int]);
                        assert(obj_lookup(sk, key@) == Some(sk[0].1));
                    }
                    return Some(&pair.1);
                }
                proof {
                    assert(entries@.skip(i as int)[0] == entries@[i as int]);
                    assert(entries@.skip(i as int).drop_first() =~= entries@.skip(i as int + 1));
                }
                i = i + 1;
            }
            proof {
                assert(entries@.skip(n as int) =~= Seq::<(String, Json)>::empty());
            }
            None
        },
        _ => None,
    }
}

/// Declares serde_json's `Value` so that the conversion below may take it;
/// the tree stays opaque, only `parse_json`'s contract speaks for it.
#[verifier::external_type_specification]
#[verifier::external_body]
pub struct ExValue(serde_json::Value);

/// The `Json` tree that parsing a response text yields, if the text is
/// well-formed JSON. This names the result of `parse_json` below, which is
/// a function of the text alone: serde_json's parser is deterministic, and
/// so is the fixed conversion applied to what it returns (object entries
/// come out of serde_json's `Map` in sorted key order).
pub uninterp spec fn json_parse(raw: Seq<char>) -> Option<Json>;

/// Relies on serde_json::from_str::<Value>: returns the parsed document
/// for well-formed JSON text and an error otherwise; the empty text is
/// never well-formed (the parser reports end of input before any value).
#[verifier::external_body]
pub(crate) fn parse_json(raw: &str) -> (r: Option<Json>)
    ensures
        r == json_parse(raw@),
        raw@.len() == 0 ==> r is None,
{
    match serde_json::from_str::<serde_json::Value>(raw) {
        Ok(v) => Some(value_to_json(&v)),
        Err(_) => None,
    }
}

/// The conversion half of `parse_json`: carries serde_json's `Value` over
/// into the `Json` tree, one variant to one variant. No verified function
/// calls it directly; it exists only so that `parse_json`'s body stays a
/// single call plus this conversion.
#[verifier::external_body]
fn value_to_json(v: &serde_json::Value) -> Json {
    match v {
        serde_json::Value::Null => Json::Null,
        serde_json::Value::Bool(b) => Json::Bool(*b),
        serde_json::Value::Number(n) => match n.as_i64() {
            Some(i) => Json::Int(i),
            None => Json::OtherNum,
        },
        serde_json::Value::String(s) => Json::Str(s.clone()),
        serde_json::Value::Array(a) => Json::Arr(a.iter().map(value_to_json).collect()),
        serde_json::Value::Object(m) => Json::Obj(
            m.iter().map(|(k, x)| (k.clone(), value_to_json(x))).collect(),
        ),
    }
}

} // verus!
