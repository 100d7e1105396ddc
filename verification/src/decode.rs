//! Decoding located JSON values into the typed data of `data`: every rule
//! that turns a tree into a `Card`, `Phase`, `Member` or reference is
//! stated as a spec function and the executable decoder is proved against
//! it.
use vstd::prelude::*;
use vstd::string::StringExecFns;
use crate::data::{Card, CardField, CardRef, Member, Phase, PipeRef};
use crate::json::{get_key, get_key_spec, Json};
use crate::numeral::{parse_dec, parse_u64_digits};

verus! {

/// An integer read leniently: either a JSON integer that is not negative,
/// or a string of decimal digits.
pub open spec fn json_u64(j: Json) -> Option<u64> {
    match j {
        Json::Int(n) => if n >= 0 {
            Some(n as u64)
        } else {
            None
        },
        Json::Str(s) => parse_dec(s@),
        _ => None,
    }
}

pub fn json_u64_of(j: &Json) -> (r: Option<u64>)
    ensures
        r == json_u64(*j),
{
    match j {
        Json::Int(n) => if *n >= 0 {
            Some(*n as u64)
        } else {
            None
        },
        Json::Str(s) => parse_u64_digits(s.as_str()),
        _ => None,
    }
}

/// A string-typed id, as card ids arrive: digits wrapped in a JSON string,
/// never a bare number.
pub open spec fn id_string(j: Json) -> Option<u64> {
    match j {
        Json::Str(s) => parse_dec(s@),
        _ => None,
    }
}

pub fn id_string_of(j: &Json) -> (r: Option<u64>)
    ensures
        r == id_string(*j),
{
    match j {
        Json::Str(s) => parse_u64_digits(s.as_str()),
        _ => None,
    }
}

/// Decodes every item of a list, left to right; one bad item spoils the
/// whole list.
pub open spec fn decode_list<T>(items: Seq<Json>, f: spec_fn(Json) -> Option<T>) -> Option<Seq<T>>
    decreases items.len(),
{
    if items.len() == 0 {
        Some(Seq::empty())
    } else {
        match (decode_list(items.drop_last(), f), f(items.last())) {
            (Some(rest), Some(x)) => Some(rest.push(x)),
            _ => None,
        }
    }
}

/// What a phase record must look like: a name, an integer card count that
/// fits in u32, and a description.
pub open spec fn phase_spec(j: Json) -> Option<Phase> {
    match (get_key_spec(j, "name"@), get_key_spec(j, "cards_count"@), get_key_spec(
        j,
        "description"@,
    )) {
        (Some(Json::Str(n)), Some(Json::Int(c)), Some(Json::Str(d))) => if 0 <= c <= u32::MAX {
            Some(Phase { name: n, cards_count: c as u32, description: d })
        } else {
            None
        },
        _ => None,
    }
}

pub fn decode_phase(j: &Json) -> (r: Option<Phase>)
    ensures
        r == phase_spec(*j),
{
    let k_name = String::from_str("name");
    let k_count = String::from_str("cards_count");
    let k_desc = String::from_str("description");
    match (get_key(j, &k_name), get_key(j, &k_count), get_key(j, &k_desc)) {
        (Some(Json::Str(n)), Some(Json::Int(c)), Some(Json::Str(d))) => {
            if 0 <= *c && *c <= u32::MAX as i64 {
                Some(Phase { name: n.clone(), cards_count: *c as u32, description: d.clone() })
            } else {
                None
            }
        },
        _ => None,
    }
}

/// One custom field of a card: a name and a value, both strings.
pub open spec fn field_spec(j: Json) -> Option<CardField> {
    match (get_key_spec(j, "name"@), get_key_spec(j, "value"@)) {
        (Some(Json::Str(n)), Some(Json::Str(v))) => Some(CardField { name: n, value: v }),
        _ => None,
    }
}

pub fn decode_field(j: &Json) -> (r: Option<CardField>)
    ensures
        r == field_spec(*j),
{
    let k_name = String::from_str("name");
    let k_value = String::from_str("value");
    match (get_key(j, &k_name), get_key(j, &k_value)) {
        (Some(Json::Str(n)), Some(Json::Str(v))) => Some(
            CardField { name: n.clone(), value: v.clone() },
        ),
        _ => None,
    }
}

/// A list entry of the card-list query: the node under an edge, carrying a
/// string-typed id and a title.
pub open spec fn card_ref_spec(j: Json) -> Option<CardRef> {
    match get_key_spec(j, "node"@) {
        Some(node) => match (get_key_spec(node, "id"@), get_key_spec(node, "title"@)) {
            (Some(idj), Some(Json::Str(t))) => match id_string(idj) {
                Some(id) => Some(CardRef { id, title: t }),
                None => None,
            },
            _ => None,
        },
        None => None,
    }
}

pub fn decode_card_ref(j: &Json) -> (r: Option<CardRef>)
    ensures
        r == card_ref_spec(*j),
{
    let k_node = String::from_str("node");
    let k_id = String::from_str("id");
    let k_title = String::from_str("title");
    match get_key(j, &k_node) {
        Some(node) => match (get_key(node, &k_id), get_key(node, &k_title)) {
            (Some(idj), Some(Json::Str(t))) => match id_string_of(idj) {
                Some(id) => Some(CardRef { id, title: t.clone() }),
                None => None,
            },
            _ => None,
        },
        None => None,
    }
}

/// A member record: the user's id and name under `user`, and the role
/// name beside them.
pub open spec fn member_spec(j: Json) -> Option<Member> {
    match (get_key_spec(j, "user"@), get_key_spec(j, "role_name"@)) {
        (Some(user), Some(Json::Str(role))) => match (get_key_spec(user, "id"@), get_key_spec(
            user,
            "name"@,
        )) {
            (Some(idj), Some(Json::Str(name))) => match json_u64(idj) {
                Some(id) => Some(Member { user_id: id, user_name: name, role_name: role }),
                None => None,
            },
            _ => None,
        },
        _ => None,
    }
}

pub fn decode_member(j: &Json) -> (r: Option<Member>)
    ensures
        r == member_spec(*j),
{
    let k_user = String::from_str("user");
    let k_role = String::from_str("role_name");
    let k_id = String::from_str("id");
    let k_name = String::from_str("name");
    match (get_key(j, &k_user), get_key(j, &k_role)) {
        (Some(user), Some(Json::Str(role))) => match (get_key(user, &k_id), get_key(
            user,
            &k_name,
        )) {
            (Some(idj), Some(Json::Str(name))) => match json_u64_of(idj) {
                Some(id) => Some(
                    Member { user_id: id, user_name: name.clone(), role_name: role.clone() },
                ),
                None => None,
            },
            _ => None,
        },
        _ => None,
    }
}

/// A pipe reference under an organization: an id and a name.
pub open spec fn pipe_ref_spec(j: Json) -> Option<PipeRef> {
    match (get_key_spec(j, "id"@), get_key_spec(j, "name"@)) {
        (Some(idj), Some(Json::Str(n))) => match json_u64(idj) {
            Some(id) => Some(PipeRef { id, name: n }),
            None => None,
        },
        _ => None,
    }
}

pub fn decode_pipe_ref(j: &Json) -> (r: Option<PipeRef>)
    ensures
        r == pipe_ref_spec(*j),
{
    let k_id = String::from_str("id");
    let k_name = String::from_str("name");
    match (get_key(j, &k_id), get_key(j, &k_name)) {
        (Some(idj), Some(Json::Str(n))) => match json_u64_of(idj) {
            Some(id) => Some(PipeRef { id, name: n.clone() }),
            None => None,
        },
        _ => None,
    }
}

} // verus!
