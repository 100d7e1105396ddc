//! The response extractor: one rule for digging into `data.X.Y`, shared by
//! every resource query, with one policy for telling an authorization
//! rejection from a response of the wrong shape.
//!
//! Parse failure and an absent key along the descent are `Malformed`; a
//! located value of the wrong kind at the name and title probes (the
//! authorization-sensitive reads) is `Unauthorized`; every other shape
//! mismatch is `Malformed`.
use vstd::prelude::*;
use vstd::string::StringExecFns;
use crate::data::{card_view, Card, CardField, CardRef, Member, Phase, PipeRef};
use crate::decode::{
    card_ref_spec, decode_card_ref, decode_field, decode_member, decode_phase, decode_pipe_ref,
    decode_list, field_spec, id_string, id_string_of, member_spec, phase_spec, pipe_ref_spec,
};
use crate::json::{get_key, get_key_spec, get_path_spec, json_parse, parse_json, Json};

verus! {

/// How an extraction fails: the API rejected the request, or the response
/// does not have the expected shape.
#[derive(Debug, Clone, Copy, PartialEq, Eq, Structural)]
pub enum ExtractError {
    Unauthorized,
    Malformed,
}

/// The error value reported when the API rejects a request.
#[derive(Debug, Clone)]
pub struct Unauthorized;

impl Unauthorized {
    pub fn new() -> (r: Unauthorized) {
        Unauthorized
    }

    pub fn message(&self) -> (m: &'static str)
        ensures
            m@ == "Unauthorized access"@,
    {
        "Unauthorized access"
    }
}

/// Descends two object keys.
fn get_path2<'a>(j: &'a Json, k1: &String, k2: &String) -> (r: Option<&'a Json>)
    ensures
        match r {
            Some(v) => get_path_spec(*j, seq![k1@, k2@]) == Some(*v),
            None => get_path_spec(*j, seq![k1@, k2@]) is None,
        },
{
    proof {
        assert(seq![k1@, k2@].drop_first() =~= seq![k2@]);
        assert(seq![k2@].drop_first() =~= Seq::<Seq<char>>::empty());
    }
    match get_key(j, k1) {
        Some(v1) => {
            proof {
                assert(get_path_spec(*j, seq![k1@, k2@]) == get_path_spec(*v1, seq![k2@]));
            }
            match get_key(v1, k2) {
                Some(v2) => {
                    proof {
                        assert(get_path_spec(*v1, seq![k2@]) == get_path_spec(
                            *v2,
                            Seq::<Seq<char>>::empty(),
                        ));
                        assert(get_path_spec(*v2, Seq::<Seq<char>>::empty()) == Some(*v2));
                    }
                    Some(v2)
                },
                None => None,
            }
        },
        None => None,
    }
}

/// Descends three object keys.
fn get_path3<'a>(j: &'a Json, k1: &String, k2: &String, k3: &String) -> (r: Option<&'a Json>)
    ensures
        match r {
            Some(v) => get_path_spec(*j, seq![k1@, k2@, k3@]) == Some(*v),
            None => get_path_spec(*j, seq![k1@, k2@, k3@]) is None,
        },
{
    proof {
        assert(seq![k1@, k2@, k3@].drop_first() =~= seq![k2@, k3@]);
    }
    match get_key(j, k1) {
        Some(v1) => {
            proof {
                assert(get_path_spec(*j, seq![k1@, k2@, k3@]) == get_path_spec(
                    *v1,
                    seq![k2@, k3@],
                ));
            }
            match get_path2(v1, k2, k3) {
                Some(v3) => Some(v3),
                None => None,
            }
        },
        None => None,
    }
}

/// One bad item anywhere spoils a decoded list.
proof fn lemma_decode_list_fails<T>(items: Seq<Json>, f: spec_fn(Json) -> Option<T>, i: int)
    requires
        0 <= i < items.len(),
        f(items[i]) is None,
    ensures
        decode_list(items, f) is None,
    decreases items.len(),
{
    if i < items.len() - 1 {
        assert(items.drop_last()[i] == items[i]);
        lemma_decode_list_fails(items.drop_last(), f, i);
    }
}

/// A string located at an authorization-sensitive path: descent failure is
/// `Malformed`, a located value that is not a string is `Unauthorized`.
pub open spec fn name_at(body: Json, path: Seq<Seq<char>>) -> Result<String, ExtractError> {
    match get_path_spec(body, path) {
        Some(Json::Str(s)) => Ok(s),
        Some(_) => Err(ExtractError::Unauthorized),
        None => Err(ExtractError::Malformed),
    }
}

pub open spec fn me_name_spec(body: Json) -> Result<String, ExtractError> {
    name_at(body, seq!["data"@, "me"@, "name"@])
}

pub open spec fn pipe_name_spec(body: Json) -> Result<String, ExtractError> {
    name_at(body, seq!["data"@, "pipe"@, "name"@])
}

pub open spec fn org_name_spec(body: Json) -> Result<String, ExtractError> {
    name_at(body, seq!["data"@, "organization"@, "name"@])
}

fn name_from(body: &Json, k1: &String, k2: &String, k3: &String) -> (r: Result<
    String,
    ExtractError,
>)
    ensures
        r == name_at(*body, seq![k1@, k2@, k3@]),
{
    match get_path3(body, k1, k2, k3) {
        Some(Json::Str(s)) => Ok(s.clone()),
        Some(_) => Err(ExtractError::Unauthorized),
        None => Err(ExtractError::Malformed),
    }
}

/// The display name in an identity-probe response.
pub fn me_name_from(body: &Json) -> (r: Result<String, ExtractError>)
    ensures
        r == me_name_spec(*body),
{
    let k1 = String::from_str("data");
    let k2 = String::from_str("me");
    let k3 = String::from_str("name");
    name_from(body, &k1, &k2, &k3)
}

/// The pipe name: the authorization probe of the pipe menu.
pub fn pipe_name_from(body: &Json) -> (r: Result<String, ExtractError>)
    ensures
        r == pipe_name_spec(*body),
{
    let k1 = String::from_str("data");
    let k2 = String::from_str("pipe");
    let k3 = String::from_str("name");
    name_from(body, &k1, &k2, &k3)
}

/// The organization name: the authorization probe of the organization menu.
pub fn org_name_from(body: &Json) -> (r: Result<String, ExtractError>)
    ensures
        r == org_name_spec(*body),
{
    let k1 = String::from_str("data");
    let k2 = String::from_str("organization");
    let k3 = String::from_str("name");
    name_from(body, &k1, &k2, &k3)
}

fn decode_phase_list(items: &Vec<Json>) -> (r: Option<Vec<Phase>>)
    ensures
        match decode_list(items@, |x: Json| phase_spec(x)) {
            Some(ps) => r matches Some(v) && v@ == ps,
            None => r is None,
        },
{
    let mut out: Vec<Phase> = Vec::new();
    let n = items.len();
    let mut i: usize = 0;
    proof {
        assert(items@.take(0) =~= Seq::<Json>::empty());
    }
    while i < n
        invariant
            0 <= i <= n == items@.len(),
            decode_list(items@.take(i as int), |x: Json| phase_spec(x)) == Some(out@),
        decreases n - i,
    {
        match decode_phase(&items[i]) {
            Some(p) => {
                out.push(p);
            },
            None => {
                proof {
                    lemma_decode_list_fails(items@, |x: Json| phase_spec(x), i as int);
                }
                return None;
            },
        }
        proof {
            assert(items@.take(i as int + 1).drop_last() =~= items@.take(i as int));
            assert(items@.take(i as int + 1).last() == items@[i as int]);
        }
        i = i + 1;
    }
    proof {
        assert(items@.take(n as int) =~= items@);
    }
    Some(out)
}

fn decode_card_ref_list(items: &Vec<Json>) -> (r: Option<Vec<CardRef>>)
    ensures
        match decode_list(items@, |x: Json| card_ref_spec(x)) {
            Some(ps) => r matches Some(v) && v@ == ps,
            None => r is None,
        },
{
    let mut out: Vec<CardRef> = Vec::new();
    let n = items.len();
    let mut i: usize = 0;
    proof {
        assert(items@.take(0) =~= Seq::<Json>::empty());
    }
    while i < n
        invariant
            0 <= i <= n == items@.len(),
            decode_list(items@.take(i as int), |x: Json| card_ref_spec(x)) == Some(out@),
        decreases n - i,
    {
        match decode_card_ref(&items[i]) {
            Some(p) => {
                out.push(p);
            },
            None => {
                proof {
                    lemma_decode_list_fails(items@, |x: Json| card_ref_spec(x), i as int);
                }
                return None;
            },
        }
        proof {
            assert(items@.take(i as int + 1).drop_last() =~= items@.take(i as int));
            assert(items@.take(i as int + 1).last() == items@[i as int]);
        }
        i = i + 1;
    }
    proof {
        assert(items@.take(n as int) =~= items@);
    }
    Some(out)
}

fn decode_member_list(items: &Vec<Json>) -> (r: Option<Vec<Member>>)
    ensures
        match decode_list(items@, |x: Json| member_spec(x)) {
            Some(ps) => r matches Some(v) && v@ == ps,
            None => r is None,
        },
{
    let mut out: Vec<Member> = Vec::new();
    let n = items.len();
    let mut i: usize = 0;
    proof {
        assert(items@.take(0) =~= Seq::<Json>::empty());
    }
    while i < n
        invariant
            0 <= i <= n == items@.len(),
            decode_list(items@.take(i as int), |x: Json| member_spec(x)) == Some(out@),
        decreases n - i,
    {
        match decode_member(&items[i]) {
            Some(p) => {
                out.push(p);
            },
            None => {
                proof {
                    lemma_decode_list_fails(items@, |x: Json| member_spec(x), i as int);
                }
                return None;
            },
        }
        proof {
            assert(items@.take(i as int + 1).drop_last() =~= items@.take(i as int));
            assert(items@.take(i as int + 1).last() == items@[i as int]);
        }
        i = i + 1;
    }
    proof {
        assert(items@.take(n as int) =~= items@);
    }
    Some(out)
}

fn decode_pipe_ref_list(items: &Vec<Json>) -> (r: Option<Vec<PipeRef>>)
    ensures
        match decode_list(items@, |x: Json| pipe_ref_spec(x)) {
            Some(ps) => r matches Some(v) && v@ == ps,
            None => r is None,
        },
{
    let mut out: Vec<PipeRef> = Vec::new();
    let n = items.len();
    let mut i: usize = 0;
    proof {
        assert(items@.take(0) =~= Seq::<Json>::empty());
    }
    while i < n
        invariant
            0 <= i <= n == items@.len(),
            decode_list(items@.take(i as int), |x: Json| pipe_ref_spec(x)) == Some(out@),
        decreases n - i,
    {
        match decode_pipe_ref(&items[i]) {
            Some(p) => {
                out.push(p);
            },
            None => {
                proof {
                    lemma_decode_list_fails(items@, |x: Json| pipe_ref_spec(x), i as int);
                }
                return None;
            },
        }
        proof {
            assert(items@.take(i as int + 1).drop_last() =~= items@.take(i as int));
            assert(items@.take(i as int + 1).last() == items@[i as int]);
        }
        i = i + 1;
    }
    proof {
        assert(items@.take(n as int) =~= items@);
    }
    Some(out)
}

/// The card's parts as contracts speak of them: id, title, url and the
/// field sequence.
pub open spec fn card_id_spec(j: Json) -> Option<u64> {
    match get_key_spec(j, "id"@) {
        Some(idj) => id_string(idj),
        None => None,
    }
}

pub open spec fn card_url_spec(j: Json) -> Result<Option<String>, ExtractError> {
    match get_key_spec(j, "url"@) {
        Some(Json::Null) => Ok(None),
        Some(Json::Str(u)) => Ok(Some(u)),
        Some(_) => Err(ExtractError::Malformed),
        None => Ok(None),
    }
}

pub open spec fn card_fields_spec(j: Json) -> Result<Seq<CardField>, ExtractError> {
    match get_key_spec(j, "fields"@) {
        Some(Json::Null) => Ok(Seq::empty()),
        Some(Json::Arr(items)) => match decode_list(items@, |x: Json| field_spec(x)) {
            Some(fs) => Ok(fs),
            None => Err(ExtractError::Malformed),
        },
        Some(_) => Err(ExtractError::Malformed),
        None => Ok(Seq::empty()),
    }
}

/// Decoding one card object. The title check doubles as the authorization
/// probe of the card view: a missing or mistyped title is `Unauthorized`,
/// any other shape mismatch is `Malformed`.
pub open spec fn card_parts_spec(j: Json) -> Result<
    (u64, String, Option<String>, Seq<CardField>),
    ExtractError,
> {
    match get_key_spec(j, "title"@) {
        Some(Json::Str(t)) => match card_id_spec(j) {
            Some(id) => match card_url_spec(j) {
                Ok(u) => match card_fields_spec(j) {
                    Ok(fs) => Ok((id, t, u, fs)),
                    Err(e) => Err(e),
                },
                Err(e) => Err(e),
            },
            None => Err(ExtractError::Malformed),
        },
        _ => Err(ExtractError::Unauthorized),
    }
}

fn decode_fields(j: &Json) -> (r: Result<Vec<CardField>, ExtractError>)
    ensures
        match card_fields_spec(*j) {
            Ok(fs) => r matches Ok(v) && v@ == fs,
            Err(e) => r matches Err(e2) && e2 == e,
        },
{
    let k_fields = String::from_str("fields");
    match get_key(j, &k_fields) {
        Some(Json::Null) => Ok(Vec::new()),
        Some(Json::Arr(items)) => match decode_field_list(items) {
            Some(v) => Ok(v),
            None => Err(ExtractError::Malformed),
        },
        Some(_) => Err(ExtractError::Malformed),
        None => Ok(Vec::new()),
    }
}

fn decode_field_list(items: &Vec<Json>) -> (r: Option<Vec<CardField>>)
    ensures
        match decode_list(items@, |x: Json| field_spec(x)) {
            Some(ps) => r matches Some(v) && v@ == ps,
            None => r is None,
        },
{
    let mut out: Vec<CardField> = Vec::new();
    let n = items.len();
    let mut i: usize = 0;
    proof {
        assert(items@.take(0) =~= Seq::<Json>::empty());
    }
    while i < n
        invariant
            0 <= i <= n == items@.len(),
            decode_list(items@.take(i as int), |x: Json| field_spec(x)) == Some(out@),
        decreases n - i,
    {
        match decode_field(&items[i]) {
            Some(p) => {
                out.push(p);
            },
            None => {
                proof {
                    lemma_decode_list_fails(items@, |x: Json| field_spec(x), i as int);
                }
                return None;
            },
        }
        proof {
            assert(items@.take(i as int + 1).drop_last() =~= items@.take(i as int));
            assert(items@.take(i as int + 1).last() == items@[i as int]);
        }
        i = i + 1;
    }
    proof {
        assert(items@.take(n as int) =~= items@);
    }
    Some(out)
}

/// Decodes one card object into a `Card`.
pub fn decode_card(j: &Json) -> (r: Result<Card, ExtractError>)
    ensures
        match card_parts_spec(*j) {
            Ok(v) => r matches Ok(c) && card_view(c) == v,
            Err(e) => r matches Err(e2) && e2 == e,
        },
{
    let k_title = String::from_str("title");
    let k_id = String::from_str("id");
    let k_url = String::from_str("url");
    let title = match get_key(j, &k_title) {
        Some(Json::Str(t)) => t.clone(),
        _ => {
            return Err(ExtractError::Unauthorized);
        },
    };
    let id = match get_key(j, &k_id) {
        Some(idj) => match id_string_of(idj) {
            Some(id) => id,
            None => {
                return Err(ExtractError::Malformed);
            },
        },
        None => {
            return Err(ExtractError::Malformed);
        },
    };
    let url = match get_key(j, &k_url) {
        Some(Json::Null) => None,
        Some(Json::Str(u)) => Some(u.clone()),
        Some(_) => {
            return Err(ExtractError::Malformed);
        },
        None => None,
    };
    let fields = match decode_fields(j) {
        Ok(fs) => fs,
        Err(e) => {
            return Err(e);
        },
    };
    Ok(Card { id, title, url, fields })
}

/// The phase list of a pipe, at `data.pipe.phases`.
pub open spec fn phases_spec(body: Json) -> Result<Seq<Phase>, ExtractError> {
    match get_path_spec(body, seq!["data"@, "pipe"@, "phases"@]) {
        Some(Json::Arr(items)) => match decode_list(items@, |x: Json| phase_spec(x)) {
            Some(ps) => Ok(ps),
            None => Err(ExtractError::Malformed),
        },
        Some(_) => Err(ExtractError::Malformed),
        None => Err(ExtractError::Malformed),
    }
}

pub fn phases_from(body: &Json) -> (r: Result<Vec<Phase>, ExtractError>)
    ensures
        match phases_spec(*body) {
            Ok(ps) => r matches Ok(v) && v@ == ps,
            Err(e) => r matches Err(e2) && e2 == e,
        },
{
    let k1 = String::from_str("data");
    let k2 = String::from_str("pipe");
    let k3 = String::from_str("phases");
    match get_path3(body, &k1, &k2, &k3) {
        Some(Json::Arr(items)) => match decode_phase_list(items) {
            Some(v) => Ok(v),
            None => Err(ExtractError::Malformed),
        },
        Some(_) => Err(ExtractError::Malformed),
        None => Err(ExtractError::Malformed),
    }
}

/// The card list of a pipe, at `data.allCards.edges`: ids and titles only.
pub open spec fn card_refs_spec(body: Json) -> Result<Seq<CardRef>, ExtractError> {
    match get_path_spec(body, seq!["data"@, "allCards"@, "edges"@]) {
        Some(Json::Arr(items)) => match decode_list(items@, |x: Json| card_ref_spec(x)) {
            Some(ps) => Ok(ps),
            None => Err(ExtractError::Malformed),
        },
        Some(_) => Err(ExtractError::Malformed),
        None => Err(ExtractError::Malformed),
    }
}

pub fn card_refs_from(body: &Json) -> (r: Result<Vec<CardRef>, ExtractError>)
    ensures
        match card_refs_spec(*body) {
            Ok(ps) => r matches Ok(v) && v@ == ps,
            Err(e) => r matches Err(e2) && e2 == e,
        },
{
    let k1 = String::from_str("data");
    let k2 = String::from_str("allCards");
    let k3 = String::from_str("edges");
    match get_path3(body, &k1, &k2, &k3) {
        Some(Json::Arr(items)) => match decode_card_ref_list(items) {
            Some(v) => Ok(v),
            None => Err(ExtractError::Malformed),
        },
        Some(_) => Err(ExtractError::Malformed),
        None => Err(ExtractError::Malformed),
    }
}

/// The member list of an organization, at `data.organization.members`.
pub open spec fn members_spec(body: Json) -> Result<Seq<Member>, ExtractError> {
    match get_path_spec(body, seq!["data"@, "organization"@, "members"@]) {
        Some(Json::Arr(items)) => match decode_list(items@, |x: Json| member_spec(x)) {
            Some(ps) => Ok(ps),
            None => Err(ExtractError::Malformed),
        },
        Some(_) => Err(ExtractError::Malformed),
        None => Err(ExtractError::Malformed),
    }
}

pub fn members_from(body: &Json) -> (r: Result<Vec<Member>, ExtractError>)
    ensures
        match members_spec(*body) {
            Ok(ps) => r matches Ok(v) && v@ == ps,
            Err(e) => r matches Err(e2) && e2 == e,
        },
{
    let k1 = String::from_str("data");
    let k2 = String::from_str("organization");
    let k3 = String::from_str("members");
    match get_path3(body, &k1, &k2, &k3) {
        Some(Json::Arr(items)) => match decode_member_list(items) {
            Some(v) => Ok(v),
            None => Err(ExtractError::Malformed),
        },
        Some(_) => Err(ExtractError::Malformed),
        None => Err(ExtractError::Malformed),
    }
}

/// The pipe list of an organization, at `data.organization.pipes`.
pub open spec fn org_pipes_spec(body: Json) -> Result<Seq<PipeRef>, ExtractError> {
    match get_path_spec(body, seq!["data"@, "organization"@, "pipes"@]) {
        Some(Json::Arr(items)) => match decode_list(items@, |x: Json| pipe_ref_spec(x)) {
            Some(ps) => Ok(ps),
            None => Err(ExtractError::Malformed),
        },
        Some(_) => Err(ExtractError::Malformed),
        None => Err(ExtractError::Malformed),
    }
}

pub fn org_pipes_from(body: &Json) -> (r: Result<Vec<PipeRef>, ExtractError>)
    ensures
        match org_pipes_spec(*body) {
            Ok(ps) => r matches Ok(v) && v@ == ps,
            Err(e) => r matches Err(e2) && e2 == e,
        },
{
    let k1 = String::from_str("data");
    let k2 = String::from_str("organization");
    let k3 = String::from_str("pipes");
    match get_path3(body, &k1, &k2, &k3) {
        Some(Json::Arr(items)) => match decode_pipe_ref_list(items) {
            Some(v) => Ok(v),
            None => Err(ExtractError::Malformed),
        },
        Some(_) => Err(ExtractError::Malformed),
        None => Err(ExtractError::Malformed),
    }
}

/// One edge of the full card list: the card under `node`; any failure in a
/// listed card, the title included, is a shape mismatch.
pub open spec fn card_edge_spec(j: Json) -> Option<(u64, String, Option<String>, Seq<CardField>)> {
    match get_key_spec(j, "node"@) {
        Some(node) => match card_parts_spec(node) {
            Ok(v) => Some(v),
            Err(_) => None,
        },
        None => None,
    }
}

fn decode_card_edge(j: &Json) -> (r: Option<Card>)
    ensures
        match card_edge_spec(*j) {
            Some(v) => r matches Some(c) && card_view(c) == v,
            None => r is None,
        },
{
    let k_node = String::from_str("node");
    match get_key(j, &k_node) {
        Some(node) => match decode_card(node) {
            Ok(c) => Some(c),
            Err(_) => None,
        },
        None => None,
    }
}

/// The full card list of a pipe, at `data.allCards.edges`.
pub open spec fn cards_spec(body: Json) -> Result<
    Seq<(u64, String, Option<String>, Seq<CardField>)>,
    ExtractError,
> {
    match get_path_spec(body, seq!["data"@, "allCards"@, "edges"@]) {
        Some(Json::Arr(items)) => match decode_list(items@, |x: Json| card_edge_spec(x)) {
            Some(ps) => Ok(ps),
            None => Err(ExtractError::Malformed),
        },
        Some(_) => Err(ExtractError::Malformed),
        None => Err(ExtractError::Malformed),
    }
}

pub fn cards_from(body: &Json) -> (r: Result<Vec<Card>, ExtractError>)
    ensures
        match cards_spec(*body) {
            Ok(ps) => r matches Ok(v) && v@.len() == ps.len() && (forall|k: int|
                0 <= k < ps.len() ==> card_view(v@[k]) == ps[k]),
            Err(e) => r matches Err(e2) && e2 == e,
        },
{
    let k1 = String::from_str("data");
    let k2 = String::from_str("allCards");
    let k3 = String::from_str("edges");
    let items = match get_path3(body, &k1, &k2, &k3) {
        Some(Json::Arr(items)) => items,
        Some(_) => {
            return Err(ExtractError::Malformed);
        },
        None => {
            return Err(ExtractError::Malformed);
        },
    };
    let mut out: Vec<Card> = Vec::new();
    let n = items.len();
    let mut i: usize = 0;
    proof {
        assert(items@.take(0) =~= Seq::<Json>::empty());
    }
    while i < n
        invariant
            0 <= i <= n == items@.len(),
            get_path_spec(*body, seq!["data"@, "allCards"@, "edges"@]) == Some(
                Json::Arr(*items),
            ),
            decode_list(items@.take(i as int), |x: Json| card_edge_spec(x)) matches Some(ps)
                && ps.len() == out@.len() && (forall|k: int|
                0 <= k < ps.len() ==> card_view(out@[k]) == ps[k]),
        decreases n - i,
    {
        match decode_card_edge(&items[i]) {
            Some(c) => {
                out.push(c);
            },
            None => {
                proof {
                    lemma_decode_list_fails(items@, |x: Json| card_edge_spec(x), i as int);
                }
                return Err(ExtractError::Malformed);
            },
        }
        proof {
            assert(items@.take(i as int + 1).drop_last() =~= items@.take(i as int));
            assert(items@.take(i as int + 1).last() == items@[i as int]);
        }
        i = i + 1;
    }
    proof {
        assert(items@.take(n as int) =~= items@);
    }
    Ok(out)
}

/// The full card of the detail query, at `data.card`.
pub open spec fn card_spec(body: Json) -> Result<
    (u64, String, Option<String>, Seq<CardField>),
    ExtractError,
> {
    match get_path_spec(body, seq!["data"@, "card"@]) {
        Some(node) => card_parts_spec(node),
        None => Err(ExtractError::Malformed),
    }
}

pub fn card_from(body: &Json) -> (r: Result<Card, ExtractError>)
    ensures
        match card_spec(*body) {
            Ok(v) => r matches Ok(c) && card_view(c) == v,
            Err(e) => r matches Err(e2) && e2 == e,
        },
{
    let k1 = String::from_str("data");
    let k2 = String::from_str("card");
    match get_path2(body, &k1, &k2) {
        Some(node) => decode_card(node),
        None => Err(ExtractError::Malformed),
    }
}

/// The raw-text layer: parse, then extract. Text that does not parse is
/// always `Malformed`.
pub open spec fn extract_me_name_spec(raw: Seq<char>) -> Result<String, ExtractError> {
    match json_parse(raw) {
        Some(body) => me_name_spec(body),
        None => Err(ExtractError::Malformed),
    }
}

pub open spec fn extract_pipe_name_spec(raw: Seq<char>) -> Result<String, ExtractError> {
    match json_parse(raw) {
        Some(body) => pipe_name_spec(body),
        None => Err(ExtractError::Malformed),
    }
}

pub open spec fn extract_org_name_spec(raw: Seq<char>) -> Result<String, ExtractError> {
    match json_parse(raw) {
        Some(body) => org_name_spec(body),
        None => Err(ExtractError::Malformed),
    }
}

pub open spec fn extract_phases_spec(raw: Seq<char>) -> Result<Seq<Phase>, ExtractError> {
    match json_parse(raw) {
        Some(body) => phases_spec(body),
        None => Err(ExtractError::Malformed),
    }
}

pub open spec fn extract_card_refs_spec(raw: Seq<char>) -> Result<Seq<CardRef>, ExtractError> {
    match json_parse(raw) {
        Some(body) => card_refs_spec(body),
        None => Err(ExtractError::Malformed),
    }
}

pub open spec fn extract_cards_spec(raw: Seq<char>) -> Result<
    Seq<(u64, String, Option<String>, Seq<CardField>)>,
    ExtractError,
> {
    match json_parse(raw) {
        Some(body) => cards_spec(body),
        None => Err(ExtractError::Malformed),
    }
}

pub open spec fn extract_card_spec(raw: Seq<char>) -> Result<
    (u64, String, Option<String>, Seq<CardField>),
    ExtractError,
> {
    match json_parse(raw) {
        Some(body) => card_spec(body),
        None => Err(ExtractError::Malformed),
    }
}

pub open spec fn extract_members_spec(raw: Seq<char>) -> Result<Seq<Member>, ExtractError> {
    match json_parse(raw) {
        Some(body) => members_spec(body),
        None => Err(ExtractError::Malformed),
    }
}

pub open spec fn extract_org_pipes_spec(raw: Seq<char>) -> Result<Seq<PipeRef>, ExtractError> {
    match json_parse(raw) {
        Some(body) => org_pipes_spec(body),
        None => Err(ExtractError::Malformed),
    }
}

pub fn extract_me_name(raw: &str) -> (r: Result<String, ExtractError>)
    ensures
        r == extract_me_name_spec(raw@),
        raw@.len() == 0 ==> r matches Err(ExtractError::Malformed),
{
    match parse_json(raw) {
        Some(body) => me_name_from(&body),
        None => Err(ExtractError::Malformed),
    }
}

pub fn extract_pipe_name(raw: &str) -> (r: Result<String, ExtractError>)
    ensures
        r == extract_pipe_name_spec(raw@),
        raw@.len() == 0 ==> r matches Err(ExtractError::Malformed),
{
    match parse_json(raw) {
        Some(body) => pipe_name_from(&body),
        None => Err(ExtractError::Malformed),
    }
}

pub fn extract_org_name(raw: &str) -> (r: Result<String, ExtractError>)
    ensures
        r == extract_org_name_spec(raw@),
        raw@.len() == 0 ==> r matches Err(ExtractError::Malformed),
{
    match parse_json(raw) {
        Some(body) => org_name_from(&body),
        None => Err(ExtractError::Malformed),
    }
}

pub fn extract_phases(raw: &str) -> (r: Result<Vec<Phase>, ExtractError>)
    ensures
        match extract_phases_spec(raw@) {
            Ok(ps) => r matches Ok(v) && v@ == ps,
            Err(e) => r matches Err(e2) && e2 == e,
        },
        raw@.len() == 0 ==> r matches Err(ExtractError::Malformed),
{
    match parse_json(raw) {
        Some(body) => phases_from(&body),
        None => Err(ExtractError::Malformed),
    }
}

pub fn extract_card_refs(raw: &str) -> (r: Result<Vec<CardRef>, ExtractError>)
    ensures
        match extract_card_refs_spec(raw@) {
            Ok(ps) => r matches Ok(v) && v@ == ps,
            Err(e) => r matches Err(e2) && e2 == e,
        },
        raw@.len() == 0 ==> r matches Err(ExtractError::Malformed),
{
    match parse_json(raw) {
        Some(body) => card_refs_from(&body),
        None => Err(ExtractError::Malformed),
    }
}

pub fn extract_cards(raw: &str) -> (r: Result<Vec<Card>, ExtractError>)
    ensures
        match extract_cards_spec(raw@) {
            Ok(ps) => r matches Ok(v) && v@.len() == ps.len() && (forall|k: int|
                0 <= k < ps.len() ==> card_view(v@[k]) == ps[k]),
            Err(e) => r matches Err(e2) && e2 == e,
        },
        raw@.len() == 0 ==> r matches Err(ExtractError::Malformed),
{
    match parse_json(raw) {
        Some(body) => cards_from(&body),
        None => Err(ExtractError::Malformed),
    }
}

pub fn extract_card(raw: &str) -> (r: Result<Card, ExtractError>)
    ensures
        match extract_card_spec(raw@) {
            Ok(v) => r matches Ok(c) && card_view(c) == v,
            Err(e) => r matches Err(e2) && e2 == e,
        },
        raw@.len() == 0 ==> r matches Err(ExtractError::Malformed),
{
    match parse_json(raw) {
        Some(body) => card_from(&body),
        None => Err(ExtractError::Malformed),
    }
}

pub fn extract_members(raw: &str) -> (r: Result<Vec<Member>, ExtractError>)
    ensures
        match extract_members_spec(raw@) {
            Ok(ps) => r matches Ok(v) && v@ == ps,
            Err(e) => r matches Err(e2) && e2 == e,
        },
        raw@.len() == 0 ==> r matches Err(ExtractError::Malformed),
{
    match parse_json(raw) {
        Some(body) => members_from(&body),
        None => Err(ExtractError::Malformed),
    }
}

pub fn extract_org_pipes(raw: &str) -> (r: Result<Vec<PipeRef>, ExtractError>)
    ensures
        match extract_org_pipes_spec(raw@) {
            Ok(ps) => r matches Ok(v) && v@ == ps,
            Err(e) => r matches Err(e2) && e2 == e,
        },
        raw@.len() == 0 ==> r matches Err(ExtractError::Malformed),
{
    match parse_json(raw) {
        Some(body) => org_pipes_from(&body),
        None => Err(ExtractError::Malformed),
    }
}

/// Text that is not well-formed JSON extracts nothing, whatever resource
/// was asked for: every extractor classifies it as `Malformed`, and no
/// extractor ever yields a made-up value for it.
pub proof fn lemma_unparsable_is_malformed(raw: Seq<char>)
    requires
        json_parse(raw) is None,
    ensures
        extract_me_name_spec(raw) matches Err(ExtractError::Malformed),
        extract_pipe_name_spec(raw) matches Err(ExtractError::Malformed),
        extract_org_name_spec(raw) matches Err(ExtractError::Malformed),
        extract_phases_spec(raw) matches Err(ExtractError::Malformed),
        extract_card_refs_spec(raw) matches Err(ExtractError::Malformed),
        extract_cards_spec(raw) matches Err(ExtractError::Malformed),
        extract_card_spec(raw) matches Err(ExtractError::Malformed),
        extract_members_spec(raw) matches Err(ExtractError::Malformed),
        extract_org_pipes_spec(raw) matches Err(ExtractError::Malformed),
{
}

} // verus!
