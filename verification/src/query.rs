//! Query templating: every resource operation is a pure function from its
//! integer id to the GraphQL document text, and the id appears in the text
//! verbatim as a bare numeral. The request body that carries a query is
//! framed and escaped here as well.
use vstd::prelude::*;
use vstd::string::{StrSliceExecFns, StringExecFns};
use crate::numeral::{dec_rep, digit_char, u64_to_dec};

verus! {

/// A GraphQL request ready to be sent: the full query document text.
/// Built fresh for every call, never kept.
#[derive(Debug, Clone, PartialEq, Eq)]
pub struct QueryRequest {
    pub text: String,
}

/// Builds the one query text shape this client uses: a fixed prefix, the
/// id as a bare numeral, and a fixed suffix.
fn id_query(prefix: &str, id: u64, suffix: &str) -> (text: String)
    ensures
        text@ == prefix@ + dec_rep(id as nat) + suffix@,
{
    let mut text = prefix.to_owned();
    let num = u64_to_dec(id);
    text.append(num.as_str());
    text.append(suffix);
    proof {
        assert(text@ =~= prefix@ + dec_rep(id as nat) + suffix@);
    }
    text
}

pub open spec fn me_query_text() -> Seq<char> {
    "query { me { name } }"@
}

/// The identity probe: asks only for the caller's display name.
pub fn me_query() -> (q: QueryRequest)
    ensures
        q.text@ == me_query_text(),
{
    QueryRequest { text: String::from_str("query { me { name } }") }
}

pub open spec fn pipe_name_text(id: u64) -> Seq<char> {
    "query { pipe(id: "@ + dec_rep(id as nat) + ") { name } }"@
}

pub fn pipe_name_query(pipe_id: u64) -> (q: QueryRequest)
    ensures
        q.text@ == pipe_name_text(pipe_id),
{
    QueryRequest { text: id_query("query { pipe(id: ", pipe_id, ") { name } }") }
}

pub open spec fn pipe_phases_text(id: u64) -> Seq<char> {
    "query { pipe(id: "@ + dec_rep(id as nat)
        + ") { phases { name cards_count description } } }"@
}

pub fn pipe_phases_query(pipe_id: u64) -> (q: QueryRequest)
    ensures
        q.text@ == pipe_phases_text(pipe_id),
{
    QueryRequest {
        text: id_query(
            "query { pipe(id: ",
            pipe_id,
            ") { phases { name cards_count description } } }",
        ),
    }
}

pub open spec fn pipe_cards_text(id: u64) -> Seq<char> {
    "{ allCards(pipeId: "@ + dec_rep(id as nat)
        + ") { edges { node { id url title fields { name value } } } } }"@
}

/// The full card list of a pipe, fields included.
pub fn pipe_cards_query(pipe_id: u64) -> (q: QueryRequest)
    ensures
        q.text@ == pipe_cards_text(pipe_id),
{
    QueryRequest {
        text: id_query(
            "{ allCards(pipeId: ",
            pipe_id,
            ") { edges { node { id url title fields { name value } } } } }",
        ),
    }
}

pub open spec fn pipe_cards_select_text(id: u64) -> Seq<char> {
    "{ allCards(pipeId: "@ + dec_rep(id as nat) + ") { edges { node { id title } } } }"@
}

/// The light card list of a pipe: ids and titles only, for picking one.
pub fn pipe_cards_select(pipe_id: u64) -> (q: QueryRequest)
    ensures
        q.text@ == pipe_cards_select_text(pipe_id),
{
    QueryRequest {
        text: id_query("{ allCards(pipeId: ", pipe_id, ") { edges { node { id title } } } }"),
    }
}

pub open spec fn card_text_q(id: u64) -> Seq<char> {
    "query { card(id: "@ + dec_rep(id as nat)
        + ") { id title url fields { value name } } }"@
}

/// The detail query for one card.
pub fn card_query(card_id: u64) -> (q: QueryRequest)
    ensures
        q.text@ == card_text_q(card_id),
{
    QueryRequest {
        text: id_query("query { card(id: ", card_id, ") { id title url fields { value name } } }"),
    }
}

pub open spec fn organization_name_text(id: u64) -> Seq<char> {
    "query { organization(id: "@ + dec_rep(id as nat) + ") { name } }"@
}

pub fn organization_name_query(org_id: u64) -> (q: QueryRequest)
    ensures
        q.text@ == organization_name_text(org_id),
{
    QueryRequest { text: id_query("query { organization(id: ", org_id, ") { name } }") }
}

pub open spec fn org_pipes_text(id: u64) -> Seq<char> {
    "query { organization(id: "@ + dec_rep(id as nat) + ") { pipes { id name } } }"@
}

pub fn org_pipes_query(org_id: u64) -> (q: QueryRequest)
    ensures
        q.text@ == org_pipes_text(org_id),
{
    QueryRequest {
        text: id_query("query { organization(id: ", org_id, ") { pipes { id name } } }"),
    }
}

pub open spec fn org_members_text(id: u64) -> Seq<char> {
    "query { organization(id: "@ + dec_rep(id as nat)
        + ") { members { user { id name } role_name } name } }"@
}

pub fn org_members_query(org_id: u64) -> (q: QueryRequest)
    ensures
        q.text@ == org_members_text(org_id),
{
    QueryRequest {
        text: id_query(
            "query { organization(id: ",
            org_id,
            ") { members { user { id name } role_name } name } }",
        ),
    }
}

/// The substituted id stands in the emitted text verbatim: the characters
/// from the end of the template's prefix are exactly its decimal numeral,
/// unquoted, followed by the template's suffix.
pub proof fn lemma_id_verbatim(text: Seq<char>, prefix: Seq<char>, id: u64, suffix: Seq<char>)
    requires
        text == prefix + dec_rep(id as nat) + suffix,
    ensures
        text.len() == prefix.len() + dec_rep(id as nat).len() + suffix.len(),
        text.subrange(
            prefix.len() as int,
            prefix.len() + dec_rep(id as nat).len() as int,
        ) == dec_rep(id as nat),
        text.subrange(prefix.len() + dec_rep(id as nat).len() as int, text.len() as int)
            == suffix,
{
    let rep = dec_rep(id as nat);
    assert(text.subrange(prefix.len() as int, prefix.len() + rep.len() as int) =~= rep);
    assert(text.subrange(prefix.len() + rep.len() as int, text.len() as int) =~= suffix);
}

/// The character for one hexadecimal digit value.
pub open spec fn hex_char(d: nat) -> char {
    if d < 10 {
        digit_char(d)
    } else if d == 10 {
        'a'
    } else if d == 11 {
        'b'
    } else if d == 12 {
        'c'
    } else if d == 13 {
        'd'
    } else if d == 14 {
        'e'
    } else {
        'f'
    }
}

/// How one character is written inside a JSON string literal.
pub open spec fn escape_char(c: char) -> Seq<char> {
    if c == '"' {
        seq!['\\', '"']
    } else if c == '\\' {
        seq!['\\', '\\']
    } else if c == '\n' {
        seq!['\\', 'n']
    } else if c == '\r' {
        seq!['\\', 'r']
    } else if c == '\t' {
        seq!['\\', 't']
    } else if (c as u32) < 32 {
        seq!['\\', 'u', '0', '0', hex_char((c as u32 / 16) as nat), hex_char((c as u32 % 16) as nat)]
    } else {
        seq![c]
    }
}

/// A whole text escaped for a JSON string literal.
pub open spec fn json_escape(s: Seq<char>) -> Seq<char>
    decreases s.len(),
{
    if s.len() == 0 {
        Seq::empty()
    } else {
        json_escape(s.drop_last()) + escape_char(s.last())
    }
}

fn append_hex_nibble(out: &mut String, d: u32)
    requires
        d < 16,
    ensures
        final(out)@ == old(out)@ + seq![hex_char(d as nat)],
{
    let ds: &'static str = match d {
        0 => "0",
        1 => "1",
        2 => "2",
        3 => "3",
        4 => "4",
        5 => "5",
        6 => "6",
        7 => "7",
        8 => "8",
        9 => "9",
        10 => "a",
        11 => "b",
        12 => "c",
        13 => "d",
        14 => "e",
        _ => "f",
    };
    proof {
        reveal_strlit("0");
        reveal_strlit("1");
        reveal_strlit("2");
        reveal_strlit("3");
        reveal_strlit("4");
        reveal_strlit("5");
        reveal_strlit("6");
        reveal_strlit("7");
        reveal_strlit("8");
        reveal_strlit("9");
        reveal_strlit("a");
        reveal_strlit("b");
        reveal_strlit("c");
        reveal_strlit("d");
        reveal_strlit("e");
        reveal_strlit("f");
        assert(ds@ =~= seq![hex_char(d as nat)]);
    }
    out.append(ds);
}

/// Escapes a text for embedding in a JSON string literal.
pub fn json_escape_str(s: &str) -> (out: String)
    ensures
        out@ == json_escape(s@),
{
    let n = s.unicode_len();
    let mut out = String::new();
    let mut i: usize = 0;
    proof {
        assert(s@.take(0) =~= Seq::<char>::empty());
    }
    while i < n
        invariant
            0 <= i <= n == s@.len(),
            out@ == json_escape(s@.take(i as int)),
        decreases n - i,
    {
        let c = s.get_char(i);
        if c == '"' {
            proof {
                reveal_strlit("\\\"");
                assert("\\\""@ =~= escape_char('"'));
            }
            out.append("\\\"");
        } else if c == '\\' {
            proof {
                reveal_strlit("\\\\");
                assert("\\\\"@ =~= escape_char('\\'));
            }
            out.append("\\\\");
        } else if c == '\n' {
            proof {
                reveal_strlit("\\n");
                assert("\\n"@ =~= escape_char('\n'));
            }
            out.append("\\n");
        } else if c == '\r' {
            proof {
                reveal_strlit("\\r");
                assert("\\r"@ =~= escape_char('\r'));
            }
            out.append("\\r");
        } else if c == '\t' {
            proof {
                reveal_strlit("\\t");
                assert("\\t"@ =~= escape_char('\t'));
            }
            out.append("\\t");
        } else if (c as u32) < 32 {
            let ghost before: Seq<char> = out@;
            proof {
                reveal_strlit("\\u00");
            }
            out.append("\\u00");
            append_hex_nibble(&mut out, c as u32 / 16);
            append_hex_nibble(&mut out, c as u32 % 16);
            proof {
                assert(out@ =~= before + escape_char(c));
            }
        } else {
            let piece = s.substring_char(i, i + 1);
            proof {
                assert(piece@ =~= seq![s@[i as int]]);
                assert(piece@ =~= escape_char(c));
            }
            out.append(piece);
        }
        proof {
            assert(s@.take(i as int + 1).drop_last() =~= s@.take(i as int));
            assert(s@.take(i as int + 1).last() == s@[i as int]);
        }
        i = i + 1;
    }
    proof {
        assert(s@.take(n as int) =~= s@);
    }
    out
}

/// What the request body looks like on the wire: one JSON object with the
/// query text under the key `query`.
pub open spec fn request_body_text(query_text: Seq<char>) -> Seq<char> {
    "{\"query\":\""@ + json_escape(query_text) + "\"}"@
}

/// Frames a query as the POST body the API expects.
pub fn request_body(q: &QueryRequest) -> (b: String)
    ensures
        b@ == request_body_text(q.text@),
{
    let mut b = String::from_str("{\"query\":\"");
    let escaped = json_escape_str(q.text.as_str());
    b.append(escaped.as_str());
    b.append("\"}");
    proof {
        assert(b@ =~= request_body_text(q.text@));
    }
    b
}

} // verus!
