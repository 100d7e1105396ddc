//! The typed values that queries return: cards, phases, organization
//! members and pipe references, with the card's rendering to text.
use vstd::prelude::*;
use vstd::string::StringExecFns;
use crate::numeral::{dec_rep, u64_to_dec};

verus! {

/// One custom field of a card: a name and its value.
#[derive(Debug, Clone, PartialEq, Eq)]
pub struct CardField {
    pub name: String,
    pub value: String,
}

/// A full card as the detail query returns it. The id arrives from the API
/// as a string and is parsed into an integer on decoding.
#[derive(Debug, Clone, PartialEq, Eq)]
pub struct Card {
    pub id: u64,
    pub title: String,
    pub url: Option<String>,
    pub fields: Vec<CardField>,
}

/// The lightweight shape that list queries return: enough to show a title
/// and to fetch the full card by id afterwards.
#[derive(Debug, Clone, PartialEq, Eq)]
pub struct CardRef {
    pub id: u64,
    pub title: String,
}

/// A named stage of a pipe's workflow.
#[derive(Debug, Clone, PartialEq, Eq)]
pub struct Phase {
    pub name: String,
    pub cards_count: u32,
    pub description: String,
}

/// A member of an organization.
#[derive(Debug, Clone, PartialEq, Eq)]
pub struct Member {
    pub user_id: u64,
    pub user_name: String,
    pub role_name: String,
}

/// A pipe owned by an organization.
#[derive(Debug, Clone, PartialEq, Eq)]
pub struct PipeRef {
    pub id: u64,
    pub name: String,
}

/// A card's data with the field list as a sequence: what contracts say
/// about a `Card` without speaking of `Vec`.
pub open spec fn card_view(c: Card) -> (u64, String, Option<String>, Seq<CardField>) {
    (c.id, c.title, c.url, c.fields@)
}

/// One field's line in a card's rendering.
pub open spec fn field_text(f: CardField) -> Seq<char> {
    f.name@ + ": "@ + f.value@ + ",\n"@
}

/// The field lines of a card's rendering, in order.
pub open spec fn fields_text(fields: Seq<CardField>) -> Seq<char>
    decreases fields.len(),
{
    if fields.len() == 0 {
        Seq::empty()
    } else {
        field_text(fields[0]) + fields_text(fields.drop_first())
    }
}

/// What `Card::render` produces.
pub open spec fn card_text(c: Card) -> Seq<char> {
    "Title: "@ + c.title@ + ",\nid: "@ + dec_rep(c.id as nat) + ",\nurl: "@ + (match c.url {
        Some(u) => u@,
        None => Seq::<char>::empty(),
    }) + ",\nfields: "@ + fields_text(c.fields@)
}

proof fn lemma_fields_text_snoc(fields: Seq<CardField>, f: CardField)
    ensures
        fields_text(fields.push(f)) == fields_text(fields) + field_text(f),
    decreases fields.len(),
{
    if fields.len() == 0 {
        assert(fields.push(f)[0] == f);
        assert(fields.push(f).drop_first() =~= Seq::<CardField>::empty());
        assert(fields_text(Seq::<CardField>::empty()) == Seq::<char>::empty());
        assert(fields_text(fields.push(f)) =~= field_text(f));
        assert(fields_text(fields) + field_text(f) =~= field_text(f));
    } else {
        assert(fields.push(f)[0] == fields[0]);
        assert(fields.push(f).drop_first() =~= fields.drop_first().push(f));
        lemma_fields_text_snoc(fields.drop_first(), f);
        assert(fields_text(fields.push(f)) =~= fields_text(fields) + field_text(f));
    }
}

impl Card {
    /// The card as one printable text, title first, then id, url and the
    /// field lines.
    pub fn render(&self) -> (out: String)
        ensures
            out@ == card_text(*self),
    {
        let mut out = String::from_str("Title: ");
        out.append(self.title.as_str());
        out.append(",\nid: ");
        let num = u64_to_dec(self.id);
        out.append(num.as_str());
        out.append(",\nurl: ");
        match &self.url {
            Some(u) => out.append(u.as_str()),
            None => (),
        }
        out.append(",\nfields: ");
        let ghost head: Seq<char> = out@;
        let n = self.fields.len();
        let mut i: usize = 0;
        proof {
            assert(self.fields@.take(0) =~= Seq::<CardField>::empty());
        }
        while i < n
            invariant
                0 <= i <= n == self.fields@.len(),
                out@ == head + fields_text(self.fields@.take(i as int)),
            decreases n - i,
        {
            let f = &self.fields[i];
            out.append(f.name.as_str());
            out.append(": ");
            out.append(f.value.as_str());
            out.append(",\n");
            proof {
                lemma_fields_text_snoc(self.fields@.take(i as int), self.fields@[i as int]);
                assert(self.fields@.take(i as int).push(self.fields@[i as int]) =~= self.fields@
                    .take(i as int + 1));
                assert(out@ =~= head + fields_text(self.fields@.take(i as int + 1)));
            }
            i = i + 1;
        }
        proof {
            assert(self.fields@.take(n as int) =~= self.fields@);
            assert(out@ =~= card_text(*self));
        }
        out
    }
}

} // verus!
