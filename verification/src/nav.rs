//! The navigation controller: a menu-driven state machine. Every step
//! takes the current state and one event (a user choice or a query reply)
//! and yields the next state and one action for the surrounding program to
//! perform. The controller never touches the network itself: it hands out
//! `Send` actions and is fed the raw reply.
use vstd::prelude::*;
use vstd::string::StringExecFns;
use crate::args::Opts;
use crate::data::{card_view, Card, CardRef, Member, Phase, PipeRef};
use crate::extract::{
    extract_card, extract_card_refs, extract_card_refs_spec, extract_card_spec, extract_cards,
    extract_cards_spec, extract_members, extract_members_spec, extract_org_name,
    extract_org_name_spec, extract_org_pipes, extract_org_pipes_spec, extract_phases,
    extract_phases_spec, extract_pipe_name, extract_pipe_name_spec,
};
use crate::query::{
    card_query, card_text_q, org_members_query, org_members_text, org_pipes_query, org_pipes_text,
    organization_name_query, organization_name_text, pipe_cards_query, pipe_cards_select,
    pipe_cards_select_text, pipe_cards_text, pipe_name_query, pipe_name_text, pipe_phases_query,
    pipe_phases_text, QueryRequest,
};

verus! {

/// What the user picks at the main menu.
#[derive(Debug, Clone, PartialEq, Eq)]
pub enum MainChoice {
    Pipe(u64),
    Organization(u64),
    Card(u64),
    Exit,
}

/// What the user picks at the pipe submenu.
#[derive(Debug, Clone, Copy, PartialEq, Eq, Structural)]
pub enum PipeChoice {
    AllPhases,
    AllCards,
    OnePhase,
    OneCard,
}

/// What the user picks at the organization submenu.
#[derive(Debug, Clone, Copy, PartialEq, Eq, Structural)]
pub enum OrgChoice {
    Pipes,
    Members,
}

/// One event fed into the controller: a menu choice, a query reply
/// (`None` for a transport failure), or a pick from a presented list.
#[derive(Debug, Clone, PartialEq, Eq)]
pub enum NavEvent {
    Main(MainChoice),
    Response(Option<String>),
    Pipe(PipeChoice),
    Org(OrgChoice),
    Pick(usize),
}

/// Where the controller stands: a menu awaiting a choice, or a query
/// awaiting its reply.
#[derive(Debug, Clone, PartialEq, Eq)]
pub enum NavState {
    MainMenu,
    /// The pipe-name authorization probe is out.
    PipeProbe(u64),
    /// The pipe is readable; its submenu is on show.
    PipeMenu(u64),
    /// The phase list query is out.
    PhaseMenu(u64),
    /// The full card list query is out.
    CardsMenu(u64),
    /// The pick-one card list query is out.
    CardListQuery(u64),
    /// The fetched card list is on show, awaiting a pick.
    CardListMenu(u64, Vec<CardRef>),
    /// The card detail query is out.
    CardDetail(u64),
    /// The organization-name authorization probe is out.
    OrgProbe(u64),
    /// The organization is readable; its submenu is on show.
    OrgMenu(u64),
    /// The organization's pipe list query is out.
    OrgPipesMenu(u64),
    /// The organization's member list query is out.
    OrgMembersMenu(u64),
    Exit,
}

/// What the controller asks the surrounding program to do next.
#[derive(Debug, Clone, PartialEq, Eq)]
pub enum NavAction {
    Nothing,
    /// Send this query and feed the reply back as `Response`.
    Send(QueryRequest),
    /// Render the pipe's name and prompt the pipe submenu.
    ShowPipeMenu(String),
    /// Render the organization's name and prompt its submenu.
    ShowOrgMenu(String),
    /// Present these card titles and feed the chosen index back as `Pick`.
    AskCardPick(Vec<String>),
    RenderPhases(Vec<Phase>),
    RenderCards(Vec<Card>),
    RenderCard(Card),
    RenderPipes(Vec<PipeRef>),
    RenderMembers(Vec<Member>),
    ReportUnauthorized,
    ReportTransport,
    Quit,
}

/// Which kind of input the controller is waiting for.
#[derive(Debug, Clone, Copy, PartialEq, Eq, Structural)]
pub enum Expect {
    MainInput,
    ResponseInput,
    PipeInput,
    OrgInput,
    PickInput,
    Finished,
}

pub open spec fn expects_spec(s: NavState) -> Expect {
    match s {
        NavState::MainMenu => Expect::MainInput,
        NavState::PipeMenu(_) => Expect::PipeInput,
        NavState::OrgMenu(_) => Expect::OrgInput,
        NavState::CardListMenu(_, _) => Expect::PickInput,
        NavState::Exit => Expect::Finished,
        _ => Expect::ResponseInput,
    }
}

/// The transition table: relates a state and an event to the next state
/// and the action, pinning both down to the contracts of the query
/// builders and extractors. An event that a state does not await changes
/// nothing.
pub open spec fn nav_rel(pre: NavState, ev: NavEvent, post: NavState, act: NavAction) -> bool {
    match (pre, ev) {
        (NavState::MainMenu, NavEvent::Main(MainChoice::Pipe(id))) => post == NavState::PipeProbe(
            id,
        ) && (act matches NavAction::Send(q) && q.text@ == pipe_name_text(id)),
        (NavState::MainMenu, NavEvent::Main(MainChoice::Organization(id))) => post
            == NavState::OrgProbe(id) && (act matches NavAction::Send(q) && q.text@
            == organization_name_text(id)),
        (NavState::MainMenu, NavEvent::Main(MainChoice::Card(id))) => post == NavState::CardDetail(
            id,
        ) && (act matches NavAction::Send(q) && q.text@ == card_text_q(id)),
        (NavState::MainMenu, NavEvent::Main(MainChoice::Exit)) => post == NavState::Exit && act
            == NavAction::Quit,
        (NavState::PipeProbe(id), NavEvent::Response(reply)) => match reply {
            Some(raw) => match extract_pipe_name_spec(raw@) {
                Ok(name) => post == NavState::PipeMenu(id) && act == NavAction::ShowPipeMenu(name),
                Err(_) => post == NavState::MainMenu && act == NavAction::ReportUnauthorized,
            },
            None => post == NavState::MainMenu && act == NavAction::ReportTransport,
        },
        (NavState::PipeMenu(id), NavEvent::Pipe(PipeChoice::AllPhases)) => post
            == NavState::PhaseMenu(id) && (act matches NavAction::Send(q) && q.text@
            == pipe_phases_text(id)),
        (NavState::PipeMenu(id), NavEvent::Pipe(PipeChoice::AllCards)) => post
            == NavState::CardsMenu(id) && (act matches NavAction::Send(q) && q.text@
            == pipe_cards_text(id)),
        (NavState::PipeMenu(id), NavEvent::Pipe(PipeChoice::OnePhase)) => post
            == NavState::MainMenu && act == NavAction::Nothing,
        (NavState::PipeMenu(id), NavEvent::Pipe(PipeChoice::OneCard)) => post
            == NavState::CardListQuery(id) && (act matches NavAction::Send(q) && q.text@
            == pipe_cards_select_text(id)),
        (NavState::PhaseMenu(id), NavEvent::Response(reply)) => match reply {
            Some(raw) => match extract_phases_spec(raw@) {
                Ok(ps) => post == NavState::MainMenu && (act matches NavAction::RenderPhases(v)
                    && v@ == ps),
                Err(_) => post == NavState::MainMenu && act == NavAction::ReportUnauthorized,
            },
            None => post == NavState::MainMenu && act == NavAction::ReportTransport,
        },
        (NavState::CardsMenu(id), NavEvent::Response(reply)) => match reply {
            Some(raw) => match extract_cards_spec(raw@) {
                Ok(ps) => post == NavState::MainMenu && (act matches NavAction::RenderCards(v)
                    && v@.len() == ps.len() && (forall|k: int|
                    0 <= k < ps.len() ==> card_view(v@[k]) == ps[k])),
                Err(_) => post == NavState::MainMenu && act == NavAction::ReportUnauthorized,
            },
            None => post == NavState::MainMenu && act == NavAction::ReportTransport,
        },
        (NavState::CardListQuery(id), NavEvent::Response(reply)) => match reply {
            Some(raw) => match extract_card_refs_spec(raw@) {
                Ok(refs) => (post matches NavState::CardListMenu(pid, rv) && pid == id && rv@
                    == refs) && (act matches NavAction::AskCardPick(titles) && titles@.len()
                    == refs.len() && (forall|k: int|
                    0 <= k < refs.len() ==> titles@[k] == refs[k].title)),
                Err(_) => post == NavState::MainMenu && act == NavAction::ReportUnauthorized,
            },
            None => post == NavState::MainMenu && act == NavAction::ReportTransport,
        },
        (NavState::CardListMenu(id, refs), NavEvent::Pick(i)) => if i < refs@.len() {
            post == NavState::CardDetail(refs@[i as int].id) && (act matches NavAction::Send(q)
                && q.text@ == card_text_q(refs@[i as int].id))
        } else {
            post == NavState::MainMenu && act == NavAction::Nothing
        },
        (NavState::CardDetail(id), NavEvent::Response(reply)) => match reply {
            Some(raw) => match extract_card_spec(raw@) {
                Ok(v) => post == NavState::MainMenu && (act matches NavAction::RenderCard(c)
                    && card_view(c) == v),
                Err(_) => post == NavState::MainMenu && act == NavAction::ReportUnauthorized,
            },
            None => post == NavState::MainMenu && act == NavAction::ReportTransport,
        },
        (NavState::OrgProbe(id), NavEvent::Response(reply)) => match reply {
            Some(raw) => match extract_org_name_spec(raw@) {
                Ok(name) => post == NavState::OrgMenu(id) && act == NavAction::ShowOrgMenu(name),
                Err(_) => post == NavState::MainMenu && act == NavAction::ReportUnauthorized,
            },
            None => post == NavState::MainMenu && act == NavAction::ReportTransport,
        },
        (NavState::OrgMenu(id), NavEvent::Org(OrgChoice::Pipes)) => post
            == NavState::OrgPipesMenu(id) && (act matches NavAction::Send(q) && q.text@
            == org_pipes_text(id)),
        (NavState::OrgMenu(id), NavEvent::Org(OrgChoice::Members)) => post
            == NavState::OrgMembersMenu(id) && (act matches NavAction::Send(q) && q.text@
            == org_members_text(id)),
        (NavState::OrgPipesMenu(id), NavEvent::Response(reply)) => match reply {
            Some(raw) => match extract_org_pipes_spec(raw@) {
                Ok(ps) => post == NavState::MainMenu && (act matches NavAction::RenderPipes(v)
                    && v@ == ps),
                Err(_) => post == NavState::MainMenu && act == NavAction::ReportUnauthorized,
            },
            None => post == NavState::MainMenu && act == NavAction::ReportTransport,
        },
        (NavState::OrgMembersMenu(id), NavEvent::Response(reply)) => match reply {
            Some(raw) => match extract_members_spec(raw@) {
                Ok(ps) => post == NavState::MainMenu && (act matches NavAction::RenderMembers(v)
                    && v@ == ps),
                Err(_) => post == NavState::MainMenu && act == NavAction::ReportUnauthorized,
            },
            None => post == NavState::MainMenu && act == NavAction::ReportTransport,
        },
        (st, _) => post == st && act == NavAction::Nothing,
    }
}

fn titles_of(refs: &Vec<CardRef>) -> (ts: Vec<String>)
    ensures
        ts@.len() == refs@.len(),
        forall|k: int| 0 <= k < refs@.len() ==> ts@[k] == refs@[k].title,
{
    let mut ts: Vec<String> = Vec::new();
    let n = refs.len();
    let mut i: usize = 0;
    while i < n
        invariant
            0 <= i <= n == refs@.len(),
            ts@.len() == i,
            forall|k: int| 0 <= k < i ==> ts@[k] == refs@[k].title,
        decreases n - i,
    {
        ts.push(refs[i].title.clone());
        i = i + 1;
    }
    ts
}

/// The menu-driven navigation state machine.
#[derive(Debug)]
pub struct NavController {
    pub state: NavState,
}

impl NavController {
    /// Starts at the main menu.
    pub fn new() -> (c: Self)
        ensures
            c.state == NavState::MainMenu,
    {
        NavController { state: NavState::MainMenu }
    }

    /// Starts as the command-line flags ask: a given pipe or card id goes
    /// straight to the matching view, anything else to the main menu.
    pub fn start(opts: &Opts) -> (r: (Self, NavAction))
        ensures
            match opts.pipe_id {
                Some(p) => r.0.state == NavState::PipeProbe(p as u64) && (r.1
                    matches NavAction::Send(q) && q.text@ == pipe_name_text(p as u64)),
                None => match opts.card_id {
                    Some(c) => r.0.state == NavState::CardDetail(c as u64) && (r.1
                        matches NavAction::Send(q) && q.text@ == card_text_q(c as u64)),
                    None => r.0.state == NavState::MainMenu && r.1 == NavAction::Nothing,
                },
            },
    {
        match opts.pipe_id {
            Some(p) => (
                NavController { state: NavState::PipeProbe(p as u64) },
                NavAction::Send(pipe_name_query(p as u64)),
            ),
            None => match opts.card_id {
                Some(c) => (
                    NavController { state: NavState::CardDetail(c as u64) },
                    NavAction::Send(card_query(c as u64)),
                ),
                None => (NavController { state: NavState::MainMenu }, NavAction::Nothing),
            },
        }
    }

    /// Which kind of input to gather next.
    pub fn expects(&self) -> (e: Expect)
        ensures
            e == expects_spec(self.state),
    {
        match &self.state {
            NavState::MainMenu => Expect::MainInput,
            NavState::PipeMenu(_) => Expect::PipeInput,
            NavState::OrgMenu(_) => Expect::OrgInput,
            NavState::CardListMenu(_, _) => Expect::PickInput,
            NavState::Exit => Expect::Finished,
            _ => Expect::ResponseInput,
        }
    }

    /// One step of the machine: consumes the event the state awaits and
    /// yields the successor controller and the action to perform.
    pub fn step(self, ev: NavEvent) -> (r: (Self, NavAction))
        ensures
            nav_rel(self.state, ev, r.0.state, r.1),
    {
        let (post, act) = nav_step(self.state, ev);
        (NavController { state: post }, act)
    }
}

fn nav_step(pre: NavState, ev: NavEvent) -> (r: (NavState, NavAction))
    ensures
        nav_rel(pre, ev, r.0, r.1),
{
    match (pre, ev) {
        (NavState::MainMenu, NavEvent::Main(MainChoice::Pipe(id))) => (
            NavState::PipeProbe(id),
            NavAction::Send(pipe_name_query(id)),
        ),
        (NavState::MainMenu, NavEvent::Main(MainChoice::Organization(id))) => (
            NavState::OrgProbe(id),
            NavAction::Send(organization_name_query(id)),
        ),
        (NavState::MainMenu, NavEvent::Main(MainChoice::Card(id))) => (
            NavState::CardDetail(id),
            NavAction::Send(card_query(id)),
        ),
        (NavState::MainMenu, NavEvent::Main(MainChoice::Exit)) => (
            NavState::Exit,
            NavAction::Quit,
        ),
        (NavState::PipeProbe(id), NavEvent::Response(reply)) => match reply {
            Some(raw) => match extract_pipe_name(raw.as_str()) {
                Ok(name) => (NavState::PipeMenu(id), NavAction::ShowPipeMenu(name)),
                Err(_) => (NavState::MainMenu, NavAction::ReportUnauthorized),
            },
            None => (NavState::MainMenu, NavAction::ReportTransport),
        },
        (NavState::PipeMenu(id), NavEvent::Pipe(PipeChoice::AllPhases)) => (
            NavState::PhaseMenu(id),
            NavAction::Send(pipe_phases_query(id)),
        ),
        (NavState::PipeMenu(id), NavEvent::Pipe(PipeChoice::AllCards)) => (
            NavState::CardsMenu(id),
            NavAction::Send(pipe_cards_query(id)),
        ),
        (NavState::PipeMenu(_id), NavEvent::Pipe(PipeChoice::OnePhase)) => (
            NavState::MainMenu,
            NavAction::Nothing,
        ),
        (NavState::PipeMenu(id), NavEvent::Pipe(PipeChoice::OneCard)) => (
            NavState::CardListQuery(id),
            NavAction::Send(pipe_cards_select(id)),
        ),
        (NavState::PhaseMenu(_id), NavEvent::Response(reply)) => match reply {
            Some(raw) => match extract_phases(raw.as_str()) {
                Ok(ps) => (NavState::MainMenu, NavAction::RenderPhases(ps)),
                Err(_) => (NavState::MainMenu, NavAction::ReportUnauthorized),
            },
            None => (NavState::MainMenu, NavAction::ReportTransport),
        },
        (NavState::CardsMenu(_id), NavEvent::Response(reply)) => match reply {
            Some(raw) => match extract_cards(raw.as_str()) {
                Ok(cs) => (NavState::MainMenu, NavAction::RenderCards(cs)),
                Err(_) => (NavState::MainMenu, NavAction::ReportUnauthorized),
            },
            None => (NavState::MainMenu, NavAction::ReportTransport),
        },
        (NavState::CardListQuery(id), NavEvent::Response(reply)) => match reply {
            Some(raw) => match extract_card_refs(raw.as_str()) {
                Ok(refs) => {
                    let titles = titles_of(&refs);
                    (NavState::CardListMenu(id, refs), NavAction::AskCardPick(titles))
                },
                Err(_) => (NavState::MainMenu, NavAction::ReportUnauthorized),
            },
            None => (NavState::MainMenu, NavAction::ReportTransport),
        },
        (NavState::CardListMenu(_id, refs), NavEvent::Pick(i)) => {
            if i < refs.len() {
                let cid = refs[i].id;
                (NavState::CardDetail(cid), NavAction::Send(card_query(cid)))
            } else {
                (NavState::MainMenu, NavAction::Nothing)
            }
        },
        (NavState::CardDetail(_id), NavEvent::Response(reply)) => match reply {
            Some(raw) => match extract_card(raw.as_str()) {
                Ok(c) => (NavState::MainMenu, NavAction::RenderCard(c)),
                Err(_) => (NavState::MainMenu, NavAction::ReportUnauthorized),
            },
            None => (NavState::MainMenu, NavAction::ReportTransport),
        },
        (NavState::OrgProbe(id), NavEvent::Response(reply)) => match reply {
            Some(raw) => match extract_org_name(raw.as_str()) {
                Ok(name) => (NavState::OrgMenu(id), NavAction::ShowOrgMenu(name)),
                Err(_) => (NavState::MainMenu, NavAction::ReportUnauthorized),
            },
            None => (NavState::MainMenu, NavAction::ReportTransport),
        },
        (NavState::OrgMenu(id), NavEvent::Org(OrgChoice::Pipes)) => (
            NavState::OrgPipesMenu(id),
            NavAction::Send(org_pipes_query(id)),
        ),
        (NavState::OrgMenu(id), NavEvent::Org(OrgChoice::Members)) => (
            NavState::OrgMembersMenu(id),
            NavAction::Send(org_members_query(id)),
        ),
        (NavState::OrgPipesMenu(_id), NavEvent::Response(reply)) => match reply {
            Some(raw) => match extract_org_pipes(raw.as_str()) {
                Ok(ps) => (NavState::MainMenu, NavAction::RenderPipes(ps)),
                Err(_) => (NavState::MainMenu, NavAction::ReportUnauthorized),
            },
            None => (NavState::MainMenu, NavAction::ReportTransport),
        },
        (NavState::OrgMembersMenu(_id), NavEvent::Response(reply)) => match reply {
            Some(raw) => match extract_members(raw.as_str()) {
                Ok(ps) => (NavState::MainMenu, NavAction::RenderMembers(ps)),
                Err(_) => (NavState::MainMenu, NavAction::ReportUnauthorized),
            },
            None => (NavState::MainMenu, NavAction::ReportTransport),
        },
        (st, _) => (st, NavAction::Nothing),
    }
}

} // verus!
