use pipe_cli::args::Opts;
use pipe_cli::data::Phase;
use pipe_cli::nav::{
    Expect, MainChoice, NavAction, NavController, NavEvent, NavState, OrgChoice, PipeChoice,
};
use pipe_cli::query::{card_query, pipe_name_query, pipe_phases_query};

#[test]
fn pipe_scenario_phases_then_back_to_main() {
    let c = NavController::new();
    assert_eq!(c.expects(), Expect::MainInput);

    let (c, act) = c.step(NavEvent::Main(MainChoice::Pipe(42)));
    assert_eq!(act, NavAction::Send(pipe_name_query(42)));
    assert_eq!(c.expects(), Expect::ResponseInput);

    let reply = r#"{"data":{"pipe":{"name":"Sales"}}}"#.to_string();
    let (c, act) = c.step(NavEvent::Response(Some(reply)));
    assert_eq!(act, NavAction::ShowPipeMenu("Sales".to_string()));
    assert_eq!(c.state, NavState::PipeMenu(42));
    assert_eq!(c.expects(), Expect::PipeInput);

    let (c, act) = c.step(NavEvent::Pipe(PipeChoice::AllPhases));
    assert_eq!(act, NavAction::Send(pipe_phases_query(42)));

    let reply =
        r#"{"data":{"pipe":{"phases":[{"name":"Lead","cards_count":3,"description":"d"}]}}}"#
            .to_string();
    let (c, act) = c.step(NavEvent::Response(Some(reply)));
    assert_eq!(
        act,
        NavAction::RenderPhases(vec![Phase {
            name: "Lead".to_string(),
            cards_count: 3,
            description: "d".to_string(),
        }])
    );
    assert_eq!(c.state, NavState::MainMenu);
}

#[test]
fn pipe_probe_null_name_reports_unauthorized() {
    let c = NavController::new();
    let (c, _) = c.step(NavEvent::Main(MainChoice::Pipe(42)));
    let reply = r#"{"data":{"pipe":{"name":null}}}"#.to_string();
    let (c, act) = c.step(NavEvent::Response(Some(reply)));
    assert_eq!(act, NavAction::ReportUnauthorized);
    assert_eq!(c.state, NavState::MainMenu);
}

#[test]
fn transport_failure_reports_and_returns_to_main() {
    let c = NavController::new();
    let (c, _) = c.step(NavEvent::Main(MainChoice::Pipe(1)));
    let (c, act) = c.step(NavEvent::Response(None));
    assert_eq!(act, NavAction::ReportTransport);
    assert_eq!(c.state, NavState::MainMenu);
}

#[test]
fn card_pick_flow_reissues_detail_query() {
    let c = NavController::new();
    let (c, _) = c.step(NavEvent::Main(MainChoice::Pipe(5)));
    let reply = r#"{"data":{"pipe":{"name":"P"}}}"#.to_string();
    let (c, _) = c.step(NavEvent::Response(Some(reply)));
    let (c, _act) = c.step(NavEvent::Pipe(PipeChoice::OneCard));
    let reply = r#"{"data":{"allCards":{"edges":[
        {"node":{"id":"70","title":"First"}},
        {"node":{"id":"77","title":"Second"}}
    ]}}}"#
        .to_string();
    let (c, act) = c.step(NavEvent::Response(Some(reply)));
    assert_eq!(
        act,
        NavAction::AskCardPick(vec!["First".to_string(), "Second".to_string()])
    );
    assert_eq!(c.expects(), Expect::PickInput);

    let (c, act) = c.step(NavEvent::Pick(1));
    assert_eq!(act, NavAction::Send(card_query(77)));
    assert_eq!(c.state, NavState::CardDetail(77));

    let reply = r#"{"data":{"card":{"id":"77","title":"Second","url":null,"fields":[]}}}"#
        .to_string();
    let (c, act) = c.step(NavEvent::Response(Some(reply)));
    match act {
        NavAction::RenderCard(card) => {
            assert_eq!(card.id, 77);
            assert_eq!(card.title, "Second");
        },
        other => panic!("unexpected action {:?}", other),
    }
    assert_eq!(c.state, NavState::MainMenu);
}

#[test]
fn out_of_range_pick_returns_to_main() {
    let c = NavController::new();
    let (c, _) = c.step(NavEvent::Main(MainChoice::Pipe(5)));
    let reply = r#"{"data":{"pipe":{"name":"P"}}}"#.to_string();
    let (c, _) = c.step(NavEvent::Response(Some(reply)));
    let (c, _) = c.step(NavEvent::Pipe(PipeChoice::OneCard));
    let reply = r#"{"data":{"allCards":{"edges":[{"node":{"id":"1","title":"A"}}]}}}"#.to_string();
    let (c, _) = c.step(NavEvent::Response(Some(reply)));
    let (c, act) = c.step(NavEvent::Pick(9));
    assert_eq!(act, NavAction::Nothing);
    assert_eq!(c.state, NavState::MainMenu);
}

#[test]
fn org_members_flow() {
    let c = NavController::new();
    let (c, _) = c.step(NavEvent::Main(MainChoice::Organization(9)));
    let reply = r#"{"data":{"organization":{"name":"Acme"}}}"#.to_string();
    let (c, act) = c.step(NavEvent::Response(Some(reply)));
    assert_eq!(act, NavAction::ShowOrgMenu("Acme".to_string()));
    assert_eq!(c.expects(), Expect::OrgInput);
    let (c, _) = c.step(NavEvent::Org(OrgChoice::Members));
    let reply = r#"{"data":{"organization":{"members":[
        {"user":{"id":5,"name":"Bea"},"role_name":"admin"}
    ]}}}"#
        .to_string();
    let (c, act) = c.step(NavEvent::Response(Some(reply)));
    match act {
        NavAction::RenderMembers(ms) => assert_eq!(ms[0].user_name, "Bea"),
        other => panic!("unexpected action {:?}", other),
    }
    assert_eq!(c.state, NavState::MainMenu);
}

#[test]
fn org_probe_failure_short_circuits() {
    let c = NavController::new();
    let (c, _) = c.step(NavEvent::Main(MainChoice::Organization(9)));
    let reply = r#"{"data":{"organization":null}}"#.to_string();
    let (c, act) = c.step(NavEvent::Response(Some(reply)));
    assert_eq!(act, NavAction::ReportUnauthorized);
    assert_eq!(c.state, NavState::MainMenu);
}

#[test]
fn exit_is_terminal() {
    let c = NavController::new();
    let (c, act) = c.step(NavEvent::Main(MainChoice::Exit));
    assert_eq!(act, NavAction::Quit);
    assert_eq!(c.state, NavState::Exit);
    assert_eq!(c.expects(), Expect::Finished);
}

#[test]
fn start_honours_pipe_flag_first() {
    let opts = Opts { card_id: Some(3), pipe_id: Some(42) };
    let (c, act) = NavController::start(&opts);
    assert_eq!(c.state, NavState::PipeProbe(42));
    assert_eq!(act, NavAction::Send(pipe_name_query(42)));
}

#[test]
fn start_honours_card_flag() {
    let opts = Opts { card_id: Some(3), pipe_id: None };
    let (c, act) = NavController::start(&opts);
    assert_eq!(c.state, NavState::CardDetail(3));
    assert_eq!(act, NavAction::Send(card_query(3)));
}

#[test]
fn start_without_flags_shows_main_menu() {
    let opts = Opts { card_id: None, pipe_id: None };
    let (c, act) = NavController::start(&opts);
    assert_eq!(c.state, NavState::MainMenu);
    assert_eq!(act, NavAction::Nothing);
}

#[test]
fn mismatched_event_changes_nothing() {
    let c = NavController::new();
    let (c, act) = c.step(NavEvent::Pick(0));
    assert_eq!(act, NavAction::Nothing);
    assert_eq!(c.state, NavState::MainMenu);
}
