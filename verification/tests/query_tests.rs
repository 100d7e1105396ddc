use pipe_cli::query::{
    card_query, me_query, org_members_query, org_pipes_query, organization_name_query,
    pipe_cards_query, pipe_cards_select, pipe_name_query, pipe_phases_query, request_body,
    QueryRequest,
};

#[test]
fn me_query_text_exact() {
    assert_eq!(me_query().text, "query { me { name } }");
}

#[test]
fn pipe_name_query_contains_bare_id() {
    let q = pipe_name_query(42);
    assert_eq!(q.text, "query { pipe(id: 42) { name } }");
    assert!(q.text.contains("42"));
    assert!(!q.text.contains("\"42\""));
}

#[test]
fn pipe_phases_query_text_exact() {
    assert_eq!(
        pipe_phases_query(7).text,
        "query { pipe(id: 7) { phases { name cards_count description } } }"
    );
}

#[test]
fn pipe_cards_query_text_exact() {
    assert_eq!(
        pipe_cards_query(7).text,
        "{ allCards(pipeId: 7) { edges { node { id url title fields { name value } } } } }"
    );
}

#[test]
fn pipe_cards_select_text_exact() {
    assert_eq!(
        pipe_cards_select(7).text,
        "{ allCards(pipeId: 7) { edges { node { id title } } } }"
    );
}

#[test]
fn card_query_text_exact() {
    assert_eq!(
        card_query(123).text,
        "query { card(id: 123) { id title url fields { value name } } }"
    );
}

#[test]
fn organization_name_query_text_exact() {
    assert_eq!(
        organization_name_query(9).text,
        "query { organization(id: 9) { name } }"
    );
}

#[test]
fn org_pipes_query_text_exact() {
    assert_eq!(
        org_pipes_query(9).text,
        "query { organization(id: 9) { pipes { id name } } }"
    );
}

#[test]
fn org_members_query_text_exact() {
    assert_eq!(
        org_members_query(9).text,
        "query { organization(id: 9) { members { user { id name } role_name } name } }"
    );
}

#[test]
fn every_id_query_carries_the_numeral_verbatim() {
    for id in [0u64, 1, 42, 1005, u64::MAX] {
        let numeral = id.to_string();
        for text in [
            pipe_name_query(id).text,
            pipe_phases_query(id).text,
            pipe_cards_query(id).text,
            pipe_cards_select(id).text,
            card_query(id).text,
            organization_name_query(id).text,
            org_pipes_query(id).text,
            org_members_query(id).text,
        ] {
            assert!(text.contains(&numeral), "{} missing from {}", numeral, text);
            assert!(!text.contains(&format!("\"{}\"", numeral)));
        }
    }
}

#[test]
fn request_body_frames_and_escapes() {
    let body = request_body(&me_query());
    assert_eq!(body, r#"{"query":"query { me { name } }"}"#);
}

#[test]
fn request_body_escapes_specials() {
    let q = QueryRequest { text: "a\"b\\c\nd\te\rf\u{1}g".to_string() };
    assert_eq!(
        request_body(&q),
        "{\"query\":\"a\\\"b\\\\c\\nd\\te\\rf\\u0001g\"}"
    );
}

#[test]
fn request_body_is_valid_json() {
    let q = pipe_name_query(42);
    let body = request_body(&q);
    let parsed: serde_json::Value = serde_json::from_str(&body).unwrap();
    assert_eq!(parsed["query"], serde_json::Value::String(q.text.clone()));
}
