use pipe_cli::data::{CardField, CardRef, Member, Phase, PipeRef};
use pipe_cli::extract::{
    extract_card, extract_card_refs, extract_cards, extract_me_name, extract_members,
    extract_org_name, extract_org_pipes, extract_phases, extract_pipe_name, ExtractError,
    Unauthorized,
};

#[test]
fn me_name_on_valid_probe() {
    let raw = r#"{"data":{"me":{"name":"Ada"}}}"#;
    assert_eq!(extract_me_name(raw), Ok("Ada".to_string()));
}

#[test]
fn me_name_on_error_body_is_malformed() {
    let raw = r#"{"errors":[{"message":"denied"}]}"#;
    assert_eq!(extract_me_name(raw), Err(ExtractError::Malformed));
}

#[test]
fn me_name_on_null_is_unauthorized() {
    let raw = r#"{"data":{"me":{"name":null}}}"#;
    assert_eq!(extract_me_name(raw), Err(ExtractError::Unauthorized));
}

#[test]
fn malformed_bodies_are_malformed_everywhere() {
    for raw in ["", "not json", "{", "[1,2", "{\"data\":"] {
        assert_eq!(extract_me_name(raw), Err(ExtractError::Malformed));
        assert_eq!(extract_pipe_name(raw), Err(ExtractError::Malformed));
        assert_eq!(extract_org_name(raw), Err(ExtractError::Malformed));
        assert_eq!(extract_phases(raw), Err(ExtractError::Malformed));
        assert_eq!(extract_cards(raw), Err(ExtractError::Malformed));
        assert_eq!(extract_card_refs(raw), Err(ExtractError::Malformed));
        assert_eq!(extract_card(raw), Err(ExtractError::Malformed));
        assert_eq!(extract_members(raw), Err(ExtractError::Malformed));
        assert_eq!(extract_org_pipes(raw), Err(ExtractError::Malformed));
    }
}

#[test]
fn pipe_name_on_valid_body() {
    let raw = r#"{"data":{"pipe":{"name":"Sales"}}}"#;
    assert_eq!(extract_pipe_name(raw), Ok("Sales".to_string()));
}

#[test]
fn pipe_name_on_null_is_unauthorized() {
    let raw = r#"{"data":{"pipe":{"name":null}}}"#;
    assert_eq!(extract_pipe_name(raw), Err(ExtractError::Unauthorized));
}

#[test]
fn pipe_name_on_missing_pipe_is_malformed() {
    let raw = r#"{"data":{}}"#;
    assert_eq!(extract_pipe_name(raw), Err(ExtractError::Malformed));
}

#[test]
fn org_name_on_valid_body() {
    let raw = r#"{"data":{"organization":{"name":"Acme"}}}"#;
    assert_eq!(extract_org_name(raw), Ok("Acme".to_string()));
}

#[test]
fn phases_decode() {
    let raw = r#"{"data":{"pipe":{"phases":[{"name":"Lead","cards_count":3,"description":"d"}]}}}"#;
    let phases = extract_phases(raw).unwrap();
    assert_eq!(
        phases,
        vec![Phase { name: "Lead".to_string(), cards_count: 3, description: "d".to_string() }]
    );
}

#[test]
fn phases_with_bad_count_is_malformed() {
    let raw = r#"{"data":{"pipe":{"phases":[{"name":"Lead","cards_count":"three","description":"d"}]}}}"#;
    assert_eq!(extract_phases(raw), Err(ExtractError::Malformed));
}

#[test]
fn phases_not_a_list_is_malformed() {
    let raw = r#"{"data":{"pipe":{"phases":null}}}"#;
    assert_eq!(extract_phases(raw), Err(ExtractError::Malformed));
}

#[test]
fn card_refs_decode_string_id() {
    let raw = r#"{"data":{"allCards":{"edges":[{"node":{"id":"77","title":"Fix bug"}}]}}}"#;
    let refs = extract_card_refs(raw).unwrap();
    assert_eq!(refs, vec![CardRef { id: 77, title: "Fix bug".to_string() }]);
}

#[test]
fn card_refs_bad_id_is_malformed() {
    let raw = r#"{"data":{"allCards":{"edges":[{"node":{"id":"abc","title":"Fix bug"}}]}}}"#;
    assert_eq!(extract_card_refs(raw), Err(ExtractError::Malformed));
}

#[test]
fn card_detail_decodes() {
    let raw = r#"{"data":{"card":{"id":"9","title":"T","url":"https://x","fields":[{"name":"a","value":"b"}]}}}"#;
    let card = extract_card(raw).unwrap();
    assert_eq!(card.id, 9);
    assert_eq!(card.title, "T");
    assert_eq!(card.url, Some("https://x".to_string()));
    assert_eq!(
        card.fields,
        vec![CardField { name: "a".to_string(), value: "b".to_string() }]
    );
}

#[test]
fn card_without_url_or_fields() {
    let raw = r#"{"data":{"card":{"id":"9","title":"T"}}}"#;
    let card = extract_card(raw).unwrap();
    assert_eq!(card.url, None);
    assert!(card.fields.is_empty());
}

#[test]
fn card_with_null_url_and_fields() {
    let raw = r#"{"data":{"card":{"id":"9","title":"T","url":null,"fields":null}}}"#;
    let card = extract_card(raw).unwrap();
    assert_eq!(card.url, None);
    assert!(card.fields.is_empty());
}

#[test]
fn card_missing_title_is_unauthorized() {
    let raw = r#"{"data":{"card":{"id":"9"}}}"#;
    assert_eq!(extract_card(raw), Err(ExtractError::Unauthorized));
}

#[test]
fn card_bad_id_is_malformed_not_zero() {
    let raw = r#"{"data":{"card":{"id":"abc","title":"T"}}}"#;
    assert_eq!(extract_card(raw), Err(ExtractError::Malformed));
}

#[test]
fn card_numeric_id_is_malformed() {
    let raw = r#"{"data":{"card":{"id":9,"title":"T"}}}"#;
    assert_eq!(extract_card(raw), Err(ExtractError::Malformed));
}

#[test]
fn cards_full_list_decodes() {
    let raw = r#"{"data":{"allCards":{"edges":[
        {"node":{"id":"1","title":"A","url":null,"fields":[]}},
        {"node":{"id":"2","title":"B","url":"u","fields":[{"name":"n","value":"v"}]}}
    ]}}}"#;
    let cards = extract_cards(raw).unwrap();
    assert_eq!(cards.len(), 2);
    assert_eq!(cards[0].id, 1);
    assert_eq!(cards[1].url, Some("u".to_string()));
    assert_eq!(cards[1].fields[0].value, "v");
}

#[test]
fn members_decode() {
    let raw = r#"{"data":{"organization":{"members":[
        {"user":{"id":5,"name":"Bea"},"role_name":"admin"}
    ]}}}"#;
    let members = extract_members(raw).unwrap();
    assert_eq!(
        members,
        vec![Member { user_id: 5, user_name: "Bea".to_string(), role_name: "admin".to_string() }]
    );
}

#[test]
fn members_string_id_also_accepted() {
    let raw = r#"{"data":{"organization":{"members":[
        {"user":{"id":"6","name":"Cid"},"role_name":"guest"}
    ]}}}"#;
    let members = extract_members(raw).unwrap();
    assert_eq!(members[0].user_id, 6);
}

#[test]
fn org_pipes_decode() {
    let raw = r#"{"data":{"organization":{"pipes":[{"id":3,"name":"Sales"}]}}}"#;
    let pipes = extract_org_pipes(raw).unwrap();
    assert_eq!(pipes, vec![PipeRef { id: 3, name: "Sales".to_string() }]);
}

#[test]
fn unauthorized_message() {
    let u = Unauthorized::new();
    assert_eq!(u.message(), "Unauthorized access");
}
