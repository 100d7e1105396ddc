use pipe_cli::data::{Card, CardField};

#[test]
fn card_render_with_everything() {
    let card = Card {
        id: 7,
        title: "T".to_string(),
        url: Some("https://x".to_string()),
        fields: vec![
            CardField { name: "a".to_string(), value: "b".to_string() },
            CardField { name: "c".to_string(), value: "d".to_string() },
        ],
    };
    assert_eq!(
        card.render(),
        "Title: T,\nid: 7,\nurl: https://x,\nfields: a: b,\nc: d,\n"
    );
}

#[test]
fn card_render_without_url_or_fields() {
    let card = Card { id: 12, title: "Bare".to_string(), url: None, fields: vec![] };
    assert_eq!(card.render(), "Title: Bare,\nid: 12,\nurl: ,\nfields: ");
}
