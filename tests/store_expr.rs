use fauna_blog::expr::{command_expr, document_expr, query_expr};
use fauna_blog::migrate::{Migrate, Schema};
use fauna_blog::post::PostData;
use fauna_blog::selector::Selector;

#[test]
fn query_expr_encodes_match_paginate_and_projection() {
    let q = Selector::build("tags_by_post_id", Some("42".to_string()), vec!["name".to_string()]);
    let json = serde_json::to_value(&query_expr(q)).unwrap();
    let text = json.to_string();
    assert!(text.contains("\"paginate\""), "{}", text);
    assert!(text.contains("\"match\""), "{}", text);
    assert!(text.contains("\"tags_by_post_id\""), "{}", text);
    assert!(text.contains("\"42\""), "{}", text);
    assert!(text.contains("\"item-ref\""), "{}", text);
    assert!(text.contains("\"name\""), "{}", text);
    assert!(text.contains("\"ref\""), "{}", text);
}

#[test]
fn document_expr_encodes_fields() {
    let doc = PostData { title: "Hi".to_string(), age_limit: 18 }.to_document();
    let json = serde_json::to_value(&document_expr(&doc)).unwrap();
    let text = json.to_string();
    assert!(text.contains("\"title\""), "{}", text);
    assert!(text.contains("\"Hi\""), "{}", text);
    assert!(text.contains("18"), "{}", text);
}

#[test]
fn command_expr_encodes_schema_commands() {
    let cmds = Migrate::new().create_schema(&Schema { classes: vec![], indexes: vec![] });
    let texts: Vec<String> = cmds
        .into_iter()
        .map(|c| serde_json::to_value(&command_expr(c)).unwrap().to_string())
        .collect();
    assert_eq!(texts.len(), 5);
    assert!(texts[0].contains("\"posts\""), "{}", texts[0]);
    assert!(texts[1].contains("\"all_posts\""), "{}", texts[1]);
    assert!(texts[1].contains("\"age_limit\""), "{}", texts[1]);
    assert!(texts[4].contains("\"tags_by_post_id\""), "{}", texts[4]);
    assert!(texts[4].contains("\"post_id\""), "{}", texts[4]);
}
