use fauna_blog::misc::{map_outcome, page_response, HttpResponse, Operation, StoreOutcome};
use fauna_blog::post::Post;
use fauna_blog::selector::Selector;
use fauna_blog::tag::{Tag, TagData, TagStep};
use fauna_blog::value::{Member, Value};

fn obj(members: Vec<(&str, Value)>) -> Value {
    Value::Object(
        members
            .into_iter()
            .map(|(k, v)| Member { key: k.to_string(), value: v })
            .collect(),
    )
}

fn post_doc(id: &str) -> Value {
    obj(vec![
        ("ref", obj(vec![("id", Value::Str(id.to_string()))])),
        ("data", obj(vec![("title", Value::Str("Hi".to_string())), ("age_limit", Value::Int(18))])),
    ])
}

#[test]
fn every_outcome_maps_to_its_status() {
    let sel = Selector::from_index("all_posts");
    let base = "http://h/posts".to_string();
    for op in [Operation::Read, Operation::Update, Operation::Delete] {
        assert_eq!(map_outcome(StoreOutcome::Success(post_doc("1")), op, &sel, &base).status(), 200);
        assert_eq!(map_outcome(StoreOutcome::NotFound, op, &sel, &base).status(), 404);
        assert_eq!(map_outcome(StoreOutcome::OtherFailure("x".to_string()), op, &sel, &base).status(), 500);
    }
    assert_eq!(map_outcome(StoreOutcome::Success(post_doc("1")), Operation::Create, &sel, &base).status(), 201);
    assert_eq!(map_outcome(StoreOutcome::NotFound, Operation::Create, &sel, &base).status(), 404);
    assert_eq!(
        map_outcome(StoreOutcome::OtherFailure("x".to_string()), Operation::Create, &sel, &base).status(),
        500
    );
    assert_eq!(map_outcome(StoreOutcome::Success(Value::Null), Operation::Create, &sel, &base).status(), 500);
}

#[test]
fn created_post_has_its_location() {
    match Post::create_response(StoreOutcome::Success(post_doc("42"))) {
        HttpResponse::Created(c) => assert_eq!(c.location, "http://localhost:8080/posts/42"),
        _ => panic!("not created"),
    }
}

#[test]
fn found_post_has_its_fields() {
    match Post::record_response(StoreOutcome::Success(post_doc("42")), Operation::Read) {
        HttpResponse::Data(Value::Object(ms)) => {
            let keys: Vec<&str> = ms.iter().map(|m| m.key.as_str()).collect();
            assert_eq!(keys, vec!["id", "title", "age_limit"]);
            assert!(matches!(&ms[0].value, Value::Str(x) if x == "42"));
            assert!(matches!(&ms[1].value, Value::Str(x) if x == "Hi"));
            assert!(matches!(&ms[2].value, Value::Int(18)));
        }
        _ => panic!("no data"),
    }
}

#[test]
fn deleted_post_reads_as_not_found_without_detail() {
    match Post::record_response(StoreOutcome::NotFound, Operation::Read) {
        HttpResponse::Error(e) => assert_eq!(e.status, 404),
        _ => panic!("not an error"),
    }
    match Post::record_response(StoreOutcome::OtherFailure("secret store detail".to_string()), Operation::Read) {
        HttpResponse::Error(e) => assert_eq!(e.status, 500),
        _ => panic!("not an error"),
    }
}

#[test]
fn page_carries_items_and_cursors() {
    let page = obj(vec![
        ("after", Value::Str("c2".to_string())),
        ("data", Value::Array(vec![Value::Int(1)])),
    ]);
    match page_response(StoreOutcome::Success(page)) {
        HttpResponse::Data(Value::Object(ms)) => {
            let keys: Vec<&str> = ms.iter().map(|m| m.key.as_str()).collect();
            assert_eq!(keys, vec!["data", "before", "after"]);
            assert!(matches!(&ms[0].value, Value::Array(xs) if xs.len() == 1));
            assert!(matches!(&ms[1].value, Value::Null));
            assert!(matches!(&ms[2].value, Value::Str(x) if x == "c2"));
        }
        _ => panic!("no data"),
    }
    assert_eq!(page_response(StoreOutcome::NotFound).status(), 404);
    assert_eq!(Post::index_response(StoreOutcome::OtherFailure(String::new())).status(), 500);
}

#[test]
fn tag_under_a_missing_post_is_not_found_and_not_created() {
    let body = TagData { name: "rust".to_string() };
    match Tag::create_step(StoreOutcome::NotFound, &"42".to_string(), &body) {
        TagStep::Respond(HttpResponse::Error(e)) => assert_eq!(e.status, 404),
        _ => panic!("a tag would be created"),
    }
    match Tag::create_step(StoreOutcome::OtherFailure("down".to_string()), &"42".to_string(), &body) {
        TagStep::Respond(HttpResponse::Error(e)) => assert_eq!(e.status, 500),
        _ => panic!("a tag would be created"),
    }
}

#[test]
fn tag_under_an_existing_post_is_created() {
    let body = TagData { name: "rust".to_string() };
    match Tag::create_step(StoreOutcome::Success(post_doc("42")), &"42".to_string(), &body) {
        TagStep::Create(Value::Object(ms)) => {
            assert_eq!(ms[0].key, "post_id");
            assert!(matches!(&ms[0].value, Value::Str(x) if x == "42"));
            assert!(matches!(&ms[1].value, Value::Str(x) if x == "rust"));
        }
        _ => panic!("no creation"),
    }
    let tag = obj(vec![("ref", obj(vec![("id", Value::Str("9".to_string()))]))]);
    match Tag::create_response(StoreOutcome::Success(tag), &"42".to_string()) {
        HttpResponse::Created(c) => assert_eq!(c.location, "http://localhost:8080/posts/42/tags/9"),
        _ => panic!("not created"),
    }
}

#[test]
fn tag_listing_checks_the_parent_first() {
    assert!(matches!(
        Tag::index_step(StoreOutcome::NotFound, &"42".to_string()),
        TagStep::Respond(HttpResponse::Error(ref e)) if e.status == 404
    ));
    match Tag::index_step(StoreOutcome::Success(post_doc("42")), &"42".to_string()) {
        TagStep::List(_) => {}
        _ => panic!("no listing"),
    }
    let s = Tag::selector(&"42".to_string());
    assert_eq!(s.index, "tags_by_post_id");
    assert_eq!(s.terms, Some(vec!["42".to_string()]));
    assert_eq!(s.fields.len(), 2);
    assert_eq!(s.fields[1].name, "name");
}

#[test]
fn post_listing_reads_all_posts() {
    let s = Post::selector();
    assert_eq!(s.index, "all_posts");
    assert!(s.terms.is_none());
    let names: Vec<&str> = s.fields.iter().map(|p| p.name.as_str()).collect();
    assert_eq!(names, vec!["id", "title", "age_limit"]);
    let _ = Post::index_query();
}
