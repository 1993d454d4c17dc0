use fauna_blog::selector::{Query, Selector};
use fauna_blog::value::{Member, Value};

fn s(x: &str) -> String {
    x.to_string()
}

fn obj(members: Vec<(&str, Value)>) -> Value {
    Value::Object(
        members
            .into_iter()
            .map(|(k, v)| Member { key: k.to_string(), value: v })
            .collect(),
    )
}

fn keys(v: &Value) -> Vec<String> {
    match v {
        Value::Object(ms) => ms.iter().map(|m| m.key.clone()).collect(),
        _ => panic!("not an object"),
    }
}

fn output_keys(q: &Query) -> Vec<String> {
    match q {
        Query::MapOver { lambda, .. } => match &**lambda {
            Query::Lambda { param, body } => {
                assert_eq!(param, "item-ref");
                match &**body {
                    Query::Let { bindings, body } => {
                        assert_eq!(bindings.len(), 1);
                        assert_eq!(bindings[0].name, "item");
                        match &**body {
                            Query::Object(entries) => entries.iter().map(|e| e.key.clone()).collect(),
                            _ => panic!("no object"),
                        }
                    }
                    _ => panic!("no let"),
                }
            }
            _ => panic!("no lambda"),
        },
        _ => panic!("no map"),
    }
}

fn match_of(q: &Query) -> (String, Option<Vec<String>>) {
    match q {
        Query::MapOver { collection, .. } => match &**collection {
            Query::Paginate(m) => match &**m {
                Query::Match { index, terms } => {
                    let name = match &**index {
                        Query::Index(n) => n.clone(),
                        _ => panic!("no index"),
                    };
                    let terms = terms.as_ref().map(|t| match &**t {
                        Query::Array(items) => items
                            .iter()
                            .map(|i| match i {
                                Query::Str(s) => s.clone(),
                                _ => panic!("term is no string"),
                            })
                            .collect(),
                        _ => panic!("terms are no array"),
                    });
                    (name, terms)
                }
                _ => panic!("no match"),
            },
            _ => panic!("no paginate"),
        },
        _ => panic!("no map"),
    }
}

#[test]
fn build_projects_id_then_fields_in_order() {
    let q = Selector::build("all_posts", None, vec![s("title"), s("age_limit")]);
    assert_eq!(output_keys(&q), vec![s("id"), s("title"), s("age_limit")]);
    assert_eq!(match_of(&q), (s("all_posts"), None));
}

#[test]
fn build_keeps_the_given_order_and_term() {
    let q = Selector::build("tags_by_post_id", Some(s("42")), vec![s("zeta"), s("alpha")]);
    assert_eq!(output_keys(&q), vec![s("id"), s("zeta"), s("alpha")]);
    assert_eq!(match_of(&q), (s("tags_by_post_id"), Some(vec![s("42")])));
}

#[test]
fn build_with_no_fields_projects_only_the_id() {
    let q = Selector::build("all_posts", None, vec![]);
    assert_eq!(output_keys(&q), vec![s("id")]);
}

#[test]
fn into_query_selects_paths_of_item() {
    let q = Selector::from_index("all_posts").fields(vec![s("title")]).into_query();
    if let Query::MapOver { lambda, .. } = q {
        if let Query::Lambda { body, .. } = *lambda {
            if let Query::Let { body, .. } = *body {
                if let Query::Object(entries) = *body {
                    match &entries[1].value {
                        Query::Select { path, from } => {
                            assert_eq!(path, &vec![s("data"), s("title")]);
                            assert!(matches!(&**from, Query::Var(v) if v == "item"));
                        }
                        _ => panic!("no select"),
                    }
                    match &entries[0].value {
                        Query::Select { path, .. } => assert_eq!(path, &vec![s("ref"), s("id")]),
                        _ => panic!("no select"),
                    }
                    return;
                }
            }
        }
    }
    panic!("unexpected shape");
}

#[test]
fn project_reads_id_and_data_fields() {
    let doc = obj(vec![
        ("ref", obj(vec![("id", Value::Str(s("42")))])),
        ("data", obj(vec![("title", Value::Str(s("Hi"))), ("age_limit", Value::Int(18))])),
    ]);
    let sel = Selector::from_index("all_posts").fields(vec![s("title"), s("age_limit")]);
    let item = sel.project(&doc);
    assert_eq!(keys(&item), vec![s("id"), s("title"), s("age_limit")]);
    match item {
        Value::Object(ms) => {
            assert!(matches!(&ms[0].value, Value::Str(x) if x == "42"));
            assert!(matches!(&ms[1].value, Value::Str(x) if x == "Hi"));
            assert!(matches!(&ms[2].value, Value::Int(18)));
        }
        _ => panic!("not an object"),
    }
}

#[test]
fn project_reads_null_for_a_missing_field() {
    let doc = obj(vec![
        ("ref", obj(vec![("id", Value::Str(s("7")))])),
        ("data", obj(vec![("title", Value::Str(s("x")))])),
    ]);
    let sel = Selector::from_index("all_posts").fields(vec![s("title"), s("age_limit")]);
    match sel.project(&doc) {
        Value::Object(ms) => {
            assert_eq!(ms.len(), 3);
            assert!(matches!(&ms[2].value, Value::Null));
        }
        _ => panic!("not an object"),
    }
}

#[test]
fn get_reads_the_first_member_and_select_follows_paths() {
    let v = obj(vec![
        ("a", Value::Int(1)),
        ("a", Value::Int(2)),
        ("b", obj(vec![("c", Value::Bool(true))])),
    ]);
    assert!(matches!(v.get(&s("a")), Value::Int(1)));
    assert!(matches!(v.get(&s("z")), Value::Null));
    assert!(matches!(Value::Int(3).get(&s("a")), Value::Null));
    assert!(matches!(v.select(&vec![s("b"), s("c")]), Value::Bool(true)));
    assert!(matches!(v.select(&vec![s("b"), s("q")]), Value::Null));
    assert!(matches!(v.select(&vec![]), Value::Object(_)));
}

#[test]
fn deep_clone_copies_nested_values() {
    let v = obj(vec![("xs", Value::Array(vec![Value::Int(1), Value::Str(s("two")), Value::Null]))]);
    let c = v.deep_clone();
    match c.get(&s("xs")) {
        Value::Array(items) => {
            assert_eq!(items.len(), 3);
            assert!(matches!(&items[1], Value::Str(x) if x == "two"));
        }
        _ => panic!("not an array"),
    }
}
