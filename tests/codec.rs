use fauna_blog::error::Error;
use fauna_blog::post::PostData;
use fauna_blog::tag::TagData;
use fauna_blog::value::{Member, Value};

fn obj(members: Vec<(&str, Value)>) -> Value {
    Value::Object(
        members
            .into_iter()
            .map(|(k, v)| Member { key: k.to_string(), value: v })
            .collect(),
    )
}

#[test]
fn post_round_trips_through_its_document() {
    let p = PostData { title: "Hello".to_string(), age_limit: 18 };
    let doc = p.to_document();
    let back = PostData::from_document(&doc).ok().unwrap();
    assert_eq!(back.title, "Hello");
    assert_eq!(back.age_limit, 18);
}

#[test]
fn post_document_has_title_then_age_limit() {
    let doc = PostData { title: "t".to_string(), age_limit: 65535 }.to_document();
    match doc {
        Value::Object(ms) => {
            assert_eq!(ms.len(), 2);
            assert_eq!(ms[0].key, "title");
            assert!(matches!(&ms[0].value, Value::Str(x) if x == "t"));
            assert_eq!(ms[1].key, "age_limit");
            assert!(matches!(&ms[1].value, Value::Int(65535)));
        }
        _ => panic!("not an object"),
    }
}

#[test]
fn from_resource_without_age_limit_is_a_conversion_error() {
    let resource = obj(vec![("data", obj(vec![("title", Value::Str("x".to_string()))]))]);
    assert_eq!(PostData::from_resource(&resource).err(), Some(Error::Conversion));
}

#[test]
fn from_resource_reads_data() {
    let resource = obj(vec![(
        "data",
        obj(vec![("age_limit", Value::Int(3)), ("title", Value::Str("y".to_string()))]),
    )]);
    let p = PostData::from_resource(&resource).ok().unwrap();
    assert_eq!(p.title, "y");
    assert_eq!(p.age_limit, 3);
}

#[test]
fn wrong_types_are_conversion_errors() {
    let not_object = Value::Array(vec![]);
    assert_eq!(PostData::from_document(&not_object).err(), Some(Error::Conversion));
    let title_number = obj(vec![("title", Value::Int(1)), ("age_limit", Value::Int(1))]);
    assert_eq!(PostData::from_document(&title_number).err(), Some(Error::Conversion));
    let too_old = obj(vec![("title", Value::Str("a".to_string())), ("age_limit", Value::Int(65536))]);
    assert_eq!(PostData::from_document(&too_old).err(), Some(Error::Conversion));
    let negative = obj(vec![("title", Value::Str("a".to_string())), ("age_limit", Value::Int(-1))]);
    assert_eq!(PostData::from_document(&negative).err(), Some(Error::Conversion));
}

#[test]
fn tag_round_trips_through_its_document() {
    let t = TagData { name: "rust".to_string() };
    let doc = t.to_document(&"42".to_string());
    match &doc {
        Value::Object(ms) => {
            assert_eq!(ms[0].key, "post_id");
            assert!(matches!(&ms[0].value, Value::Str(x) if x == "42"));
            assert_eq!(ms[1].key, "name");
        }
        _ => panic!("not an object"),
    }
    assert_eq!(TagData::from_document(&doc).ok().unwrap().name, "rust");
    assert_eq!(TagData::from_document(&Value::Null).err(), Some(Error::Conversion));
}

#[test]
fn error_texts() {
    assert_eq!(Error::Conversion.to_string(), "ERROR HAPPENED");
    assert_eq!(Error::Other.description(), "ERROR ERROR");
}
