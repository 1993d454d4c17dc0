use fauna_blog::migrate::{Migrate, Schema, SchemaCommand};

fn name_of(c: &SchemaCommand) -> String {
    match c {
        SchemaCommand::CreateClass(n) => format!("+class {}", n),
        SchemaCommand::CreateIndex(d) => format!("+index {} on {}", d.name, d.class),
        SchemaCommand::DeleteIndex(n) => format!("-index {}", n),
        SchemaCommand::DeleteClass(n) => format!("-class {}", n),
    }
}

fn run(schema: &mut Schema, cmds: &[SchemaCommand]) {
    for c in cmds {
        match c {
            SchemaCommand::CreateClass(n) => {
                assert!(!schema.classes.contains(n));
                schema.classes.push(n.clone());
            }
            SchemaCommand::CreateIndex(d) => {
                assert!(!schema.indexes.contains(&d.name));
                assert!(schema.classes.contains(&d.class));
                schema.indexes.push(d.name.clone());
            }
            SchemaCommand::DeleteIndex(n) => schema.indexes.retain(|x| x != n),
            SchemaCommand::DeleteClass(n) => schema.classes.retain(|x| x != n),
        }
    }
}

#[test]
fn create_schema_on_an_empty_store() {
    let m = Migrate::new();
    let empty = Schema { classes: vec![], indexes: vec![] };
    let cmds = m.create_schema(&empty);
    let names: Vec<String> = cmds.iter().map(name_of).collect();
    assert_eq!(
        names,
        vec![
            "+class posts",
            "+index all_posts on posts",
            "+class tags",
            "+index all_tags on tags",
            "+index tags_by_post_id on tags"
        ]
    );
    match &cmds[4] {
        SchemaCommand::CreateIndex(d) => {
            assert_eq!(d.terms, vec![vec!["data".to_string(), "post_id".to_string()]]);
            assert_eq!(d.values.len(), 2);
        }
        _ => panic!("no index"),
    }
}

#[test]
fn ensuring_the_schema_twice_creates_nothing_the_second_time() {
    let m = Migrate::new();
    let mut schema = Schema { classes: vec!["other".to_string()], indexes: vec![] };
    let first = m.create_schema(&schema);
    run(&mut schema, &first);
    let second = m.create_schema(&schema);
    assert!(second.is_empty());
    assert_eq!(schema.classes.len(), 3);
    assert_eq!(schema.indexes.len(), 3);
}

#[test]
fn create_schema_fills_in_what_is_missing() {
    let m = Migrate::new();
    let schema = Schema { classes: vec!["posts".to_string()], indexes: vec!["all_posts".to_string()] };
    let names: Vec<String> = m.create_schema(&schema).iter().map(name_of).collect();
    assert_eq!(names, vec!["+class tags", "+index all_tags on tags", "+index tags_by_post_id on tags"]);
}

#[test]
fn delete_database_removes_only_what_exists() {
    let m = Migrate::new();
    let mut schema = Schema { classes: vec![], indexes: vec![] };
    run(&mut schema, &m.create_schema(&Schema { classes: vec![], indexes: vec![] }));
    let names: Vec<String> = m.delete_database(&schema).iter().map(name_of).collect();
    assert_eq!(
        names,
        vec!["-index tags_by_post_id", "-index all_tags", "-class tags", "-index all_posts", "-class posts"]
    );
    let partial = Schema { classes: vec!["posts".to_string()], indexes: vec![] };
    let names: Vec<String> = m.delete_database(&partial).iter().map(name_of).collect();
    assert_eq!(names, vec!["-class posts"]);
}
