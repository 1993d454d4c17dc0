use vstd::prelude::*;
use vstd::string::*;
use crate::value::keys_of;

verus! {

/// The definition of an index: its name, the class it ranges over, the
/// paths of its terms and the paths of the values that it returns.
pub struct IndexDef {
    pub name: String,
    pub class: String,
    pub terms: Vec<Vec<String>>,
    pub values: Vec<Vec<String>>,
}

/// One administrative command against the store.
pub enum SchemaCommand {
    CreateClass(String),
    CreateIndex(IndexDef),
    DeleteIndex(String),
    DeleteClass(String),
}

/// The classes and indexes that the store holds, by name.
pub struct Schema {
    pub classes: Vec<String>,
    pub indexes: Vec<String>,
}

/// The model of a schema: the set of class names and the set of index names.
pub struct SchemaState {
    pub classes: Set<Seq<char>>,
    pub indexes: Set<Seq<char>>,
}

/// Plans the creation and deletion of this application's schema.
pub struct Migrate;

impl View for Schema {
    type V = SchemaState;

    open spec fn view(&self) -> SchemaState {
        SchemaState {
            classes: Set::new(|n: Seq<char>| keys_of(self.classes@).contains(n)),
            indexes: Set::new(|n: Seq<char>| keys_of(self.indexes@).contains(n)),
        }
    }
}

/// The state after one command.
pub open spec fn step(s: SchemaState, c: SchemaCommand) -> SchemaState {
    match c {
        SchemaCommand::CreateClass(n) => SchemaState { classes: s.classes.insert(n@), indexes: s.indexes },
        SchemaCommand::CreateIndex(d) => SchemaState { classes: s.classes, indexes: s.indexes.insert(d.name@) },
        SchemaCommand::DeleteIndex(n) => SchemaState { classes: s.classes, indexes: s.indexes.remove(n@) },
        SchemaCommand::DeleteClass(n) => SchemaState { classes: s.classes.remove(n@), indexes: s.indexes },
    }
}

/// Whether the store accepts a command in state `s`: nothing is created
/// twice, an index ranges over a class that exists, and only what exists is
/// deleted.
pub open spec fn allowed(s: SchemaState, c: SchemaCommand) -> bool {
    match c {
        SchemaCommand::CreateClass(n) => !s.classes.contains(n@),
        SchemaCommand::CreateIndex(d) => !s.indexes.contains(d.name@) && s.classes.contains(d.class@),
        SchemaCommand::DeleteIndex(n) => s.indexes.contains(n@),
        SchemaCommand::DeleteClass(n) => s.classes.contains(n@),
    }
}

/// The state after running `cmds` in order from `s`.
pub open spec fn apply(s: SchemaState, cmds: Seq<SchemaCommand>) -> SchemaState
    decreases cmds.len(),
{
    if cmds.len() == 0 {
        s
    } else {
        step(apply(s, cmds.drop_last()), cmds.last())
    }
}

/// Whether the store accepts every command of `cmds`, run in order from `s`.
pub open spec fn valid(s: SchemaState, cmds: Seq<SchemaCommand>) -> bool
    decreases cmds.len(),
{
    if cmds.len() == 0 {
        true
    } else {
        valid(s, cmds.drop_last()) && allowed(apply(s, cmds.drop_last()), cmds.last())
    }
}

pub open spec fn schema_classes() -> Set<Seq<char>> {
    set!["posts"@, "tags"@]
}

pub open spec fn schema_indexes() -> Set<Seq<char>> {
    set!["all_posts"@, "all_tags"@, "tags_by_post_id"@]
}

/// The views of a list of paths.
pub open spec fn paths_of(ps: Seq<Vec<String>>) -> Seq<Seq<Seq<char>>> {
    ps.map_values(|p: Vec<String>| keys_of(p@))
}

/// `d` is one of this application's indexes, as it is defined.
pub open spec fn is_schema_index(d: IndexDef) -> bool {
    ||| {
        &&& d.name@ == "all_posts"@
        &&& d.class@ == "posts"@
        &&& paths_of(d.terms@) == Seq::<Seq<Seq<char>>>::empty()
        &&& paths_of(d.values@) == seq![seq!["ref"@, "id"@], seq!["data"@, "title"@], seq!["data"@, "age_limit"@]]
    }
    ||| {
        &&& d.name@ == "all_tags"@
        &&& d.class@ == "tags"@
        &&& paths_of(d.terms@) == Seq::<Seq<Seq<char>>>::empty()
        &&& paths_of(d.values@) == seq![seq!["ref"@, "id"@], seq!["data"@, "name"@], seq!["data"@, "post_id"@]]
    }
    ||| {
        &&& d.name@ == "tags_by_post_id"@
        &&& d.class@ == "tags"@
        &&& paths_of(d.terms@) == seq![seq!["data"@, "post_id"@]]
        &&& paths_of(d.values@) == seq![seq!["ref"@, "id"@], seq!["data"@, "name"@]]
    }
}

/// `c` creates a class, or one of this application's indexes.
pub open spec fn is_schema_creation(c: SchemaCommand) -> bool {
    match c {
        SchemaCommand::CreateClass(_) => true,
        SchemaCommand::CreateIndex(d) => is_schema_index(d),
        _ => false,
    }
}

/// `c` deletes a class or an index.
pub open spec fn is_deletion(c: SchemaCommand) -> bool {
    c is DeleteIndex || c is DeleteClass
}

/// `cmds` brings the schema of `s` up to this application's schema: the
/// store accepts every command, each creates a class or one of this
/// application's indexes, and afterwards the store holds what it held and
/// the application's classes and indexes.
pub open spec fn ensures_schema(s: SchemaState, cmds: Seq<SchemaCommand>) -> bool {
    &&& valid(s, cmds)
    &&& forall|i: int| 0 <= i < cmds.len() ==> is_schema_creation(#[trigger] cmds[i])
    &&& apply(s, cmds) == SchemaState {
        classes: s.classes.union(schema_classes()),
        indexes: s.indexes.union(schema_indexes()),
    }
}

/// `cmds` removes this application's schema from `s`: the store accepts
/// every command, each deletes, and afterwards the store holds what it held
/// but the application's classes and indexes.
pub open spec fn tears_down_schema(s: SchemaState, cmds: Seq<SchemaCommand>) -> bool {
    &&& valid(s, cmds)
    &&& forall|i: int| 0 <= i < cmds.len() ==> is_deletion(#[trigger] cmds[i])
    &&& apply(s, cmds) == SchemaState {
        classes: s.classes.difference(schema_classes()),
        indexes: s.indexes.difference(schema_indexes()),
    }
}

proof fn lemma_push(s: SchemaState, cmds: Seq<SchemaCommand>, c: SchemaCommand)
    ensures
        apply(s, cmds.push(c)) == step(apply(s, cmds), c),
        valid(s, cmds.push(c)) == (valid(s, cmds) && allowed(apply(s, cmds), c)),
{
    assert(cmds.push(c).drop_last() =~= cmds);
}

/// Whether `names` holds `name`.
fn holds(names: &Vec<String>, name: &String) -> (r: bool)
    ensures
        r == keys_of(names@).contains(name@),
{
    let mut i: usize = 0;
    while i < names.len()
        invariant
            i <= names@.len(),
            forall|k: int| 0 <= k < i ==> names@[k]@ != name@,
        decreases names@.len() - i,
    {
        if names[i] == *name {
            assert(keys_of(names@)[i as int] == name@);
            return true;
        }
        i += 1;
    }
    assert(!keys_of(names@).contains(name@)) by {
        if keys_of(names@).contains(name@) {
            let k = choose|k: int| 0 <= k < keys_of(names@).len() && keys_of(names@)[k] == name@;
            assert(names@[k]@ == name@);
        }
    }
    false
}

/// A path of two keys.
fn path(a: &str, b: &str) -> (r: Vec<String>)
    ensures
        keys_of(r@) == seq![a@, b@],
{
    let mut r: Vec<String> = Vec::new();
    r.push(String::from_str(a));
    r.push(String::from_str(b));
    assert(keys_of(r@) =~= seq![a@, b@]);
    r
}

fn all_posts() -> (r: IndexDef)
    ensures
        r.name@ == "all_posts"@,
        r.class@ == "posts"@,
        is_schema_index(r),
{
    let mut values: Vec<Vec<String>> = Vec::new();
    values.push(path("ref", "id"));
    values.push(path("data", "title"));
    values.push(path("data", "age_limit"));
    let terms: Vec<Vec<String>> = Vec::new();
    let r = IndexDef { name: String::from_str("all_posts"), class: String::from_str("posts"), terms, values };
    assert(paths_of(r.values@) =~= seq![seq!["ref"@, "id"@], seq!["data"@, "title"@], seq!["data"@, "age_limit"@]]);
    assert(paths_of(r.terms@) =~= Seq::<Seq<Seq<char>>>::empty());
    r
}

fn all_tags() -> (r: IndexDef)
    ensures
        r.name@ == "all_tags"@,
        r.class@ == "tags"@,
        is_schema_index(r),
{
    let mut values: Vec<Vec<String>> = Vec::new();
    values.push(path("ref", "id"));
    values.push(path("data", "name"));
    values.push(path("data", "post_id"));
    let terms: Vec<Vec<String>> = Vec::new();
    let r = IndexDef { name: String::from_str("all_tags"), class: String::from_str("tags"), terms, values };
    assert(paths_of(r.values@) =~= seq![seq!["ref"@, "id"@], seq!["data"@, "name"@], seq!["data"@, "post_id"@]]);
    assert(paths_of(r.terms@) =~= Seq::<Seq<Seq<char>>>::empty());
    r
}

fn tags_by_post_id() -> (r: IndexDef)
    ensures
        r.name@ == "tags_by_post_id"@,
        r.class@ == "tags"@,
        is_schema_index(r),
{
    let mut values: Vec<Vec<String>> = Vec::new();
    values.push(path("ref", "id"));
    values.push(path("data", "name"));
    let mut terms: Vec<Vec<String>> = Vec::new();
    terms.push(path("data", "post_id"));
    let r = IndexDef {
        name: String::from_str("tags_by_post_id"),
        class: String::from_str("tags"),
        terms,
        values,
    };
    assert(paths_of(r.values@) =~= seq![seq!["ref"@, "id"@], seq!["data"@, "name"@]]);
    assert(paths_of(r.terms@) =~= seq![seq!["data"@, "post_id"@]]);
    r
}

/// The names of this application's classes and indexes differ from one
/// another.
proof fn lemma_schema_names_differ()
    ensures
        "posts"@ != "tags"@,
        "all_posts"@ != "all_tags"@,
        "all_posts"@ != "tags_by_post_id"@,
        "all_tags"@ != "tags_by_post_id"@,
{
    reveal_strlit("posts");
    reveal_strlit("tags");
    reveal_strlit("all_posts");
    reveal_strlit("all_tags");
    reveal_strlit("tags_by_post_id");
    assert("posts"@.len() != "tags"@.len());
    assert("all_posts"@.len() != "all_tags"@.len());
    assert("all_posts"@.len() != "tags_by_post_id"@.len());
    assert("all_tags"@.len() != "tags_by_post_id"@.len());
}

/// Creating only adds: what a state holds, it still holds after a run of
/// creations.
proof fn lemma_creations_grow(s: SchemaState, cmds: Seq<SchemaCommand>)
    requires
        forall|i: int| 0 <= i < cmds.len() ==> is_schema_creation(#[trigger] cmds[i]),
    ensures
        s.classes.subset_of(apply(s, cmds).classes),
        s.indexes.subset_of(apply(s, cmds).indexes),
    decreases cmds.len(),
{
    if cmds.len() > 0 {
        let p = cmds.drop_last();
        assert forall|i: int| 0 <= i < p.len() implies is_schema_creation(#[trigger] p[i]) by {
            assert(p[i] == cmds[i]);
        }
        lemma_creations_grow(s, p);
        assert(is_schema_creation(cmds[cmds.len() - 1]));
    }
}

/// Ensuring the schema a second time changes nothing: where `first` brings
/// `s` up to this application's schema and `second` does the same from
/// where `first` left the store, `second` holds no command and the store
/// ends as `first` left it.
pub proof fn lemma_ensure_schema_idempotent(
    s: SchemaState,
    first: Seq<SchemaCommand>,
    second: Seq<SchemaCommand>,
)
    requires
        ensures_schema(s, first),
        ensures_schema(apply(s, first), second),
    ensures
        second.len() == 0,
        apply(apply(s, first), second) == apply(s, first),
{
    let s1 = apply(s, first);
    assert(s1.classes.union(schema_classes()) =~= s1.classes);
    assert(s1.indexes.union(schema_indexes()) =~= s1.indexes);
    if second.len() > 0 {
        let p = second.drop_last();
        let c = second.last();
        assert forall|i: int| 0 <= i < p.len() implies is_schema_creation(#[trigger] p[i]) by {
            assert(p[i] == second[i]);
        }
        lemma_creations_grow(s1, p);
        assert(is_schema_creation(second[second.len() - 1]));
        assert(allowed(apply(s1, p), c));
    }
}

/// Appends `c` to `cmds`, whose commands run from `s`.
fn append_command(cmds: &mut Vec<SchemaCommand>, c: SchemaCommand, s: Ghost<SchemaState>)
    ensures
        final(cmds)@ == old(cmds)@.push(c),
        apply(s@, final(cmds)@) == step(apply(s@, old(cmds)@), c),
        valid(s@, final(cmds)@) == (valid(s@, old(cmds)@) && allowed(apply(s@, old(cmds)@), c)),
{
    proof {
        lemma_push(s@, cmds@, c);
    }
    cmds.push(c);
}

impl Migrate {
    pub fn new() -> (r: Migrate) {
        Migrate
    }

    /// The commands that bring the store's schema `current` up to this
    /// application's: the classes `posts` and `tags` and the indexes
    /// `all_posts`, `all_tags` and `tags_by_post_id`, each created only
    /// where it is missing.
    pub fn create_schema(&self, current: &Schema) -> (r: Vec<SchemaCommand>)
        ensures
            ensures_schema(current@, r@),
    {
        let ghost s = current@;
        proof {
            lemma_schema_names_differ();
        }
        let mut cmds: Vec<SchemaCommand> = Vec::new();
        let posts = String::from_str("posts");
        let tags = String::from_str("tags");
        if !holds(&current.classes, &posts) {
            append_command(&mut cmds, SchemaCommand::CreateClass(posts), Ghost(s));
        }
        assert(valid(s, cmds@));
        assert(forall|i: int| 0 <= i < cmds@.len() ==> is_schema_creation(#[trigger] cmds@[i]));
        assert(apply(s, cmds@).classes =~= s.classes.insert("posts"@));
        assert(apply(s, cmds@).indexes =~= s.indexes);
        let ghost c1 = cmds@;
        if !holds(&current.indexes, &String::from_str("all_posts")) {
            append_command(&mut cmds, SchemaCommand::CreateIndex(all_posts()), Ghost(s));
        }
        assert(valid(s, cmds@));
        assert(forall|i: int| 0 <= i < cmds@.len() ==> is_schema_creation(#[trigger] cmds@[i]));
        assert(apply(s, cmds@).classes =~= s.classes.insert("posts"@));
        assert(apply(s, cmds@).indexes =~= s.indexes.insert("all_posts"@));
        let ghost c2 = cmds@;
        if !holds(&current.classes, &tags) {
            append_command(&mut cmds, SchemaCommand::CreateClass(tags), Ghost(s));
        }
        assert(valid(s, cmds@));
        assert(forall|i: int| 0 <= i < cmds@.len() ==> is_schema_creation(#[trigger] cmds@[i]));
        assert(apply(s, cmds@).classes =~= s.classes.insert("posts"@).insert("tags"@));
        assert(apply(s, cmds@).indexes =~= s.indexes.insert("all_posts"@));
        let ghost c3 = cmds@;
        if !holds(&current.indexes, &String::from_str("all_tags")) {
            append_command(&mut cmds, SchemaCommand::CreateIndex(all_tags()), Ghost(s));
        }
        assert(valid(s, cmds@));
        assert(forall|i: int| 0 <= i < cmds@.len() ==> is_schema_creation(#[trigger] cmds@[i]));
        assert(apply(s, cmds@).classes =~= s.classes.insert("posts"@).insert("tags"@));
        assert(apply(s, cmds@).indexes =~= s.indexes.insert("all_posts"@).insert("all_tags"@));
        let ghost c4 = cmds@;
        if !holds(&current.indexes, &String::from_str("tags_by_post_id")) {
            append_command(&mut cmds, SchemaCommand::CreateIndex(tags_by_post_id()), Ghost(s));
        }
        assert(valid(s, cmds@));
        assert(forall|i: int| 0 <= i < cmds@.len() ==> is_schema_creation(#[trigger] cmds@[i]));
        assert(apply(s, cmds@).classes =~= s.classes.union(schema_classes()));
        assert(apply(s, cmds@).indexes =~= s.indexes.union(schema_indexes()));
        cmds
    }

    /// The commands that remove this application's schema from the store's
    /// schema `current`: the indexes `tags_by_post_id` and `all_tags`, the
    /// class `tags`, the index `all_posts` and the class `posts`, in that
    /// order, each deleted only where it exists.
    pub fn delete_database(&self, current: &Schema) -> (r: Vec<SchemaCommand>)
        ensures
            tears_down_schema(current@, r@),
    {
        let ghost s = current@;
        proof {
            lemma_schema_names_differ();
        }
        let mut cmds: Vec<SchemaCommand> = Vec::new();
        let by_post = String::from_str("tags_by_post_id");
        let all_tags = String::from_str("all_tags");
        let tags = String::from_str("tags");
        let all_posts = String::from_str("all_posts");
        let posts = String::from_str("posts");
        if holds(&current.indexes, &by_post) {
            append_command(&mut cmds, SchemaCommand::DeleteIndex(by_post), Ghost(s));
        }
        assert(valid(s, cmds@));
        assert(forall|i: int| 0 <= i < cmds@.len() ==> is_deletion(#[trigger] cmds@[i]));
        assert(apply(s, cmds@).indexes =~= s.indexes.remove("tags_by_post_id"@));
        assert(apply(s, cmds@).classes =~= s.classes);
        if holds(&current.indexes, &all_tags) {
            append_command(&mut cmds, SchemaCommand::DeleteIndex(all_tags), Ghost(s));
        }
        assert(valid(s, cmds@));
        assert(forall|i: int| 0 <= i < cmds@.len() ==> is_deletion(#[trigger] cmds@[i]));
        assert(apply(s, cmds@).indexes =~= s.indexes.remove("tags_by_post_id"@).remove("all_tags"@));
        assert(apply(s, cmds@).classes =~= s.classes);
        if holds(&current.classes, &tags) {
            append_command(&mut cmds, SchemaCommand::DeleteClass(tags), Ghost(s));
        }
        assert(valid(s, cmds@));
        assert(forall|i: int| 0 <= i < cmds@.len() ==> is_deletion(#[trigger] cmds@[i]));
        assert(apply(s, cmds@).indexes =~= s.indexes.remove("tags_by_post_id"@).remove("all_tags"@));
        assert(apply(s, cmds@).classes =~= s.classes.remove("tags"@));
        if holds(&current.indexes, &all_posts) {
            append_command(&mut cmds, SchemaCommand::DeleteIndex(all_posts), Ghost(s));
        }
        assert(valid(s, cmds@));
        assert(forall|i: int| 0 <= i < cmds@.len() ==> is_deletion(#[trigger] cmds@[i]));
        assert(apply(s, cmds@).indexes =~= s.indexes.difference(schema_indexes()));
        assert(apply(s, cmds@).classes =~= s.classes.remove("tags"@));
        if holds(&current.classes, &posts) {
            append_command(&mut cmds, SchemaCommand::DeleteClass(posts), Ghost(s));
        }
        assert(valid(s, cmds@));
        assert(forall|i: int| 0 <= i < cmds@.len() ==> is_deletion(#[trigger] cmds@[i]));
        assert(apply(s, cmds@).indexes =~= s.indexes.difference(schema_indexes()));
        assert(apply(s, cmds@).classes =~= s.classes.difference(schema_classes()));
        cmds
    }
}

} // verus!
