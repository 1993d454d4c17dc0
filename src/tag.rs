use vstd::prelude::*;
use vstd::string::*;
use crate::error::Error;
use crate::misc::{
    HttpError, HttpResponse, Operation, StoreOutcome, answers, lists, map_outcome, page_response,
};
use crate::selector::{Query, Selector, is_data_projection, is_id_projection, is_query_for};
use crate::value::{Json, Member, Value, find_from, member_of};

verus! {

/// The resource that serves the tags of a post.
pub struct Tag;

/// The body of a tag.
pub struct TagData {
    pub name: String,
}

impl View for TagData {
    type V = Seq<char>;

    open spec fn view(&self) -> Seq<char> {
        self.name@
    }
}

/// What a tag request does next.
pub enum TagStep {
    /// Answer at once: the parent post is missing or could not be read.
    Respond(HttpResponse),
    /// Run this listing query.
    List(Query),
    /// Create this tag document.
    Create(Value),
}

/// The document that stores a tag named `name` under the post `post_id`.
pub open spec fn tag_json(post_id: Seq<char>, name: Seq<char>) -> Json {
    Json::Object(seq![("post_id"@, Json::Str(post_id)), ("name"@, Json::Str(name))])
}

/// The tag name that a document holds under `name`, if it is a string.
pub open spec fn tag_of(v: Json) -> Option<Seq<char>> {
    match member_of(v, "name"@) {
        Json::Str(n) => Some(n),
        _ => None,
    }
}

/// The read that lists the tags of `post_id`: the entries of
/// `tags_by_post_id` whose term is `post_id`, with the identifier and name
/// of each.
pub open spec fn is_tag_selector(s: Selector, post_id: Seq<char>) -> bool {
    &&& s.index@ == "tags_by_post_id"@
    &&& s.terms matches Some(t) && t@.len() == 1 && t@[0]@ == post_id
    &&& s.fields@.len() == 2
    &&& is_id_projection(s.fields@[0])
    &&& is_data_projection(s.fields@[1], "name"@)
}

/// Where the tags of `post_id` are found.
pub open spec fn tags_base(post_id: Seq<char>) -> Seq<char> {
    "http://localhost:8080/posts/"@ + post_id + "/tags"@
}

/// The answer for a parent post that could not be read.
pub open spec fn parent_failure(parent: StoreOutcome, step: TagStep) -> bool {
    match parent {
        StoreOutcome::NotFound => step matches TagStep::Respond(HttpResponse::Error(e)) && e.status == 404,
        StoreOutcome::OtherFailure(_) => step matches TagStep::Respond(HttpResponse::Error(e))
            && e.status == 500,
        StoreOutcome::Success(_) => false,
    }
}

impl TagData {
    /// The tag that a document holds, or `Error::Conversion` where `name` is
    /// missing or no string.
    pub fn from_document(v: &Value) -> (r: Result<TagData, Error>)
        ensures
            match r {
                Ok(t) => tag_of(v@) == Some(t@),
                Err(e) => e == Error::Conversion && tag_of(v@) is None,
            },
    {
        match v.get(&String::from_str("name")) {
            Value::Str(n) => Ok(TagData { name: n }),
            _ => Err(Error::Conversion),
        }
    }

    /// The document that stores this tag under the post `post_id`.
    pub fn to_document(&self, post_id: &String) -> (r: Value)
        ensures
            r@ == tag_json(post_id@, self@),
    {
        let mut members: Vec<Member> = Vec::new();
        members.push(Member { key: String::from_str("post_id"), value: Value::Str(post_id.clone()) });
        members.push(Member { key: String::from_str("name"), value: Value::Str(self.name.clone()) });
        let r = Value::Object(members);
        assert(r@ == tag_json(post_id@, self@)) by {
            if let Json::Object(a) = r@ {
                if let Json::Object(b) = tag_json(post_id@, self@) {
                    assert(members@[0].key@ == "post_id"@);
                    assert(members@[0].value@ == Json::Str(post_id@));
                    assert(a[0] == b[0]);
                    assert(members@[1].key@ == "name"@);
                    assert(members@[1].value@ == Json::Str(self@));
                    assert(a[1] == b[1]);
                    assert(a =~= b);
                }
            }
        }
        r
    }
}

/// A tag survives a trip through its document: decoding what `to_document`
/// makes gives the same name back.
pub proof fn lemma_tag_round_trip(post_id: Seq<char>, name: Seq<char>)
    ensures
        tag_of(tag_json(post_id, name)) == Some(name),
{
    reveal_strlit("post_id");
    reveal_strlit("name");
    assert("post_id"@ != "name"@) by {
        assert("post_id"@.len() != "name"@.len());
    }
    let ms = seq![("post_id"@, Json::Str(post_id)), ("name"@, Json::Str(name))];
    assert(find_from(ms, "name"@, 1) == Some(Json::Str(name)));
    assert(find_from(ms, "name"@, 0) == Some(Json::Str(name)));
}

/// The response for a parent post that could not be read.
fn parent_failure_step(parent: &StoreOutcome) -> (r: Option<TagStep>)
    ensures
        parent is Success <==> r is None,
        r matches Some(step) ==> parent_failure(*parent, step),
{
    match parent {
        StoreOutcome::Success(_) => None,
        StoreOutcome::NotFound => Some(TagStep::Respond(HttpResponse::Error(HttpError { status: 404 }))),
        StoreOutcome::OtherFailure(_) => Some(
            TagStep::Respond(HttpResponse::Error(HttpError { status: 500 })),
        ),
    }
}

impl Tag {
    /// The read that lists the tags of `post_id`.
    pub fn selector(post_id: &String) -> (r: Selector)
        ensures
            is_tag_selector(r, post_id@),
    {
        let mut fields: Vec<String> = Vec::new();
        fields.push(String::from_str("name"));
        let ghost names = fields@;
        let mut terms: Vec<String> = Vec::new();
        terms.push(post_id.clone());
        let s = Selector::from_index("tags_by_post_id");
        let ghost s0 = s;
        let r = s.fields(fields);
        assert(is_data_projection(r.fields@[s0.fields@.len() + 0int], names[0]@));
        r.terms(terms)
    }

    /// What listing the tags of `post_id` does, once the parent post has been
    /// looked up with `parent` as outcome: run the listing where the post
    /// exists, else answer 404 (missing) or 500 (any other failure).
    pub fn index_step(parent: StoreOutcome, post_id: &String) -> (r: TagStep)
        ensures
            parent is Success ==> (r matches TagStep::List(q) && exists|s: Selector|
                is_tag_selector(s, post_id@) && is_query_for(q, s)),
            !(parent is Success) ==> parent_failure(parent, r),
    {
        match parent_failure_step(&parent) {
            Some(step) => step,
            None => TagStep::List(Tag::selector(post_id).into_query()),
        }
    }

    /// The response to a listing of tags.
    pub fn index_response(outcome: StoreOutcome) -> (r: HttpResponse)
        ensures
            lists(r, outcome),
    {
        page_response(outcome)
    }

    /// What creating the tag `body` under `post_id` does, once the parent post
    /// has been looked up with `parent` as outcome: create the tag document
    /// where the post exists, else answer 404 (missing) or 500 (any other
    /// failure) and create nothing.
    pub fn create_step(parent: StoreOutcome, post_id: &String, body: &TagData) -> (r: TagStep)
        ensures
            parent is Success ==> (r matches TagStep::Create(doc) && doc@ == tag_json(post_id@, body@)),
            !(parent is Success) ==> parent_failure(parent, r),
    {
        match parent_failure_step(&parent) {
            Some(step) => step,
            None => TagStep::Create(body.to_document(post_id)),
        }
    }

    /// The response to the creation of a tag under `post_id`: its location,
    /// or the failure.
    pub fn create_response(outcome: StoreOutcome, post_id: &String) -> (r: HttpResponse)
        ensures
            exists|s: Selector| answers(r, outcome, Operation::Create, s.fields@, tags_base(post_id@)),
    {
        let base = String::from_str("http://localhost:8080/posts/").concat(post_id.as_str()).concat(
            "/tags",
        );
        let s = Tag::selector(post_id);
        map_outcome(outcome, Operation::Create, &s, &base)
    }
}

} // verus!
