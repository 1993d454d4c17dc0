use vstd::prelude::*;
use vstd::string::*;
use crate::error::Error;
use crate::misc::{HttpResponse, Operation, StoreOutcome, answers, lists, map_outcome, page_response};
use crate::selector::{Query, Selector, is_data_projection, is_id_projection, is_query_for};
use crate::value::{Json, Member, Value, find_from, member_of};

verus! {

/// The resource that serves posts.
pub struct Post;

/// The body of a post.
pub struct PostData {
    pub title: String,
    pub age_limit: u16,
}

impl View for PostData {
    type V = (Seq<char>, u16);

    open spec fn view(&self) -> (Seq<char>, u16) {
        (self.title@, self.age_limit)
    }
}

/// The document that holds a post's fields.
pub open spec fn post_json(post: (Seq<char>, u16)) -> Json {
    Json::Object(seq![("title"@, Json::Str(post.0)), ("age_limit"@, Json::Int(post.1 as int))])
}

/// The post that a document holds: a string `title` and an integer
/// `age_limit` that fits in 16 bits; `None` where it holds no such post.
pub open spec fn post_of(v: Json) -> Option<(Seq<char>, u16)> {
    match (member_of(v, "title"@), member_of(v, "age_limit"@)) {
        (Json::Str(t), Json::Int(n)) => if 0 <= n <= u16::MAX {
            Some((t, n as u16))
        } else {
            None
        },
        _ => None,
    }
}

/// The read that lists posts: every entry of `all_posts`, with the
/// identifier, `title` and `age_limit` of each.
pub open spec fn is_post_selector(s: Selector) -> bool {
    &&& s.index@ == "all_posts"@
    &&& s.terms is None
    &&& s.fields@.len() == 3
    &&& is_id_projection(s.fields@[0])
    &&& is_data_projection(s.fields@[1], "title"@)
    &&& is_data_projection(s.fields@[2], "age_limit"@)
}

/// Where created posts are found.
pub open spec fn posts_base() -> Seq<char> {
    "http://localhost:8080/posts"@
}

impl PostData {
    /// The document that stores this post.
    pub fn to_document(&self) -> (r: Value)
        ensures
            r@ == post_json(self@),
    {
        let mut members: Vec<Member> = Vec::new();
        members.push(Member { key: String::from_str("title"), value: Value::Str(self.title.clone()) });
        members.push(Member { key: String::from_str("age_limit"), value: Value::Int(self.age_limit as i64) });
        let r = Value::Object(members);
        assert(r@ == post_json(self@)) by {
            if let Json::Object(a) = r@ {
                if let Json::Object(b) = post_json(self@) {
                    assert(a.len() == 2);
                    assert(members@[0].key@ == "title"@);
                    assert(members@[0].value@ == Json::Str(self.title@));
                    assert(a[0] == b[0]);
                    assert(members@[1].key@ == "age_limit"@);
                    assert(members@[1].value@ == Json::Int(self.age_limit as int));
                    assert(a[1] == b[1]);
                    assert(a =~= b);
                }
            }
        }
        r
    }

    /// The post that a document holds, or `Error::Conversion` where a field
    /// is missing or of the wrong type.
    pub fn from_document(v: &Value) -> (r: Result<PostData, Error>)
        ensures
            match r {
                Ok(p) => post_of(v@) == Some(p@),
                Err(e) => e == Error::Conversion && post_of(v@) is None,
            },
    {
        let title = v.get(&String::from_str("title"));
        let age = v.get(&String::from_str("age_limit"));
        match (title, age) {
            (Value::Str(t), Value::Int(n)) => {
                if 0 <= n && n <= 65535 {
                    Ok(PostData { title: t, age_limit: n as u16 })
                } else {
                    Err(Error::Conversion)
                }
            },
            _ => Err(Error::Conversion),
        }
    }

    /// The post that a stored document holds under `data`.
    pub fn from_resource(resource: &Value) -> (r: Result<PostData, Error>)
        ensures
            match r {
                Ok(p) => post_of(member_of(resource@, "data"@)) == Some(p@),
                Err(e) => e == Error::Conversion && post_of(member_of(resource@, "data"@)) is None,
            },
    {
        let data = resource.get(&String::from_str("data"));
        PostData::from_document(&data)
    }
}

/// A post survives a trip through its document: decoding what `to_document`
/// makes gives the same title and age limit back.
pub proof fn lemma_post_round_trip(post: (Seq<char>, u16))
    ensures
        post_of(post_json(post)) == Some(post),
{
    reveal_strlit("title");
    reveal_strlit("age_limit");
    assert("title"@ != "age_limit"@) by {
        assert("title"@.len() != "age_limit"@.len());
    }
    let ms = seq![("title"@, Json::Str(post.0)), ("age_limit"@, Json::Int(post.1 as int))];
    assert(find_from(ms, "title"@, 0) == Some(Json::Str(post.0)));
    assert(find_from(ms, "age_limit"@, 1) == Some(Json::Int(post.1 as int)));
    assert(find_from(ms, "age_limit"@, 0) == Some(Json::Int(post.1 as int)));
}

impl Post {
    /// The read that lists posts.
    pub fn selector() -> (r: Selector)
        ensures
            is_post_selector(r),
    {
        let mut fields: Vec<String> = Vec::new();
        fields.push(String::from_str("title"));
        fields.push(String::from_str("age_limit"));
        let ghost names = fields@;
        let s = Selector::from_index("all_posts");
        let ghost s0 = s;
        let r = s.fields(fields);
        assert(is_data_projection(r.fields@[s0.fields@.len() + 0int], names[0]@));
        assert(is_data_projection(r.fields@[s0.fields@.len() + 1int], names[1]@));
        r
    }

    /// The query that lists posts.
    pub fn index_query() -> (r: Query)
        ensures
            exists|s: Selector| is_post_selector(s) && is_query_for(r, s),
    {
        Post::selector().into_query()
    }

    /// The response to a listing of posts.
    pub fn index_response(outcome: StoreOutcome) -> (r: HttpResponse)
        ensures
            lists(r, outcome),
    {
        page_response(outcome)
    }

    /// The response to the creation of a post: its location, or the failure.
    pub fn create_response(outcome: StoreOutcome) -> (r: HttpResponse)
        ensures
            exists|s: Selector| answers(r, outcome, Operation::Create, s.fields@, posts_base()),
    {
        let base = String::from_str("http://localhost:8080/posts");
        let s = Post::selector();
        map_outcome(outcome, Operation::Create, &s, &base)
    }

    /// The response to a read, an update or a deletion of one post: its
    /// identifier, title and age limit, or the failure.
    pub fn record_response(outcome: StoreOutcome, op: Operation) -> (r: HttpResponse)
        requires
            op != Operation::Create,
        ensures
            exists|s: Selector| is_post_selector(s) && answers(r, outcome, op, s.fields@, posts_base()),
    {
        let base = String::from_str("http://localhost:8080/posts");
        let s = Post::selector();
        map_outcome(outcome, op, &s, &base)
    }
}

} // verus!
