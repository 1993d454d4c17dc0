use vstd::prelude::*;
use vstd::string::*;
use crate::selector::{Projection, Selector, project};
use crate::value::{Json, Member, Value, member_of, select};

verus! {

/// A record was created; `location` is where it can be read.
pub struct HttpCreated {
    pub location: String,
}

/// A reply that carries a status and no body.
pub struct HttpError {
    pub status: u16,
}

/// What the HTTP layer sends back for one store call.
pub enum HttpResponse {
    Data(Value),
    Error(HttpError),
    Created(HttpCreated),
}

/// The result of one query or mutation run against the store.
pub enum StoreOutcome {
    Success(Value),
    NotFound,
    OtherFailure(String),
}

/// The kind of request that a store call serves.
#[derive(Debug, Clone, Copy, PartialEq, Eq, Structural)]
pub enum Operation {
    Create,
    Read,
    Update,
    Delete,
}

/// The status code of a response.
pub open spec fn status_of(r: HttpResponse) -> u16 {
    match r {
        HttpResponse::Data(_) => 200,
        HttpResponse::Created(_) => 201,
        HttpResponse::Error(e) => e.status,
    }
}

/// The identifier of a stored document: the string at `ref.id`.
pub open spec fn id_of(doc: Json) -> Option<Seq<char>> {
    match select(doc, seq!["ref"@, "id"@]) {
        Json::Str(s) => Some(s),
        _ => None,
    }
}

/// The status that an outcome of a call for `op` maps to.
pub open spec fn status_for(outcome: StoreOutcome, op: Operation) -> u16 {
    match outcome {
        StoreOutcome::Success(doc) => if op == Operation::Create {
            if id_of(doc@) is Some {
                201
            } else {
                500
            }
        } else {
            200
        },
        StoreOutcome::NotFound => 404,
        StoreOutcome::OtherFailure(_) => 500,
    }
}

/// The payload of one page of results: its items and both cursors.
pub open spec fn page_payload(page: Json) -> Json {
    Json::Object(
        seq![
            ("data"@, member_of(page, "data"@)),
            ("before"@, member_of(page, "before"@)),
            ("after"@, member_of(page, "after"@)),
        ],
    )
}

/// `r` is the response owed for `outcome` of a call for `op`, where a read
/// answers with the columns `ps` and a creation with a location under `base`.
pub open spec fn answers(
    r: HttpResponse,
    outcome: StoreOutcome,
    op: Operation,
    ps: Seq<Projection>,
    base: Seq<char>,
) -> bool {
    match outcome {
        StoreOutcome::Success(d) => if op == Operation::Create {
            match id_of(d@) {
                Some(id) => r matches HttpResponse::Created(c) && c.location@ == base + "/"@ + id,
                None => r matches HttpResponse::Error(e) && e.status == 500,
            }
        } else {
            r matches HttpResponse::Data(v) && v@ == project(ps, d@)
        },
        StoreOutcome::NotFound => r matches HttpResponse::Error(e) && e.status == 404,
        StoreOutcome::OtherFailure(_) => r matches HttpResponse::Error(e) && e.status == 500,
    }
}

/// `r` is the response owed for `outcome` of a listing.
pub open spec fn lists(r: HttpResponse, outcome: StoreOutcome) -> bool {
    match outcome {
        StoreOutcome::Success(page) => r matches HttpResponse::Data(v) && v@ == page_payload(page@),
        StoreOutcome::NotFound => r matches HttpResponse::Error(e) && e.status == 404,
        StoreOutcome::OtherFailure(_) => r matches HttpResponse::Error(e) && e.status == 500,
    }
}

impl HttpResponse {
    /// The status code of this response.
    pub fn status(&self) -> (r: u16)
        ensures
            r == status_of(*self),
    {
        match self {
            HttpResponse::Data(_) => 200,
            HttpResponse::Created(_) => 201,
            HttpResponse::Error(e) => e.status,
        }
    }
}

/// The response for a failure, or `None` for a success.
fn failure_response(outcome: &StoreOutcome) -> (r: Option<HttpResponse>)
    ensures
        outcome is Success <==> r is None,
        outcome is NotFound ==> r == Some(HttpResponse::Error(HttpError { status: 404 })),
        outcome is OtherFailure ==> r == Some(HttpResponse::Error(HttpError { status: 500 })),
{
    match outcome {
        StoreOutcome::Success(_) => None,
        StoreOutcome::NotFound => Some(HttpResponse::Error(HttpError { status: 404 })),
        StoreOutcome::OtherFailure(_) => Some(HttpResponse::Error(HttpError { status: 500 })),
    }
}

/// Turns the outcome of a store call for `op` into a response. A created
/// document answers with its location under `base`; a document read,
/// updated or deleted answers with the columns of `selector`; a missing one
/// with 404; any other failure with 500, and no detail of it.
pub fn map_outcome(outcome: StoreOutcome, op: Operation, selector: &Selector, base: &String) -> (r:
    HttpResponse)
    ensures
        answers(r, outcome, op, selector.fields@, base@),
        status_of(r) == status_for(outcome, op),
{
    match failure_response(&outcome) {
        Some(f) => f,
        None => {
            let doc = match outcome {
                StoreOutcome::Success(doc) => doc,
                _ => Value::Null,
            };
            if op == Operation::Create {
                let mut path: Vec<String> = Vec::new();
                path.push(String::from_str("ref"));
                path.push(String::from_str("id"));
                assert(crate::value::keys_of(path@) =~= seq!["ref"@, "id"@]);
                match doc.select(&path) {
                    Value::Str(id) => {
                        let location = base.clone().concat("/").concat(id.as_str());
                        HttpResponse::Created(HttpCreated { location })
                    },
                    _ => HttpResponse::Error(HttpError { status: 500 }),
                }
            } else {
                HttpResponse::Data(selector.project(&doc))
            }
        },
    }
}

/// Turns the outcome of a listing into a response: a page answers with its
/// items and both cursors; a missing index with 404; any other failure
/// with 500.
pub fn page_response(outcome: StoreOutcome) -> (r: HttpResponse)
    ensures
        lists(r, outcome),
        status_of(r) == status_for(outcome, Operation::Read),
{
    match outcome {
        StoreOutcome::Success(page) => {
            let data_key = String::from_str("data");
            let before_key = String::from_str("before");
            let after_key = String::from_str("after");
            let mut members: Vec<Member> = Vec::new();
            members.push(Member { value: page.get(&data_key), key: data_key });
            members.push(Member { value: page.get(&before_key), key: before_key });
            members.push(Member { value: page.get(&after_key), key: after_key });
            let r = Value::Object(members);
            assert(r@ == page_payload(page@)) by {
                if let Json::Object(a) = r@ {
                    if let Json::Object(b) = page_payload(page@) {
                        assert(a =~= b);
                    }
                }
            }
            HttpResponse::Data(r)
        },
        StoreOutcome::NotFound => HttpResponse::Error(HttpError { status: 404 }),
        StoreOutcome::OtherFailure(_) => HttpResponse::Error(HttpError { status: 500 }),
    }
}

/// Every outcome of a store call maps to one status of the table: 201 for a
/// created document that has an identifier, 200 for one read, updated or
/// deleted, 404 for a missing one, 500 for any other failure (and for a
/// created document without an identifier).
pub proof fn lemma_every_outcome_has_a_status(outcome: StoreOutcome, op: Operation)
    ensures
        status_for(outcome, op) == 200 || status_for(outcome, op) == 201 || status_for(outcome, op)
            == 404 || status_for(outcome, op) == 500,
        outcome is Success && op != Operation::Create ==> status_for(outcome, op) == 200,
        outcome is Success && op == Operation::Create && id_of(outcome->Success_0@) is Some
            ==> status_for(outcome, op) == 201,
        outcome is NotFound ==> status_for(outcome, op) == 404,
        outcome is OtherFailure ==> status_for(outcome, op) == 500,
{
}

} // verus!
