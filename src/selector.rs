use vstd::prelude::*;
use vstd::string::*;
use crate::value::{Json, Member, Value, select, keys_of};

verus! {

/// One column of a projection: the output key `name` takes what `path`
/// reads from the fetched document.
pub struct Projection {
    pub name: String,
    pub path: Vec<String>,
}

/// A read over an index: which index to scan, the term to match, and the
/// columns that each result carries.
pub struct Selector {
    pub fields: Vec<Projection>,
    pub terms: Option<Vec<String>>,
    pub index: String,
}

/// A binding of a name to an expression, as in a `let`.
pub struct LetBinding {
    pub name: String,
    pub value: Query,
}

/// One key of an object expression.
pub struct Entry {
    pub key: String,
    pub value: Query,
}

/// A query expression of the store.
pub enum Query {
    Str(String),
    Array(Vec<Query>),
    Var(String),
    Index(String),
    Match { index: Box<Query>, terms: Option<Box<Query>> },
    Paginate(Box<Query>),
    Get(Box<Query>),
    Select { path: Vec<String>, from: Box<Query> },
    Let { bindings: Vec<LetBinding>, body: Box<Query> },
    Lambda { param: String, body: Box<Query> },
    MapOver { collection: Box<Query>, lambda: Box<Query> },
    Object(Vec<Entry>),
}

/// The column that carries the document's own identifier.
pub open spec fn is_id_projection(p: Projection) -> bool {
    &&& p.name@ == "id"@
    &&& keys_of(p.path@) == seq!["ref"@, "id"@]
}

/// The column that carries `data.<field>` under the key `field`.
pub open spec fn is_data_projection(p: Projection, field: Seq<char>) -> bool {
    &&& p.name@ == field
    &&& keys_of(p.path@) == seq!["data"@, field]
}

/// The output keys of a list of columns, in order.
pub open spec fn names_of(ps: Seq<Projection>) -> Seq<Seq<char>> {
    ps.map_values(|p: Projection| p.name@)
}

/// `q` is a string expression holding `s`.
pub open spec fn is_str(q: Query, s: Seq<char>) -> bool {
    q matches Query::Str(x) && x@ == s
}

/// `q` is a reference to the variable `name`.
pub open spec fn is_var(q: Query, name: Seq<char>) -> bool {
    q matches Query::Var(x) && x@ == name
}

/// `q` is the match of `index`, narrowed by `terms` where they are given.
pub open spec fn is_match(q: Query, index: Seq<char>, terms: Option<Seq<Seq<char>>>) -> bool {
    match q {
        Query::Match { index: i, terms: t } => {
            &&& (*i matches Query::Index(n) && n@ == index)
            &&& match (t, terms) {
                (None, None) => true,
                (Some(a), Some(ts)) => match *a {
                    Query::Array(items) => items.len() == ts.len() && forall|k: int|
                        0 <= k < ts.len() ==> is_str(#[trigger] items@[k], ts[k]),
                    _ => false,
                },
                _ => false,
            }
        },
        _ => false,
    }
}

/// `q` is an object whose keys take the columns `ps` of the variable `item`.
pub open spec fn is_projection(q: Query, ps: Seq<Projection>) -> bool {
    match q {
        Query::Object(entries) => {
            &&& entries.len() == ps.len()
            &&& forall|k: int|
                0 <= k < ps.len() ==> {
                    &&& (#[trigger] entries@[k]).key@ == ps[k].name@
                    &&& match entries@[k].value {
                        Query::Select { path, from } => keys_of(path@) == keys_of(ps[k].path@)
                            && is_var(*from, "item"@),
                        _ => false,
                    }
                }
        },
        _ => false,
    }
}

/// `q` is the lambda that binds each reference to `item-ref`, fetches its
/// document as `item`, and builds the columns `ps` from it.
pub open spec fn is_item_lambda(q: Query, ps: Seq<Projection>) -> bool {
    match q {
        Query::Lambda { param, body } => {
            &&& param@ == "item-ref"@
            &&& match *body {
                Query::Let { bindings, body: out } => {
                    &&& bindings.len() == 1
                    &&& bindings@[0].name@ == "item"@
                    &&& (bindings@[0].value matches Query::Get(g) && is_var(*g, "item-ref"@))
                    &&& is_projection(*out, ps)
                },
                _ => false,
            }
        },
        _ => false,
    }
}

/// The views of optional terms.
pub open spec fn terms_of(t: Option<Vec<String>>) -> Option<Seq<Seq<char>>> {
    match t {
        Some(v) => Some(keys_of(v@)),
        None => None,
    }
}

/// `q` is the query that `s` describes: match the index (with its terms),
/// paginate, and map each reference to its projected document.
pub open spec fn is_query_for(q: Query, s: Selector) -> bool {
    match q {
        Query::MapOver { collection, lambda } => {
            &&& (*collection matches Query::Paginate(m) && is_match(*m, s.index@, terms_of(s.terms)))
            &&& is_item_lambda(*lambda, s.fields@)
        },
        _ => false,
    }
}

/// The output keys of a query built by a selector.
pub open spec fn output_keys(q: Query) -> Seq<Seq<char>> {
    match q {
        Query::MapOver { lambda, .. } => match *lambda {
            Query::Lambda { body, .. } => match *body {
                Query::Let { body: out, .. } => match *out {
                    Query::Object(entries) => entries@.map_values(|e: Entry| e.key@),
                    _ => Seq::empty(),
                },
                _ => Seq::empty(),
            },
            _ => Seq::empty(),
        },
        _ => Seq::empty(),
    }
}

/// What the columns `ps` make of a fetched document.
pub open spec fn project(ps: Seq<Projection>, item: Json) -> Json {
    Json::Object(Seq::new(ps.len(), |k: int| (ps[k].name@, select(item, keys_of(ps[k].path@)))))
}

fn strings_of(items: &[&str]) -> (r: Vec<String>)
    ensures
        r@.len() == items@.len(),
        forall|k: int| 0 <= k < items@.len() ==> (#[trigger] r@[k])@ == items@[k]@,
{
    let mut r: Vec<String> = Vec::new();
    let mut i: usize = 0;
    while i < items.len()
        invariant
            i <= items@.len(),
            r@.len() == i,
            forall|k: int| 0 <= k < i ==> (#[trigger] r@[k])@ == items@[k]@,
        decreases items@.len() - i,
    {
        r.push(String::from_str(items[i]));
        i += 1;
    }
    r
}

/// `s` reads `index`, narrowed to `term` where one is given, and its columns
/// are the identifier under `id` and then `data.<f>` under `f` for each `f`
/// of `fields`, in order.
pub open spec fn is_built(s: Selector, index: Seq<char>, term: Option<Seq<char>>, fields: Seq<Seq<char>>) -> bool {
    &&& s.index@ == index
    &&& match term {
        Some(t) => terms_of(s.terms) == Some(seq![t]),
        None => s.terms is None,
    }
    &&& s.fields@.len() == fields.len() + 1
    &&& is_id_projection(s.fields@[0])
    &&& forall|k: int| 0 <= k < fields.len() ==> is_data_projection(#[trigger] s.fields@[k + 1], fields[k])
}

/// The view of an optional term.
pub open spec fn term_of(t: Option<String>) -> Option<Seq<char>> {
    match t {
        Some(s) => Some(s@),
        None => None,
    }
}

impl Selector {
    /// The query that reads `index`, narrowed to `term` where one is given,
    /// and whose results carry the document's identifier under `id` and then
    /// each of `fields` under its own name, in the order given, and nothing
    /// else.
    pub fn build(index: &str, term: Option<String>, fields: Vec<String>) -> (r: Query)
        requires
            fields@.len() < usize::MAX,
        ensures
            output_keys(r) == seq!["id"@] + keys_of(fields@),
            exists|s: Selector| is_built(s, index@, term_of(term), keys_of(fields@)) && is_query_for(r, s),
    {
        let ghost names = fields@;
        let s = Selector::from_index(index);
        let ghost s0 = s;
        let s = s.fields(fields);
        let s = match term {
            Some(t) => {
                let mut ts: Vec<String> = Vec::new();
                ts.push(t);
                let r = s.terms(ts);
                assert(keys_of(r.terms->0@) =~= seq![term_of(term)->0]);
                r
            },
            None => s,
        };
        assert forall|k: int| 0 <= k < names.len() implies is_data_projection(
            #[trigger] s.fields@[k + 1],
            keys_of(names)[k],
        ) by {
            assert(is_data_projection(s.fields@[s0.fields@.len() + k], names[k]@));
        }
        assert forall|i: int| 0 <= i < s.fields@.len() implies #[trigger] names_of(s.fields@)[i] == (
        seq!["id"@] + keys_of(names))[i] by {
            if i > 0 {
                assert(is_data_projection(s.fields@[(i - 1) + 1], keys_of(names)[i - 1]));
            }
        }
        assert(names_of(s.fields@) =~= seq!["id"@] + keys_of(names));
        let ghost sel = s;
        let r = s.into_query();
        assert(is_built(sel, index@, term_of(term), keys_of(names)) && is_query_for(r, sel));
        r
    }

    /// A read of every entry of `index` that carries only the identifier.
    pub fn from_index(index: &str) -> (r: Selector)
        ensures
            r.index@ == index@,
            r.terms is None,
            r.fields@.len() == 1,
            is_id_projection(r.fields@[0]),
    {
        let path = strings_of(&["ref", "id"]);
        assert(keys_of(path@) =~= seq!["ref"@, "id"@]);
        let mut fields: Vec<Projection> = Vec::new();
        fields.push(Projection { name: String::from_str("id"), path });
        Selector { fields, terms: None, index: String::from_str(index) }
    }

    /// The same read, narrowed to the entries whose term is `terms`.
    pub fn terms(self, terms: Vec<String>) -> (r: Selector)
        ensures
            r.index == self.index,
            r.fields == self.fields,
            r.terms == Some(terms),
    {
        Selector { fields: self.fields, terms: Some(terms), index: self.index }
    }

    /// The same read, with one more column `data.<f>` for each `f` of `fields`,
    /// in the order given.
    pub fn fields(self, fields: Vec<String>) -> (r: Selector)
        requires
            self.fields@.len() + fields@.len() <= usize::MAX,
        ensures
            r.index == self.index,
            r.terms == self.terms,
            r.fields@.len() == self.fields@.len() + fields@.len(),
            r.fields@.subrange(0, self.fields@.len() as int) == self.fields@,
            forall|k: int|
                0 <= k < fields@.len() ==> is_data_projection(
                    #[trigger] r.fields@[self.fields@.len() + k],
                    fields@[k]@,
                ),
    {
        let Selector { fields: mut out, terms, index } = self;
        let ghost start = out@;
        let mut i: usize = 0;
        while i < fields.len()
            invariant
                i <= fields@.len(),
                out@.len() == start.len() + i,
                out@.subrange(0, start.len() as int) == start,
                start.len() + fields@.len() <= usize::MAX,
                forall|k: int|
                    0 <= k < i ==> is_data_projection(#[trigger] out@[start.len() + k], fields@[k]@),
            decreases fields@.len() - i,
        {
            let mut path: Vec<String> = Vec::new();
            path.push(String::from_str("data"));
            path.push(fields[i].clone());
            assert(keys_of(path@) =~= seq!["data"@, fields@[i as int]@]);
            out.push(Projection { name: fields[i].clone(), path });
            assert(out@.subrange(0, start.len() as int) =~= start);
            i += 1;
        }
        Selector { fields: out, terms, index }
    }

    /// The query this selector describes: the index matched (with its
    /// terms), paginated, and each reference mapped to its projected document.
    pub fn into_query(self) -> (r: Query)
        ensures
            is_query_for(r, self),
            output_keys(r) == names_of(self.fields@),
    {
        let ghost sel = self;
        let Selector { fields, terms, index } = self;
        let term_expr: Option<Box<Query>> = match terms {
            Some(ts) => {
                let mut items: Vec<Query> = Vec::new();
                let mut i: usize = 0;
                while i < ts.len()
                    invariant
                        i <= ts@.len(),
                        items@.len() == i,
                        forall|k: int| 0 <= k < i ==> is_str(#[trigger] items@[k], ts@[k]@),
                    decreases ts@.len() - i,
                {
                    items.push(Query::Str(ts[i].clone()));
                    i += 1;
                }
                Some(Box::new(Query::Array(items)))
            },
            None => None,
        };
        let match_q = Query::Match { index: Box::new(Query::Index(index)), terms: term_expr };
        let mut entries: Vec<Entry> = Vec::new();
        let mut i: usize = 0;
        while i < fields.len()
            invariant
                i <= fields@.len(),
                entries@.len() == i,
                forall|k: int|
                    0 <= k < i ==> {
                        &&& (#[trigger] entries@[k]).key@ == fields@[k].name@
                        &&& match entries@[k].value {
                            Query::Select { path, from } => keys_of(path@) == keys_of(fields@[k].path@)
                                && is_var(*from, "item"@),
                            _ => false,
                        }
                    },
            decreases fields@.len() - i,
        {
            let mut path: Vec<String> = Vec::new();
            let mut j: usize = 0;
            while j < fields[i].path.len()
                invariant
                    i < fields@.len(),
                    j <= fields@[i as int].path@.len(),
                    path@.len() == j,
                    forall|k: int| 0 <= k < j ==> (#[trigger] path@[k])@ == fields@[i as int].path@[k]@,
                decreases fields@[i as int].path@.len() - j,
            {
                path.push(fields[i].path[j].clone());
                j += 1;
            }
            assert(keys_of(path@) =~= keys_of(fields@[i as int].path@));
            let from = Box::new(Query::Var(String::from_str("item")));
            entries.push(Entry { key: fields[i].name.clone(), value: Query::Select { path, from } });
            i += 1;
        }
        let ghost keys = entries@.map_values(|e: Entry| e.key@);
        assert(keys =~= names_of(sel.fields@));
        let out = Query::Object(entries);
        let fetch = LetBinding {
            name: String::from_str("item"),
            value: Query::Get(Box::new(Query::Var(String::from_str("item-ref")))),
        };
        let mut bindings: Vec<LetBinding> = Vec::new();
        bindings.push(fetch);
        let body = Query::Let { bindings, body: Box::new(out) };
        let lambda = Query::Lambda { param: String::from_str("item-ref"), body: Box::new(body) };
        Query::MapOver { collection: Box::new(Query::Paginate(Box::new(match_q))), lambda: Box::new(lambda) }
    }

    /// What this selector's query makes of one fetched document `item`: an
    /// object with each column's key and what its path reads from `item`.
    pub fn project(&self, item: &Value) -> (r: Value)
        ensures
            r@ == project(self.fields@, item@),
    {
        let mut members: Vec<Member> = Vec::new();
        let mut i: usize = 0;
        while i < self.fields.len()
            invariant
                i <= self.fields@.len(),
                members@.len() == i,
                forall|k: int|
                    0 <= k < i ==> (#[trigger] members@[k]).key@ == self.fields@[k].name@
                        && members@[k].value@ == select(item@, keys_of(self.fields@[k].path@)),
            decreases self.fields@.len() - i,
        {
            let v = item.select(&self.fields[i].path);
            members.push(Member { key: self.fields[i].name.clone(), value: v });
            i += 1;
        }
        let r = Value::Object(members);
        assert(r@ == project(self.fields@, item@)) by {
            if let Json::Object(a) = r@ {
                assert(a =~= Seq::new(self.fields@.len(), |k: int| (self.fields@[k].name@, select(item@, keys_of(self.fields@[k].path@)))));
            }
        }
        r
    }
}

} // verus!
