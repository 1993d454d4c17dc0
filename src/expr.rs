use vstd::prelude::*;
use faunadb::expr::Expr;
use crate::migrate::SchemaCommand;
use crate::selector::Query;
use crate::value::Value;

verus! {

#[verifier::external_type_specification]
#[verifier::external_body]
pub struct ExExpr<'a>(faunadb::expr::Expr<'a>);

#[verifier::external_type_specification]
#[verifier::external_body]
pub struct ExBinding<'a>(faunadb::query::basic::Binding<'a>);

#[verifier::external_type_specification]
#[verifier::external_body]
pub struct ExTerm<'a>(faunadb::query::write::Term<'a>);

#[verifier::external_type_specification]
#[verifier::external_body]
pub struct ExIndexValue<'a>(faunadb::query::write::IndexValue<'a>);

#[verifier::external_type_specification]
#[verifier::external_body]
pub struct ExIndexParams<'a>(faunadb::query::write::IndexParams<'a>);

/// Relies on `From<String> for faunadb::expr::Expr`: a string expression.
#[verifier::external_body]
fn fauna_string(s: String) -> Expr<'static> {
    Expr::from(s)
}

/// Relies on `From<i64> for faunadb::expr::Expr`: a number expression.
#[verifier::external_body]
fn fauna_int(n: i64) -> Expr<'static> {
    Expr::from(n)
}

/// Relies on `From<bool> for faunadb::expr::Expr`: a boolean expression.
#[verifier::external_body]
fn fauna_bool(b: bool) -> Expr<'static> {
    Expr::from(b)
}

/// Relies on `faunadb::expr::Expr::null`: the null expression.
#[verifier::external_body]
fn fauna_null() -> Expr<'static> {
    Expr::null()
}

/// Relies on `From<Vec<E>> for faunadb::expr::Array`: an array of the items.
#[verifier::external_body]
fn fauna_array(items: Vec<Expr<'static>>) -> Expr<'static> {
    Expr::from(faunadb::expr::Array::from(items))
}

/// Relies on `faunadb::expr::Object`, built from a `BTreeMap`: an object of
/// the members, each key with its expression.
#[verifier::external_body]
fn fauna_object(members: Vec<(String, Expr<'static>)>) -> Expr<'static> {
    let map: std::collections::BTreeMap<std::borrow::Cow<'static, str>, Expr<'static>> = members
        .into_iter()
        .map(|(k, v)| (std::borrow::Cow::Owned(k), v))
        .collect();
    Expr::from(faunadb::expr::Object::from(map))
}

/// Relies on `faunadb::query::basic::Var::new`: a reference to a variable.
#[verifier::external_body]
fn fauna_var(name: String) -> Expr<'static> {
    Expr::from(faunadb::query::basic::Var::new(name))
}

/// Relies on `faunadb::query::misc::Index::find`: the index of that name.
#[verifier::external_body]
fn fauna_index(name: String) -> Expr<'static> {
    Expr::from(faunadb::query::misc::Index::find(name))
}

/// Relies on `faunadb::query::set::Match::new`: every entry of an index.
#[verifier::external_body]
fn fauna_match(index: Expr<'static>) -> Expr<'static> {
    Expr::from(faunadb::query::set::Match::new(index))
}

/// Relies on `faunadb::query::set::Match::with_terms`: the entries of an
/// index whose terms are `terms`.
#[verifier::external_body]
fn fauna_match_terms(index: Expr<'static>, terms: Expr<'static>) -> Expr<'static> {
    Expr::from(faunadb::query::set::Match::new(index).with_terms(terms))
}

/// Relies on `faunadb::query::read::Paginate::new`: a page of a set.
#[verifier::external_body]
fn fauna_paginate(input: Expr<'static>) -> Expr<'static> {
    Expr::from(faunadb::query::read::Paginate::new(input))
}

/// Relies on `faunadb::query::read::Get::instance`: the document referenced.
#[verifier::external_body]
fn fauna_get(reference: Expr<'static>) -> Expr<'static> {
    Expr::from(faunadb::query::read::Get::instance(reference))
}

/// Relies on `faunadb::query::read::Select::new`: what a path reads.
#[verifier::external_body]
fn fauna_select(path: Vec<String>, from: Expr<'static>) -> Expr<'static> {
    Expr::from(faunadb::query::read::Select::new(path, from))
}

/// Relies on `faunadb::query::basic::Binding::new`: a name bound to a value.
#[verifier::external_body]
fn fauna_binding(name: String, value: Expr<'static>) -> faunadb::query::basic::Binding<'static> {
    faunadb::query::basic::Binding::new(name, value)
}

/// Relies on `faunadb::query::basic::Let::bindings`: an expression evaluated
/// with the bindings in scope.
#[verifier::external_body]
fn fauna_let(bindings: Vec<faunadb::query::basic::Binding<'static>>, body: Expr<'static>) -> Expr<'static> {
    Expr::from(faunadb::query::basic::Let::bindings(bindings, body))
}

/// Relies on `faunadb::query::basic::Lambda::new`: a function of one
/// parameter.
#[verifier::external_body]
fn fauna_lambda(param: String, body: Expr<'static>) -> Expr<'static> {
    Expr::from(faunadb::query::basic::Lambda::new(param, body))
}

/// Relies on `faunadb::query::collection::Map::new`: a function applied to
/// each item of a collection.
#[verifier::external_body]
fn fauna_map(collection: Expr<'static>, lambda: Expr<'static>) -> Expr<'static> {
    Expr::from(faunadb::query::collection::Map::new(collection, lambda))
}

/// Relies on `faunadb::query::write::Term::field`: a term on a field path.
#[verifier::external_body]
fn fauna_term(path: Vec<String>) -> faunadb::query::write::Term<'static> {
    faunadb::query::write::Term::field(path)
}

/// Relies on `faunadb::query::write::IndexValue::field`: a value column on a
/// field path.
#[verifier::external_body]
fn fauna_index_value(path: Vec<String>) -> faunadb::query::write::IndexValue<'static> {
    faunadb::query::write::IndexValue::field(path)
}

/// Relies on `faunadb::query::write::IndexParams::new`: an index of that name
/// over a source.
#[verifier::external_body]
fn fauna_index_params(name: String, source: Expr<'static>) -> faunadb::query::write::IndexParams<'static> {
    faunadb::query::write::IndexParams::new(name, source)
}

/// Relies on `faunadb::query::write::IndexParams::terms`: sets the terms.
#[verifier::external_body]
fn fauna_set_terms(
    params: &mut faunadb::query::write::IndexParams<'static>,
    terms: Vec<faunadb::query::write::Term<'static>>,
) {
    params.terms(terms);
}

/// Relies on `faunadb::query::write::IndexParams::values`: sets the value
/// columns.
#[verifier::external_body]
fn fauna_set_values(
    params: &mut faunadb::query::write::IndexParams<'static>,
    values: Vec<faunadb::query::write::IndexValue<'static>>,
) {
    params.values(values);
}

/// Relies on `faunadb::query::write::CreateIndex::new`: creates the index.
#[verifier::external_body]
fn fauna_create_index(params: faunadb::query::write::IndexParams<'static>) -> Expr<'static> {
    Expr::from(faunadb::query::write::CreateIndex::new(params))
}

/// Relies on `faunadb::query::write::CreateClass::new`: creates a class of
/// that name.
#[verifier::external_body]
fn fauna_create_class(name: String) -> Expr<'static> {
    Expr::from(faunadb::query::write::CreateClass::new(faunadb::query::write::ClassParams::new(name)))
}

/// Relies on `faunadb::query::misc::Class::find`: the class of that name.
#[verifier::external_body]
fn fauna_class(name: String) -> Expr<'static> {
    Expr::from(faunadb::query::misc::Class::find(name))
}

/// Relies on `faunadb::query::write::Delete::new`: deletes what is referenced.
#[verifier::external_body]
fn fauna_delete(reference: Expr<'static>) -> Expr<'static> {
    Expr::from(faunadb::query::write::Delete::new(reference))
}

/// The store's own expression for an administrative command. An index
/// defined with no terms is created without any.
pub fn command_expr(c: SchemaCommand) -> Expr<'static> {
    match c {
        SchemaCommand::CreateClass(name) => fauna_create_class(name),
        SchemaCommand::CreateIndex(d) => {
            let mut params = fauna_index_params(d.name, fauna_class(d.class));
            if d.terms.len() > 0 {
                let mut terms: Vec<faunadb::query::write::Term<'static>> = Vec::new();
                for path in d.terms {
                    terms.push(fauna_term(path));
                }
                fauna_set_terms(&mut params, terms);
            }
            let mut values: Vec<faunadb::query::write::IndexValue<'static>> = Vec::new();
            for path in d.values {
                values.push(fauna_index_value(path));
            }
            fauna_set_values(&mut params, values);
            fauna_create_index(params)
        },
        SchemaCommand::DeleteIndex(name) => fauna_delete(fauna_index(name)),
        SchemaCommand::DeleteClass(name) => fauna_delete(fauna_class(name)),
    }
}

/// The store's own expression for a query.
pub fn query_expr(q: Query) -> Expr<'static>
    decreases q,
{
    match q {
        Query::Str(s) => fauna_string(s),
        Query::Array(items) => {
            let ghost all = items;
            let mut items = items;
            let mut out: Vec<Expr<'static>> = Vec::new();
            while items.len() > 0
                invariant
                    items@.len() <= all@.len(),
                    items@ == all@.subrange(all@.len() - items@.len(), all@.len() as int),
                    q == Query::Array(all),
                decreases items.len(),
            {
                let ghost k = all@.len() - items@.len();
                let x = items.remove(0);
                proof {
                    assert(x == all@[k]);
                    assert(decreases_to!(q => q->Array_0[k]));
                }
                out.push(query_expr(x));
                assert(items@ =~= all@.subrange(all@.len() - items@.len(), all@.len() as int));
            }
            fauna_array(out)
        },
        Query::Var(name) => fauna_var(name),
        Query::Index(name) => fauna_index(name),
        Query::Match { index, terms } => {
            let index = query_expr(*index);
            match terms {
                Some(t) => fauna_match_terms(index, query_expr(*t)),
                None => fauna_match(index),
            }
        },
        Query::Paginate(e) => fauna_paginate(query_expr(*e)),
        Query::Get(e) => fauna_get(query_expr(*e)),
        Query::Select { path, from } => fauna_select(path, query_expr(*from)),
        Query::Let { bindings, body } => {
            let ghost all = bindings;
            let mut bindings = bindings;
            let mut out: Vec<faunadb::query::basic::Binding<'static>> = Vec::new();
            while bindings.len() > 0
                invariant
                    bindings@.len() <= all@.len(),
                    bindings@ == all@.subrange(all@.len() - bindings@.len(), all@.len() as int),
                    q matches Query::Let { bindings: b, .. } && b == all,
                decreases bindings.len(),
            {
                let ghost k = all@.len() - bindings@.len();
                let b = bindings.remove(0);
                proof {
                    assert(b == all@[k]);
                    assert(decreases_to!(q => q->Let_bindings[k].value));
                }
                out.push(fauna_binding(b.name, query_expr(b.value)));
                assert(bindings@ =~= all@.subrange(all@.len() - bindings@.len(), all@.len() as int));
            }
            fauna_let(out, query_expr(*body))
        },
        Query::Lambda { param, body } => fauna_lambda(param, query_expr(*body)),
        Query::MapOver { collection, lambda } => fauna_map(query_expr(*collection), query_expr(*lambda)),
        Query::Object(entries) => {
            let ghost all = entries;
            let mut entries = entries;
            let mut out: Vec<(String, Expr<'static>)> = Vec::new();
            while entries.len() > 0
                invariant
                    entries@.len() <= all@.len(),
                    entries@ == all@.subrange(all@.len() - entries@.len(), all@.len() as int),
                    q == Query::Object(all),
                decreases entries.len(),
            {
                let ghost k = all@.len() - entries@.len();
                let e = entries.remove(0);
                proof {
                    assert(e == all@[k]);
                    assert(decreases_to!(q => q->Object_0[k].value));
                }
                out.push((e.key, query_expr(e.value)));
                assert(entries@ =~= all@.subrange(all@.len() - entries@.len(), all@.len() as int));
            }
            fauna_object(out)
        },
    }
}

/// The store's own expression for a document.
pub fn document_expr(v: &Value) -> Expr<'static>
    decreases v,
{
    match v {
        Value::Null => fauna_null(),
        Value::Bool(b) => fauna_bool(*b),
        Value::Int(n) => fauna_int(*n),
        Value::Str(s) => fauna_string(s.clone()),
        Value::Array(items) => {
            let mut out: Vec<Expr<'static>> = Vec::new();
            let mut i: usize = 0;
            while i < items.len()
                invariant
                    *v == Value::Array(*items),
                decreases items.len() - i,
            {
                proof {
                    assert(decreases_to!(*v => v->Array_0[i as int]));
                }
                out.push(document_expr(&items[i]));
                i += 1;
            }
            fauna_array(out)
        },
        Value::Object(members) => {
            let mut out: Vec<(String, Expr<'static>)> = Vec::new();
            let mut i: usize = 0;
            while i < members.len()
                invariant
                    *v == Value::Object(*members),
                decreases members.len() - i,
            {
                proof {
                    assert(decreases_to!(*v => v->Object_0[i as int].value));
                }
                out.push((members[i].key.clone(), document_expr(&members[i].value)));
                i += 1;
            }
            fauna_object(out)
        },
    }
}

} // verus!
