use vstd::prelude::*;

verus! {

/// A document as the store hands it out or takes it in: a JSON-like tree.
pub enum Value {
    Null,
    Bool(bool),
    Int(i64),
    Str(String),
    Array(Vec<Value>),
    Object(Vec<Member>),
}

/// One key of an object, with its value.
pub struct Member {
    pub key: String,
    pub value: Value,
}

/// The mathematical model of a document.
pub enum Json {
    Null,
    Bool(bool),
    Int(int),
    Str(Seq<char>),
    Array(Seq<Json>),
    Object(Seq<(Seq<char>, Json)>),
}

impl Value {
    pub open spec fn view(&self) -> Json
        decreases self,
    {
        match self {
            Value::Null => Json::Null,
            Value::Bool(b) => Json::Bool(*b),
            Value::Int(n) => Json::Int(*n as int),
            Value::Str(s) => Json::Str(s@),
            Value::Array(items) => Json::Array(
                Seq::new(
                    items.len() as nat,
                    |i: int|
                        if 0 <= i < items.len() {
                            items[i].view()
                        } else {
                            Json::Null
                        },
                ),
            ),
            Value::Object(members) => Json::Object(
                Seq::new(
                    members.len() as nat,
                    |i: int|
                        if 0 <= i < members.len() {
                            (members[i].key@, members[i].value.view())
                        } else {
                            (Seq::empty(), Json::Null)
                        },
                ),
            ),
        }
    }
}

/// The value of the first member at or after position `i` whose key is `key`.
pub open spec fn find_from(members: Seq<(Seq<char>, Json)>, key: Seq<char>, i: int) -> Option<Json>
    decreases members.len() - i,
{
    if i < 0 || i >= members.len() {
        None
    } else if members[i].0 == key {
        Some(members[i].1)
    } else {
        find_from(members, key, i + 1)
    }
}

/// What `v[key]` reads: the first member's value, or `Null` where `v` is no
/// object or has no such key.
pub open spec fn member_of(v: Json, key: Seq<char>) -> Json {
    match v {
        Json::Object(members) => match find_from(members, key, 0) {
            Some(x) => x,
            None => Json::Null,
        },
        _ => Json::Null,
    }
}

/// What a path of keys reads from `v`, one key after the other.
pub open spec fn select(v: Json, path: Seq<Seq<char>>) -> Json
    decreases path.len(),
{
    if path.len() == 0 {
        v
    } else {
        select(member_of(v, path[0]), path.drop_first())
    }
}

/// The views of a sequence of strings.
pub open spec fn keys_of(path: Seq<String>) -> Seq<Seq<char>> {
    path.map_values(|s: String| s@)
}

impl Value {
    /// A copy of the whole tree.
    pub fn deep_clone(&self) -> (r: Value)
        ensures
            r@ == self@,
        decreases self,
    {
        match self {
            Value::Null => Value::Null,
            Value::Bool(b) => Value::Bool(*b),
            Value::Int(n) => Value::Int(*n),
            Value::Str(s) => Value::Str(s.clone()),
            Value::Array(items) => {
                let mut out: Vec<Value> = Vec::new();
                let mut i: usize = 0;
                while i < items.len()
                    invariant
                        i <= items.len(),
                        *self == Value::Array(*items),
                        out.len() == i,
                        forall|k: int| 0 <= k < i ==> (#[trigger] out@[k])@ == items@[k]@,
                    decreases items.len() - i,
                {
                    proof {
                        assert(decreases_to!(*self => self->Array_0[i as int]));
                    }
                    let x = items[i].deep_clone();
                    out.push(x);
                    i += 1;
                }
                let r = Value::Array(out);
                assert(r@ == self@) by {
                    if let Json::Array(a) = r@ {
                        if let Json::Array(b) = self@ {
                            assert(a =~= b);
                        }
                    }
                }
                r
            },
            Value::Object(members) => {
                let mut out: Vec<Member> = Vec::new();
                let mut i: usize = 0;
                while i < members.len()
                    invariant
                        i <= members.len(),
                        *self == Value::Object(*members),
                        out.len() == i,
                        forall|k: int| 0 <= k < i ==> (#[trigger] out@[k]).key@ == members@[k].key@
                            && out@[k].value@ == members@[k].value@,
                    decreases members.len() - i,
                {
                    proof {
                        assert(decreases_to!(*self => self->Object_0[i as int].value));
                    }
                    let m = Member { key: members[i].key.clone(), value: members[i].value.deep_clone() };
                    out.push(m);
                    i += 1;
                }
                let r = Value::Object(out);
                assert(r@ == self@) by {
                    if let Json::Object(a) = r@ {
                        if let Json::Object(b) = self@ {
                            assert(a =~= b);
                        }
                    }
                }
                r
            },
        }
    }

    /// What `self[key]` reads: a copy of the first member named `key`, or
    /// `Null` where there is none or `self` is no object.
    pub fn get(&self, key: &String) -> (r: Value)
        ensures
            r@ == member_of(self@, key@),
    {
        match self {
            Value::Object(members) => {
                let ghost ms = match self@ {
                    Json::Object(ms) => ms,
                    _ => Seq::empty(),
                };
                assert(ms.len() == members.len());
                let mut i: usize = 0;
                while i < members.len()
                    invariant
                        i <= members.len(),
                        ms.len() == members.len(),
                        self@ == Json::Object(ms),
                        forall|k: int| 0 <= k < members.len() ==> #[trigger] ms[k] == (members@[k].key@, members@[k].value@),
                        find_from(ms, key@, 0) == find_from(ms, key@, i as int),
                    decreases members.len() - i,
                {
                    if members[i].key == *key {
                        return members[i].value.deep_clone();
                    }
                    i += 1;
                }
                Value::Null
            },
            _ => Value::Null,
        }
    }

    /// What a path of keys reads from `self`.
    pub fn select(&self, path: &Vec<String>) -> (r: Value)
        ensures
            r@ == select(self@, keys_of(path@)),
    {
        let mut cur = self.deep_clone();
        let mut i: usize = 0;
        assert(keys_of(path@).subrange(0, path@.len() as int) =~= keys_of(path@));
        while i < path.len()
            invariant
                i <= path.len(),
                select(self@, keys_of(path@)) == select(cur@, keys_of(path@).subrange(i as int, path@.len() as int)),
            decreases path.len() - i,
        {
            let ghost rest = keys_of(path@).subrange(i as int, path@.len() as int);
            assert(rest.drop_first() =~= keys_of(path@).subrange(i + 1, path@.len() as int));
            cur = cur.get(&path[i]);
            i += 1;
        }
        assert(keys_of(path@).subrange(i as int, path@.len() as int) =~= Seq::<Seq<char>>::empty());
        cur
    }
}

} // verus!
