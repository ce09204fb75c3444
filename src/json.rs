//! A JSON document as a tree of plain values, and the field lookup that the
//! response decoders are stated over.
use vstd::prelude::*;

verus! {

/// A JSON value.
#[derive(Debug)]
pub enum Json {
    Null,
    Bool(bool),
    /// A number, kept as the text that writes it (`1`, `0.25`).
    Number(String),
    Str(String),
    Array(Vec<Json>),
    Object(Vec<Member>),
}

/// One key and its value inside a JSON object.
#[derive(Debug)]
pub struct Member {
    pub key: String,
    pub value: Json,
}

impl Json {
    /// A copy of the tree.
    pub fn copy(&self) -> (r: Json)
        decreases self,
    {
        match self {
            Json::Null => Json::Null,
            Json::Bool(b) => Json::Bool(*b),
            Json::Number(t) => Json::Number(t.clone()),
            Json::Str(t) => Json::Str(t.clone()),
            Json::Array(items) => {
                let mut out: Vec<Json> = Vec::new();
                let mut i: usize = 0;
                while i < items.len()
                    invariant
                        i <= items@.len(),
                        *self == Json::Array(*items),
                    decreases items@.len() - i,
                {
                    proof {
                        vstd::std_specs::vec::axiom_vec_index_decreases(*items, i as int);
                        assert(decreases_to!(*self => (*self)->Array_0));
                    }
                    out.push(items[i].copy());
                    i += 1;
                }
                Json::Array(out)
            },
            Json::Object(members) => {
                let mut out: Vec<Member> = Vec::new();
                let mut i: usize = 0;
                while i < members.len()
                    invariant
                        i <= members@.len(),
                        *self == Json::Object(*members),
                    decreases members@.len() - i,
                {
                    proof {
                        vstd::std_specs::vec::axiom_vec_index_decreases(*members, i as int);
                        assert(decreases_to!(*self => (*self)->Object_0));
                        let m = members[i as int];
                        assert(decreases_to!(m => m.value));
                    }
                    let m = &members[i];
                    out.push(Member { key: m.key.clone(), value: m.value.copy() });
                    i += 1;
                }
                Json::Object(out)
            },
        }
    }
}

impl Clone for Json {
    fn clone(&self) -> Self {
        self.copy()
    }
}

impl Clone for Member {
    fn clone(&self) -> Self {
        Member { key: self.key.clone(), value: self.value.copy() }
    }
}

/// The value that an object's members hold under `key`; where a key occurs
/// more than once the last occurrence counts.
pub open spec fn lookup(members: Seq<Member>, key: Seq<char>) -> Option<Json>
    decreases members.len(),
{
    if members.len() == 0 {
        None
    } else if members.last().key@ == key {
        Some(members.last().value)
    } else {
        lookup(members.drop_last(), key)
    }
}

/// The value of field `key` when `j` is an object; `None` otherwise.
pub open spec fn field(j: Json, key: Seq<char>) -> Option<Json> {
    match j {
        Json::Object(ms) => lookup(ms@, key),
        _ => None,
    }
}

/// No name occurs twice in `names`.
pub open spec fn distinct_names(names: Seq<&str>) -> bool {
    forall|i: int, j: int| 0 <= i < j < names.len() ==> names[i]@ != names[j]@
}

/// Whether `key` spells `name`.
pub fn key_is(key: &String, name: &str) -> (r: bool)
    ensures
        r == (key@ == name@),
{
    let other = String::from_str(name);
    key.eq(&other)
}

/// The position of `key` among `names`, if it is there.
fn position_of(key: &String, names: &Vec<&str>) -> (r: Option<usize>)
    ensures
        match r {
            Some(j) => j < names@.len() && names@[j as int]@ == key@,
            None => forall|j: int| 0 <= j < names@.len() ==> names@[j]@ != key@,
        },
{
    let mut j: usize = 0;
    while j < names.len()
        invariant
            j <= names@.len(),
            forall|i: int| 0 <= i < j ==> names@[i]@ != key@,
        decreases names@.len() - j,
    {
        if key_is(key, names[j]) {
            return Some(j);
        }
        j += 1;
    }
    None
}

/// Takes an object's members apart into the values of the named fields, in
/// the order of `names`; members under other keys are dropped.
pub fn take_fields(members: Vec<Member>, names: &Vec<&str>) -> (r: Vec<Option<Json>>)
    requires
        distinct_names(names@),
    ensures
        r@.len() == names@.len(),
        forall|j: int| 0 <= j < names@.len() ==> r@[j] == lookup(members@, names@[j]@),
{
    let mut r: Vec<Option<Json>> = Vec::new();
    let mut j: usize = 0;
    while j < names.len()
        invariant
            j <= names@.len(),
            r@.len() == j,
            forall|i: int| 0 <= i < j ==> r@[i] is None,
        decreases names@.len() - j,
    {
        r.push(None);
        j += 1;
    }
    let ghost all = members@;
    let mut rest = members;
    let ghost mut done: int = 0;
    while rest.len() > 0
        invariant
            0 <= done <= all.len(),
            rest@ == all.skip(done),
            r@.len() == names@.len(),
            distinct_names(names@),
            forall|i: int| 0 <= i < names@.len() ==> r@[i] == lookup(all.take(done), names@[i]@),
        decreases rest@.len(),
    {
        let m = rest.remove(0);
        let pos = position_of(&m.key, names);
        proof {
            assert(m == all[done]);
            assert(all.take(done + 1).drop_last() =~= all.take(done));
            assert(all.take(done + 1).last() == all[done]);
        }
        if let Some(p) = pos {
            r.set(p, Some(m.value));
        }
        proof {
            done = done + 1;
            assert(rest@ =~= all.skip(done));
        }
    }
    proof {
        assert(all.take(done) =~= all);
    }
    r
}

/// Removes and returns the last of the values that `take_fields` produced.
pub fn next_field(fields: &mut Vec<Option<Json>>) -> (r: Option<Json>)
    requires
        old(fields)@.len() > 0,
    ensures
        r == old(fields)@.last(),
        final(fields)@ == old(fields)@.drop_last(),
{
    match fields.pop() {
        Some(v) => v,
        None => None,
    }
}

} // verus!
