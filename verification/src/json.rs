//! JSON documents and their mathematical model.

use vstd::prelude::*;
use crate::text::same_text;

verus! {

/// Mathematical model of a JSON number: an integer, or the decimal text of a number that is
/// not one.
pub enum JsonNumber {
    Int(int),
    Real(Seq<char>),
}

/// Mathematical model of a JSON document. An object is the sequence of its members in the
/// order in which it holds them. A document that is read from a text holds them in the order
/// in which the parser's map hands them out, which goes by name and not by the text.
pub enum JsonValue {
    Null,
    Bool(bool),
    Number(JsonNumber),
    String(Seq<char>),
    Array(Seq<JsonValue>),
    Object(Seq<(Seq<char>, JsonValue)>),
}

/// The members of an object, in the order in which the object holds them.
pub type Members = Seq<(Seq<char>, JsonValue)>;

/// A JSON number.
#[derive(Debug, PartialEq, Eq)]
pub enum Number {
    /// An integer from 0 to 2^64 - 1.
    Unsigned(u64),
    /// An integer below 0.
    Negative(i64),
    /// The decimal text of any other number.
    Real(String),
}

/// A JSON document of any shape. It carries whatever the schema does not model.
#[derive(Debug, PartialEq, Eq)]
pub enum Json {
    Null,
    Bool(bool),
    Number(Number),
    String(String),
    Array(Vec<Json>),
    Object(Vec<(String, Json)>),
}

impl DeepView for Number {
    type V = JsonNumber;

    open spec fn deep_view(&self) -> JsonNumber {
        match self {
            Number::Unsigned(n) => JsonNumber::Int(*n as int),
            Number::Negative(n) => JsonNumber::Int(*n as int),
            Number::Real(text) => JsonNumber::Real(text@),
        }
    }
}

impl View for Number {
    type V = JsonNumber;

    open spec fn view(&self) -> JsonNumber {
        self.deep_view()
    }
}

impl DeepView for Json {
    type V = JsonValue;

    open spec fn deep_view(&self) -> JsonValue
        decreases self,
    {
        match self {
            Json::Null => JsonValue::Null,
            Json::Bool(b) => JsonValue::Bool(*b),
            Json::Number(n) => JsonValue::Number(n.deep_view()),
            Json::String(s) => JsonValue::String(s@),
            Json::Array(items) => JsonValue::Array(
                Seq::new(
                    items@.len(),
                    |i: int|
                        if 0 <= i < items@.len() {
                            items@[i].deep_view()
                        } else {
                            JsonValue::Null
                        },
                ),
            ),
            Json::Object(members) => JsonValue::Object(
                Seq::new(
                    members@.len(),
                    |i: int|
                        if 0 <= i < members@.len() {
                            member_view(members@[i])
                        } else {
                            (Seq::empty(), JsonValue::Null)
                        },
                ),
            ),
        }
    }
}

/// The model of one member of an object: its name and the model of its value.
pub open spec fn member_view(member: (String, Json)) -> (Seq<char>, JsonValue)
    decreases member,
{
    (member.0@, member.1.deep_view())
}

impl View for Json {
    type V = JsonValue;

    open spec fn view(&self) -> JsonValue {
        self.deep_view()
    }
}

/// The model of an object's members is the model of each member, in order.
pub proof fn lemma_object_view(members: Vec<(String, Json)>)
    ensures
        Json::Object(members)@ == JsonValue::Object(members.deep_view()),
{
    assert(Json::Object(members).deep_view() is Object);
    assert(Json::Object(members)@ is Object);
    let direct = Json::Object(members)@->Object_0;
    let deep = members.deep_view();
    assert(direct.len() == deep.len());
    assert forall|i: int| 0 <= i < direct.len() implies direct[i] == deep[i] by {
        assert(direct[i] == member_view(members@[i]));
        assert(deep[i] == members@[i].deep_view());
    }
    assert(direct =~= deep);
}

impl Clone for Number {
    fn clone(&self) -> (r: Self)
        ensures
            r@ == self@,
    {
        match self {
            Number::Unsigned(n) => Number::Unsigned(*n),
            Number::Negative(n) => Number::Negative(*n),
            Number::Real(text) => Number::Real(text.clone()),
        }
    }
}

/// A copy of each member, in order.
pub fn clone_members(members: &Vec<(String, Json)>) -> (r: Vec<(String, Json)>)
    ensures
        r.deep_view() == members.deep_view(),
    decreases members,
{
    let mut out: Vec<(String, Json)> = Vec::new();
    let mut i: usize = 0;
    while i < members.len()
        invariant
            i <= members.len(),
            out@.len() == i,
            forall|k: int| 0 <= k < i ==> out@[k].deep_view() == members@[k].deep_view(),
        decreases members.len() - i,
    {
        let name = members[i].0.clone();
        let value = members[i].1.clone();
        out.push((name, value));
        i = i + 1;
    }
    assert(out.deep_view() =~= members.deep_view());
    out
}

impl Clone for Json {
    fn clone(&self) -> (r: Self)
        ensures
            r@ == self@,
        decreases self,
    {
        match self {
            Json::Null => Json::Null,
            Json::Bool(b) => Json::Bool(*b),
            Json::Number(n) => Json::Number(n.clone()),
            Json::String(s) => Json::String(s.clone()),
            Json::Array(items) => {
                let mut out: Vec<Json> = Vec::new();
                let mut i: usize = 0;
                while i < items.len()
                    invariant
                        i <= items.len(),
                        out@.len() == i,
                        forall|k: int| 0 <= k < i ==> out@[k]@ == items@[k]@,
                        decreases_to!(*self => *items),
                    decreases items.len() - i,
                {
                    let item = items[i].clone();
                    out.push(item);
                    i = i + 1;
                }
                let r = Json::Array(out);
                assert(r@->Array_0 =~= self@->Array_0);
                r
            },
            Json::Object(members) => {
                let out = clone_members(members);
                proof {
                    lemma_object_view(out);
                    lemma_object_view(*members);
                }
                Json::Object(out)
            },
        }
    }
}

/// The value of the first member with the given name, if there is one.
#[verifier::opaque]
pub open spec fn lookup<V>(members: Seq<(Seq<char>, V)>, name: Seq<char>) -> Option<V>
    decreases members.len(),
{
    if members.len() == 0 {
        None
    } else {
        match lookup(members.drop_last(), name) {
            Some(value) => Some(value),
            None => if members.last().0 == name {
                Some(members.last().1)
            } else {
                None
            },
        }
    }
}

/// Nothing is found in an object without members.
pub broadcast proof fn lemma_lookup_empty<V>(name: Seq<char>)
    ensures
        #[trigger] lookup(Seq::<(Seq<char>, V)>::empty(), name) is None,
{
    reveal(lookup);
}

/// A lookup in an object with one more member finds what it found before, or else the new
/// member.
pub broadcast proof fn lemma_lookup_push<V>(members: Seq<(Seq<char>, V)>, member: (Seq<char>, V), name: Seq<char>)
    ensures
        #[trigger] lookup(members.push(member), name) == match lookup(members, name) {
            Some(value) => Some(value),
            None => if member.0 == name {
                Some(member.1)
            } else {
                None
            },
        },
{
    reveal(lookup);
    assert(members.push(member).drop_last() =~= members);
}

/// A lookup in two runs of members, one after the other, finds what is in the first, or else
/// what is in the second.
pub broadcast proof fn lemma_lookup_add<V>(a: Seq<(Seq<char>, V)>, b: Seq<(Seq<char>, V)>, name: Seq<char>)
    ensures
        #[trigger] lookup(a + b, name) == match lookup(a, name) {
            Some(value) => Some(value),
            None => lookup(b, name),
        },
    decreases b.len(),
{
    reveal(lookup);
    if b.len() == 0 {
        assert(a + b =~= a);
    } else {
        assert((a + b).drop_last() =~= a + b.drop_last());
        lemma_lookup_add(a, b.drop_last(), name);
    }
}

/// A name that no member bears is not found.
pub proof fn lemma_lookup_none<V>(members: Seq<(Seq<char>, V)>, name: Seq<char>)
    requires
        forall|i: int| 0 <= i < members.len() ==> (#[trigger] members[i]).0 != name,
    ensures
        lookup(members, name) is None,
    decreases members.len(),
{
    reveal(lookup);
    if members.len() > 0 {
        lemma_lookup_none(members.drop_last(), name);
    }
}

/// The first member that bears a name is the one found.
pub proof fn lemma_lookup_first<V>(members: Seq<(Seq<char>, V)>, name: Seq<char>, at: int)
    requires
        0 <= at < members.len(),
        members[at].0 == name,
        forall|i: int| 0 <= i < at ==> (#[trigger] members[i]).0 != name,
    ensures
        lookup(members, name) == Some(members[at].1),
    decreases members.len(),
{
    reveal(lookup);
    if at == members.len() - 1 {
        lemma_lookup_none(members.drop_last(), name);
    } else {
        lemma_lookup_first(members.drop_last(), name, at);
    }
}

/// What is found is the value of a member that bears the name.
pub proof fn lemma_lookup_some<V>(members: Seq<(Seq<char>, V)>, name: Seq<char>) -> (at: int)
    requires
        lookup(members, name) is Some,
    ensures
        0 <= at < members.len(),
        members[at].0 == name,
        lookup(members, name) == Some(members[at].1),
    decreases members.len(),
{
    reveal(lookup);
    if lookup(members.drop_last(), name) is Some {
        lemma_lookup_some(members.drop_last(), name)
    } else {
        members.len() - 1
    }
}

/// Whether no two entries bear the same name.
pub open spec fn distinct_names<V>(entries: Seq<(Seq<char>, V)>) -> bool {
    forall|i: int, j: int| 0 <= i < j < entries.len() ==> (#[trigger] entries[i]).0 != (#[trigger] entries[j]).0
}

/// Whether no object in the document, at any depth, holds two members of the same name. A
/// document that was read from a text is so.
pub open spec fn names_once(doc: JsonValue) -> bool
    decreases doc,
{
    match doc {
        JsonValue::Array(items) => forall|i: int| 0 <= i < items.len() ==> names_once(#[trigger] items[i]),
        JsonValue::Object(members) => distinct_names(members) && forall|i: int|
            0 <= i < members.len() ==> names_once((#[trigger] members[i]).1),
        _ => true,
    }
}

/// What an object without a name twice holds under a name is without a name twice as well.
pub proof fn lemma_names_once_below(members: Members, name: Seq<char>)
    requires
        names_once(JsonValue::Object(members)),
    ensures
        lookup(members, name) matches Some(doc) ==> names_once(doc),
{
    if lookup(members, name) is Some {
        let at = lemma_lookup_some(members, name);
        assert(names_once(members[at].1));
    }
}

/// The value of the first member with the given name.
pub fn find<'a>(members: &'a Vec<(String, Json)>, name: &str) -> (r: Option<&'a Json>)
    ensures
        match r {
            Some(value) => lookup(members.deep_view(), name@) == Some(value@),
            None => lookup(members.deep_view(), name@) is None,
        },
{
    let mut i: usize = 0;
    while i < members.len()
        invariant
            i <= members.len(),
            forall|k: int| 0 <= k < i ==> members@[k].0@ != name@,
        decreases members.len() - i,
    {
        if same_text(members[i].0.as_str(), name) {
            proof {
                lemma_lookup_first(members.deep_view(), name@, i as int);
            }
            return Some(&members[i].1);
        }
        i = i + 1;
    }
    proof {
        lemma_lookup_none(members.deep_view(), name@);
    }
    None
}

} // verus!
