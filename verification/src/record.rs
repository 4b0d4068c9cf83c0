//! What all records share: opening the object that a record is read from, telling declared
//! keys from others, and writing the object back.

use vstd::prelude::*;
use crate::error::{DecodeError, DecodeErrorView, Expected, Strictness};
use crate::json::{clone_members, find, lemma_lookup_none, lemma_object_view, lookup, Json, JsonValue, Members};
use crate::wire::Record;

verus! {

/// The members whose names the record does not declare, in the order in which the object
/// holds them.
#[verifier::opaque]
pub open spec fn spec_undeclared<R: Record>(members: Members) -> Members
    decreases members.len(),
{
    if members.len() == 0 {
        Seq::empty()
    } else {
        let before = spec_undeclared::<R>(members.drop_last());
        if R::spec_declares(members.last().0) {
            before
        } else {
            before.push(members.last())
        }
    }
}

/// The members of the object that a record is read from. In strict mode the object may hold
/// declared keys only: the first other key that it holds is reported.
pub open spec fn spec_open<R: Record>(doc: JsonValue, mode: Strictness) -> Result<Members, DecodeErrorView> {
    match doc {
        JsonValue::Object(members) => if mode == Strictness::Strict && spec_undeclared::<R>(members).len() > 0 {
            Err(DecodeErrorView::UnknownField(spec_undeclared::<R>(members)[0].0))
        } else {
            Ok(members)
        },
        _ => Err(DecodeErrorView::Mismatch(Expected::Object)),
    }
}

/// What a record that is one variant of a union makes of a key that belongs to another
/// variant: it refuses the object that holds it, in either mode.
pub open spec fn spec_refuse(members: Members, name: Seq<char>) -> Result<(), DecodeErrorView> {
    if lookup(members, name) is Some {
        Err(DecodeErrorView::UnknownField(name))
    } else {
        Ok(())
    }
}

/// The document of a record: its declared fields, then the members it only carries.
pub open spec fn spec_close(fields: Members, extra: Members) -> JsonValue {
    JsonValue::Object(fields + extra)
}

/// No member bears a declared name.
pub open spec fn all_undeclared<R: Record>(members: Members) -> bool {
    forall|i: int| 0 <= i < members.len() ==> !R::spec_declares((#[trigger] members[i]).0)
}

/// What a record may carry beside its declared fields and still come back unchanged:
/// nothing under a declared name, and in strict mode nothing at all.
pub open spec fn carried<R: Record>(extra: Members, mode: Strictness) -> bool {
    &&& all_undeclared::<R>(extra)
    &&& mode == Strictness::Strict ==> extra.len() == 0
}

pub broadcast proof fn lemma_undeclared_empty<R: Record>(members: Members)
    requires
        members.len() == 0,
    ensures
        #[trigger] spec_undeclared::<R>(members) == Seq::<(Seq<char>, JsonValue)>::empty(),
{
    reveal(spec_undeclared);
}

pub broadcast proof fn lemma_undeclared_push<R: Record>(members: Members, member: (Seq<char>, JsonValue))
    ensures
        #[trigger] spec_undeclared::<R>(members.push(member)) == if R::spec_declares(member.0) {
            spec_undeclared::<R>(members)
        } else {
            spec_undeclared::<R>(members).push(member)
        },
{
    reveal(spec_undeclared);
    assert(members.push(member).drop_last() =~= members);
}

pub broadcast proof fn lemma_undeclared_add<R: Record>(a: Members, b: Members)
    ensures
        #[trigger] spec_undeclared::<R>(a + b) == spec_undeclared::<R>(a) + spec_undeclared::<R>(b),
    decreases b.len(),
{
    reveal(spec_undeclared);
    if b.len() == 0 {
        assert(a + b =~= a);
        assert(spec_undeclared::<R>(a) + spec_undeclared::<R>(b) =~= spec_undeclared::<R>(a));
    } else {
        assert((a + b).drop_last() =~= a + b.drop_last());
        lemma_undeclared_add::<R>(a, b.drop_last());
        if !R::spec_declares(b.last().0) {
            assert((spec_undeclared::<R>(a) + spec_undeclared::<R>(b.drop_last())).push(b.last())
                =~= spec_undeclared::<R>(a) + spec_undeclared::<R>(b.drop_last()).push(b.last()));
        }
    }
}

/// Where no name is declared, every member is kept.
pub proof fn lemma_undeclared_all<R: Record>(members: Members)
    requires
        all_undeclared::<R>(members),
    ensures
        spec_undeclared::<R>(members) == members,
    decreases members.len(),
{
    reveal(spec_undeclared);
    if members.len() > 0 {
        let before = members.drop_last();
        assert forall|i: int| 0 <= i < before.len() implies !R::spec_declares((#[trigger] before[i]).0) by {
            assert(before[i] == members[i]);
        }
        lemma_undeclared_all::<R>(before);
        assert(before.push(members.last()) =~= members);
    } else {
        assert(members =~= Seq::empty());
    }
}

/// Of declared fields followed by members under other names, those members are what is
/// kept.
pub proof fn lemma_undeclared_close<R: Record>(fields: Members, extra: Members)
    requires
        spec_undeclared::<R>(fields).len() == 0,
        all_undeclared::<R>(extra),
    ensures
        spec_undeclared::<R>(fields + extra) == extra,
{
    lemma_undeclared_add::<R>(fields, extra);
    lemma_undeclared_all::<R>(extra);
    assert(spec_undeclared::<R>(fields) + extra =~= extra);
}

/// What an object holds under a name that the record does not declare is found among the
/// members that are kept.
pub proof fn lemma_undeclared_lookup<R: Record>(members: Members, name: Seq<char>)
    requires
        !R::spec_declares(name),
    ensures
        lookup(spec_undeclared::<R>(members), name) == lookup(members, name),
    decreases members.len(),
{
    reveal(lookup);
    reveal(spec_undeclared);
    if members.len() > 0 {
        lemma_undeclared_lookup::<R>(members.drop_last(), name);
        if !R::spec_declares(members.last().0) {
            let kept = spec_undeclared::<R>(members.drop_last());
            assert(kept.push(members.last()).drop_last() =~= kept);
        }
    }
}

/// In strict mode an object that holds anything under a name that the record does not
/// declare is refused for an unknown field.
pub proof fn lemma_unknown_refused<R: Record>(members: Members, name: Seq<char>)
    requires
        !R::spec_declares(name),
        lookup(members, name) is Some,
    ensures
        spec_open::<R>(JsonValue::Object(members), Strictness::Strict) matches Err(
            DecodeErrorView::UnknownField(_),
        ),
{
    lemma_undeclared_lookup::<R>(members, name);
    if spec_undeclared::<R>(members).len() == 0 {
        lemma_lookup_none(spec_undeclared::<R>(members), name);
    }
}

/// Where no member is kept, every member bears a declared name.
pub proof fn lemma_all_declared<R: Record>(members: Members)
    requires
        spec_undeclared::<R>(members).len() == 0,
    ensures
        forall|i: int| 0 <= i < members.len() ==> R::spec_declares((#[trigger] members[i]).0),
    decreases members.len(),
{
    reveal(spec_undeclared);
    if members.len() > 0 {
        lemma_all_declared::<R>(members.drop_last());
        assert forall|i: int| 0 <= i < members.len() implies R::spec_declares((#[trigger] members[i]).0) by {
            if i < members.len() - 1 {
                assert(members.drop_last()[i] == members[i]);
            }
        }
    }
}

/// Opens the object that a record is read from.
pub fn open<'a, R: Record>(doc: &'a Json, mode: Strictness) -> (r: Result<&'a Vec<(String, Json)>, DecodeError>)
    ensures
        match r {
            Ok(members) => spec_open::<R>(doc@, mode) == Ok::<Members, DecodeErrorView>(members.deep_view()),
            Err(error) => spec_open::<R>(doc@, mode) == Err::<Members, DecodeErrorView>(error@),
        },
{
    match doc {
        Json::Object(members) => {
            proof {
                lemma_object_view(*members);
            }
            if mode == Strictness::Strict {
                let ghost all = members.deep_view();
                let mut i: usize = 0;
                proof {
                    lemma_undeclared_empty::<R>(all.take(0));
                }
                while i < members.len()
                    invariant
                        i <= members.len(),
                        all == members.deep_view(),
                        doc@ == JsonValue::Object(all),
                        mode == Strictness::Strict,
                        spec_undeclared::<R>(all.take(i as int)).len() == 0,
                    decreases members.len() - i,
                {
                    proof {
                        assert(all.take(i + 1) =~= all.take(i as int).push(all[i as int]));
                        lemma_undeclared_push::<R>(all.take(i as int), all[i as int]);
                    }
                    if !R::declares(members[i].0.as_str()) {
                        proof {
                            assert(all =~= all.take(i + 1) + all.skip(i + 1));
                            lemma_undeclared_add::<R>(all.take(i + 1), all.skip(i + 1));
                            assert(spec_undeclared::<R>(all.take(i + 1)) =~= seq![all[i as int]]);
                            assert(spec_undeclared::<R>(all)[0] == all[i as int]);
                            assert(all[i as int] == members@[i as int].deep_view());
                        }
                        return Err(DecodeError::UnknownField(members[i].0.clone()));
                    }
                    i = i + 1;
                }
                proof {
                    assert(all.take(i as int) =~= all);
                }
            }
            Ok(members)
        },
        _ => Err(DecodeError::Mismatch(Expected::Object)),
    }
}

/// Refuses an object that holds the key of another variant of the union.
pub fn refuse(members: &Vec<(String, Json)>, name: &str) -> (r: Result<(), DecodeError>)
    ensures
        match r {
            Ok(_) => spec_refuse(members.deep_view(), name@) is Ok,
            Err(error) => spec_refuse(members.deep_view(), name@) == Err::<(), DecodeErrorView>(error@),
        },
{
    match find(members, name) {
        Some(_) => Err(DecodeError::UnknownField(name.to_owned())),
        None => Ok(()),
    }
}

/// A copy of the members whose names the record does not declare.
pub fn undeclared<R: Record>(members: &Vec<(String, Json)>) -> (r: Vec<(String, Json)>)
    ensures
        r.deep_view() == spec_undeclared::<R>(members.deep_view()),
{
    let ghost all = members.deep_view();
    let mut out: Vec<(String, Json)> = Vec::new();
    let mut i: usize = 0;
    proof {
        assert(out.deep_view() =~= Seq::empty());
        lemma_undeclared_empty::<R>(all.take(0));
    }
    while i < members.len()
        invariant
            i <= members.len(),
            all == members.deep_view(),
            out.deep_view() == spec_undeclared::<R>(all.take(i as int)),
        decreases members.len() - i,
    {
        proof {
            assert(all.take(i + 1) =~= all.take(i as int).push(all[i as int]));
            lemma_undeclared_push::<R>(all.take(i as int), all[i as int]);
        }
        if !R::declares(members[i].0.as_str()) {
            let ghost before = out.deep_view();
            let name = members[i].0.clone();
            let value = members[i].1.clone();
            out.push((name, value));
            assert(out.deep_view() =~= before.push(all[i as int]));
        }
        i = i + 1;
    }
    proof {
        assert(all.take(i as int) =~= all);
    }
    out
}

/// The members of a record that is being written, before its first field.
pub fn start() -> (r: Vec<(String, Json)>)
    ensures
        r.deep_view() == Seq::<(Seq<char>, JsonValue)>::empty(),
{
    let members: Vec<(String, Json)> = Vec::new();
    assert(members.deep_view() =~= Seq::empty());
    members
}

/// Adds a field to the members of a record that is being written.
pub fn put(members: &mut Vec<(String, Json)>, name: &str, value: Json)
    ensures
        final(members).deep_view() == old(members).deep_view().push((name@, value@)),
{
    let ghost before = members.deep_view();
    members.push((name.to_owned(), value));
    assert(members.deep_view() =~= before.push((name@, value@)));
}

/// The document of a record with the given fields, followed by a copy of what the record
/// only carries.
pub fn close(fields: Vec<(String, Json)>, extra: &Vec<(String, Json)>) -> (r: Json)
    ensures
        r@ == spec_close(fields.deep_view(), extra.deep_view()),
{
    let ghost first = fields.deep_view();
    let mut members = fields;
    let mut rest = clone_members(extra);
    members.append(&mut rest);
    proof {
        assert(members.deep_view() =~= first + extra.deep_view());
        lemma_object_view(members);
    }
    Json::Object(members)
}

} // verus!
