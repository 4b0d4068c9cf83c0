//! Laying a state that holds only what changed over a state that is whole.

use vstd::prelude::*;
use crate::json::{
    clone_members, distinct_names, lemma_lookup_empty, lemma_lookup_first, lemma_lookup_none, lemma_lookup_push,
    lemma_lookup_some, lemma_object_view, lookup, Json, JsonValue, Members,
};
use crate::text::same_text;

verus! {

/// Whether the member at a place is the first that bears the name.
pub open spec fn is_first(members: Members, name: Seq<char>, at: int) -> bool {
    &&& 0 <= at < members.len()
    &&& members[at].0 == name
    &&& forall|k: int| 0 <= k < at ==> (#[trigger] members[k]).0 != name
}

/// Whether any member bears the name.
pub open spec fn holds(members: Members, name: Seq<char>) -> bool {
    exists|at: int| is_first(members, name, at)
}

/// Where the first member that bears the name stands.
pub open spec fn first_of(members: Members, name: Seq<char>) -> int {
    choose|at: int| is_first(members, name, at)
}

/// What results from laying a patch over a base. Where both are objects, each member of the
/// patch is laid over what the base holds under its name, and what the base holds under
/// other names stays. Anywhere else the patch takes the place of the base.
pub open spec fn spec_merge(base: JsonValue, patch: JsonValue) -> JsonValue
    decreases patch, 1nat, 0nat,
{
    match (base, patch) {
        (JsonValue::Object(below), JsonValue::Object(over)) => JsonValue::Object(spec_lay(below, patch, over.len())),
        _ => patch,
    }
}

/// The members that result from laying the first `count` members of a patch over the
/// members of a base, one after the other. A member of the patch whose name the base does
/// not hold is added at the end.
pub open spec fn spec_lay(below: Members, patch: JsonValue, count: nat) -> Members
    decreases patch, 0nat, count,
{
    if count == 0 || !(patch is Object) || count > patch->Object_0.len() {
        below
    } else {
        let before = spec_lay(below, patch, (count - 1) as nat);
        let member = patch->Object_0[count - 1];
        if holds(before, member.0) {
            let at = first_of(before, member.0);
            before.update(at, (member.0, spec_merge(before[at].1, member.1)))
        } else {
            before.push(member)
        }
    }
}

/// Only one member is the first of its name.
pub proof fn lemma_first_is_one(members: Members, name: Seq<char>, at: int)
    requires
        is_first(members, name, at),
    ensures
        holds(members, name),
        first_of(members, name) == at,
        lookup(members, name) == Some(members[at].1),
{
    let other = first_of(members, name);
    assert(is_first(members, name, other));
    if other < at {
        assert(members[other].0 != name);
    }
    if at < other {
        assert(members[at].0 != name);
    }
    lemma_lookup_first(members, name, at);
}

/// Where no member bears a name, nothing is held under it.
pub proof fn lemma_holds_nothing(members: Members, name: Seq<char>)
    requires
        forall|k: int| 0 <= k < members.len() ==> (#[trigger] members[k]).0 != name,
    ensures
        !holds(members, name),
        lookup(members, name) is None,
{
    lemma_lookup_none(members, name);
    if holds(members, name) {
        let at = first_of(members, name);
        assert(members[at].0 != name);
    }
}

/// Something is held under a name exactly where a lookup finds something.
pub proof fn lemma_holds_is_found(members: Members, name: Seq<char>)
    ensures
        holds(members, name) <==> lookup(members, name) is Some,
        holds(members, name) ==> lookup(members, name) == Some(members[first_of(members, name)].1),
{
    if holds(members, name) {
        lemma_first_is_one(members, name, first_of(members, name));
    }
    if lookup(members, name) is Some && !holds(members, name) {
        let at = lemma_lookup_some(members, name);
        assert forall|k: int| 0 <= k < members.len() implies (#[trigger] members[k]).0 != name by {
            if members[k].0 == name {
                lemma_some_first(members, name, k);
            }
        }
        assert(members[at].0 != name);
    }
}

/// Where a member bears a name, some member is the first to do so.
proof fn lemma_some_first(members: Members, name: Seq<char>, at: int)
    requires
        0 <= at < members.len(),
        members[at].0 == name,
    ensures
        holds(members, name),
    decreases at,
{
    if forall|k: int| 0 <= k < at ==> (#[trigger] members[k]).0 != name {
        assert(is_first(members, name, at));
    } else {
        let k = choose|k: int| 0 <= k < at && (#[trigger] members[k]).0 == name;
        lemma_some_first(members, name, k);
    }
}

/// Replacing what is held under a name changes what is found under that name and under no
/// other.
pub proof fn lemma_lookup_replaced(members: Members, name: Seq<char>, value: JsonValue, other: Seq<char>)
    requires
        holds(members, name),
    ensures
        lookup(members.update(first_of(members, name), (name, value)), other) == if other == name {
            Some(value)
        } else {
            lookup(members, other)
        },
{
    let at = first_of(members, name);
    let after = members.update(at, (name, value));
    if other == name {
        assert(is_first(after, name, at)) by {
            assert forall|k: int| 0 <= k < at implies (#[trigger] after[k]).0 != name by {
                assert(after[k] == members[k]);
            }
        }
        lemma_first_is_one(after, name, at);
    } else {
        lemma_holds_is_found(members, other);
        if holds(members, other) {
            let there = first_of(members, other);
            assert(is_first(after, other, there)) by {
                assert forall|k: int| 0 <= k < there implies (#[trigger] after[k]).0 != other by {
                    if k != at {
                        assert(after[k] == members[k]);
                    }
                }
            }
            lemma_first_is_one(after, other, there);
        } else {
            assert forall|k: int| 0 <= k < after.len() implies (#[trigger] after[k]).0 != other by {
                if k != at {
                    assert(after[k] == members[k]);
                    if members[k].0 == other {
                        lemma_some_first(members, other, k);
                    }
                }
            }
            lemma_holds_nothing(after, other);
        }
    }
}

/// Adding a member under a name that is not held changes what is found under that name and
/// under no other.
pub proof fn lemma_lookup_added(members: Members, name: Seq<char>, value: JsonValue, other: Seq<char>)
    requires
        !holds(members, name),
    ensures
        lookup(members.push((name, value)), other) == if other == name {
            Some(value)
        } else {
            lookup(members, other)
        },
{
    lemma_lookup_push(members, (name, value), other);
    lemma_holds_is_found(members, name);
}

/// Laying a patch over a base leaves what the base holds under a name that the patch does
/// not hold.
pub proof fn lemma_untouched(below: Members, patch: JsonValue, count: nat, name: Seq<char>)
    requires
        patch is Object,
        count <= patch->Object_0.len(),
        !holds(patch->Object_0, name),
    ensures
        lookup(spec_lay(below, patch, count), name) == lookup(below, name),
    decreases count,
{
    if count > 0 {
        let before = spec_lay(below, patch, (count - 1) as nat);
        let member = patch->Object_0[count - 1];
        lemma_untouched(below, patch, (count - 1) as nat, name);
        if member.0 == name {
            lemma_some_first(patch->Object_0, name, count - 1);
        }
        if holds(before, member.0) {
            lemma_lookup_replaced(before, member.0, spec_merge(before[first_of(before, member.0)].1, member.1), name);
        } else {
            lemma_lookup_added(before, member.0, member.1, name);
        }
    }
}

/// What a base and a patch that holds no name twice hold under a name, laid one over the
/// other.
pub open spec fn spec_merge_at(below: Members, over: Members, name: Seq<char>) -> Option<JsonValue> {
    match (lookup(below, name), lookup(over, name)) {
        (Some(old), Some(new)) => Some(spec_merge(old, new)),
        (None, Some(new)) => Some(new),
        (old, None) => old,
    }
}

/// Laying the first members of a patch that holds no name twice over a base gives, under
/// each name, what the base and those members hold under it, laid one over the other.
pub proof fn lemma_laid(below: Members, patch: JsonValue, count: nat, name: Seq<char>)
    requires
        patch is Object,
        count <= patch->Object_0.len(),
        distinct_names(patch->Object_0),
    ensures
        lookup(spec_lay(below, patch, count), name) == spec_merge_at(below, patch->Object_0.take(count as int), name),
    decreases count,
{
    let over = patch->Object_0;
    if count == 0 {
        assert(over.take(0) =~= Seq::empty());
        lemma_lookup_empty::<JsonValue>(name);
    } else {
        let before = spec_lay(below, patch, (count - 1) as nat);
        let member = over[count - 1];
        lemma_laid(below, patch, (count - 1) as nat, name);
        lemma_laid(below, patch, (count - 1) as nat, member.0);
        assert(over.take(count as int) =~= over.take(count - 1).push(member));
        lemma_lookup_push(over.take(count - 1), member, name);
        assert forall|k: int| 0 <= k < count - 1 implies (#[trigger] over.take(count - 1)[k]).0 != member.0 by {
            assert(over[k].0 != over[count - 1].0);
        }
        lemma_lookup_none(over.take(count - 1), member.0);
        lemma_holds_is_found(before, member.0);
        if holds(before, member.0) {
            lemma_lookup_replaced(before, member.0, spec_merge(before[first_of(before, member.0)].1, member.1), name);
        } else {
            lemma_lookup_added(before, member.0, member.1, name);
        }
    }
}

/// Laying a patch that holds no name twice over a base gives an object that holds, under
/// each name, what the base and the patch hold under it, laid one over the other: what only
/// the base holds stays, what only the patch holds is added, and what both hold is merged.
pub proof fn lemma_merge_by_name(below: Members, over: Members, name: Seq<char>)
    requires
        distinct_names(over),
    ensures
        spec_merge(JsonValue::Object(below), JsonValue::Object(over)) matches JsonValue::Object(merged) && lookup(
            merged,
            name,
        ) == spec_merge_at(below, over, name),
{
    let patch = JsonValue::Object(over);
    lemma_laid(below, patch, over.len(), name);
    assert(over.take(over.len() as int) =~= over);
}

/// Where the first entry of the given name stands, if there is one.
fn position(members: &Vec<(String, Json)>, name: &str) -> (r: Option<usize>)
    ensures
        match r {
            Some(at) => is_first(members.deep_view(), name@, at as int),
            None => !holds(members.deep_view(), name@),
        },
{
    let ghost all = members.deep_view();
    assert forall|k: int| 0 <= k < all.len() implies (#[trigger] all[k]) == (members@[k].0@, members@[k].1@) by {
        assert(all[k] == members@[k].deep_view());
    }
    let mut i: usize = 0;
    while i < members.len()
        invariant
            i <= members.len(),
            all == members.deep_view(),
            forall|k: int| 0 <= k < all.len() ==> (#[trigger] all[k]) == (members@[k].0@, members@[k].1@),
            forall|k: int| 0 <= k < i ==> (#[trigger] all[k]).0 != name@,
        decreases members.len() - i,
    {
        if same_text(members[i].0.as_str(), name) {
            return Some(i);
        }
        i = i + 1;
    }
    proof {
        lemma_holds_nothing(all, name@);
    }
    None
}

impl Json {
    /// Lays a patch over this document.
    pub fn merge(&self, patch: &Json) -> (r: Json)
        ensures
            r@ == spec_merge(self@, patch@),
        decreases patch,
    {
        match (self, patch) {
            (Json::Object(below), Json::Object(over)) => {
                proof {
                    lemma_object_view(*below);
                    lemma_object_view(*over);
                }
                let ghost base = below.deep_view();
                let ghost changes = over.deep_view();
                let mut out = clone_members(below);
                let mut i: usize = 0;
                while i < over.len()
                    invariant
                        i <= over.len(),
                        changes == over.deep_view(),
                        patch@ == JsonValue::Object(changes),
                        decreases_to!(*patch => *over),
                        out.deep_view() == spec_lay(base, patch@, i as nat),
                    decreases over.len() - i,
                {
                    let ghost before = out.deep_view();
                    assert(changes[i as int] == over@[i as int].deep_view());
                    let name = over[i].0.clone();
                    match position(&out, name.as_str()) {
                        Some(at) => {
                            proof {
                                lemma_first_is_one(before, name@, at as int);
                                assert(before[at as int] == out@[at as int].deep_view());
                            }
                            let merged = out[at].1.merge(&over[i].1);
                            out.set(at, (name, merged));
                            assert(out.deep_view() =~= before.update(at as int, (changes[i as int].0, merged@)));
                        },
                        None => {
                            let value = over[i].1.clone();
                            out.push((name, value));
                            assert(out.deep_view() =~= before.push(changes[i as int]));
                        },
                    }
                    i = i + 1;
                }
                proof {
                    lemma_object_view(out);
                }
                Json::Object(out)
            },
            _ => patch.clone(),
        }
    }
}

} // verus!
