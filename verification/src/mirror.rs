//! The shape that a state and its metadata share: where the state holds a value, the metadata
//! holds the time at which it was written.

use vstd::prelude::*;
use crate::json::{
    lemma_lookup_first, lemma_lookup_none, lemma_lookup_some, lemma_object_view, lookup, Json, JsonValue, Members,
};
use crate::mqtt::{
    children_view, lemma_nested_view, Children, MqttMetadataTimestamp, MqttMetadataTimestampView, MqttResponse,
    MqttResponseView, UpdateAcceptedView, UpdateDeltaView,
};
use crate::error::{outcome, DecodeError, DecodeErrorView, Strictness};
use crate::text::same_text;
use crate::wire::Decode;

verus! {

/// The names that lead from the root of a document to a place in it.
pub type Path = Seq<Seq<char>>;

/// Whether the path leads to a leaf of the document: a value that is no object.
pub open spec fn is_leaf_path(doc: JsonValue, path: Path) -> bool
    decreases path.len(),
{
    if path.len() == 0 {
        !(doc is Object)
    } else {
        match doc {
            JsonValue::Object(members) => match lookup(members, path[0]) {
                Some(child) => is_leaf_path(child, path.drop_first()),
                None => false,
            },
            _ => false,
        }
    }
}

/// Whether the path leads to a timestamp of the tree.
pub open spec fn is_stamp_path(tree: MqttMetadataTimestampView, path: Path) -> bool
    decreases path.len(),
{
    if path.len() == 0 {
        tree is Timestamp
    } else {
        match tree {
            MqttMetadataTimestampView::Nested(children) => match lookup(children, path[0]) {
                Some(child) => is_stamp_path(child, path.drop_first()),
                None => false,
            },
            _ => false,
        }
    }
}

/// Whether the path leads to a leaf of a state that may be absent.
pub open spec fn leads_to_leaf(doc: Option<JsonValue>, path: Path) -> bool {
    doc matches Some(state) && is_leaf_path(state, path)
}

/// Whether the path leads to a timestamp of a tree that may be absent.
pub open spec fn leads_to_stamp(tree: Option<MqttMetadataTimestampView>, path: Path) -> bool {
    tree matches Some(metadata) && is_stamp_path(metadata, path)
}

/// Whether a state and its metadata mirror each other: every path to a leaf of the state is
/// a path to a timestamp of the metadata, and every path to a timestamp is a path to a leaf.
/// An absent state has no leaf and absent metadata no timestamp.
pub open spec fn mirrored(doc: Option<JsonValue>, tree: Option<MqttMetadataTimestampView>) -> bool {
    forall|path: Path| #[trigger] leads_to_leaf(doc, path) == leads_to_stamp(tree, path)
}

/// The members of a state, none where the state is absent or a leaf.
pub open spec fn members_at(doc: Option<JsonValue>) -> Members {
    match doc {
        Some(JsonValue::Object(members)) => members,
        _ => Seq::empty(),
    }
}

/// The children of a tree, none where the tree is absent or a timestamp.
pub open spec fn children_at(tree: Option<MqttMetadataTimestampView>) -> Children {
    match tree {
        Some(MqttMetadataTimestampView::Nested(children)) => children,
        _ => Seq::empty(),
    }
}

/// Whether what a state and its metadata hold under one name mirror each other.
pub open spec fn mirrored_at(members: Members, children: Children, name: Seq<char>) -> bool {
    mirrored(lookup(members, name), lookup(children, name))
}

/// A path with a first name leads to a leaf of an object where the rest of the path leads
/// to a leaf of what the object holds under that name.
proof fn lemma_leaf_step(doc: Option<JsonValue>, name: Seq<char>, rest: Path)
    requires
        !(doc matches Some(state) && !(state is Object)),
    ensures
        leads_to_leaf(doc, Seq::empty().push(name) + rest) == leads_to_leaf(lookup(members_at(doc), name), rest),
{
    let path = Seq::empty().push(name) + rest;
    assert(path[0] == name);
    assert(path.drop_first() =~= rest);
    if doc is None || members_at(doc).len() == 0 {
        lemma_lookup_none(members_at(doc), name);
    }
}

/// The same for a tree and its timestamps.
proof fn lemma_stamp_step(tree: Option<MqttMetadataTimestampView>, name: Seq<char>, rest: Path)
    requires
        !(tree matches Some(metadata) && metadata is Timestamp),
    ensures
        leads_to_stamp(tree, Seq::empty().push(name) + rest) == leads_to_stamp(
            lookup(children_at(tree), name),
            rest,
        ),
{
    let path = Seq::empty().push(name) + rest;
    assert(path[0] == name);
    assert(path.drop_first() =~= rest);
    if tree is None || children_at(tree).len() == 0 {
        lemma_lookup_none(children_at(tree), name);
    }
}

/// A state that is no leaf and metadata that is no timestamp mirror each other exactly
/// where they do so under every name.
pub proof fn lemma_mirrored_by_name(doc: Option<JsonValue>, tree: Option<MqttMetadataTimestampView>)
    requires
        !(doc matches Some(state) && !(state is Object)),
        !(tree matches Some(metadata) && metadata is Timestamp),
    ensures
        mirrored(doc, tree) <==> forall|name: Seq<char>| #[trigger]
            mirrored_at(members_at(doc), children_at(tree), name),
{
    let members = members_at(doc);
    let children = children_at(tree);
    if mirrored(doc, tree) {
        assert forall|name: Seq<char>| #[trigger] mirrored_at(members, children, name) by {
            assert forall|rest: Path| #[trigger]
                leads_to_leaf(lookup(members, name), rest) == leads_to_stamp(lookup(children, name), rest) by {
                lemma_leaf_step(doc, name, rest);
                lemma_stamp_step(tree, name, rest);
                let path = Seq::empty().push(name) + rest;
                assert(leads_to_leaf(doc, path) == leads_to_stamp(tree, path));
            }
        }
    }
    if forall|name: Seq<char>| #[trigger] mirrored_at(members, children, name) {
        assert forall|path: Path| #[trigger] leads_to_leaf(doc, path) == leads_to_stamp(tree, path) by {
            if path.len() > 0 {
                let name = path[0];
                let rest = path.drop_first();
                assert(Seq::empty().push(name) + rest =~= path);
                lemma_leaf_step(doc, name, rest);
                lemma_stamp_step(tree, name, rest);
                assert(mirrored_at(members, children, name));
                assert(leads_to_leaf(lookup(members, name), rest) == leads_to_stamp(lookup(children, name), rest));
            }
        }
    }
}

/// A state and its metadata mirror each other under every name where they do so under the
/// name of each member and of each child: under any other name neither holds anything.
pub proof fn lemma_mirrored_by_member(members: Members, children: Children)
    requires
        forall|i: int| 0 <= i < members.len() ==> mirrored_at(members, children, (#[trigger] members[i]).0),
        forall|i: int| 0 <= i < children.len() ==> mirrored_at(members, children, (#[trigger] children[i]).0),
    ensures
        forall|name: Seq<char>| #[trigger] mirrored_at(members, children, name),
{
    assert forall|name: Seq<char>| #[trigger] mirrored_at(members, children, name) by {
        if lookup(members, name) is Some {
            let at = lemma_lookup_some(members, name);
            assert(mirrored_at(members, children, members[at].0));
        } else if lookup(children, name) is Some {
            let at = lemma_lookup_some(children, name);
            assert(mirrored_at(members, children, children[at].0));
        } else {
            assert forall|path: Path| #[trigger]
                leads_to_leaf(lookup(members, name), path) == leads_to_stamp(lookup(children, name), path) by {}
        }
    }
}

/// Where the first entry of the given name stands, if there is one.
fn position<T>(entries: &Vec<(String, T)>, name: &str) -> (r: Option<usize>)
    ensures
        match r {
            Some(at) => at < entries@.len() && entries@[at as int].0@ == name@ && forall|k: int|
                0 <= k < at ==> (#[trigger] entries@[k]).0@ != name@,
            None => forall|k: int| 0 <= k < entries@.len() ==> (#[trigger] entries@[k]).0@ != name@,
        },
{
    let mut i: usize = 0;
    while i < entries.len()
        invariant
            i <= entries.len(),
            forall|k: int| 0 <= k < i ==> (#[trigger] entries@[k]).0@ != name@,
        decreases entries.len() - i,
    {
        if same_text(entries[i].0.as_str(), name) {
            return Some(i);
        }
        i = i + 1;
    }
    None
}

/// What the members hold under a name is the value of the first member of that name.
proof fn lemma_member_at(members: Vec<(String, Json)>, name: Seq<char>, at: Option<usize>)
    requires
        match at {
            Some(at) => at < members@.len() && members@[at as int].0@ == name && forall|k: int|
                0 <= k < at ==> (#[trigger] members@[k]).0@ != name,
            None => forall|k: int| 0 <= k < members@.len() ==> (#[trigger] members@[k]).0@ != name,
        },
    ensures
        lookup(members.deep_view(), name) == match at {
            Some(at) => Some(members@[at as int].1@),
            None => None,
        },
{
    let all = members.deep_view();
    assert forall|k: int| 0 <= k < all.len() implies (#[trigger] all[k]) == (members@[k].0@, members@[k].1@) by {
        assert(all[k] == members@[k].deep_view());
    }
    match at {
        Some(at) => {
            assert forall|k: int| 0 <= k < at implies (#[trigger] all[k]).0 != name by {
                assert(members@[k].0@ != name);
            }
            lemma_lookup_first(all, name, at as int);
        },
        None => {
            assert forall|k: int| 0 <= k < all.len() implies (#[trigger] all[k]).0 != name by {
                assert(members@[k].0@ != name);
            }
            lemma_lookup_none(all, name);
        },
    }
}

/// What the children hold under a name is the tree of the first child of that name.
proof fn lemma_child_at(children: Vec<(String, MqttMetadataTimestamp)>, name: Seq<char>, at: Option<usize>)
    requires
        match at {
            Some(at) => at < children@.len() && children@[at as int].0@ == name && forall|k: int|
                0 <= k < at ==> (#[trigger] children@[k]).0@ != name,
            None => forall|k: int| 0 <= k < children@.len() ==> (#[trigger] children@[k]).0@ != name,
        },
    ensures
        lookup(children_view(children@), name) == match at {
            Some(at) => Some(children@[at as int].1.deep_view()),
            None => None,
        },
{
    let all = children_view(children@);
    match at {
        Some(at) => {
            assert forall|k: int| 0 <= k < at implies (#[trigger] all[k]).0 != name by {
                assert(children@[k].0@ != name);
            }
            lemma_lookup_first(all, name, at as int);
        },
        None => {
            assert forall|k: int| 0 <= k < all.len() implies (#[trigger] all[k]).0 != name by {
                assert(children@[k].0@ != name);
            }
            lemma_lookup_none(all, name);
        },
    }
}

/// Whether a state has no leaf: it is an object, and so is all that it holds.
pub fn has_no_leaf(doc: &Json) -> (r: bool)
    ensures
        r == mirrored(Some(doc@), None),
    decreases doc,
{
    let ghost state = Some(doc@);
    let ghost metadata: Option<MqttMetadataTimestampView> = None;
    match doc {
        Json::Object(members) => {
            let ghost below = members.deep_view();
            let ghost under: Children = Seq::empty();
            proof {
                lemma_object_view(*members);
                assert(below == members_at(state));
                assert(under == children_at(metadata));
                lemma_mirrored_by_name(state, metadata);
            }
            let mut i: usize = 0;
            while i < members.len()
                invariant
                    i <= members.len(),
                    below == members.deep_view(),
                    under == Seq::<(Seq<char>, MqttMetadataTimestampView)>::empty(),
                    decreases_to!(*doc => *members),
                    state == Some(doc@),
                    metadata == None::<MqttMetadataTimestampView>,
                    mirrored(state, metadata) <==> forall|name: Seq<char>| #[trigger]
                        mirrored_at(below, under, name),
                    forall|k: int| 0 <= k < i ==> mirrored_at(below, under, (#[trigger] below[k]).0),
                decreases members.len() - i,
            {
                let name = members[i].0.as_str();
                let here = position(members, name);
                proof {
                    lemma_member_at(*members, name@, here);
                    lemma_lookup_none(under, name@);
                    assert(below[i as int] == members@[i as int].deep_view());
                }
                let at = here.unwrap();
                if !has_no_leaf(&members[at].1) {
                    assert(!mirrored_at(below, under, name@));
                    return false;
                }
                i = i + 1;
            }
            proof {
                lemma_mirrored_by_member(below, under);
            }
            true
        },
        _ => {
            proof {
                let root: Path = Seq::empty();
                assert(leads_to_leaf(state, root) != leads_to_stamp(metadata, root));
            }
            false
        },
    }
}

/// Whether a tree has no timestamp: it is an inner node, and so are all its children.
pub fn has_no_stamp(tree: &MqttMetadataTimestamp) -> (r: bool)
    ensures
        r == mirrored(None, Some(tree.deep_view())),
    decreases tree,
{
    let ghost state: Option<JsonValue> = None;
    let ghost metadata = Some(tree.deep_view());
    match tree {
        MqttMetadataTimestamp::Nested(children) => {
            let ghost below: Members = Seq::empty();
            let ghost under = children_view(children@);
            proof {
                lemma_nested_view(*children);
                assert(below == members_at(state));
                assert(under == children_at(metadata));
                lemma_mirrored_by_name(state, metadata);
            }
            let mut i: usize = 0;
            while i < children.len()
                invariant
                    i <= children.len(),
                    below == Seq::<(Seq<char>, JsonValue)>::empty(),
                    under == children_view(children@),
                    decreases_to!(*tree => *children),
                    state == None::<JsonValue>,
                    metadata == Some(tree.deep_view()),
                    mirrored(state, metadata) <==> forall|name: Seq<char>| #[trigger]
                        mirrored_at(below, under, name),
                    forall|k: int| 0 <= k < i ==> mirrored_at(below, under, (#[trigger] under[k]).0),
                decreases children.len() - i,
            {
                let name = children[i].0.as_str();
                let there = position(children, name);
                proof {
                    lemma_child_at(*children, name@, there);
                    lemma_lookup_none(below, name@);
                }
                let to = there.unwrap();
                if !has_no_stamp(&children[to].1) {
                    assert(!mirrored_at(below, under, name@));
                    return false;
                }
                i = i + 1;
            }
            proof {
                lemma_mirrored_by_member(below, under);
            }
            true
        },
        MqttMetadataTimestamp::Timestamp(_) => {
            proof {
                let root: Path = Seq::empty();
                assert(leads_to_leaf(state, root) != leads_to_stamp(metadata, root));
            }
            false
        },
    }
}

/// Whether a state and its metadata mirror each other.
pub fn mirrors(doc: &Json, tree: &MqttMetadataTimestamp) -> (r: bool)
    ensures
        r == mirrored(Some(doc@), Some(tree.deep_view())),
    decreases doc,
{
    let ghost state = Some(doc@);
    let ghost metadata = Some(tree.deep_view());
    let ghost root: Path = Seq::empty();
    match (doc, tree) {
        (Json::Object(members), MqttMetadataTimestamp::Nested(children)) => {
            let ghost below = members.deep_view();
            let ghost under = children_view(children@);
            proof {
                lemma_object_view(*members);
                lemma_nested_view(*children);
                assert(below == members_at(state));
                assert(under == children_at(metadata));
                lemma_mirrored_by_name(state, metadata);
            }
            let mut i: usize = 0;
            while i < members.len()
                invariant
                    i <= members.len(),
                    below == members.deep_view(),
                    under == children_view(children@),
                    decreases_to!(*doc => *members),
                    state == Some(doc@),
                    metadata == Some(tree.deep_view()),
                    mirrored(state, metadata) <==> forall|name: Seq<char>| #[trigger]
                        mirrored_at(below, under, name),
                    forall|k: int| 0 <= k < i ==> mirrored_at(below, under, (#[trigger] below[k]).0),
                decreases members.len() - i,
            {
                let name = members[i].0.as_str();
                let here = position(members, name);
                let there = position(children, name);
                proof {
                    lemma_member_at(*members, name@, here);
                    lemma_child_at(*children, name@, there);
                    assert(below[i as int] == members@[i as int].deep_view());
                }
                let at = here.unwrap();
                let same = match there {
                    Some(to) => mirrors(&members[at].1, &children[to].1),
                    None => has_no_leaf(&members[at].1),
                };
                if !same {
                    assert(!mirrored_at(below, under, name@));
                    return false;
                }
                i = i + 1;
            }
            let mut j: usize = 0;
            while j < children.len()
                invariant
                    j <= children.len(),
                    below == members.deep_view(),
                    under == children_view(children@),
                    state == Some(doc@),
                    metadata == Some(tree.deep_view()),
                    mirrored(state, metadata) <==> forall|name: Seq<char>| #[trigger]
                        mirrored_at(below, under, name),
                    forall|k: int| 0 <= k < below.len() ==> mirrored_at(below, under, (#[trigger] below[k]).0),
                    forall|k: int| 0 <= k < j ==> mirrored_at(below, under, (#[trigger] under[k]).0),
                decreases children.len() - j,
            {
                let name = children[j].0.as_str();
                let here = position(members, name);
                let there = position(children, name);
                proof {
                    lemma_member_at(*members, name@, here);
                    lemma_child_at(*children, name@, there);
                }
                match here {
                    Some(_) => {
                        proof {
                            let found = lemma_lookup_some(below, name@);
                            assert(mirrored_at(below, under, below[found].0));
                        }
                    },
                    None => {
                        let to = there.unwrap();
                        if !has_no_stamp(&children[to].1) {
                            assert(!mirrored_at(below, under, name@));
                            return false;
                        }
                    },
                }
                j = j + 1;
            }
            proof {
                lemma_mirrored_by_member(below, under);
            }
            true
        },
        (Json::Object(_), MqttMetadataTimestamp::Timestamp(_)) => {
            assert(leads_to_leaf(state, root) != leads_to_stamp(metadata, root));
            false
        },
        (_, MqttMetadataTimestamp::Nested(_)) => {
            assert(leads_to_leaf(state, root) != leads_to_stamp(metadata, root));
            false
        },
        (_, MqttMetadataTimestamp::Timestamp(_)) => {
            assert forall|path: Path| #[trigger] leads_to_leaf(state, path) == leads_to_stamp(metadata, path) by {}
            true
        },
    }
}

/// Whether a state and its metadata mirror each other, where either may be absent.
pub fn mirrors_if_present(doc: &Option<Json>, tree: &Option<MqttMetadataTimestamp>) -> (r: bool)
    ensures
        r == mirrored(doc.deep_view(), tree.deep_view()),
{
    match (doc, tree) {
        (Some(state), Some(metadata)) => mirrors(state, metadata),
        (Some(state), None) => has_no_leaf(state),
        (None, Some(metadata)) => has_no_stamp(metadata),
        (None, None) => {
            assert forall|path: Path| #[trigger]
                leads_to_leaf(None, path) == leads_to_stamp(None, path) by {}
            true
        },
    }
}

impl MqttResponse {
    /// Whether the state of the message and its metadata mirror each other: in an accepted
    /// update the desired state with its metadata and the reported state with its metadata,
    /// in a delta the state with its metadata. The other messages are not held to this.
    pub open spec fn spec_is_mirrored(message: MqttResponseView) -> bool {
        match message {
            MqttResponseView::UpdateAccepted(update) => {
                &&& mirrored(update.state.desired, update.metadata.desired)
                &&& mirrored(update.state.reported, update.metadata.reported)
            },
            MqttResponseView::UpdateDelta(update) => mirrored(Some(update.state), Some(update.metadata)),
            _ => true,
        }
    }

    /// Whether the state of the message and its metadata mirror each other. The vendor's
    /// protocol keeps them so; reading a message does not ask for it.
    pub fn is_mirrored(&self) -> (r: bool)
        ensures
            r == Self::spec_is_mirrored(self.deep_view()),
    {
        match self {
            MqttResponse::UpdateAccepted(update) => mirrors_if_present(
                &update.state.desired,
                &update.metadata.desired,
            ) && mirrors_if_present(&update.state.reported, &update.metadata.reported),
            MqttResponse::UpdateDelta(update) => mirrors(&update.state, &update.metadata),
            _ => true,
        }
    }
}

impl MqttResponse {
    /// What a document is read as where the message is held to the vendor's protocol: what it
    /// is read as by its shape, unless its state and metadata do not mirror each other.
    pub open spec fn spec_decode_mirrored(doc: JsonValue, mode: Strictness) -> Result<
        MqttResponseView,
        DecodeErrorView,
    > {
        match MqttResponse::spec_decode(doc, mode) {
            Ok(message) => if Self::spec_is_mirrored(message) {
                Ok(message)
            } else {
                Err(DecodeErrorView::Unmirrored)
            },
            Err(error) => Err(error),
        }
    }

    /// Reads a message and holds it to the vendor's protocol: a message whose state and
    /// metadata do not mirror each other is refused.
    pub fn decode_mirrored(doc: &Json, mode: Strictness) -> (r: Result<MqttResponse, DecodeError>)
        ensures
            outcome(r) == Self::spec_decode_mirrored(doc@, mode),
    {
        match MqttResponse::decode(doc, mode) {
            Ok(message) => if message.is_mirrored() {
                Ok(message)
            } else {
                Err(DecodeError::Unmirrored)
            },
            Err(error) => Err(error),
        }
    }
}

/// In every delta and every accepted update that `decode_mirrored` reads, a path leads to a
/// leaf of the state exactly where it leads to a timestamp of its metadata.
pub proof fn lemma_read_mirrored(doc: JsonValue, mode: Strictness, path: Path)
    requires
        MqttResponse::spec_decode_mirrored(doc, mode) is Ok,
    ensures
        match MqttResponse::spec_decode_mirrored(doc, mode)->Ok_0 {
            MqttResponseView::UpdateDelta(update) => is_leaf_path(update.state, path) == is_stamp_path(
                update.metadata,
                path,
            ),
            MqttResponseView::UpdateAccepted(update) => leads_to_leaf(update.state.desired, path) == leads_to_stamp(
                update.metadata.desired,
                path,
            ) && leads_to_leaf(update.state.reported, path) == leads_to_stamp(update.metadata.reported, path),
            _ => true,
        },
{
    match MqttResponse::spec_decode_mirrored(doc, mode)->Ok_0 {
        MqttResponseView::UpdateDelta(update) => {
            lemma_delta_leaves(update, path);
        },
        MqttResponseView::UpdateAccepted(update) => {
            lemma_accepted_leaves(update, path);
        },
        _ => {},
    }
}

/// In a delta whose state and metadata mirror each other, a path leads to a leaf of the
/// state exactly where it leads to a timestamp of the metadata.
pub proof fn lemma_delta_leaves(update: UpdateDeltaView, path: Path)
    requires
        MqttResponse::spec_is_mirrored(MqttResponseView::UpdateDelta(update)),
    ensures
        is_leaf_path(update.state, path) == is_stamp_path(update.metadata, path),
{
    assert(leads_to_leaf(Some(update.state), path) == leads_to_stamp(Some(update.metadata), path));
}

/// In an accepted update whose state and metadata mirror each other, a path leads to a leaf
/// of the desired state exactly where it leads to a timestamp of its metadata, and so for
/// the reported state.
pub proof fn lemma_accepted_leaves(update: UpdateAcceptedView, path: Path)
    requires
        MqttResponse::spec_is_mirrored(MqttResponseView::UpdateAccepted(update)),
    ensures
        leads_to_leaf(update.state.desired, path) == leads_to_stamp(update.metadata.desired, path),
        leads_to_leaf(update.state.reported, path) == leads_to_stamp(update.metadata.reported, path),
{
}

} // verus!
