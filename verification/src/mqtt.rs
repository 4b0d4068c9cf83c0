//! The messages of the update feed of a device.

use vstd::prelude::*;
use crate::error::{attempt, mismatch, no_attempts, outcome, DecodeError, DecodeErrorView, Expected, Strictness};
use crate::json::{
    distinct_names, lemma_lookup_add, lemma_lookup_empty, lemma_lookup_push, lemma_lookup_some,
    lemma_names_once_below, lemma_object_view, lookup, names_once, Json, JsonValue, Members,
};
use crate::json::find;
use crate::record::{
    carried, close, lemma_undeclared_close, lemma_undeclared_empty, lemma_undeclared_push, open, put, refuse,
    spec_close, spec_open, spec_refuse, spec_undeclared, start, undeclared,
};
use crate::text::same_text;
use crate::wire::{field, spec_field, Decode, Encode, Record};

verus! {

/// When the leaves of a state document were last written. The tree has the shape of the
/// state document that it belongs to: a timestamp stands where the state holds a value, and
/// an inner node where the state holds an object. On the wire a timestamp is the object
/// `{"timestamp": n}`, and an inner node the object of its children. No name occurs twice
/// among the children of a node that was read from a text.
#[derive(Debug, PartialEq, Eq)]
pub enum MqttMetadataTimestamp {
    Timestamp(u32),
    Nested(Vec<(String, MqttMetadataTimestamp)>),
}

/// Mathematical model of a [`MqttMetadataTimestamp`].
pub enum MqttMetadataTimestampView {
    Timestamp(u32),
    Nested(Seq<(Seq<char>, MqttMetadataTimestampView)>),
}

/// The children of an inner node, in the order in which the node holds them.
pub type Children = Seq<(Seq<char>, MqttMetadataTimestampView)>;

/// The model of one child of an inner node: its name and the model of its tree.
pub open spec fn child_view(child: (String, MqttMetadataTimestamp)) -> (Seq<char>, MqttMetadataTimestampView)
    decreases child,
{
    (child.0@, child.1.deep_view())
}

impl DeepView for MqttMetadataTimestamp {
    type V = MqttMetadataTimestampView;

    open spec fn deep_view(&self) -> MqttMetadataTimestampView
        decreases self,
    {
        match self {
            MqttMetadataTimestamp::Timestamp(at) => MqttMetadataTimestampView::Timestamp(*at),
            MqttMetadataTimestamp::Nested(children) => MqttMetadataTimestampView::Nested(
                Seq::new(
                    children@.len(),
                    |i: int|
                        if 0 <= i < children@.len() {
                            child_view(children@[i])
                        } else {
                            (Seq::empty(), MqttMetadataTimestampView::Timestamp(0))
                        },
                ),
            ),
        }
    }
}

/// Whether no node of the tree, at any depth, has two children of the same name.
pub open spec fn children_once(tree: MqttMetadataTimestampView) -> bool
    decreases tree,
{
    match tree {
        MqttMetadataTimestampView::Timestamp(_) => true,
        MqttMetadataTimestampView::Nested(children) => distinct_names(children) && forall|i: int|
            0 <= i < children.len() ==> children_once((#[trigger] children[i]).1),
    }
}

/// The model of the children of an inner node, in order.
pub open spec fn children_view(children: Seq<(String, MqttMetadataTimestamp)>) -> Children {
    Seq::new(children.len(), |i: int| child_view(children[i]))
}

/// The model of an inner node is made of the models of its children.
pub proof fn lemma_nested_view(children: Vec<(String, MqttMetadataTimestamp)>)
    ensures
        MqttMetadataTimestamp::Nested(children).deep_view() == MqttMetadataTimestampView::Nested(
            children_view(children@),
        ),
{
    assert(MqttMetadataTimestamp::Nested(children).deep_view() matches MqttMetadataTimestampView::Nested(nodes)
        && nodes =~= children_view(children@));
}

/// Whether the members of an object are those of a timestamp: the one key `timestamp`, with
/// a number that fits 32 bits.
pub open spec fn spec_is_stamp(members: Members) -> bool {
    &&& members.len() == 1
    &&& members[0].0 == "timestamp"@
    &&& u32::spec_decode(members[0].1, Strictness::Strict) is Ok
}

impl MqttMetadataTimestamp {
    /// What a document is read as: an object that is a timestamp as that timestamp, any
    /// other object as an inner node with its members as children.
    pub open spec fn spec_read(doc: JsonValue) -> Result<MqttMetadataTimestampView, DecodeErrorView>
        decreases doc, 1nat, 0nat,
    {
        match doc {
            JsonValue::Object(members) => if spec_is_stamp(members) {
                Ok(MqttMetadataTimestampView::Timestamp(u32::spec_decode(members[0].1, Strictness::Strict)->Ok_0))
            } else {
                match Self::spec_read_children(doc, members.len()) {
                    Ok(children) => Ok(MqttMetadataTimestampView::Nested(children)),
                    Err(error) => Err(error),
                }
            },
            _ => Err(DecodeErrorView::Mismatch(Expected::Object)),
        }
    }

    /// What the first `count` members of an object are read as, as children of an inner node.
    /// The first member that is no tree decides the error.
    pub open spec fn spec_read_children(doc: JsonValue, count: nat) -> Result<Children, DecodeErrorView>
        decreases doc, 0nat, count,
    {
        if count == 0 || !(doc is Object) || count > doc->Object_0.len() {
            Ok(Seq::empty())
        } else {
            let member = doc->Object_0[count - 1];
            match Self::spec_read_children(doc, (count - 1) as nat) {
                Err(error) => Err(error),
                Ok(children) => match Self::spec_read(member.1) {
                    Ok(child) => Ok(children.push((member.0, child))),
                    Err(cause) => Err(DecodeErrorView::Field(member.0, Box::new(cause))),
                },
            }
        }
    }

    /// The document that a tree is written as.
    pub open spec fn spec_write(value: MqttMetadataTimestampView) -> JsonValue
        decreases value, 1nat, 0nat,
    {
        match value {
            MqttMetadataTimestampView::Timestamp(at) => JsonValue::Object(
                Seq::empty().push(("timestamp"@, u32::spec_encode(at))),
            ),
            MqttMetadataTimestampView::Nested(children) => JsonValue::Object(
                Self::spec_write_children(value, children.len()),
            ),
        }
    }

    /// The members that the first `count` children of an inner node are written as.
    pub open spec fn spec_write_children(value: MqttMetadataTimestampView, count: nat) -> Members
        decreases value, 0nat, count,
    {
        if count == 0 || !(value is Nested) || count > value->Nested_0.len() {
            Seq::empty()
        } else {
            let child = value->Nested_0[count - 1];
            Self::spec_write_children(value, (count - 1) as nat).push((child.0, Self::spec_write(child.1)))
        }
    }

    /// Reads a tree from a document.
    pub fn read(doc: &Json) -> (r: Result<MqttMetadataTimestamp, DecodeError>)
        ensures
            outcome(r) == Self::spec_read(doc@),
        decreases doc,
    {
        match doc {
            Json::Object(members) => {
                proof {
                    lemma_object_view(*members);
                }
                let ghost all = members.deep_view();
                if members.len() == 1 && same_text(members[0].0.as_str(), "timestamp") {
                    assert(all[0] == members@[0].deep_view());
                    match u32::decode(&members[0].1, Strictness::Strict) {
                        Ok(at) => {
                            return Ok(MqttMetadataTimestamp::Timestamp(at));
                        },
                        Err(_) => {},
                    }
                }
                assert(!spec_is_stamp(all));
                let mut children: Vec<(String, MqttMetadataTimestamp)> = Vec::new();
                let mut i: usize = 0;
                assert(children_view(children@) =~= Seq::empty());
                while i < members.len()
                    invariant
                        i <= members.len(),
                        all == members.deep_view(),
                        doc@ == JsonValue::Object(all),
                        !spec_is_stamp(all),
                        decreases_to!(*doc => *members),
                        Self::spec_read_children(doc@, i as nat) == Ok::<Children, DecodeErrorView>(
                            children_view(children@),
                        ),
                    decreases members.len() - i,
                {
                    assert(all[i as int] == members@[i as int].deep_view());
                    match Self::read(&members[i].1) {
                        Ok(child) => {
                            let ghost before = children_view(children@);
                            children.push((members[i].0.clone(), child));
                            assert(children_view(children@) =~= before.push((all[i as int].0, child.deep_view())));
                        },
                        Err(cause) => {
                            proof {
                                assert(Self::spec_read_children(doc@, (i + 1) as nat) == Err::<Children, DecodeErrorView>(
                                    DecodeErrorView::Field(all[i as int].0, Box::new(cause@)),
                                ));
                                Self::lemma_first_failure(doc@, (i + 1) as nat, all.len());
                            }
                            return Err(DecodeError::Field(members[i].0.clone(), Box::new(cause)));
                        },
                    }
                    i = i + 1;
                }
                proof {
                    lemma_nested_view(children);
                }
                Ok(MqttMetadataTimestamp::Nested(children))
            },
            _ => Err(DecodeError::Mismatch(Expected::Object)),
        }
    }

    /// Once a member is no tree, reading more members ends in the same error.
    pub proof fn lemma_first_failure(doc: JsonValue, failed: nat, count: nat)
        requires
            doc is Object,
            failed <= count <= doc->Object_0.len(),
            Self::spec_read_children(doc, failed) is Err,
        ensures
            Self::spec_read_children(doc, count) == Self::spec_read_children(doc, failed),
        decreases count,
    {
        if count > failed {
            Self::lemma_first_failure(doc, failed, (count - 1) as nat);
        }
    }

    /// The children that are read from the first members of an object bear the names of
    /// those members, and where the object holds no name twice at any depth, neither does any
    /// of them.
    pub proof fn lemma_children_once(doc: JsonValue, count: nat)
        requires
            names_once(doc),
            doc is Object,
            count <= doc->Object_0.len(),
            Self::spec_read_children(doc, count) is Ok,
        ensures
            Self::spec_read_children(doc, count)->Ok_0.len() == count,
            forall|i: int|
                0 <= i < count ==> {
                    let child = #[trigger] Self::spec_read_children(doc, count)->Ok_0[i];
                    child.0 == doc->Object_0[i].0 && children_once(child.1)
                },
        decreases doc, 0nat, count,
    {
        if count > 0 {
            let member = doc->Object_0[count - 1];
            assert(names_once(member.1));
            Self::lemma_children_once(doc, (count - 1) as nat);
            Self::lemma_tree_once(member.1);
        }
    }

    /// A tree that is read from a document without a name twice has no two children of the
    /// same name under any node.
    pub proof fn lemma_tree_once(doc: JsonValue)
        requires
            names_once(doc),
            Self::spec_read(doc) is Ok,
        ensures
            children_once(Self::spec_read(doc)->Ok_0),
        decreases doc, 1nat, 0nat,
    {
        match doc {
            JsonValue::Object(members) => {
                if !spec_is_stamp(members) {
                    Self::lemma_children_once(doc, members.len());
                    let children = Self::spec_read_children(doc, members.len())->Ok_0;
                    assert forall|i: int, j: int| 0 <= i < j < children.len() implies (#[trigger] children[i]).0 != (
                    #[trigger] children[j]).0 by {
                        assert(members[i].0 != members[j].0);
                    }
                }
            },
            _ => {},
        }
    }

    /// Writes a tree as a document.
    pub fn write(&self) -> (r: Json)
        ensures
            r@ == Self::spec_write(self.deep_view()),
        decreases self,
    {
        match self {
            MqttMetadataTimestamp::Timestamp(at) => {
                let mut members = start();
                put(&mut members, "timestamp", at.encode());
                proof {
                    lemma_object_view(members);
                }
                Json::Object(members)
            },
            MqttMetadataTimestamp::Nested(children) => {
                proof {
                    lemma_nested_view(*children);
                }
                let ghost value = self.deep_view();
                let mut members = start();
                let mut i: usize = 0;
                while i < children.len()
                    invariant
                        i <= children.len(),
                        value == self.deep_view(),
                        value == MqttMetadataTimestampView::Nested(children_view(children@)),
                        decreases_to!(*self => *children),
                        members.deep_view() == Self::spec_write_children(value, i as nat),
                    decreases children.len() - i,
                {
                    let ghost before = members.deep_view();
                    let doc = children[i].1.write();
                    members.push((children[i].0.clone(), doc));
                    assert(members.deep_view() =~= before.push((children@[i as int].0@, doc@)));
                    i = i + 1;
                }
                proof {
                    lemma_object_view(members);
                }
                Json::Object(members)
            },
        }
    }

    /// A written tree is never taken for a timestamp unless it is one: an inner node is
    /// written as an object whose members are all objects.
    pub proof fn lemma_written_children(value: MqttMetadataTimestampView, count: nat)
        requires
            value is Nested,
            count <= value->Nested_0.len(),
        ensures
            Self::spec_write_children(value, count).len() == count,
            forall|i: int|
                0 <= i < count ==> (#[trigger] Self::spec_write_children(value, count)[i]) == (
                    value->Nested_0[i].0,
                    Self::spec_write(value->Nested_0[i].1),
                ),
        decreases count,
    {
        if count > 0 {
            Self::lemma_written_children(value, (count - 1) as nat);
        }
    }

    /// Reading the first members of a written inner node gives back its first children.
    pub proof fn lemma_children_round_trip(value: MqttMetadataTimestampView, count: nat)
        requires
            value is Nested,
            count <= value->Nested_0.len(),
        ensures
            Self::spec_read_children(Self::spec_write(value), count) == Ok::<Children, DecodeErrorView>(
                value->Nested_0.take(count as int),
            ),
        decreases value, 0nat, count,
    {
        let children = value->Nested_0;
        Self::lemma_written_children(value, children.len());
        if count == 0 {
            assert(children.take(0) =~= Seq::empty());
        } else {
            Self::lemma_children_round_trip(value, (count - 1) as nat);
            Self::lemma_tree_round_trip(children[count - 1].1);
            assert(children.take(count as int) =~= children.take(count - 1).push(children[count - 1]));
        }
    }

    /// Reading a written tree gives back the tree.
    pub proof fn lemma_tree_round_trip(value: MqttMetadataTimestampView)
        ensures
            Self::spec_read(Self::spec_write(value)) == Ok::<MqttMetadataTimestampView, DecodeErrorView>(value),
        decreases value, 1nat, 0nat,
    {
        match value {
            MqttMetadataTimestampView::Timestamp(at) => {
                let members = Seq::empty().push(("timestamp"@, u32::spec_encode(at)));
                assert(spec_is_stamp(members));
            },
            MqttMetadataTimestampView::Nested(children) => {
                Self::lemma_written_children(value, children.len());
                Self::lemma_children_round_trip(value, children.len());
                assert(children.take(children.len() as int) =~= children);
                let members = Self::spec_write_children(value, children.len());
                if members.len() == 1 {
                    assert(members[0].1 == Self::spec_write(children[0].1));
                    assert(Self::spec_write(children[0].1) is Object);
                }
            },
        }
    }
}

impl Decode for MqttMetadataTimestamp {
    open spec fn spec_decode(doc: JsonValue, mode: Strictness) -> Result<MqttMetadataTimestampView, DecodeErrorView> {
        MqttMetadataTimestamp::spec_read(doc)
    }

    open spec fn spec_absent() -> Option<MqttMetadataTimestampView> {
        None
    }

    fn decode(doc: &Json, mode: Strictness) -> (r: Result<MqttMetadataTimestamp, DecodeError>) {
        MqttMetadataTimestamp::read(doc)
    }

    fn absent() -> (r: Option<MqttMetadataTimestamp>) {
        None
    }
}

/// Every tree comes back unchanged.
impl Encode for MqttMetadataTimestamp {
    open spec fn spec_encode(value: MqttMetadataTimestampView) -> JsonValue {
        MqttMetadataTimestamp::spec_write(value)
    }

    open spec fn faithful(value: MqttMetadataTimestampView, mode: Strictness) -> bool {
        true
    }

    fn encode(&self) -> (r: Json) {
        self.write()
    }

    proof fn round_trip(value: MqttMetadataTimestampView, mode: Strictness) {
        MqttMetadataTimestamp::lemma_tree_round_trip(value);
    }
}

/// When the leaves of the desired and of the reported state were last written.
#[derive(Debug, PartialEq, Eq)]
pub struct MqttMetadata {
    pub desired: Option<MqttMetadataTimestamp>,
    pub reported: Option<MqttMetadataTimestamp>,
    /// Members that the record does not declare.
    pub extra: Vec<(String, Json)>,
}

/// Mathematical model of a [`MqttMetadata`].
pub struct MqttMetadataView {
    pub desired: Option<MqttMetadataTimestampView>,
    pub reported: Option<MqttMetadataTimestampView>,
    pub extra: Members,
}

impl DeepView for MqttMetadata {
    type V = MqttMetadataView;

    open spec fn deep_view(&self) -> MqttMetadataView {
        MqttMetadataView {
            desired: self.desired.deep_view(),
            reported: self.reported.deep_view(),
            extra: self.extra.deep_view(),
        }
    }
}

impl Record for MqttMetadata {
    open spec fn spec_declares(name: Seq<char>) -> bool {
        ||| name == "desired"@
        ||| name == "reported"@
    }

    fn declares(name: &str) -> (r: bool) {
        same_text(name, "desired") || same_text(name, "reported")
    }
}

impl MqttMetadata {
    /// What a document is read as.
    #[verifier::opaque]
    pub open spec fn spec_read(doc: JsonValue, mode: Strictness) -> Result<MqttMetadataView, DecodeErrorView> {
        match spec_open::<MqttMetadata>(doc, mode) { Err(e) => Err(e), Ok(members) =>
        match spec_field::<Option<MqttMetadataTimestamp>>(members, "desired"@, mode) { Err(e) => Err(e), Ok(desired) =>
        match spec_field::<Option<MqttMetadataTimestamp>>(members, "reported"@, mode) { Err(e) => Err(e), Ok(reported) =>
            Ok(MqttMetadataView {
                desired,
                reported,
                extra: spec_undeclared::<MqttMetadata>(members),
            })
        }}}
    }

    /// The document that a value is written as.
    #[verifier::opaque]
    pub open spec fn spec_write(value: MqttMetadataView) -> JsonValue {
        spec_close(
            Seq::empty()
                .push(("desired"@, Option::<MqttMetadataTimestamp>::spec_encode(value.desired)))
                .push(("reported"@, Option::<MqttMetadataTimestamp>::spec_encode(value.reported))),
            value.extra,
        )
    }
}

impl Decode for MqttMetadata {
    open spec fn spec_decode(doc: JsonValue, mode: Strictness) -> Result<MqttMetadataView, DecodeErrorView> {
        MqttMetadata::spec_read(doc, mode)
    }

    open spec fn spec_absent() -> Option<MqttMetadataView> {
        None
    }

    fn decode(doc: &Json, mode: Strictness) -> (r: Result<MqttMetadata, DecodeError>) {
        reveal(MqttMetadata::spec_read);
        let members = open::<MqttMetadata>(doc, mode)?;
        let desired = field::<Option<MqttMetadataTimestamp>>(members, "desired", mode)?;
        let reported = field::<Option<MqttMetadataTimestamp>>(members, "reported", mode)?;
        let extra = undeclared::<MqttMetadata>(members);
        Ok(MqttMetadata { desired, reported, extra })
    }

    fn absent() -> (r: Option<MqttMetadata>) {
        None
    }
}

impl Encode for MqttMetadata {
    open spec fn spec_encode(value: MqttMetadataView) -> JsonValue {
        MqttMetadata::spec_write(value)
    }

    open spec fn faithful(value: MqttMetadataView, mode: Strictness) -> bool {
        &&& Option::<MqttMetadataTimestamp>::faithful(value.desired, mode)
        &&& Option::<MqttMetadataTimestamp>::faithful(value.reported, mode)
        &&& carried::<MqttMetadata>(value.extra, mode)
    }

    fn encode(&self) -> (r: Json) {
        reveal(MqttMetadata::spec_write);
        let mut fields = start();
        put(&mut fields, "desired", self.desired.encode());
        put(&mut fields, "reported", self.reported.encode());
        close(fields, &self.extra)
    }

    proof fn round_trip(value: MqttMetadataView, mode: Strictness) {
        reveal(MqttMetadata::spec_read);
        reveal(MqttMetadata::spec_write);
        broadcast use {
            lemma_lookup_empty,
            lemma_lookup_push,
            lemma_lookup_add,
            lemma_undeclared_empty,
            lemma_undeclared_push,
        };
        // Two names differ in their length or in one of the letters named here.
        reveal_strlit("desired");
        reveal_strlit("reported");
        assert("desired"@.len() == 7);
        assert("reported"@.len() == 8);
        Option::<MqttMetadataTimestamp>::round_trip(value.desired, mode);
        Option::<MqttMetadataTimestamp>::round_trip(value.reported, mode);
        let fields = Seq::empty()
            .push(("desired"@, Option::<MqttMetadataTimestamp>::spec_encode(value.desired)))
            .push(("reported"@, Option::<MqttMetadataTimestamp>::spec_encode(value.reported)));
        let members = fields + value.extra;
        assert(spec_undeclared::<MqttMetadata>(fields).len() == 0);
        lemma_undeclared_close::<MqttMetadata>(fields, value.extra);
        assert(spec_open::<MqttMetadata>(MqttMetadata::spec_encode(value), mode) == Ok::<Members, DecodeErrorView>(members));
        assert(spec_field::<Option<MqttMetadataTimestamp>>(members, "desired"@, mode) == Ok::<Option<MqttMetadataTimestampView>, DecodeErrorView>(value.desired));
        assert(spec_field::<Option<MqttMetadataTimestamp>>(members, "reported"@, mode) == Ok::<Option<MqttMetadataTimestampView>, DecodeErrorView>(value.reported));
    }
}

/// The desired and the reported state of a device, neither interpreted.
#[derive(Debug, PartialEq, Eq)]
pub struct MqttState {
    pub desired: Option<Json>,
    pub reported: Option<Json>,
    /// Members that the record does not declare.
    pub extra: Vec<(String, Json)>,
}

/// Mathematical model of a [`MqttState`].
pub struct MqttStateView {
    pub desired: Option<JsonValue>,
    pub reported: Option<JsonValue>,
    pub extra: Members,
}

impl DeepView for MqttState {
    type V = MqttStateView;

    open spec fn deep_view(&self) -> MqttStateView {
        MqttStateView {
            desired: self.desired.deep_view(),
            reported: self.reported.deep_view(),
            extra: self.extra.deep_view(),
        }
    }
}

impl Record for MqttState {
    open spec fn spec_declares(name: Seq<char>) -> bool {
        ||| name == "desired"@
        ||| name == "reported"@
    }

    fn declares(name: &str) -> (r: bool) {
        same_text(name, "desired") || same_text(name, "reported")
    }
}

impl MqttState {
    /// What a document is read as.
    #[verifier::opaque]
    pub open spec fn spec_read(doc: JsonValue, mode: Strictness) -> Result<MqttStateView, DecodeErrorView> {
        match spec_open::<MqttState>(doc, mode) { Err(e) => Err(e), Ok(members) =>
        match spec_field::<Option<Json>>(members, "desired"@, mode) { Err(e) => Err(e), Ok(desired) =>
        match spec_field::<Option<Json>>(members, "reported"@, mode) { Err(e) => Err(e), Ok(reported) =>
            Ok(MqttStateView {
                desired,
                reported,
                extra: spec_undeclared::<MqttState>(members),
            })
        }}}
    }

    /// The document that a value is written as.
    #[verifier::opaque]
    pub open spec fn spec_write(value: MqttStateView) -> JsonValue {
        spec_close(
            Seq::empty()
                .push(("desired"@, Option::<Json>::spec_encode(value.desired)))
                .push(("reported"@, Option::<Json>::spec_encode(value.reported))),
            value.extra,
        )
    }
}

impl Decode for MqttState {
    open spec fn spec_decode(doc: JsonValue, mode: Strictness) -> Result<MqttStateView, DecodeErrorView> {
        MqttState::spec_read(doc, mode)
    }

    open spec fn spec_absent() -> Option<MqttStateView> {
        None
    }

    fn decode(doc: &Json, mode: Strictness) -> (r: Result<MqttState, DecodeError>) {
        reveal(MqttState::spec_read);
        let members = open::<MqttState>(doc, mode)?;
        let desired = field::<Option<Json>>(members, "desired", mode)?;
        let reported = field::<Option<Json>>(members, "reported", mode)?;
        let extra = undeclared::<MqttState>(members);
        Ok(MqttState { desired, reported, extra })
    }

    fn absent() -> (r: Option<MqttState>) {
        None
    }
}

impl Encode for MqttState {
    open spec fn spec_encode(value: MqttStateView) -> JsonValue {
        MqttState::spec_write(value)
    }

    open spec fn faithful(value: MqttStateView, mode: Strictness) -> bool {
        &&& Option::<Json>::faithful(value.desired, mode)
        &&& Option::<Json>::faithful(value.reported, mode)
        &&& carried::<MqttState>(value.extra, mode)
    }

    fn encode(&self) -> (r: Json) {
        reveal(MqttState::spec_write);
        let mut fields = start();
        put(&mut fields, "desired", self.desired.encode());
        put(&mut fields, "reported", self.reported.encode());
        close(fields, &self.extra)
    }

    proof fn round_trip(value: MqttStateView, mode: Strictness) {
        reveal(MqttState::spec_read);
        reveal(MqttState::spec_write);
        broadcast use {
            lemma_lookup_empty,
            lemma_lookup_push,
            lemma_lookup_add,
            lemma_undeclared_empty,
            lemma_undeclared_push,
        };
        // Two names differ in their length or in one of the letters named here.
        reveal_strlit("desired");
        reveal_strlit("reported");
        assert("desired"@.len() == 7);
        assert("reported"@.len() == 8);
        Option::<Json>::round_trip(value.desired, mode);
        Option::<Json>::round_trip(value.reported, mode);
        let fields = Seq::empty()
            .push(("desired"@, Option::<Json>::spec_encode(value.desired)))
            .push(("reported"@, Option::<Json>::spec_encode(value.reported)));
        let members = fields + value.extra;
        assert(spec_undeclared::<MqttState>(fields).len() == 0);
        lemma_undeclared_close::<MqttState>(fields, value.extra);
        assert(spec_open::<MqttState>(MqttState::spec_encode(value), mode) == Ok::<Members, DecodeErrorView>(members));
        assert(spec_field::<Option<Json>>(members, "desired"@, mode) == Ok::<Option<JsonValue>, DecodeErrorView>(value.desired));
        assert(spec_field::<Option<Json>>(members, "reported"@, mode) == Ok::<Option<JsonValue>, DecodeErrorView>(value.reported));
    }
}

/// One whole shadow document: the state, its timestamps and its version.
#[derive(Debug, PartialEq, Eq)]
pub struct MqttDocumentsState {
    pub state: MqttState,
    pub metadata: MqttMetadata,
    pub version: u32,
    /// Members that the record does not declare.
    pub extra: Vec<(String, Json)>,
}

/// Mathematical model of a [`MqttDocumentsState`].
pub struct MqttDocumentsStateView {
    pub state: MqttStateView,
    pub metadata: MqttMetadataView,
    pub version: u32,
    pub extra: Members,
}

impl DeepView for MqttDocumentsState {
    type V = MqttDocumentsStateView;

    open spec fn deep_view(&self) -> MqttDocumentsStateView {
        MqttDocumentsStateView {
            state: self.state.deep_view(),
            metadata: self.metadata.deep_view(),
            version: self.version,
            extra: self.extra.deep_view(),
        }
    }
}

impl Record for MqttDocumentsState {
    open spec fn spec_declares(name: Seq<char>) -> bool {
        ||| name == "state"@
        ||| name == "metadata"@
        ||| name == "version"@
    }

    fn declares(name: &str) -> (r: bool) {
        same_text(name, "state") || same_text(name, "metadata") || same_text(name, "version")
    }
}

impl MqttDocumentsState {
    /// What a document is read as.
    #[verifier::opaque]
    pub open spec fn spec_read(doc: JsonValue, mode: Strictness) -> Result<MqttDocumentsStateView, DecodeErrorView> {
        match spec_open::<MqttDocumentsState>(doc, mode) { Err(e) => Err(e), Ok(members) =>
        match spec_field::<MqttState>(members, "state"@, mode) { Err(e) => Err(e), Ok(state) =>
        match spec_field::<MqttMetadata>(members, "metadata"@, mode) { Err(e) => Err(e), Ok(metadata) =>
        match spec_field::<u32>(members, "version"@, mode) { Err(e) => Err(e), Ok(version) =>
            Ok(MqttDocumentsStateView {
                state,
                metadata,
                version,
                extra: spec_undeclared::<MqttDocumentsState>(members),
            })
        }}}}
    }

    /// The document that a value is written as.
    #[verifier::opaque]
    pub open spec fn spec_write(value: MqttDocumentsStateView) -> JsonValue {
        spec_close(
            Seq::empty()
                .push(("state"@, MqttState::spec_encode(value.state)))
                .push(("metadata"@, MqttMetadata::spec_encode(value.metadata)))
                .push(("version"@, u32::spec_encode(value.version))),
            value.extra,
        )
    }
}

impl Decode for MqttDocumentsState {
    open spec fn spec_decode(doc: JsonValue, mode: Strictness) -> Result<MqttDocumentsStateView, DecodeErrorView> {
        MqttDocumentsState::spec_read(doc, mode)
    }

    open spec fn spec_absent() -> Option<MqttDocumentsStateView> {
        None
    }

    fn decode(doc: &Json, mode: Strictness) -> (r: Result<MqttDocumentsState, DecodeError>) {
        reveal(MqttDocumentsState::spec_read);
        let members = open::<MqttDocumentsState>(doc, mode)?;
        let state = field::<MqttState>(members, "state", mode)?;
        let metadata = field::<MqttMetadata>(members, "metadata", mode)?;
        let version = field::<u32>(members, "version", mode)?;
        let extra = undeclared::<MqttDocumentsState>(members);
        Ok(MqttDocumentsState { state, metadata, version, extra })
    }

    fn absent() -> (r: Option<MqttDocumentsState>) {
        None
    }
}

impl Encode for MqttDocumentsState {
    open spec fn spec_encode(value: MqttDocumentsStateView) -> JsonValue {
        MqttDocumentsState::spec_write(value)
    }

    open spec fn faithful(value: MqttDocumentsStateView, mode: Strictness) -> bool {
        &&& MqttState::faithful(value.state, mode)
        &&& MqttMetadata::faithful(value.metadata, mode)
        &&& carried::<MqttDocumentsState>(value.extra, mode)
    }

    fn encode(&self) -> (r: Json) {
        reveal(MqttDocumentsState::spec_write);
        let mut fields = start();
        put(&mut fields, "state", self.state.encode());
        put(&mut fields, "metadata", self.metadata.encode());
        put(&mut fields, "version", self.version.encode());
        close(fields, &self.extra)
    }

    proof fn round_trip(value: MqttDocumentsStateView, mode: Strictness) {
        reveal(MqttDocumentsState::spec_read);
        reveal(MqttDocumentsState::spec_write);
        broadcast use {
            lemma_lookup_empty,
            lemma_lookup_push,
            lemma_lookup_add,
            lemma_undeclared_empty,
            lemma_undeclared_push,
        };
        // Two names differ in their length or in one of the letters named here.
        reveal_strlit("state");
        reveal_strlit("metadata");
        reveal_strlit("version");
        assert("state"@.len() == 5);
        assert("metadata"@.len() == 8);
        assert("version"@.len() == 7);
        MqttState::round_trip(value.state, mode);
        MqttMetadata::round_trip(value.metadata, mode);
        let fields = Seq::empty()
            .push(("state"@, MqttState::spec_encode(value.state)))
            .push(("metadata"@, MqttMetadata::spec_encode(value.metadata)))
            .push(("version"@, u32::spec_encode(value.version)));
        let members = fields + value.extra;
        assert(spec_undeclared::<MqttDocumentsState>(fields).len() == 0);
        lemma_undeclared_close::<MqttDocumentsState>(fields, value.extra);
        assert(spec_open::<MqttDocumentsState>(MqttDocumentsState::spec_encode(value), mode) == Ok::<Members, DecodeErrorView>(members));
        assert(spec_field::<MqttState>(members, "state"@, mode) == Ok::<MqttStateView, DecodeErrorView>(value.state));
        assert(spec_field::<MqttMetadata>(members, "metadata"@, mode) == Ok::<MqttMetadataView, DecodeErrorView>(value.metadata));
        assert(spec_field::<u32>(members, "version"@, mode) == Ok::<u32, DecodeErrorView>(value.version));
    }
}

/// An update was accepted: the whole desired and reported state that it left. Its state holds
/// the split into `desired` and `reported`; an object that holds a key of another kind of
/// message is refused in either mode.
#[derive(Debug, PartialEq, Eq)]
pub struct UpdateAccepted {
    pub state: MqttState,
    pub metadata: MqttMetadata,
    pub timestamp: u64,
    pub client_token: Option<String>,
    pub version: u32,
    /// Members that the record does not declare.
    pub extra: Vec<(String, Json)>,
}

/// Mathematical model of a [`UpdateAccepted`].
pub struct UpdateAcceptedView {
    pub state: MqttStateView,
    pub metadata: MqttMetadataView,
    pub timestamp: u64,
    pub client_token: Option<Seq<char>>,
    pub version: u32,
    pub extra: Members,
}

impl DeepView for UpdateAccepted {
    type V = UpdateAcceptedView;

    open spec fn deep_view(&self) -> UpdateAcceptedView {
        UpdateAcceptedView {
            state: self.state.deep_view(),
            metadata: self.metadata.deep_view(),
            timestamp: self.timestamp,
            client_token: self.client_token.deep_view(),
            version: self.version,
            extra: self.extra.deep_view(),
        }
    }
}

impl Record for UpdateAccepted {
    open spec fn spec_declares(name: Seq<char>) -> bool {
        ||| name == "state"@
        ||| name == "metadata"@
        ||| name == "timestamp"@
        ||| name == "clientToken"@
        ||| name == "version"@
    }

    fn declares(name: &str) -> (r: bool) {
        same_text(name, "state") || same_text(name, "metadata") || same_text(name, "timestamp")
            || same_text(name, "clientToken") || same_text(name, "version")
    }
}

impl UpdateAccepted {
    /// What a document is read as.
    #[verifier::opaque]
    pub open spec fn spec_read(doc: JsonValue, mode: Strictness) -> Result<UpdateAcceptedView, DecodeErrorView> {
        match spec_open::<UpdateAccepted>(doc, mode) { Err(e) => Err(e), Ok(members) =>
        match spec_refuse(members, "previous"@) { Err(e) => Err(e), Ok(_) =>
        match spec_refuse(members, "current"@) { Err(e) => Err(e), Ok(_) =>
        match spec_refuse(members, "code"@) { Err(e) => Err(e), Ok(_) =>
        match spec_refuse(members, "message"@) { Err(e) => Err(e), Ok(_) =>
        match spec_ask_split(members) { Err(e) => Err(e), Ok(_) =>
        match spec_field::<MqttState>(members, "state"@, mode) { Err(e) => Err(e), Ok(state) =>
        match spec_field::<MqttMetadata>(members, "metadata"@, mode) { Err(e) => Err(e), Ok(metadata) =>
        match spec_field::<u64>(members, "timestamp"@, mode) { Err(e) => Err(e), Ok(timestamp) =>
        match spec_field::<Option<String>>(members, "clientToken"@, mode) { Err(e) => Err(e), Ok(client_token) =>
        match spec_field::<u32>(members, "version"@, mode) { Err(e) => Err(e), Ok(version) =>
            Ok(UpdateAcceptedView {
                state,
                metadata,
                timestamp,
                client_token,
                version,
                extra: spec_undeclared::<UpdateAccepted>(members),
            })
        }}}}}}}}}}}
    }

    /// The document that a value is written as.
    #[verifier::opaque]
    pub open spec fn spec_write(value: UpdateAcceptedView) -> JsonValue {
        spec_close(
            Seq::empty()
                .push(("state"@, MqttState::spec_encode(value.state)))
                .push(("metadata"@, MqttMetadata::spec_encode(value.metadata)))
                .push(("timestamp"@, u64::spec_encode(value.timestamp)))
                .push(("clientToken"@, Option::<String>::spec_encode(value.client_token)))
                .push(("version"@, u32::spec_encode(value.version))),
            value.extra,
        )
    }
}

impl Decode for UpdateAccepted {
    open spec fn spec_decode(doc: JsonValue, mode: Strictness) -> Result<UpdateAcceptedView, DecodeErrorView> {
        UpdateAccepted::spec_read(doc, mode)
    }

    open spec fn spec_absent() -> Option<UpdateAcceptedView> {
        None
    }

    fn decode(doc: &Json, mode: Strictness) -> (r: Result<UpdateAccepted, DecodeError>) {
        reveal(UpdateAccepted::spec_read);
        let members = open::<UpdateAccepted>(doc, mode)?;
        refuse(members, "previous")?;
        refuse(members, "current")?;
        refuse(members, "code")?;
        refuse(members, "message")?;
        ask_split(members)?;
        let state = field::<MqttState>(members, "state", mode)?;
        let metadata = field::<MqttMetadata>(members, "metadata", mode)?;
        let timestamp = field::<u64>(members, "timestamp", mode)?;
        let client_token = field::<Option<String>>(members, "clientToken", mode)?;
        let version = field::<u32>(members, "version", mode)?;
        let extra = undeclared::<UpdateAccepted>(members);
        Ok(UpdateAccepted { state, metadata, timestamp, client_token, version, extra })
    }

    fn absent() -> (r: Option<UpdateAccepted>) {
        None
    }
}

impl Encode for UpdateAccepted {
    open spec fn spec_encode(value: UpdateAcceptedView) -> JsonValue {
        UpdateAccepted::spec_write(value)
    }

    open spec fn faithful(value: UpdateAcceptedView, mode: Strictness) -> bool {
        &&& MqttState::faithful(value.state, mode)
        &&& MqttMetadata::faithful(value.metadata, mode)
        &&& Option::<String>::faithful(value.client_token, mode)
        &&& carried::<UpdateAccepted>(value.extra, mode)
        &&& lookup(value.extra, "previous"@) is None
        &&& lookup(value.extra, "current"@) is None
        &&& lookup(value.extra, "code"@) is None
        &&& lookup(value.extra, "message"@) is None
    }

    fn encode(&self) -> (r: Json) {
        reveal(UpdateAccepted::spec_write);
        let mut fields = start();
        put(&mut fields, "state", self.state.encode());
        put(&mut fields, "metadata", self.metadata.encode());
        put(&mut fields, "timestamp", self.timestamp.encode());
        put(&mut fields, "clientToken", self.client_token.encode());
        put(&mut fields, "version", self.version.encode());
        close(fields, &self.extra)
    }

    proof fn round_trip(value: UpdateAcceptedView, mode: Strictness) {
        reveal(UpdateAccepted::spec_read);
        reveal(UpdateAccepted::spec_write);
        broadcast use {
            lemma_lookup_empty,
            lemma_lookup_push,
            lemma_lookup_add,
            lemma_undeclared_empty,
            lemma_undeclared_push,
        };
        // Two names differ in their length or in one of the letters named here.
        reveal_strlit("state");
        reveal_strlit("metadata");
        reveal_strlit("timestamp");
        reveal_strlit("clientToken");
        reveal_strlit("version");
        reveal_strlit("previous");
        reveal_strlit("current");
        reveal_strlit("code");
        reveal_strlit("message");
        assert("state"@.len() == 5);
        assert("metadata"@.len() == 8 && "metadata"@[0] == 'm');
        assert("timestamp"@.len() == 9);
        assert("clientToken"@.len() == 11);
        assert("version"@.len() == 7 && "version"@[0] == 'v');
        assert("previous"@.len() == 8 && "previous"@[0] == 'p');
        assert("current"@.len() == 7 && "current"@[0] == 'c');
        assert("code"@.len() == 4);
        assert("message"@.len() == 7 && "message"@[0] == 'm');
        MqttState::round_trip(value.state, mode);
        MqttMetadata::round_trip(value.metadata, mode);
        Option::<String>::round_trip(value.client_token, mode);
        let fields = Seq::empty()
            .push(("state"@, MqttState::spec_encode(value.state)))
            .push(("metadata"@, MqttMetadata::spec_encode(value.metadata)))
            .push(("timestamp"@, u64::spec_encode(value.timestamp)))
            .push(("clientToken"@, Option::<String>::spec_encode(value.client_token)))
            .push(("version"@, u32::spec_encode(value.version)));
        let members = fields + value.extra;
        assert(spec_undeclared::<UpdateAccepted>(fields).len() == 0);
        lemma_undeclared_close::<UpdateAccepted>(fields, value.extra);
        assert(spec_open::<UpdateAccepted>(UpdateAccepted::spec_encode(value), mode) == Ok::<Members, DecodeErrorView>(members));
        assert(spec_refuse(members, "previous"@) is Ok);
        assert(spec_refuse(members, "current"@) is Ok);
        assert(spec_refuse(members, "code"@) is Ok);
        assert(spec_refuse(members, "message"@) is Ok);
        reveal(MqttState::spec_write);
        assert(lookup(members, "state"@) == Some(MqttState::spec_encode(value.state)));
        assert(spec_split_in(MqttState::spec_encode(value.state)));
        assert(spec_ask_split(members) is Ok);
        assert(spec_field::<MqttState>(members, "state"@, mode) == Ok::<MqttStateView, DecodeErrorView>(value.state));
        assert(spec_field::<MqttMetadata>(members, "metadata"@, mode) == Ok::<MqttMetadataView, DecodeErrorView>(value.metadata));
        assert(spec_field::<u64>(members, "timestamp"@, mode) == Ok::<u64, DecodeErrorView>(value.timestamp));
        assert(spec_field::<Option<String>>(members, "clientToken"@, mode) == Ok::<Option<Seq<char>>, DecodeErrorView>(value.client_token));
        assert(spec_field::<u32>(members, "version"@, mode) == Ok::<u32, DecodeErrorView>(value.version));
    }
}

/// What an update changed: the leaves that it wrote, and no others. Its state does not hold
/// the split into `desired` and `reported`; an object that holds a key of another kind of
/// message is refused in either mode.
#[derive(Debug, PartialEq, Eq)]
pub struct UpdateDelta {
    pub state: Json,
    pub metadata: MqttMetadataTimestamp,
    pub timestamp: u64,
    pub client_token: Option<String>,
    pub version: u32,
    /// Members that the record does not declare.
    pub extra: Vec<(String, Json)>,
}

/// Mathematical model of a [`UpdateDelta`].
pub struct UpdateDeltaView {
    pub state: JsonValue,
    pub metadata: MqttMetadataTimestampView,
    pub timestamp: u64,
    pub client_token: Option<Seq<char>>,
    pub version: u32,
    pub extra: Members,
}

impl DeepView for UpdateDelta {
    type V = UpdateDeltaView;

    open spec fn deep_view(&self) -> UpdateDeltaView {
        UpdateDeltaView {
            state: self.state.deep_view(),
            metadata: self.metadata.deep_view(),
            timestamp: self.timestamp,
            client_token: self.client_token.deep_view(),
            version: self.version,
            extra: self.extra.deep_view(),
        }
    }
}

impl Record for UpdateDelta {
    open spec fn spec_declares(name: Seq<char>) -> bool {
        ||| name == "state"@
        ||| name == "metadata"@
        ||| name == "timestamp"@
        ||| name == "clientToken"@
        ||| name == "version"@
    }

    fn declares(name: &str) -> (r: bool) {
        same_text(name, "state") || same_text(name, "metadata") || same_text(name, "timestamp")
            || same_text(name, "clientToken") || same_text(name, "version")
    }
}

impl UpdateDelta {
    /// What a document is read as.
    #[verifier::opaque]
    pub open spec fn spec_read(doc: JsonValue, mode: Strictness) -> Result<UpdateDeltaView, DecodeErrorView> {
        match spec_open::<UpdateDelta>(doc, mode) { Err(e) => Err(e), Ok(members) =>
        match spec_refuse(members, "previous"@) { Err(e) => Err(e), Ok(_) =>
        match spec_refuse(members, "current"@) { Err(e) => Err(e), Ok(_) =>
        match spec_refuse(members, "code"@) { Err(e) => Err(e), Ok(_) =>
        match spec_refuse(members, "message"@) { Err(e) => Err(e), Ok(_) =>
        match spec_refuse_split(members) { Err(e) => Err(e), Ok(_) =>
        match spec_field::<Json>(members, "state"@, mode) { Err(e) => Err(e), Ok(state) =>
        match spec_field::<MqttMetadataTimestamp>(members, "metadata"@, mode) { Err(e) => Err(e), Ok(metadata) =>
        match spec_field::<u64>(members, "timestamp"@, mode) { Err(e) => Err(e), Ok(timestamp) =>
        match spec_field::<Option<String>>(members, "clientToken"@, mode) { Err(e) => Err(e), Ok(client_token) =>
        match spec_field::<u32>(members, "version"@, mode) { Err(e) => Err(e), Ok(version) =>
            Ok(UpdateDeltaView {
                state,
                metadata,
                timestamp,
                client_token,
                version,
                extra: spec_undeclared::<UpdateDelta>(members),
            })
        }}}}}}}}}}}
    }

    /// The document that a value is written as.
    #[verifier::opaque]
    pub open spec fn spec_write(value: UpdateDeltaView) -> JsonValue {
        spec_close(
            Seq::empty()
                .push(("state"@, Json::spec_encode(value.state)))
                .push(("metadata"@, MqttMetadataTimestamp::spec_encode(value.metadata)))
                .push(("timestamp"@, u64::spec_encode(value.timestamp)))
                .push(("clientToken"@, Option::<String>::spec_encode(value.client_token)))
                .push(("version"@, u32::spec_encode(value.version))),
            value.extra,
        )
    }
}

impl Decode for UpdateDelta {
    open spec fn spec_decode(doc: JsonValue, mode: Strictness) -> Result<UpdateDeltaView, DecodeErrorView> {
        UpdateDelta::spec_read(doc, mode)
    }

    open spec fn spec_absent() -> Option<UpdateDeltaView> {
        None
    }

    fn decode(doc: &Json, mode: Strictness) -> (r: Result<UpdateDelta, DecodeError>) {
        reveal(UpdateDelta::spec_read);
        let members = open::<UpdateDelta>(doc, mode)?;
        refuse(members, "previous")?;
        refuse(members, "current")?;
        refuse(members, "code")?;
        refuse(members, "message")?;
        refuse_split(members)?;
        let state = field::<Json>(members, "state", mode)?;
        let metadata = field::<MqttMetadataTimestamp>(members, "metadata", mode)?;
        let timestamp = field::<u64>(members, "timestamp", mode)?;
        let client_token = field::<Option<String>>(members, "clientToken", mode)?;
        let version = field::<u32>(members, "version", mode)?;
        let extra = undeclared::<UpdateDelta>(members);
        Ok(UpdateDelta { state, metadata, timestamp, client_token, version, extra })
    }

    fn absent() -> (r: Option<UpdateDelta>) {
        None
    }
}

impl Encode for UpdateDelta {
    open spec fn spec_encode(value: UpdateDeltaView) -> JsonValue {
        UpdateDelta::spec_write(value)
    }

    open spec fn faithful(value: UpdateDeltaView, mode: Strictness) -> bool {
        &&& MqttMetadataTimestamp::faithful(value.metadata, mode)
        &&& Option::<String>::faithful(value.client_token, mode)
        &&& carried::<UpdateDelta>(value.extra, mode)
        &&& lookup(value.extra, "previous"@) is None
        &&& lookup(value.extra, "current"@) is None
        &&& lookup(value.extra, "code"@) is None
        &&& lookup(value.extra, "message"@) is None
        &&& !spec_split_in(value.state)
    }

    fn encode(&self) -> (r: Json) {
        reveal(UpdateDelta::spec_write);
        let mut fields = start();
        put(&mut fields, "state", self.state.encode());
        put(&mut fields, "metadata", self.metadata.encode());
        put(&mut fields, "timestamp", self.timestamp.encode());
        put(&mut fields, "clientToken", self.client_token.encode());
        put(&mut fields, "version", self.version.encode());
        close(fields, &self.extra)
    }

    proof fn round_trip(value: UpdateDeltaView, mode: Strictness) {
        reveal(UpdateDelta::spec_read);
        reveal(UpdateDelta::spec_write);
        broadcast use {
            lemma_lookup_empty,
            lemma_lookup_push,
            lemma_lookup_add,
            lemma_undeclared_empty,
            lemma_undeclared_push,
        };
        // Two names differ in their length or in one of the letters named here.
        reveal_strlit("state");
        reveal_strlit("metadata");
        reveal_strlit("timestamp");
        reveal_strlit("clientToken");
        reveal_strlit("version");
        reveal_strlit("previous");
        reveal_strlit("current");
        reveal_strlit("code");
        reveal_strlit("message");
        assert("state"@.len() == 5);
        assert("metadata"@.len() == 8 && "metadata"@[0] == 'm');
        assert("timestamp"@.len() == 9);
        assert("clientToken"@.len() == 11);
        assert("version"@.len() == 7 && "version"@[0] == 'v');
        assert("previous"@.len() == 8 && "previous"@[0] == 'p');
        assert("current"@.len() == 7 && "current"@[0] == 'c');
        assert("code"@.len() == 4);
        assert("message"@.len() == 7 && "message"@[0] == 'm');
        MqttMetadataTimestamp::round_trip(value.metadata, mode);
        Option::<String>::round_trip(value.client_token, mode);
        let fields = Seq::empty()
            .push(("state"@, Json::spec_encode(value.state)))
            .push(("metadata"@, MqttMetadataTimestamp::spec_encode(value.metadata)))
            .push(("timestamp"@, u64::spec_encode(value.timestamp)))
            .push(("clientToken"@, Option::<String>::spec_encode(value.client_token)))
            .push(("version"@, u32::spec_encode(value.version)));
        let members = fields + value.extra;
        assert(spec_undeclared::<UpdateDelta>(fields).len() == 0);
        lemma_undeclared_close::<UpdateDelta>(fields, value.extra);
        assert(spec_open::<UpdateDelta>(UpdateDelta::spec_encode(value), mode) == Ok::<Members, DecodeErrorView>(members));
        assert(spec_refuse(members, "previous"@) is Ok);
        assert(spec_refuse(members, "current"@) is Ok);
        assert(spec_refuse(members, "code"@) is Ok);
        assert(spec_refuse(members, "message"@) is Ok);
        assert(lookup(members, "state"@) == Some(value.state));
        assert(spec_refuse_split(members) is Ok);
        assert(spec_field::<Json>(members, "state"@, mode) == Ok::<JsonValue, DecodeErrorView>(value.state));
        assert(spec_field::<MqttMetadataTimestamp>(members, "metadata"@, mode) == Ok::<MqttMetadataTimestampView, DecodeErrorView>(value.metadata));
        assert(spec_field::<u64>(members, "timestamp"@, mode) == Ok::<u64, DecodeErrorView>(value.timestamp));
        assert(spec_field::<Option<String>>(members, "clientToken"@, mode) == Ok::<Option<Seq<char>>, DecodeErrorView>(value.client_token));
        assert(spec_field::<u32>(members, "version"@, mode) == Ok::<u32, DecodeErrorView>(value.version));
    }
}

/// The shadow document before and after an update, each as a whole. An object that holds a
/// key of another kind of message is refused in either mode.
#[derive(Debug, PartialEq, Eq)]
pub struct UpdateDocuments {
    pub state: Option<MqttState>,
    pub metadata: Option<MqttMetadata>,
    pub previous: Option<MqttDocumentsState>,
    pub current: Option<MqttDocumentsState>,
    pub timestamp: u64,
    pub client_token: Option<String>,
    /// Members that the record does not declare.
    pub extra: Vec<(String, Json)>,
}

/// Mathematical model of a [`UpdateDocuments`].
pub struct UpdateDocumentsView {
    pub state: Option<MqttStateView>,
    pub metadata: Option<MqttMetadataView>,
    pub previous: Option<MqttDocumentsStateView>,
    pub current: Option<MqttDocumentsStateView>,
    pub timestamp: u64,
    pub client_token: Option<Seq<char>>,
    pub extra: Members,
}

impl DeepView for UpdateDocuments {
    type V = UpdateDocumentsView;

    open spec fn deep_view(&self) -> UpdateDocumentsView {
        UpdateDocumentsView {
            state: self.state.deep_view(),
            metadata: self.metadata.deep_view(),
            previous: self.previous.deep_view(),
            current: self.current.deep_view(),
            timestamp: self.timestamp,
            client_token: self.client_token.deep_view(),
            extra: self.extra.deep_view(),
        }
    }
}

impl Record for UpdateDocuments {
    open spec fn spec_declares(name: Seq<char>) -> bool {
        ||| name == "state"@
        ||| name == "metadata"@
        ||| name == "previous"@
        ||| name == "current"@
        ||| name == "timestamp"@
        ||| name == "clientToken"@
    }

    fn declares(name: &str) -> (r: bool) {
        same_text(name, "state") || same_text(name, "metadata") || same_text(name, "previous")
            || same_text(name, "current") || same_text(name, "timestamp")
            || same_text(name, "clientToken")
    }
}

impl UpdateDocuments {
    /// What a document is read as.
    #[verifier::opaque]
    pub open spec fn spec_read(doc: JsonValue, mode: Strictness) -> Result<UpdateDocumentsView, DecodeErrorView> {
        match spec_open::<UpdateDocuments>(doc, mode) { Err(e) => Err(e), Ok(members) =>
        match spec_refuse(members, "version"@) { Err(e) => Err(e), Ok(_) =>
        match spec_refuse(members, "code"@) { Err(e) => Err(e), Ok(_) =>
        match spec_refuse(members, "message"@) { Err(e) => Err(e), Ok(_) =>
        match spec_field::<Option<MqttState>>(members, "state"@, mode) { Err(e) => Err(e), Ok(state) =>
        match spec_field::<Option<MqttMetadata>>(members, "metadata"@, mode) { Err(e) => Err(e), Ok(metadata) =>
        match spec_field::<Option<MqttDocumentsState>>(members, "previous"@, mode) { Err(e) => Err(e), Ok(previous) =>
        match spec_field::<Option<MqttDocumentsState>>(members, "current"@, mode) { Err(e) => Err(e), Ok(current) =>
        match spec_field::<u64>(members, "timestamp"@, mode) { Err(e) => Err(e), Ok(timestamp) =>
        match spec_field::<Option<String>>(members, "clientToken"@, mode) { Err(e) => Err(e), Ok(client_token) =>
            Ok(UpdateDocumentsView {
                state,
                metadata,
                previous,
                current,
                timestamp,
                client_token,
                extra: spec_undeclared::<UpdateDocuments>(members),
            })
        }}}}}}}}}}
    }

    /// The document that a value is written as.
    #[verifier::opaque]
    pub open spec fn spec_write(value: UpdateDocumentsView) -> JsonValue {
        spec_close(
            Seq::empty()
                .push(("state"@, Option::<MqttState>::spec_encode(value.state)))
                .push(("metadata"@, Option::<MqttMetadata>::spec_encode(value.metadata)))
                .push(("previous"@, Option::<MqttDocumentsState>::spec_encode(value.previous)))
                .push(("current"@, Option::<MqttDocumentsState>::spec_encode(value.current)))
                .push(("timestamp"@, u64::spec_encode(value.timestamp)))
                .push(("clientToken"@, Option::<String>::spec_encode(value.client_token))),
            value.extra,
        )
    }
}

impl Decode for UpdateDocuments {
    open spec fn spec_decode(doc: JsonValue, mode: Strictness) -> Result<UpdateDocumentsView, DecodeErrorView> {
        UpdateDocuments::spec_read(doc, mode)
    }

    open spec fn spec_absent() -> Option<UpdateDocumentsView> {
        None
    }

    fn decode(doc: &Json, mode: Strictness) -> (r: Result<UpdateDocuments, DecodeError>) {
        reveal(UpdateDocuments::spec_read);
        let members = open::<UpdateDocuments>(doc, mode)?;
        refuse(members, "version")?;
        refuse(members, "code")?;
        refuse(members, "message")?;
        let state = field::<Option<MqttState>>(members, "state", mode)?;
        let metadata = field::<Option<MqttMetadata>>(members, "metadata", mode)?;
        let previous = field::<Option<MqttDocumentsState>>(members, "previous", mode)?;
        let current = field::<Option<MqttDocumentsState>>(members, "current", mode)?;
        let timestamp = field::<u64>(members, "timestamp", mode)?;
        let client_token = field::<Option<String>>(members, "clientToken", mode)?;
        let extra = undeclared::<UpdateDocuments>(members);
        Ok(UpdateDocuments {
            state,
            metadata,
            previous,
            current,
            timestamp,
            client_token,
            extra,
        })
    }

    fn absent() -> (r: Option<UpdateDocuments>) {
        None
    }
}

impl Encode for UpdateDocuments {
    open spec fn spec_encode(value: UpdateDocumentsView) -> JsonValue {
        UpdateDocuments::spec_write(value)
    }

    open spec fn faithful(value: UpdateDocumentsView, mode: Strictness) -> bool {
        &&& Option::<MqttState>::faithful(value.state, mode)
        &&& Option::<MqttMetadata>::faithful(value.metadata, mode)
        &&& Option::<MqttDocumentsState>::faithful(value.previous, mode)
        &&& Option::<MqttDocumentsState>::faithful(value.current, mode)
        &&& Option::<String>::faithful(value.client_token, mode)
        &&& carried::<UpdateDocuments>(value.extra, mode)
        &&& lookup(value.extra, "version"@) is None
        &&& lookup(value.extra, "code"@) is None
        &&& lookup(value.extra, "message"@) is None
    }

    fn encode(&self) -> (r: Json) {
        reveal(UpdateDocuments::spec_write);
        let mut fields = start();
        put(&mut fields, "state", self.state.encode());
        put(&mut fields, "metadata", self.metadata.encode());
        put(&mut fields, "previous", self.previous.encode());
        put(&mut fields, "current", self.current.encode());
        put(&mut fields, "timestamp", self.timestamp.encode());
        put(&mut fields, "clientToken", self.client_token.encode());
        close(fields, &self.extra)
    }

    proof fn round_trip(value: UpdateDocumentsView, mode: Strictness) {
        reveal(UpdateDocuments::spec_read);
        reveal(UpdateDocuments::spec_write);
        broadcast use {
            lemma_lookup_empty,
            lemma_lookup_push,
            lemma_lookup_add,
            lemma_undeclared_empty,
            lemma_undeclared_push,
        };
        // Two names differ in their length or in one of the letters named here.
        reveal_strlit("state");
        reveal_strlit("metadata");
        reveal_strlit("previous");
        reveal_strlit("current");
        reveal_strlit("timestamp");
        reveal_strlit("clientToken");
        reveal_strlit("version");
        reveal_strlit("code");
        reveal_strlit("message");
        assert("state"@.len() == 5);
        assert("metadata"@.len() == 8 && "metadata"@[0] == 'm');
        assert("previous"@.len() == 8 && "previous"@[0] == 'p');
        assert("current"@.len() == 7 && "current"@[0] == 'c');
        assert("timestamp"@.len() == 9);
        assert("clientToken"@.len() == 11);
        assert("version"@.len() == 7 && "version"@[0] == 'v');
        assert("code"@.len() == 4);
        assert("message"@.len() == 7 && "message"@[0] == 'm');
        Option::<MqttState>::round_trip(value.state, mode);
        Option::<MqttMetadata>::round_trip(value.metadata, mode);
        Option::<MqttDocumentsState>::round_trip(value.previous, mode);
        Option::<MqttDocumentsState>::round_trip(value.current, mode);
        Option::<String>::round_trip(value.client_token, mode);
        let fields = Seq::empty()
            .push(("state"@, Option::<MqttState>::spec_encode(value.state)))
            .push(("metadata"@, Option::<MqttMetadata>::spec_encode(value.metadata)))
            .push(("previous"@, Option::<MqttDocumentsState>::spec_encode(value.previous)))
            .push(("current"@, Option::<MqttDocumentsState>::spec_encode(value.current)))
            .push(("timestamp"@, u64::spec_encode(value.timestamp)))
            .push(("clientToken"@, Option::<String>::spec_encode(value.client_token)));
        let members = fields + value.extra;
        assert(spec_undeclared::<UpdateDocuments>(fields).len() == 0);
        lemma_undeclared_close::<UpdateDocuments>(fields, value.extra);
        assert(spec_open::<UpdateDocuments>(UpdateDocuments::spec_encode(value), mode) == Ok::<Members, DecodeErrorView>(members));
        assert(spec_refuse(members, "version"@) is Ok);
        assert(spec_refuse(members, "code"@) is Ok);
        assert(spec_refuse(members, "message"@) is Ok);
        assert(spec_field::<Option<MqttState>>(members, "state"@, mode) == Ok::<Option<MqttStateView>, DecodeErrorView>(value.state));
        assert(spec_field::<Option<MqttMetadata>>(members, "metadata"@, mode) == Ok::<Option<MqttMetadataView>, DecodeErrorView>(value.metadata));
        assert(spec_field::<Option<MqttDocumentsState>>(members, "previous"@, mode) == Ok::<Option<MqttDocumentsStateView>, DecodeErrorView>(value.previous));
        assert(spec_field::<Option<MqttDocumentsState>>(members, "current"@, mode) == Ok::<Option<MqttDocumentsStateView>, DecodeErrorView>(value.current));
        assert(spec_field::<u64>(members, "timestamp"@, mode) == Ok::<u64, DecodeErrorView>(value.timestamp));
        assert(spec_field::<Option<String>>(members, "clientToken"@, mode) == Ok::<Option<Seq<char>>, DecodeErrorView>(value.client_token));
    }
}

/// A request was refused. An object that holds a key of another kind of message is refused
/// in either mode.
#[derive(Debug, PartialEq, Eq)]
pub struct Rejected {
    pub client_token: Option<String>,
    pub code: u16,
    pub message: String,
    /// Members that the record does not declare.
    pub extra: Vec<(String, Json)>,
}

/// Mathematical model of a [`Rejected`].
pub struct RejectedView {
    pub client_token: Option<Seq<char>>,
    pub code: u16,
    pub message: Seq<char>,
    pub extra: Members,
}

impl DeepView for Rejected {
    type V = RejectedView;

    open spec fn deep_view(&self) -> RejectedView {
        RejectedView {
            client_token: self.client_token.deep_view(),
            code: self.code,
            message: self.message@,
            extra: self.extra.deep_view(),
        }
    }
}

impl Record for Rejected {
    open spec fn spec_declares(name: Seq<char>) -> bool {
        ||| name == "clientToken"@
        ||| name == "code"@
        ||| name == "message"@
    }

    fn declares(name: &str) -> (r: bool) {
        same_text(name, "clientToken") || same_text(name, "code") || same_text(name, "message")
    }
}

impl Rejected {
    /// What a document is read as.
    #[verifier::opaque]
    pub open spec fn spec_read(doc: JsonValue, mode: Strictness) -> Result<RejectedView, DecodeErrorView> {
        match spec_open::<Rejected>(doc, mode) { Err(e) => Err(e), Ok(members) =>
        match spec_refuse(members, "state"@) { Err(e) => Err(e), Ok(_) =>
        match spec_refuse(members, "metadata"@) { Err(e) => Err(e), Ok(_) =>
        match spec_refuse(members, "previous"@) { Err(e) => Err(e), Ok(_) =>
        match spec_refuse(members, "current"@) { Err(e) => Err(e), Ok(_) =>
        match spec_refuse(members, "timestamp"@) { Err(e) => Err(e), Ok(_) =>
        match spec_refuse(members, "version"@) { Err(e) => Err(e), Ok(_) =>
        match spec_field::<Option<String>>(members, "clientToken"@, mode) { Err(e) => Err(e), Ok(client_token) =>
        match spec_field::<u16>(members, "code"@, mode) { Err(e) => Err(e), Ok(code) =>
        match spec_field::<String>(members, "message"@, mode) { Err(e) => Err(e), Ok(message) =>
            Ok(RejectedView {
                client_token,
                code,
                message,
                extra: spec_undeclared::<Rejected>(members),
            })
        }}}}}}}}}}
    }

    /// The document that a value is written as.
    #[verifier::opaque]
    pub open spec fn spec_write(value: RejectedView) -> JsonValue {
        spec_close(
            Seq::empty()
                .push(("clientToken"@, Option::<String>::spec_encode(value.client_token)))
                .push(("code"@, u16::spec_encode(value.code)))
                .push(("message"@, String::spec_encode(value.message))),
            value.extra,
        )
    }
}

impl Decode for Rejected {
    open spec fn spec_decode(doc: JsonValue, mode: Strictness) -> Result<RejectedView, DecodeErrorView> {
        Rejected::spec_read(doc, mode)
    }

    open spec fn spec_absent() -> Option<RejectedView> {
        None
    }

    fn decode(doc: &Json, mode: Strictness) -> (r: Result<Rejected, DecodeError>) {
        reveal(Rejected::spec_read);
        let members = open::<Rejected>(doc, mode)?;
        refuse(members, "state")?;
        refuse(members, "metadata")?;
        refuse(members, "previous")?;
        refuse(members, "current")?;
        refuse(members, "timestamp")?;
        refuse(members, "version")?;
        let client_token = field::<Option<String>>(members, "clientToken", mode)?;
        let code = field::<u16>(members, "code", mode)?;
        let message = field::<String>(members, "message", mode)?;
        let extra = undeclared::<Rejected>(members);
        Ok(Rejected { client_token, code, message, extra })
    }

    fn absent() -> (r: Option<Rejected>) {
        None
    }
}

impl Encode for Rejected {
    open spec fn spec_encode(value: RejectedView) -> JsonValue {
        Rejected::spec_write(value)
    }

    open spec fn faithful(value: RejectedView, mode: Strictness) -> bool {
        &&& Option::<String>::faithful(value.client_token, mode)
        &&& carried::<Rejected>(value.extra, mode)
        &&& lookup(value.extra, "state"@) is None
        &&& lookup(value.extra, "metadata"@) is None
        &&& lookup(value.extra, "previous"@) is None
        &&& lookup(value.extra, "current"@) is None
        &&& lookup(value.extra, "timestamp"@) is None
        &&& lookup(value.extra, "version"@) is None
    }

    fn encode(&self) -> (r: Json) {
        reveal(Rejected::spec_write);
        let mut fields = start();
        put(&mut fields, "clientToken", self.client_token.encode());
        put(&mut fields, "code", self.code.encode());
        put(&mut fields, "message", self.message.encode());
        close(fields, &self.extra)
    }

    proof fn round_trip(value: RejectedView, mode: Strictness) {
        reveal(Rejected::spec_read);
        reveal(Rejected::spec_write);
        broadcast use {
            lemma_lookup_empty,
            lemma_lookup_push,
            lemma_lookup_add,
            lemma_undeclared_empty,
            lemma_undeclared_push,
        };
        // Two names differ in their length or in one of the letters named here.
        reveal_strlit("clientToken");
        reveal_strlit("code");
        reveal_strlit("message");
        reveal_strlit("state");
        reveal_strlit("metadata");
        reveal_strlit("previous");
        reveal_strlit("current");
        reveal_strlit("timestamp");
        reveal_strlit("version");
        assert("clientToken"@.len() == 11);
        assert("code"@.len() == 4);
        assert("message"@.len() == 7 && "message"@[0] == 'm');
        assert("state"@.len() == 5);
        assert("metadata"@.len() == 8 && "metadata"@[0] == 'm');
        assert("previous"@.len() == 8 && "previous"@[0] == 'p');
        assert("current"@.len() == 7 && "current"@[0] == 'c');
        assert("timestamp"@.len() == 9);
        assert("version"@.len() == 7 && "version"@[0] == 'v');
        Option::<String>::round_trip(value.client_token, mode);
        let fields = Seq::empty()
            .push(("clientToken"@, Option::<String>::spec_encode(value.client_token)))
            .push(("code"@, u16::spec_encode(value.code)))
            .push(("message"@, String::spec_encode(value.message)));
        let members = fields + value.extra;
        assert(spec_undeclared::<Rejected>(fields).len() == 0);
        lemma_undeclared_close::<Rejected>(fields, value.extra);
        assert(spec_open::<Rejected>(Rejected::spec_encode(value), mode) == Ok::<Members, DecodeErrorView>(members));
        assert(spec_refuse(members, "state"@) is Ok);
        assert(spec_refuse(members, "metadata"@) is Ok);
        assert(spec_refuse(members, "previous"@) is Ok);
        assert(spec_refuse(members, "current"@) is Ok);
        assert(spec_refuse(members, "timestamp"@) is Ok);
        assert(spec_refuse(members, "version"@) is Ok);
        assert(spec_field::<Option<String>>(members, "clientToken"@, mode) == Ok::<Option<Seq<char>>, DecodeErrorView>(value.client_token));
        assert(spec_field::<u16>(members, "code"@, mode) == Ok::<u16, DecodeErrorView>(value.code));
        assert(spec_field::<String>(members, "message"@, mode) == Ok::<Seq<char>, DecodeErrorView>(value.message));
    }
}

/// A message of the update feed of a device. Nothing on the wire names the variant: a
/// document is read as each in turn (documents, accepted, delta, error), and is of the one
/// that it can be read as. Which keys of the union an object holds, and whether its state
/// holds the split into `desired` and `reported`, tells the variants apart in either mode, so
/// no document is of two.
#[derive(Debug, PartialEq, Eq)]
pub enum MqttResponse {
    UpdateAccepted(UpdateAccepted),
    UpdateDelta(UpdateDelta),
    UpdateDocuments(UpdateDocuments),
    Error(Rejected),
}

/// Mathematical model of a [`MqttResponse`].
pub enum MqttResponseView {
    UpdateAccepted(UpdateAcceptedView),
    UpdateDelta(UpdateDeltaView),
    UpdateDocuments(UpdateDocumentsView),
    Error(RejectedView),
}

impl DeepView for MqttResponse {
    type V = MqttResponseView;

    open spec fn deep_view(&self) -> MqttResponseView {
        match self {
            MqttResponse::UpdateAccepted(message) => MqttResponseView::UpdateAccepted(message.deep_view()),
            MqttResponse::UpdateDelta(message) => MqttResponseView::UpdateDelta(message.deep_view()),
            MqttResponse::UpdateDocuments(message) => MqttResponseView::UpdateDocuments(message.deep_view()),
            MqttResponse::Error(message) => MqttResponseView::Error(message.deep_view()),
        }
    }
}

/// The error of a document that is of no variant: why it is none of them, in the order in
/// which they were tried.
pub open spec fn no_message(
    not_documents: DecodeErrorView,
    not_accepted: DecodeErrorView,
    not_delta: DecodeErrorView,
    not_error: DecodeErrorView,
) -> DecodeErrorView {
    DecodeErrorView::SchemaMismatch(
        Seq::empty().push(("UpdateDocuments"@, not_documents)).push(("UpdateAccepted"@, not_accepted)).push(
            ("UpdateDelta"@, not_delta),
        ).push(("Error"@, not_error)),
    )
}

impl Decode for MqttResponse {
    open spec fn spec_decode(doc: JsonValue, mode: Strictness) -> Result<MqttResponseView, DecodeErrorView> {
        match UpdateDocuments::spec_decode(doc, mode) {
            Ok(message) => Ok(MqttResponseView::UpdateDocuments(message)),
            Err(not_documents) => match UpdateAccepted::spec_decode(doc, mode) {
                Ok(message) => Ok(MqttResponseView::UpdateAccepted(message)),
                Err(not_accepted) => match UpdateDelta::spec_decode(doc, mode) {
                    Ok(message) => Ok(MqttResponseView::UpdateDelta(message)),
                    Err(not_delta) => match Rejected::spec_decode(doc, mode) {
                        Ok(message) => Ok(MqttResponseView::Error(message)),
                        Err(not_error) => Err(no_message(not_documents, not_accepted, not_delta, not_error)),
                    },
                },
            },
        }
    }

    open spec fn spec_absent() -> Option<MqttResponseView> {
        None
    }

    fn decode(doc: &Json, mode: Strictness) -> (r: Result<MqttResponse, DecodeError>) {
        let not_documents = match UpdateDocuments::decode(doc, mode) {
            Ok(message) => {
                return Ok(MqttResponse::UpdateDocuments(message));
            },
            Err(error) => error,
        };
        let not_accepted = match UpdateAccepted::decode(doc, mode) {
            Ok(message) => {
                return Ok(MqttResponse::UpdateAccepted(message));
            },
            Err(error) => error,
        };
        let not_delta = match UpdateDelta::decode(doc, mode) {
            Ok(message) => {
                return Ok(MqttResponse::UpdateDelta(message));
            },
            Err(error) => error,
        };
        let not_error = match Rejected::decode(doc, mode) {
            Ok(message) => {
                return Ok(MqttResponse::Error(message));
            },
            Err(error) => error,
        };
        let mut attempts = no_attempts();
        attempt(&mut attempts, "UpdateDocuments", not_documents);
        attempt(&mut attempts, "UpdateAccepted", not_accepted);
        attempt(&mut attempts, "UpdateDelta", not_delta);
        attempt(&mut attempts, "Error", not_error);
        Err(mismatch(attempts))
    }

    fn absent() -> (r: Option<MqttResponse>) {
        None
    }
}

/// A message comes back as the variant that it is: no document is of two variants.
impl Encode for MqttResponse {
    open spec fn spec_encode(value: MqttResponseView) -> JsonValue {
        match value {
            MqttResponseView::UpdateDocuments(message) => UpdateDocuments::spec_encode(message),
            MqttResponseView::UpdateAccepted(message) => UpdateAccepted::spec_encode(message),
            MqttResponseView::UpdateDelta(message) => UpdateDelta::spec_encode(message),
            MqttResponseView::Error(message) => Rejected::spec_encode(message),
        }
    }

    open spec fn faithful(value: MqttResponseView, mode: Strictness) -> bool {
        match value {
            MqttResponseView::UpdateDocuments(message) => UpdateDocuments::faithful(message, mode),
            MqttResponseView::UpdateAccepted(message) => UpdateAccepted::faithful(message, mode),
            MqttResponseView::UpdateDelta(message) => UpdateDelta::faithful(message, mode),
            MqttResponseView::Error(message) => Rejected::faithful(message, mode),
        }
    }

    fn encode(&self) -> (r: Json) {
        match self {
            MqttResponse::UpdateDocuments(message) => message.encode(),
            MqttResponse::UpdateAccepted(message) => message.encode(),
            MqttResponse::UpdateDelta(message) => message.encode(),
            MqttResponse::Error(message) => message.encode(),
        }
    }

    proof fn round_trip(value: MqttResponseView, mode: Strictness) {
        let doc = Self::spec_encode(value);
        match value {
            MqttResponseView::UpdateDocuments(message) => {
                UpdateDocuments::round_trip(message, mode);
            },
            MqttResponseView::UpdateAccepted(message) => {
                UpdateAccepted::round_trip(message, mode);
            },
            MqttResponseView::UpdateDelta(message) => {
                UpdateDelta::round_trip(message, mode);
            },
            MqttResponseView::Error(message) => {
                Rejected::round_trip(message, mode);
            },
        }
        lemma_topic(MqttResponse::spec_kind(value), doc, mode);
    }
}

/// The variant of [`MqttResponse`] that a message is, or that a topic announces.
#[derive(Debug, Clone, Copy, PartialEq, Eq, Structural)]
pub enum MessageKind {
    UpdateAccepted,
    UpdateDelta,
    UpdateDocuments,
    Error,
}

impl MqttResponse {
    /// The variant that the message is.
    pub open spec fn spec_kind(message: MqttResponseView) -> MessageKind {
        match message {
            MqttResponseView::UpdateAccepted(_) => MessageKind::UpdateAccepted,
            MqttResponseView::UpdateDelta(_) => MessageKind::UpdateDelta,
            MqttResponseView::UpdateDocuments(_) => MessageKind::UpdateDocuments,
            MqttResponseView::Error(_) => MessageKind::Error,
        }
    }

    /// What a document is read as where the variant is known beforehand, as it is from the
    /// topic that a message came on: no other variant is tried.
    pub open spec fn spec_decode_as(kind: MessageKind, doc: JsonValue, mode: Strictness) -> Result<
        MqttResponseView,
        DecodeErrorView,
    > {
        match kind {
            MessageKind::UpdateAccepted => match UpdateAccepted::spec_decode(doc, mode) {
                Ok(message) => Ok(MqttResponseView::UpdateAccepted(message)),
                Err(error) => Err(error),
            },
            MessageKind::UpdateDelta => match UpdateDelta::spec_decode(doc, mode) {
                Ok(message) => Ok(MqttResponseView::UpdateDelta(message)),
                Err(error) => Err(error),
            },
            MessageKind::UpdateDocuments => match UpdateDocuments::spec_decode(doc, mode) {
                Ok(message) => Ok(MqttResponseView::UpdateDocuments(message)),
                Err(error) => Err(error),
            },
            MessageKind::Error => match Rejected::spec_decode(doc, mode) {
                Ok(message) => Ok(MqttResponseView::Error(message)),
                Err(error) => Err(error),
            },
        }
    }

    /// The variant that the message is.
    pub fn kind(&self) -> (r: MessageKind)
        ensures
            r == Self::spec_kind(self.deep_view()),
    {
        match self {
            MqttResponse::UpdateAccepted(_) => MessageKind::UpdateAccepted,
            MqttResponse::UpdateDelta(_) => MessageKind::UpdateDelta,
            MqttResponse::UpdateDocuments(_) => MessageKind::UpdateDocuments,
            MqttResponse::Error(_) => MessageKind::Error,
        }
    }

    /// Reads a document as the given variant and as no other.
    pub fn decode_as(kind: MessageKind, doc: &Json, mode: Strictness) -> (r: Result<MqttResponse, DecodeError>)
        ensures
            outcome(r) == Self::spec_decode_as(kind, doc@, mode),
            r matches Ok(message) ==> Self::spec_kind(message.deep_view()) == kind,
    {
        match kind {
            MessageKind::UpdateAccepted => match UpdateAccepted::decode(doc, mode) {
                Ok(message) => Ok(MqttResponse::UpdateAccepted(message)),
                Err(error) => Err(error),
            },
            MessageKind::UpdateDelta => match UpdateDelta::decode(doc, mode) {
                Ok(message) => Ok(MqttResponse::UpdateDelta(message)),
                Err(error) => Err(error),
            },
            MessageKind::UpdateDocuments => match UpdateDocuments::decode(doc, mode) {
                Ok(message) => Ok(MqttResponse::UpdateDocuments(message)),
                Err(error) => Err(error),
            },
            MessageKind::Error => match Rejected::decode(doc, mode) {
                Ok(message) => Ok(MqttResponse::Error(message)),
                Err(error) => Err(error),
            },
        }
    }
}

/// Whether a state holds the split into a desired and a reported part: it is an object with
/// a member `desired` or a member `reported`.
pub open spec fn spec_split_in(state: JsonValue) -> bool {
    &&& state is Object
    &&& lookup(state->Object_0, "desired"@) is Some || lookup(state->Object_0, "reported"@) is Some
}

/// Whether the state of a message holds the split.
pub open spec fn spec_has_split(members: Members) -> bool {
    lookup(members, "state"@) is Some && spec_split_in(lookup(members, "state"@)->Some_0)
}

/// An accepted update asks that its state hold the split, in either mode.
pub open spec fn spec_ask_split(members: Members) -> Result<(), DecodeErrorView> {
    if lookup(members, "state"@) is Some && lookup(members, "state"@)->Some_0 is Object && !spec_has_split(members) {
        Err(DecodeErrorView::Field("state"@, Box::new(DecodeErrorView::MissingField("desired"@))))
    } else {
        Ok(())
    }
}

/// A delta refuses a state that holds the split, in either mode, for the first of `desired`
/// and `reported` that the state holds.
pub open spec fn spec_refuse_split(members: Members) -> Result<(), DecodeErrorView> {
    if spec_has_split(members) {
        let parts = lookup(members, "state"@)->Some_0->Object_0;
        let held = if lookup(parts, "desired"@) is Some {
            "desired"@
        } else {
            "reported"@
        };
        Err(DecodeErrorView::Field("state"@, Box::new(DecodeErrorView::UnknownField(held))))
    } else {
        Ok(())
    }
}

/// Asks that the state of a message hold the split.
pub fn ask_split(members: &Vec<(String, Json)>) -> (r: Result<(), DecodeError>)
    ensures
        match r {
            Ok(_) => spec_ask_split(members.deep_view()) is Ok,
            Err(error) => spec_ask_split(members.deep_view()) == Err::<(), DecodeErrorView>(error@),
        },
{
    match find(members, "state") {
        Some(state) => match state {
            Json::Object(parts) => {
                proof {
                    lemma_object_view(*parts);
                }
                if find(parts, "desired").is_some() || find(parts, "reported").is_some() {
                    Ok(())
                } else {
                    let cause = DecodeError::MissingField("desired".to_owned());
                    assert(cause@ == DecodeErrorView::MissingField("desired"@));
                    Err(DecodeError::Field("state".to_owned(), Box::new(cause)))
                }
            },
            _ => {
                assert(!(state@ is Object));
                Ok(())
            },
        },
        None => Ok(()),
    }
}

/// Refuses a message whose state holds the split.
pub fn refuse_split(members: &Vec<(String, Json)>) -> (r: Result<(), DecodeError>)
    ensures
        match r {
            Ok(_) => spec_refuse_split(members.deep_view()) is Ok,
            Err(error) => spec_refuse_split(members.deep_view()) == Err::<(), DecodeErrorView>(error@),
        },
{
    match find(members, "state") {
        Some(state) => match state {
            Json::Object(parts) => {
                proof {
                    lemma_object_view(*parts);
                }
                if find(parts, "desired").is_some() {
                    let cause = DecodeError::UnknownField("desired".to_owned());
                    assert(cause@ == DecodeErrorView::UnknownField("desired"@));
                    Err(DecodeError::Field("state".to_owned(), Box::new(cause)))
                } else if find(parts, "reported").is_some() {
                    let cause = DecodeError::UnknownField("reported".to_owned());
                    assert(cause@ == DecodeErrorView::UnknownField("reported"@));
                    Err(DecodeError::Field("state".to_owned(), Box::new(cause)))
                } else {
                    Ok(())
                }
            },
            _ => {
                assert(!(state@ is Object));
                Ok(())
            },
        },
        None => Ok(()),
    }
}

/// Whether a document is read as the given variant.
pub open spec fn spec_reads(kind: MessageKind, doc: JsonValue, mode: Strictness) -> bool {
    MqttResponse::spec_decode_as(kind, doc, mode) is Ok
}

/// The shape of each variant, which is the same in both modes: which keys of the union the
/// object holds, and whether its state holds the split. Only a delta and an accepted update
/// hold `version`, only an error holds `code`, and of the two with `version` only the
/// accepted update holds the split.
pub open spec fn spec_shape(kind: MessageKind, doc: JsonValue) -> bool {
    &&& doc is Object
    &&& match kind {
        MessageKind::UpdateDocuments => lookup(doc->Object_0, "version"@) is None && lookup(
            doc->Object_0,
            "code"@,
        ) is None,
        MessageKind::UpdateAccepted => lookup(doc->Object_0, "version"@) is Some && lookup(doc->Object_0, "code"@)
            is None && spec_has_split(doc->Object_0),
        MessageKind::UpdateDelta => lookup(doc->Object_0, "version"@) is Some && lookup(doc->Object_0, "code"@)
            is None && !spec_has_split(doc->Object_0),
        MessageKind::Error => lookup(doc->Object_0, "code"@) is Some,
    }
}

/// A document that is read as a variant, in either mode, has the shape of that variant.
pub proof fn lemma_shape(kind: MessageKind, doc: JsonValue, mode: Strictness)
    requires
        spec_reads(kind, doc, mode),
    ensures
        spec_shape(kind, doc),
{
    reveal(UpdateDocuments::spec_read);
    reveal(UpdateAccepted::spec_read);
    reveal(UpdateDelta::spec_read);
    reveal(Rejected::spec_read);
    reveal(MqttState::spec_read);
}

/// No document is read as two variants, whatever the modes: the order in which the variants
/// are tried does not matter, and neither does the carrying of unknown keys.
pub proof fn lemma_one_variant(
    doc: JsonValue,
    one: MessageKind,
    first: Strictness,
    other: MessageKind,
    second: Strictness,
)
    requires
        one != other,
        spec_reads(one, doc, first),
    ensures
        !spec_reads(other, doc, second),
{
    lemma_shape(one, doc, first);
    if spec_reads(other, doc, second) {
        lemma_shape(other, doc, second);
    }
}

/// A message that is read as the variant that its topic announces is read as the same
/// without the topic.
pub proof fn lemma_topic(kind: MessageKind, doc: JsonValue, mode: Strictness)
    requires
        spec_reads(kind, doc, mode),
    ensures
        MqttResponse::spec_decode(doc, mode) == MqttResponse::spec_decode_as(kind, doc, mode),
{
    if kind != MessageKind::UpdateDocuments {
        lemma_one_variant(doc, kind, mode, MessageKind::UpdateDocuments, mode);
    }
    if kind != MessageKind::UpdateAccepted {
        lemma_one_variant(doc, kind, mode, MessageKind::UpdateAccepted, mode);
    }
    if kind != MessageKind::UpdateDelta {
        lemma_one_variant(doc, kind, mode, MessageKind::UpdateDelta, mode);
    }
}

/// A message that is read is read as the variant whose shape it has: as which variant does
/// not depend on the mode.
pub proof fn lemma_kind(doc: JsonValue, mode: Strictness)
    requires
        MqttResponse::spec_decode(doc, mode) is Ok,
    ensures
        spec_shape(MqttResponse::spec_kind(MqttResponse::spec_decode(doc, mode)->Ok_0), doc),
        spec_reads(MqttResponse::spec_kind(MqttResponse::spec_decode(doc, mode)->Ok_0), doc, mode),
{
    let kind = MqttResponse::spec_kind(MqttResponse::spec_decode(doc, mode)->Ok_0);
    lemma_shape(kind, doc, mode);
}

/// A message that is read in both modes is of the same variant in both.
pub proof fn lemma_modes(doc: JsonValue)
    requires
        MqttResponse::spec_decode(doc, Strictness::Strict) is Ok,
        MqttResponse::spec_decode(doc, Strictness::Lenient) is Ok,
    ensures
        MqttResponse::spec_kind(MqttResponse::spec_decode(doc, Strictness::Strict)->Ok_0) == MqttResponse::spec_kind(
            MqttResponse::spec_decode(doc, Strictness::Lenient)->Ok_0,
        ),
{
    lemma_kind(doc, Strictness::Strict);
    lemma_kind(doc, Strictness::Lenient);
    let strict = MqttResponse::spec_kind(MqttResponse::spec_decode(doc, Strictness::Strict)->Ok_0);
    let lenient = MqttResponse::spec_kind(MqttResponse::spec_decode(doc, Strictness::Lenient)->Ok_0);
    if strict != lenient {
        lemma_one_variant(doc, strict, Strictness::Strict, lenient, Strictness::Lenient);
    }
}

/// Whether no tree of the metadata has two children of the same name under any node.
pub open spec fn metadata_once(metadata: MqttMetadataView) -> bool {
    &&& metadata.desired matches Some(tree) ==> children_once(tree)
    &&& metadata.reported matches Some(tree) ==> children_once(tree)
}

/// Whether no tree of the message's metadata has two children of the same name under any
/// node.
pub open spec fn message_once(message: MqttResponseView) -> bool {
    match message {
        MqttResponseView::UpdateAccepted(update) => metadata_once(update.metadata),
        MqttResponseView::UpdateDelta(update) => children_once(update.metadata),
        MqttResponseView::UpdateDocuments(update) => {
            &&& update.metadata matches Some(metadata) ==> metadata_once(metadata)
            &&& update.previous matches Some(document) ==> metadata_once(document.metadata)
            &&& update.current matches Some(document) ==> metadata_once(document.metadata)
        },
        MqttResponseView::Error(_) => true,
    }
}

/// Metadata that is read from a document without a name twice holds no name twice.
pub proof fn lemma_metadata_once(doc: JsonValue, mode: Strictness)
    requires
        names_once(doc),
        MqttMetadata::spec_decode(doc, mode) is Ok,
    ensures
        metadata_once(MqttMetadata::spec_decode(doc, mode)->Ok_0),
{
    reveal(MqttMetadata::spec_read);
    let members = doc->Object_0;
    lemma_names_once_below(members, "desired"@);
    lemma_names_once_below(members, "reported"@);
    if lookup(members, "desired"@) is Some && !(lookup(members, "desired"@)->Some_0 is Null) {
        let below = lookup(members, "desired"@)->Some_0;
        MqttMetadataTimestamp::lemma_tree_once(below);
    }
    if lookup(members, "reported"@) is Some && !(lookup(members, "reported"@)->Some_0 is Null) {
        let below = lookup(members, "reported"@)->Some_0;
        MqttMetadataTimestamp::lemma_tree_once(below);
    }
}

/// The metadata of a whole shadow document that is read from a document without a name
/// twice holds no name twice.
pub proof fn lemma_document_once(doc: JsonValue, mode: Strictness)
    requires
        names_once(doc),
        MqttDocumentsState::spec_decode(doc, mode) is Ok,
    ensures
        metadata_once(MqttDocumentsState::spec_decode(doc, mode)->Ok_0.metadata),
{
    reveal(MqttDocumentsState::spec_read);
    let members = doc->Object_0;
    lemma_names_once_below(members, "metadata"@);
    lemma_metadata_once(lookup(members, "metadata"@)->Some_0, mode);
}

/// In a message that is read from a text, which holds no name twice in any object, no node
/// of the metadata has two children of the same name.
pub proof fn lemma_message_once(doc: JsonValue, mode: Strictness)
    requires
        names_once(doc),
        MqttResponse::spec_decode(doc, mode) is Ok,
    ensures
        message_once(MqttResponse::spec_decode(doc, mode)->Ok_0),
{
    reveal(UpdateDocuments::spec_read);
    reveal(UpdateAccepted::spec_read);
    reveal(UpdateDelta::spec_read);
    let members = doc->Object_0;
    if doc is Object {
        lemma_names_once_below(members, "metadata"@);
        lemma_names_once_below(members, "previous"@);
        lemma_names_once_below(members, "current"@);
    }
    match MqttResponse::spec_decode(doc, mode)->Ok_0 {
        MqttResponseView::UpdateDocuments(update) => {
            if lookup(members, "metadata"@) is Some && !(lookup(members, "metadata"@)->Some_0 is Null) {
                let below = lookup(members, "metadata"@)->Some_0;
                lemma_metadata_once(below, mode);
            }
            if lookup(members, "previous"@) is Some && !(lookup(members, "previous"@)->Some_0 is Null) {
                let below = lookup(members, "previous"@)->Some_0;
                lemma_document_once(below, mode);
            }
            if lookup(members, "current"@) is Some && !(lookup(members, "current"@)->Some_0 is Null) {
                let below = lookup(members, "current"@)->Some_0;
                lemma_document_once(below, mode);
            }
        },
        MqttResponseView::UpdateAccepted(update) => {
            lemma_metadata_once(lookup(members, "metadata"@)->Some_0, mode);
        },
        MqttResponseView::UpdateDelta(update) => {
            MqttMetadataTimestamp::lemma_tree_once(lookup(members, "metadata"@)->Some_0);
        },
        MqttResponseView::Error(_) => {},
    }
}

} // verus!
