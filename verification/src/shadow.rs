//! The shadow of a device: what either family of devices reports of itself.

use vstd::prelude::*;
use crate::error::{attempt, mismatch, no_attempts, outcome, DecodeError, DecodeErrorView, Expected, Strictness};
use crate::exo::{
    ExoState, ExoStateView, SaltWaterChlorinatorEquipment, SaltWaterChlorinatorEquipmentView,
};
use crate::json::{
    find, lemma_lookup_add, lemma_lookup_empty, lemma_lookup_push, lemma_lookup_some, lemma_object_view, lookup,
    Json, JsonValue, Members,
};
use crate::merge::spec_merge;
use crate::vr::{RobotEquipment, RobotEquipmentView, VrState, VrStateView};
use crate::record::{
    carried, close, lemma_all_declared, lemma_undeclared_close, lemma_undeclared_empty, lemma_undeclared_push, open,
    put, spec_close, spec_open, spec_undeclared, start, undeclared,
};
use crate::text::same_text;
use crate::wire::{field, spec_field, Decode, Encode, Record};

verus! {

/// Whether a device is connected to the cloud. On the wire it is `"connected"` or
/// `"disconnected"`.
#[derive(Debug, Clone, Copy, PartialEq, Eq, Structural)]
pub enum AwsStateStatus {
    Connected,
    Disconnected,
}

impl DeepView for AwsStateStatus {
    type V = AwsStateStatus;

    open spec fn deep_view(&self) -> AwsStateStatus {
        *self
    }
}

impl Decode for AwsStateStatus {
    open spec fn spec_decode(doc: JsonValue, mode: Strictness) -> Result<AwsStateStatus, DecodeErrorView> {
        match doc {
            JsonValue::String(text) => if text == "connected"@ {
                Ok(AwsStateStatus::Connected)
            } else if text == "disconnected"@ {
                Ok(AwsStateStatus::Disconnected)
            } else {
                Err(DecodeErrorView::Mismatch(Expected::Status))
            },
            _ => Err(DecodeErrorView::Mismatch(Expected::Status)),
        }
    }

    open spec fn spec_absent() -> Option<AwsStateStatus> {
        None
    }

    fn decode(doc: &Json, mode: Strictness) -> (r: Result<AwsStateStatus, DecodeError>) {
        match doc {
            Json::String(text) => if same_text(text.as_str(), "connected") {
                Ok(AwsStateStatus::Connected)
            } else if same_text(text.as_str(), "disconnected") {
                Ok(AwsStateStatus::Disconnected)
            } else {
                Err(DecodeError::Mismatch(Expected::Status))
            },
            _ => Err(DecodeError::Mismatch(Expected::Status)),
        }
    }

    fn absent() -> (r: Option<AwsStateStatus>) {
        None
    }
}

impl Encode for AwsStateStatus {
    open spec fn spec_encode(value: AwsStateStatus) -> JsonValue {
        match value {
            AwsStateStatus::Connected => JsonValue::String("connected"@),
            AwsStateStatus::Disconnected => JsonValue::String("disconnected"@),
        }
    }

    open spec fn faithful(value: AwsStateStatus, mode: Strictness) -> bool {
        true
    }

    fn encode(&self) -> (r: Json) {
        match self {
            AwsStateStatus::Connected => Json::String("connected".to_owned()),
            AwsStateStatus::Disconnected => Json::String("disconnected".to_owned()),
        }
    }

    proof fn round_trip(value: AwsStateStatus, mode: Strictness) {
        reveal_strlit("connected");
        reveal_strlit("disconnected");
        assert("connected"@.len() == 9);
        assert("disconnected"@.len() == 12);
    }
}

/// The connection of a device to the cloud.
#[derive(Debug, PartialEq, Eq)]
pub struct AwsState {
    pub session_id: String,
    pub status: AwsStateStatus,
    /// When the status was set, in milliseconds since the epoch.
    pub timestamp: u64,
    /// Members that the record does not declare.
    pub extra: Vec<(String, Json)>,
}

/// Mathematical model of a [`AwsState`].
pub struct AwsStateView {
    pub session_id: Seq<char>,
    pub status: AwsStateStatus,
    pub timestamp: u64,
    pub extra: Members,
}

impl DeepView for AwsState {
    type V = AwsStateView;

    open spec fn deep_view(&self) -> AwsStateView {
        AwsStateView {
            session_id: self.session_id@,
            status: self.status,
            timestamp: self.timestamp,
            extra: self.extra.deep_view(),
        }
    }
}

impl Record for AwsState {
    open spec fn spec_declares(name: Seq<char>) -> bool {
        ||| name == "session_id"@
        ||| name == "status"@
        ||| name == "timestamp"@
    }

    fn declares(name: &str) -> (r: bool) {
        same_text(name, "session_id") || same_text(name, "status") || same_text(name, "timestamp")
    }
}

impl AwsState {
    /// What a document is read as.
    #[verifier::opaque]
    pub open spec fn spec_read(doc: JsonValue, mode: Strictness) -> Result<AwsStateView, DecodeErrorView> {
        match spec_open::<AwsState>(doc, mode) { Err(e) => Err(e), Ok(members) =>
        match spec_field::<String>(members, "session_id"@, mode) { Err(e) => Err(e), Ok(session_id) =>
        match spec_field::<AwsStateStatus>(members, "status"@, mode) { Err(e) => Err(e), Ok(status) =>
        match spec_field::<u64>(members, "timestamp"@, mode) { Err(e) => Err(e), Ok(timestamp) =>
            Ok(AwsStateView {
                session_id,
                status,
                timestamp,
                extra: spec_undeclared::<AwsState>(members),
            })
        }}}}
    }

    /// The document that a value is written as.
    #[verifier::opaque]
    pub open spec fn spec_write(value: AwsStateView) -> JsonValue {
        spec_close(
            Seq::empty()
                .push(("session_id"@, String::spec_encode(value.session_id)))
                .push(("status"@, AwsStateStatus::spec_encode(value.status)))
                .push(("timestamp"@, u64::spec_encode(value.timestamp))),
            value.extra,
        )
    }
}

impl Decode for AwsState {
    open spec fn spec_decode(doc: JsonValue, mode: Strictness) -> Result<AwsStateView, DecodeErrorView> {
        AwsState::spec_read(doc, mode)
    }

    open spec fn spec_absent() -> Option<AwsStateView> {
        None
    }

    fn decode(doc: &Json, mode: Strictness) -> (r: Result<AwsState, DecodeError>) {
        reveal(AwsState::spec_read);
        let members = open::<AwsState>(doc, mode)?;
        let session_id = field::<String>(members, "session_id", mode)?;
        let status = field::<AwsStateStatus>(members, "status", mode)?;
        let timestamp = field::<u64>(members, "timestamp", mode)?;
        let extra = undeclared::<AwsState>(members);
        Ok(AwsState { session_id, status, timestamp, extra })
    }

    fn absent() -> (r: Option<AwsState>) {
        None
    }
}

impl Encode for AwsState {
    open spec fn spec_encode(value: AwsStateView) -> JsonValue {
        AwsState::spec_write(value)
    }

    open spec fn faithful(value: AwsStateView, mode: Strictness) -> bool {
        carried::<AwsState>(value.extra, mode)
    }

    fn encode(&self) -> (r: Json) {
        reveal(AwsState::spec_write);
        let mut fields = start();
        put(&mut fields, "session_id", self.session_id.encode());
        put(&mut fields, "status", self.status.encode());
        put(&mut fields, "timestamp", self.timestamp.encode());
        close(fields, &self.extra)
    }

    proof fn round_trip(value: AwsStateView, mode: Strictness) {
        reveal(AwsState::spec_read);
        reveal(AwsState::spec_write);
        broadcast use {
            lemma_lookup_empty,
            lemma_lookup_push,
            lemma_lookup_add,
            lemma_undeclared_empty,
            lemma_undeclared_push,
        };
        // Two names differ in their length or in one of the letters named here.
        reveal_strlit("session_id");
        reveal_strlit("status");
        reveal_strlit("timestamp");
        assert("session_id"@.len() == 10);
        assert("status"@.len() == 6);
        assert("timestamp"@.len() == 9);
        AwsStateStatus::round_trip(value.status, mode);
        let fields = Seq::empty()
            .push(("session_id"@, String::spec_encode(value.session_id)))
            .push(("status"@, AwsStateStatus::spec_encode(value.status)))
            .push(("timestamp"@, u64::spec_encode(value.timestamp)));
        let members = fields + value.extra;
        assert(spec_undeclared::<AwsState>(fields).len() == 0);
        lemma_undeclared_close::<AwsState>(fields, value.extra);
        assert(spec_open::<AwsState>(AwsState::spec_encode(value), mode) == Ok::<Members, DecodeErrorView>(members));
        assert(spec_field::<String>(members, "session_id"@, mode) == Ok::<Seq<char>, DecodeErrorView>(value.session_id));
        assert(spec_field::<AwsStateStatus>(members, "status"@, mode) == Ok::<AwsStateStatus, DecodeErrorView>(value.status));
        assert(spec_field::<u64>(members, "timestamp"@, mode) == Ok::<u64, DecodeErrorView>(value.timestamp));
    }
}

/// The state part of a shadow of a device of any family: what it reports, not interpreted.
#[derive(Debug, PartialEq, Eq)]
pub struct State {
    pub reported: Json,
    /// Members that the record does not declare.
    pub extra: Vec<(String, Json)>,
}

/// Mathematical model of a [`State`].
pub struct StateView {
    pub reported: JsonValue,
    pub extra: Members,
}

impl DeepView for State {
    type V = StateView;

    open spec fn deep_view(&self) -> StateView {
        StateView {
            reported: self.reported.deep_view(),
            extra: self.extra.deep_view(),
        }
    }
}

impl Record for State {
    open spec fn spec_declares(name: Seq<char>) -> bool {
        name == "reported"@
    }

    fn declares(name: &str) -> (r: bool) {
        same_text(name, "reported")
    }
}

impl State {
    /// What a document is read as.
    #[verifier::opaque]
    pub open spec fn spec_read(doc: JsonValue, mode: Strictness) -> Result<StateView, DecodeErrorView> {
        match spec_open::<State>(doc, mode) { Err(e) => Err(e), Ok(members) =>
        match spec_field::<Json>(members, "reported"@, mode) { Err(e) => Err(e), Ok(reported) =>
            Ok(StateView {
                reported,
                extra: spec_undeclared::<State>(members),
            })
        }}
    }

    /// The document that a value is written as.
    #[verifier::opaque]
    pub open spec fn spec_write(value: StateView) -> JsonValue {
        spec_close(
            Seq::empty()
                .push(("reported"@, Json::spec_encode(value.reported))),
            value.extra,
        )
    }
}

impl Decode for State {
    open spec fn spec_decode(doc: JsonValue, mode: Strictness) -> Result<StateView, DecodeErrorView> {
        State::spec_read(doc, mode)
    }

    open spec fn spec_absent() -> Option<StateView> {
        None
    }

    fn decode(doc: &Json, mode: Strictness) -> (r: Result<State, DecodeError>) {
        reveal(State::spec_read);
        let members = open::<State>(doc, mode)?;
        let reported = field::<Json>(members, "reported", mode)?;
        let extra = undeclared::<State>(members);
        Ok(State { reported, extra })
    }

    fn absent() -> (r: Option<State>) {
        None
    }
}

impl Encode for State {
    open spec fn spec_encode(value: StateView) -> JsonValue {
        State::spec_write(value)
    }

    open spec fn faithful(value: StateView, mode: Strictness) -> bool {
        carried::<State>(value.extra, mode)
    }

    fn encode(&self) -> (r: Json) {
        reveal(State::spec_write);
        let mut fields = start();
        put(&mut fields, "reported", self.reported.encode());
        close(fields, &self.extra)
    }

    proof fn round_trip(value: StateView, mode: Strictness) {
        reveal(State::spec_read);
        reveal(State::spec_write);
        broadcast use {
            lemma_lookup_empty,
            lemma_lookup_push,
            lemma_lookup_add,
            lemma_undeclared_empty,
            lemma_undeclared_push,
        };
        reveal_strlit("reported");
        let fields = Seq::empty()
            .push(("reported"@, Json::spec_encode(value.reported)));
        let members = fields + value.extra;
        assert(spec_undeclared::<State>(fields).len() == 0);
        lemma_undeclared_close::<State>(fields, value.extra);
        assert(spec_open::<State>(State::spec_encode(value), mode) == Ok::<Members, DecodeErrorView>(members));
        assert(spec_field::<Json>(members, "reported"@, mode) == Ok::<JsonValue, DecodeErrorView>(value.reported));
    }
}

/// What a device reports of itself. The two families of devices are told apart by shape alone:
/// a document is first read as a chlorinator system and, where it is none, as a robotic
/// cleaner system.
#[derive(Debug, PartialEq, Eq)]
pub enum ReportedState {
    Exo(Box<ExoState>),
    Vr(Box<VrState>),
}

/// Mathematical model of a [`ReportedState`].
pub enum ReportedStateView {
    Exo(ExoStateView),
    Vr(VrStateView),
}

impl DeepView for ReportedState {
    type V = ReportedStateView;

    open spec fn deep_view(&self) -> ReportedStateView {
        match self {
            ReportedState::Exo(state) => ReportedStateView::Exo(state.deep_view()),
            ReportedState::Vr(state) => ReportedStateView::Vr(state.deep_view()),
        }
    }
}

impl Decode for ReportedState {
    open spec fn spec_decode(doc: JsonValue, mode: Strictness) -> Result<ReportedStateView, DecodeErrorView> {
        match ExoState::spec_decode(doc, mode) {
            Ok(state) => Ok(ReportedStateView::Exo(state)),
            Err(not_exo) => match VrState::spec_decode(doc, mode) {
                Ok(state) => Ok(ReportedStateView::Vr(state)),
                Err(not_vr) => Err(
                    DecodeErrorView::SchemaMismatch(Seq::empty().push(("Exo"@, not_exo)).push(("Vr"@, not_vr))),
                ),
            },
        }
    }

    open spec fn spec_absent() -> Option<ReportedStateView> {
        None
    }

    fn decode(doc: &Json, mode: Strictness) -> (r: Result<ReportedState, DecodeError>) {
        match ExoState::decode(doc, mode) {
            Ok(state) => Ok(ReportedState::Exo(Box::new(state))),
            Err(not_exo) => match VrState::decode(doc, mode) {
                Ok(state) => Ok(ReportedState::Vr(Box::new(state))),
                Err(not_vr) => {
                    let mut attempts = no_attempts();
                    attempt(&mut attempts, "Exo", not_exo);
                    attempt(&mut attempts, "Vr", not_vr);
                    Err(mismatch(attempts))
                },
            },
        }
    }

    fn absent() -> (r: Option<ReportedState>) {
        None
    }
}

/// The state of a system of either family comes back as such: no document is of both.
impl Encode for ReportedState {
    open spec fn spec_encode(value: ReportedStateView) -> JsonValue {
        match value {
            ReportedStateView::Exo(state) => ExoState::spec_encode(state),
            ReportedStateView::Vr(state) => VrState::spec_encode(state),
        }
    }

    open spec fn faithful(value: ReportedStateView, mode: Strictness) -> bool {
        match value {
            ReportedStateView::Exo(state) => ExoState::faithful(state, mode),
            ReportedStateView::Vr(state) => VrState::faithful(state, mode),
        }
    }

    fn encode(&self) -> (r: Json) {
        match self {
            ReportedState::Exo(state) => state.encode(),
            ReportedState::Vr(state) => state.encode(),
        }
    }

    proof fn round_trip(value: ReportedStateView, mode: Strictness) {
        match value {
            ReportedStateView::Exo(state) => {
                ExoState::round_trip(state, mode);
            },
            ReportedStateView::Vr(state) => {
                VrState::round_trip(state, mode);
                lemma_families(VrState::spec_encode(state), mode, mode);
            },
        }
    }
}

impl ReportedState {
    /// What the device reports once changes are laid over what it reported before: the state
    /// is written as a document, the changes are laid over it, and the result is read.
    pub open spec fn spec_updated(state: ReportedStateView, changes: JsonValue, mode: Strictness) -> Result<
        ReportedStateView,
        DecodeErrorView,
    > {
        ReportedState::spec_decode(spec_merge(ReportedState::spec_encode(state), changes), mode)
    }

    /// What the device reports once the changes of an update are laid over what it reported
    /// before. The changes are those of a delta, or the reported state of an accepted
    /// update.
    pub fn updated(&self, changes: &Json, mode: Strictness) -> (r: Result<ReportedState, DecodeError>)
        ensures
            outcome(r) == Self::spec_updated(self.deep_view(), changes@, mode),
    {
        ReportedState::decode(&self.encode().merge(changes), mode)
    }

    /// Changes that change nothing leave a state as it is.
    pub proof fn lemma_no_change(state: ReportedStateView, mode: Strictness)
        requires
            ReportedState::faithful(state, mode),
        ensures
            Self::spec_updated(state, JsonValue::Object(Seq::empty()), mode) == Ok::<
                ReportedStateView,
                DecodeErrorView,
            >(state),
    {
        ReportedState::round_trip(state, mode);
        reveal(ExoState::spec_write);
        reveal(VrState::spec_write);
    }
}

/// Whether the equipment of a shadow holds the one slot and not the other.
pub open spec fn spec_one_slot(doc: JsonValue, own: Seq<char>, other: Seq<char>) -> bool {
    &&& doc is Object
    &&& lookup(doc->Object_0, "equipment"@) is Some
    &&& lookup(doc->Object_0, "equipment"@)->Some_0 is Object
    &&& lookup(lookup(doc->Object_0, "equipment"@)->Some_0->Object_0, own) is Some
    &&& lookup(lookup(doc->Object_0, "equipment"@)->Some_0->Object_0, other) is None
}

/// What a device reports is read only where its equipment holds one of the two slots and not
/// the other, in either mode: `swc_0` for a chlorinator system, `robot` for a robotic cleaner
/// system.
pub proof fn lemma_one_slot(doc: JsonValue, mode: Strictness)
    ensures
        ExoState::spec_decode(doc, mode) is Ok ==> spec_one_slot(doc, "swc_0"@, "robot"@),
        VrState::spec_decode(doc, mode) is Ok ==> spec_one_slot(doc, "robot"@, "swc_0"@),
{
    reveal(ExoState::spec_read);
    reveal(VrState::spec_read);
    reveal(SaltWaterChlorinatorEquipment::spec_read);
    reveal(RobotEquipment::spec_read);
}

/// The two families are apart in either mode, so the order in which they are tried does not
/// matter, and neither does the mode: a document that is read as the state of a system of
/// one family is not read as that of the other.
pub proof fn lemma_families(doc: JsonValue, first: Strictness, second: Strictness)
    ensures
        ExoState::spec_decode(doc, first) is Ok ==> VrState::spec_decode(doc, second) is Err,
        VrState::spec_decode(doc, first) is Ok ==> ExoState::spec_decode(doc, second) is Err,
{
    lemma_one_slot(doc, first);
    lemma_one_slot(doc, second);
}

/// A shadow whose equipment holds both slots, or neither, is refused in either mode.
pub proof fn lemma_slots_refused(members: Members, slots: Members, mode: Strictness)
    requires
        lookup(members, "equipment"@) == Some(JsonValue::Object(slots)),
        (lookup(slots, "swc_0"@) is Some) == (lookup(slots, "robot"@) is Some),
    ensures
        ReportedState::spec_decode(JsonValue::Object(members), mode) is Err,
{
    lemma_one_slot(JsonValue::Object(members), mode);
}

/// The equipment of a device, told by the one slot that its object holds: `robot` or
/// `swc_0`.
#[derive(Debug, PartialEq, Eq)]
pub enum Equipment {
    Robot(RobotEquipment),
    Chlorinator(SaltWaterChlorinatorEquipment),
}

/// Mathematical model of an [`Equipment`].
pub enum EquipmentView {
    Robot(RobotEquipmentView),
    Chlorinator(SaltWaterChlorinatorEquipmentView),
}

impl DeepView for Equipment {
    type V = EquipmentView;

    open spec fn deep_view(&self) -> EquipmentView {
        match self {
            Equipment::Robot(equipment) => EquipmentView::Robot(equipment.deep_view()),
            Equipment::Chlorinator(equipment) => EquipmentView::Chlorinator(equipment.deep_view()),
        }
    }
}

/// The error of an object that holds both slots: each variant refuses the other's key.
pub open spec fn both_slots() -> DecodeErrorView {
    DecodeErrorView::SchemaMismatch(
        Seq::empty().push(("Robot"@, DecodeErrorView::UnknownField("swc_0"@))).push(
            ("Chlorinator"@, DecodeErrorView::UnknownField("robot"@)),
        ),
    )
}

/// The error of an object that holds neither slot: each variant misses its key.
pub open spec fn no_slot() -> DecodeErrorView {
    DecodeErrorView::SchemaMismatch(
        Seq::empty().push(("Robot"@, DecodeErrorView::MissingField("robot"@))).push(
            ("Chlorinator"@, DecodeErrorView::MissingField("swc_0"@)),
        ),
    )
}

impl Decode for Equipment {
    /// An object with the key `robot` and without `swc_0` is read as the equipment of a
    /// robotic cleaner, one with `swc_0` and without `robot` as that of a chlorinator. With
    /// both keys or with neither the object is of no variant.
    open spec fn spec_decode(doc: JsonValue, mode: Strictness) -> Result<EquipmentView, DecodeErrorView> {
        match doc {
            JsonValue::Object(members) => match (lookup(members, "robot"@), lookup(members, "swc_0"@)) {
                (Some(_), Some(_)) => Err(both_slots()),
                (None, None) => Err(no_slot()),
                (Some(_), None) => match RobotEquipment::spec_decode(doc, mode) {
                    Ok(equipment) => Ok(EquipmentView::Robot(equipment)),
                    Err(error) => Err(error),
                },
                (None, Some(_)) => match SaltWaterChlorinatorEquipment::spec_decode(doc, mode) {
                    Ok(equipment) => Ok(EquipmentView::Chlorinator(equipment)),
                    Err(error) => Err(error),
                },
            },
            _ => Err(DecodeErrorView::Mismatch(Expected::Object)),
        }
    }

    open spec fn spec_absent() -> Option<EquipmentView> {
        None
    }

    fn decode(doc: &Json, mode: Strictness) -> (r: Result<Equipment, DecodeError>) {
        match doc {
            Json::Object(members) => {
                proof {
                    lemma_object_view(*members);
                }
                let robot = find(members, "robot").is_some();
                let chlorinator = find(members, "swc_0").is_some();
                if robot && chlorinator {
                    let mut attempts = no_attempts();
                    attempt(&mut attempts, "Robot", DecodeError::UnknownField("swc_0".to_owned()));
                    attempt(&mut attempts, "Chlorinator", DecodeError::UnknownField("robot".to_owned()));
                    Err(mismatch(attempts))
                } else if robot {
                    match RobotEquipment::decode(doc, mode) {
                        Ok(equipment) => Ok(Equipment::Robot(equipment)),
                        Err(error) => Err(error),
                    }
                } else if chlorinator {
                    match SaltWaterChlorinatorEquipment::decode(doc, mode) {
                        Ok(equipment) => Ok(Equipment::Chlorinator(equipment)),
                        Err(error) => Err(error),
                    }
                } else {
                    let mut attempts = no_attempts();
                    attempt(&mut attempts, "Robot", DecodeError::MissingField("robot".to_owned()));
                    attempt(&mut attempts, "Chlorinator", DecodeError::MissingField("swc_0".to_owned()));
                    Err(mismatch(attempts))
                }
            },
            _ => Err(DecodeError::Mismatch(Expected::Object)),
        }
    }

    fn absent() -> (r: Option<Equipment>) {
        None
    }
}

/// Equipment comes back unchanged where its record does, which carries nothing under the
/// other variant's key.
impl Encode for Equipment {
    open spec fn spec_encode(value: EquipmentView) -> JsonValue {
        match value {
            EquipmentView::Robot(equipment) => RobotEquipment::spec_encode(equipment),
            EquipmentView::Chlorinator(equipment) => SaltWaterChlorinatorEquipment::spec_encode(equipment),
        }
    }

    open spec fn faithful(value: EquipmentView, mode: Strictness) -> bool {
        match value {
            EquipmentView::Robot(equipment) => RobotEquipment::faithful(equipment, mode),
            EquipmentView::Chlorinator(equipment) => SaltWaterChlorinatorEquipment::faithful(equipment, mode),
        }
    }

    fn encode(&self) -> (r: Json) {
        match self {
            Equipment::Robot(equipment) => equipment.encode(),
            Equipment::Chlorinator(equipment) => equipment.encode(),
        }
    }

    proof fn round_trip(value: EquipmentView, mode: Strictness) {
        broadcast use {lemma_lookup_empty, lemma_lookup_push, lemma_lookup_add};
        reveal_strlit("robot");
        reveal_strlit("swc_0");
        assert("robot"@.len() == 5 && "robot"@[0] == 'r');
        assert("swc_0"@.len() == 5 && "swc_0"@[0] == 's');
        match value {
            EquipmentView::Robot(equipment) => {
                reveal(RobotEquipment::spec_write);
                RobotEquipment::round_trip(equipment, mode);
            },
            EquipmentView::Chlorinator(equipment) => {
                reveal(SaltWaterChlorinatorEquipment::spec_write);
                SaltWaterChlorinatorEquipment::round_trip(equipment, mode);
            },
        }
    }
}

/// The slot that an object holds decides what equipment it is read as: the equipment of a
/// robotic cleaner only with `robot` and without `swc_0`, that of a chlorinator only with
/// `swc_0` and without `robot`. An object with both or with neither is of no variant.
pub proof fn lemma_slot_decides(doc: JsonValue, mode: Strictness)
    ensures
        Equipment::spec_decode(doc, mode) matches Ok(EquipmentView::Robot(_)) ==> doc matches JsonValue::Object(
            members,
        ) && lookup(members, "robot"@) is Some && lookup(members, "swc_0"@) is None,
        Equipment::spec_decode(doc, mode) matches Ok(EquipmentView::Chlorinator(_)) ==> doc
            matches JsonValue::Object(members) && lookup(members, "swc_0"@) is Some && lookup(members, "robot"@)
            is None,
        doc matches JsonValue::Object(members) && (lookup(members, "robot"@) is Some) == (lookup(
            members,
            "swc_0"@,
        ) is Some) ==> Equipment::spec_decode(doc, mode) matches Err(DecodeErrorView::SchemaMismatch(_)),
{
}

/// The state part of the shadow of a device.
#[derive(Debug, PartialEq, Eq)]
pub struct DeviceState {
    pub reported: ReportedState,
    /// Members that the record does not declare.
    pub extra: Vec<(String, Json)>,
}

/// Mathematical model of a [`DeviceState`].
pub struct DeviceStateView {
    pub reported: ReportedStateView,
    pub extra: Members,
}

impl DeepView for DeviceState {
    type V = DeviceStateView;

    open spec fn deep_view(&self) -> DeviceStateView {
        DeviceStateView {
            reported: self.reported.deep_view(),
            extra: self.extra.deep_view(),
        }
    }
}

impl Record for DeviceState {
    open spec fn spec_declares(name: Seq<char>) -> bool {
        name == "reported"@
    }

    fn declares(name: &str) -> (r: bool) {
        same_text(name, "reported")
    }
}

impl DeviceState {
    /// What a document is read as.
    #[verifier::opaque]
    pub open spec fn spec_read(doc: JsonValue, mode: Strictness) -> Result<DeviceStateView, DecodeErrorView> {
        match spec_open::<DeviceState>(doc, mode) { Err(e) => Err(e), Ok(members) =>
        match spec_field::<ReportedState>(members, "reported"@, mode) { Err(e) => Err(e), Ok(reported) =>
            Ok(DeviceStateView {
                reported,
                extra: spec_undeclared::<DeviceState>(members),
            })
        }}
    }

    /// The document that a value is written as.
    #[verifier::opaque]
    pub open spec fn spec_write(value: DeviceStateView) -> JsonValue {
        spec_close(
            Seq::empty()
                .push(("reported"@, ReportedState::spec_encode(value.reported))),
            value.extra,
        )
    }
}

impl Decode for DeviceState {
    open spec fn spec_decode(doc: JsonValue, mode: Strictness) -> Result<DeviceStateView, DecodeErrorView> {
        DeviceState::spec_read(doc, mode)
    }

    open spec fn spec_absent() -> Option<DeviceStateView> {
        None
    }

    fn decode(doc: &Json, mode: Strictness) -> (r: Result<DeviceState, DecodeError>) {
        reveal(DeviceState::spec_read);
        let members = open::<DeviceState>(doc, mode)?;
        let reported = field::<ReportedState>(members, "reported", mode)?;
        let extra = undeclared::<DeviceState>(members);
        Ok(DeviceState { reported, extra })
    }

    fn absent() -> (r: Option<DeviceState>) {
        None
    }
}

impl Encode for DeviceState {
    open spec fn spec_encode(value: DeviceStateView) -> JsonValue {
        DeviceState::spec_write(value)
    }

    open spec fn faithful(value: DeviceStateView, mode: Strictness) -> bool {
        &&& ReportedState::faithful(value.reported, mode)
        &&& carried::<DeviceState>(value.extra, mode)
    }

    fn encode(&self) -> (r: Json) {
        reveal(DeviceState::spec_write);
        let mut fields = start();
        put(&mut fields, "reported", self.reported.encode());
        close(fields, &self.extra)
    }

    proof fn round_trip(value: DeviceStateView, mode: Strictness) {
        reveal(DeviceState::spec_read);
        reveal(DeviceState::spec_write);
        broadcast use {
            lemma_lookup_empty,
            lemma_lookup_push,
            lemma_lookup_add,
            lemma_undeclared_empty,
            lemma_undeclared_push,
        };
        reveal_strlit("reported");
        ReportedState::round_trip(value.reported, mode);
        let fields = Seq::empty()
            .push(("reported"@, ReportedState::spec_encode(value.reported)));
        let members = fields + value.extra;
        assert(spec_undeclared::<DeviceState>(fields).len() == 0);
        lemma_undeclared_close::<DeviceState>(fields, value.extra);
        assert(spec_open::<DeviceState>(DeviceState::spec_encode(value), mode) == Ok::<Members, DecodeErrorView>(members));
        assert(spec_field::<ReportedState>(members, "reported"@, mode) == Ok::<ReportedStateView, DecodeErrorView>(value.reported));
    }
}

/// The shadow of a device: the document in the cloud that mirrors its state.
#[derive(Debug, PartialEq, Eq)]
pub struct DeviceShadow {
    pub device_id: String,
    pub state: DeviceState,
    /// When the shadow was last written.
    pub ts: u64,
    /// Members that the record does not declare.
    pub extra: Vec<(String, Json)>,
}

/// Mathematical model of a [`DeviceShadow`].
pub struct DeviceShadowView {
    pub device_id: Seq<char>,
    pub state: DeviceStateView,
    pub ts: u64,
    pub extra: Members,
}

impl DeepView for DeviceShadow {
    type V = DeviceShadowView;

    open spec fn deep_view(&self) -> DeviceShadowView {
        DeviceShadowView {
            device_id: self.device_id@,
            state: self.state.deep_view(),
            ts: self.ts,
            extra: self.extra.deep_view(),
        }
    }
}

impl Record for DeviceShadow {
    open spec fn spec_declares(name: Seq<char>) -> bool {
        ||| name == "deviceId"@
        ||| name == "state"@
        ||| name == "ts"@
    }

    fn declares(name: &str) -> (r: bool) {
        same_text(name, "deviceId") || same_text(name, "state") || same_text(name, "ts")
    }
}

impl DeviceShadow {
    /// What a document is read as.
    #[verifier::opaque]
    pub open spec fn spec_read(doc: JsonValue, mode: Strictness) -> Result<DeviceShadowView, DecodeErrorView> {
        match spec_open::<DeviceShadow>(doc, mode) { Err(e) => Err(e), Ok(members) =>
        match spec_field::<String>(members, "deviceId"@, mode) { Err(e) => Err(e), Ok(device_id) =>
        match spec_field::<DeviceState>(members, "state"@, mode) { Err(e) => Err(e), Ok(state) =>
        match spec_field::<u64>(members, "ts"@, mode) { Err(e) => Err(e), Ok(ts) =>
            Ok(DeviceShadowView {
                device_id,
                state,
                ts,
                extra: spec_undeclared::<DeviceShadow>(members),
            })
        }}}}
    }

    /// The document that a value is written as.
    #[verifier::opaque]
    pub open spec fn spec_write(value: DeviceShadowView) -> JsonValue {
        spec_close(
            Seq::empty()
                .push(("deviceId"@, String::spec_encode(value.device_id)))
                .push(("state"@, DeviceState::spec_encode(value.state)))
                .push(("ts"@, u64::spec_encode(value.ts))),
            value.extra,
        )
    }
}

impl Decode for DeviceShadow {
    open spec fn spec_decode(doc: JsonValue, mode: Strictness) -> Result<DeviceShadowView, DecodeErrorView> {
        DeviceShadow::spec_read(doc, mode)
    }

    open spec fn spec_absent() -> Option<DeviceShadowView> {
        None
    }

    fn decode(doc: &Json, mode: Strictness) -> (r: Result<DeviceShadow, DecodeError>) {
        reveal(DeviceShadow::spec_read);
        let members = open::<DeviceShadow>(doc, mode)?;
        let device_id = field::<String>(members, "deviceId", mode)?;
        let state = field::<DeviceState>(members, "state", mode)?;
        let ts = field::<u64>(members, "ts", mode)?;
        let extra = undeclared::<DeviceShadow>(members);
        Ok(DeviceShadow { device_id, state, ts, extra })
    }

    fn absent() -> (r: Option<DeviceShadow>) {
        None
    }
}

impl Encode for DeviceShadow {
    open spec fn spec_encode(value: DeviceShadowView) -> JsonValue {
        DeviceShadow::spec_write(value)
    }

    open spec fn faithful(value: DeviceShadowView, mode: Strictness) -> bool {
        &&& DeviceState::faithful(value.state, mode)
        &&& carried::<DeviceShadow>(value.extra, mode)
    }

    fn encode(&self) -> (r: Json) {
        reveal(DeviceShadow::spec_write);
        let mut fields = start();
        put(&mut fields, "deviceId", self.device_id.encode());
        put(&mut fields, "state", self.state.encode());
        put(&mut fields, "ts", self.ts.encode());
        close(fields, &self.extra)
    }

    proof fn round_trip(value: DeviceShadowView, mode: Strictness) {
        reveal(DeviceShadow::spec_read);
        reveal(DeviceShadow::spec_write);
        broadcast use {
            lemma_lookup_empty,
            lemma_lookup_push,
            lemma_lookup_add,
            lemma_undeclared_empty,
            lemma_undeclared_push,
        };
        // Two names differ in their length or in one of the letters named here.
        reveal_strlit("deviceId");
        reveal_strlit("state");
        reveal_strlit("ts");
        assert("deviceId"@.len() == 8);
        assert("state"@.len() == 5);
        assert("ts"@.len() == 2);
        DeviceState::round_trip(value.state, mode);
        let fields = Seq::empty()
            .push(("deviceId"@, String::spec_encode(value.device_id)))
            .push(("state"@, DeviceState::spec_encode(value.state)))
            .push(("ts"@, u64::spec_encode(value.ts)));
        let members = fields + value.extra;
        assert(spec_undeclared::<DeviceShadow>(fields).len() == 0);
        lemma_undeclared_close::<DeviceShadow>(fields, value.extra);
        assert(spec_open::<DeviceShadow>(DeviceShadow::spec_encode(value), mode) == Ok::<Members, DecodeErrorView>(members));
        assert(spec_field::<String>(members, "deviceId"@, mode) == Ok::<Seq<char>, DecodeErrorView>(value.device_id));
        assert(spec_field::<DeviceState>(members, "state"@, mode) == Ok::<DeviceStateView, DecodeErrorView>(value.state));
        assert(spec_field::<u64>(members, "ts"@, mode) == Ok::<u64, DecodeErrorView>(value.ts));
    }
}

} // verus!
