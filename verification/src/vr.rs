//! The state of a robotic cleaner system.

use vstd::prelude::*;
use crate::error::{DecodeError, DecodeErrorView, Strictness};
use crate::json::{lemma_lookup_add, lemma_lookup_empty, lemma_lookup_push, lookup, Json, JsonValue, Members};
use crate::record::{
    carried, close, lemma_undeclared_close, lemma_undeclared_empty, lemma_undeclared_push, open, put, refuse,
    spec_close, spec_open, spec_refuse, spec_undeclared, start, undeclared,
};
use crate::robot::{Robot, RobotView};
use crate::shadow::{AwsState, AwsStateView};
use crate::text::same_text;
use crate::wire::{field, spec_field, Decode, Encode, Record};

verus! {

/// Part and serial numbers of the pieces of a robotic cleaner.
#[derive(Debug, PartialEq, Eq)]
pub struct EboxData {
    pub complete_cleaner_pn: String,
    pub complete_cleaner_sn: String,
    pub control_box_pn: String,
    pub control_box_sn: String,
    pub motor_block_sn: String,
    pub power_supply_sn: String,
    pub sensor_block_sn: String,
    /// Members that the record does not declare.
    pub extra: Vec<(String, Json)>,
}

/// Mathematical model of a [`EboxData`].
pub struct EboxDataView {
    pub complete_cleaner_pn: Seq<char>,
    pub complete_cleaner_sn: Seq<char>,
    pub control_box_pn: Seq<char>,
    pub control_box_sn: Seq<char>,
    pub motor_block_sn: Seq<char>,
    pub power_supply_sn: Seq<char>,
    pub sensor_block_sn: Seq<char>,
    pub extra: Members,
}

impl DeepView for EboxData {
    type V = EboxDataView;

    open spec fn deep_view(&self) -> EboxDataView {
        EboxDataView {
            complete_cleaner_pn: self.complete_cleaner_pn@,
            complete_cleaner_sn: self.complete_cleaner_sn@,
            control_box_pn: self.control_box_pn@,
            control_box_sn: self.control_box_sn@,
            motor_block_sn: self.motor_block_sn@,
            power_supply_sn: self.power_supply_sn@,
            sensor_block_sn: self.sensor_block_sn@,
            extra: self.extra.deep_view(),
        }
    }
}

impl Record for EboxData {
    open spec fn spec_declares(name: Seq<char>) -> bool {
        ||| name == "completeCleanerPn"@
        ||| name == "completeCleanerSn"@
        ||| name == "controlBoxPn"@
        ||| name == "controlBoxSn"@
        ||| name == "motorBlockSn"@
        ||| name == "powerSupplySn"@
        ||| name == "sensorBlockSn"@
    }

    fn declares(name: &str) -> (r: bool) {
        same_text(name, "completeCleanerPn") || same_text(name, "completeCleanerSn")
            || same_text(name, "controlBoxPn") || same_text(name, "controlBoxSn")
            || same_text(name, "motorBlockSn") || same_text(name, "powerSupplySn")
            || same_text(name, "sensorBlockSn")
    }
}

impl EboxData {
    /// What a document is read as.
    #[verifier::opaque]
    pub open spec fn spec_read(doc: JsonValue, mode: Strictness) -> Result<EboxDataView, DecodeErrorView> {
        match spec_open::<EboxData>(doc, mode) { Err(e) => Err(e), Ok(members) =>
        match spec_field::<String>(members, "completeCleanerPn"@, mode) { Err(e) => Err(e), Ok(complete_cleaner_pn) =>
        match spec_field::<String>(members, "completeCleanerSn"@, mode) { Err(e) => Err(e), Ok(complete_cleaner_sn) =>
        match spec_field::<String>(members, "controlBoxPn"@, mode) { Err(e) => Err(e), Ok(control_box_pn) =>
        match spec_field::<String>(members, "controlBoxSn"@, mode) { Err(e) => Err(e), Ok(control_box_sn) =>
        match spec_field::<String>(members, "motorBlockSn"@, mode) { Err(e) => Err(e), Ok(motor_block_sn) =>
        match spec_field::<String>(members, "powerSupplySn"@, mode) { Err(e) => Err(e), Ok(power_supply_sn) =>
        match spec_field::<String>(members, "sensorBlockSn"@, mode) { Err(e) => Err(e), Ok(sensor_block_sn) =>
            Ok(EboxDataView {
                complete_cleaner_pn,
                complete_cleaner_sn,
                control_box_pn,
                control_box_sn,
                motor_block_sn,
                power_supply_sn,
                sensor_block_sn,
                extra: spec_undeclared::<EboxData>(members),
            })
        }}}}}}}}
    }

    /// The document that a value is written as.
    #[verifier::opaque]
    pub open spec fn spec_write(value: EboxDataView) -> JsonValue {
        spec_close(
            Seq::empty()
                .push(("completeCleanerPn"@, String::spec_encode(value.complete_cleaner_pn)))
                .push(("completeCleanerSn"@, String::spec_encode(value.complete_cleaner_sn)))
                .push(("controlBoxPn"@, String::spec_encode(value.control_box_pn)))
                .push(("controlBoxSn"@, String::spec_encode(value.control_box_sn)))
                .push(("motorBlockSn"@, String::spec_encode(value.motor_block_sn)))
                .push(("powerSupplySn"@, String::spec_encode(value.power_supply_sn)))
                .push(("sensorBlockSn"@, String::spec_encode(value.sensor_block_sn))),
            value.extra,
        )
    }
}

impl Decode for EboxData {
    open spec fn spec_decode(doc: JsonValue, mode: Strictness) -> Result<EboxDataView, DecodeErrorView> {
        EboxData::spec_read(doc, mode)
    }

    open spec fn spec_absent() -> Option<EboxDataView> {
        None
    }

    fn decode(doc: &Json, mode: Strictness) -> (r: Result<EboxData, DecodeError>) {
        reveal(EboxData::spec_read);
        let members = open::<EboxData>(doc, mode)?;
        let complete_cleaner_pn = field::<String>(members, "completeCleanerPn", mode)?;
        let complete_cleaner_sn = field::<String>(members, "completeCleanerSn", mode)?;
        let control_box_pn = field::<String>(members, "controlBoxPn", mode)?;
        let control_box_sn = field::<String>(members, "controlBoxSn", mode)?;
        let motor_block_sn = field::<String>(members, "motorBlockSn", mode)?;
        let power_supply_sn = field::<String>(members, "powerSupplySn", mode)?;
        let sensor_block_sn = field::<String>(members, "sensorBlockSn", mode)?;
        let extra = undeclared::<EboxData>(members);
        Ok(EboxData {
            complete_cleaner_pn,
            complete_cleaner_sn,
            control_box_pn,
            control_box_sn,
            motor_block_sn,
            power_supply_sn,
            sensor_block_sn,
            extra,
        })
    }

    fn absent() -> (r: Option<EboxData>) {
        None
    }
}

impl Encode for EboxData {
    open spec fn spec_encode(value: EboxDataView) -> JsonValue {
        EboxData::spec_write(value)
    }

    open spec fn faithful(value: EboxDataView, mode: Strictness) -> bool {
        carried::<EboxData>(value.extra, mode)
    }

    fn encode(&self) -> (r: Json) {
        reveal(EboxData::spec_write);
        let mut fields = start();
        put(&mut fields, "completeCleanerPn", self.complete_cleaner_pn.encode());
        put(&mut fields, "completeCleanerSn", self.complete_cleaner_sn.encode());
        put(&mut fields, "controlBoxPn", self.control_box_pn.encode());
        put(&mut fields, "controlBoxSn", self.control_box_sn.encode());
        put(&mut fields, "motorBlockSn", self.motor_block_sn.encode());
        put(&mut fields, "powerSupplySn", self.power_supply_sn.encode());
        put(&mut fields, "sensorBlockSn", self.sensor_block_sn.encode());
        close(fields, &self.extra)
    }

    proof fn round_trip(value: EboxDataView, mode: Strictness) {
        reveal(EboxData::spec_read);
        reveal(EboxData::spec_write);
        broadcast use {
            lemma_lookup_empty,
            lemma_lookup_push,
            lemma_lookup_add,
            lemma_undeclared_empty,
            lemma_undeclared_push,
        };
        // Two names differ in their length or in one of the letters named here.
        reveal_strlit("completeCleanerPn");
        reveal_strlit("completeCleanerSn");
        reveal_strlit("controlBoxPn");
        reveal_strlit("controlBoxSn");
        reveal_strlit("motorBlockSn");
        reveal_strlit("powerSupplySn");
        reveal_strlit("sensorBlockSn");
        assert("completeCleanerPn"@.len() == 17 && "completeCleanerPn"@[15] == 'P');
        assert("completeCleanerSn"@.len() == 17 && "completeCleanerSn"@[15] == 'S');
        assert("controlBoxPn"@.len() == 12 && "controlBoxPn"@[0] == 'c' && "controlBoxPn"@[10] == 'P');
        assert("controlBoxSn"@.len() == 12 && "controlBoxSn"@[0] == 'c' && "controlBoxSn"@[10] == 'S');
        assert("motorBlockSn"@.len() == 12 && "motorBlockSn"@[0] == 'm' && "motorBlockSn"@[10] == 'S');
        assert("powerSupplySn"@.len() == 13 && "powerSupplySn"@[0] == 'p');
        assert("sensorBlockSn"@.len() == 13 && "sensorBlockSn"@[0] == 's');
        let fields = Seq::empty()
            .push(("completeCleanerPn"@, String::spec_encode(value.complete_cleaner_pn)))
            .push(("completeCleanerSn"@, String::spec_encode(value.complete_cleaner_sn)))
            .push(("controlBoxPn"@, String::spec_encode(value.control_box_pn)))
            .push(("controlBoxSn"@, String::spec_encode(value.control_box_sn)))
            .push(("motorBlockSn"@, String::spec_encode(value.motor_block_sn)))
            .push(("powerSupplySn"@, String::spec_encode(value.power_supply_sn)))
            .push(("sensorBlockSn"@, String::spec_encode(value.sensor_block_sn)));
        let members = fields + value.extra;
        assert(spec_undeclared::<EboxData>(fields).len() == 0);
        lemma_undeclared_close::<EboxData>(fields, value.extra);
        assert(spec_open::<EboxData>(EboxData::spec_encode(value), mode) == Ok::<Members, DecodeErrorView>(members));
        assert(spec_field::<String>(members, "completeCleanerPn"@, mode) == Ok::<Seq<char>, DecodeErrorView>(value.complete_cleaner_pn));
        assert(spec_field::<String>(members, "completeCleanerSn"@, mode) == Ok::<Seq<char>, DecodeErrorView>(value.complete_cleaner_sn));
        assert(spec_field::<String>(members, "controlBoxPn"@, mode) == Ok::<Seq<char>, DecodeErrorView>(value.control_box_pn));
        assert(spec_field::<String>(members, "controlBoxSn"@, mode) == Ok::<Seq<char>, DecodeErrorView>(value.control_box_sn));
        assert(spec_field::<String>(members, "motorBlockSn"@, mode) == Ok::<Seq<char>, DecodeErrorView>(value.motor_block_sn));
        assert(spec_field::<String>(members, "powerSupplySn"@, mode) == Ok::<Seq<char>, DecodeErrorView>(value.power_supply_sn));
        assert(spec_field::<String>(members, "sensorBlockSn"@, mode) == Ok::<Seq<char>, DecodeErrorView>(value.sensor_block_sn));
    }
}

/// The equipment of a robotic cleaner system: the one slot `robot`. An object that holds the
/// slot of the other family, `swc_0`, is refused in either mode.
#[derive(Debug, PartialEq, Eq)]
pub struct RobotEquipment {
    pub robot: Robot,
    /// Members that the record does not declare.
    pub extra: Vec<(String, Json)>,
}

/// Mathematical model of a [`RobotEquipment`].
pub struct RobotEquipmentView {
    pub robot: RobotView,
    pub extra: Members,
}

impl DeepView for RobotEquipment {
    type V = RobotEquipmentView;

    open spec fn deep_view(&self) -> RobotEquipmentView {
        RobotEquipmentView {
            robot: self.robot.deep_view(),
            extra: self.extra.deep_view(),
        }
    }
}

impl Record for RobotEquipment {
    open spec fn spec_declares(name: Seq<char>) -> bool {
        name == "robot"@
    }

    fn declares(name: &str) -> (r: bool) {
        same_text(name, "robot")
    }
}

impl RobotEquipment {
    /// What a document is read as.
    #[verifier::opaque]
    pub open spec fn spec_read(doc: JsonValue, mode: Strictness) -> Result<RobotEquipmentView, DecodeErrorView> {
        match spec_open::<RobotEquipment>(doc, mode) { Err(e) => Err(e), Ok(members) =>
        match spec_refuse(members, "swc_0"@) { Err(e) => Err(e), Ok(_) =>
        match spec_field::<Robot>(members, "robot"@, mode) { Err(e) => Err(e), Ok(robot) =>
            Ok(RobotEquipmentView {
                robot,
                extra: spec_undeclared::<RobotEquipment>(members),
            })
        }}}
    }

    /// The document that a value is written as.
    #[verifier::opaque]
    pub open spec fn spec_write(value: RobotEquipmentView) -> JsonValue {
        spec_close(
            Seq::empty()
                .push(("robot"@, Robot::spec_encode(value.robot))),
            value.extra,
        )
    }
}

impl Decode for RobotEquipment {
    open spec fn spec_decode(doc: JsonValue, mode: Strictness) -> Result<RobotEquipmentView, DecodeErrorView> {
        RobotEquipment::spec_read(doc, mode)
    }

    open spec fn spec_absent() -> Option<RobotEquipmentView> {
        None
    }

    fn decode(doc: &Json, mode: Strictness) -> (r: Result<RobotEquipment, DecodeError>) {
        reveal(RobotEquipment::spec_read);
        let members = open::<RobotEquipment>(doc, mode)?;
        refuse(members, "swc_0")?;
        let robot = field::<Robot>(members, "robot", mode)?;
        let extra = undeclared::<RobotEquipment>(members);
        Ok(RobotEquipment { robot, extra })
    }

    fn absent() -> (r: Option<RobotEquipment>) {
        None
    }
}

impl Encode for RobotEquipment {
    open spec fn spec_encode(value: RobotEquipmentView) -> JsonValue {
        RobotEquipment::spec_write(value)
    }

    open spec fn faithful(value: RobotEquipmentView, mode: Strictness) -> bool {
        &&& Robot::faithful(value.robot, mode)
        &&& carried::<RobotEquipment>(value.extra, mode)
        &&& lookup(value.extra, "swc_0"@) is None
    }

    fn encode(&self) -> (r: Json) {
        reveal(RobotEquipment::spec_write);
        let mut fields = start();
        put(&mut fields, "robot", self.robot.encode());
        close(fields, &self.extra)
    }

    proof fn round_trip(value: RobotEquipmentView, mode: Strictness) {
        reveal(RobotEquipment::spec_read);
        reveal(RobotEquipment::spec_write);
        broadcast use {
            lemma_lookup_empty,
            lemma_lookup_push,
            lemma_lookup_add,
            lemma_undeclared_empty,
            lemma_undeclared_push,
        };
        // Two names differ in their length or in one of the letters named here.
        reveal_strlit("robot");
        reveal_strlit("swc_0");
        assert("robot"@.len() == 5 && "robot"@[0] == 'r');
        assert("swc_0"@.len() == 5 && "swc_0"@[0] == 's');
        Robot::round_trip(value.robot, mode);
        let fields = Seq::empty()
            .push(("robot"@, Robot::spec_encode(value.robot)));
        let members = fields + value.extra;
        assert(spec_undeclared::<RobotEquipment>(fields).len() == 0);
        lemma_undeclared_close::<RobotEquipment>(fields, value.extra);
        assert(spec_open::<RobotEquipment>(RobotEquipment::spec_encode(value), mode) == Ok::<Members, DecodeErrorView>(members));
        assert(spec_refuse(members, "swc_0"@) is Ok);
        assert(spec_field::<Robot>(members, "robot"@, mode) == Ok::<RobotView, DecodeErrorView>(value.robot));
    }
}

/// What a robotic cleaner system reports of itself.
#[derive(Debug, PartialEq, Eq)]
pub struct VrState {
    pub timestamp: u64,
    /// The connection to the cloud.
    pub aws: AwsState,
    pub ebox_data: EboxData,
    pub equipment: RobotEquipment,
    pub job_id: String,
    /// The serial number.
    pub sn: String,
    /// The firmware version.
    pub vr: String,
    /// Members that the record does not declare.
    pub extra: Vec<(String, Json)>,
}

/// Mathematical model of a [`VrState`].
pub struct VrStateView {
    pub timestamp: u64,
    pub aws: AwsStateView,
    pub ebox_data: EboxDataView,
    pub equipment: RobotEquipmentView,
    pub job_id: Seq<char>,
    pub sn: Seq<char>,
    pub vr: Seq<char>,
    pub extra: Members,
}

impl DeepView for VrState {
    type V = VrStateView;

    open spec fn deep_view(&self) -> VrStateView {
        VrStateView {
            timestamp: self.timestamp,
            aws: self.aws.deep_view(),
            ebox_data: self.ebox_data.deep_view(),
            equipment: self.equipment.deep_view(),
            job_id: self.job_id@,
            sn: self.sn@,
            vr: self.vr@,
            extra: self.extra.deep_view(),
        }
    }
}

impl Record for VrState {
    open spec fn spec_declares(name: Seq<char>) -> bool {
        ||| name == "timestamp"@
        ||| name == "aws"@
        ||| name == "eboxData"@
        ||| name == "equipment"@
        ||| name == "jobId"@
        ||| name == "sn"@
        ||| name == "vr"@
    }

    fn declares(name: &str) -> (r: bool) {
        same_text(name, "timestamp") || same_text(name, "aws") || same_text(name, "eboxData")
            || same_text(name, "equipment") || same_text(name, "jobId") || same_text(name, "sn")
            || same_text(name, "vr")
    }
}

impl VrState {
    /// What a document is read as.
    #[verifier::opaque]
    pub open spec fn spec_read(doc: JsonValue, mode: Strictness) -> Result<VrStateView, DecodeErrorView> {
        match spec_open::<VrState>(doc, mode) { Err(e) => Err(e), Ok(members) =>
        match spec_field::<u64>(members, "timestamp"@, mode) { Err(e) => Err(e), Ok(timestamp) =>
        match spec_field::<AwsState>(members, "aws"@, mode) { Err(e) => Err(e), Ok(aws) =>
        match spec_field::<EboxData>(members, "eboxData"@, mode) { Err(e) => Err(e), Ok(ebox_data) =>
        match spec_field::<RobotEquipment>(members, "equipment"@, mode) { Err(e) => Err(e), Ok(equipment) =>
        match spec_field::<String>(members, "jobId"@, mode) { Err(e) => Err(e), Ok(job_id) =>
        match spec_field::<String>(members, "sn"@, mode) { Err(e) => Err(e), Ok(sn) =>
        match spec_field::<String>(members, "vr"@, mode) { Err(e) => Err(e), Ok(vr) =>
            Ok(VrStateView {
                timestamp,
                aws,
                ebox_data,
                equipment,
                job_id,
                sn,
                vr,
                extra: spec_undeclared::<VrState>(members),
            })
        }}}}}}}}
    }

    /// The document that a value is written as.
    #[verifier::opaque]
    pub open spec fn spec_write(value: VrStateView) -> JsonValue {
        spec_close(
            Seq::empty()
                .push(("timestamp"@, u64::spec_encode(value.timestamp)))
                .push(("aws"@, AwsState::spec_encode(value.aws)))
                .push(("eboxData"@, EboxData::spec_encode(value.ebox_data)))
                .push(("equipment"@, RobotEquipment::spec_encode(value.equipment)))
                .push(("jobId"@, String::spec_encode(value.job_id)))
                .push(("sn"@, String::spec_encode(value.sn)))
                .push(("vr"@, String::spec_encode(value.vr))),
            value.extra,
        )
    }
}

impl Decode for VrState {
    open spec fn spec_decode(doc: JsonValue, mode: Strictness) -> Result<VrStateView, DecodeErrorView> {
        VrState::spec_read(doc, mode)
    }

    open spec fn spec_absent() -> Option<VrStateView> {
        None
    }

    fn decode(doc: &Json, mode: Strictness) -> (r: Result<VrState, DecodeError>) {
        reveal(VrState::spec_read);
        let members = open::<VrState>(doc, mode)?;
        let timestamp = field::<u64>(members, "timestamp", mode)?;
        let aws = field::<AwsState>(members, "aws", mode)?;
        let ebox_data = field::<EboxData>(members, "eboxData", mode)?;
        let equipment = field::<RobotEquipment>(members, "equipment", mode)?;
        let job_id = field::<String>(members, "jobId", mode)?;
        let sn = field::<String>(members, "sn", mode)?;
        let vr = field::<String>(members, "vr", mode)?;
        let extra = undeclared::<VrState>(members);
        Ok(VrState { timestamp, aws, ebox_data, equipment, job_id, sn, vr, extra })
    }

    fn absent() -> (r: Option<VrState>) {
        None
    }
}

impl Encode for VrState {
    open spec fn spec_encode(value: VrStateView) -> JsonValue {
        VrState::spec_write(value)
    }

    open spec fn faithful(value: VrStateView, mode: Strictness) -> bool {
        &&& AwsState::faithful(value.aws, mode)
        &&& EboxData::faithful(value.ebox_data, mode)
        &&& RobotEquipment::faithful(value.equipment, mode)
        &&& carried::<VrState>(value.extra, mode)
    }

    fn encode(&self) -> (r: Json) {
        reveal(VrState::spec_write);
        let mut fields = start();
        put(&mut fields, "timestamp", self.timestamp.encode());
        put(&mut fields, "aws", self.aws.encode());
        put(&mut fields, "eboxData", self.ebox_data.encode());
        put(&mut fields, "equipment", self.equipment.encode());
        put(&mut fields, "jobId", self.job_id.encode());
        put(&mut fields, "sn", self.sn.encode());
        put(&mut fields, "vr", self.vr.encode());
        close(fields, &self.extra)
    }

    proof fn round_trip(value: VrStateView, mode: Strictness) {
        reveal(VrState::spec_read);
        reveal(VrState::spec_write);
        broadcast use {
            lemma_lookup_empty,
            lemma_lookup_push,
            lemma_lookup_add,
            lemma_undeclared_empty,
            lemma_undeclared_push,
        };
        // Two names differ in their length or in one of the letters named here.
        reveal_strlit("timestamp");
        reveal_strlit("aws");
        reveal_strlit("eboxData");
        reveal_strlit("equipment");
        reveal_strlit("jobId");
        reveal_strlit("sn");
        reveal_strlit("vr");
        assert("timestamp"@.len() == 9 && "timestamp"@[0] == 't');
        assert("aws"@.len() == 3);
        assert("eboxData"@.len() == 8);
        assert("equipment"@.len() == 9 && "equipment"@[0] == 'e');
        assert("jobId"@.len() == 5);
        assert("sn"@.len() == 2 && "sn"@[0] == 's');
        assert("vr"@.len() == 2 && "vr"@[0] == 'v');
        AwsState::round_trip(value.aws, mode);
        EboxData::round_trip(value.ebox_data, mode);
        RobotEquipment::round_trip(value.equipment, mode);
        let fields = Seq::empty()
            .push(("timestamp"@, u64::spec_encode(value.timestamp)))
            .push(("aws"@, AwsState::spec_encode(value.aws)))
            .push(("eboxData"@, EboxData::spec_encode(value.ebox_data)))
            .push(("equipment"@, RobotEquipment::spec_encode(value.equipment)))
            .push(("jobId"@, String::spec_encode(value.job_id)))
            .push(("sn"@, String::spec_encode(value.sn)))
            .push(("vr"@, String::spec_encode(value.vr)));
        let members = fields + value.extra;
        assert(spec_undeclared::<VrState>(fields).len() == 0);
        lemma_undeclared_close::<VrState>(fields, value.extra);
        assert(spec_open::<VrState>(VrState::spec_encode(value), mode) == Ok::<Members, DecodeErrorView>(members));
        assert(spec_field::<u64>(members, "timestamp"@, mode) == Ok::<u64, DecodeErrorView>(value.timestamp));
        assert(spec_field::<AwsState>(members, "aws"@, mode) == Ok::<AwsStateView, DecodeErrorView>(value.aws));
        assert(spec_field::<EboxData>(members, "eboxData"@, mode) == Ok::<EboxDataView, DecodeErrorView>(value.ebox_data));
        assert(spec_field::<RobotEquipment>(members, "equipment"@, mode) == Ok::<RobotEquipmentView, DecodeErrorView>(value.equipment));
        assert(spec_field::<String>(members, "jobId"@, mode) == Ok::<Seq<char>, DecodeErrorView>(value.job_id));
        assert(spec_field::<String>(members, "sn"@, mode) == Ok::<Seq<char>, DecodeErrorView>(value.sn));
        assert(spec_field::<String>(members, "vr"@, mode) == Ok::<Seq<char>, DecodeErrorView>(value.vr));
    }
}

} // verus!
