//! The state of a robotic cleaner and of its parts.

use vstd::prelude::*;
use crate::error::{DecodeError, DecodeErrorView, Strictness};
use crate::json::{lemma_lookup_add, lemma_lookup_empty, lemma_lookup_push, lookup, Json, JsonValue, Members};
use crate::record::{
    carried, close, lemma_undeclared_close, lemma_undeclared_empty, lemma_undeclared_push, open, put, spec_close,
    spec_open, spec_undeclared, start, undeclared,
};
use crate::text::same_text;
use crate::wire::{field, spec_field, Decode, Encode, Record};

verus! {

/// How long each cleaning cycle of a robotic cleaner runs.
#[derive(Debug, PartialEq, Eq)]
pub struct Durations {
    pub custom_tim: usize,
    pub deep_tim: usize,
    pub first_smart_tim: usize,
    pub quick_tim: usize,
    pub smart_tim: usize,
    pub water_tim: usize,
    /// Members that the record does not declare.
    pub extra: Vec<(String, Json)>,
}

/// Mathematical model of a [`Durations`].
pub struct DurationsView {
    pub custom_tim: usize,
    pub deep_tim: usize,
    pub first_smart_tim: usize,
    pub quick_tim: usize,
    pub smart_tim: usize,
    pub water_tim: usize,
    pub extra: Members,
}

impl DeepView for Durations {
    type V = DurationsView;

    open spec fn deep_view(&self) -> DurationsView {
        DurationsView {
            custom_tim: self.custom_tim,
            deep_tim: self.deep_tim,
            first_smart_tim: self.first_smart_tim,
            quick_tim: self.quick_tim,
            smart_tim: self.smart_tim,
            water_tim: self.water_tim,
            extra: self.extra.deep_view(),
        }
    }
}

impl Record for Durations {
    open spec fn spec_declares(name: Seq<char>) -> bool {
        ||| name == "customTim"@
        ||| name == "deepTim"@
        ||| name == "firstSmartTim"@
        ||| name == "quickTim"@
        ||| name == "smartTim"@
        ||| name == "waterTim"@
    }

    fn declares(name: &str) -> (r: bool) {
        same_text(name, "customTim") || same_text(name, "deepTim")
            || same_text(name, "firstSmartTim") || same_text(name, "quickTim")
            || same_text(name, "smartTim") || same_text(name, "waterTim")
    }
}

impl Durations {
    /// What a document is read as.
    #[verifier::opaque]
    pub open spec fn spec_read(doc: JsonValue, mode: Strictness) -> Result<DurationsView, DecodeErrorView> {
        match spec_open::<Durations>(doc, mode) { Err(e) => Err(e), Ok(members) =>
        match spec_field::<usize>(members, "customTim"@, mode) { Err(e) => Err(e), Ok(custom_tim) =>
        match spec_field::<usize>(members, "deepTim"@, mode) { Err(e) => Err(e), Ok(deep_tim) =>
        match spec_field::<usize>(members, "firstSmartTim"@, mode) { Err(e) => Err(e), Ok(first_smart_tim) =>
        match spec_field::<usize>(members, "quickTim"@, mode) { Err(e) => Err(e), Ok(quick_tim) =>
        match spec_field::<usize>(members, "smartTim"@, mode) { Err(e) => Err(e), Ok(smart_tim) =>
        match spec_field::<usize>(members, "waterTim"@, mode) { Err(e) => Err(e), Ok(water_tim) =>
            Ok(DurationsView {
                custom_tim,
                deep_tim,
                first_smart_tim,
                quick_tim,
                smart_tim,
                water_tim,
                extra: spec_undeclared::<Durations>(members),
            })
        }}}}}}}
    }

    /// The document that a value is written as.
    #[verifier::opaque]
    pub open spec fn spec_write(value: DurationsView) -> JsonValue {
        spec_close(
            Seq::empty()
                .push(("customTim"@, usize::spec_encode(value.custom_tim)))
                .push(("deepTim"@, usize::spec_encode(value.deep_tim)))
                .push(("firstSmartTim"@, usize::spec_encode(value.first_smart_tim)))
                .push(("quickTim"@, usize::spec_encode(value.quick_tim)))
                .push(("smartTim"@, usize::spec_encode(value.smart_tim)))
                .push(("waterTim"@, usize::spec_encode(value.water_tim))),
            value.extra,
        )
    }
}

impl Decode for Durations {
    open spec fn spec_decode(doc: JsonValue, mode: Strictness) -> Result<DurationsView, DecodeErrorView> {
        Durations::spec_read(doc, mode)
    }

    open spec fn spec_absent() -> Option<DurationsView> {
        None
    }

    fn decode(doc: &Json, mode: Strictness) -> (r: Result<Durations, DecodeError>) {
        reveal(Durations::spec_read);
        let members = open::<Durations>(doc, mode)?;
        let custom_tim = field::<usize>(members, "customTim", mode)?;
        let deep_tim = field::<usize>(members, "deepTim", mode)?;
        let first_smart_tim = field::<usize>(members, "firstSmartTim", mode)?;
        let quick_tim = field::<usize>(members, "quickTim", mode)?;
        let smart_tim = field::<usize>(members, "smartTim", mode)?;
        let water_tim = field::<usize>(members, "waterTim", mode)?;
        let extra = undeclared::<Durations>(members);
        Ok(Durations {
            custom_tim,
            deep_tim,
            first_smart_tim,
            quick_tim,
            smart_tim,
            water_tim,
            extra,
        })
    }

    fn absent() -> (r: Option<Durations>) {
        None
    }
}

impl Encode for Durations {
    open spec fn spec_encode(value: DurationsView) -> JsonValue {
        Durations::spec_write(value)
    }

    open spec fn faithful(value: DurationsView, mode: Strictness) -> bool {
        carried::<Durations>(value.extra, mode)
    }

    fn encode(&self) -> (r: Json) {
        reveal(Durations::spec_write);
        let mut fields = start();
        put(&mut fields, "customTim", self.custom_tim.encode());
        put(&mut fields, "deepTim", self.deep_tim.encode());
        put(&mut fields, "firstSmartTim", self.first_smart_tim.encode());
        put(&mut fields, "quickTim", self.quick_tim.encode());
        put(&mut fields, "smartTim", self.smart_tim.encode());
        put(&mut fields, "waterTim", self.water_tim.encode());
        close(fields, &self.extra)
    }

    proof fn round_trip(value: DurationsView, mode: Strictness) {
        reveal(Durations::spec_read);
        reveal(Durations::spec_write);
        broadcast use {
            lemma_lookup_empty,
            lemma_lookup_push,
            lemma_lookup_add,
            lemma_undeclared_empty,
            lemma_undeclared_push,
        };
        // Two names differ in their length or in one of the letters named here.
        reveal_strlit("customTim");
        reveal_strlit("deepTim");
        reveal_strlit("firstSmartTim");
        reveal_strlit("quickTim");
        reveal_strlit("smartTim");
        reveal_strlit("waterTim");
        assert("customTim"@.len() == 9);
        assert("deepTim"@.len() == 7);
        assert("firstSmartTim"@.len() == 13);
        assert("quickTim"@.len() == 8 && "quickTim"@[0] == 'q');
        assert("smartTim"@.len() == 8 && "smartTim"@[0] == 's');
        assert("waterTim"@.len() == 8 && "waterTim"@[0] == 'w');
        let fields = Seq::empty()
            .push(("customTim"@, usize::spec_encode(value.custom_tim)))
            .push(("deepTim"@, usize::spec_encode(value.deep_tim)))
            .push(("firstSmartTim"@, usize::spec_encode(value.first_smart_tim)))
            .push(("quickTim"@, usize::spec_encode(value.quick_tim)))
            .push(("smartTim"@, usize::spec_encode(value.smart_tim)))
            .push(("waterTim"@, usize::spec_encode(value.water_tim)));
        let members = fields + value.extra;
        assert(spec_undeclared::<Durations>(fields).len() == 0);
        lemma_undeclared_close::<Durations>(fields, value.extra);
        assert(spec_open::<Durations>(Durations::spec_encode(value), mode) == Ok::<Members, DecodeErrorView>(members));
        assert(spec_field::<usize>(members, "customTim"@, mode) == Ok::<usize, DecodeErrorView>(value.custom_tim));
        assert(spec_field::<usize>(members, "deepTim"@, mode) == Ok::<usize, DecodeErrorView>(value.deep_tim));
        assert(spec_field::<usize>(members, "firstSmartTim"@, mode) == Ok::<usize, DecodeErrorView>(value.first_smart_tim));
        assert(spec_field::<usize>(members, "quickTim"@, mode) == Ok::<usize, DecodeErrorView>(value.quick_tim));
        assert(spec_field::<usize>(members, "smartTim"@, mode) == Ok::<usize, DecodeErrorView>(value.smart_tim));
        assert(spec_field::<usize>(members, "waterTim"@, mode) == Ok::<usize, DecodeErrorView>(value.water_tim));
    }
}

/// One sensor of a robotic cleaner.
#[derive(Debug, PartialEq, Eq)]
pub struct RobotSensor {
    pub sensor_type: String,
    pub state: usize,
    /// Members that the record does not declare.
    pub extra: Vec<(String, Json)>,
}

/// Mathematical model of a [`RobotSensor`].
pub struct RobotSensorView {
    pub sensor_type: Seq<char>,
    pub state: usize,
    pub extra: Members,
}

impl DeepView for RobotSensor {
    type V = RobotSensorView;

    open spec fn deep_view(&self) -> RobotSensorView {
        RobotSensorView {
            sensor_type: self.sensor_type@,
            state: self.state,
            extra: self.extra.deep_view(),
        }
    }
}

impl Record for RobotSensor {
    open spec fn spec_declares(name: Seq<char>) -> bool {
        ||| name == "type"@
        ||| name == "state"@
    }

    fn declares(name: &str) -> (r: bool) {
        same_text(name, "type") || same_text(name, "state")
    }
}

impl RobotSensor {
    /// What a document is read as.
    #[verifier::opaque]
    pub open spec fn spec_read(doc: JsonValue, mode: Strictness) -> Result<RobotSensorView, DecodeErrorView> {
        match spec_open::<RobotSensor>(doc, mode) { Err(e) => Err(e), Ok(members) =>
        match spec_field::<String>(members, "type"@, mode) { Err(e) => Err(e), Ok(sensor_type) =>
        match spec_field::<usize>(members, "state"@, mode) { Err(e) => Err(e), Ok(state) =>
            Ok(RobotSensorView {
                sensor_type,
                state,
                extra: spec_undeclared::<RobotSensor>(members),
            })
        }}}
    }

    /// The document that a value is written as.
    #[verifier::opaque]
    pub open spec fn spec_write(value: RobotSensorView) -> JsonValue {
        spec_close(
            Seq::empty()
                .push(("type"@, String::spec_encode(value.sensor_type)))
                .push(("state"@, usize::spec_encode(value.state))),
            value.extra,
        )
    }
}

impl Decode for RobotSensor {
    open spec fn spec_decode(doc: JsonValue, mode: Strictness) -> Result<RobotSensorView, DecodeErrorView> {
        RobotSensor::spec_read(doc, mode)
    }

    open spec fn spec_absent() -> Option<RobotSensorView> {
        None
    }

    fn decode(doc: &Json, mode: Strictness) -> (r: Result<RobotSensor, DecodeError>) {
        reveal(RobotSensor::spec_read);
        let members = open::<RobotSensor>(doc, mode)?;
        let sensor_type = field::<String>(members, "type", mode)?;
        let state = field::<usize>(members, "state", mode)?;
        let extra = undeclared::<RobotSensor>(members);
        Ok(RobotSensor { sensor_type, state, extra })
    }

    fn absent() -> (r: Option<RobotSensor>) {
        None
    }
}

impl Encode for RobotSensor {
    open spec fn spec_encode(value: RobotSensorView) -> JsonValue {
        RobotSensor::spec_write(value)
    }

    open spec fn faithful(value: RobotSensorView, mode: Strictness) -> bool {
        carried::<RobotSensor>(value.extra, mode)
    }

    fn encode(&self) -> (r: Json) {
        reveal(RobotSensor::spec_write);
        let mut fields = start();
        put(&mut fields, "type", self.sensor_type.encode());
        put(&mut fields, "state", self.state.encode());
        close(fields, &self.extra)
    }

    proof fn round_trip(value: RobotSensorView, mode: Strictness) {
        reveal(RobotSensor::spec_read);
        reveal(RobotSensor::spec_write);
        broadcast use {
            lemma_lookup_empty,
            lemma_lookup_push,
            lemma_lookup_add,
            lemma_undeclared_empty,
            lemma_undeclared_push,
        };
        // Two names differ in their length or in one of the letters named here.
        reveal_strlit("type");
        reveal_strlit("state");
        assert("type"@.len() == 4);
        assert("state"@.len() == 5);
        let fields = Seq::empty()
            .push(("type"@, String::spec_encode(value.sensor_type)))
            .push(("state"@, usize::spec_encode(value.state)));
        let members = fields + value.extra;
        assert(spec_undeclared::<RobotSensor>(fields).len() == 0);
        lemma_undeclared_close::<RobotSensor>(fields, value.extra);
        assert(spec_open::<RobotSensor>(RobotSensor::spec_encode(value), mode) == Ok::<Members, DecodeErrorView>(members));
        assert(spec_field::<String>(members, "type"@, mode) == Ok::<Seq<char>, DecodeErrorView>(value.sensor_type));
        assert(spec_field::<usize>(members, "state"@, mode) == Ok::<usize, DecodeErrorView>(value.state));
    }
}

/// The three sensors of a robotic cleaner.
#[derive(Debug, PartialEq, Eq)]
pub struct RobotSensors {
    pub sns_1: RobotSensor,
    pub sns_2: RobotSensor,
    pub sns_3: RobotSensor,
    /// Members that the record does not declare.
    pub extra: Vec<(String, Json)>,
}

/// Mathematical model of a [`RobotSensors`].
pub struct RobotSensorsView {
    pub sns_1: RobotSensorView,
    pub sns_2: RobotSensorView,
    pub sns_3: RobotSensorView,
    pub extra: Members,
}

impl DeepView for RobotSensors {
    type V = RobotSensorsView;

    open spec fn deep_view(&self) -> RobotSensorsView {
        RobotSensorsView {
            sns_1: self.sns_1.deep_view(),
            sns_2: self.sns_2.deep_view(),
            sns_3: self.sns_3.deep_view(),
            extra: self.extra.deep_view(),
        }
    }
}

impl Record for RobotSensors {
    open spec fn spec_declares(name: Seq<char>) -> bool {
        ||| name == "sns_1"@
        ||| name == "sns_2"@
        ||| name == "sns_3"@
    }

    fn declares(name: &str) -> (r: bool) {
        same_text(name, "sns_1") || same_text(name, "sns_2") || same_text(name, "sns_3")
    }
}

impl RobotSensors {
    /// What a document is read as.
    #[verifier::opaque]
    pub open spec fn spec_read(doc: JsonValue, mode: Strictness) -> Result<RobotSensorsView, DecodeErrorView> {
        match spec_open::<RobotSensors>(doc, mode) { Err(e) => Err(e), Ok(members) =>
        match spec_field::<RobotSensor>(members, "sns_1"@, mode) { Err(e) => Err(e), Ok(sns_1) =>
        match spec_field::<RobotSensor>(members, "sns_2"@, mode) { Err(e) => Err(e), Ok(sns_2) =>
        match spec_field::<RobotSensor>(members, "sns_3"@, mode) { Err(e) => Err(e), Ok(sns_3) =>
            Ok(RobotSensorsView {
                sns_1,
                sns_2,
                sns_3,
                extra: spec_undeclared::<RobotSensors>(members),
            })
        }}}}
    }

    /// The document that a value is written as.
    #[verifier::opaque]
    pub open spec fn spec_write(value: RobotSensorsView) -> JsonValue {
        spec_close(
            Seq::empty()
                .push(("sns_1"@, RobotSensor::spec_encode(value.sns_1)))
                .push(("sns_2"@, RobotSensor::spec_encode(value.sns_2)))
                .push(("sns_3"@, RobotSensor::spec_encode(value.sns_3))),
            value.extra,
        )
    }
}

impl Decode for RobotSensors {
    open spec fn spec_decode(doc: JsonValue, mode: Strictness) -> Result<RobotSensorsView, DecodeErrorView> {
        RobotSensors::spec_read(doc, mode)
    }

    open spec fn spec_absent() -> Option<RobotSensorsView> {
        None
    }

    fn decode(doc: &Json, mode: Strictness) -> (r: Result<RobotSensors, DecodeError>) {
        reveal(RobotSensors::spec_read);
        let members = open::<RobotSensors>(doc, mode)?;
        let sns_1 = field::<RobotSensor>(members, "sns_1", mode)?;
        let sns_2 = field::<RobotSensor>(members, "sns_2", mode)?;
        let sns_3 = field::<RobotSensor>(members, "sns_3", mode)?;
        let extra = undeclared::<RobotSensors>(members);
        Ok(RobotSensors { sns_1, sns_2, sns_3, extra })
    }

    fn absent() -> (r: Option<RobotSensors>) {
        None
    }
}

impl Encode for RobotSensors {
    open spec fn spec_encode(value: RobotSensorsView) -> JsonValue {
        RobotSensors::spec_write(value)
    }

    open spec fn faithful(value: RobotSensorsView, mode: Strictness) -> bool {
        &&& RobotSensor::faithful(value.sns_1, mode)
        &&& RobotSensor::faithful(value.sns_2, mode)
        &&& RobotSensor::faithful(value.sns_3, mode)
        &&& carried::<RobotSensors>(value.extra, mode)
    }

    fn encode(&self) -> (r: Json) {
        reveal(RobotSensors::spec_write);
        let mut fields = start();
        put(&mut fields, "sns_1", self.sns_1.encode());
        put(&mut fields, "sns_2", self.sns_2.encode());
        put(&mut fields, "sns_3", self.sns_3.encode());
        close(fields, &self.extra)
    }

    proof fn round_trip(value: RobotSensorsView, mode: Strictness) {
        reveal(RobotSensors::spec_read);
        reveal(RobotSensors::spec_write);
        broadcast use {
            lemma_lookup_empty,
            lemma_lookup_push,
            lemma_lookup_add,
            lemma_undeclared_empty,
            lemma_undeclared_push,
        };
        // Two names differ in their length or in one of the letters named here.
        reveal_strlit("sns_1");
        reveal_strlit("sns_2");
        reveal_strlit("sns_3");
        assert("sns_1"@.len() == 5 && "sns_1"@[4] == '1');
        assert("sns_2"@.len() == 5 && "sns_2"@[4] == '2');
        assert("sns_3"@.len() == 5 && "sns_3"@[4] == '3');
        RobotSensor::round_trip(value.sns_1, mode);
        RobotSensor::round_trip(value.sns_2, mode);
        RobotSensor::round_trip(value.sns_3, mode);
        let fields = Seq::empty()
            .push(("sns_1"@, RobotSensor::spec_encode(value.sns_1)))
            .push(("sns_2"@, RobotSensor::spec_encode(value.sns_2)))
            .push(("sns_3"@, RobotSensor::spec_encode(value.sns_3)));
        let members = fields + value.extra;
        assert(spec_undeclared::<RobotSensors>(fields).len() == 0);
        lemma_undeclared_close::<RobotSensors>(fields, value.extra);
        assert(spec_open::<RobotSensors>(RobotSensors::spec_encode(value), mode) == Ok::<Members, DecodeErrorView>(members));
        assert(spec_field::<RobotSensor>(members, "sns_1"@, mode) == Ok::<RobotSensorView, DecodeErrorView>(value.sns_1));
        assert(spec_field::<RobotSensor>(members, "sns_2"@, mode) == Ok::<RobotSensorView, DecodeErrorView>(value.sns_2));
        assert(spec_field::<RobotSensor>(members, "sns_3"@, mode) == Ok::<RobotSensorView, DecodeErrorView>(value.sns_3));
    }
}

/// State of a robotic cleaner: its cycle, its weekly schedule (one slot for each day, 0 to 6)
/// and its sensors.
#[derive(Debug, PartialEq, Eq)]
pub struct Robot {
    pub canister: usize,
    pub custom_cyc: usize,
    pub cycle_start_time: usize,
    pub durations: Durations,
    pub equipment_id: String,
    pub error_code: usize,
    pub error_state: usize,
    pub first_smrt_flag: usize,
    pub lift_control: usize,
    pub logger: usize,
    pub pr_cyc: usize,
    pub repeat: usize,
    pub rmt_ctrl: usize,
    pub scan_time_duration: usize,
    pub sch_conf_0_enable: usize,
    pub sch_conf_0_hour: usize,
    pub sch_conf_0_min: usize,
    pub sch_conf_0_prt: usize,
    pub sch_conf_0_wday: usize,
    pub sch_conf_1_enable: usize,
    pub sch_conf_1_hour: usize,
    pub sch_conf_1_min: usize,
    pub sch_conf_1_prt: usize,
    pub sch_conf_1_wday: usize,
    pub sch_conf_2_enable: usize,
    pub sch_conf_2_hour: usize,
    pub sch_conf_2_min: usize,
    pub sch_conf_2_prt: usize,
    pub sch_conf_2_wday: usize,
    pub sch_conf_3_enable: usize,
    pub sch_conf_3_hour: usize,
    pub sch_conf_3_min: usize,
    pub sch_conf_3_prt: usize,
    pub sch_conf_3_wday: usize,
    pub sch_conf_4_enable: usize,
    pub sch_conf_4_hour: usize,
    pub sch_conf_4_min: usize,
    pub sch_conf_4_prt: usize,
    pub sch_conf_4_wday: usize,
    pub sch_conf_5_enable: usize,
    pub sch_conf_5_hour: usize,
    pub sch_conf_5_min: usize,
    pub sch_conf_5_prt: usize,
    pub sch_conf_5_wday: usize,
    pub sch_conf_6_enable: usize,
    pub sch_conf_6_hour: usize,
    pub sch_conf_6_min: usize,
    pub sch_conf_6_prt: usize,
    pub sch_conf_6_wday: usize,
    pub sensors: RobotSensors,
    pub state: usize,
    pub stepper: usize,
    pub stepper_adj_time: usize,
    pub total_hours: usize,
    pub vr: String,
    pub custom_intensity: usize,
    /// Members that the record does not declare.
    pub extra: Vec<(String, Json)>,
}

/// Mathematical model of a [`Robot`].
pub struct RobotView {
    pub canister: usize,
    pub custom_cyc: usize,
    pub cycle_start_time: usize,
    pub durations: DurationsView,
    pub equipment_id: Seq<char>,
    pub error_code: usize,
    pub error_state: usize,
    pub first_smrt_flag: usize,
    pub lift_control: usize,
    pub logger: usize,
    pub pr_cyc: usize,
    pub repeat: usize,
    pub rmt_ctrl: usize,
    pub scan_time_duration: usize,
    pub sch_conf_0_enable: usize,
    pub sch_conf_0_hour: usize,
    pub sch_conf_0_min: usize,
    pub sch_conf_0_prt: usize,
    pub sch_conf_0_wday: usize,
    pub sch_conf_1_enable: usize,
    pub sch_conf_1_hour: usize,
    pub sch_conf_1_min: usize,
    pub sch_conf_1_prt: usize,
    pub sch_conf_1_wday: usize,
    pub sch_conf_2_enable: usize,
    pub sch_conf_2_hour: usize,
    pub sch_conf_2_min: usize,
    pub sch_conf_2_prt: usize,
    pub sch_conf_2_wday: usize,
    pub sch_conf_3_enable: usize,
    pub sch_conf_3_hour: usize,
    pub sch_conf_3_min: usize,
    pub sch_conf_3_prt: usize,
    pub sch_conf_3_wday: usize,
    pub sch_conf_4_enable: usize,
    pub sch_conf_4_hour: usize,
    pub sch_conf_4_min: usize,
    pub sch_conf_4_prt: usize,
    pub sch_conf_4_wday: usize,
    pub sch_conf_5_enable: usize,
    pub sch_conf_5_hour: usize,
    pub sch_conf_5_min: usize,
    pub sch_conf_5_prt: usize,
    pub sch_conf_5_wday: usize,
    pub sch_conf_6_enable: usize,
    pub sch_conf_6_hour: usize,
    pub sch_conf_6_min: usize,
    pub sch_conf_6_prt: usize,
    pub sch_conf_6_wday: usize,
    pub sensors: RobotSensorsView,
    pub state: usize,
    pub stepper: usize,
    pub stepper_adj_time: usize,
    pub total_hours: usize,
    pub vr: Seq<char>,
    pub custom_intensity: usize,
    pub extra: Members,
}

impl DeepView for Robot {
    type V = RobotView;

    open spec fn deep_view(&self) -> RobotView {
        RobotView {
            canister: self.canister,
            custom_cyc: self.custom_cyc,
            cycle_start_time: self.cycle_start_time,
            durations: self.durations.deep_view(),
            equipment_id: self.equipment_id@,
            error_code: self.error_code,
            error_state: self.error_state,
            first_smrt_flag: self.first_smrt_flag,
            lift_control: self.lift_control,
            logger: self.logger,
            pr_cyc: self.pr_cyc,
            repeat: self.repeat,
            rmt_ctrl: self.rmt_ctrl,
            scan_time_duration: self.scan_time_duration,
            sch_conf_0_enable: self.sch_conf_0_enable,
            sch_conf_0_hour: self.sch_conf_0_hour,
            sch_conf_0_min: self.sch_conf_0_min,
            sch_conf_0_prt: self.sch_conf_0_prt,
            sch_conf_0_wday: self.sch_conf_0_wday,
            sch_conf_1_enable: self.sch_conf_1_enable,
            sch_conf_1_hour: self.sch_conf_1_hour,
            sch_conf_1_min: self.sch_conf_1_min,
            sch_conf_1_prt: self.sch_conf_1_prt,
            sch_conf_1_wday: self.sch_conf_1_wday,
            sch_conf_2_enable: self.sch_conf_2_enable,
            sch_conf_2_hour: self.sch_conf_2_hour,
            sch_conf_2_min: self.sch_conf_2_min,
            sch_conf_2_prt: self.sch_conf_2_prt,
            sch_conf_2_wday: self.sch_conf_2_wday,
            sch_conf_3_enable: self.sch_conf_3_enable,
            sch_conf_3_hour: self.sch_conf_3_hour,
            sch_conf_3_min: self.sch_conf_3_min,
            sch_conf_3_prt: self.sch_conf_3_prt,
            sch_conf_3_wday: self.sch_conf_3_wday,
            sch_conf_4_enable: self.sch_conf_4_enable,
            sch_conf_4_hour: self.sch_conf_4_hour,
            sch_conf_4_min: self.sch_conf_4_min,
            sch_conf_4_prt: self.sch_conf_4_prt,
            sch_conf_4_wday: self.sch_conf_4_wday,
            sch_conf_5_enable: self.sch_conf_5_enable,
            sch_conf_5_hour: self.sch_conf_5_hour,
            sch_conf_5_min: self.sch_conf_5_min,
            sch_conf_5_prt: self.sch_conf_5_prt,
            sch_conf_5_wday: self.sch_conf_5_wday,
            sch_conf_6_enable: self.sch_conf_6_enable,
            sch_conf_6_hour: self.sch_conf_6_hour,
            sch_conf_6_min: self.sch_conf_6_min,
            sch_conf_6_prt: self.sch_conf_6_prt,
            sch_conf_6_wday: self.sch_conf_6_wday,
            sensors: self.sensors.deep_view(),
            state: self.state,
            stepper: self.stepper,
            stepper_adj_time: self.stepper_adj_time,
            total_hours: self.total_hours,
            vr: self.vr@,
            custom_intensity: self.custom_intensity,
            extra: self.extra.deep_view(),
        }
    }
}

impl Record for Robot {
    open spec fn spec_declares(name: Seq<char>) -> bool {
        ||| name == "canister"@
        ||| name == "customCyc"@
        ||| name == "cycleStartTime"@
        ||| name == "durations"@
        ||| name == "equipmentId"@
        ||| name == "errorCode"@
        ||| name == "errorState"@
        ||| name == "firstSmrtFlag"@
        ||| name == "liftControl"@
        ||| name == "logger"@
        ||| name == "prCyc"@
        ||| name == "repeat"@
        ||| name == "rmt_ctrl"@
        ||| name == "scanTimeDuration"@
        ||| name == "schConf0Enable"@
        ||| name == "schConf0Hour"@
        ||| name == "schConf0Min"@
        ||| name == "schConf0Prt"@
        ||| name == "schConf0WDay"@
        ||| name == "schConf1Enable"@
        ||| name == "schConf1Hour"@
        ||| name == "schConf1Min"@
        ||| name == "schConf1Prt"@
        ||| name == "schConf1WDay"@
        ||| name == "schConf2Enable"@
        ||| name == "schConf2Hour"@
        ||| name == "schConf2Min"@
        ||| name == "schConf2Prt"@
        ||| name == "schConf2WDay"@
        ||| name == "schConf3Enable"@
        ||| name == "schConf3Hour"@
        ||| name == "schConf3Min"@
        ||| name == "schConf3Prt"@
        ||| name == "schConf3WDay"@
        ||| name == "schConf4Enable"@
        ||| name == "schConf4Hour"@
        ||| name == "schConf4Min"@
        ||| name == "schConf4Prt"@
        ||| name == "schConf4WDay"@
        ||| name == "schConf5Enable"@
        ||| name == "schConf5Hour"@
        ||| name == "schConf5Min"@
        ||| name == "schConf5Prt"@
        ||| name == "schConf5WDay"@
        ||| name == "schConf6Enable"@
        ||| name == "schConf6Hour"@
        ||| name == "schConf6Min"@
        ||| name == "schConf6Prt"@
        ||| name == "schConf6WDay"@
        ||| name == "sensors"@
        ||| name == "state"@
        ||| name == "stepper"@
        ||| name == "stepperAdjTime"@
        ||| name == "totalHours"@
        ||| name == "vr"@
        ||| name == "customIntensity"@
    }

    fn declares(name: &str) -> (r: bool) {
        same_text(name, "canister") || same_text(name, "customCyc")
            || same_text(name, "cycleStartTime") || same_text(name, "durations")
            || same_text(name, "equipmentId") || same_text(name, "errorCode")
            || same_text(name, "errorState") || same_text(name, "firstSmrtFlag")
            || same_text(name, "liftControl") || same_text(name, "logger")
            || same_text(name, "prCyc") || same_text(name, "repeat") || same_text(name, "rmt_ctrl")
            || same_text(name, "scanTimeDuration") || same_text(name, "schConf0Enable")
            || same_text(name, "schConf0Hour") || same_text(name, "schConf0Min")
            || same_text(name, "schConf0Prt") || same_text(name, "schConf0WDay")
            || same_text(name, "schConf1Enable") || same_text(name, "schConf1Hour")
            || same_text(name, "schConf1Min") || same_text(name, "schConf1Prt")
            || same_text(name, "schConf1WDay") || same_text(name, "schConf2Enable")
            || same_text(name, "schConf2Hour") || same_text(name, "schConf2Min")
            || same_text(name, "schConf2Prt") || same_text(name, "schConf2WDay")
            || same_text(name, "schConf3Enable") || same_text(name, "schConf3Hour")
            || same_text(name, "schConf3Min") || same_text(name, "schConf3Prt")
            || same_text(name, "schConf3WDay") || same_text(name, "schConf4Enable")
            || same_text(name, "schConf4Hour") || same_text(name, "schConf4Min")
            || same_text(name, "schConf4Prt") || same_text(name, "schConf4WDay")
            || same_text(name, "schConf5Enable") || same_text(name, "schConf5Hour")
            || same_text(name, "schConf5Min") || same_text(name, "schConf5Prt")
            || same_text(name, "schConf5WDay") || same_text(name, "schConf6Enable")
            || same_text(name, "schConf6Hour") || same_text(name, "schConf6Min")
            || same_text(name, "schConf6Prt") || same_text(name, "schConf6WDay")
            || same_text(name, "sensors") || same_text(name, "state") || same_text(name, "stepper")
            || same_text(name, "stepperAdjTime") || same_text(name, "totalHours")
            || same_text(name, "vr") || same_text(name, "customIntensity")
    }
}

impl Robot {
    /// What a document is read as.
    #[verifier::opaque]
    pub open spec fn spec_read(doc: JsonValue, mode: Strictness) -> Result<RobotView, DecodeErrorView> {
        match spec_open::<Robot>(doc, mode) { Err(e) => Err(e), Ok(members) =>
        match spec_field::<usize>(members, "canister"@, mode) { Err(e) => Err(e), Ok(canister) =>
        match spec_field::<usize>(members, "customCyc"@, mode) { Err(e) => Err(e), Ok(custom_cyc) =>
        match spec_field::<usize>(members, "cycleStartTime"@, mode) { Err(e) => Err(e), Ok(cycle_start_time) =>
        match spec_field::<Durations>(members, "durations"@, mode) { Err(e) => Err(e), Ok(durations) =>
        match spec_field::<String>(members, "equipmentId"@, mode) { Err(e) => Err(e), Ok(equipment_id) =>
        match spec_field::<usize>(members, "errorCode"@, mode) { Err(e) => Err(e), Ok(error_code) =>
        match spec_field::<usize>(members, "errorState"@, mode) { Err(e) => Err(e), Ok(error_state) =>
        match spec_field::<usize>(members, "firstSmrtFlag"@, mode) { Err(e) => Err(e), Ok(first_smrt_flag) =>
        match spec_field::<usize>(members, "liftControl"@, mode) { Err(e) => Err(e), Ok(lift_control) =>
        match spec_field::<usize>(members, "logger"@, mode) { Err(e) => Err(e), Ok(logger) =>
        match spec_field::<usize>(members, "prCyc"@, mode) { Err(e) => Err(e), Ok(pr_cyc) =>
        match spec_field::<usize>(members, "repeat"@, mode) { Err(e) => Err(e), Ok(repeat) =>
        match spec_field::<usize>(members, "rmt_ctrl"@, mode) { Err(e) => Err(e), Ok(rmt_ctrl) =>
        match spec_field::<usize>(members, "scanTimeDuration"@, mode) { Err(e) => Err(e), Ok(scan_time_duration) =>
        match spec_field::<usize>(members, "schConf0Enable"@, mode) { Err(e) => Err(e), Ok(sch_conf_0_enable) =>
        match spec_field::<usize>(members, "schConf0Hour"@, mode) { Err(e) => Err(e), Ok(sch_conf_0_hour) =>
        match spec_field::<usize>(members, "schConf0Min"@, mode) { Err(e) => Err(e), Ok(sch_conf_0_min) =>
        match spec_field::<usize>(members, "schConf0Prt"@, mode) { Err(e) => Err(e), Ok(sch_conf_0_prt) =>
        match spec_field::<usize>(members, "schConf0WDay"@, mode) { Err(e) => Err(e), Ok(sch_conf_0_wday) =>
        match spec_field::<usize>(members, "schConf1Enable"@, mode) { Err(e) => Err(e), Ok(sch_conf_1_enable) =>
        match spec_field::<usize>(members, "schConf1Hour"@, mode) { Err(e) => Err(e), Ok(sch_conf_1_hour) =>
        match spec_field::<usize>(members, "schConf1Min"@, mode) { Err(e) => Err(e), Ok(sch_conf_1_min) =>
        match spec_field::<usize>(members, "schConf1Prt"@, mode) { Err(e) => Err(e), Ok(sch_conf_1_prt) =>
        match spec_field::<usize>(members, "schConf1WDay"@, mode) { Err(e) => Err(e), Ok(sch_conf_1_wday) =>
        match spec_field::<usize>(members, "schConf2Enable"@, mode) { Err(e) => Err(e), Ok(sch_conf_2_enable) =>
        match spec_field::<usize>(members, "schConf2Hour"@, mode) { Err(e) => Err(e), Ok(sch_conf_2_hour) =>
        match spec_field::<usize>(members, "schConf2Min"@, mode) { Err(e) => Err(e), Ok(sch_conf_2_min) =>
        match spec_field::<usize>(members, "schConf2Prt"@, mode) { Err(e) => Err(e), Ok(sch_conf_2_prt) =>
        match spec_field::<usize>(members, "schConf2WDay"@, mode) { Err(e) => Err(e), Ok(sch_conf_2_wday) =>
        match spec_field::<usize>(members, "schConf3Enable"@, mode) { Err(e) => Err(e), Ok(sch_conf_3_enable) =>
        match spec_field::<usize>(members, "schConf3Hour"@, mode) { Err(e) => Err(e), Ok(sch_conf_3_hour) =>
        match spec_field::<usize>(members, "schConf3Min"@, mode) { Err(e) => Err(e), Ok(sch_conf_3_min) =>
        match spec_field::<usize>(members, "schConf3Prt"@, mode) { Err(e) => Err(e), Ok(sch_conf_3_prt) =>
        match spec_field::<usize>(members, "schConf3WDay"@, mode) { Err(e) => Err(e), Ok(sch_conf_3_wday) =>
        match spec_field::<usize>(members, "schConf4Enable"@, mode) { Err(e) => Err(e), Ok(sch_conf_4_enable) =>
        match spec_field::<usize>(members, "schConf4Hour"@, mode) { Err(e) => Err(e), Ok(sch_conf_4_hour) =>
        match spec_field::<usize>(members, "schConf4Min"@, mode) { Err(e) => Err(e), Ok(sch_conf_4_min) =>
        match spec_field::<usize>(members, "schConf4Prt"@, mode) { Err(e) => Err(e), Ok(sch_conf_4_prt) =>
        match spec_field::<usize>(members, "schConf4WDay"@, mode) { Err(e) => Err(e), Ok(sch_conf_4_wday) =>
        match spec_field::<usize>(members, "schConf5Enable"@, mode) { Err(e) => Err(e), Ok(sch_conf_5_enable) =>
        match spec_field::<usize>(members, "schConf5Hour"@, mode) { Err(e) => Err(e), Ok(sch_conf_5_hour) =>
        match spec_field::<usize>(members, "schConf5Min"@, mode) { Err(e) => Err(e), Ok(sch_conf_5_min) =>
        match spec_field::<usize>(members, "schConf5Prt"@, mode) { Err(e) => Err(e), Ok(sch_conf_5_prt) =>
        match spec_field::<usize>(members, "schConf5WDay"@, mode) { Err(e) => Err(e), Ok(sch_conf_5_wday) =>
        match spec_field::<usize>(members, "schConf6Enable"@, mode) { Err(e) => Err(e), Ok(sch_conf_6_enable) =>
        match spec_field::<usize>(members, "schConf6Hour"@, mode) { Err(e) => Err(e), Ok(sch_conf_6_hour) =>
        match spec_field::<usize>(members, "schConf6Min"@, mode) { Err(e) => Err(e), Ok(sch_conf_6_min) =>
        match spec_field::<usize>(members, "schConf6Prt"@, mode) { Err(e) => Err(e), Ok(sch_conf_6_prt) =>
        match spec_field::<usize>(members, "schConf6WDay"@, mode) { Err(e) => Err(e), Ok(sch_conf_6_wday) =>
        match spec_field::<RobotSensors>(members, "sensors"@, mode) { Err(e) => Err(e), Ok(sensors) =>
        match spec_field::<usize>(members, "state"@, mode) { Err(e) => Err(e), Ok(state) =>
        match spec_field::<usize>(members, "stepper"@, mode) { Err(e) => Err(e), Ok(stepper) =>
        match spec_field::<usize>(members, "stepperAdjTime"@, mode) { Err(e) => Err(e), Ok(stepper_adj_time) =>
        match spec_field::<usize>(members, "totalHours"@, mode) { Err(e) => Err(e), Ok(total_hours) =>
        match spec_field::<String>(members, "vr"@, mode) { Err(e) => Err(e), Ok(vr) =>
        match spec_field::<usize>(members, "customIntensity"@, mode) { Err(e) => Err(e), Ok(custom_intensity) =>
            Ok(RobotView {
                canister,
                custom_cyc,
                cycle_start_time,
                durations,
                equipment_id,
                error_code,
                error_state,
                first_smrt_flag,
                lift_control,
                logger,
                pr_cyc,
                repeat,
                rmt_ctrl,
                scan_time_duration,
                sch_conf_0_enable,
                sch_conf_0_hour,
                sch_conf_0_min,
                sch_conf_0_prt,
                sch_conf_0_wday,
                sch_conf_1_enable,
                sch_conf_1_hour,
                sch_conf_1_min,
                sch_conf_1_prt,
                sch_conf_1_wday,
                sch_conf_2_enable,
                sch_conf_2_hour,
                sch_conf_2_min,
                sch_conf_2_prt,
                sch_conf_2_wday,
                sch_conf_3_enable,
                sch_conf_3_hour,
                sch_conf_3_min,
                sch_conf_3_prt,
                sch_conf_3_wday,
                sch_conf_4_enable,
                sch_conf_4_hour,
                sch_conf_4_min,
                sch_conf_4_prt,
                sch_conf_4_wday,
                sch_conf_5_enable,
                sch_conf_5_hour,
                sch_conf_5_min,
                sch_conf_5_prt,
                sch_conf_5_wday,
                sch_conf_6_enable,
                sch_conf_6_hour,
                sch_conf_6_min,
                sch_conf_6_prt,
                sch_conf_6_wday,
                sensors,
                state,
                stepper,
                stepper_adj_time,
                total_hours,
                vr,
                custom_intensity,
                extra: spec_undeclared::<Robot>(members),
            })
        }}}}}}}}}}}}}}}}}}}}}}}}}}}}}}}}}}}}}}}}}}}}}}}}}}}}}}}}}
    }

    /// The document that a value is written as.
    #[verifier::opaque]
    pub open spec fn spec_write(value: RobotView) -> JsonValue {
        spec_close(
            Seq::empty()
                .push(("canister"@, usize::spec_encode(value.canister)))
                .push(("customCyc"@, usize::spec_encode(value.custom_cyc)))
                .push(("cycleStartTime"@, usize::spec_encode(value.cycle_start_time)))
                .push(("durations"@, Durations::spec_encode(value.durations)))
                .push(("equipmentId"@, String::spec_encode(value.equipment_id)))
                .push(("errorCode"@, usize::spec_encode(value.error_code)))
                .push(("errorState"@, usize::spec_encode(value.error_state)))
                .push(("firstSmrtFlag"@, usize::spec_encode(value.first_smrt_flag)))
                .push(("liftControl"@, usize::spec_encode(value.lift_control)))
                .push(("logger"@, usize::spec_encode(value.logger)))
                .push(("prCyc"@, usize::spec_encode(value.pr_cyc)))
                .push(("repeat"@, usize::spec_encode(value.repeat)))
                .push(("rmt_ctrl"@, usize::spec_encode(value.rmt_ctrl)))
                .push(("scanTimeDuration"@, usize::spec_encode(value.scan_time_duration)))
                .push(("schConf0Enable"@, usize::spec_encode(value.sch_conf_0_enable)))
                .push(("schConf0Hour"@, usize::spec_encode(value.sch_conf_0_hour)))
                .push(("schConf0Min"@, usize::spec_encode(value.sch_conf_0_min)))
                .push(("schConf0Prt"@, usize::spec_encode(value.sch_conf_0_prt)))
                .push(("schConf0WDay"@, usize::spec_encode(value.sch_conf_0_wday)))
                .push(("schConf1Enable"@, usize::spec_encode(value.sch_conf_1_enable)))
                .push(("schConf1Hour"@, usize::spec_encode(value.sch_conf_1_hour)))
                .push(("schConf1Min"@, usize::spec_encode(value.sch_conf_1_min)))
                .push(("schConf1Prt"@, usize::spec_encode(value.sch_conf_1_prt)))
                .push(("schConf1WDay"@, usize::spec_encode(value.sch_conf_1_wday)))
                .push(("schConf2Enable"@, usize::spec_encode(value.sch_conf_2_enable)))
                .push(("schConf2Hour"@, usize::spec_encode(value.sch_conf_2_hour)))
                .push(("schConf2Min"@, usize::spec_encode(value.sch_conf_2_min)))
                .push(("schConf2Prt"@, usize::spec_encode(value.sch_conf_2_prt)))
                .push(("schConf2WDay"@, usize::spec_encode(value.sch_conf_2_wday)))
                .push(("schConf3Enable"@, usize::spec_encode(value.sch_conf_3_enable)))
                .push(("schConf3Hour"@, usize::spec_encode(value.sch_conf_3_hour)))
                .push(("schConf3Min"@, usize::spec_encode(value.sch_conf_3_min)))
                .push(("schConf3Prt"@, usize::spec_encode(value.sch_conf_3_prt)))
                .push(("schConf3WDay"@, usize::spec_encode(value.sch_conf_3_wday)))
                .push(("schConf4Enable"@, usize::spec_encode(value.sch_conf_4_enable)))
                .push(("schConf4Hour"@, usize::spec_encode(value.sch_conf_4_hour)))
                .push(("schConf4Min"@, usize::spec_encode(value.sch_conf_4_min)))
                .push(("schConf4Prt"@, usize::spec_encode(value.sch_conf_4_prt)))
                .push(("schConf4WDay"@, usize::spec_encode(value.sch_conf_4_wday)))
                .push(("schConf5Enable"@, usize::spec_encode(value.sch_conf_5_enable)))
                .push(("schConf5Hour"@, usize::spec_encode(value.sch_conf_5_hour)))
                .push(("schConf5Min"@, usize::spec_encode(value.sch_conf_5_min)))
                .push(("schConf5Prt"@, usize::spec_encode(value.sch_conf_5_prt)))
                .push(("schConf5WDay"@, usize::spec_encode(value.sch_conf_5_wday)))
                .push(("schConf6Enable"@, usize::spec_encode(value.sch_conf_6_enable)))
                .push(("schConf6Hour"@, usize::spec_encode(value.sch_conf_6_hour)))
                .push(("schConf6Min"@, usize::spec_encode(value.sch_conf_6_min)))
                .push(("schConf6Prt"@, usize::spec_encode(value.sch_conf_6_prt)))
                .push(("schConf6WDay"@, usize::spec_encode(value.sch_conf_6_wday)))
                .push(("sensors"@, RobotSensors::spec_encode(value.sensors)))
                .push(("state"@, usize::spec_encode(value.state)))
                .push(("stepper"@, usize::spec_encode(value.stepper)))
                .push(("stepperAdjTime"@, usize::spec_encode(value.stepper_adj_time)))
                .push(("totalHours"@, usize::spec_encode(value.total_hours)))
                .push(("vr"@, String::spec_encode(value.vr)))
                .push(("customIntensity"@, usize::spec_encode(value.custom_intensity))),
            value.extra,
        )
    }
}

impl Decode for Robot {
    open spec fn spec_decode(doc: JsonValue, mode: Strictness) -> Result<RobotView, DecodeErrorView> {
        Robot::spec_read(doc, mode)
    }

    open spec fn spec_absent() -> Option<RobotView> {
        None
    }

    fn decode(doc: &Json, mode: Strictness) -> (r: Result<Robot, DecodeError>) {
        reveal(Robot::spec_read);
        let members = open::<Robot>(doc, mode)?;
        let canister = field::<usize>(members, "canister", mode)?;
        let custom_cyc = field::<usize>(members, "customCyc", mode)?;
        let cycle_start_time = field::<usize>(members, "cycleStartTime", mode)?;
        let durations = field::<Durations>(members, "durations", mode)?;
        let equipment_id = field::<String>(members, "equipmentId", mode)?;
        let error_code = field::<usize>(members, "errorCode", mode)?;
        let error_state = field::<usize>(members, "errorState", mode)?;
        let first_smrt_flag = field::<usize>(members, "firstSmrtFlag", mode)?;
        let lift_control = field::<usize>(members, "liftControl", mode)?;
        let logger = field::<usize>(members, "logger", mode)?;
        let pr_cyc = field::<usize>(members, "prCyc", mode)?;
        let repeat = field::<usize>(members, "repeat", mode)?;
        let rmt_ctrl = field::<usize>(members, "rmt_ctrl", mode)?;
        let scan_time_duration = field::<usize>(members, "scanTimeDuration", mode)?;
        let sch_conf_0_enable = field::<usize>(members, "schConf0Enable", mode)?;
        let sch_conf_0_hour = field::<usize>(members, "schConf0Hour", mode)?;
        let sch_conf_0_min = field::<usize>(members, "schConf0Min", mode)?;
        let sch_conf_0_prt = field::<usize>(members, "schConf0Prt", mode)?;
        let sch_conf_0_wday = field::<usize>(members, "schConf0WDay", mode)?;
        let sch_conf_1_enable = field::<usize>(members, "schConf1Enable", mode)?;
        let sch_conf_1_hour = field::<usize>(members, "schConf1Hour", mode)?;
        let sch_conf_1_min = field::<usize>(members, "schConf1Min", mode)?;
        let sch_conf_1_prt = field::<usize>(members, "schConf1Prt", mode)?;
        let sch_conf_1_wday = field::<usize>(members, "schConf1WDay", mode)?;
        let sch_conf_2_enable = field::<usize>(members, "schConf2Enable", mode)?;
        let sch_conf_2_hour = field::<usize>(members, "schConf2Hour", mode)?;
        let sch_conf_2_min = field::<usize>(members, "schConf2Min", mode)?;
        let sch_conf_2_prt = field::<usize>(members, "schConf2Prt", mode)?;
        let sch_conf_2_wday = field::<usize>(members, "schConf2WDay", mode)?;
        let sch_conf_3_enable = field::<usize>(members, "schConf3Enable", mode)?;
        let sch_conf_3_hour = field::<usize>(members, "schConf3Hour", mode)?;
        let sch_conf_3_min = field::<usize>(members, "schConf3Min", mode)?;
        let sch_conf_3_prt = field::<usize>(members, "schConf3Prt", mode)?;
        let sch_conf_3_wday = field::<usize>(members, "schConf3WDay", mode)?;
        let sch_conf_4_enable = field::<usize>(members, "schConf4Enable", mode)?;
        let sch_conf_4_hour = field::<usize>(members, "schConf4Hour", mode)?;
        let sch_conf_4_min = field::<usize>(members, "schConf4Min", mode)?;
        let sch_conf_4_prt = field::<usize>(members, "schConf4Prt", mode)?;
        let sch_conf_4_wday = field::<usize>(members, "schConf4WDay", mode)?;
        let sch_conf_5_enable = field::<usize>(members, "schConf5Enable", mode)?;
        let sch_conf_5_hour = field::<usize>(members, "schConf5Hour", mode)?;
        let sch_conf_5_min = field::<usize>(members, "schConf5Min", mode)?;
        let sch_conf_5_prt = field::<usize>(members, "schConf5Prt", mode)?;
        let sch_conf_5_wday = field::<usize>(members, "schConf5WDay", mode)?;
        let sch_conf_6_enable = field::<usize>(members, "schConf6Enable", mode)?;
        let sch_conf_6_hour = field::<usize>(members, "schConf6Hour", mode)?;
        let sch_conf_6_min = field::<usize>(members, "schConf6Min", mode)?;
        let sch_conf_6_prt = field::<usize>(members, "schConf6Prt", mode)?;
        let sch_conf_6_wday = field::<usize>(members, "schConf6WDay", mode)?;
        let sensors = field::<RobotSensors>(members, "sensors", mode)?;
        let state = field::<usize>(members, "state", mode)?;
        let stepper = field::<usize>(members, "stepper", mode)?;
        let stepper_adj_time = field::<usize>(members, "stepperAdjTime", mode)?;
        let total_hours = field::<usize>(members, "totalHours", mode)?;
        let vr = field::<String>(members, "vr", mode)?;
        let custom_intensity = field::<usize>(members, "customIntensity", mode)?;
        let extra = undeclared::<Robot>(members);
        Ok(Robot {
            canister,
            custom_cyc,
            cycle_start_time,
            durations,
            equipment_id,
            error_code,
            error_state,
            first_smrt_flag,
            lift_control,
            logger,
            pr_cyc,
            repeat,
            rmt_ctrl,
            scan_time_duration,
            sch_conf_0_enable,
            sch_conf_0_hour,
            sch_conf_0_min,
            sch_conf_0_prt,
            sch_conf_0_wday,
            sch_conf_1_enable,
            sch_conf_1_hour,
            sch_conf_1_min,
            sch_conf_1_prt,
            sch_conf_1_wday,
            sch_conf_2_enable,
            sch_conf_2_hour,
            sch_conf_2_min,
            sch_conf_2_prt,
            sch_conf_2_wday,
            sch_conf_3_enable,
            sch_conf_3_hour,
            sch_conf_3_min,
            sch_conf_3_prt,
            sch_conf_3_wday,
            sch_conf_4_enable,
            sch_conf_4_hour,
            sch_conf_4_min,
            sch_conf_4_prt,
            sch_conf_4_wday,
            sch_conf_5_enable,
            sch_conf_5_hour,
            sch_conf_5_min,
            sch_conf_5_prt,
            sch_conf_5_wday,
            sch_conf_6_enable,
            sch_conf_6_hour,
            sch_conf_6_min,
            sch_conf_6_prt,
            sch_conf_6_wday,
            sensors,
            state,
            stepper,
            stepper_adj_time,
            total_hours,
            vr,
            custom_intensity,
            extra,
        })
    }

    fn absent() -> (r: Option<Robot>) {
        None
    }
}

impl Encode for Robot {
    open spec fn spec_encode(value: RobotView) -> JsonValue {
        Robot::spec_write(value)
    }

    open spec fn faithful(value: RobotView, mode: Strictness) -> bool {
        &&& Durations::faithful(value.durations, mode)
        &&& RobotSensors::faithful(value.sensors, mode)
        &&& carried::<Robot>(value.extra, mode)
    }

    fn encode(&self) -> (r: Json) {
        reveal(Robot::spec_write);
        let mut fields = start();
        put(&mut fields, "canister", self.canister.encode());
        put(&mut fields, "customCyc", self.custom_cyc.encode());
        put(&mut fields, "cycleStartTime", self.cycle_start_time.encode());
        put(&mut fields, "durations", self.durations.encode());
        put(&mut fields, "equipmentId", self.equipment_id.encode());
        put(&mut fields, "errorCode", self.error_code.encode());
        put(&mut fields, "errorState", self.error_state.encode());
        put(&mut fields, "firstSmrtFlag", self.first_smrt_flag.encode());
        put(&mut fields, "liftControl", self.lift_control.encode());
        put(&mut fields, "logger", self.logger.encode());
        put(&mut fields, "prCyc", self.pr_cyc.encode());
        put(&mut fields, "repeat", self.repeat.encode());
        put(&mut fields, "rmt_ctrl", self.rmt_ctrl.encode());
        put(&mut fields, "scanTimeDuration", self.scan_time_duration.encode());
        put(&mut fields, "schConf0Enable", self.sch_conf_0_enable.encode());
        put(&mut fields, "schConf0Hour", self.sch_conf_0_hour.encode());
        put(&mut fields, "schConf0Min", self.sch_conf_0_min.encode());
        put(&mut fields, "schConf0Prt", self.sch_conf_0_prt.encode());
        put(&mut fields, "schConf0WDay", self.sch_conf_0_wday.encode());
        put(&mut fields, "schConf1Enable", self.sch_conf_1_enable.encode());
        put(&mut fields, "schConf1Hour", self.sch_conf_1_hour.encode());
        put(&mut fields, "schConf1Min", self.sch_conf_1_min.encode());
        put(&mut fields, "schConf1Prt", self.sch_conf_1_prt.encode());
        put(&mut fields, "schConf1WDay", self.sch_conf_1_wday.encode());
        put(&mut fields, "schConf2Enable", self.sch_conf_2_enable.encode());
        put(&mut fields, "schConf2Hour", self.sch_conf_2_hour.encode());
        put(&mut fields, "schConf2Min", self.sch_conf_2_min.encode());
        put(&mut fields, "schConf2Prt", self.sch_conf_2_prt.encode());
        put(&mut fields, "schConf2WDay", self.sch_conf_2_wday.encode());
        put(&mut fields, "schConf3Enable", self.sch_conf_3_enable.encode());
        put(&mut fields, "schConf3Hour", self.sch_conf_3_hour.encode());
        put(&mut fields, "schConf3Min", self.sch_conf_3_min.encode());
        put(&mut fields, "schConf3Prt", self.sch_conf_3_prt.encode());
        put(&mut fields, "schConf3WDay", self.sch_conf_3_wday.encode());
        put(&mut fields, "schConf4Enable", self.sch_conf_4_enable.encode());
        put(&mut fields, "schConf4Hour", self.sch_conf_4_hour.encode());
        put(&mut fields, "schConf4Min", self.sch_conf_4_min.encode());
        put(&mut fields, "schConf4Prt", self.sch_conf_4_prt.encode());
        put(&mut fields, "schConf4WDay", self.sch_conf_4_wday.encode());
        put(&mut fields, "schConf5Enable", self.sch_conf_5_enable.encode());
        put(&mut fields, "schConf5Hour", self.sch_conf_5_hour.encode());
        put(&mut fields, "schConf5Min", self.sch_conf_5_min.encode());
        put(&mut fields, "schConf5Prt", self.sch_conf_5_prt.encode());
        put(&mut fields, "schConf5WDay", self.sch_conf_5_wday.encode());
        put(&mut fields, "schConf6Enable", self.sch_conf_6_enable.encode());
        put(&mut fields, "schConf6Hour", self.sch_conf_6_hour.encode());
        put(&mut fields, "schConf6Min", self.sch_conf_6_min.encode());
        put(&mut fields, "schConf6Prt", self.sch_conf_6_prt.encode());
        put(&mut fields, "schConf6WDay", self.sch_conf_6_wday.encode());
        put(&mut fields, "sensors", self.sensors.encode());
        put(&mut fields, "state", self.state.encode());
        put(&mut fields, "stepper", self.stepper.encode());
        put(&mut fields, "stepperAdjTime", self.stepper_adj_time.encode());
        put(&mut fields, "totalHours", self.total_hours.encode());
        put(&mut fields, "vr", self.vr.encode());
        put(&mut fields, "customIntensity", self.custom_intensity.encode());
        close(fields, &self.extra)
    }

    proof fn round_trip(value: RobotView, mode: Strictness) {
        reveal(Robot::spec_read);
        lemma_robot_fields(value, mode);
    }
}

/// What each key of an encoded [`Robot`] reads back.
#[verifier::rlimit(80)]
proof fn lemma_robot_fields(value: RobotView, mode: Strictness)
    requires
        Robot::faithful(value, mode),
    ensures
        spec_open::<Robot>(Robot::spec_encode(value), mode) matches Ok(members) && {
            &&& spec_undeclared::<Robot>(members) == value.extra
            &&& spec_field::<usize>(members, "canister"@, mode) == Ok::<usize, DecodeErrorView>(value.canister)
            &&& spec_field::<usize>(members, "customCyc"@, mode) == Ok::<usize, DecodeErrorView>(value.custom_cyc)
            &&& spec_field::<usize>(members, "cycleStartTime"@, mode) == Ok::<usize, DecodeErrorView>(value.cycle_start_time)
            &&& spec_field::<Durations>(members, "durations"@, mode) == Ok::<DurationsView, DecodeErrorView>(value.durations)
            &&& spec_field::<String>(members, "equipmentId"@, mode) == Ok::<Seq<char>, DecodeErrorView>(value.equipment_id)
            &&& spec_field::<usize>(members, "errorCode"@, mode) == Ok::<usize, DecodeErrorView>(value.error_code)
            &&& spec_field::<usize>(members, "errorState"@, mode) == Ok::<usize, DecodeErrorView>(value.error_state)
            &&& spec_field::<usize>(members, "firstSmrtFlag"@, mode) == Ok::<usize, DecodeErrorView>(value.first_smrt_flag)
            &&& spec_field::<usize>(members, "liftControl"@, mode) == Ok::<usize, DecodeErrorView>(value.lift_control)
            &&& spec_field::<usize>(members, "logger"@, mode) == Ok::<usize, DecodeErrorView>(value.logger)
            &&& spec_field::<usize>(members, "prCyc"@, mode) == Ok::<usize, DecodeErrorView>(value.pr_cyc)
            &&& spec_field::<usize>(members, "repeat"@, mode) == Ok::<usize, DecodeErrorView>(value.repeat)
            &&& spec_field::<usize>(members, "rmt_ctrl"@, mode) == Ok::<usize, DecodeErrorView>(value.rmt_ctrl)
            &&& spec_field::<usize>(members, "scanTimeDuration"@, mode) == Ok::<usize, DecodeErrorView>(value.scan_time_duration)
            &&& spec_field::<usize>(members, "schConf0Enable"@, mode) == Ok::<usize, DecodeErrorView>(value.sch_conf_0_enable)
            &&& spec_field::<usize>(members, "schConf0Hour"@, mode) == Ok::<usize, DecodeErrorView>(value.sch_conf_0_hour)
            &&& spec_field::<usize>(members, "schConf0Min"@, mode) == Ok::<usize, DecodeErrorView>(value.sch_conf_0_min)
            &&& spec_field::<usize>(members, "schConf0Prt"@, mode) == Ok::<usize, DecodeErrorView>(value.sch_conf_0_prt)
            &&& spec_field::<usize>(members, "schConf0WDay"@, mode) == Ok::<usize, DecodeErrorView>(value.sch_conf_0_wday)
            &&& spec_field::<usize>(members, "schConf1Enable"@, mode) == Ok::<usize, DecodeErrorView>(value.sch_conf_1_enable)
            &&& spec_field::<usize>(members, "schConf1Hour"@, mode) == Ok::<usize, DecodeErrorView>(value.sch_conf_1_hour)
            &&& spec_field::<usize>(members, "schConf1Min"@, mode) == Ok::<usize, DecodeErrorView>(value.sch_conf_1_min)
            &&& spec_field::<usize>(members, "schConf1Prt"@, mode) == Ok::<usize, DecodeErrorView>(value.sch_conf_1_prt)
            &&& spec_field::<usize>(members, "schConf1WDay"@, mode) == Ok::<usize, DecodeErrorView>(value.sch_conf_1_wday)
            &&& spec_field::<usize>(members, "schConf2Enable"@, mode) == Ok::<usize, DecodeErrorView>(value.sch_conf_2_enable)
            &&& spec_field::<usize>(members, "schConf2Hour"@, mode) == Ok::<usize, DecodeErrorView>(value.sch_conf_2_hour)
            &&& spec_field::<usize>(members, "schConf2Min"@, mode) == Ok::<usize, DecodeErrorView>(value.sch_conf_2_min)
            &&& spec_field::<usize>(members, "schConf2Prt"@, mode) == Ok::<usize, DecodeErrorView>(value.sch_conf_2_prt)
            &&& spec_field::<usize>(members, "schConf2WDay"@, mode) == Ok::<usize, DecodeErrorView>(value.sch_conf_2_wday)
            &&& spec_field::<usize>(members, "schConf3Enable"@, mode) == Ok::<usize, DecodeErrorView>(value.sch_conf_3_enable)
            &&& spec_field::<usize>(members, "schConf3Hour"@, mode) == Ok::<usize, DecodeErrorView>(value.sch_conf_3_hour)
            &&& spec_field::<usize>(members, "schConf3Min"@, mode) == Ok::<usize, DecodeErrorView>(value.sch_conf_3_min)
            &&& spec_field::<usize>(members, "schConf3Prt"@, mode) == Ok::<usize, DecodeErrorView>(value.sch_conf_3_prt)
            &&& spec_field::<usize>(members, "schConf3WDay"@, mode) == Ok::<usize, DecodeErrorView>(value.sch_conf_3_wday)
            &&& spec_field::<usize>(members, "schConf4Enable"@, mode) == Ok::<usize, DecodeErrorView>(value.sch_conf_4_enable)
            &&& spec_field::<usize>(members, "schConf4Hour"@, mode) == Ok::<usize, DecodeErrorView>(value.sch_conf_4_hour)
            &&& spec_field::<usize>(members, "schConf4Min"@, mode) == Ok::<usize, DecodeErrorView>(value.sch_conf_4_min)
            &&& spec_field::<usize>(members, "schConf4Prt"@, mode) == Ok::<usize, DecodeErrorView>(value.sch_conf_4_prt)
            &&& spec_field::<usize>(members, "schConf4WDay"@, mode) == Ok::<usize, DecodeErrorView>(value.sch_conf_4_wday)
            &&& spec_field::<usize>(members, "schConf5Enable"@, mode) == Ok::<usize, DecodeErrorView>(value.sch_conf_5_enable)
            &&& spec_field::<usize>(members, "schConf5Hour"@, mode) == Ok::<usize, DecodeErrorView>(value.sch_conf_5_hour)
            &&& spec_field::<usize>(members, "schConf5Min"@, mode) == Ok::<usize, DecodeErrorView>(value.sch_conf_5_min)
            &&& spec_field::<usize>(members, "schConf5Prt"@, mode) == Ok::<usize, DecodeErrorView>(value.sch_conf_5_prt)
            &&& spec_field::<usize>(members, "schConf5WDay"@, mode) == Ok::<usize, DecodeErrorView>(value.sch_conf_5_wday)
            &&& spec_field::<usize>(members, "schConf6Enable"@, mode) == Ok::<usize, DecodeErrorView>(value.sch_conf_6_enable)
            &&& spec_field::<usize>(members, "schConf6Hour"@, mode) == Ok::<usize, DecodeErrorView>(value.sch_conf_6_hour)
            &&& spec_field::<usize>(members, "schConf6Min"@, mode) == Ok::<usize, DecodeErrorView>(value.sch_conf_6_min)
            &&& spec_field::<usize>(members, "schConf6Prt"@, mode) == Ok::<usize, DecodeErrorView>(value.sch_conf_6_prt)
            &&& spec_field::<usize>(members, "schConf6WDay"@, mode) == Ok::<usize, DecodeErrorView>(value.sch_conf_6_wday)
            &&& spec_field::<RobotSensors>(members, "sensors"@, mode) == Ok::<RobotSensorsView, DecodeErrorView>(value.sensors)
            &&& spec_field::<usize>(members, "state"@, mode) == Ok::<usize, DecodeErrorView>(value.state)
            &&& spec_field::<usize>(members, "stepper"@, mode) == Ok::<usize, DecodeErrorView>(value.stepper)
            &&& spec_field::<usize>(members, "stepperAdjTime"@, mode) == Ok::<usize, DecodeErrorView>(value.stepper_adj_time)
            &&& spec_field::<usize>(members, "totalHours"@, mode) == Ok::<usize, DecodeErrorView>(value.total_hours)
            &&& spec_field::<String>(members, "vr"@, mode) == Ok::<Seq<char>, DecodeErrorView>(value.vr)
            &&& spec_field::<usize>(members, "customIntensity"@, mode) == Ok::<usize, DecodeErrorView>(value.custom_intensity)
        },
{
    reveal(Robot::spec_write);
    broadcast use {
        lemma_lookup_empty,
        lemma_lookup_push,
        lemma_lookup_add,
        lemma_undeclared_empty,
        lemma_undeclared_push,
    };
    // Two names differ in their length or in one of the letters named here.
    reveal_strlit("canister");
    reveal_strlit("customCyc");
    reveal_strlit("cycleStartTime");
    reveal_strlit("durations");
    reveal_strlit("equipmentId");
    reveal_strlit("errorCode");
    reveal_strlit("errorState");
    reveal_strlit("firstSmrtFlag");
    reveal_strlit("liftControl");
    reveal_strlit("logger");
    reveal_strlit("prCyc");
    reveal_strlit("repeat");
    reveal_strlit("rmt_ctrl");
    reveal_strlit("scanTimeDuration");
    reveal_strlit("schConf0Enable");
    reveal_strlit("schConf0Hour");
    reveal_strlit("schConf0Min");
    reveal_strlit("schConf0Prt");
    reveal_strlit("schConf0WDay");
    reveal_strlit("schConf1Enable");
    reveal_strlit("schConf1Hour");
    reveal_strlit("schConf1Min");
    reveal_strlit("schConf1Prt");
    reveal_strlit("schConf1WDay");
    reveal_strlit("schConf2Enable");
    reveal_strlit("schConf2Hour");
    reveal_strlit("schConf2Min");
    reveal_strlit("schConf2Prt");
    reveal_strlit("schConf2WDay");
    reveal_strlit("schConf3Enable");
    reveal_strlit("schConf3Hour");
    reveal_strlit("schConf3Min");
    reveal_strlit("schConf3Prt");
    reveal_strlit("schConf3WDay");
    reveal_strlit("schConf4Enable");
    reveal_strlit("schConf4Hour");
    reveal_strlit("schConf4Min");
    reveal_strlit("schConf4Prt");
    reveal_strlit("schConf4WDay");
    reveal_strlit("schConf5Enable");
    reveal_strlit("schConf5Hour");
    reveal_strlit("schConf5Min");
    reveal_strlit("schConf5Prt");
    reveal_strlit("schConf5WDay");
    reveal_strlit("schConf6Enable");
    reveal_strlit("schConf6Hour");
    reveal_strlit("schConf6Min");
    reveal_strlit("schConf6Prt");
    reveal_strlit("schConf6WDay");
    reveal_strlit("sensors");
    reveal_strlit("state");
    reveal_strlit("stepper");
    reveal_strlit("stepperAdjTime");
    reveal_strlit("totalHours");
    reveal_strlit("vr");
    reveal_strlit("customIntensity");
    assert("canister"@.len() == 8 && "canister"@[0] == 'c');
    assert("customCyc"@.len() == 9 && "customCyc"@[0] == 'c');
    assert("cycleStartTime"@.len() == 14 && "cycleStartTime"@[7] == 'a');
    assert("durations"@.len() == 9 && "durations"@[0] == 'd');
    assert("equipmentId"@.len() == 11 && "equipmentId"@[7] == 'n' && "equipmentId"@[8] == 't');
    assert("errorCode"@.len() == 9 && "errorCode"@[0] == 'e');
    assert("errorState"@.len() == 10 && "errorState"@[0] == 'e');
    assert("firstSmrtFlag"@.len() == 13);
    assert("liftControl"@.len() == 11 && "liftControl"@[7] == 't' && "liftControl"@[8] == 'r');
    assert("logger"@.len() == 6 && "logger"@[0] == 'l');
    assert("prCyc"@.len() == 5 && "prCyc"@[0] == 'p');
    assert("repeat"@.len() == 6 && "repeat"@[0] == 'r');
    assert("rmt_ctrl"@.len() == 8 && "rmt_ctrl"@[0] == 'r');
    assert("scanTimeDuration"@.len() == 16);
    assert("schConf0Enable"@.len() == 14 && "schConf0Enable"@[7] == '0');
    assert("schConf0Hour"@.len() == 12 && "schConf0Hour"@[7] == '0' && "schConf0Hour"@[8] == 'H');
    assert("schConf0Min"@.len() == 11 && "schConf0Min"@[7] == '0' && "schConf0Min"@[8] == 'M');
    assert("schConf0Prt"@.len() == 11 && "schConf0Prt"@[7] == '0' && "schConf0Prt"@[8] == 'P');
    assert("schConf0WDay"@.len() == 12 && "schConf0WDay"@[7] == '0' && "schConf0WDay"@[8] == 'W');
    assert("schConf1Enable"@.len() == 14 && "schConf1Enable"@[7] == '1');
    assert("schConf1Hour"@.len() == 12 && "schConf1Hour"@[7] == '1' && "schConf1Hour"@[8] == 'H');
    assert("schConf1Min"@.len() == 11 && "schConf1Min"@[7] == '1' && "schConf1Min"@[8] == 'M');
    assert("schConf1Prt"@.len() == 11 && "schConf1Prt"@[7] == '1' && "schConf1Prt"@[8] == 'P');
    assert("schConf1WDay"@.len() == 12 && "schConf1WDay"@[7] == '1' && "schConf1WDay"@[8] == 'W');
    assert("schConf2Enable"@.len() == 14 && "schConf2Enable"@[7] == '2');
    assert("schConf2Hour"@.len() == 12 && "schConf2Hour"@[7] == '2' && "schConf2Hour"@[8] == 'H');
    assert("schConf2Min"@.len() == 11 && "schConf2Min"@[7] == '2' && "schConf2Min"@[8] == 'M');
    assert("schConf2Prt"@.len() == 11 && "schConf2Prt"@[7] == '2' && "schConf2Prt"@[8] == 'P');
    assert("schConf2WDay"@.len() == 12 && "schConf2WDay"@[7] == '2' && "schConf2WDay"@[8] == 'W');
    assert("schConf3Enable"@.len() == 14 && "schConf3Enable"@[7] == '3');
    assert("schConf3Hour"@.len() == 12 && "schConf3Hour"@[7] == '3' && "schConf3Hour"@[8] == 'H');
    assert("schConf3Min"@.len() == 11 && "schConf3Min"@[7] == '3' && "schConf3Min"@[8] == 'M');
    assert("schConf3Prt"@.len() == 11 && "schConf3Prt"@[7] == '3' && "schConf3Prt"@[8] == 'P');
    assert("schConf3WDay"@.len() == 12 && "schConf3WDay"@[7] == '3' && "schConf3WDay"@[8] == 'W');
    assert("schConf4Enable"@.len() == 14 && "schConf4Enable"@[7] == '4');
    assert("schConf4Hour"@.len() == 12 && "schConf4Hour"@[7] == '4' && "schConf4Hour"@[8] == 'H');
    assert("schConf4Min"@.len() == 11 && "schConf4Min"@[7] == '4' && "schConf4Min"@[8] == 'M');
    assert("schConf4Prt"@.len() == 11 && "schConf4Prt"@[7] == '4' && "schConf4Prt"@[8] == 'P');
    assert("schConf4WDay"@.len() == 12 && "schConf4WDay"@[7] == '4' && "schConf4WDay"@[8] == 'W');
    assert("schConf5Enable"@.len() == 14 && "schConf5Enable"@[7] == '5');
    assert("schConf5Hour"@.len() == 12 && "schConf5Hour"@[7] == '5' && "schConf5Hour"@[8] == 'H');
    assert("schConf5Min"@.len() == 11 && "schConf5Min"@[7] == '5' && "schConf5Min"@[8] == 'M');
    assert("schConf5Prt"@.len() == 11 && "schConf5Prt"@[7] == '5' && "schConf5Prt"@[8] == 'P');
    assert("schConf5WDay"@.len() == 12 && "schConf5WDay"@[7] == '5' && "schConf5WDay"@[8] == 'W');
    assert("schConf6Enable"@.len() == 14 && "schConf6Enable"@[7] == '6');
    assert("schConf6Hour"@.len() == 12 && "schConf6Hour"@[7] == '6' && "schConf6Hour"@[8] == 'H');
    assert("schConf6Min"@.len() == 11 && "schConf6Min"@[7] == '6' && "schConf6Min"@[8] == 'M');
    assert("schConf6Prt"@.len() == 11 && "schConf6Prt"@[7] == '6' && "schConf6Prt"@[8] == 'P');
    assert("schConf6WDay"@.len() == 12 && "schConf6WDay"@[7] == '6' && "schConf6WDay"@[8] == 'W');
    assert("sensors"@.len() == 7 && "sensors"@[1] == 'e');
    assert("state"@.len() == 5 && "state"@[0] == 's');
    assert("stepper"@.len() == 7 && "stepper"@[1] == 't');
    assert("stepperAdjTime"@.len() == 14 && "stepperAdjTime"@[7] == 'A');
    assert("totalHours"@.len() == 10 && "totalHours"@[0] == 't');
    assert("vr"@.len() == 2);
    assert("customIntensity"@.len() == 15);
    Durations::round_trip(value.durations, mode);
    RobotSensors::round_trip(value.sensors, mode);
    let fields = Seq::empty()
        .push(("canister"@, usize::spec_encode(value.canister)))
        .push(("customCyc"@, usize::spec_encode(value.custom_cyc)))
        .push(("cycleStartTime"@, usize::spec_encode(value.cycle_start_time)))
        .push(("durations"@, Durations::spec_encode(value.durations)))
        .push(("equipmentId"@, String::spec_encode(value.equipment_id)))
        .push(("errorCode"@, usize::spec_encode(value.error_code)))
        .push(("errorState"@, usize::spec_encode(value.error_state)))
        .push(("firstSmrtFlag"@, usize::spec_encode(value.first_smrt_flag)))
        .push(("liftControl"@, usize::spec_encode(value.lift_control)))
        .push(("logger"@, usize::spec_encode(value.logger)))
        .push(("prCyc"@, usize::spec_encode(value.pr_cyc)))
        .push(("repeat"@, usize::spec_encode(value.repeat)))
        .push(("rmt_ctrl"@, usize::spec_encode(value.rmt_ctrl)))
        .push(("scanTimeDuration"@, usize::spec_encode(value.scan_time_duration)))
        .push(("schConf0Enable"@, usize::spec_encode(value.sch_conf_0_enable)))
        .push(("schConf0Hour"@, usize::spec_encode(value.sch_conf_0_hour)))
        .push(("schConf0Min"@, usize::spec_encode(value.sch_conf_0_min)))
        .push(("schConf0Prt"@, usize::spec_encode(value.sch_conf_0_prt)))
        .push(("schConf0WDay"@, usize::spec_encode(value.sch_conf_0_wday)))
        .push(("schConf1Enable"@, usize::spec_encode(value.sch_conf_1_enable)))
        .push(("schConf1Hour"@, usize::spec_encode(value.sch_conf_1_hour)))
        .push(("schConf1Min"@, usize::spec_encode(value.sch_conf_1_min)))
        .push(("schConf1Prt"@, usize::spec_encode(value.sch_conf_1_prt)))
        .push(("schConf1WDay"@, usize::spec_encode(value.sch_conf_1_wday)))
        .push(("schConf2Enable"@, usize::spec_encode(value.sch_conf_2_enable)))
        .push(("schConf2Hour"@, usize::spec_encode(value.sch_conf_2_hour)))
        .push(("schConf2Min"@, usize::spec_encode(value.sch_conf_2_min)))
        .push(("schConf2Prt"@, usize::spec_encode(value.sch_conf_2_prt)))
        .push(("schConf2WDay"@, usize::spec_encode(value.sch_conf_2_wday)))
        .push(("schConf3Enable"@, usize::spec_encode(value.sch_conf_3_enable)))
        .push(("schConf3Hour"@, usize::spec_encode(value.sch_conf_3_hour)))
        .push(("schConf3Min"@, usize::spec_encode(value.sch_conf_3_min)))
        .push(("schConf3Prt"@, usize::spec_encode(value.sch_conf_3_prt)))
        .push(("schConf3WDay"@, usize::spec_encode(value.sch_conf_3_wday)))
        .push(("schConf4Enable"@, usize::spec_encode(value.sch_conf_4_enable)))
        .push(("schConf4Hour"@, usize::spec_encode(value.sch_conf_4_hour)))
        .push(("schConf4Min"@, usize::spec_encode(value.sch_conf_4_min)))
        .push(("schConf4Prt"@, usize::spec_encode(value.sch_conf_4_prt)))
        .push(("schConf4WDay"@, usize::spec_encode(value.sch_conf_4_wday)))
        .push(("schConf5Enable"@, usize::spec_encode(value.sch_conf_5_enable)))
        .push(("schConf5Hour"@, usize::spec_encode(value.sch_conf_5_hour)))
        .push(("schConf5Min"@, usize::spec_encode(value.sch_conf_5_min)))
        .push(("schConf5Prt"@, usize::spec_encode(value.sch_conf_5_prt)))
        .push(("schConf5WDay"@, usize::spec_encode(value.sch_conf_5_wday)))
        .push(("schConf6Enable"@, usize::spec_encode(value.sch_conf_6_enable)))
        .push(("schConf6Hour"@, usize::spec_encode(value.sch_conf_6_hour)))
        .push(("schConf6Min"@, usize::spec_encode(value.sch_conf_6_min)))
        .push(("schConf6Prt"@, usize::spec_encode(value.sch_conf_6_prt)))
        .push(("schConf6WDay"@, usize::spec_encode(value.sch_conf_6_wday)))
        .push(("sensors"@, RobotSensors::spec_encode(value.sensors)))
        .push(("state"@, usize::spec_encode(value.state)))
        .push(("stepper"@, usize::spec_encode(value.stepper)))
        .push(("stepperAdjTime"@, usize::spec_encode(value.stepper_adj_time)))
        .push(("totalHours"@, usize::spec_encode(value.total_hours)))
        .push(("vr"@, String::spec_encode(value.vr)))
        .push(("customIntensity"@, usize::spec_encode(value.custom_intensity)));
    let members = fields + value.extra;
    assert(spec_undeclared::<Robot>(fields).len() == 0);
    lemma_undeclared_close::<Robot>(fields, value.extra);
    assert(spec_open::<Robot>(Robot::spec_encode(value), mode) == Ok::<Members, DecodeErrorView>(members));
    assert(lookup(members, "canister"@) == Some(usize::spec_encode(value.canister)));
    assert(lookup(members, "customCyc"@) == Some(usize::spec_encode(value.custom_cyc)));
    assert(lookup(members, "cycleStartTime"@) == Some(usize::spec_encode(value.cycle_start_time)));
    assert(lookup(members, "durations"@) == Some(Durations::spec_encode(value.durations)));
    assert(lookup(members, "equipmentId"@) == Some(String::spec_encode(value.equipment_id)));
    assert(lookup(members, "errorCode"@) == Some(usize::spec_encode(value.error_code)));
    assert(lookup(members, "errorState"@) == Some(usize::spec_encode(value.error_state)));
    assert(lookup(members, "firstSmrtFlag"@) == Some(usize::spec_encode(value.first_smrt_flag)));
    assert(lookup(members, "liftControl"@) == Some(usize::spec_encode(value.lift_control)));
    assert(lookup(members, "logger"@) == Some(usize::spec_encode(value.logger)));
    assert(lookup(members, "prCyc"@) == Some(usize::spec_encode(value.pr_cyc)));
    assert(lookup(members, "repeat"@) == Some(usize::spec_encode(value.repeat)));
    assert(lookup(members, "rmt_ctrl"@) == Some(usize::spec_encode(value.rmt_ctrl)));
    assert(lookup(members, "scanTimeDuration"@) == Some(usize::spec_encode(value.scan_time_duration)));
    assert(lookup(members, "schConf0Enable"@) == Some(usize::spec_encode(value.sch_conf_0_enable)));
    assert(lookup(members, "schConf0Hour"@) == Some(usize::spec_encode(value.sch_conf_0_hour)));
    assert(lookup(members, "schConf0Min"@) == Some(usize::spec_encode(value.sch_conf_0_min)));
    assert(lookup(members, "schConf0Prt"@) == Some(usize::spec_encode(value.sch_conf_0_prt)));
    assert(lookup(members, "schConf0WDay"@) == Some(usize::spec_encode(value.sch_conf_0_wday)));
    assert(lookup(members, "schConf1Enable"@) == Some(usize::spec_encode(value.sch_conf_1_enable)));
    assert(lookup(members, "schConf1Hour"@) == Some(usize::spec_encode(value.sch_conf_1_hour)));
    assert(lookup(members, "schConf1Min"@) == Some(usize::spec_encode(value.sch_conf_1_min)));
    assert(lookup(members, "schConf1Prt"@) == Some(usize::spec_encode(value.sch_conf_1_prt)));
    assert(lookup(members, "schConf1WDay"@) == Some(usize::spec_encode(value.sch_conf_1_wday)));
    assert(lookup(members, "schConf2Enable"@) == Some(usize::spec_encode(value.sch_conf_2_enable)));
    assert(lookup(members, "schConf2Hour"@) == Some(usize::spec_encode(value.sch_conf_2_hour)));
    assert(lookup(members, "schConf2Min"@) == Some(usize::spec_encode(value.sch_conf_2_min)));
    assert(lookup(members, "schConf2Prt"@) == Some(usize::spec_encode(value.sch_conf_2_prt)));
    assert(lookup(members, "schConf2WDay"@) == Some(usize::spec_encode(value.sch_conf_2_wday)));
    assert(lookup(members, "schConf3Enable"@) == Some(usize::spec_encode(value.sch_conf_3_enable)));
    assert(lookup(members, "schConf3Hour"@) == Some(usize::spec_encode(value.sch_conf_3_hour)));
    assert(lookup(members, "schConf3Min"@) == Some(usize::spec_encode(value.sch_conf_3_min)));
    assert(lookup(members, "schConf3Prt"@) == Some(usize::spec_encode(value.sch_conf_3_prt)));
    assert(lookup(members, "schConf3WDay"@) == Some(usize::spec_encode(value.sch_conf_3_wday)));
    assert(lookup(members, "schConf4Enable"@) == Some(usize::spec_encode(value.sch_conf_4_enable)));
    assert(lookup(members, "schConf4Hour"@) == Some(usize::spec_encode(value.sch_conf_4_hour)));
    assert(lookup(members, "schConf4Min"@) == Some(usize::spec_encode(value.sch_conf_4_min)));
    assert(lookup(members, "schConf4Prt"@) == Some(usize::spec_encode(value.sch_conf_4_prt)));
    assert(lookup(members, "schConf4WDay"@) == Some(usize::spec_encode(value.sch_conf_4_wday)));
    assert(lookup(members, "schConf5Enable"@) == Some(usize::spec_encode(value.sch_conf_5_enable)));
    assert(lookup(members, "schConf5Hour"@) == Some(usize::spec_encode(value.sch_conf_5_hour)));
    assert(lookup(members, "schConf5Min"@) == Some(usize::spec_encode(value.sch_conf_5_min)));
    assert(lookup(members, "schConf5Prt"@) == Some(usize::spec_encode(value.sch_conf_5_prt)));
    assert(lookup(members, "schConf5WDay"@) == Some(usize::spec_encode(value.sch_conf_5_wday)));
    assert(lookup(members, "schConf6Enable"@) == Some(usize::spec_encode(value.sch_conf_6_enable)));
    assert(lookup(members, "schConf6Hour"@) == Some(usize::spec_encode(value.sch_conf_6_hour)));
    assert(lookup(members, "schConf6Min"@) == Some(usize::spec_encode(value.sch_conf_6_min)));
    assert(lookup(members, "schConf6Prt"@) == Some(usize::spec_encode(value.sch_conf_6_prt)));
    assert(lookup(members, "schConf6WDay"@) == Some(usize::spec_encode(value.sch_conf_6_wday)));
    assert(lookup(members, "sensors"@) == Some(RobotSensors::spec_encode(value.sensors)));
    assert(lookup(members, "state"@) == Some(usize::spec_encode(value.state)));
    assert(lookup(members, "stepper"@) == Some(usize::spec_encode(value.stepper)));
    assert(lookup(members, "stepperAdjTime"@) == Some(usize::spec_encode(value.stepper_adj_time)));
    assert(lookup(members, "totalHours"@) == Some(usize::spec_encode(value.total_hours)));
    assert(lookup(members, "vr"@) == Some(String::spec_encode(value.vr)));
    assert(lookup(members, "customIntensity"@) == Some(usize::spec_encode(value.custom_intensity)));
    assert(spec_field::<usize>(members, "canister"@, mode) == Ok::<usize, DecodeErrorView>(value.canister));
    assert(spec_field::<usize>(members, "customCyc"@, mode) == Ok::<usize, DecodeErrorView>(value.custom_cyc));
    assert(spec_field::<usize>(members, "cycleStartTime"@, mode) == Ok::<usize, DecodeErrorView>(value.cycle_start_time));
    assert(spec_field::<Durations>(members, "durations"@, mode) == Ok::<DurationsView, DecodeErrorView>(value.durations));
    assert(spec_field::<String>(members, "equipmentId"@, mode) == Ok::<Seq<char>, DecodeErrorView>(value.equipment_id));
    assert(spec_field::<usize>(members, "errorCode"@, mode) == Ok::<usize, DecodeErrorView>(value.error_code));
    assert(spec_field::<usize>(members, "errorState"@, mode) == Ok::<usize, DecodeErrorView>(value.error_state));
    assert(spec_field::<usize>(members, "firstSmrtFlag"@, mode) == Ok::<usize, DecodeErrorView>(value.first_smrt_flag));
    assert(spec_field::<usize>(members, "liftControl"@, mode) == Ok::<usize, DecodeErrorView>(value.lift_control));
    assert(spec_field::<usize>(members, "logger"@, mode) == Ok::<usize, DecodeErrorView>(value.logger));
    assert(spec_field::<usize>(members, "prCyc"@, mode) == Ok::<usize, DecodeErrorView>(value.pr_cyc));
    assert(spec_field::<usize>(members, "repeat"@, mode) == Ok::<usize, DecodeErrorView>(value.repeat));
    assert(spec_field::<usize>(members, "rmt_ctrl"@, mode) == Ok::<usize, DecodeErrorView>(value.rmt_ctrl));
    assert(spec_field::<usize>(members, "scanTimeDuration"@, mode) == Ok::<usize, DecodeErrorView>(value.scan_time_duration));
    assert(spec_field::<usize>(members, "schConf0Enable"@, mode) == Ok::<usize, DecodeErrorView>(value.sch_conf_0_enable));
    assert(spec_field::<usize>(members, "schConf0Hour"@, mode) == Ok::<usize, DecodeErrorView>(value.sch_conf_0_hour));
    assert(spec_field::<usize>(members, "schConf0Min"@, mode) == Ok::<usize, DecodeErrorView>(value.sch_conf_0_min));
    assert(spec_field::<usize>(members, "schConf0Prt"@, mode) == Ok::<usize, DecodeErrorView>(value.sch_conf_0_prt));
    assert(spec_field::<usize>(members, "schConf0WDay"@, mode) == Ok::<usize, DecodeErrorView>(value.sch_conf_0_wday));
    assert(spec_field::<usize>(members, "schConf1Enable"@, mode) == Ok::<usize, DecodeErrorView>(value.sch_conf_1_enable));
    assert(spec_field::<usize>(members, "schConf1Hour"@, mode) == Ok::<usize, DecodeErrorView>(value.sch_conf_1_hour));
    assert(spec_field::<usize>(members, "schConf1Min"@, mode) == Ok::<usize, DecodeErrorView>(value.sch_conf_1_min));
    assert(spec_field::<usize>(members, "schConf1Prt"@, mode) == Ok::<usize, DecodeErrorView>(value.sch_conf_1_prt));
    assert(spec_field::<usize>(members, "schConf1WDay"@, mode) == Ok::<usize, DecodeErrorView>(value.sch_conf_1_wday));
    assert(spec_field::<usize>(members, "schConf2Enable"@, mode) == Ok::<usize, DecodeErrorView>(value.sch_conf_2_enable));
    assert(spec_field::<usize>(members, "schConf2Hour"@, mode) == Ok::<usize, DecodeErrorView>(value.sch_conf_2_hour));
    assert(spec_field::<usize>(members, "schConf2Min"@, mode) == Ok::<usize, DecodeErrorView>(value.sch_conf_2_min));
    assert(spec_field::<usize>(members, "schConf2Prt"@, mode) == Ok::<usize, DecodeErrorView>(value.sch_conf_2_prt));
    assert(spec_field::<usize>(members, "schConf2WDay"@, mode) == Ok::<usize, DecodeErrorView>(value.sch_conf_2_wday));
    assert(spec_field::<usize>(members, "schConf3Enable"@, mode) == Ok::<usize, DecodeErrorView>(value.sch_conf_3_enable));
    assert(spec_field::<usize>(members, "schConf3Hour"@, mode) == Ok::<usize, DecodeErrorView>(value.sch_conf_3_hour));
    assert(spec_field::<usize>(members, "schConf3Min"@, mode) == Ok::<usize, DecodeErrorView>(value.sch_conf_3_min));
    assert(spec_field::<usize>(members, "schConf3Prt"@, mode) == Ok::<usize, DecodeErrorView>(value.sch_conf_3_prt));
    assert(spec_field::<usize>(members, "schConf3WDay"@, mode) == Ok::<usize, DecodeErrorView>(value.sch_conf_3_wday));
    assert(spec_field::<usize>(members, "schConf4Enable"@, mode) == Ok::<usize, DecodeErrorView>(value.sch_conf_4_enable));
    assert(spec_field::<usize>(members, "schConf4Hour"@, mode) == Ok::<usize, DecodeErrorView>(value.sch_conf_4_hour));
    assert(spec_field::<usize>(members, "schConf4Min"@, mode) == Ok::<usize, DecodeErrorView>(value.sch_conf_4_min));
    assert(spec_field::<usize>(members, "schConf4Prt"@, mode) == Ok::<usize, DecodeErrorView>(value.sch_conf_4_prt));
    assert(spec_field::<usize>(members, "schConf4WDay"@, mode) == Ok::<usize, DecodeErrorView>(value.sch_conf_4_wday));
    assert(spec_field::<usize>(members, "schConf5Enable"@, mode) == Ok::<usize, DecodeErrorView>(value.sch_conf_5_enable));
    assert(spec_field::<usize>(members, "schConf5Hour"@, mode) == Ok::<usize, DecodeErrorView>(value.sch_conf_5_hour));
    assert(spec_field::<usize>(members, "schConf5Min"@, mode) == Ok::<usize, DecodeErrorView>(value.sch_conf_5_min));
    assert(spec_field::<usize>(members, "schConf5Prt"@, mode) == Ok::<usize, DecodeErrorView>(value.sch_conf_5_prt));
    assert(spec_field::<usize>(members, "schConf5WDay"@, mode) == Ok::<usize, DecodeErrorView>(value.sch_conf_5_wday));
    assert(spec_field::<usize>(members, "schConf6Enable"@, mode) == Ok::<usize, DecodeErrorView>(value.sch_conf_6_enable));
    assert(spec_field::<usize>(members, "schConf6Hour"@, mode) == Ok::<usize, DecodeErrorView>(value.sch_conf_6_hour));
    assert(spec_field::<usize>(members, "schConf6Min"@, mode) == Ok::<usize, DecodeErrorView>(value.sch_conf_6_min));
    assert(spec_field::<usize>(members, "schConf6Prt"@, mode) == Ok::<usize, DecodeErrorView>(value.sch_conf_6_prt));
    assert(spec_field::<usize>(members, "schConf6WDay"@, mode) == Ok::<usize, DecodeErrorView>(value.sch_conf_6_wday));
    assert(spec_field::<RobotSensors>(members, "sensors"@, mode) == Ok::<RobotSensorsView, DecodeErrorView>(value.sensors));
    assert(spec_field::<usize>(members, "state"@, mode) == Ok::<usize, DecodeErrorView>(value.state));
    assert(spec_field::<usize>(members, "stepper"@, mode) == Ok::<usize, DecodeErrorView>(value.stepper));
    assert(spec_field::<usize>(members, "stepperAdjTime"@, mode) == Ok::<usize, DecodeErrorView>(value.stepper_adj_time));
    assert(spec_field::<usize>(members, "totalHours"@, mode) == Ok::<usize, DecodeErrorView>(value.total_hours));
    assert(spec_field::<String>(members, "vr"@, mode) == Ok::<Seq<char>, DecodeErrorView>(value.vr));
    assert(spec_field::<usize>(members, "customIntensity"@, mode) == Ok::<usize, DecodeErrorView>(value.custom_intensity));
}

} // verus!
