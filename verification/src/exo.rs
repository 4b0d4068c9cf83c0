//! The state of a chlorinator system and of its parts.

use vstd::prelude::*;
use crate::error::{DecodeError, DecodeErrorView, Expected, Strictness};
use crate::json::{
    lemma_lookup_add, lemma_lookup_empty, lemma_lookup_push, lookup, Json, JsonNumber, JsonValue, Members, Number,
};
use crate::record::{
    carried, close, lemma_all_declared, lemma_undeclared_close, lemma_undeclared_empty, lemma_undeclared_lookup,
    lemma_undeclared_push, lemma_unknown_refused, open, put, refuse, spec_close, spec_open, spec_refuse,
    spec_undeclared, start, undeclared,
};
use crate::shadow::{AwsState, AwsStateView};
use crate::text::same_text;
use crate::wire::{field, spec_field, Decode, Encode, Record};

verus! {

/// A lighting effect of an auxiliary output. On the wire it is its number, 0 to 13.
#[derive(Debug, Clone, Copy, PartialEq, Eq, Structural)]
pub enum Color {
    AlpineWhite,
    SkyBlue,
    CobaltBlue,
    CarribeanBlue,
    SpringGreen,
    EmeraldGreen,
    EmeraldRose,
    Magenta,
    Violet,
    SlowFade,
    FastFade,
    BeautifulAmerica,
    CarnivalTuesday,
    DiscoStyle,
}

impl DeepView for Color {
    type V = Color;

    open spec fn deep_view(&self) -> Color {
        *self
    }
}

impl Color {
    /// The number that stands for the effect on the wire.
    pub open spec fn spec_code(self) -> int {
        match self {
            Color::AlpineWhite => 0,
            Color::SkyBlue => 1,
            Color::CobaltBlue => 2,
            Color::CarribeanBlue => 3,
            Color::SpringGreen => 4,
            Color::EmeraldGreen => 5,
            Color::EmeraldRose => 6,
            Color::Magenta => 7,
            Color::Violet => 8,
            Color::SlowFade => 9,
            Color::FastFade => 10,
            Color::BeautifulAmerica => 11,
            Color::CarnivalTuesday => 12,
            Color::DiscoStyle => 13,
        }
    }

    /// The effect that a number stands for, if it is one of the fourteen.
    pub open spec fn spec_from_code(code: int) -> Option<Color> {
        if code == 0 {
            Some(Color::AlpineWhite)
        } else if code == 1 {
            Some(Color::SkyBlue)
        } else if code == 2 {
            Some(Color::CobaltBlue)
        } else if code == 3 {
            Some(Color::CarribeanBlue)
        } else if code == 4 {
            Some(Color::SpringGreen)
        } else if code == 5 {
            Some(Color::EmeraldGreen)
        } else if code == 6 {
            Some(Color::EmeraldRose)
        } else if code == 7 {
            Some(Color::Magenta)
        } else if code == 8 {
            Some(Color::Violet)
        } else if code == 9 {
            Some(Color::SlowFade)
        } else if code == 10 {
            Some(Color::FastFade)
        } else if code == 11 {
            Some(Color::BeautifulAmerica)
        } else if code == 12 {
            Some(Color::CarnivalTuesday)
        } else if code == 13 {
            Some(Color::DiscoStyle)
        } else {
            None
        }
    }

    /// The number that stands for the effect on the wire.
    pub fn code(self) -> (r: u8)
        ensures
            r == self.spec_code(),
            r <= 13,
    {
        match self {
            Color::AlpineWhite => 0,
            Color::SkyBlue => 1,
            Color::CobaltBlue => 2,
            Color::CarribeanBlue => 3,
            Color::SpringGreen => 4,
            Color::EmeraldGreen => 5,
            Color::EmeraldRose => 6,
            Color::Magenta => 7,
            Color::Violet => 8,
            Color::SlowFade => 9,
            Color::FastFade => 10,
            Color::BeautifulAmerica => 11,
            Color::CarnivalTuesday => 12,
            Color::DiscoStyle => 13,
        }
    }

    /// The effect that a number stands for: there is one for each number from 0 to 13, and
    /// for no other.
    pub fn from_code(code: u64) -> (r: Option<Color>)
        ensures
            r == Color::spec_from_code(code as int),
            r is Some <==> code <= 13,
            r matches Some(color) ==> color.spec_code() == code,
    {
        match code {
            0 => Some(Color::AlpineWhite),
            1 => Some(Color::SkyBlue),
            2 => Some(Color::CobaltBlue),
            3 => Some(Color::CarribeanBlue),
            4 => Some(Color::SpringGreen),
            5 => Some(Color::EmeraldGreen),
            6 => Some(Color::EmeraldRose),
            7 => Some(Color::Magenta),
            8 => Some(Color::Violet),
            9 => Some(Color::SlowFade),
            10 => Some(Color::FastFade),
            11 => Some(Color::BeautifulAmerica),
            12 => Some(Color::CarnivalTuesday),
            13 => Some(Color::DiscoStyle),
            _ => None,
        }
    }
}

impl Decode for Color {
    open spec fn spec_decode(doc: JsonValue, mode: Strictness) -> Result<Color, DecodeErrorView> {
        match doc {
            JsonValue::Number(JsonNumber::Int(code)) => match Color::spec_from_code(code) {
                Some(color) => Ok(color),
                None => Err(DecodeErrorView::Mismatch(Expected::Color)),
            },
            _ => Err(DecodeErrorView::Mismatch(Expected::Color)),
        }
    }

    open spec fn spec_absent() -> Option<Color> {
        None
    }

    fn decode(doc: &Json, mode: Strictness) -> (r: Result<Color, DecodeError>) {
        let code = match doc {
            Json::Number(Number::Unsigned(n)) => Color::from_code(*n),
            Json::Number(Number::Negative(n)) if *n >= 0 => Color::from_code(*n as u64),
            _ => None,
        };
        match code {
            Some(color) => Ok(color),
            None => Err(DecodeError::Mismatch(Expected::Color)),
        }
    }

    fn absent() -> (r: Option<Color>) {
        None
    }
}

impl Encode for Color {
    open spec fn spec_encode(value: Color) -> JsonValue {
        JsonValue::Number(JsonNumber::Int(value.spec_code()))
    }

    open spec fn faithful(value: Color, mode: Strictness) -> bool {
        true
    }

    fn encode(&self) -> (r: Json) {
        Json::Number(Number::Unsigned(self.code() as u64))
    }

    proof fn round_trip(value: Color, mode: Strictness) {
    }
}

/// One reading of a chlorinator's sensor: acidity, redox potential or water temperature.
#[derive(Debug, PartialEq, Eq)]
pub struct Sensor {
    pub sensor_type: String,
    pub state: usize,
    pub value: usize,
    /// Members that the record does not declare.
    pub extra: Vec<(String, Json)>,
}

/// Mathematical model of a [`Sensor`].
pub struct SensorView {
    pub sensor_type: Seq<char>,
    pub state: usize,
    pub value: usize,
    pub extra: Members,
}

impl DeepView for Sensor {
    type V = SensorView;

    open spec fn deep_view(&self) -> SensorView {
        SensorView {
            sensor_type: self.sensor_type@,
            state: self.state,
            value: self.value,
            extra: self.extra.deep_view(),
        }
    }
}

impl Record for Sensor {
    open spec fn spec_declares(name: Seq<char>) -> bool {
        ||| name == "sensor_type"@
        ||| name == "state"@
        ||| name == "value"@
    }

    fn declares(name: &str) -> (r: bool) {
        same_text(name, "sensor_type") || same_text(name, "state") || same_text(name, "value")
    }
}

impl Sensor {
    /// What a document is read as.
    #[verifier::opaque]
    pub open spec fn spec_read(doc: JsonValue, mode: Strictness) -> Result<SensorView, DecodeErrorView> {
        match spec_open::<Sensor>(doc, mode) { Err(e) => Err(e), Ok(members) =>
        match spec_field::<String>(members, "sensor_type"@, mode) { Err(e) => Err(e), Ok(sensor_type) =>
        match spec_field::<usize>(members, "state"@, mode) { Err(e) => Err(e), Ok(state) =>
        match spec_field::<usize>(members, "value"@, mode) { Err(e) => Err(e), Ok(value) =>
            Ok(SensorView {
                sensor_type,
                state,
                value,
                extra: spec_undeclared::<Sensor>(members),
            })
        }}}}
    }

    /// The document that a value is written as.
    #[verifier::opaque]
    pub open spec fn spec_write(value: SensorView) -> JsonValue {
        spec_close(
            Seq::empty()
                .push(("sensor_type"@, String::spec_encode(value.sensor_type)))
                .push(("state"@, usize::spec_encode(value.state)))
                .push(("value"@, usize::spec_encode(value.value))),
            value.extra,
        )
    }
}

impl Decode for Sensor {
    open spec fn spec_decode(doc: JsonValue, mode: Strictness) -> Result<SensorView, DecodeErrorView> {
        Sensor::spec_read(doc, mode)
    }

    open spec fn spec_absent() -> Option<SensorView> {
        None
    }

    fn decode(doc: &Json, mode: Strictness) -> (r: Result<Sensor, DecodeError>) {
        reveal(Sensor::spec_read);
        let members = open::<Sensor>(doc, mode)?;
        let sensor_type = field::<String>(members, "sensor_type", mode)?;
        let state = field::<usize>(members, "state", mode)?;
        let value = field::<usize>(members, "value", mode)?;
        let extra = undeclared::<Sensor>(members);
        Ok(Sensor { sensor_type, state, value, extra })
    }

    fn absent() -> (r: Option<Sensor>) {
        None
    }
}

impl Encode for Sensor {
    open spec fn spec_encode(value: SensorView) -> JsonValue {
        Sensor::spec_write(value)
    }

    open spec fn faithful(value: SensorView, mode: Strictness) -> bool {
        carried::<Sensor>(value.extra, mode)
    }

    fn encode(&self) -> (r: Json) {
        reveal(Sensor::spec_write);
        let mut fields = start();
        put(&mut fields, "sensor_type", self.sensor_type.encode());
        put(&mut fields, "state", self.state.encode());
        put(&mut fields, "value", self.value.encode());
        close(fields, &self.extra)
    }

    proof fn round_trip(value: SensorView, mode: Strictness) {
        reveal(Sensor::spec_read);
        reveal(Sensor::spec_write);
        broadcast use {
            lemma_lookup_empty,
            lemma_lookup_push,
            lemma_lookup_add,
            lemma_undeclared_empty,
            lemma_undeclared_push,
        };
        // Two names differ in their length or in one of the letters named here.
        reveal_strlit("sensor_type");
        reveal_strlit("state");
        reveal_strlit("value");
        assert("sensor_type"@.len() == 11);
        assert("state"@.len() == 5 && "state"@[0] == 's');
        assert("value"@.len() == 5 && "value"@[0] == 'v');
        let fields = Seq::empty()
            .push(("sensor_type"@, String::spec_encode(value.sensor_type)))
            .push(("state"@, usize::spec_encode(value.state)))
            .push(("value"@, usize::spec_encode(value.value)));
        let members = fields + value.extra;
        assert(spec_undeclared::<Sensor>(fields).len() == 0);
        lemma_undeclared_close::<Sensor>(fields, value.extra);
        assert(spec_open::<Sensor>(Sensor::spec_encode(value), mode) == Ok::<Members, DecodeErrorView>(members));
        assert(spec_field::<String>(members, "sensor_type"@, mode) == Ok::<Seq<char>, DecodeErrorView>(value.sensor_type));
        assert(spec_field::<usize>(members, "state"@, mode) == Ok::<usize, DecodeErrorView>(value.state));
        assert(spec_field::<usize>(members, "value"@, mode) == Ok::<usize, DecodeErrorView>(value.value));
    }
}

/// The filter pump of a chlorinator.
#[derive(Debug, PartialEq, Eq)]
pub struct FilterPump {
    /// The pump's kind, as a number.
    pub pump_type: usize,
    pub state: usize,
    /// Members that the record does not declare.
    pub extra: Vec<(String, Json)>,
}

/// Mathematical model of a [`FilterPump`].
pub struct FilterPumpView {
    pub pump_type: usize,
    pub state: usize,
    pub extra: Members,
}

impl DeepView for FilterPump {
    type V = FilterPumpView;

    open spec fn deep_view(&self) -> FilterPumpView {
        FilterPumpView {
            pump_type: self.pump_type,
            state: self.state,
            extra: self.extra.deep_view(),
        }
    }
}

impl Record for FilterPump {
    open spec fn spec_declares(name: Seq<char>) -> bool {
        ||| name == "type"@
        ||| name == "state"@
    }

    fn declares(name: &str) -> (r: bool) {
        same_text(name, "type") || same_text(name, "state")
    }
}

impl FilterPump {
    /// What a document is read as.
    #[verifier::opaque]
    pub open spec fn spec_read(doc: JsonValue, mode: Strictness) -> Result<FilterPumpView, DecodeErrorView> {
        match spec_open::<FilterPump>(doc, mode) { Err(e) => Err(e), Ok(members) =>
        match spec_field::<usize>(members, "type"@, mode) { Err(e) => Err(e), Ok(pump_type) =>
        match spec_field::<usize>(members, "state"@, mode) { Err(e) => Err(e), Ok(state) =>
            Ok(FilterPumpView {
                pump_type,
                state,
                extra: spec_undeclared::<FilterPump>(members),
            })
        }}}
    }

    /// The document that a value is written as.
    #[verifier::opaque]
    pub open spec fn spec_write(value: FilterPumpView) -> JsonValue {
        spec_close(
            Seq::empty()
                .push(("type"@, usize::spec_encode(value.pump_type)))
                .push(("state"@, usize::spec_encode(value.state))),
            value.extra,
        )
    }
}

impl Decode for FilterPump {
    open spec fn spec_decode(doc: JsonValue, mode: Strictness) -> Result<FilterPumpView, DecodeErrorView> {
        FilterPump::spec_read(doc, mode)
    }

    open spec fn spec_absent() -> Option<FilterPumpView> {
        None
    }

    fn decode(doc: &Json, mode: Strictness) -> (r: Result<FilterPump, DecodeError>) {
        reveal(FilterPump::spec_read);
        let members = open::<FilterPump>(doc, mode)?;
        let pump_type = field::<usize>(members, "type", mode)?;
        let state = field::<usize>(members, "state", mode)?;
        let extra = undeclared::<FilterPump>(members);
        Ok(FilterPump { pump_type, state, extra })
    }

    fn absent() -> (r: Option<FilterPump>) {
        None
    }
}

impl Encode for FilterPump {
    open spec fn spec_encode(value: FilterPumpView) -> JsonValue {
        FilterPump::spec_write(value)
    }

    open spec fn faithful(value: FilterPumpView, mode: Strictness) -> bool {
        carried::<FilterPump>(value.extra, mode)
    }

    fn encode(&self) -> (r: Json) {
        reveal(FilterPump::spec_write);
        let mut fields = start();
        put(&mut fields, "type", self.pump_type.encode());
        put(&mut fields, "state", self.state.encode());
        close(fields, &self.extra)
    }

    proof fn round_trip(value: FilterPumpView, mode: Strictness) {
        reveal(FilterPump::spec_read);
        reveal(FilterPump::spec_write);
        broadcast use {
            lemma_lookup_empty,
            lemma_lookup_push,
            lemma_lookup_add,
            lemma_undeclared_empty,
            lemma_undeclared_push,
        };
        // Two names differ in their length or in one of the letters named here.
        reveal_strlit("type");
        reveal_strlit("state");
        assert("type"@.len() == 4);
        assert("state"@.len() == 5);
        let fields = Seq::empty()
            .push(("type"@, usize::spec_encode(value.pump_type)))
            .push(("state"@, usize::spec_encode(value.state)));
        let members = fields + value.extra;
        assert(spec_undeclared::<FilterPump>(fields).len() == 0);
        lemma_undeclared_close::<FilterPump>(fields, value.extra);
        assert(spec_open::<FilterPump>(FilterPump::spec_encode(value), mode) == Ok::<Members, DecodeErrorView>(members));
        assert(spec_field::<usize>(members, "type"@, mode) == Ok::<usize, DecodeErrorView>(value.pump_type));
        assert(spec_field::<usize>(members, "state"@, mode) == Ok::<usize, DecodeErrorView>(value.state));
    }
}

/// An auxiliary output of a chlorinator, such as a light.
#[derive(Debug, PartialEq, Eq)]
pub struct Auxiliary {
    pub aux_type: String,
    pub color: Color,
    pub mode: usize,
    pub state: usize,
    /// Members that the record does not declare.
    pub extra: Vec<(String, Json)>,
}

/// Mathematical model of a [`Auxiliary`].
pub struct AuxiliaryView {
    pub aux_type: Seq<char>,
    pub color: Color,
    pub mode: usize,
    pub state: usize,
    pub extra: Members,
}

impl DeepView for Auxiliary {
    type V = AuxiliaryView;

    open spec fn deep_view(&self) -> AuxiliaryView {
        AuxiliaryView {
            aux_type: self.aux_type@,
            color: self.color,
            mode: self.mode,
            state: self.state,
            extra: self.extra.deep_view(),
        }
    }
}

impl Record for Auxiliary {
    open spec fn spec_declares(name: Seq<char>) -> bool {
        ||| name == "type"@
        ||| name == "color"@
        ||| name == "mode"@
        ||| name == "state"@
    }

    fn declares(name: &str) -> (r: bool) {
        same_text(name, "type") || same_text(name, "color") || same_text(name, "mode")
            || same_text(name, "state")
    }
}

impl Auxiliary {
    /// What a document is read as.
    #[verifier::opaque]
    pub open spec fn spec_read(doc: JsonValue, mode: Strictness) -> Result<AuxiliaryView, DecodeErrorView> {
        match spec_open::<Auxiliary>(doc, mode) { Err(e) => Err(e), Ok(members) =>
        match spec_field::<String>(members, "type"@, mode) { Err(e) => Err(e), Ok(aux_type) =>
        match spec_field::<Color>(members, "color"@, mode) { Err(e) => Err(e), Ok(color) =>
        match spec_field::<usize>(members, "mode"@, mode) { Err(e) => Err(e), Ok(mode_value) =>
        match spec_field::<usize>(members, "state"@, mode) { Err(e) => Err(e), Ok(state) =>
            Ok(AuxiliaryView {
                aux_type,
                color,
                mode: mode_value,
                state,
                extra: spec_undeclared::<Auxiliary>(members),
            })
        }}}}}
    }

    /// The document that a value is written as.
    #[verifier::opaque]
    pub open spec fn spec_write(value: AuxiliaryView) -> JsonValue {
        spec_close(
            Seq::empty()
                .push(("type"@, String::spec_encode(value.aux_type)))
                .push(("color"@, Color::spec_encode(value.color)))
                .push(("mode"@, usize::spec_encode(value.mode)))
                .push(("state"@, usize::spec_encode(value.state))),
            value.extra,
        )
    }
}

impl Decode for Auxiliary {
    open spec fn spec_decode(doc: JsonValue, mode: Strictness) -> Result<AuxiliaryView, DecodeErrorView> {
        Auxiliary::spec_read(doc, mode)
    }

    open spec fn spec_absent() -> Option<AuxiliaryView> {
        None
    }

    fn decode(doc: &Json, mode: Strictness) -> (r: Result<Auxiliary, DecodeError>) {
        reveal(Auxiliary::spec_read);
        let members = open::<Auxiliary>(doc, mode)?;
        let aux_type = field::<String>(members, "type", mode)?;
        let color = field::<Color>(members, "color", mode)?;
        let mode_value = field::<usize>(members, "mode", mode)?;
        let state = field::<usize>(members, "state", mode)?;
        let extra = undeclared::<Auxiliary>(members);
        Ok(Auxiliary { aux_type, color, mode: mode_value, state, extra })
    }

    fn absent() -> (r: Option<Auxiliary>) {
        None
    }
}

impl Encode for Auxiliary {
    open spec fn spec_encode(value: AuxiliaryView) -> JsonValue {
        Auxiliary::spec_write(value)
    }

    open spec fn faithful(value: AuxiliaryView, mode: Strictness) -> bool {
        carried::<Auxiliary>(value.extra, mode)
    }

    fn encode(&self) -> (r: Json) {
        reveal(Auxiliary::spec_write);
        let mut fields = start();
        put(&mut fields, "type", self.aux_type.encode());
        put(&mut fields, "color", self.color.encode());
        put(&mut fields, "mode", self.mode.encode());
        put(&mut fields, "state", self.state.encode());
        close(fields, &self.extra)
    }

    proof fn round_trip(value: AuxiliaryView, mode: Strictness) {
        reveal(Auxiliary::spec_read);
        reveal(Auxiliary::spec_write);
        broadcast use {
            lemma_lookup_empty,
            lemma_lookup_push,
            lemma_lookup_add,
            lemma_undeclared_empty,
            lemma_undeclared_push,
        };
        // Two names differ in their length or in one of the letters named here.
        reveal_strlit("type");
        reveal_strlit("color");
        reveal_strlit("mode");
        reveal_strlit("state");
        assert("type"@.len() == 4 && "type"@[0] == 't');
        assert("color"@.len() == 5 && "color"@[0] == 'c');
        assert("mode"@.len() == 4 && "mode"@[0] == 'm');
        assert("state"@.len() == 5 && "state"@[0] == 's');
        Color::round_trip(value.color, mode);
        let fields = Seq::empty()
            .push(("type"@, String::spec_encode(value.aux_type)))
            .push(("color"@, Color::spec_encode(value.color)))
            .push(("mode"@, usize::spec_encode(value.mode)))
            .push(("state"@, usize::spec_encode(value.state)));
        let members = fields + value.extra;
        assert(spec_undeclared::<Auxiliary>(fields).len() == 0);
        lemma_undeclared_close::<Auxiliary>(fields, value.extra);
        assert(spec_open::<Auxiliary>(Auxiliary::spec_encode(value), mode) == Ok::<Members, DecodeErrorView>(members));
        assert(spec_field::<String>(members, "type"@, mode) == Ok::<Seq<char>, DecodeErrorView>(value.aux_type));
        assert(spec_field::<Color>(members, "color"@, mode) == Ok::<Color, DecodeErrorView>(value.color));
        assert(spec_field::<usize>(members, "mode"@, mode) == Ok::<usize, DecodeErrorView>(value.mode));
        assert(spec_field::<usize>(members, "state"@, mode) == Ok::<usize, DecodeErrorView>(value.state));
    }
}

/// The speed range of a variable-speed pump.
#[derive(Debug, PartialEq, Eq)]
pub struct VspSpeed {
    pub min: usize,
    pub max: usize,
    /// Members that the record does not declare.
    pub extra: Vec<(String, Json)>,
}

/// Mathematical model of a [`VspSpeed`].
pub struct VspSpeedView {
    pub min: usize,
    pub max: usize,
    pub extra: Members,
}

impl DeepView for VspSpeed {
    type V = VspSpeedView;

    open spec fn deep_view(&self) -> VspSpeedView {
        VspSpeedView {
            min: self.min,
            max: self.max,
            extra: self.extra.deep_view(),
        }
    }
}

impl Record for VspSpeed {
    open spec fn spec_declares(name: Seq<char>) -> bool {
        ||| name == "min"@
        ||| name == "max"@
    }

    fn declares(name: &str) -> (r: bool) {
        same_text(name, "min") || same_text(name, "max")
    }
}

impl VspSpeed {
    /// What a document is read as.
    #[verifier::opaque]
    pub open spec fn spec_read(doc: JsonValue, mode: Strictness) -> Result<VspSpeedView, DecodeErrorView> {
        match spec_open::<VspSpeed>(doc, mode) { Err(e) => Err(e), Ok(members) =>
        match spec_field::<usize>(members, "min"@, mode) { Err(e) => Err(e), Ok(min) =>
        match spec_field::<usize>(members, "max"@, mode) { Err(e) => Err(e), Ok(max) =>
            Ok(VspSpeedView {
                min,
                max,
                extra: spec_undeclared::<VspSpeed>(members),
            })
        }}}
    }

    /// The document that a value is written as.
    #[verifier::opaque]
    pub open spec fn spec_write(value: VspSpeedView) -> JsonValue {
        spec_close(
            Seq::empty()
                .push(("min"@, usize::spec_encode(value.min)))
                .push(("max"@, usize::spec_encode(value.max))),
            value.extra,
        )
    }
}

impl Decode for VspSpeed {
    open spec fn spec_decode(doc: JsonValue, mode: Strictness) -> Result<VspSpeedView, DecodeErrorView> {
        VspSpeed::spec_read(doc, mode)
    }

    open spec fn spec_absent() -> Option<VspSpeedView> {
        None
    }

    fn decode(doc: &Json, mode: Strictness) -> (r: Result<VspSpeed, DecodeError>) {
        reveal(VspSpeed::spec_read);
        let members = open::<VspSpeed>(doc, mode)?;
        let min = field::<usize>(members, "min", mode)?;
        let max = field::<usize>(members, "max", mode)?;
        let extra = undeclared::<VspSpeed>(members);
        Ok(VspSpeed { min, max, extra })
    }

    fn absent() -> (r: Option<VspSpeed>) {
        None
    }
}

impl Encode for VspSpeed {
    open spec fn spec_encode(value: VspSpeedView) -> JsonValue {
        VspSpeed::spec_write(value)
    }

    open spec fn faithful(value: VspSpeedView, mode: Strictness) -> bool {
        carried::<VspSpeed>(value.extra, mode)
    }

    fn encode(&self) -> (r: Json) {
        reveal(VspSpeed::spec_write);
        let mut fields = start();
        put(&mut fields, "min", self.min.encode());
        put(&mut fields, "max", self.max.encode());
        close(fields, &self.extra)
    }

    proof fn round_trip(value: VspSpeedView, mode: Strictness) {
        reveal(VspSpeed::spec_read);
        reveal(VspSpeed::spec_write);
        broadcast use {
            lemma_lookup_empty,
            lemma_lookup_push,
            lemma_lookup_add,
            lemma_undeclared_empty,
            lemma_undeclared_push,
        };
        // Two names differ in their length or in one of the letters named here.
        reveal_strlit("min");
        reveal_strlit("max");
        assert("min"@.len() == 3 && "min"@[1] == 'i');
        assert("max"@.len() == 3 && "max"@[1] == 'a');
        let fields = Seq::empty()
            .push(("min"@, usize::spec_encode(value.min)))
            .push(("max"@, usize::spec_encode(value.max)));
        let members = fields + value.extra;
        assert(spec_undeclared::<VspSpeed>(fields).len() == 0);
        lemma_undeclared_close::<VspSpeed>(fields, value.extra);
        assert(spec_open::<VspSpeed>(VspSpeed::spec_encode(value), mode) == Ok::<Members, DecodeErrorView>(members));
        assert(spec_field::<usize>(members, "min"@, mode) == Ok::<usize, DecodeErrorView>(value.min));
        assert(spec_field::<usize>(members, "max"@, mode) == Ok::<usize, DecodeErrorView>(value.max));
    }
}

/// State of a salt water chlorinator: its readings, setpoints, firmware and outputs.
#[derive(Debug, PartialEq, Eq)]
pub struct SaltWaterChlorinator {
    pub amp: usize,
    pub temp: usize,
    pub vr: String,
    pub sns_3: Sensor,
    pub orp_sp: usize,
    pub production: usize,
    pub boost: usize,
    pub ph_sp: usize,
    pub swc: usize,
    pub version: String,
    pub sns_2: Sensor,
    pub low: usize,
    pub vsp: usize,
    pub lang: usize,
    pub ph_only: usize,
    pub sns_1: Sensor,
    pub aux_1: Auxiliary,
    pub swc_low: usize,
    pub dual_link: usize,
    pub vsp_speed: VspSpeed,
    pub exo_state: usize,
    pub aux_2: Auxiliary,
    pub boost_time: String,
    pub error_code: usize,
    pub aux230: usize,
    pub error_state: usize,
    pub sn: String,
    pub filter_pump: FilterPump,
    /// Members that the record does not declare.
    pub extra: Vec<(String, Json)>,
}

/// Mathematical model of a [`SaltWaterChlorinator`].
pub struct SaltWaterChlorinatorView {
    pub amp: usize,
    pub temp: usize,
    pub vr: Seq<char>,
    pub sns_3: SensorView,
    pub orp_sp: usize,
    pub production: usize,
    pub boost: usize,
    pub ph_sp: usize,
    pub swc: usize,
    pub version: Seq<char>,
    pub sns_2: SensorView,
    pub low: usize,
    pub vsp: usize,
    pub lang: usize,
    pub ph_only: usize,
    pub sns_1: SensorView,
    pub aux_1: AuxiliaryView,
    pub swc_low: usize,
    pub dual_link: usize,
    pub vsp_speed: VspSpeedView,
    pub exo_state: usize,
    pub aux_2: AuxiliaryView,
    pub boost_time: Seq<char>,
    pub error_code: usize,
    pub aux230: usize,
    pub error_state: usize,
    pub sn: Seq<char>,
    pub filter_pump: FilterPumpView,
    pub extra: Members,
}

impl DeepView for SaltWaterChlorinator {
    type V = SaltWaterChlorinatorView;

    open spec fn deep_view(&self) -> SaltWaterChlorinatorView {
        SaltWaterChlorinatorView {
            amp: self.amp,
            temp: self.temp,
            vr: self.vr@,
            sns_3: self.sns_3.deep_view(),
            orp_sp: self.orp_sp,
            production: self.production,
            boost: self.boost,
            ph_sp: self.ph_sp,
            swc: self.swc,
            version: self.version@,
            sns_2: self.sns_2.deep_view(),
            low: self.low,
            vsp: self.vsp,
            lang: self.lang,
            ph_only: self.ph_only,
            sns_1: self.sns_1.deep_view(),
            aux_1: self.aux_1.deep_view(),
            swc_low: self.swc_low,
            dual_link: self.dual_link,
            vsp_speed: self.vsp_speed.deep_view(),
            exo_state: self.exo_state,
            aux_2: self.aux_2.deep_view(),
            boost_time: self.boost_time@,
            error_code: self.error_code,
            aux230: self.aux230,
            error_state: self.error_state,
            sn: self.sn@,
            filter_pump: self.filter_pump.deep_view(),
            extra: self.extra.deep_view(),
        }
    }
}

impl Record for SaltWaterChlorinator {
    open spec fn spec_declares(name: Seq<char>) -> bool {
        ||| name == "amp"@
        ||| name == "temp"@
        ||| name == "vr"@
        ||| name == "sns_3"@
        ||| name == "orp_sp"@
        ||| name == "production"@
        ||| name == "boost"@
        ||| name == "ph_sp"@
        ||| name == "swc"@
        ||| name == "version"@
        ||| name == "sns_2"@
        ||| name == "low"@
        ||| name == "vsp"@
        ||| name == "lang"@
        ||| name == "ph_only"@
        ||| name == "sns_1"@
        ||| name == "aux_1"@
        ||| name == "swc_low"@
        ||| name == "dual_link"@
        ||| name == "vsp_speed"@
        ||| name == "exo_state"@
        ||| name == "aux_2"@
        ||| name == "boost_time"@
        ||| name == "error_code"@
        ||| name == "aux230"@
        ||| name == "error_state"@
        ||| name == "sn"@
        ||| name == "filter_pump"@
    }

    fn declares(name: &str) -> (r: bool) {
        same_text(name, "amp") || same_text(name, "temp") || same_text(name, "vr")
            || same_text(name, "sns_3") || same_text(name, "orp_sp")
            || same_text(name, "production") || same_text(name, "boost")
            || same_text(name, "ph_sp") || same_text(name, "swc") || same_text(name, "version")
            || same_text(name, "sns_2") || same_text(name, "low") || same_text(name, "vsp")
            || same_text(name, "lang") || same_text(name, "ph_only") || same_text(name, "sns_1")
            || same_text(name, "aux_1") || same_text(name, "swc_low")
            || same_text(name, "dual_link") || same_text(name, "vsp_speed")
            || same_text(name, "exo_state") || same_text(name, "aux_2")
            || same_text(name, "boost_time") || same_text(name, "error_code")
            || same_text(name, "aux230") || same_text(name, "error_state") || same_text(name, "sn")
            || same_text(name, "filter_pump")
    }
}

impl SaltWaterChlorinator {
    /// What a document is read as.
    #[verifier::opaque]
    pub open spec fn spec_read(doc: JsonValue, mode: Strictness) -> Result<SaltWaterChlorinatorView, DecodeErrorView> {
        match spec_open::<SaltWaterChlorinator>(doc, mode) { Err(e) => Err(e), Ok(members) =>
        match spec_field::<usize>(members, "amp"@, mode) { Err(e) => Err(e), Ok(amp) =>
        match spec_field::<usize>(members, "temp"@, mode) { Err(e) => Err(e), Ok(temp) =>
        match spec_field::<String>(members, "vr"@, mode) { Err(e) => Err(e), Ok(vr) =>
        match spec_field::<Sensor>(members, "sns_3"@, mode) { Err(e) => Err(e), Ok(sns_3) =>
        match spec_field::<usize>(members, "orp_sp"@, mode) { Err(e) => Err(e), Ok(orp_sp) =>
        match spec_field::<usize>(members, "production"@, mode) { Err(e) => Err(e), Ok(production) =>
        match spec_field::<usize>(members, "boost"@, mode) { Err(e) => Err(e), Ok(boost) =>
        match spec_field::<usize>(members, "ph_sp"@, mode) { Err(e) => Err(e), Ok(ph_sp) =>
        match spec_field::<usize>(members, "swc"@, mode) { Err(e) => Err(e), Ok(swc) =>
        match spec_field::<String>(members, "version"@, mode) { Err(e) => Err(e), Ok(version) =>
        match spec_field::<Sensor>(members, "sns_2"@, mode) { Err(e) => Err(e), Ok(sns_2) =>
        match spec_field::<usize>(members, "low"@, mode) { Err(e) => Err(e), Ok(low) =>
        match spec_field::<usize>(members, "vsp"@, mode) { Err(e) => Err(e), Ok(vsp) =>
        match spec_field::<usize>(members, "lang"@, mode) { Err(e) => Err(e), Ok(lang) =>
        match spec_field::<usize>(members, "ph_only"@, mode) { Err(e) => Err(e), Ok(ph_only) =>
        match spec_field::<Sensor>(members, "sns_1"@, mode) { Err(e) => Err(e), Ok(sns_1) =>
        match spec_field::<Auxiliary>(members, "aux_1"@, mode) { Err(e) => Err(e), Ok(aux_1) =>
        match spec_field::<usize>(members, "swc_low"@, mode) { Err(e) => Err(e), Ok(swc_low) =>
        match spec_field::<usize>(members, "dual_link"@, mode) { Err(e) => Err(e), Ok(dual_link) =>
        match spec_field::<VspSpeed>(members, "vsp_speed"@, mode) { Err(e) => Err(e), Ok(vsp_speed) =>
        match spec_field::<usize>(members, "exo_state"@, mode) { Err(e) => Err(e), Ok(exo_state) =>
        match spec_field::<Auxiliary>(members, "aux_2"@, mode) { Err(e) => Err(e), Ok(aux_2) =>
        match spec_field::<String>(members, "boost_time"@, mode) { Err(e) => Err(e), Ok(boost_time) =>
        match spec_field::<usize>(members, "error_code"@, mode) { Err(e) => Err(e), Ok(error_code) =>
        match spec_field::<usize>(members, "aux230"@, mode) { Err(e) => Err(e), Ok(aux230) =>
        match spec_field::<usize>(members, "error_state"@, mode) { Err(e) => Err(e), Ok(error_state) =>
        match spec_field::<String>(members, "sn"@, mode) { Err(e) => Err(e), Ok(sn) =>
        match spec_field::<FilterPump>(members, "filter_pump"@, mode) { Err(e) => Err(e), Ok(filter_pump) =>
            Ok(SaltWaterChlorinatorView {
                amp,
                temp,
                vr,
                sns_3,
                orp_sp,
                production,
                boost,
                ph_sp,
                swc,
                version,
                sns_2,
                low,
                vsp,
                lang,
                ph_only,
                sns_1,
                aux_1,
                swc_low,
                dual_link,
                vsp_speed,
                exo_state,
                aux_2,
                boost_time,
                error_code,
                aux230,
                error_state,
                sn,
                filter_pump,
                extra: spec_undeclared::<SaltWaterChlorinator>(members),
            })
        }}}}}}}}}}}}}}}}}}}}}}}}}}}}}
    }

    /// The document that a value is written as.
    #[verifier::opaque]
    pub open spec fn spec_write(value: SaltWaterChlorinatorView) -> JsonValue {
        spec_close(
            Seq::empty()
                .push(("amp"@, usize::spec_encode(value.amp)))
                .push(("temp"@, usize::spec_encode(value.temp)))
                .push(("vr"@, String::spec_encode(value.vr)))
                .push(("sns_3"@, Sensor::spec_encode(value.sns_3)))
                .push(("orp_sp"@, usize::spec_encode(value.orp_sp)))
                .push(("production"@, usize::spec_encode(value.production)))
                .push(("boost"@, usize::spec_encode(value.boost)))
                .push(("ph_sp"@, usize::spec_encode(value.ph_sp)))
                .push(("swc"@, usize::spec_encode(value.swc)))
                .push(("version"@, String::spec_encode(value.version)))
                .push(("sns_2"@, Sensor::spec_encode(value.sns_2)))
                .push(("low"@, usize::spec_encode(value.low)))
                .push(("vsp"@, usize::spec_encode(value.vsp)))
                .push(("lang"@, usize::spec_encode(value.lang)))
                .push(("ph_only"@, usize::spec_encode(value.ph_only)))
                .push(("sns_1"@, Sensor::spec_encode(value.sns_1)))
                .push(("aux_1"@, Auxiliary::spec_encode(value.aux_1)))
                .push(("swc_low"@, usize::spec_encode(value.swc_low)))
                .push(("dual_link"@, usize::spec_encode(value.dual_link)))
                .push(("vsp_speed"@, VspSpeed::spec_encode(value.vsp_speed)))
                .push(("exo_state"@, usize::spec_encode(value.exo_state)))
                .push(("aux_2"@, Auxiliary::spec_encode(value.aux_2)))
                .push(("boost_time"@, String::spec_encode(value.boost_time)))
                .push(("error_code"@, usize::spec_encode(value.error_code)))
                .push(("aux230"@, usize::spec_encode(value.aux230)))
                .push(("error_state"@, usize::spec_encode(value.error_state)))
                .push(("sn"@, String::spec_encode(value.sn)))
                .push(("filter_pump"@, FilterPump::spec_encode(value.filter_pump))),
            value.extra,
        )
    }
}

impl Decode for SaltWaterChlorinator {
    open spec fn spec_decode(doc: JsonValue, mode: Strictness) -> Result<SaltWaterChlorinatorView, DecodeErrorView> {
        SaltWaterChlorinator::spec_read(doc, mode)
    }

    open spec fn spec_absent() -> Option<SaltWaterChlorinatorView> {
        None
    }

    fn decode(doc: &Json, mode: Strictness) -> (r: Result<SaltWaterChlorinator, DecodeError>) {
        reveal(SaltWaterChlorinator::spec_read);
        let members = open::<SaltWaterChlorinator>(doc, mode)?;
        let amp = field::<usize>(members, "amp", mode)?;
        let temp = field::<usize>(members, "temp", mode)?;
        let vr = field::<String>(members, "vr", mode)?;
        let sns_3 = field::<Sensor>(members, "sns_3", mode)?;
        let orp_sp = field::<usize>(members, "orp_sp", mode)?;
        let production = field::<usize>(members, "production", mode)?;
        let boost = field::<usize>(members, "boost", mode)?;
        let ph_sp = field::<usize>(members, "ph_sp", mode)?;
        let swc = field::<usize>(members, "swc", mode)?;
        let version = field::<String>(members, "version", mode)?;
        let sns_2 = field::<Sensor>(members, "sns_2", mode)?;
        let low = field::<usize>(members, "low", mode)?;
        let vsp = field::<usize>(members, "vsp", mode)?;
        let lang = field::<usize>(members, "lang", mode)?;
        let ph_only = field::<usize>(members, "ph_only", mode)?;
        let sns_1 = field::<Sensor>(members, "sns_1", mode)?;
        let aux_1 = field::<Auxiliary>(members, "aux_1", mode)?;
        let swc_low = field::<usize>(members, "swc_low", mode)?;
        let dual_link = field::<usize>(members, "dual_link", mode)?;
        let vsp_speed = field::<VspSpeed>(members, "vsp_speed", mode)?;
        let exo_state = field::<usize>(members, "exo_state", mode)?;
        let aux_2 = field::<Auxiliary>(members, "aux_2", mode)?;
        let boost_time = field::<String>(members, "boost_time", mode)?;
        let error_code = field::<usize>(members, "error_code", mode)?;
        let aux230 = field::<usize>(members, "aux230", mode)?;
        let error_state = field::<usize>(members, "error_state", mode)?;
        let sn = field::<String>(members, "sn", mode)?;
        let filter_pump = field::<FilterPump>(members, "filter_pump", mode)?;
        let extra = undeclared::<SaltWaterChlorinator>(members);
        Ok(SaltWaterChlorinator {
            amp,
            temp,
            vr,
            sns_3,
            orp_sp,
            production,
            boost,
            ph_sp,
            swc,
            version,
            sns_2,
            low,
            vsp,
            lang,
            ph_only,
            sns_1,
            aux_1,
            swc_low,
            dual_link,
            vsp_speed,
            exo_state,
            aux_2,
            boost_time,
            error_code,
            aux230,
            error_state,
            sn,
            filter_pump,
            extra,
        })
    }

    fn absent() -> (r: Option<SaltWaterChlorinator>) {
        None
    }
}

impl Encode for SaltWaterChlorinator {
    open spec fn spec_encode(value: SaltWaterChlorinatorView) -> JsonValue {
        SaltWaterChlorinator::spec_write(value)
    }

    open spec fn faithful(value: SaltWaterChlorinatorView, mode: Strictness) -> bool {
        &&& Sensor::faithful(value.sns_3, mode)
        &&& Sensor::faithful(value.sns_2, mode)
        &&& Sensor::faithful(value.sns_1, mode)
        &&& Auxiliary::faithful(value.aux_1, mode)
        &&& VspSpeed::faithful(value.vsp_speed, mode)
        &&& Auxiliary::faithful(value.aux_2, mode)
        &&& FilterPump::faithful(value.filter_pump, mode)
        &&& carried::<SaltWaterChlorinator>(value.extra, mode)
    }

    fn encode(&self) -> (r: Json) {
        reveal(SaltWaterChlorinator::spec_write);
        let mut fields = start();
        put(&mut fields, "amp", self.amp.encode());
        put(&mut fields, "temp", self.temp.encode());
        put(&mut fields, "vr", self.vr.encode());
        put(&mut fields, "sns_3", self.sns_3.encode());
        put(&mut fields, "orp_sp", self.orp_sp.encode());
        put(&mut fields, "production", self.production.encode());
        put(&mut fields, "boost", self.boost.encode());
        put(&mut fields, "ph_sp", self.ph_sp.encode());
        put(&mut fields, "swc", self.swc.encode());
        put(&mut fields, "version", self.version.encode());
        put(&mut fields, "sns_2", self.sns_2.encode());
        put(&mut fields, "low", self.low.encode());
        put(&mut fields, "vsp", self.vsp.encode());
        put(&mut fields, "lang", self.lang.encode());
        put(&mut fields, "ph_only", self.ph_only.encode());
        put(&mut fields, "sns_1", self.sns_1.encode());
        put(&mut fields, "aux_1", self.aux_1.encode());
        put(&mut fields, "swc_low", self.swc_low.encode());
        put(&mut fields, "dual_link", self.dual_link.encode());
        put(&mut fields, "vsp_speed", self.vsp_speed.encode());
        put(&mut fields, "exo_state", self.exo_state.encode());
        put(&mut fields, "aux_2", self.aux_2.encode());
        put(&mut fields, "boost_time", self.boost_time.encode());
        put(&mut fields, "error_code", self.error_code.encode());
        put(&mut fields, "aux230", self.aux230.encode());
        put(&mut fields, "error_state", self.error_state.encode());
        put(&mut fields, "sn", self.sn.encode());
        put(&mut fields, "filter_pump", self.filter_pump.encode());
        close(fields, &self.extra)
    }

    proof fn round_trip(value: SaltWaterChlorinatorView, mode: Strictness) {
        reveal(SaltWaterChlorinator::spec_read);
        lemma_salt_water_chlorinator_fields(value, mode);
    }
}

/// What each key of an encoded [`SaltWaterChlorinator`] reads back.
#[verifier::rlimit(40)]
proof fn lemma_salt_water_chlorinator_fields(value: SaltWaterChlorinatorView, mode: Strictness)
    requires
        SaltWaterChlorinator::faithful(value, mode),
    ensures
        spec_open::<SaltWaterChlorinator>(SaltWaterChlorinator::spec_encode(value), mode) matches Ok(members) && {
            &&& spec_undeclared::<SaltWaterChlorinator>(members) == value.extra
            &&& spec_field::<usize>(members, "amp"@, mode) == Ok::<usize, DecodeErrorView>(value.amp)
            &&& spec_field::<usize>(members, "temp"@, mode) == Ok::<usize, DecodeErrorView>(value.temp)
            &&& spec_field::<String>(members, "vr"@, mode) == Ok::<Seq<char>, DecodeErrorView>(value.vr)
            &&& spec_field::<Sensor>(members, "sns_3"@, mode) == Ok::<SensorView, DecodeErrorView>(value.sns_3)
            &&& spec_field::<usize>(members, "orp_sp"@, mode) == Ok::<usize, DecodeErrorView>(value.orp_sp)
            &&& spec_field::<usize>(members, "production"@, mode) == Ok::<usize, DecodeErrorView>(value.production)
            &&& spec_field::<usize>(members, "boost"@, mode) == Ok::<usize, DecodeErrorView>(value.boost)
            &&& spec_field::<usize>(members, "ph_sp"@, mode) == Ok::<usize, DecodeErrorView>(value.ph_sp)
            &&& spec_field::<usize>(members, "swc"@, mode) == Ok::<usize, DecodeErrorView>(value.swc)
            &&& spec_field::<String>(members, "version"@, mode) == Ok::<Seq<char>, DecodeErrorView>(value.version)
            &&& spec_field::<Sensor>(members, "sns_2"@, mode) == Ok::<SensorView, DecodeErrorView>(value.sns_2)
            &&& spec_field::<usize>(members, "low"@, mode) == Ok::<usize, DecodeErrorView>(value.low)
            &&& spec_field::<usize>(members, "vsp"@, mode) == Ok::<usize, DecodeErrorView>(value.vsp)
            &&& spec_field::<usize>(members, "lang"@, mode) == Ok::<usize, DecodeErrorView>(value.lang)
            &&& spec_field::<usize>(members, "ph_only"@, mode) == Ok::<usize, DecodeErrorView>(value.ph_only)
            &&& spec_field::<Sensor>(members, "sns_1"@, mode) == Ok::<SensorView, DecodeErrorView>(value.sns_1)
            &&& spec_field::<Auxiliary>(members, "aux_1"@, mode) == Ok::<AuxiliaryView, DecodeErrorView>(value.aux_1)
            &&& spec_field::<usize>(members, "swc_low"@, mode) == Ok::<usize, DecodeErrorView>(value.swc_low)
            &&& spec_field::<usize>(members, "dual_link"@, mode) == Ok::<usize, DecodeErrorView>(value.dual_link)
            &&& spec_field::<VspSpeed>(members, "vsp_speed"@, mode) == Ok::<VspSpeedView, DecodeErrorView>(value.vsp_speed)
            &&& spec_field::<usize>(members, "exo_state"@, mode) == Ok::<usize, DecodeErrorView>(value.exo_state)
            &&& spec_field::<Auxiliary>(members, "aux_2"@, mode) == Ok::<AuxiliaryView, DecodeErrorView>(value.aux_2)
            &&& spec_field::<String>(members, "boost_time"@, mode) == Ok::<Seq<char>, DecodeErrorView>(value.boost_time)
            &&& spec_field::<usize>(members, "error_code"@, mode) == Ok::<usize, DecodeErrorView>(value.error_code)
            &&& spec_field::<usize>(members, "aux230"@, mode) == Ok::<usize, DecodeErrorView>(value.aux230)
            &&& spec_field::<usize>(members, "error_state"@, mode) == Ok::<usize, DecodeErrorView>(value.error_state)
            &&& spec_field::<String>(members, "sn"@, mode) == Ok::<Seq<char>, DecodeErrorView>(value.sn)
            &&& spec_field::<FilterPump>(members, "filter_pump"@, mode) == Ok::<FilterPumpView, DecodeErrorView>(value.filter_pump)
        },
{
    reveal(SaltWaterChlorinator::spec_write);
    broadcast use {
        lemma_lookup_empty,
        lemma_lookup_push,
        lemma_lookup_add,
        lemma_undeclared_empty,
        lemma_undeclared_push,
    };
    // Two names differ in their length or in one of the letters named here.
    reveal_strlit("amp");
    reveal_strlit("temp");
    reveal_strlit("vr");
    reveal_strlit("sns_3");
    reveal_strlit("orp_sp");
    reveal_strlit("production");
    reveal_strlit("boost");
    reveal_strlit("ph_sp");
    reveal_strlit("swc");
    reveal_strlit("version");
    reveal_strlit("sns_2");
    reveal_strlit("low");
    reveal_strlit("vsp");
    reveal_strlit("lang");
    reveal_strlit("ph_only");
    reveal_strlit("sns_1");
    reveal_strlit("aux_1");
    reveal_strlit("swc_low");
    reveal_strlit("dual_link");
    reveal_strlit("vsp_speed");
    reveal_strlit("exo_state");
    reveal_strlit("aux_2");
    reveal_strlit("boost_time");
    reveal_strlit("error_code");
    reveal_strlit("aux230");
    reveal_strlit("error_state");
    reveal_strlit("sn");
    reveal_strlit("filter_pump");
    assert("amp"@.len() == 3 && "amp"@[0] == 'a');
    assert("temp"@.len() == 4 && "temp"@[0] == 't');
    assert("vr"@.len() == 2 && "vr"@[0] == 'v');
    assert("sns_3"@.len() == 5 && "sns_3"@[0] == 's' && "sns_3"@[4] == '3');
    assert("orp_sp"@.len() == 6 && "orp_sp"@[0] == 'o');
    assert("production"@.len() == 10 && "production"@[0] == 'p');
    assert("boost"@.len() == 5 && "boost"@[0] == 'b' && "boost"@[4] == 't');
    assert("ph_sp"@.len() == 5 && "ph_sp"@[0] == 'p' && "ph_sp"@[4] == 'p');
    assert("swc"@.len() == 3 && "swc"@[0] == 's');
    assert("version"@.len() == 7 && "version"@[0] == 'v');
    assert("sns_2"@.len() == 5 && "sns_2"@[0] == 's' && "sns_2"@[4] == '2');
    assert("low"@.len() == 3 && "low"@[0] == 'l');
    assert("vsp"@.len() == 3 && "vsp"@[0] == 'v');
    assert("lang"@.len() == 4 && "lang"@[0] == 'l');
    assert("ph_only"@.len() == 7 && "ph_only"@[0] == 'p');
    assert("sns_1"@.len() == 5 && "sns_1"@[0] == 's' && "sns_1"@[4] == '1');
    assert("aux_1"@.len() == 5 && "aux_1"@[0] == 'a' && "aux_1"@[4] == '1');
    assert("swc_low"@.len() == 7 && "swc_low"@[0] == 's');
    assert("dual_link"@.len() == 9 && "dual_link"@[0] == 'd');
    assert("vsp_speed"@.len() == 9 && "vsp_speed"@[0] == 'v');
    assert("exo_state"@.len() == 9 && "exo_state"@[0] == 'e');
    assert("aux_2"@.len() == 5 && "aux_2"@[0] == 'a' && "aux_2"@[4] == '2');
    assert("boost_time"@.len() == 10 && "boost_time"@[0] == 'b');
    assert("error_code"@.len() == 10 && "error_code"@[0] == 'e');
    assert("aux230"@.len() == 6 && "aux230"@[0] == 'a');
    assert("error_state"@.len() == 11 && "error_state"@[0] == 'e');
    assert("sn"@.len() == 2 && "sn"@[0] == 's');
    assert("filter_pump"@.len() == 11 && "filter_pump"@[0] == 'f');
    Sensor::round_trip(value.sns_3, mode);
    Sensor::round_trip(value.sns_2, mode);
    Sensor::round_trip(value.sns_1, mode);
    Auxiliary::round_trip(value.aux_1, mode);
    VspSpeed::round_trip(value.vsp_speed, mode);
    Auxiliary::round_trip(value.aux_2, mode);
    FilterPump::round_trip(value.filter_pump, mode);
    let fields = Seq::empty()
        .push(("amp"@, usize::spec_encode(value.amp)))
        .push(("temp"@, usize::spec_encode(value.temp)))
        .push(("vr"@, String::spec_encode(value.vr)))
        .push(("sns_3"@, Sensor::spec_encode(value.sns_3)))
        .push(("orp_sp"@, usize::spec_encode(value.orp_sp)))
        .push(("production"@, usize::spec_encode(value.production)))
        .push(("boost"@, usize::spec_encode(value.boost)))
        .push(("ph_sp"@, usize::spec_encode(value.ph_sp)))
        .push(("swc"@, usize::spec_encode(value.swc)))
        .push(("version"@, String::spec_encode(value.version)))
        .push(("sns_2"@, Sensor::spec_encode(value.sns_2)))
        .push(("low"@, usize::spec_encode(value.low)))
        .push(("vsp"@, usize::spec_encode(value.vsp)))
        .push(("lang"@, usize::spec_encode(value.lang)))
        .push(("ph_only"@, usize::spec_encode(value.ph_only)))
        .push(("sns_1"@, Sensor::spec_encode(value.sns_1)))
        .push(("aux_1"@, Auxiliary::spec_encode(value.aux_1)))
        .push(("swc_low"@, usize::spec_encode(value.swc_low)))
        .push(("dual_link"@, usize::spec_encode(value.dual_link)))
        .push(("vsp_speed"@, VspSpeed::spec_encode(value.vsp_speed)))
        .push(("exo_state"@, usize::spec_encode(value.exo_state)))
        .push(("aux_2"@, Auxiliary::spec_encode(value.aux_2)))
        .push(("boost_time"@, String::spec_encode(value.boost_time)))
        .push(("error_code"@, usize::spec_encode(value.error_code)))
        .push(("aux230"@, usize::spec_encode(value.aux230)))
        .push(("error_state"@, usize::spec_encode(value.error_state)))
        .push(("sn"@, String::spec_encode(value.sn)))
        .push(("filter_pump"@, FilterPump::spec_encode(value.filter_pump)));
    let members = fields + value.extra;
    assert(spec_undeclared::<SaltWaterChlorinator>(fields).len() == 0);
    lemma_undeclared_close::<SaltWaterChlorinator>(fields, value.extra);
    assert(spec_open::<SaltWaterChlorinator>(SaltWaterChlorinator::spec_encode(value), mode) == Ok::<Members, DecodeErrorView>(members));
    assert(lookup(members, "amp"@) == Some(usize::spec_encode(value.amp)));
    assert(lookup(members, "temp"@) == Some(usize::spec_encode(value.temp)));
    assert(lookup(members, "vr"@) == Some(String::spec_encode(value.vr)));
    assert(lookup(members, "sns_3"@) == Some(Sensor::spec_encode(value.sns_3)));
    assert(lookup(members, "orp_sp"@) == Some(usize::spec_encode(value.orp_sp)));
    assert(lookup(members, "production"@) == Some(usize::spec_encode(value.production)));
    assert(lookup(members, "boost"@) == Some(usize::spec_encode(value.boost)));
    assert(lookup(members, "ph_sp"@) == Some(usize::spec_encode(value.ph_sp)));
    assert(lookup(members, "swc"@) == Some(usize::spec_encode(value.swc)));
    assert(lookup(members, "version"@) == Some(String::spec_encode(value.version)));
    assert(lookup(members, "sns_2"@) == Some(Sensor::spec_encode(value.sns_2)));
    assert(lookup(members, "low"@) == Some(usize::spec_encode(value.low)));
    assert(lookup(members, "vsp"@) == Some(usize::spec_encode(value.vsp)));
    assert(lookup(members, "lang"@) == Some(usize::spec_encode(value.lang)));
    assert(lookup(members, "ph_only"@) == Some(usize::spec_encode(value.ph_only)));
    assert(lookup(members, "sns_1"@) == Some(Sensor::spec_encode(value.sns_1)));
    assert(lookup(members, "aux_1"@) == Some(Auxiliary::spec_encode(value.aux_1)));
    assert(lookup(members, "swc_low"@) == Some(usize::spec_encode(value.swc_low)));
    assert(lookup(members, "dual_link"@) == Some(usize::spec_encode(value.dual_link)));
    assert(lookup(members, "vsp_speed"@) == Some(VspSpeed::spec_encode(value.vsp_speed)));
    assert(lookup(members, "exo_state"@) == Some(usize::spec_encode(value.exo_state)));
    assert(lookup(members, "aux_2"@) == Some(Auxiliary::spec_encode(value.aux_2)));
    assert(lookup(members, "boost_time"@) == Some(String::spec_encode(value.boost_time)));
    assert(lookup(members, "error_code"@) == Some(usize::spec_encode(value.error_code)));
    assert(lookup(members, "aux230"@) == Some(usize::spec_encode(value.aux230)));
    assert(lookup(members, "error_state"@) == Some(usize::spec_encode(value.error_state)));
    assert(lookup(members, "sn"@) == Some(String::spec_encode(value.sn)));
    assert(lookup(members, "filter_pump"@) == Some(FilterPump::spec_encode(value.filter_pump)));
    assert(spec_field::<usize>(members, "amp"@, mode) == Ok::<usize, DecodeErrorView>(value.amp));
    assert(spec_field::<usize>(members, "temp"@, mode) == Ok::<usize, DecodeErrorView>(value.temp));
    assert(spec_field::<String>(members, "vr"@, mode) == Ok::<Seq<char>, DecodeErrorView>(value.vr));
    assert(spec_field::<Sensor>(members, "sns_3"@, mode) == Ok::<SensorView, DecodeErrorView>(value.sns_3));
    assert(spec_field::<usize>(members, "orp_sp"@, mode) == Ok::<usize, DecodeErrorView>(value.orp_sp));
    assert(spec_field::<usize>(members, "production"@, mode) == Ok::<usize, DecodeErrorView>(value.production));
    assert(spec_field::<usize>(members, "boost"@, mode) == Ok::<usize, DecodeErrorView>(value.boost));
    assert(spec_field::<usize>(members, "ph_sp"@, mode) == Ok::<usize, DecodeErrorView>(value.ph_sp));
    assert(spec_field::<usize>(members, "swc"@, mode) == Ok::<usize, DecodeErrorView>(value.swc));
    assert(spec_field::<String>(members, "version"@, mode) == Ok::<Seq<char>, DecodeErrorView>(value.version));
    assert(spec_field::<Sensor>(members, "sns_2"@, mode) == Ok::<SensorView, DecodeErrorView>(value.sns_2));
    assert(spec_field::<usize>(members, "low"@, mode) == Ok::<usize, DecodeErrorView>(value.low));
    assert(spec_field::<usize>(members, "vsp"@, mode) == Ok::<usize, DecodeErrorView>(value.vsp));
    assert(spec_field::<usize>(members, "lang"@, mode) == Ok::<usize, DecodeErrorView>(value.lang));
    assert(spec_field::<usize>(members, "ph_only"@, mode) == Ok::<usize, DecodeErrorView>(value.ph_only));
    assert(spec_field::<Sensor>(members, "sns_1"@, mode) == Ok::<SensorView, DecodeErrorView>(value.sns_1));
    assert(spec_field::<Auxiliary>(members, "aux_1"@, mode) == Ok::<AuxiliaryView, DecodeErrorView>(value.aux_1));
    assert(spec_field::<usize>(members, "swc_low"@, mode) == Ok::<usize, DecodeErrorView>(value.swc_low));
    assert(spec_field::<usize>(members, "dual_link"@, mode) == Ok::<usize, DecodeErrorView>(value.dual_link));
    assert(spec_field::<VspSpeed>(members, "vsp_speed"@, mode) == Ok::<VspSpeedView, DecodeErrorView>(value.vsp_speed));
    assert(spec_field::<usize>(members, "exo_state"@, mode) == Ok::<usize, DecodeErrorView>(value.exo_state));
    assert(spec_field::<Auxiliary>(members, "aux_2"@, mode) == Ok::<AuxiliaryView, DecodeErrorView>(value.aux_2));
    assert(spec_field::<String>(members, "boost_time"@, mode) == Ok::<Seq<char>, DecodeErrorView>(value.boost_time));
    assert(spec_field::<usize>(members, "error_code"@, mode) == Ok::<usize, DecodeErrorView>(value.error_code));
    assert(spec_field::<usize>(members, "aux230"@, mode) == Ok::<usize, DecodeErrorView>(value.aux230));
    assert(spec_field::<usize>(members, "error_state"@, mode) == Ok::<usize, DecodeErrorView>(value.error_state));
    assert(spec_field::<String>(members, "sn"@, mode) == Ok::<Seq<char>, DecodeErrorView>(value.sn));
    assert(spec_field::<FilterPump>(members, "filter_pump"@, mode) == Ok::<FilterPumpView, DecodeErrorView>(value.filter_pump));
}

/// The equipment of a chlorinator system: the one slot `swc_0`. An object that holds the slot
/// of the other family, `robot`, is refused in either mode.
#[derive(Debug, PartialEq, Eq)]
pub struct SaltWaterChlorinatorEquipment {
    pub swc_0: SaltWaterChlorinator,
    /// Members that the record does not declare.
    pub extra: Vec<(String, Json)>,
}

/// Mathematical model of a [`SaltWaterChlorinatorEquipment`].
pub struct SaltWaterChlorinatorEquipmentView {
    pub swc_0: SaltWaterChlorinatorView,
    pub extra: Members,
}

impl DeepView for SaltWaterChlorinatorEquipment {
    type V = SaltWaterChlorinatorEquipmentView;

    open spec fn deep_view(&self) -> SaltWaterChlorinatorEquipmentView {
        SaltWaterChlorinatorEquipmentView {
            swc_0: self.swc_0.deep_view(),
            extra: self.extra.deep_view(),
        }
    }
}

impl Record for SaltWaterChlorinatorEquipment {
    open spec fn spec_declares(name: Seq<char>) -> bool {
        name == "swc_0"@
    }

    fn declares(name: &str) -> (r: bool) {
        same_text(name, "swc_0")
    }
}

impl SaltWaterChlorinatorEquipment {
    /// What a document is read as.
    #[verifier::opaque]
    pub open spec fn spec_read(doc: JsonValue, mode: Strictness) -> Result<SaltWaterChlorinatorEquipmentView, DecodeErrorView> {
        match spec_open::<SaltWaterChlorinatorEquipment>(doc, mode) { Err(e) => Err(e), Ok(members) =>
        match spec_refuse(members, "robot"@) { Err(e) => Err(e), Ok(_) =>
        match spec_field::<SaltWaterChlorinator>(members, "swc_0"@, mode) { Err(e) => Err(e), Ok(swc_0) =>
            Ok(SaltWaterChlorinatorEquipmentView {
                swc_0,
                extra: spec_undeclared::<SaltWaterChlorinatorEquipment>(members),
            })
        }}}
    }

    /// The document that a value is written as.
    #[verifier::opaque]
    pub open spec fn spec_write(value: SaltWaterChlorinatorEquipmentView) -> JsonValue {
        spec_close(
            Seq::empty()
                .push(("swc_0"@, SaltWaterChlorinator::spec_encode(value.swc_0))),
            value.extra,
        )
    }
}

impl Decode for SaltWaterChlorinatorEquipment {
    open spec fn spec_decode(doc: JsonValue, mode: Strictness) -> Result<SaltWaterChlorinatorEquipmentView, DecodeErrorView> {
        SaltWaterChlorinatorEquipment::spec_read(doc, mode)
    }

    open spec fn spec_absent() -> Option<SaltWaterChlorinatorEquipmentView> {
        None
    }

    fn decode(doc: &Json, mode: Strictness) -> (r: Result<SaltWaterChlorinatorEquipment, DecodeError>) {
        reveal(SaltWaterChlorinatorEquipment::spec_read);
        let members = open::<SaltWaterChlorinatorEquipment>(doc, mode)?;
        refuse(members, "robot")?;
        let swc_0 = field::<SaltWaterChlorinator>(members, "swc_0", mode)?;
        let extra = undeclared::<SaltWaterChlorinatorEquipment>(members);
        Ok(SaltWaterChlorinatorEquipment { swc_0, extra })
    }

    fn absent() -> (r: Option<SaltWaterChlorinatorEquipment>) {
        None
    }
}

impl Encode for SaltWaterChlorinatorEquipment {
    open spec fn spec_encode(value: SaltWaterChlorinatorEquipmentView) -> JsonValue {
        SaltWaterChlorinatorEquipment::spec_write(value)
    }

    open spec fn faithful(value: SaltWaterChlorinatorEquipmentView, mode: Strictness) -> bool {
        &&& SaltWaterChlorinator::faithful(value.swc_0, mode)
        &&& carried::<SaltWaterChlorinatorEquipment>(value.extra, mode)
        &&& lookup(value.extra, "robot"@) is None
    }

    fn encode(&self) -> (r: Json) {
        reveal(SaltWaterChlorinatorEquipment::spec_write);
        let mut fields = start();
        put(&mut fields, "swc_0", self.swc_0.encode());
        close(fields, &self.extra)
    }

    proof fn round_trip(value: SaltWaterChlorinatorEquipmentView, mode: Strictness) {
        reveal(SaltWaterChlorinatorEquipment::spec_read);
        reveal(SaltWaterChlorinatorEquipment::spec_write);
        broadcast use {
            lemma_lookup_empty,
            lemma_lookup_push,
            lemma_lookup_add,
            lemma_undeclared_empty,
            lemma_undeclared_push,
        };
        // Two names differ in their length or in one of the letters named here.
        reveal_strlit("swc_0");
        reveal_strlit("robot");
        assert("swc_0"@.len() == 5 && "swc_0"@[0] == 's');
        assert("robot"@.len() == 5 && "robot"@[0] == 'r');
        SaltWaterChlorinator::round_trip(value.swc_0, mode);
        let fields = Seq::empty()
            .push(("swc_0"@, SaltWaterChlorinator::spec_encode(value.swc_0)));
        let members = fields + value.extra;
        assert(spec_undeclared::<SaltWaterChlorinatorEquipment>(fields).len() == 0);
        lemma_undeclared_close::<SaltWaterChlorinatorEquipment>(fields, value.extra);
        assert(spec_open::<SaltWaterChlorinatorEquipment>(SaltWaterChlorinatorEquipment::spec_encode(value), mode) == Ok::<Members, DecodeErrorView>(members));
        assert(spec_refuse(members, "robot"@) is Ok);
        assert(spec_field::<SaltWaterChlorinator>(members, "swc_0"@, mode) == Ok::<SaltWaterChlorinatorView, DecodeErrorView>(value.swc_0));
    }
}

/// When a schedule starts and ends, each as `HH:MM`.
#[derive(Debug, PartialEq, Eq)]
pub struct Timer {
    pub start: String,
    pub end: String,
    /// Members that the record does not declare.
    pub extra: Vec<(String, Json)>,
}

/// Mathematical model of a [`Timer`].
pub struct TimerView {
    pub start: Seq<char>,
    pub end: Seq<char>,
    pub extra: Members,
}

impl DeepView for Timer {
    type V = TimerView;

    open spec fn deep_view(&self) -> TimerView {
        TimerView {
            start: self.start@,
            end: self.end@,
            extra: self.extra.deep_view(),
        }
    }
}

impl Record for Timer {
    open spec fn spec_declares(name: Seq<char>) -> bool {
        ||| name == "start"@
        ||| name == "end"@
    }

    fn declares(name: &str) -> (r: bool) {
        same_text(name, "start") || same_text(name, "end")
    }
}

impl Timer {
    /// What a document is read as.
    #[verifier::opaque]
    pub open spec fn spec_read(doc: JsonValue, mode: Strictness) -> Result<TimerView, DecodeErrorView> {
        match spec_open::<Timer>(doc, mode) { Err(e) => Err(e), Ok(members) =>
        match spec_field::<String>(members, "start"@, mode) { Err(e) => Err(e), Ok(start) =>
        match spec_field::<String>(members, "end"@, mode) { Err(e) => Err(e), Ok(end) =>
            Ok(TimerView {
                start,
                end,
                extra: spec_undeclared::<Timer>(members),
            })
        }}}
    }

    /// The document that a value is written as.
    #[verifier::opaque]
    pub open spec fn spec_write(value: TimerView) -> JsonValue {
        spec_close(
            Seq::empty()
                .push(("start"@, String::spec_encode(value.start)))
                .push(("end"@, String::spec_encode(value.end))),
            value.extra,
        )
    }
}

impl Decode for Timer {
    open spec fn spec_decode(doc: JsonValue, mode: Strictness) -> Result<TimerView, DecodeErrorView> {
        Timer::spec_read(doc, mode)
    }

    open spec fn spec_absent() -> Option<TimerView> {
        None
    }

    fn decode(doc: &Json, mode: Strictness) -> (r: Result<Timer, DecodeError>) {
        reveal(Timer::spec_read);
        let members = open::<Timer>(doc, mode)?;
        let start = field::<String>(members, "start", mode)?;
        let end = field::<String>(members, "end", mode)?;
        let extra = undeclared::<Timer>(members);
        Ok(Timer { start, end, extra })
    }

    fn absent() -> (r: Option<Timer>) {
        None
    }
}

impl Encode for Timer {
    open spec fn spec_encode(value: TimerView) -> JsonValue {
        Timer::spec_write(value)
    }

    open spec fn faithful(value: TimerView, mode: Strictness) -> bool {
        carried::<Timer>(value.extra, mode)
    }

    fn encode(&self) -> (r: Json) {
        reveal(Timer::spec_write);
        let mut fields = start();
        put(&mut fields, "start", self.start.encode());
        put(&mut fields, "end", self.end.encode());
        close(fields, &self.extra)
    }

    proof fn round_trip(value: TimerView, mode: Strictness) {
        reveal(Timer::spec_read);
        reveal(Timer::spec_write);
        broadcast use {
            lemma_lookup_empty,
            lemma_lookup_push,
            lemma_lookup_add,
            lemma_undeclared_empty,
            lemma_undeclared_push,
        };
        // Two names differ in their length or in one of the letters named here.
        reveal_strlit("start");
        reveal_strlit("end");
        assert("start"@.len() == 5);
        assert("end"@.len() == 3);
        let fields = Seq::empty()
            .push(("start"@, String::spec_encode(value.start)))
            .push(("end"@, String::spec_encode(value.end)));
        let members = fields + value.extra;
        assert(spec_undeclared::<Timer>(fields).len() == 0);
        lemma_undeclared_close::<Timer>(fields, value.extra);
        assert(spec_open::<Timer>(Timer::spec_encode(value), mode) == Ok::<Members, DecodeErrorView>(members));
        assert(spec_field::<String>(members, "start"@, mode) == Ok::<Seq<char>, DecodeErrorView>(value.start));
        assert(spec_field::<String>(members, "end"@, mode) == Ok::<Seq<char>, DecodeErrorView>(value.end));
    }
}

/// One programmed schedule.
#[derive(Debug, PartialEq, Eq)]
pub struct Schedule {
    pub active: usize,
    pub enabled: usize,
    pub endpoint: String,
    pub id: String,
    pub name: String,
    pub timer: Timer,
    /// Members that the record does not declare.
    pub extra: Vec<(String, Json)>,
}

/// Mathematical model of a [`Schedule`].
pub struct ScheduleView {
    pub active: usize,
    pub enabled: usize,
    pub endpoint: Seq<char>,
    pub id: Seq<char>,
    pub name: Seq<char>,
    pub timer: TimerView,
    pub extra: Members,
}

impl DeepView for Schedule {
    type V = ScheduleView;

    open spec fn deep_view(&self) -> ScheduleView {
        ScheduleView {
            active: self.active,
            enabled: self.enabled,
            endpoint: self.endpoint@,
            id: self.id@,
            name: self.name@,
            timer: self.timer.deep_view(),
            extra: self.extra.deep_view(),
        }
    }
}

impl Record for Schedule {
    open spec fn spec_declares(name: Seq<char>) -> bool {
        ||| name == "active"@
        ||| name == "enabled"@
        ||| name == "endpoint"@
        ||| name == "id"@
        ||| name == "name"@
        ||| name == "timer"@
    }

    fn declares(name: &str) -> (r: bool) {
        same_text(name, "active") || same_text(name, "enabled") || same_text(name, "endpoint")
            || same_text(name, "id") || same_text(name, "name") || same_text(name, "timer")
    }
}

impl Schedule {
    /// What a document is read as.
    #[verifier::opaque]
    pub open spec fn spec_read(doc: JsonValue, mode: Strictness) -> Result<ScheduleView, DecodeErrorView> {
        match spec_open::<Schedule>(doc, mode) { Err(e) => Err(e), Ok(members) =>
        match spec_field::<usize>(members, "active"@, mode) { Err(e) => Err(e), Ok(active) =>
        match spec_field::<usize>(members, "enabled"@, mode) { Err(e) => Err(e), Ok(enabled) =>
        match spec_field::<String>(members, "endpoint"@, mode) { Err(e) => Err(e), Ok(endpoint) =>
        match spec_field::<String>(members, "id"@, mode) { Err(e) => Err(e), Ok(id) =>
        match spec_field::<String>(members, "name"@, mode) { Err(e) => Err(e), Ok(name) =>
        match spec_field::<Timer>(members, "timer"@, mode) { Err(e) => Err(e), Ok(timer) =>
            Ok(ScheduleView {
                active,
                enabled,
                endpoint,
                id,
                name,
                timer,
                extra: spec_undeclared::<Schedule>(members),
            })
        }}}}}}}
    }

    /// The document that a value is written as.
    #[verifier::opaque]
    pub open spec fn spec_write(value: ScheduleView) -> JsonValue {
        spec_close(
            Seq::empty()
                .push(("active"@, usize::spec_encode(value.active)))
                .push(("enabled"@, usize::spec_encode(value.enabled)))
                .push(("endpoint"@, String::spec_encode(value.endpoint)))
                .push(("id"@, String::spec_encode(value.id)))
                .push(("name"@, String::spec_encode(value.name)))
                .push(("timer"@, Timer::spec_encode(value.timer))),
            value.extra,
        )
    }
}

impl Decode for Schedule {
    open spec fn spec_decode(doc: JsonValue, mode: Strictness) -> Result<ScheduleView, DecodeErrorView> {
        Schedule::spec_read(doc, mode)
    }

    open spec fn spec_absent() -> Option<ScheduleView> {
        None
    }

    fn decode(doc: &Json, mode: Strictness) -> (r: Result<Schedule, DecodeError>) {
        reveal(Schedule::spec_read);
        let members = open::<Schedule>(doc, mode)?;
        let active = field::<usize>(members, "active", mode)?;
        let enabled = field::<usize>(members, "enabled", mode)?;
        let endpoint = field::<String>(members, "endpoint", mode)?;
        let id = field::<String>(members, "id", mode)?;
        let name = field::<String>(members, "name", mode)?;
        let timer = field::<Timer>(members, "timer", mode)?;
        let extra = undeclared::<Schedule>(members);
        Ok(Schedule { active, enabled, endpoint, id, name, timer, extra })
    }

    fn absent() -> (r: Option<Schedule>) {
        None
    }
}

impl Encode for Schedule {
    open spec fn spec_encode(value: ScheduleView) -> JsonValue {
        Schedule::spec_write(value)
    }

    open spec fn faithful(value: ScheduleView, mode: Strictness) -> bool {
        &&& Timer::faithful(value.timer, mode)
        &&& carried::<Schedule>(value.extra, mode)
    }

    fn encode(&self) -> (r: Json) {
        reveal(Schedule::spec_write);
        let mut fields = start();
        put(&mut fields, "active", self.active.encode());
        put(&mut fields, "enabled", self.enabled.encode());
        put(&mut fields, "endpoint", self.endpoint.encode());
        put(&mut fields, "id", self.id.encode());
        put(&mut fields, "name", self.name.encode());
        put(&mut fields, "timer", self.timer.encode());
        close(fields, &self.extra)
    }

    proof fn round_trip(value: ScheduleView, mode: Strictness) {
        reveal(Schedule::spec_read);
        reveal(Schedule::spec_write);
        broadcast use {
            lemma_lookup_empty,
            lemma_lookup_push,
            lemma_lookup_add,
            lemma_undeclared_empty,
            lemma_undeclared_push,
        };
        // Two names differ in their length or in one of the letters named here.
        reveal_strlit("active");
        reveal_strlit("enabled");
        reveal_strlit("endpoint");
        reveal_strlit("id");
        reveal_strlit("name");
        reveal_strlit("timer");
        assert("active"@.len() == 6);
        assert("enabled"@.len() == 7);
        assert("endpoint"@.len() == 8);
        assert("id"@.len() == 2);
        assert("name"@.len() == 4);
        assert("timer"@.len() == 5);
        Timer::round_trip(value.timer, mode);
        let fields = Seq::empty()
            .push(("active"@, usize::spec_encode(value.active)))
            .push(("enabled"@, usize::spec_encode(value.enabled)))
            .push(("endpoint"@, String::spec_encode(value.endpoint)))
            .push(("id"@, String::spec_encode(value.id)))
            .push(("name"@, String::spec_encode(value.name)))
            .push(("timer"@, Timer::spec_encode(value.timer)));
        let members = fields + value.extra;
        assert(spec_undeclared::<Schedule>(fields).len() == 0);
        lemma_undeclared_close::<Schedule>(fields, value.extra);
        assert(spec_open::<Schedule>(Schedule::spec_encode(value), mode) == Ok::<Members, DecodeErrorView>(members));
        assert(spec_field::<usize>(members, "active"@, mode) == Ok::<usize, DecodeErrorView>(value.active));
        assert(spec_field::<usize>(members, "enabled"@, mode) == Ok::<usize, DecodeErrorView>(value.enabled));
        assert(spec_field::<String>(members, "endpoint"@, mode) == Ok::<Seq<char>, DecodeErrorView>(value.endpoint));
        assert(spec_field::<String>(members, "id"@, mode) == Ok::<Seq<char>, DecodeErrorView>(value.id));
        assert(spec_field::<String>(members, "name"@, mode) == Ok::<Seq<char>, DecodeErrorView>(value.name));
        assert(spec_field::<Timer>(members, "timer"@, mode) == Ok::<TimerView, DecodeErrorView>(value.timer));
    }
}

/// The schedules of a chlorinator system. The slots are numbered 1 to 4, 9 and 10.
#[derive(Debug, PartialEq, Eq)]
pub struct Schedules {
    pub programmed: usize,
    pub supported: usize,
    pub sch1: Schedule,
    pub sch2: Schedule,
    pub sch3: Schedule,
    pub sch4: Schedule,
    pub sch9: Schedule,
    pub sch10: Schedule,
    /// Members that the record does not declare.
    pub extra: Vec<(String, Json)>,
}

/// Mathematical model of a [`Schedules`].
pub struct SchedulesView {
    pub programmed: usize,
    pub supported: usize,
    pub sch1: ScheduleView,
    pub sch2: ScheduleView,
    pub sch3: ScheduleView,
    pub sch4: ScheduleView,
    pub sch9: ScheduleView,
    pub sch10: ScheduleView,
    pub extra: Members,
}

impl DeepView for Schedules {
    type V = SchedulesView;

    open spec fn deep_view(&self) -> SchedulesView {
        SchedulesView {
            programmed: self.programmed,
            supported: self.supported,
            sch1: self.sch1.deep_view(),
            sch2: self.sch2.deep_view(),
            sch3: self.sch3.deep_view(),
            sch4: self.sch4.deep_view(),
            sch9: self.sch9.deep_view(),
            sch10: self.sch10.deep_view(),
            extra: self.extra.deep_view(),
        }
    }
}

impl Record for Schedules {
    open spec fn spec_declares(name: Seq<char>) -> bool {
        ||| name == "programmed"@
        ||| name == "supported"@
        ||| name == "sch1"@
        ||| name == "sch2"@
        ||| name == "sch3"@
        ||| name == "sch4"@
        ||| name == "sch9"@
        ||| name == "sch10"@
    }

    fn declares(name: &str) -> (r: bool) {
        same_text(name, "programmed") || same_text(name, "supported") || same_text(name, "sch1")
            || same_text(name, "sch2") || same_text(name, "sch3") || same_text(name, "sch4")
            || same_text(name, "sch9") || same_text(name, "sch10")
    }
}

impl Schedules {
    /// What a document is read as.
    #[verifier::opaque]
    pub open spec fn spec_read(doc: JsonValue, mode: Strictness) -> Result<SchedulesView, DecodeErrorView> {
        match spec_open::<Schedules>(doc, mode) { Err(e) => Err(e), Ok(members) =>
        match spec_field::<usize>(members, "programmed"@, mode) { Err(e) => Err(e), Ok(programmed) =>
        match spec_field::<usize>(members, "supported"@, mode) { Err(e) => Err(e), Ok(supported) =>
        match spec_field::<Schedule>(members, "sch1"@, mode) { Err(e) => Err(e), Ok(sch1) =>
        match spec_field::<Schedule>(members, "sch2"@, mode) { Err(e) => Err(e), Ok(sch2) =>
        match spec_field::<Schedule>(members, "sch3"@, mode) { Err(e) => Err(e), Ok(sch3) =>
        match spec_field::<Schedule>(members, "sch4"@, mode) { Err(e) => Err(e), Ok(sch4) =>
        match spec_field::<Schedule>(members, "sch9"@, mode) { Err(e) => Err(e), Ok(sch9) =>
        match spec_field::<Schedule>(members, "sch10"@, mode) { Err(e) => Err(e), Ok(sch10) =>
            Ok(SchedulesView {
                programmed,
                supported,
                sch1,
                sch2,
                sch3,
                sch4,
                sch9,
                sch10,
                extra: spec_undeclared::<Schedules>(members),
            })
        }}}}}}}}}
    }

    /// The document that a value is written as.
    #[verifier::opaque]
    pub open spec fn spec_write(value: SchedulesView) -> JsonValue {
        spec_close(
            Seq::empty()
                .push(("programmed"@, usize::spec_encode(value.programmed)))
                .push(("supported"@, usize::spec_encode(value.supported)))
                .push(("sch1"@, Schedule::spec_encode(value.sch1)))
                .push(("sch2"@, Schedule::spec_encode(value.sch2)))
                .push(("sch3"@, Schedule::spec_encode(value.sch3)))
                .push(("sch4"@, Schedule::spec_encode(value.sch4)))
                .push(("sch9"@, Schedule::spec_encode(value.sch9)))
                .push(("sch10"@, Schedule::spec_encode(value.sch10))),
            value.extra,
        )
    }
}

impl Decode for Schedules {
    open spec fn spec_decode(doc: JsonValue, mode: Strictness) -> Result<SchedulesView, DecodeErrorView> {
        Schedules::spec_read(doc, mode)
    }

    open spec fn spec_absent() -> Option<SchedulesView> {
        None
    }

    fn decode(doc: &Json, mode: Strictness) -> (r: Result<Schedules, DecodeError>) {
        reveal(Schedules::spec_read);
        let members = open::<Schedules>(doc, mode)?;
        let programmed = field::<usize>(members, "programmed", mode)?;
        let supported = field::<usize>(members, "supported", mode)?;
        let sch1 = field::<Schedule>(members, "sch1", mode)?;
        let sch2 = field::<Schedule>(members, "sch2", mode)?;
        let sch3 = field::<Schedule>(members, "sch3", mode)?;
        let sch4 = field::<Schedule>(members, "sch4", mode)?;
        let sch9 = field::<Schedule>(members, "sch9", mode)?;
        let sch10 = field::<Schedule>(members, "sch10", mode)?;
        let extra = undeclared::<Schedules>(members);
        Ok(Schedules { programmed, supported, sch1, sch2, sch3, sch4, sch9, sch10, extra })
    }

    fn absent() -> (r: Option<Schedules>) {
        None
    }
}

impl Encode for Schedules {
    open spec fn spec_encode(value: SchedulesView) -> JsonValue {
        Schedules::spec_write(value)
    }

    open spec fn faithful(value: SchedulesView, mode: Strictness) -> bool {
        &&& Schedule::faithful(value.sch1, mode)
        &&& Schedule::faithful(value.sch2, mode)
        &&& Schedule::faithful(value.sch3, mode)
        &&& Schedule::faithful(value.sch4, mode)
        &&& Schedule::faithful(value.sch9, mode)
        &&& Schedule::faithful(value.sch10, mode)
        &&& carried::<Schedules>(value.extra, mode)
    }

    fn encode(&self) -> (r: Json) {
        reveal(Schedules::spec_write);
        let mut fields = start();
        put(&mut fields, "programmed", self.programmed.encode());
        put(&mut fields, "supported", self.supported.encode());
        put(&mut fields, "sch1", self.sch1.encode());
        put(&mut fields, "sch2", self.sch2.encode());
        put(&mut fields, "sch3", self.sch3.encode());
        put(&mut fields, "sch4", self.sch4.encode());
        put(&mut fields, "sch9", self.sch9.encode());
        put(&mut fields, "sch10", self.sch10.encode());
        close(fields, &self.extra)
    }

    proof fn round_trip(value: SchedulesView, mode: Strictness) {
        reveal(Schedules::spec_read);
        reveal(Schedules::spec_write);
        broadcast use {
            lemma_lookup_empty,
            lemma_lookup_push,
            lemma_lookup_add,
            lemma_undeclared_empty,
            lemma_undeclared_push,
        };
        // Two names differ in their length or in one of the letters named here.
        reveal_strlit("programmed");
        reveal_strlit("supported");
        reveal_strlit("sch1");
        reveal_strlit("sch2");
        reveal_strlit("sch3");
        reveal_strlit("sch4");
        reveal_strlit("sch9");
        reveal_strlit("sch10");
        assert("programmed"@.len() == 10);
        assert("supported"@.len() == 9);
        assert("sch1"@.len() == 4 && "sch1"@[3] == '1');
        assert("sch2"@.len() == 4 && "sch2"@[3] == '2');
        assert("sch3"@.len() == 4 && "sch3"@[3] == '3');
        assert("sch4"@.len() == 4 && "sch4"@[3] == '4');
        assert("sch9"@.len() == 4 && "sch9"@[3] == '9');
        assert("sch10"@.len() == 5);
        Schedule::round_trip(value.sch1, mode);
        Schedule::round_trip(value.sch2, mode);
        Schedule::round_trip(value.sch3, mode);
        Schedule::round_trip(value.sch4, mode);
        Schedule::round_trip(value.sch9, mode);
        Schedule::round_trip(value.sch10, mode);
        let fields = Seq::empty()
            .push(("programmed"@, usize::spec_encode(value.programmed)))
            .push(("supported"@, usize::spec_encode(value.supported)))
            .push(("sch1"@, Schedule::spec_encode(value.sch1)))
            .push(("sch2"@, Schedule::spec_encode(value.sch2)))
            .push(("sch3"@, Schedule::spec_encode(value.sch3)))
            .push(("sch4"@, Schedule::spec_encode(value.sch4)))
            .push(("sch9"@, Schedule::spec_encode(value.sch9)))
            .push(("sch10"@, Schedule::spec_encode(value.sch10)));
        let members = fields + value.extra;
        assert(spec_undeclared::<Schedules>(fields).len() == 0);
        lemma_undeclared_close::<Schedules>(fields, value.extra);
        assert(spec_open::<Schedules>(Schedules::spec_encode(value), mode) == Ok::<Members, DecodeErrorView>(members));
        assert(spec_field::<usize>(members, "programmed"@, mode) == Ok::<usize, DecodeErrorView>(value.programmed));
        assert(spec_field::<usize>(members, "supported"@, mode) == Ok::<usize, DecodeErrorView>(value.supported));
        assert(spec_field::<Schedule>(members, "sch1"@, mode) == Ok::<ScheduleView, DecodeErrorView>(value.sch1));
        assert(spec_field::<Schedule>(members, "sch2"@, mode) == Ok::<ScheduleView, DecodeErrorView>(value.sch2));
        assert(spec_field::<Schedule>(members, "sch3"@, mode) == Ok::<ScheduleView, DecodeErrorView>(value.sch3));
        assert(spec_field::<Schedule>(members, "sch4"@, mode) == Ok::<ScheduleView, DecodeErrorView>(value.sch4));
        assert(spec_field::<Schedule>(members, "sch9"@, mode) == Ok::<ScheduleView, DecodeErrorView>(value.sch9));
        assert(spec_field::<Schedule>(members, "sch10"@, mode) == Ok::<ScheduleView, DecodeErrorView>(value.sch10));
    }
}

/// Heat pump settings of a chlorinator system.
#[derive(Debug, PartialEq, Eq)]
pub struct Heating {
    pub enabled: usize,
    pub priority_enabled: usize,
    pub sp: usize,
    pub sp_max: usize,
    pub sp_min: usize,
    pub state: usize,
    /// Members that the record does not declare.
    pub extra: Vec<(String, Json)>,
}

/// Mathematical model of a [`Heating`].
pub struct HeatingView {
    pub enabled: usize,
    pub priority_enabled: usize,
    pub sp: usize,
    pub sp_max: usize,
    pub sp_min: usize,
    pub state: usize,
    pub extra: Members,
}

impl DeepView for Heating {
    type V = HeatingView;

    open spec fn deep_view(&self) -> HeatingView {
        HeatingView {
            enabled: self.enabled,
            priority_enabled: self.priority_enabled,
            sp: self.sp,
            sp_max: self.sp_max,
            sp_min: self.sp_min,
            state: self.state,
            extra: self.extra.deep_view(),
        }
    }
}

impl Record for Heating {
    open spec fn spec_declares(name: Seq<char>) -> bool {
        ||| name == "enabled"@
        ||| name == "priority_enabled"@
        ||| name == "sp"@
        ||| name == "sp_max"@
        ||| name == "sp_min"@
        ||| name == "state"@
    }

    fn declares(name: &str) -> (r: bool) {
        same_text(name, "enabled") || same_text(name, "priority_enabled") || same_text(name, "sp")
            || same_text(name, "sp_max") || same_text(name, "sp_min") || same_text(name, "state")
    }
}

impl Heating {
    /// What a document is read as.
    #[verifier::opaque]
    pub open spec fn spec_read(doc: JsonValue, mode: Strictness) -> Result<HeatingView, DecodeErrorView> {
        match spec_open::<Heating>(doc, mode) { Err(e) => Err(e), Ok(members) =>
        match spec_field::<usize>(members, "enabled"@, mode) { Err(e) => Err(e), Ok(enabled) =>
        match spec_field::<usize>(members, "priority_enabled"@, mode) { Err(e) => Err(e), Ok(priority_enabled) =>
        match spec_field::<usize>(members, "sp"@, mode) { Err(e) => Err(e), Ok(sp) =>
        match spec_field::<usize>(members, "sp_max"@, mode) { Err(e) => Err(e), Ok(sp_max) =>
        match spec_field::<usize>(members, "sp_min"@, mode) { Err(e) => Err(e), Ok(sp_min) =>
        match spec_field::<usize>(members, "state"@, mode) { Err(e) => Err(e), Ok(state) =>
            Ok(HeatingView {
                enabled,
                priority_enabled,
                sp,
                sp_max,
                sp_min,
                state,
                extra: spec_undeclared::<Heating>(members),
            })
        }}}}}}}
    }

    /// The document that a value is written as.
    #[verifier::opaque]
    pub open spec fn spec_write(value: HeatingView) -> JsonValue {
        spec_close(
            Seq::empty()
                .push(("enabled"@, usize::spec_encode(value.enabled)))
                .push(("priority_enabled"@, usize::spec_encode(value.priority_enabled)))
                .push(("sp"@, usize::spec_encode(value.sp)))
                .push(("sp_max"@, usize::spec_encode(value.sp_max)))
                .push(("sp_min"@, usize::spec_encode(value.sp_min)))
                .push(("state"@, usize::spec_encode(value.state))),
            value.extra,
        )
    }
}

impl Decode for Heating {
    open spec fn spec_decode(doc: JsonValue, mode: Strictness) -> Result<HeatingView, DecodeErrorView> {
        Heating::spec_read(doc, mode)
    }

    open spec fn spec_absent() -> Option<HeatingView> {
        None
    }

    fn decode(doc: &Json, mode: Strictness) -> (r: Result<Heating, DecodeError>) {
        reveal(Heating::spec_read);
        let members = open::<Heating>(doc, mode)?;
        let enabled = field::<usize>(members, "enabled", mode)?;
        let priority_enabled = field::<usize>(members, "priority_enabled", mode)?;
        let sp = field::<usize>(members, "sp", mode)?;
        let sp_max = field::<usize>(members, "sp_max", mode)?;
        let sp_min = field::<usize>(members, "sp_min", mode)?;
        let state = field::<usize>(members, "state", mode)?;
        let extra = undeclared::<Heating>(members);
        Ok(Heating { enabled, priority_enabled, sp, sp_max, sp_min, state, extra })
    }

    fn absent() -> (r: Option<Heating>) {
        None
    }
}

impl Encode for Heating {
    open spec fn spec_encode(value: HeatingView) -> JsonValue {
        Heating::spec_write(value)
    }

    open spec fn faithful(value: HeatingView, mode: Strictness) -> bool {
        carried::<Heating>(value.extra, mode)
    }

    fn encode(&self) -> (r: Json) {
        reveal(Heating::spec_write);
        let mut fields = start();
        put(&mut fields, "enabled", self.enabled.encode());
        put(&mut fields, "priority_enabled", self.priority_enabled.encode());
        put(&mut fields, "sp", self.sp.encode());
        put(&mut fields, "sp_max", self.sp_max.encode());
        put(&mut fields, "sp_min", self.sp_min.encode());
        put(&mut fields, "state", self.state.encode());
        close(fields, &self.extra)
    }

    proof fn round_trip(value: HeatingView, mode: Strictness) {
        reveal(Heating::spec_read);
        reveal(Heating::spec_write);
        broadcast use {
            lemma_lookup_empty,
            lemma_lookup_push,
            lemma_lookup_add,
            lemma_undeclared_empty,
            lemma_undeclared_push,
        };
        // Two names differ in their length or in one of the letters named here.
        reveal_strlit("enabled");
        reveal_strlit("priority_enabled");
        reveal_strlit("sp");
        reveal_strlit("sp_max");
        reveal_strlit("sp_min");
        reveal_strlit("state");
        assert("enabled"@.len() == 7);
        assert("priority_enabled"@.len() == 16);
        assert("sp"@.len() == 2);
        assert("sp_max"@.len() == 6 && "sp_max"@[4] == 'a');
        assert("sp_min"@.len() == 6 && "sp_min"@[4] == 'i');
        assert("state"@.len() == 5);
        let fields = Seq::empty()
            .push(("enabled"@, usize::spec_encode(value.enabled)))
            .push(("priority_enabled"@, usize::spec_encode(value.priority_enabled)))
            .push(("sp"@, usize::spec_encode(value.sp)))
            .push(("sp_max"@, usize::spec_encode(value.sp_max)))
            .push(("sp_min"@, usize::spec_encode(value.sp_min)))
            .push(("state"@, usize::spec_encode(value.state)));
        let members = fields + value.extra;
        assert(spec_undeclared::<Heating>(fields).len() == 0);
        lemma_undeclared_close::<Heating>(fields, value.extra);
        assert(spec_open::<Heating>(Heating::spec_encode(value), mode) == Ok::<Members, DecodeErrorView>(members));
        assert(spec_field::<usize>(members, "enabled"@, mode) == Ok::<usize, DecodeErrorView>(value.enabled));
        assert(spec_field::<usize>(members, "priority_enabled"@, mode) == Ok::<usize, DecodeErrorView>(value.priority_enabled));
        assert(spec_field::<usize>(members, "sp"@, mode) == Ok::<usize, DecodeErrorView>(value.sp));
        assert(spec_field::<usize>(members, "sp_max"@, mode) == Ok::<usize, DecodeErrorView>(value.sp_max));
        assert(spec_field::<usize>(members, "sp_min"@, mode) == Ok::<usize, DecodeErrorView>(value.sp_min));
        assert(spec_field::<usize>(members, "state"@, mode) == Ok::<usize, DecodeErrorView>(value.state));
    }
}

/// What a chlorinator system reports of itself.
#[derive(Debug, PartialEq, Eq)]
pub struct ExoState {
    /// The connection to the cloud.
    pub aws: AwsState,
    pub equipment: SaltWaterChlorinatorEquipment,
    /// The firmware version.
    pub vr: String,
    pub main: Option<Json>,
    pub hmi: Option<Json>,
    pub schedules: Option<Schedules>,
    pub state: Option<Json>,
    pub heating: Option<Heating>,
    pub debug: Option<Json>,
    pub debug_main: Option<Json>,
    /// Members that the record does not declare.
    pub extra: Vec<(String, Json)>,
}

/// Mathematical model of a [`ExoState`].
pub struct ExoStateView {
    pub aws: AwsStateView,
    pub equipment: SaltWaterChlorinatorEquipmentView,
    pub vr: Seq<char>,
    pub main: Option<JsonValue>,
    pub hmi: Option<JsonValue>,
    pub schedules: Option<SchedulesView>,
    pub state: Option<JsonValue>,
    pub heating: Option<HeatingView>,
    pub debug: Option<JsonValue>,
    pub debug_main: Option<JsonValue>,
    pub extra: Members,
}

impl DeepView for ExoState {
    type V = ExoStateView;

    open spec fn deep_view(&self) -> ExoStateView {
        ExoStateView {
            aws: self.aws.deep_view(),
            equipment: self.equipment.deep_view(),
            vr: self.vr@,
            main: self.main.deep_view(),
            hmi: self.hmi.deep_view(),
            schedules: self.schedules.deep_view(),
            state: self.state.deep_view(),
            heating: self.heating.deep_view(),
            debug: self.debug.deep_view(),
            debug_main: self.debug_main.deep_view(),
            extra: self.extra.deep_view(),
        }
    }
}

impl Record for ExoState {
    open spec fn spec_declares(name: Seq<char>) -> bool {
        ||| name == "aws"@
        ||| name == "equipment"@
        ||| name == "vr"@
        ||| name == "main"@
        ||| name == "hmi"@
        ||| name == "schedules"@
        ||| name == "state"@
        ||| name == "heating"@
        ||| name == "debug"@
        ||| name == "debug_main"@
    }

    fn declares(name: &str) -> (r: bool) {
        same_text(name, "aws") || same_text(name, "equipment") || same_text(name, "vr")
            || same_text(name, "main") || same_text(name, "hmi") || same_text(name, "schedules")
            || same_text(name, "state") || same_text(name, "heating") || same_text(name, "debug")
            || same_text(name, "debug_main")
    }
}

impl ExoState {
    /// What a document is read as.
    #[verifier::opaque]
    pub open spec fn spec_read(doc: JsonValue, mode: Strictness) -> Result<ExoStateView, DecodeErrorView> {
        match spec_open::<ExoState>(doc, mode) { Err(e) => Err(e), Ok(members) =>
        match spec_field::<AwsState>(members, "aws"@, mode) { Err(e) => Err(e), Ok(aws) =>
        match spec_field::<SaltWaterChlorinatorEquipment>(members, "equipment"@, mode) { Err(e) => Err(e), Ok(equipment) =>
        match spec_field::<String>(members, "vr"@, mode) { Err(e) => Err(e), Ok(vr) =>
        match spec_field::<Option<Json>>(members, "main"@, mode) { Err(e) => Err(e), Ok(main) =>
        match spec_field::<Option<Json>>(members, "hmi"@, mode) { Err(e) => Err(e), Ok(hmi) =>
        match spec_field::<Option<Schedules>>(members, "schedules"@, mode) { Err(e) => Err(e), Ok(schedules) =>
        match spec_field::<Option<Json>>(members, "state"@, mode) { Err(e) => Err(e), Ok(state) =>
        match spec_field::<Option<Heating>>(members, "heating"@, mode) { Err(e) => Err(e), Ok(heating) =>
        match spec_field::<Option<Json>>(members, "debug"@, mode) { Err(e) => Err(e), Ok(debug) =>
        match spec_field::<Option<Json>>(members, "debug_main"@, mode) { Err(e) => Err(e), Ok(debug_main) =>
            Ok(ExoStateView {
                aws,
                equipment,
                vr,
                main,
                hmi,
                schedules,
                state,
                heating,
                debug,
                debug_main,
                extra: spec_undeclared::<ExoState>(members),
            })
        }}}}}}}}}}}
    }

    /// The document that a value is written as.
    #[verifier::opaque]
    pub open spec fn spec_write(value: ExoStateView) -> JsonValue {
        spec_close(
            Seq::empty()
                .push(("aws"@, AwsState::spec_encode(value.aws)))
                .push(("equipment"@, SaltWaterChlorinatorEquipment::spec_encode(value.equipment)))
                .push(("vr"@, String::spec_encode(value.vr)))
                .push(("main"@, Option::<Json>::spec_encode(value.main)))
                .push(("hmi"@, Option::<Json>::spec_encode(value.hmi)))
                .push(("schedules"@, Option::<Schedules>::spec_encode(value.schedules)))
                .push(("state"@, Option::<Json>::spec_encode(value.state)))
                .push(("heating"@, Option::<Heating>::spec_encode(value.heating)))
                .push(("debug"@, Option::<Json>::spec_encode(value.debug)))
                .push(("debug_main"@, Option::<Json>::spec_encode(value.debug_main))),
            value.extra,
        )
    }
}

impl Decode for ExoState {
    open spec fn spec_decode(doc: JsonValue, mode: Strictness) -> Result<ExoStateView, DecodeErrorView> {
        ExoState::spec_read(doc, mode)
    }

    open spec fn spec_absent() -> Option<ExoStateView> {
        None
    }

    fn decode(doc: &Json, mode: Strictness) -> (r: Result<ExoState, DecodeError>) {
        reveal(ExoState::spec_read);
        let members = open::<ExoState>(doc, mode)?;
        let aws = field::<AwsState>(members, "aws", mode)?;
        let equipment = field::<SaltWaterChlorinatorEquipment>(members, "equipment", mode)?;
        let vr = field::<String>(members, "vr", mode)?;
        let main = field::<Option<Json>>(members, "main", mode)?;
        let hmi = field::<Option<Json>>(members, "hmi", mode)?;
        let schedules = field::<Option<Schedules>>(members, "schedules", mode)?;
        let state = field::<Option<Json>>(members, "state", mode)?;
        let heating = field::<Option<Heating>>(members, "heating", mode)?;
        let debug = field::<Option<Json>>(members, "debug", mode)?;
        let debug_main = field::<Option<Json>>(members, "debug_main", mode)?;
        let extra = undeclared::<ExoState>(members);
        Ok(ExoState {
            aws,
            equipment,
            vr,
            main,
            hmi,
            schedules,
            state,
            heating,
            debug,
            debug_main,
            extra,
        })
    }

    fn absent() -> (r: Option<ExoState>) {
        None
    }
}

impl Encode for ExoState {
    open spec fn spec_encode(value: ExoStateView) -> JsonValue {
        ExoState::spec_write(value)
    }

    open spec fn faithful(value: ExoStateView, mode: Strictness) -> bool {
        &&& AwsState::faithful(value.aws, mode)
        &&& SaltWaterChlorinatorEquipment::faithful(value.equipment, mode)
        &&& Option::<Json>::faithful(value.main, mode)
        &&& Option::<Json>::faithful(value.hmi, mode)
        &&& Option::<Schedules>::faithful(value.schedules, mode)
        &&& Option::<Json>::faithful(value.state, mode)
        &&& Option::<Heating>::faithful(value.heating, mode)
        &&& Option::<Json>::faithful(value.debug, mode)
        &&& Option::<Json>::faithful(value.debug_main, mode)
        &&& carried::<ExoState>(value.extra, mode)
    }

    fn encode(&self) -> (r: Json) {
        reveal(ExoState::spec_write);
        let mut fields = start();
        put(&mut fields, "aws", self.aws.encode());
        put(&mut fields, "equipment", self.equipment.encode());
        put(&mut fields, "vr", self.vr.encode());
        put(&mut fields, "main", self.main.encode());
        put(&mut fields, "hmi", self.hmi.encode());
        put(&mut fields, "schedules", self.schedules.encode());
        put(&mut fields, "state", self.state.encode());
        put(&mut fields, "heating", self.heating.encode());
        put(&mut fields, "debug", self.debug.encode());
        put(&mut fields, "debug_main", self.debug_main.encode());
        close(fields, &self.extra)
    }

    proof fn round_trip(value: ExoStateView, mode: Strictness) {
        reveal(ExoState::spec_read);
        reveal(ExoState::spec_write);
        broadcast use {
            lemma_lookup_empty,
            lemma_lookup_push,
            lemma_lookup_add,
            lemma_undeclared_empty,
            lemma_undeclared_push,
        };
        // Two names differ in their length or in one of the letters named here.
        reveal_strlit("aws");
        reveal_strlit("equipment");
        reveal_strlit("vr");
        reveal_strlit("main");
        reveal_strlit("hmi");
        reveal_strlit("schedules");
        reveal_strlit("state");
        reveal_strlit("heating");
        reveal_strlit("debug");
        reveal_strlit("debug_main");
        assert("aws"@.len() == 3 && "aws"@[0] == 'a');
        assert("equipment"@.len() == 9 && "equipment"@[0] == 'e');
        assert("vr"@.len() == 2);
        assert("main"@.len() == 4);
        assert("hmi"@.len() == 3 && "hmi"@[0] == 'h');
        assert("schedules"@.len() == 9 && "schedules"@[0] == 's');
        assert("state"@.len() == 5 && "state"@[0] == 's');
        assert("heating"@.len() == 7);
        assert("debug"@.len() == 5 && "debug"@[0] == 'd');
        assert("debug_main"@.len() == 10);
        AwsState::round_trip(value.aws, mode);
        SaltWaterChlorinatorEquipment::round_trip(value.equipment, mode);
        Option::<Json>::round_trip(value.main, mode);
        Option::<Json>::round_trip(value.hmi, mode);
        Option::<Schedules>::round_trip(value.schedules, mode);
        Option::<Json>::round_trip(value.state, mode);
        Option::<Heating>::round_trip(value.heating, mode);
        Option::<Json>::round_trip(value.debug, mode);
        Option::<Json>::round_trip(value.debug_main, mode);
        let fields = Seq::empty()
            .push(("aws"@, AwsState::spec_encode(value.aws)))
            .push(("equipment"@, SaltWaterChlorinatorEquipment::spec_encode(value.equipment)))
            .push(("vr"@, String::spec_encode(value.vr)))
            .push(("main"@, Option::<Json>::spec_encode(value.main)))
            .push(("hmi"@, Option::<Json>::spec_encode(value.hmi)))
            .push(("schedules"@, Option::<Schedules>::spec_encode(value.schedules)))
            .push(("state"@, Option::<Json>::spec_encode(value.state)))
            .push(("heating"@, Option::<Heating>::spec_encode(value.heating)))
            .push(("debug"@, Option::<Json>::spec_encode(value.debug)))
            .push(("debug_main"@, Option::<Json>::spec_encode(value.debug_main)));
        let members = fields + value.extra;
        assert(spec_undeclared::<ExoState>(fields).len() == 0);
        lemma_undeclared_close::<ExoState>(fields, value.extra);
        assert(spec_open::<ExoState>(ExoState::spec_encode(value), mode) == Ok::<Members, DecodeErrorView>(members));
        assert(spec_field::<AwsState>(members, "aws"@, mode) == Ok::<AwsStateView, DecodeErrorView>(value.aws));
        assert(spec_field::<SaltWaterChlorinatorEquipment>(members, "equipment"@, mode) == Ok::<SaltWaterChlorinatorEquipmentView, DecodeErrorView>(value.equipment));
        assert(spec_field::<String>(members, "vr"@, mode) == Ok::<Seq<char>, DecodeErrorView>(value.vr));
        assert(spec_field::<Option<Json>>(members, "main"@, mode) == Ok::<Option<JsonValue>, DecodeErrorView>(value.main));
        assert(spec_field::<Option<Json>>(members, "hmi"@, mode) == Ok::<Option<JsonValue>, DecodeErrorView>(value.hmi));
        assert(spec_field::<Option<Schedules>>(members, "schedules"@, mode) == Ok::<Option<SchedulesView>, DecodeErrorView>(value.schedules));
        assert(spec_field::<Option<Json>>(members, "state"@, mode) == Ok::<Option<JsonValue>, DecodeErrorView>(value.state));
        assert(spec_field::<Option<Heating>>(members, "heating"@, mode) == Ok::<Option<HeatingView>, DecodeErrorView>(value.heating));
        assert(spec_field::<Option<Json>>(members, "debug"@, mode) == Ok::<Option<JsonValue>, DecodeErrorView>(value.debug));
        assert(spec_field::<Option<Json>>(members, "debug_main"@, mode) == Ok::<Option<JsonValue>, DecodeErrorView>(value.debug_main));
    }
}

impl Color {
    /// The numbers 0 to 13 stand for a lighting effect, 0 for the first and 13 for the last,
    /// and no other number does: a document of any other number is refused.
    pub proof fn lemma_codes(code: int, mode: Strictness)
        ensures
            Color::spec_from_code(code) is Some <==> 0 <= code <= 13,
            Color::spec_from_code(0) == Some(Color::AlpineWhite),
            Color::spec_from_code(13) == Some(Color::DiscoStyle),
            Color::spec_decode(JsonValue::Number(JsonNumber::Int(code)), mode) is Ok <==> 0 <= code <= 13,
            !(0 <= code <= 13) ==> Color::spec_decode(JsonValue::Number(JsonNumber::Int(code)), mode) == Err::<
                Color,
                DecodeErrorView,
            >(DecodeErrorView::Mismatch(Expected::Color)),
    {
    }
}

impl Schedules {
    /// Schedules are read only from an object that holds each of the six slots, and in
    /// strict mode nothing under any name that the record does not declare.
    pub proof fn lemma_slots(doc: JsonValue, mode: Strictness)
        requires
            Schedules::spec_decode(doc, mode) is Ok,
        ensures
            doc matches JsonValue::Object(members) && {
                &&& lookup(members, "sch1"@) is Some
                &&& lookup(members, "sch2"@) is Some
                &&& lookup(members, "sch3"@) is Some
                &&& lookup(members, "sch4"@) is Some
                &&& lookup(members, "sch9"@) is Some
                &&& lookup(members, "sch10"@) is Some
                &&& mode == Strictness::Strict ==> forall|i: int|
                    0 <= i < members.len() ==> Schedules::spec_declares((#[trigger] members[i]).0)
            },
    {
        reveal(Schedules::spec_read);
        let members = doc->Object_0;
        if mode == Strictness::Strict {
            lemma_all_declared::<Schedules>(members);
        }
    }

    /// An object without one of the six slots is refused, for the first that it misses.
    pub proof fn lemma_slot_missing(members: Members, name: Seq<char>)
        requires
            name == "sch1"@ || name == "sch2"@ || name == "sch3"@ || name == "sch4"@ || name == "sch9"@ || name
                == "sch10"@,
            lookup(members, name) is None,
        ensures
            Schedules::spec_decode(JsonValue::Object(members), Strictness::Lenient) is Err,
            Schedules::spec_decode(JsonValue::Object(members), Strictness::Strict) is Err,
    {
        reveal(Schedules::spec_read);
    }
}

impl Heating {
    /// An object that holds anything under a name that the record does not declare is
    /// refused in strict mode. In lenient mode what is read of it holds the member beside the
    /// declared fields, and writes it back as it was.
    pub proof fn lemma_unknown_field(members: Members, name: Seq<char>)
        requires
            !Heating::spec_declares(name),
            lookup(members, name) is Some,
        ensures
            Heating::spec_decode(JsonValue::Object(members), Strictness::Strict) matches Err(
                DecodeErrorView::UnknownField(_),
            ),
            Heating::spec_decode(JsonValue::Object(members), Strictness::Lenient) matches Ok(heating) ==> {
                &&& lookup(heating.extra, name) == lookup(members, name)
                &&& Heating::spec_encode(heating) matches JsonValue::Object(written)
                &&& lookup(written, name) == lookup(members, name)
            },
    {
        reveal(Heating::spec_read);
        reveal(Heating::spec_write);
        broadcast use {lemma_lookup_empty, lemma_lookup_push, lemma_lookup_add};
        lemma_unknown_refused::<Heating>(members, name);
        lemma_undeclared_lookup::<Heating>(members, name);
    }
}

} // verus!
