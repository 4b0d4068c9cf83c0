//! Typed model of the shadow documents of pool equipment, and of the messages of their update
//! feed: chlorinator systems, robotic cleaners, and whatever the vendor adds to either.

pub mod account;
pub mod document;
pub mod error;
pub mod exo;
pub mod json;
pub mod merge;
pub mod mirror;
pub mod mqtt;
pub mod record;
pub mod robot;
pub mod shadow;
pub mod subscription;
pub mod text;
pub mod time;
pub mod vr;
pub mod wire;

pub use account::{
    decimal, ApiRequest, Client, CognitoPool, Credentials, LoginResponse, Method, PoolOAuth, System,
    IAQUALINK_API_KEY, IAQUALINK_AWSIOT_ENDPOINT, IAQUALINK_COMMAND_GET_DEVICES, IAQUALINK_COMMAND_GET_HOME,
    IAQUALINK_COMMAND_GET_ONETOUCH, IAQUALINK_COMMAND_SET_AUX, IAQUALINK_COMMAND_SET_LIGHT,
    IAQUALINK_COMMAND_SET_POOL_HEATER, IAQUALINK_COMMAND_SET_POOL_PUMP, IAQUALINK_COMMAND_SET_SOLAR_HEATER,
    IAQUALINK_COMMAND_SET_SPA_HEATER, IAQUALINK_COMMAND_SET_SPA_PUMP, IAQUALINK_COMMAND_SET_TEMPS,
    IAQUALINK_DEVICES_URL, IAQUALINK_DEVICES_V1_URL, IAQUALINK_DEVICES_V2_URL, IAQUALINK_LOGIN_URL,
    IAQUALINK_SESSION_URL,
};
pub use document::from_text;
pub use error::{DecodeError, Expected, Strictness};
pub use exo::{
    Auxiliary, Color, ExoState, FilterPump, Heating, SaltWaterChlorinator, SaltWaterChlorinatorEquipment, Schedule,
    Schedules, Sensor, Timer, VspSpeed,
};
pub use json::{find, Json, Number};
pub use mirror::{has_no_leaf, has_no_stamp, mirrors, mirrors_if_present};
pub use mqtt::{
    MessageKind, MqttDocumentsState, MqttMetadata, MqttMetadataTimestamp, MqttResponse, MqttState, Rejected,
    UpdateAccepted, UpdateDelta, UpdateDocuments,
};
pub use robot::{Durations, Robot, RobotSensor, RobotSensors};
pub use shadow::{AwsState, AwsStateStatus, DeviceShadow, DeviceState, Equipment, ReportedState, State};
pub use subscription::{
    Connection, DecodeFailure, Event, Note, Phase, ShadowTopic, SigningFailure, Step, Subscription,
};
pub use time::Instant;
pub use vr::{EboxData, RobotEquipment, VrState};
pub use wire::{Decode, Encode, Record};
