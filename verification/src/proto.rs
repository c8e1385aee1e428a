//! SAPIENT messages (BSI Flex 335 v2.0), as far as the bridge reads or writes
//! them.
//!
//! Real-valued fields hold the bit pattern of the number. Parts of a message
//! that the bridge only carries are held in their encoded form.

use crate::schema::WireEnum;
use vstd::prelude::*;

verus! {

/// Seconds and nanoseconds since the Unix epoch.
#[derive(Clone, Copy, Debug, PartialEq, Eq, Structural, Default)]
pub struct ProtoTimestamp {
    pub seconds: i64,
    pub nanos: i32,
}

#[derive(Clone, Copy, Debug, PartialEq, Eq, Structural)]
pub enum LocationCoordinateSystem {
    Unspecified,
    LatLngDegM,
    LatLngRadM,
    UtmM,
}

#[derive(Clone, Copy, Debug, PartialEq, Eq, Structural)]
pub enum LocationDatum {
    Unspecified,
    Wgs84E,
    Wgs84G,
}

/// A location in one of the SAPIENT coordinate systems. The coordinates are
/// double precision bits.
#[derive(Clone, Debug, PartialEq, Eq, Default)]
pub struct Location {
    pub x: Option<u64>,
    pub y: Option<u64>,
    pub z: Option<u64>,
    pub coordinate_system: Option<WireEnum<LocationCoordinateSystem>>,
    pub datum: Option<WireEnum<LocationDatum>>,
    pub utm_zone: Option<String>,
}

/// A location relative to the sensor: double precision bits.
#[derive(Clone, Debug, PartialEq, Eq, Default)]
pub struct RangeBearing {
    pub range: Option<u64>,
    pub azimuth: Option<u64>,
    pub elevation: Option<u64>,
    pub range_error: Option<u64>,
}

#[derive(Clone, Debug, PartialEq, Eq)]
pub enum LocationOneof {
    Location(Location),
    RangeBearing(RangeBearing),
}

/// Velocity by east, north and up rate: double precision bits.
#[derive(Clone, Copy, Debug, PartialEq, Eq, Structural, Default)]
pub struct EnuVelocity {
    pub east_rate: Option<u64>,
    pub north_rate: Option<u64>,
    pub up_rate: Option<u64>,
}

/// One classification of a detected object.
#[derive(Clone, Debug, PartialEq, Eq, Default)]
pub struct DetectionReportClassification {
    pub type_label: Option<String>,
    /// Single precision bits.
    pub confidence: Option<u32>,
}

/// One observed behaviour of a detected object.
#[derive(Clone, Debug, PartialEq, Eq, Default)]
pub struct Behaviour {
    pub type_label: Option<String>,
}

#[derive(Clone, Debug, PartialEq, Eq, Default)]
pub struct DetectionReport {
    pub report_id: Option<String>,
    pub object_id: Option<String>,
    pub location_oneof: Option<LocationOneof>,
    /// Single precision bits.
    pub detection_confidence: Option<u32>,
    pub classification: Vec<DetectionReportClassification>,
    pub behaviour: Vec<Behaviour>,
    pub velocity: Option<EnuVelocity>,
    pub colour: Option<String>,
    pub id: Option<String>,
}

#[derive(Clone, Copy, Debug, PartialEq, Eq, Structural)]
pub enum NodeType {
    Unspecified,
    Other,
    Radar,
    Lidar,
    Camera,
    Seismic,
    Acoustic,
    ProximitySensor,
    PassiveRf,
    Human,
    Chemical,
    Biological,
    Radiation,
    Kinetic,
    Jammer,
    Cyber,
    Ldew,
    Rfdew,
    MobileNode,
    PointableNode,
    FusionNode,
}

#[derive(Clone, Debug, PartialEq, Eq, Default)]
pub struct NodeDefinition {
    pub node_type: Option<WireEnum<NodeType>>,
    pub node_sub_type: Vec<String>,
}

#[derive(Clone, Debug, PartialEq, Eq, Default)]
pub struct ConfigurationData {
    pub manufacturer: String,
    pub model: String,
    pub software_version: Option<String>,
}

/// Something that a node can do, in its own words.
#[derive(Clone, Debug, PartialEq, Eq, Default)]
pub struct Capability {
    pub category: Option<String>,
    pub type_label: Option<String>,
    pub value: Option<String>,
    pub units: Option<String>,
}

/// Units of time that the bridge writes; others are held by their number.
#[derive(Clone, Copy, Debug, PartialEq, Eq, Structural)]
pub enum TimeUnits {
    Unspecified,
    Seconds,
}

#[derive(Clone, Debug, PartialEq, Eq, Default)]
pub struct SapientDuration {
    pub units: Option<WireEnum<TimeUnits>>,
    /// Single precision bits.
    pub value: Option<u32>,
}

/// How a node reports its status.
#[derive(Clone, Debug, PartialEq, Eq, Default)]
pub struct StatusDefinition {
    pub status_interval: Option<SapientDuration>,
}

/// Types of mode that the bridge writes; others are held by their number.
#[derive(Clone, Copy, Debug, PartialEq, Eq, Structural)]
pub enum ModeType {
    Unspecified,
    Permanent,
}

/// Types of region that the bridge writes; others are held by their number.
#[derive(Clone, Copy, Debug, PartialEq, Eq, Structural)]
pub enum RegionType {
    Unspecified,
    AreaOfInterest,
}

/// How a node gives locations.
#[derive(Clone, Debug, PartialEq, Eq, Default)]
pub struct LocationType {
    pub location_units: Option<WireEnum<LocationCoordinateSystem>>,
    pub location_datum: Option<WireEnum<LocationDatum>>,
}

/// What regions a node takes.
#[derive(Clone, Debug, PartialEq, Eq, Default)]
pub struct RegionDefinition {
    pub region_type: Vec<WireEnum<RegionType>>,
    pub region_area: Vec<LocationType>,
}

/// What tasks a node takes.
#[derive(Clone, Debug, PartialEq, Eq, Default)]
pub struct TaskDefinition {
    pub concurrent_tasks: Option<i32>,
    pub region_definition: Option<RegionDefinition>,
}

/// A mode of operation of a node.
#[derive(Clone, Debug, PartialEq, Eq, Default)]
pub struct ModeDefinition {
    pub mode_name: Option<String>,
    pub mode_type: Option<WireEnum<ModeType>>,
    pub mode_description: Option<String>,
    pub settle_time: Option<SapientDuration>,
    pub task: Option<TaskDefinition>,
}

#[derive(Clone, Debug, PartialEq, Eq, Default)]
pub struct Registration {
    pub node_definition: Vec<NodeDefinition>,
    pub icd_version: Option<String>,
    pub name: Option<String>,
    pub short_name: Option<String>,
    pub capabilities: Vec<Capability>,
    pub status_definition: Option<StatusDefinition>,
    pub mode_definition: Vec<ModeDefinition>,
    pub config_data: Vec<ConfigurationData>,
}

#[derive(Clone, Debug, PartialEq, Eq, Default)]
pub struct RegistrationAck {
    pub acceptance: Option<bool>,
    pub ack_response_reason: Vec<String>,
}

#[derive(Clone, Copy, Debug, PartialEq, Eq, Structural)]
pub enum System {
    Unspecified,
    Okay,
    Warning,
    Error,
    Goodbye,
}

/// Whether a status report says something new.
#[derive(Clone, Copy, Debug, PartialEq, Eq, Structural)]
pub enum StatusInfo {
    Unspecified,
    New,
    Unchanged,
}

#[derive(Clone, Debug, PartialEq, Eq, Default)]
pub struct Power {
    /// Remaining power in percent.
    pub level: Option<i32>,
}

#[derive(Clone, Debug, PartialEq, Eq, Default)]
pub struct StatusReport {
    pub report_id: Option<String>,
    pub system: Option<WireEnum<System>>,
    pub info: Option<WireEnum<StatusInfo>>,
    pub node_location: Option<Location>,
    pub power: Option<Power>,
    /// Field of view, in its encoded form.
    pub field_of_view: Option<Vec<u8>>,
    pub mode: Option<String>,
}

#[derive(Clone, Copy, Debug, PartialEq, Eq, Structural)]
pub enum Control {
    Unspecified,
    Start,
    Stop,
    Pause,
}

#[derive(Clone, Debug, PartialEq, Eq, Default)]
pub struct Task {
    pub task_id: Option<String>,
    pub task_name: Option<String>,
    pub task_description: Option<String>,
    pub control: Option<WireEnum<Control>>,
    pub task_start_time: Option<ProtoTimestamp>,
    pub task_end_time: Option<ProtoTimestamp>,
    /// Regions, each in its encoded form.
    pub region: Vec<Vec<u8>>,
    /// Command, in its encoded form.
    pub command: Option<Vec<u8>>,
}

#[derive(Clone, Copy, Debug, PartialEq, Eq, Structural)]
pub enum TaskStatus {
    Unspecified,
    Accepted,
    Rejected,
    Completed,
    Failed,
}

#[derive(Clone, Debug, PartialEq, Eq, Default)]
pub struct TaskAck {
    pub task_id: Option<String>,
    pub task_status: Option<WireEnum<TaskStatus>>,
    pub reason: Vec<String>,
}

#[derive(Clone, Copy, Debug, PartialEq, Eq, Structural)]
pub enum AlertType {
    Unspecified,
    Information,
    Warning,
    Critical,
    Error,
    Fatal,
    ModeChange,
}

#[derive(Clone, Copy, Debug, PartialEq, Eq, Structural)]
pub enum AlertStatus {
    Unspecified,
    Active,
    Acknowledge,
    Reject,
    Ignore,
    Clear,
}

#[derive(Clone, Copy, Debug, PartialEq, Eq, Structural)]
pub enum DiscretePriority {
    Unspecified,
    Low,
    Medium,
    High,
}

#[derive(Clone, Debug, PartialEq, Eq, Default)]
pub struct AssociatedDetection {
    pub object_id: Option<String>,
}

#[derive(Clone, Debug, PartialEq, Eq, Default)]
pub struct Alert {
    pub alert_id: Option<String>,
    pub alert_type: Option<WireEnum<AlertType>>,
    pub status: Option<WireEnum<AlertStatus>>,
    pub priority: Option<WireEnum<DiscretePriority>>,
    pub description: Option<String>,
    /// Single precision bits.
    pub confidence: Option<u32>,
    /// Single precision bits.
    pub ranking: Option<u32>,
    pub location_oneof: Option<LocationOneof>,
    pub region_id: Option<String>,
    pub associated_detection: Vec<AssociatedDetection>,
    pub additional_information: Option<String>,
}

/// Wire values of an alert acknowledgement's status.
#[derive(Clone, Copy, Debug, PartialEq, Eq, Structural)]
pub enum ProtoAlertAckStatus {
    Unspecified,
    Accepted,
    Rejected,
    Cancelled,
}

#[derive(Clone, Debug, PartialEq, Eq, Default)]
pub struct AlertAck {
    pub alert_id: Option<String>,
    pub reason: Vec<String>,
    pub alert_ack_status: Option<WireEnum<ProtoAlertAckStatus>>,
}

#[derive(Clone, Debug, PartialEq, Eq, Default)]
pub struct SapientProtoError {
    pub packet: Option<Vec<u8>>,
    pub error_message: Vec<String>,
}

/// The body of a message.
#[derive(Clone, Debug, PartialEq, Eq)]
pub enum Content {
    Registration(Registration),
    RegistrationAck(RegistrationAck),
    StatusReport(StatusReport),
    DetectionReport(DetectionReport),
    Task(Task),
    TaskAck(TaskAck),
    Alert(Alert),
    AlertAck(AlertAck),
    Error(SapientProtoError),
}

#[derive(Clone, Debug, PartialEq, Eq, Default)]
pub struct SapientMessage {
    pub timestamp: Option<ProtoTimestamp>,
    pub node_id: Option<String>,
    pub destination_id: Option<String>,
    pub content: Option<Content>,
    pub additional_information: Option<String>,
}

} // verus!
