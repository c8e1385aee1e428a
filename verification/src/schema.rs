//! Mesh-side data model: tracks, platforms and commands.
//!
//! Real-valued fields hold the bit pattern of the number (IEEE 754), 64 bits
//! wide for coordinates and 32 bits wide for the rest, so that every value
//! passes through unchanged.

use crate::text::{copy_option, text_option};
use vstd::prelude::*;

verus! {

/// Bit pattern of the single-precision number one.
pub const SINGLE_ONE: u32 = 0x3f80_0000;

/// A field of an open enumeration: a known value, or a number outside the
/// set of known ones.
#[derive(Clone, Copy, Debug, PartialEq, Eq)]
pub enum WireEnum<T> {
    Known(T),
    Unknown(i32),
}

/// The known value of an open enumeration field, or a stand-in.
pub open spec fn known_or<T>(field: WireEnum<T>, default: T) -> T {
    match field {
        WireEnum::Known(value) => value,
        WireEnum::Unknown(_) => default,
    }
}

/// Seconds and nanoseconds since the Unix epoch.
#[derive(Clone, Copy, Debug, PartialEq, Eq, Structural, Default)]
pub struct Timestamp {
    pub seconds: u64,
    pub nanos: u32,
}

/// A position with its error estimate.
#[derive(Clone, Copy, Debug, PartialEq, Eq, Structural, Default)]
pub struct TrackPosition {
    /// Degrees, double precision bits.
    pub latitude: u64,
    /// Degrees, double precision bits.
    pub longitude: u64,
    /// Metres, single precision bits.
    pub altitude: u32,
    /// Circular error, metres, single precision bits.
    pub cep_m: u32,
    /// Vertical error, metres, single precision bits.
    pub vertical_error_m: u32,
}

/// A plain position: degrees and metres, double precision bits.
#[derive(Clone, Copy, Debug, PartialEq, Eq, Structural, Default)]
pub struct Position {
    pub latitude: u64,
    pub longitude: u64,
    pub altitude: u64,
}

/// Motion of a track: single precision bits.
#[derive(Clone, Copy, Debug, PartialEq, Eq, Structural, Default)]
pub struct Velocity {
    /// Degrees clockwise from north.
    pub bearing: u32,
    pub speed_mps: u32,
    pub vertical_speed_mps: u32,
}

#[derive(Clone, Copy, Debug, PartialEq, Eq, Structural)]
pub enum TrackState {
    Unspecified,
    Confirmed,
}

#[derive(Clone, Copy, Debug, PartialEq, Eq, Structural)]
pub enum SourceType {
    Unspecified,
    Sensor,
}

/// Where a track came from.
#[derive(Clone, Debug, PartialEq, Eq)]
pub struct TrackSource {
    pub node_id: String,
    pub sensor_id: String,
    pub model_version: String,
    pub source_type: SourceType,
}

/// A tracked object.
#[derive(Clone, Debug, PartialEq, Eq)]
pub struct Track {
    pub track_id: String,
    pub classification: String,
    /// Single precision bits.
    pub confidence: u32,
    pub position: Option<TrackPosition>,
    pub velocity: Option<Velocity>,
    pub state: TrackState,
    pub source: Option<TrackSource>,
    pub attributes_json: String,
    pub first_seen: Option<Timestamp>,
    pub last_seen: Option<Timestamp>,
    pub observation_count: u32,
}

/// What a [`TrackSource`] says.
#[verifier::ext_equal]
pub struct TrackSourceModel {
    pub node_id: Seq<char>,
    pub sensor_id: Seq<char>,
    pub model_version: Seq<char>,
    pub source_type: SourceType,
}

impl View for TrackSource {
    type V = TrackSourceModel;

    open spec fn view(&self) -> TrackSourceModel {
        TrackSourceModel {
            node_id: self.node_id@,
            sensor_id: self.sensor_id@,
            model_version: self.model_version@,
            source_type: self.source_type,
        }
    }
}

/// What a [`Track`] says.
#[verifier::ext_equal]
pub struct TrackModel {
    pub track_id: Seq<char>,
    pub classification: Seq<char>,
    pub confidence: u32,
    pub position: Option<TrackPosition>,
    pub velocity: Option<Velocity>,
    pub state: TrackState,
    pub source: Option<TrackSourceModel>,
    pub attributes_json: Seq<char>,
    pub first_seen: Option<Timestamp>,
    pub last_seen: Option<Timestamp>,
    pub observation_count: u32,
}

impl View for Track {
    type V = TrackModel;

    open spec fn view(&self) -> TrackModel {
        TrackModel {
            track_id: self.track_id@,
            classification: self.classification@,
            confidence: self.confidence,
            position: self.position,
            velocity: self.velocity,
            state: self.state,
            source: match self.source {
                Some(source) => Some(source@),
                None => None,
            },
            attributes_json: self.attributes_json@,
            first_seen: self.first_seen,
            last_seen: self.last_seen,
            observation_count: self.observation_count,
        }
    }
}

#[derive(Clone, Copy, Debug, PartialEq, Eq, Structural)]
pub enum CapabilityType {
    Unspecified,
    Sensor,
    Compute,
    Communication,
    Mobility,
    Payload,
}

#[derive(Clone, Copy, Debug, PartialEq, Eq, Structural)]
pub enum OperationalStatus {
    Unspecified,
    Ready,
    Active,
    Degraded,
    Offline,
    Maintenance,
}

#[derive(Clone, Copy, Debug, PartialEq, Eq, Structural)]
pub enum HealthStatus {
    Unspecified,
    Nominal,
    Degraded,
    Critical,
    Failed,
}

#[derive(Clone, Copy, Debug, PartialEq, Eq, Structural)]
pub enum Phase {
    Unspecified,
    Discovery,
    Cell,
    Hierarchy,
}

/// One advertised capability.
#[derive(Debug, PartialEq, Eq)]
pub struct Capability {
    pub id: String,
    pub name: String,
    pub capability_type: CapabilityType,
    /// Single precision bits.
    pub confidence: u32,
    pub metadata_json: String,
    pub registered_at: Option<Timestamp>,
}

/// What a [`Capability`] says.
#[verifier::ext_equal]
pub struct CapabilityModel {
    pub id: Seq<char>,
    pub name: Seq<char>,
    pub capability_type: CapabilityType,
    pub confidence: u32,
    pub metadata_json: Seq<char>,
    pub registered_at: Option<Timestamp>,
}

impl View for Capability {
    type V = CapabilityModel;

    open spec fn view(&self) -> CapabilityModel {
        CapabilityModel {
            id: self.id@,
            name: self.name@,
            capability_type: self.capability_type,
            confidence: self.confidence,
            metadata_json: self.metadata_json@,
            registered_at: self.registered_at,
        }
    }
}

impl Clone for Capability {
    fn clone(&self) -> (copy: Self)
        ensures
            copy == *self,
    {
        Capability {
            id: self.id.clone(),
            name: self.name.clone(),
            capability_type: self.capability_type,
            confidence: self.confidence,
            metadata_json: self.metadata_json.clone(),
            registered_at: self.registered_at,
        }
    }
}

/// Resource levels of a node. The utilizations are single precision bits.
#[derive(Debug, PartialEq, Eq)]
pub struct ResourceStatus {
    pub compute_utilization: u32,
    pub memory_utilization: u32,
    /// Remaining power in whole percent.
    pub power_percent: u32,
    pub storage_utilization: u32,
    pub bandwidth_utilization: u32,
    pub extra_json: String,
}

/// What a [`ResourceStatus`] says.
#[verifier::ext_equal]
pub struct ResourceStatusModel {
    pub compute_utilization: u32,
    pub memory_utilization: u32,
    pub power_percent: u32,
    pub storage_utilization: u32,
    pub bandwidth_utilization: u32,
    pub extra_json: Seq<char>,
}

impl View for ResourceStatus {
    type V = ResourceStatusModel;

    open spec fn view(&self) -> ResourceStatusModel {
        ResourceStatusModel {
            compute_utilization: self.compute_utilization,
            memory_utilization: self.memory_utilization,
            power_percent: self.power_percent,
            storage_utilization: self.storage_utilization,
            bandwidth_utilization: self.bandwidth_utilization,
            extra_json: self.extra_json@,
        }
    }
}

impl Clone for ResourceStatus {
    fn clone(&self) -> (copy: Self)
        ensures
            copy == *self,
    {
        ResourceStatus {
            compute_utilization: self.compute_utilization,
            memory_utilization: self.memory_utilization,
            power_percent: self.power_percent,
            storage_utilization: self.storage_utilization,
            bandwidth_utilization: self.bandwidth_utilization,
            extra_json: self.extra_json.clone(),
        }
    }
}

/// What a node offers to the mesh.
#[derive(Debug, PartialEq, Eq)]
pub struct CapabilityAdvertisement {
    pub node_id: String,
    pub advertised_at: Option<Timestamp>,
    pub capabilities: Vec<Capability>,
    pub resources: Option<ResourceStatus>,
    pub operational_status: WireEnum<OperationalStatus>,
}

/// What a [`CapabilityAdvertisement`] says.
#[verifier::ext_equal]
pub struct AdvertisementModel {
    pub node_id: Seq<char>,
    pub advertised_at: Option<Timestamp>,
    pub capabilities: Seq<CapabilityModel>,
    pub resources: Option<ResourceStatusModel>,
    pub operational_status: WireEnum<OperationalStatus>,
}

impl View for CapabilityAdvertisement {
    type V = AdvertisementModel;

    open spec fn view(&self) -> AdvertisementModel {
        AdvertisementModel {
            node_id: self.node_id@,
            advertised_at: self.advertised_at,
            capabilities: self.capabilities@.map_values(|c: Capability| c@),
            resources: match self.resources {
                Some(resources) => Some(resources@),
                None => None,
            },
            operational_status: self.operational_status,
        }
    }
}

/// The contents of an optional advertisement.
pub open spec fn advertisement_option(
    advertisement: Option<CapabilityAdvertisement>,
) -> Option<AdvertisementModel> {
    match advertisement {
        Some(a) => Some(a@),
        None => None,
    }
}

impl Clone for CapabilityAdvertisement {
    fn clone(&self) -> (copy: Self)
        ensures
            copy@ == self@,
    {
        let mut capabilities: Vec<Capability> = Vec::new();
        let mut i: usize = 0;
        while i < self.capabilities.len()
            invariant
                i <= self.capabilities@.len(),
                capabilities@ == self.capabilities@.take(i as int),
            decreases self.capabilities@.len() - i,
        {
            capabilities.push(self.capabilities[i].clone());
            proof {
                assert(self.capabilities@.take(i as int).push(self.capabilities@[i as int])
                    =~= self.capabilities@.take(i + 1));
            }
            i = i + 1;
        }
        proof {
            assert(self.capabilities@.take(self.capabilities@.len() as int)
                =~= self.capabilities@);
        }
        CapabilityAdvertisement {
            node_id: self.node_id.clone(),
            advertised_at: self.advertised_at,
            capabilities,
            resources: match &self.resources {
                Some(resources) => Some(resources.clone()),
                None => None,
            },
            operational_status: self.operational_status,
        }
    }
}

/// The advertisement of a node that offers nothing and says nothing of its
/// status.
pub open spec fn bare_advertisement(node_id: Seq<char>) -> AdvertisementModel {
    AdvertisementModel {
        node_id,
        advertised_at: None,
        capabilities: Seq::empty(),
        resources: None,
        operational_status: WireEnum::Known(OperationalStatus::Unspecified),
    }
}

impl CapabilityAdvertisement {
    /// An advertisement with nothing but the node's identity.
    pub fn bare(node_id: &str) -> (advertisement: Self)
        ensures
            advertisement@ == bare_advertisement(node_id@),
    {
        let advertisement = CapabilityAdvertisement {
            node_id: node_id.to_owned(),
            advertised_at: None,
            capabilities: Vec::new(),
            resources: None,
            operational_status: WireEnum::Known(OperationalStatus::Unspecified),
        };
        assert(advertisement@ =~= bare_advertisement(node_id@));
        advertisement
    }
}

/// State of a node.
#[derive(Debug, PartialEq, Eq)]
pub struct NodeState {
    pub position: Option<Position>,
    /// Remaining battery in whole percent.
    pub fuel_minutes: u32,
    pub health: WireEnum<HealthStatus>,
    pub phase: WireEnum<Phase>,
    pub cell_id: Option<String>,
    pub zone_id: Option<String>,
    pub timestamp: Option<Timestamp>,
}

/// What a [`NodeState`] says.
#[verifier::ext_equal]
pub struct NodeStateModel {
    pub position: Option<Position>,
    pub fuel_minutes: u32,
    pub health: WireEnum<HealthStatus>,
    pub phase: WireEnum<Phase>,
    pub cell_id: Option<Seq<char>>,
    pub zone_id: Option<Seq<char>>,
    pub timestamp: Option<Timestamp>,
}

impl View for NodeState {
    type V = NodeStateModel;

    open spec fn view(&self) -> NodeStateModel {
        NodeStateModel {
            position: self.position,
            fuel_minutes: self.fuel_minutes,
            health: self.health,
            phase: self.phase,
            cell_id: text_option(self.cell_id),
            zone_id: text_option(self.zone_id),
            timestamp: self.timestamp,
        }
    }
}

impl Clone for NodeState {
    fn clone(&self) -> (copy: Self)
        ensures
            copy == *self,
    {
        NodeState {
            position: self.position,
            fuel_minutes: self.fuel_minutes,
            health: self.health,
            phase: self.phase,
            cell_id: copy_option(&self.cell_id),
            zone_id: copy_option(&self.zone_id),
            timestamp: self.timestamp,
        }
    }
}

/// An order to carry out a mission.
#[derive(Clone, Debug, PartialEq, Eq)]
pub struct MissionOrder {
    /// Name of the mission type, `None` where its number is not a known one.
    pub mission_type: Option<String>,
    pub mission_id: String,
    pub description: String,
}

/// An order to engage a target.
#[derive(Clone, Debug, PartialEq, Eq)]
pub struct EngagementOrder {
    pub target_id: String,
}

/// What a command asks for.
#[derive(Clone, Debug, PartialEq, Eq)]
pub enum CommandType {
    MissionOrder(MissionOrder),
    EngagementOrder(EngagementOrder),
    FormationChange,
    ConfigurationUpdate,
}

/// A command that travels down the hierarchy.
#[derive(Clone, Debug, PartialEq, Eq, Default)]
pub struct HierarchicalCommand {
    pub command_id: String,
    pub originator_id: String,
    pub command_type: Option<CommandType>,
    pub expires_at: Option<Timestamp>,
}

/// The model of a track says all that the track says.
pub proof fn law_track_model_loses_nothing(track: Track)
    ensures
        track@.track_id == track.track_id@,
        track@.classification == track.classification@,
        track@.confidence == track.confidence,
        track@.position == track.position,
        track@.velocity == track.velocity,
        track@.state == track.state,
        track@.source is Some <==> track.source is Some,
        track.source matches Some(s) ==> {
            &&& track@.source->0.node_id == s.node_id@
            &&& track@.source->0.sensor_id == s.sensor_id@
            &&& track@.source->0.model_version == s.model_version@
            &&& track@.source->0.source_type == s.source_type
        },
        track@.attributes_json == track.attributes_json@,
        track@.first_seen == track.first_seen,
        track@.last_seen == track.last_seen,
        track@.observation_count == track.observation_count,
{
}

/// The model of an advertisement says all that the advertisement says, capability
/// by capability.
pub proof fn law_advertisement_model_loses_nothing(advertisement: CapabilityAdvertisement, i: int)
    requires
        0 <= i < advertisement.capabilities@.len(),
    ensures
        advertisement@.node_id == advertisement.node_id@,
        advertisement@.advertised_at == advertisement.advertised_at,
        advertisement@.operational_status == advertisement.operational_status,
        advertisement@.capabilities.len() == advertisement.capabilities@.len(),
        ({
            let model = advertisement@.capabilities[i];
            let capability = advertisement.capabilities@[i];
            &&& model.id == capability.id@
            &&& model.name == capability.name@
            &&& model.capability_type == capability.capability_type
            &&& model.confidence == capability.confidence
            &&& model.metadata_json == capability.metadata_json@
            &&& model.registered_at == capability.registered_at
        }),
        advertisement@.resources is Some <==> advertisement.resources is Some,
        advertisement.resources matches Some(r) ==> {
            let model = advertisement@.resources->0;
            &&& model.compute_utilization == r.compute_utilization
            &&& model.memory_utilization == r.memory_utilization
            &&& model.power_percent == r.power_percent
            &&& model.storage_utilization == r.storage_utilization
            &&& model.bandwidth_utilization == r.bandwidth_utilization
            &&& model.extra_json == r.extra_json@
        },
{
}

/// The model of a node's state says all that the state says.
pub proof fn law_state_model_loses_nothing(state: NodeState)
    ensures
        state@.position == state.position,
        state@.fuel_minutes == state.fuel_minutes,
        state@.health == state.health,
        state@.phase == state.phase,
        state@.cell_id is Some <==> state.cell_id is Some,
        state.cell_id matches Some(id) ==> state@.cell_id == Some(id@),
        state@.zone_id is Some <==> state.zone_id is Some,
        state.zone_id matches Some(id) ==> state@.zone_id == Some(id@),
        state@.timestamp == state.timestamp,
{
}

/// A bare advertisement names its node and says nothing else.
pub proof fn law_bare_advertisement_says_nothing(node_id: Seq<char>)
    ensures
        bare_advertisement(node_id).node_id == node_id,
        bare_advertisement(node_id).advertised_at is None,
        bare_advertisement(node_id).capabilities.len() == 0,
        bare_advertisement(node_id).resources is None,
        bare_advertisement(node_id).operational_status == WireEnum::Known(
            OperationalStatus::Unspecified,
        ),
{
}

/// A known value is taken as it is, and only an unknown one is replaced.
pub proof fn law_known_value_is_taken<T>(value: T, number: i32, default: T)
    ensures
        known_or(WireEnum::Known(value), default) == value,
        known_or(WireEnum::Unknown(number), default) == default,
{
}

} // verus!
