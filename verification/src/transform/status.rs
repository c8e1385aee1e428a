//! `StatusReport` to [`NodeState`] and an optional change of capability.

use crate::geodesy::{
    bits_or_zero, AngleUnit, Coordinates, EnuRates, Geodesy, LengthUnit, PositionPlan,
};
use crate::proto::{Location, LocationCoordinateSystem, StatusReport, System};
use crate::schema::{
    advertisement_option, AdvertisementModel, CapabilityAdvertisement, HealthStatus, NodeState,
    NodeStateModel, OperationalStatus, Phase, Position, ResourceStatus, ResourceStatusModel,
    TrackPosition, Velocity, WireEnum,
};
use crate::transform::detection::geodetic_plan;
use vstd::prelude::*;

verus! {

/// The system state that a report gives; a number that is not a known one
/// counts as unspecified.
pub open spec fn reported_system(system: Option<WireEnum<System>>) -> System {
    match system {
        Some(WireEnum::Known(s)) => s,
        _ => System::Unspecified,
    }
}

pub open spec fn health_of(system: System) -> HealthStatus {
    match system {
        System::Okay => HealthStatus::Nominal,
        System::Warning => HealthStatus::Degraded,
        System::Error => HealthStatus::Critical,
        System::Goodbye => HealthStatus::Failed,
        System::Unspecified => HealthStatus::Unspecified,
    }
}

pub open spec fn operational_status_of(system: System) -> OperationalStatus {
    match system {
        System::Okay => OperationalStatus::Ready,
        System::Warning => OperationalStatus::Degraded,
        System::Error | System::Goodbye => OperationalStatus::Offline,
        System::Unspecified => OperationalStatus::Unspecified,
    }
}

/// How the position of a node follows from the location that it reports, if it
/// does: only latitude and longitude with metres are taken.
pub open spec fn node_position_plan(loc: Location) -> Option<PositionPlan> {
    match (loc.x, loc.y, loc.coordinate_system) {
        (
            Some(x),
            Some(y),
            Some(WireEnum::Known(LocationCoordinateSystem::LatLngDegM)),
        ) => Some(
            geodetic_plan(x, y, bits_or_zero(loc.z), AngleUnit::Degrees, LengthUnit::Metres),
        ),
        (
            Some(x),
            Some(y),
            Some(WireEnum::Known(LocationCoordinateSystem::LatLngRadM)),
        ) => Some(
            geodetic_plan(x, y, bits_or_zero(loc.z), AngleUnit::Radians, LengthUnit::Metres),
        ),
        _ => None,
    }
}

/// `position` is the position of a node that reports `loc`. The altitude passes
/// through as it stands.
pub open spec fn is_position_of<P: Fn(PositionPlan) -> Coordinates, V: Fn(EnuRates) -> Velocity>(
    geodesy: Geodesy<P, V>,
    loc: Option<Location>,
    position: Option<Position>,
) -> bool {
    match loc {
        Some(l) => match node_position_plan(l) {
            Some(plan) => position matches Some(p) && p.altitude == bits_or_zero(l.z) && exists|
                track: TrackPosition,
            | #[trigger]
                geodesy.resolves(plan, track) && p.latitude == track.latitude && p.longitude
                    == track.longitude,
            None => position is None,
        },
        None => position is None,
    }
}

/// The remaining battery in whole percent, between 0 and 100.
pub open spec fn battery_percent(msg: StatusReport) -> u32 {
    match msg.power {
        Some(power) => match power.level {
            Some(level) => if level < 0 {
                0
            } else if level > 100 {
                100
            } else {
                level as u32
            },
            None => 0,
        },
        None => 0,
    }
}

/// The state of a node that sends a report, given its position.
pub open spec fn reported_state(msg: StatusReport, position: Option<Position>) -> NodeStateModel {
    NodeStateModel {
        position,
        fuel_minutes: battery_percent(msg),
        health: WireEnum::Known(health_of(reported_system(msg.system))),
        phase: WireEnum::Known(Phase::Hierarchy),
        cell_id: None,
        zone_id: None,
        timestamp: None,
    }
}

/// The change of capability that a report amounts to: there is one where the
/// report carries a field of view or a mode.
pub open spec fn capability_change(node_id: Seq<char>, msg: StatusReport) -> Option<
    AdvertisementModel,
> {
    if msg.field_of_view is Some || msg.mode is Some {
        Some(
            AdvertisementModel {
                node_id,
                advertised_at: None,
                capabilities: Seq::empty(),
                resources: Some(
                    ResourceStatusModel {
                        compute_utilization: 0,
                        memory_utilization: 0,
                        power_percent: battery_percent(msg),
                        storage_utilization: 0,
                        bandwidth_utilization: 0,
                        extra_json: Seq::empty(),
                    },
                ),
                operational_status: WireEnum::Known(
                    operational_status_of(reported_system(msg.system)),
                ),
            },
        )
    } else {
        None
    }
}

/// `state` is the state of a node that sends `msg`.
pub open spec fn is_state_of<P: Fn(PositionPlan) -> Coordinates, V: Fn(EnuRates) -> Velocity>(
    geodesy: Geodesy<P, V>,
    msg: StatusReport,
    state: NodeStateModel,
) -> bool {
    &&& is_position_of(geodesy, msg.node_location, state.position)
    &&& state == reported_state(msg, state.position)
}

fn known_system(system: &Option<WireEnum<System>>) -> (known: System)
    ensures
        known == reported_system(*system),
{
    match system {
        Some(WireEnum::Known(s)) => *s,
        _ => System::Unspecified,
    }
}

/// The health of a node in a system state.
pub fn system_to_health(system: WireEnum<System>) -> (health: HealthStatus)
    ensures
        health == health_of(reported_system(Some(system))),
{
    match known_system(&Some(system)) {
        System::Okay => HealthStatus::Nominal,
        System::Warning => HealthStatus::Degraded,
        System::Error => HealthStatus::Critical,
        System::Goodbye => HealthStatus::Failed,
        System::Unspecified => HealthStatus::Unspecified,
    }
}

/// The operational status of a node in a system state.
pub fn system_to_operational_status(system: WireEnum<System>) -> (status: OperationalStatus)
    ensures
        status == operational_status_of(reported_system(Some(system))),
{
    match known_system(&Some(system)) {
        System::Okay => OperationalStatus::Ready,
        System::Warning => OperationalStatus::Degraded,
        System::Error => OperationalStatus::Offline,
        System::Goodbye => OperationalStatus::Offline,
        System::Unspecified => OperationalStatus::Unspecified,
    }
}

/// Resolves the location that a node reports.
pub fn location_to_position<P: Fn(PositionPlan) -> Coordinates, V: Fn(EnuRates) -> Velocity>(
    loc: &Location,
    geodesy: &Geodesy<P, V>,
) -> (position: Option<Position>)
    requires
        geodesy.total(),
    ensures
        is_position_of(*geodesy, Some(*loc), position),
{
    let (x, y) = match (loc.x, loc.y) {
        (Some(x), Some(y)) => (x, y),
        _ => return None,
    };
    let altitude: u64 = loc.z.unwrap_or(0);
    let angle = match &loc.coordinate_system {
        Some(WireEnum::Known(LocationCoordinateSystem::LatLngDegM)) => AngleUnit::Degrees,
        Some(WireEnum::Known(LocationCoordinateSystem::LatLngRadM)) => AngleUnit::Radians,
        _ => return None,
    };
    let plan = PositionPlan::Geodetic {
        latitude: y,
        longitude: x,
        angle,
        altitude,
        length: LengthUnit::Metres,
    };
    let track = geodesy.resolve(plan);
    assert(node_position_plan(*loc) == Some(plan));
    Some(Position { latitude: track.latitude, longitude: track.longitude, altitude })
}

fn battery(msg: &StatusReport) -> (percent: u32)
    ensures
        percent == battery_percent(*msg),
{
    match &msg.power {
        Some(power) => match power.level {
            Some(level) => if level < 0 {
                0
            } else if level > 100 {
                100
            } else {
                level as u32
            },
            None => 0,
        },
        None => 0,
    }
}

/// Maps a status report to the state of its node and the change of capability
/// that it amounts to. A report with neither field of view nor mode is a mere
/// heartbeat and changes no capability.
pub fn from_status_report<P: Fn(PositionPlan) -> Coordinates, V: Fn(EnuRates) -> Velocity>(
    node_id: &str,
    msg: &StatusReport,
    geodesy: &Geodesy<P, V>,
) -> (mapped: (NodeState, Option<CapabilityAdvertisement>))
    requires
        geodesy.total(),
    ensures
        is_state_of(*geodesy, *msg, mapped.0@),
        advertisement_option(mapped.1) == capability_change(node_id@, *msg),
{
    let system = match msg.system {
        Some(system) => system,
        None => WireEnum::Known(System::Unspecified),
    };
    let position = match &msg.node_location {
        Some(loc) => location_to_position(loc, geodesy),
        None => None,
    };
    let percent = battery(msg);
    let state = NodeState {
        position,
        fuel_minutes: percent,
        health: WireEnum::Known(system_to_health(system)),
        phase: WireEnum::Known(Phase::Hierarchy),
        cell_id: None,
        zone_id: None,
        timestamp: None,
    };
    assert(state@ =~= reported_state(*msg, state@.position));
    let change = if msg.field_of_view.is_some() || msg.mode.is_some() {
        let advertisement = CapabilityAdvertisement {
            node_id: node_id.to_owned(),
            advertised_at: None,
            capabilities: Vec::new(),
            resources: Some(
                ResourceStatus {
                    compute_utilization: 0,
                    memory_utilization: 0,
                    power_percent: percent,
                    storage_utilization: 0,
                    bandwidth_utilization: 0,
                    extra_json: String::new(),
                },
            ),
            operational_status: WireEnum::Known(system_to_operational_status(system)),
        };
        assert(advertisement@ =~= capability_change(node_id@, *msg)->0);
        Some(advertisement)
    } else {
        None
    };
    (state, change)
}

/// The state of the system decides how a node is: well where it is okay, degraded
/// where it warns, critical on an error, failed when it says goodbye, and unknown
/// otherwise.
pub proof fn law_health_follows_the_system<
    P: Fn(PositionPlan) -> Coordinates,
    V: Fn(EnuRates) -> Velocity,
>(geodesy: Geodesy<P, V>, msg: StatusReport, state: NodeStateModel)
    requires
        is_state_of(geodesy, msg, state),
    ensures
        state.health == WireEnum::Known(HealthStatus::Nominal) <==> msg.system == Some(
            WireEnum::Known(System::Okay),
        ),
        state.health == WireEnum::Known(HealthStatus::Degraded) <==> msg.system == Some(
            WireEnum::Known(System::Warning),
        ),
        state.health == WireEnum::Known(HealthStatus::Critical) <==> msg.system == Some(
            WireEnum::Known(System::Error),
        ),
        state.health == WireEnum::Known(HealthStatus::Failed) <==> msg.system == Some(
            WireEnum::Known(System::Goodbye),
        ),
        state.health is Known,
{
}

/// The operational status that a report advertises follows from the state of the
/// system: ready where it is okay, degraded where it warns, offline on an error
/// or a goodbye, and unspecified otherwise.
pub proof fn law_operational_status_follows_the_system(node_id: Seq<char>, msg: StatusReport)
    requires
        msg.field_of_view is Some || msg.mode is Some,
    ensures
        capability_change(node_id, msg) is Some,
        ({
            let status = capability_change(node_id, msg)->0.operational_status;
            &&& status == WireEnum::Known(OperationalStatus::Ready) <==> msg.system == Some(
                WireEnum::Known(System::Okay),
            )
            &&& status == WireEnum::Known(OperationalStatus::Degraded) <==> msg.system == Some(
                WireEnum::Known(System::Warning),
            )
            &&& status == WireEnum::Known(OperationalStatus::Offline) <==> (msg.system == Some(
                WireEnum::Known(System::Error),
            ) || msg.system == Some(WireEnum::Known(System::Goodbye)))
            &&& status == WireEnum::Known(OperationalStatus::Unspecified) <==> (msg.system is None
                || msg.system->0 is Unknown || msg.system == Some(
                WireEnum::Known(System::Unspecified),
            ))
        }),
{
}

/// What a report advertises agrees with the health of its node: ready exactly
/// where it is nominal, degraded exactly where it is degraded, offline exactly
/// where it is critical or failed.
pub proof fn law_status_and_health_agree<
    P: Fn(PositionPlan) -> Coordinates,
    V: Fn(EnuRates) -> Velocity,
>(geodesy: Geodesy<P, V>, node_id: Seq<char>, msg: StatusReport, state: NodeStateModel)
    requires
        is_state_of(geodesy, msg, state),
        capability_change(node_id, msg) is Some,
    ensures
        ({
            let status = capability_change(node_id, msg)->0.operational_status;
            &&& status == WireEnum::Known(OperationalStatus::Ready) <==> state.health
                == WireEnum::Known(HealthStatus::Nominal)
            &&& status == WireEnum::Known(OperationalStatus::Degraded) <==> state.health
                == WireEnum::Known(HealthStatus::Degraded)
            &&& status == WireEnum::Known(OperationalStatus::Offline) <==> (state.health
                == WireEnum::Known(HealthStatus::Critical) || state.health == WireEnum::Known(
                HealthStatus::Failed,
            ))
            &&& status == WireEnum::Known(OperationalStatus::Unspecified) <==> state.health
                == WireEnum::Known(HealthStatus::Unspecified)
        }),
{
}

/// A single system state has one health and one operational status, and they
/// agree; a number that is not a known one counts as unspecified.
pub proof fn law_system_states_are_told_apart(system: System)
    ensures
        health_of(system) == HealthStatus::Nominal <==> system == System::Okay,
        health_of(system) == HealthStatus::Degraded <==> system == System::Warning,
        health_of(system) == HealthStatus::Critical <==> system == System::Error,
        health_of(system) == HealthStatus::Failed <==> system == System::Goodbye,
        operational_status_of(system) == OperationalStatus::Ready <==> system == System::Okay,
        operational_status_of(system) == OperationalStatus::Degraded <==> system
            == System::Warning,
        operational_status_of(system) == OperationalStatus::Offline <==> (system == System::Error
            || system == System::Goodbye),
        operational_status_of(system) == OperationalStatus::Unspecified <==> system
            == System::Unspecified,
        reported_system(Some(WireEnum::Known(system))) == system,
        forall|n: i32| #[trigger]
            reported_system(Some(WireEnum::Unknown(n))) == System::Unspecified,
        reported_system(None) == System::Unspecified,
{
}

/// The remaining power is the reported level where that is a percentage, and the
/// nearest end of the scale where it is not; without a level it is zero. The
/// state and the advertisement give the same.
pub proof fn law_power_is_a_percentage<
    P: Fn(PositionPlan) -> Coordinates,
    V: Fn(EnuRates) -> Velocity,
>(geodesy: Geodesy<P, V>, node_id: Seq<char>, msg: StatusReport, state: NodeStateModel)
    requires
        is_state_of(geodesy, msg, state),
    ensures
        0 <= state.fuel_minutes <= 100,
        msg.power is None || msg.power->0.level is None ==> state.fuel_minutes == 0,
        msg.power is Some && msg.power->0.level is Some ==> {
            let level = msg.power->0.level->0;
            &&& 0 <= level <= 100 ==> state.fuel_minutes == level
            &&& level > 100 ==> state.fuel_minutes == 100
            &&& level < 0 ==> state.fuel_minutes == 0
        },
        capability_change(node_id, msg) matches Some(change) ==> change.resources is Some
            && change.resources->0.power_percent == state.fuel_minutes,
{
}

/// A report changes the capability of its node if and only if it carries a field
/// of view or a mode. The change names the node, adds no capability and says of
/// the resources only how much power is left.
pub proof fn law_heartbeat_changes_no_capability(node_id: Seq<char>, msg: StatusReport)
    ensures
        capability_change(node_id, msg) is None <==> msg.field_of_view is None && msg.mode is None,
        capability_change(node_id, msg) matches Some(change) ==> {
            &&& change.node_id == node_id
            &&& change.advertised_at is None
            &&& change.capabilities.len() == 0
            &&& change.resources matches Some(r)
            &&& r.compute_utilization == 0 && r.memory_utilization == 0 && r.storage_utilization
                == 0 && r.bandwidth_utilization == 0
            &&& r.extra_json.len() == 0
        },
{
}

/// A node is where it reports to be: only a location in degrees or radians with
/// both coordinates places it, degrees are kept as they stand, radians are given
/// to the arithmetic as radians, and the altitude is kept in either case.
pub proof fn law_node_is_where_it_reports<
    P: Fn(PositionPlan) -> Coordinates,
    V: Fn(EnuRates) -> Velocity,
>(geodesy: Geodesy<P, V>, msg: StatusReport, state: NodeStateModel)
    requires
        is_state_of(geodesy, msg, state),
    ensures
        state.position is Some <==> {
            &&& msg.node_location matches Some(loc)
            &&& loc.x is Some
            &&& loc.y is Some
            &&& loc.coordinate_system == Some(
                WireEnum::Known(LocationCoordinateSystem::LatLngDegM),
            ) || loc.coordinate_system == Some(
                WireEnum::Known(LocationCoordinateSystem::LatLngRadM),
            )
        },
        state.position matches Some(p) ==> {
            let loc = msg.node_location->0;
            &&& loc.z is Some ==> loc.z == Some(p.altitude)
            &&& loc.z is None ==> p.altitude == 0
            &&& loc.coordinate_system == Some(
                WireEnum::Known(LocationCoordinateSystem::LatLngDegM),
            ) ==> loc.y == Some(p.latitude) && loc.x == Some(p.longitude)
            &&& loc.coordinate_system == Some(
                WireEnum::Known(LocationCoordinateSystem::LatLngRadM),
            ) ==> exists|numbers: Coordinates| #[trigger]
                call_ensures(
                    geodesy.position,
                    (PositionPlan::Geodetic {
                        latitude: loc.y->0,
                        longitude: loc.x->0,
                        angle: AngleUnit::Radians,
                        altitude: p.altitude,
                        length: LengthUnit::Metres,
                    },),
                    numbers,
                ) && p.latitude == numbers.latitude && p.longitude == numbers.longitude
        },
        state.phase == WireEnum::Known(Phase::Hierarchy),
        state.cell_id is None && state.zone_id is None && state.timestamp is None,
{
}

} // verus!
