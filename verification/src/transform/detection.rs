//! `DetectionReport` to [`Track`].
//!
//! Coordinate systems:
//! - latitude and longitude in degrees, altitude in metres: passed through
//! - latitude and longitude in radians, altitude in metres
//! - latitude and longitude in degrees, altitude in feet (legacy number 3)
//! - latitude and longitude in radians, altitude in feet (legacy number 4)
//! - UTM metres
//! - range and bearing from the sensor, whose position must be known

use crate::attributes::{no_members, with_text, json_text, Attributes, JsonText};
use crate::error::{ErrorModel, SapientError};
use crate::geodesy::{
    bits_or_zero, AngleUnit, Coordinates, EnuRates, Geodesy, LengthUnit, PositionPlan,
};
use crate::proto::{
    Behaviour, DetectionReport, DetectionReportClassification, Location, LocationCoordinateSystem,
    LocationOneof, RangeBearing,
};
use crate::schema::{
    SourceType, Track, TrackModel, TrackPosition, TrackSource, TrackSourceModel, TrackState,
    Velocity, WireEnum,
};
use crate::text::{joined, owned_or_empty, present_texts, text_or_empty, texts};
use crate::transform::utm::{parse_utm_zone, utm_zone};
use vstd::prelude::*;

verus! {

/// Number of the legacy system with degrees and feet.
pub const LEGACY_DEG_FEET: i32 = 3;

/// Number of the legacy system with radians and feet.
pub const LEGACY_RAD_FEET: i32 = 4;

/// A message lacks something that its mapping needs.
pub open spec fn mapping_error(kind: Seq<char>, detail: Seq<char>) -> ErrorModel {
    ErrorModel::MappingError { kind, detail }
}

/// The plan for a latitude and longitude.
pub open spec fn geodetic_plan(
    x: u64,
    y: u64,
    z: u64,
    angle: AngleUnit,
    length: LengthUnit,
) -> PositionPlan {
    PositionPlan::Geodetic { latitude: y, longitude: x, angle, altitude: z, length }
}

/// How the position of a location follows from it, or why it does not.
pub open spec fn location_plan(loc: Location) -> Result<PositionPlan, ErrorModel> {
    match (loc.x, loc.y) {
        (None, _) => Err(mapping_error("location"@, "Location.x missing"@)),
        (_, None) => Err(mapping_error("location"@, "Location.y missing"@)),
        (Some(x), Some(y)) => {
            let z = bits_or_zero(loc.z);
            match loc.coordinate_system {
                Some(WireEnum::Unknown(n)) => if n == LEGACY_DEG_FEET {
                    Ok(geodetic_plan(x, y, z, AngleUnit::Degrees, LengthUnit::Feet))
                } else if n == LEGACY_RAD_FEET {
                    Ok(geodetic_plan(x, y, z, AngleUnit::Radians, LengthUnit::Feet))
                } else {
                    Err(unspecified_system())
                },
                Some(WireEnum::Known(LocationCoordinateSystem::LatLngDegM)) => Ok(
                    geodetic_plan(x, y, z, AngleUnit::Degrees, LengthUnit::Metres),
                ),
                Some(WireEnum::Known(LocationCoordinateSystem::LatLngRadM)) => Ok(
                    geodetic_plan(x, y, z, AngleUnit::Radians, LengthUnit::Metres),
                ),
                Some(WireEnum::Known(LocationCoordinateSystem::UtmM)) => match loc.utm_zone {
                    None => Err(mapping_error("location"@, "UTM location missing utm_zone"@)),
                    Some(zone) => match utm_zone(zone@) {
                        None => Err(mapping_error("location"@, "invalid utm_zone: "@ + zone@)),
                        Some((number, northern)) => Ok(
                            PositionPlan::Utm {
                                easting: x,
                                northing: y,
                                zone: number,
                                northern,
                                altitude: z,
                            },
                        ),
                    },
                },
                Some(WireEnum::Known(LocationCoordinateSystem::Unspecified)) | None => Err(
                    unspecified_system(),
                ),
            }
        },
    }
}

/// The error for a coordinate system that cannot be resolved.
pub open spec fn unspecified_system() -> ErrorModel {
    ErrorModel::UnsupportedCoordinateSystem("unspecified coordinate system"@)
}

/// How the position of a range and bearing follows from the sensor's.
pub open spec fn range_bearing_plan(rb: RangeBearing, sensor: TrackPosition) -> Result<
    PositionPlan,
    ErrorModel,
> {
    match (rb.range, rb.azimuth) {
        (None, _) => Err(mapping_error("range_bearing"@, "RangeBearing.range missing"@)),
        (_, None) => Err(mapping_error("range_bearing"@, "RangeBearing.azimuth missing"@)),
        (Some(range), Some(azimuth)) => Ok(
            PositionPlan::Relative {
                sensor,
                range,
                azimuth,
                elevation: bits_or_zero(rb.elevation),
                range_error: bits_or_zero(rb.range_error),
            },
        ),
    }
}

/// How the position of a detection follows from the report and the sensor's
/// position, or why it does not.
pub open spec fn detection_plan(sensor: Option<TrackPosition>, msg: DetectionReport) -> Result<
    PositionPlan,
    ErrorModel,
> {
    match msg.location_oneof {
        Some(LocationOneof::Location(loc)) => location_plan(loc),
        Some(LocationOneof::RangeBearing(rb)) => match sensor {
            Some(position) => range_bearing_plan(rb, position),
            None => Err(
                ErrorModel::UnsupportedCoordinateSystem("range-bearing requires sensor position"@),
            ),
        },
        None => Err(mapping_error("detection"@, "DetectionReport has no location"@)),
    }
}

/// The position behind an optional reference.
pub open spec fn deref_position(position: Option<&TrackPosition>) -> Option<TrackPosition> {
    match position {
        Some(p) => Some(*p),
        None => None,
    }
}

/// The labels of the behaviours that have one.
pub open spec fn behaviour_labels(behaviour: Seq<Behaviour>) -> Seq<Seq<char>> {
    present_texts(behaviour.map_values(|b: Behaviour| b.type_label))
}

/// The members of the attributes that a detection carries along.
pub open spec fn detection_attributes(msg: DetectionReport) -> Map<Seq<char>, JsonText> {
    let named = with_text(with_text(no_members(), "colour"@, msg.colour), "id"@, msg.id);
    if msg.behaviour@.len() > 0 {
        named.insert("behaviours"@, JsonText::List(behaviour_labels(msg.behaviour@)))
    } else {
        named
    }
}

/// The label of the first classification, empty where there is none.
pub open spec fn first_class(classes: Seq<DetectionReportClassification>) -> Seq<char> {
    if classes.len() > 0 {
        text_or_empty(classes[0].type_label)
    } else {
        Seq::empty()
    }
}

/// The confidence of the first classification, zero where there is none.
pub open spec fn first_confidence(classes: Seq<DetectionReportClassification>) -> u32 {
    if classes.len() > 0 {
        match classes[0].confidence {
            Some(bits) => bits,
            None => 0,
        }
    } else {
        0
    }
}

/// The track of a detection, given its position and velocity.
pub open spec fn detected_track(
    node_id: Seq<char>,
    msg: DetectionReport,
    position: Option<TrackPosition>,
    velocity: Option<Velocity>,
) -> TrackModel {
    TrackModel {
        track_id: text_or_empty(msg.object_id),
        classification: first_class(msg.classification@),
        confidence: first_confidence(msg.classification@),
        position,
        velocity,
        state: TrackState::Confirmed,
        source: Some(
            TrackSourceModel {
                node_id,
                sensor_id: text_or_empty(msg.report_id),
                model_version: Seq::empty(),
                source_type: SourceType::Sensor,
            },
        ),
        attributes_json: json_text(detection_attributes(msg)),
        first_seen: None,
        last_seen: None,
        observation_count: 1,
    }
}

/// `track` is the track of a detection whose position can be resolved.
pub open spec fn is_track_of<P: Fn(PositionPlan) -> Coordinates, V: Fn(EnuRates) -> Velocity>(
    geodesy: Geodesy<P, V>,
    node_id: Seq<char>,
    sensor: Option<TrackPosition>,
    msg: DetectionReport,
    track: TrackModel,
) -> bool {
    &&& detection_plan(sensor, msg) matches Ok(plan)
    &&& track.position matches Some(position)
    &&& geodesy.resolves(plan, position)
    &&& geodesy.moves(msg.velocity, track.velocity)
    &&& track == detected_track(node_id, msg, track.position, track.velocity)
}

fn missing(kind: &'static str, detail: &str) -> (error: SapientError)
    ensures
        error@ == mapping_error(kind@, detail@),
{
    SapientError::MappingError { kind, detail: detail.to_owned() }
}

fn unspecified() -> (error: SapientError)
    ensures
        error@ == unspecified_system(),
{
    SapientError::UnsupportedCoordinateSystem("unspecified coordinate system".to_owned())
}

/// Decides how a location becomes a position.
pub fn plan_location(loc: &Location) -> (plan: Result<PositionPlan, SapientError>)
    ensures
        match plan {
            Ok(p) => location_plan(*loc) == Ok::<PositionPlan, ErrorModel>(p),
            Err(e) => location_plan(*loc) == Err::<PositionPlan, ErrorModel>(e@),
        },
{
    let x: u64 = match loc.x {
        Some(x) => x,
        None => return Err(missing("location", "Location.x missing")),
    };
    let y: u64 = match loc.y {
        Some(y) => y,
        None => return Err(missing("location", "Location.y missing")),
    };
    let z: u64 = loc.z.unwrap_or(0);
    match &loc.coordinate_system {
        Some(WireEnum::Unknown(n)) => {
            if *n == LEGACY_DEG_FEET {
                Ok(
                    PositionPlan::Geodetic {
                        latitude: y,
                        longitude: x,
                        angle: AngleUnit::Degrees,
                        altitude: z,
                        length: LengthUnit::Feet,
                    },
                )
            } else if *n == LEGACY_RAD_FEET {
                Ok(
                    PositionPlan::Geodetic {
                        latitude: y,
                        longitude: x,
                        angle: AngleUnit::Radians,
                        altitude: z,
                        length: LengthUnit::Feet,
                    },
                )
            } else {
                Err(unspecified())
            }
        },
        Some(WireEnum::Known(system)) => match system {
            LocationCoordinateSystem::LatLngDegM => Ok(
                PositionPlan::Geodetic {
                    latitude: y,
                    longitude: x,
                    angle: AngleUnit::Degrees,
                    altitude: z,
                    length: LengthUnit::Metres,
                },
            ),
            LocationCoordinateSystem::LatLngRadM => Ok(
                PositionPlan::Geodetic {
                    latitude: y,
                    longitude: x,
                    angle: AngleUnit::Radians,
                    altitude: z,
                    length: LengthUnit::Metres,
                },
            ),
            LocationCoordinateSystem::UtmM => match &loc.utm_zone {
                None => Err(missing("location", "UTM location missing utm_zone")),
                Some(zone) => match parse_utm_zone(zone.as_str()) {
                    None => {
                        let detail = joined("invalid utm_zone: ", zone.as_str());
                        Err(SapientError::MappingError { kind: "location", detail })
                    },
                    Some((number, northern)) => Ok(
                        PositionPlan::Utm {
                            easting: x,
                            northing: y,
                            zone: number,
                            northern,
                            altitude: z,
                        },
                    ),
                },
            },
            LocationCoordinateSystem::Unspecified => Err(unspecified()),
        },
        None => Err(unspecified()),
    }
}

/// Resolves a location to a position.
pub fn location_to_track_position<
    P: Fn(PositionPlan) -> Coordinates,
    V: Fn(EnuRates) -> Velocity,
>(loc: &Location, geodesy: &Geodesy<P, V>) -> (position: Result<TrackPosition, SapientError>)
    requires
        geodesy.total(),
    ensures
        match position {
            Ok(p) => location_plan(*loc) matches Ok(plan) && geodesy.resolves(plan, p),
            Err(e) => location_plan(*loc) == Err::<PositionPlan, ErrorModel>(e@),
        },
{
    match plan_location(loc) {
        Ok(plan) => Ok(geodesy.resolve(plan)),
        Err(e) => Err(e),
    }
}

/// Decides how a range and bearing becomes a position.
pub fn plan_range_bearing(rb: &RangeBearing, sensor: &TrackPosition) -> (plan: Result<
    PositionPlan,
    SapientError,
>)
    ensures
        match plan {
            Ok(p) => range_bearing_plan(*rb, *sensor) == Ok::<PositionPlan, ErrorModel>(p),
            Err(e) => range_bearing_plan(*rb, *sensor) == Err::<PositionPlan, ErrorModel>(e@),
        },
{
    let range: u64 = match rb.range {
        Some(range) => range,
        None => return Err(missing("range_bearing", "RangeBearing.range missing")),
    };
    let azimuth: u64 = match rb.azimuth {
        Some(azimuth) => azimuth,
        None => return Err(missing("range_bearing", "RangeBearing.azimuth missing")),
    };
    Ok(
        PositionPlan::Relative {
            sensor: *sensor,
            range,
            azimuth,
            elevation: rb.elevation.unwrap_or(0),
            range_error: rb.range_error.unwrap_or(0),
        },
    )
}

/// Resolves a range and bearing to a position.
pub fn range_bearing_to_track_position<
    P: Fn(PositionPlan) -> Coordinates,
    V: Fn(EnuRates) -> Velocity,
>(rb: &RangeBearing, sensor: &TrackPosition, geodesy: &Geodesy<P, V>) -> (position: Result<
    TrackPosition,
    SapientError,
>)
    requires
        geodesy.total(),
    ensures
        match position {
            Ok(p) => range_bearing_plan(*rb, *sensor) matches Ok(plan) && geodesy.resolves(plan, p),
            Err(e) => range_bearing_plan(*rb, *sensor) == Err::<PositionPlan, ErrorModel>(e@),
        },
{
    match plan_range_bearing(rb, sensor) {
        Ok(plan) => Ok(geodesy.resolve(plan)),
        Err(e) => Err(e),
    }
}

fn labels(behaviour: &Vec<Behaviour>) -> (list: Vec<String>)
    ensures
        texts(list@) == behaviour_labels(behaviour@),
{
    let mut list: Vec<String> = Vec::new();
    let ghost all = behaviour@.map_values(|b: Behaviour| b.type_label);
    let mut i: usize = 0;
    proof {
        assert(texts(list@) =~= present_texts(all.take(0)));
    }
    while i < behaviour.len()
        invariant
            i <= behaviour@.len(),
            all == behaviour@.map_values(|b: Behaviour| b.type_label),
            texts(list@) == present_texts(all.take(i as int)),
        decreases behaviour@.len() - i,
    {
        let ghost before = list@;
        proof {
            let t = all.take(i + 1);
            assert(t.drop_last() =~= all.take(i as int));
            assert(t.last() == behaviour@[i as int].type_label);
        }
        if let Some(label) = &behaviour[i].type_label {
            list.push(label.clone());
            proof {
                assert(texts(list@) =~= texts(before).push(label@));
            }
        }
        i = i + 1;
    }
    proof {
        assert(all.take(behaviour@.len() as int) =~= all);
    }
    list
}

fn attributes(msg: &DetectionReport) -> (text: String)
    ensures
        text@ == json_text(detection_attributes(*msg)),
{
    let mut attrs = Attributes::new();
    attrs.text_option("colour", &msg.colour);
    attrs.text_option("id", &msg.id);
    if !msg.behaviour.is_empty() {
        attrs.list("behaviours", labels(&msg.behaviour));
    }
    attrs.render()
}

/// Maps a detection to a track.
///
/// A report whose location is a range and bearing needs the position of the
/// sensor; without it the report is refused.
pub fn from_detection_report<P: Fn(PositionPlan) -> Coordinates, V: Fn(EnuRates) -> Velocity>(
    node_id: &str,
    sensor_position: Option<&TrackPosition>,
    msg: &DetectionReport,
    geodesy: &Geodesy<P, V>,
) -> (track: Result<Track, SapientError>)
    requires
        geodesy.total(),
    ensures
        match track {
            Ok(t) => is_track_of(*geodesy, node_id@, deref_position(sensor_position), *msg, t@),
            Err(e) => detection_plan(deref_position(sensor_position), *msg) == Err::<
                PositionPlan,
                ErrorModel,
            >(e@),
        },
{
    let position = match &msg.location_oneof {
        Some(LocationOneof::Location(loc)) => match location_to_track_position(loc, geodesy) {
            Ok(position) => position,
            Err(e) => return Err(e),
        },
        Some(LocationOneof::RangeBearing(rb)) => match sensor_position {
            Some(sensor) => match range_bearing_to_track_position(rb, sensor, geodesy) {
                Ok(position) => position,
                Err(e) => return Err(e),
            },
            None => return Err(
                SapientError::UnsupportedCoordinateSystem(
                    "range-bearing requires sensor position".to_owned(),
                ),
            ),
        },
        None => return Err(missing("detection", "DetectionReport has no location")),
    };
    let (classification, confidence) = if msg.classification.len() > 0 {
        (
            owned_or_empty(&msg.classification[0].type_label),
            msg.classification[0].confidence.unwrap_or(0),
        )
    } else {
        (String::new(), 0)
    };
    let velocity = geodesy.motion(&msg.velocity);
    let track = Track {
        track_id: owned_or_empty(&msg.object_id),
        classification,
        confidence,
        position: Some(position),
        velocity,
        state: TrackState::Confirmed,
        source: Some(
            TrackSource {
                node_id: node_id.to_owned(),
                sensor_id: owned_or_empty(&msg.report_id),
                model_version: String::new(),
                source_type: SourceType::Sensor,
            },
        ),
        attributes_json: attributes(msg),
        first_seen: None,
        last_seen: None,
        observation_count: 1,
    };
    proof {
        assert(track@ =~= detected_track(node_id@, *msg, track@.position, track@.velocity));
    }
    Ok(track)
}

/// The coordinates of a location are taken as they are reported: `y` is the
/// latitude and `x` the longitude, or the northing and the easting, and `z`, or
/// zero, the altitude.
pub proof fn law_coordinates_are_taken_as_reported(loc: Location, plan: PositionPlan)
    requires
        location_plan(loc) == Ok::<PositionPlan, ErrorModel>(plan),
    ensures
        loc.x is Some && loc.y is Some,
        match plan {
            PositionPlan::Geodetic { latitude, longitude, altitude, .. } => {
                &&& loc.y == Some(latitude)
                &&& loc.x == Some(longitude)
                &&& loc.z is Some ==> loc.z == Some(altitude)
                &&& loc.z is None ==> altitude == 0
            },
            PositionPlan::Utm { easting, northing, altitude, .. } => {
                &&& loc.x == Some(easting)
                &&& loc.y == Some(northing)
                &&& loc.z is Some ==> loc.z == Some(altitude)
                &&& loc.z is None ==> altitude == 0
            },
            PositionPlan::Relative { .. } => false,
        },
{
}

/// The units of a location follow from its coordinate system: only the two legacy
/// systems have their altitude in feet, only two systems have angles in radians,
/// and a grid zone is looked at for UTM alone.
pub proof fn law_units_follow_from_the_system(loc: Location, plan: PositionPlan)
    requires
        location_plan(loc) == Ok::<PositionPlan, ErrorModel>(plan),
    ensures
        (plan matches PositionPlan::Geodetic { length, .. } && length == LengthUnit::Feet) <==> (
        loc.coordinate_system == Some(WireEnum::<LocationCoordinateSystem>::Unknown(3))
            || loc.coordinate_system == Some(WireEnum::<LocationCoordinateSystem>::Unknown(4))),
        (plan matches PositionPlan::Geodetic { angle, .. } && angle == AngleUnit::Radians) <==> (
        loc.coordinate_system == Some(WireEnum::Known(LocationCoordinateSystem::LatLngRadM))
            || loc.coordinate_system == Some(WireEnum::<LocationCoordinateSystem>::Unknown(4))),
        plan is Utm <==> loc.coordinate_system == Some(
            WireEnum::Known(LocationCoordinateSystem::UtmM),
        ),
        plan matches PositionPlan::Utm { zone, northern, .. } ==> loc.utm_zone is Some && utm_zone(
            loc.utm_zone->0@,
        ) == Some((zone, northern)),
{
}

/// A location resolves if and only if both coordinates are there and its system
/// is one of the five, with a valid grid zone for UTM. What is missing decides
/// the error: first `x`, then `y`, then the system and the zone.
pub proof fn law_location_resolves_or_says_why(loc: Location)
    ensures
        location_plan(loc) is Ok <==> {
            &&& loc.x is Some
            &&& loc.y is Some
            &&& loc.coordinate_system matches Some(system)
            &&& match system {
                WireEnum::Unknown(n) => n == 3 || n == 4,
                WireEnum::Known(known) => {
                    ||| known == LocationCoordinateSystem::LatLngDegM
                    ||| known == LocationCoordinateSystem::LatLngRadM
                    ||| known == LocationCoordinateSystem::UtmM && loc.utm_zone is Some && utm_zone(
                        loc.utm_zone->0@,
                    ) is Some
                },
            }
        },
        location_plan(loc) matches Err(e) ==> {
            if loc.x is None {
                e == (ErrorModel::MappingError {
                    kind: "location"@,
                    detail: "Location.x missing"@,
                })
            } else if loc.y is None {
                e == (ErrorModel::MappingError {
                    kind: "location"@,
                    detail: "Location.y missing"@,
                })
            } else if loc.coordinate_system == Some(
                WireEnum::Known(LocationCoordinateSystem::UtmM),
            ) {
                e == (ErrorModel::MappingError {
                    kind: "location"@,
                    detail: if loc.utm_zone is None {
                        "UTM location missing utm_zone"@
                    } else {
                        "invalid utm_zone: "@ + loc.utm_zone->0@
                    },
                })
            } else {
                e == ErrorModel::UnsupportedCoordinateSystem("unspecified coordinate system"@)
            }
        },
{
}

/// A range and bearing is taken as it is reported, from the position of the
/// sensor; an elevation or error that is left out counts as zero. It resolves if
/// and only if range and azimuth are there.
pub proof fn law_range_and_bearing_are_taken_as_reported(rb: RangeBearing, from: TrackPosition)
    ensures
        range_bearing_plan(rb, from) is Ok <==> rb.range is Some && rb.azimuth is Some,
        range_bearing_plan(rb, from) matches Ok(plan) ==> {
            &&& plan matches PositionPlan::Relative {
                sensor,
                range,
                azimuth,
                elevation,
                range_error,
            }
            &&& sensor == from
            &&& rb.range == Some(range)
            &&& rb.azimuth == Some(azimuth)
            &&& rb.elevation == Some(elevation) || rb.elevation is None && elevation == 0
            &&& rb.range_error == Some(range_error) || rb.range_error is None && range_error == 0
        },
        range_bearing_plan(rb, from) matches Err(e) ==> e == (ErrorModel::MappingError {
            kind: "range_bearing"@,
            detail: if rb.range is None {
                "RangeBearing.range missing"@
            } else {
                "RangeBearing.azimuth missing"@
            },
        }),
{
}

/// A detection is placed by its own location, which needs no sensor position; by
/// its range and bearing, which does; and not at all without either.
pub proof fn law_detection_is_placed_by_its_report(
    sensor: Option<TrackPosition>,
    other: Option<TrackPosition>,
    msg: DetectionReport,
)
    ensures
        msg.location_oneof is None ==> detection_plan(sensor, msg) == Err::<
            PositionPlan,
            ErrorModel,
        >(
            ErrorModel::MappingError {
                kind: "detection"@,
                detail: "DetectionReport has no location"@,
            },
        ),
        msg.location_oneof matches Some(LocationOneof::Location(loc)) ==> {
            &&& detection_plan(sensor, msg) == location_plan(loc)
            &&& detection_plan(sensor, msg) == detection_plan(other, msg)
        },
        msg.location_oneof matches Some(LocationOneof::RangeBearing(rb)) ==> match sensor {
            Some(position) => detection_plan(sensor, msg) == range_bearing_plan(rb, position),
            None => detection_plan(sensor, msg) == Err::<PositionPlan, ErrorModel>(
                ErrorModel::UnsupportedCoordinateSystem("range-bearing requires sensor position"@),
            ),
        },
{
}

/// A detection in degrees or radians and metres becomes a track at that place:
/// the arithmetic is given the reported numbers in the units of their system, and
/// degrees are kept as they stand.
pub proof fn law_track_lies_where_it_was_detected<
    P: Fn(PositionPlan) -> Coordinates,
    V: Fn(EnuRates) -> Velocity,
>(
    geodesy: Geodesy<P, V>,
    node_id: Seq<char>,
    sensor: Option<TrackPosition>,
    msg: DetectionReport,
    track: TrackModel,
)
    requires
        is_track_of(geodesy, node_id, sensor, msg, track),
    ensures
        track.position is Some,
        msg.location_oneof matches Some(LocationOneof::Location(loc)) ==> {
            let z = if loc.z is Some {
                loc.z->0
            } else {
                0
            };
            let degrees = PositionPlan::Geodetic {
                latitude: loc.y->0,
                longitude: loc.x->0,
                angle: AngleUnit::Degrees,
                altitude: z,
                length: LengthUnit::Metres,
            };
            let radians = PositionPlan::Geodetic {
                latitude: loc.y->0,
                longitude: loc.x->0,
                angle: AngleUnit::Radians,
                altitude: z,
                length: LengthUnit::Metres,
            };
            &&& loc.coordinate_system == Some(
                WireEnum::Known(LocationCoordinateSystem::LatLngDegM),
            ) ==> {
                &&& loc.y == Some(track.position->0.latitude)
                &&& loc.x == Some(track.position->0.longitude)
                &&& exists|plan: PositionPlan, numbers: Coordinates| #[trigger]
                    call_ensures(geodesy.position, (plan,), numbers) && plan == degrees
                        && track.position->0.altitude == numbers.altitude
            }
            &&& loc.coordinate_system == Some(
                WireEnum::Known(LocationCoordinateSystem::LatLngRadM),
            ) ==> exists|plan: PositionPlan, numbers: Coordinates| #[trigger]
                call_ensures(geodesy.position, (plan,), numbers) && plan == radians
                    && track.position == Some(
                    TrackPosition {
                        latitude: numbers.latitude,
                        longitude: numbers.longitude,
                        altitude: numbers.altitude,
                        cep_m: 0,
                        vertical_error_m: 0,
                    },
                )
        },
        msg.location_oneof matches Some(LocationOneof::RangeBearing(rb)) ==> {
            &&& sensor is Some
            &&& exists|plan: PositionPlan, numbers: Coordinates|
                {
                    &&& #[trigger] call_ensures(geodesy.position, (plan,), numbers)
                    &&& plan == (PositionPlan::Relative {
                        sensor: sensor->0,
                        range: rb.range->0,
                        azimuth: rb.azimuth->0,
                        elevation: if rb.elevation is Some { rb.elevation->0 } else { 0 },
                        range_error: if rb.range_error is Some { rb.range_error->0 } else { 0 },
                    })
                    &&& track.position == Some(
                        TrackPosition {
                            latitude: numbers.latitude,
                            longitude: numbers.longitude,
                            altitude: numbers.altitude,
                            cep_m: numbers.error,
                            vertical_error_m: 0,
                        },
                    )
                }
        },
{
}

/// A track says what its detection says: the object, the first classification and
/// its confidence, who reported it, and whether it moves. It is one confirmed
/// observation of a sensor, without a time.
pub proof fn law_track_says_what_was_detected<
    P: Fn(PositionPlan) -> Coordinates,
    V: Fn(EnuRates) -> Velocity,
>(
    geodesy: Geodesy<P, V>,
    node_id: Seq<char>,
    sensor: Option<TrackPosition>,
    msg: DetectionReport,
    track: TrackModel,
)
    requires
        is_track_of(geodesy, node_id, sensor, msg, track),
    ensures
        match msg.object_id {
            Some(id) => track.track_id == id@,
            None => track.track_id.len() == 0,
        },
        msg.classification@.len() == 0 ==> track.classification.len() == 0 && track.confidence
            == 0,
        msg.classification@.len() > 0 ==> {
            &&& match msg.classification@[0].type_label {
                Some(label) => track.classification == label@,
                None => track.classification.len() == 0,
            }
            &&& match msg.classification@[0].confidence {
                Some(bits) => track.confidence == bits,
                None => track.confidence == 0,
            }
        },
        track.source is Some,
        track.source->0.node_id == node_id,
        match msg.report_id {
            Some(id) => track.source->0.sensor_id == id@,
            None => track.source->0.sensor_id.len() == 0,
        },
        track.source->0.model_version.len() == 0,
        track.source->0.source_type == SourceType::Sensor,
        track.state == TrackState::Confirmed,
        track.observation_count == 1,
        track.first_seen is None && track.last_seen is None,
        track.velocity is Some <==> msg.velocity is Some,
        msg.velocity matches Some(e) ==> call_ensures(
            geodesy.velocity,
            (EnuRates {
                east: if e.east_rate is Some { e.east_rate->0 } else { 0 },
                north: if e.north_rate is Some { e.north_rate->0 } else { 0 },
                up: if e.up_rate is Some { e.up_rate->0 } else { 0 },
            },),
            track.velocity->0,
        ),
        track.attributes_json == json_text(detection_attributes(msg)),
{
}

/// The attributes of a track carry along the colour, the identifier and the
/// labels of the behaviours of its detection, each where it is reported, and
/// nothing else.
pub proof fn law_attributes_carry_the_rest(msg: DetectionReport, name: Seq<char>)
    ensures
        detection_attributes(msg).dom().contains(name) <==> {
            ||| name == "colour"@ && msg.colour is Some
            ||| name == "id"@ && msg.id is Some
            ||| name == "behaviours"@ && msg.behaviour@.len() > 0
        },
        msg.colour matches Some(text) ==> detection_attributes(msg)["colour"@] == JsonText::Text(
            text@,
        ),
        msg.id matches Some(text) ==> detection_attributes(msg)["id"@] == JsonText::Text(text@),
        msg.behaviour@.len() > 0 ==> detection_attributes(msg)["behaviours"@] == JsonText::List(
            present_texts(msg.behaviour@.map_values(|b: Behaviour| b.type_label)),
        ),
{
    reveal_strlit("colour");
    reveal_strlit("id");
    reveal_strlit("behaviours");
    assert("colour"@.len() == 6);
    assert("id"@.len() == 2);
    assert("behaviours"@.len() == 10);
}

} // verus!
