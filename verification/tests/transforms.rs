use peat_sapient::error::SapientError;
use peat_sapient::geodesy::{
    AngleUnit, Coordinates, EnuRates, Geodesy, LengthUnit, PositionPlan,
};
use peat_sapient::proto::{
    Alert, AlertStatus, AlertType, AssociatedDetection, Behaviour, ConfigurationData, Content,
    Control, DetectionReport, DetectionReportClassification, DiscretePriority, EnuVelocity,
    Location, LocationCoordinateSystem, LocationOneof, NodeDefinition, NodeType, Power,
    ProtoTimestamp, RangeBearing, Registration, StatusReport, System, Task,
};
use peat_sapient::schema::{
    CapabilityAdvertisement, CapabilityType, CommandType, EngagementOrder, HealthStatus,
    HierarchicalCommand, MissionOrder, NodeState, OperationalStatus, Phase, Position, SourceType,
    Timestamp, Track, TrackPosition, TrackState, Velocity, WireEnum,
};
use peat_sapient::transform::alert::SapientAlertEvent;
use peat_sapient::transform::detection::{plan_location, plan_range_bearing};
use peat_sapient::transform::registration::{from_registration, node_type_to_capability_type};
use peat_sapient::transform::status::{system_to_health, system_to_operational_status};
use peat_sapient::transform::task::{command_to_task_name, task_message, to_task};
use peat_sapient::transform::utm::parse_utm_zone;

const FEET_TO_METRES: f64 = 0.3048;
const WGS84_A: f64 = 6_378_137.0;
const WGS84_F: f64 = 1.0 / 298.257_223_563;
const WGS84_E2: f64 = 2.0 * WGS84_F - WGS84_F * WGS84_F;
const WGS84_E_PRIME2: f64 = WGS84_E2 / (1.0 - WGS84_E2);
const UTM_K0: f64 = 0.9996;

fn utm_to_latlon(easting: f64, northing: f64, zone_number: u8, northern: bool) -> (f64, f64) {
    let x = easting - 500_000.0;
    let y = if northern { northing } else { northing - 10_000_000.0 };
    let lon0_rad = ((zone_number as f64 - 1.0) * 6.0 - 180.0 + 3.0).to_radians();
    let m = y / UTM_K0;
    let mu = m
        / (WGS84_A
            * (1.0
                - WGS84_E2 / 4.0
                - 3.0 * WGS84_E2.powi(2) / 64.0
                - 5.0 * WGS84_E2.powi(3) / 256.0));
    let e1 = (1.0 - (1.0 - WGS84_E2).sqrt()) / (1.0 + (1.0 - WGS84_E2).sqrt());
    let phi1 = mu
        + (3.0 * e1 / 2.0 - 27.0 * e1.powi(3) / 32.0) * (2.0 * mu).sin()
        + (21.0 * e1.powi(2) / 16.0 - 55.0 * e1.powi(4) / 32.0) * (4.0 * mu).sin()
        + (151.0 * e1.powi(3) / 96.0) * (6.0 * mu).sin()
        + (1097.0 * e1.powi(4) / 512.0) * (8.0 * mu).sin();
    let sin_phi1 = phi1.sin();
    let cos_phi1 = phi1.cos();
    let tan_phi1 = phi1.tan();
    let n1 = WGS84_A / (1.0 - WGS84_E2 * sin_phi1.powi(2)).sqrt();
    let t1 = tan_phi1.powi(2);
    let c1 = WGS84_E_PRIME2 * cos_phi1.powi(2);
    let r1 = WGS84_A * (1.0 - WGS84_E2) / (1.0 - WGS84_E2 * sin_phi1.powi(2)).powf(1.5);
    let d = x / (n1 * UTM_K0);
    let lat_rad = phi1
        - (n1 * tan_phi1 / r1)
            * (d.powi(2) / 2.0
                - (5.0 + 3.0 * t1 + 10.0 * c1 - 4.0 * c1.powi(2) - 9.0 * WGS84_E_PRIME2)
                    * d.powi(4)
                    / 24.0
                + (61.0 + 90.0 * t1 + 298.0 * c1 + 45.0 * t1.powi(2)
                    - 252.0 * WGS84_E_PRIME2
                    - 3.0 * c1.powi(2))
                    * d.powi(6)
                    / 720.0);
    let lon_rad = lon0_rad
        + (d - (1.0 + 2.0 * t1 + c1) * d.powi(3) / 6.0
            + (5.0 - 2.0 * c1 + 28.0 * t1 - 3.0 * c1.powi(2)
                + 8.0 * WGS84_E_PRIME2
                + 24.0 * t1.powi(2))
                * d.powi(5)
                / 120.0)
            / cos_phi1;
    (lat_rad.to_degrees(), lon_rad.to_degrees())
}

fn place(plan: PositionPlan) -> Coordinates {
    match plan {
        PositionPlan::Geodetic { latitude, longitude, angle, altitude, length } => {
            let degrees = |bits: u64| match angle {
                AngleUnit::Degrees => bits,
                AngleUnit::Radians => f64::from_bits(bits).to_degrees().to_bits(),
            };
            let metres = match length {
                LengthUnit::Metres => f64::from_bits(altitude),
                LengthUnit::Feet => f64::from_bits(altitude) * FEET_TO_METRES,
            };
            Coordinates {
                latitude: degrees(latitude),
                longitude: degrees(longitude),
                altitude: (metres as f32).to_bits(),
                error: 0,
            }
        }
        PositionPlan::Utm { easting, northing, zone, northern, altitude } => {
            let (lat, lon) =
                utm_to_latlon(f64::from_bits(easting), f64::from_bits(northing), zone, northern);
            Coordinates {
                latitude: lat.to_bits(),
                longitude: lon.to_bits(),
                altitude: (f64::from_bits(altitude) as f32).to_bits(),
                error: 0,
            }
        }
        PositionPlan::Relative { sensor, range, azimuth, elevation, range_error } => {
            let range = f64::from_bits(range);
            let az_rad = f64::from_bits(azimuth).to_radians();
            let el_rad = f64::from_bits(elevation).to_radians();
            let lat = f64::from_bits(sensor.latitude);
            let lon = f64::from_bits(sensor.longitude);
            let horiz = range * el_rad.cos();
            let north = lat + horiz * az_rad.cos() / 111_111.0;
            let east = lon + horiz * az_rad.sin() / (111_111.0 * lat.to_radians().cos());
            let up = f32::from_bits(sensor.altitude) + (range * el_rad.sin()) as f32;
            Coordinates {
                latitude: north.to_bits(),
                longitude: east.to_bits(),
                altitude: up.to_bits(),
                error: (f64::from_bits(range_error) as f32).to_bits(),
            }
        }
    }
}

fn motion(rates: EnuRates) -> Velocity {
    let east = f64::from_bits(rates.east);
    let north = f64::from_bits(rates.north);
    let bearing = east.atan2(north).to_degrees() as f32;
    Velocity {
        bearing: (if bearing < 0.0 { bearing + 360.0 } else { bearing }).to_bits(),
        speed_mps: ((east * east + north * north).sqrt() as f32).to_bits(),
        vertical_speed_mps: (f64::from_bits(rates.up) as f32).to_bits(),
    }
}

fn from_detection_report(
    node_id: &str,
    sensor: Option<&TrackPosition>,
    msg: &DetectionReport,
) -> Result<Track, SapientError> {
    let geodesy = Geodesy { position: place, velocity: motion };
    peat_sapient::transform::detection::from_detection_report(node_id, sensor, msg, &geodesy)
}

fn from_alert(node_id: &str, msg: &Alert) -> SapientAlertEvent {
    let geodesy = Geodesy { position: place, velocity: motion };
    peat_sapient::transform::alert::from_alert(node_id, msg, &geodesy)
}

fn from_status_report(
    node_id: &str,
    msg: &StatusReport,
) -> (NodeState, Option<CapabilityAdvertisement>) {
    let geodesy = Geodesy { position: place, velocity: motion };
    peat_sapient::transform::status::from_status_report(node_id, msg, &geodesy)
}

fn bits(x: f64) -> Option<u64> {
    Some(x.to_bits())
}

fn json(text: &str) -> serde_json::Value {
    serde_json::from_str(text).unwrap()
}

fn known(system: LocationCoordinateSystem) -> Option<WireEnum<LocationCoordinateSystem>> {
    Some(WireEnum::Known(system))
}

fn wgs84_deg_location(lat: f64, lon: f64, alt: f64) -> Location {
    Location {
        x: bits(lon),
        y: bits(lat),
        z: bits(alt),
        coordinate_system: known(LocationCoordinateSystem::LatLngDegM),
        datum: None,
        utm_zone: None,
    }
}

fn located(location: Location) -> DetectionReport {
    DetectionReport {
        report_id: Some("r1".into()),
        object_id: Some("o1".into()),
        location_oneof: Some(LocationOneof::Location(location)),
        ..Default::default()
    }
}

fn simple_detection(lat: f64, lon: f64) -> DetectionReport {
    DetectionReport {
        report_id: Some("01HZZZZZZZZZZZZZZZZZZZZZZZZ".into()),
        object_id: Some("01HYYYYYYYYYYYYYYYYYYYYYYYY".into()),
        location_oneof: Some(LocationOneof::Location(wgs84_deg_location(lat, lon, 50.0))),
        ..Default::default()
    }
}

fn lat_lon_alt(position: &TrackPosition) -> (f64, f64, f32) {
    (
        f64::from_bits(position.latitude),
        f64::from_bits(position.longitude),
        f32::from_bits(position.altitude),
    )
}

#[test]
fn wgs84_deg_passthrough() {
    let track = from_detection_report("node-1", None, &simple_detection(51.5074, -0.1278)).unwrap();
    let (lat, lon, alt) = lat_lon_alt(&track.position.unwrap());
    assert!((lat - 51.5074).abs() < 1e-9);
    assert!((lon - (-0.1278)).abs() < 1e-9);
    assert!((alt - 50.0).abs() < 1e-3);
}

#[test]
fn lat_lng_radians_converted_to_degrees() {
    let lat_deg = 51.5074_f64;
    let lon_deg = -0.1278_f64;
    let report = located(Location {
        x: bits(lon_deg.to_radians()),
        y: bits(lat_deg.to_radians()),
        z: bits(0.0),
        coordinate_system: known(LocationCoordinateSystem::LatLngRadM),
        datum: None,
        utm_zone: None,
    });
    let track = from_detection_report("node-1", None, &report).unwrap();
    let (lat, lon, _) = lat_lon_alt(&track.position.unwrap());
    assert!((lat - lat_deg).abs() < 1e-4, "lat {}", lat);
    assert!((lon - lon_deg).abs() < 1e-4, "lon {}", lon);
}

#[test]
fn lat_lng_deg_feet_altitude_converted_to_metres() {
    let report = located(Location {
        x: bits(-0.1278),
        y: bits(51.5074),
        z: bits(100.0),
        coordinate_system: Some(WireEnum::Unknown(3)),
        datum: None,
        utm_zone: None,
    });
    let track = from_detection_report("node-1", None, &report).unwrap();
    let (lat, lon, alt) = lat_lon_alt(&track.position.unwrap());
    assert!((lat - 51.5074).abs() < 1e-9);
    assert!((lon - (-0.1278)).abs() < 1e-9);
    assert!((alt - 30.48).abs() < 1e-3, "100 ft should convert to 30.48 m, got {}", alt);
}

#[test]
fn lat_lng_rad_feet_altitude_converted() {
    let lat_deg = 51.5074_f64;
    let lon_deg = -0.1278_f64;
    let report = located(Location {
        x: bits(lon_deg.to_radians()),
        y: bits(lat_deg.to_radians()),
        z: bits(200.0),
        coordinate_system: Some(WireEnum::Unknown(4)),
        datum: None,
        utm_zone: None,
    });
    let track = from_detection_report("node-1", None, &report).unwrap();
    let (lat, lon, alt) = lat_lon_alt(&track.position.unwrap());
    assert!((lat - lat_deg).abs() < 1e-4, "lat {}", lat);
    assert!((lon - lon_deg).abs() < 1e-4, "lon {}", lon);
    assert!((alt - 60.96).abs() < 1e-2, "200 ft should convert to 60.96 m, got {}", alt);
}

#[test]
fn utm_to_wgs84_central_london() {
    let report = located(Location {
        x: bits(699_651.0),
        y: bits(5_710_164.0),
        z: bits(11.0),
        coordinate_system: known(LocationCoordinateSystem::UtmM),
        datum: None,
        utm_zone: Some("30U".into()),
    });
    let track = from_detection_report("node-1", None, &report).unwrap();
    let (lat, lon, alt) = lat_lon_alt(&track.position.unwrap());
    assert!((lat - 51.508).abs() < 0.01, "latitude {} expected ~51.508", lat);
    assert!((lon - (-0.1281)).abs() < 0.01, "longitude {} expected ~-0.1281", lon);
    assert_eq!(alt, 11.0);
}

fn range_bearing(range: f64, azimuth: f64, elevation: f64) -> DetectionReport {
    DetectionReport {
        report_id: Some("r1".into()),
        object_id: Some("o1".into()),
        location_oneof: Some(LocationOneof::RangeBearing(RangeBearing {
            range: bits(range),
            azimuth: bits(azimuth),
            elevation: bits(elevation),
            range_error: None,
        })),
        ..Default::default()
    }
}

#[test]
fn range_bearing_without_sensor_position_is_error() {
    let result = from_detection_report("node-1", None, &range_bearing(100.0, 45.0, 0.0));
    assert!(
        matches!(result, Err(SapientError::UnsupportedCoordinateSystem(_))),
        "expected UnsupportedCoordinateSystem, got {result:?}"
    );
}

#[test]
fn range_bearing_with_sensor_position_resolves() {
    let sensor = TrackPosition {
        latitude: 51.5_f64.to_bits(),
        longitude: (-0.1_f64).to_bits(),
        ..Default::default()
    };
    let report = range_bearing(100.0, 0.0, 0.0);
    let track = from_detection_report("node-1", Some(&sensor), &report).unwrap();
    let (lat, lon, _) = lat_lon_alt(&track.position.unwrap());
    assert!(lat > 51.5, "target should be north of sensor");
    assert!((lon - (-0.1)).abs() < 0.0001, "longitude unchanged");
}

#[test]
fn range_error_becomes_circular_error() {
    let sensor = TrackPosition::default();
    let mut report = range_bearing(100.0, 90.0, 30.0);
    if let Some(LocationOneof::RangeBearing(rb)) = &mut report.location_oneof {
        rb.range_error = bits(2.5);
    }
    let position =
        from_detection_report("node-1", Some(&sensor), &report).unwrap().position.unwrap();
    assert_eq!(f32::from_bits(position.cep_m), 2.5);
    assert_eq!(position.vertical_error_m, 0);
    assert!((f32::from_bits(position.altitude) - 50.0).abs() < 1e-3);
}

#[test]
fn classification_and_confidence_mapped() {
    let mut report = simple_detection(51.0, 0.0);
    report.classification = vec![DetectionReportClassification {
        type_label: Some("person".into()),
        confidence: Some(0.92_f32.to_bits()),
    }];
    let track = from_detection_report("node-1", None, &report).unwrap();
    assert_eq!(track.classification, "person");
    assert!((f32::from_bits(track.confidence) - 0.92).abs() < 1e-5);
}

#[test]
fn first_classification_is_taken() {
    let mut report = simple_detection(51.0, 0.0);
    report.classification = vec![
        DetectionReportClassification { type_label: None, confidence: None },
        DetectionReportClassification {
            type_label: Some("person".into()),
            confidence: Some(1),
        },
    ];
    let track = from_detection_report("node-1", None, &report).unwrap();
    assert_eq!(track.classification, "");
    assert_eq!(track.confidence, 0);
}

#[test]
fn no_classification_defaults_to_empty() {
    let track = from_detection_report("node-1", None, &simple_detection(51.0, 0.0)).unwrap();
    assert_eq!(track.classification, "");
    assert_eq!(f32::from_bits(track.confidence), 0.0);
}

#[test]
fn enu_velocity_due_north_maps_to_bearing_zero() {
    let mut report = simple_detection(51.0, 0.0);
    report.velocity = Some(EnuVelocity {
        east_rate: bits(0.0),
        north_rate: bits(5.0),
        up_rate: bits(0.0),
    });
    let track = from_detection_report("node-1", None, &report).unwrap();
    let vel = track.velocity.unwrap();
    let bearing = f32::from_bits(vel.bearing);
    assert!((bearing - 0.0).abs() < 0.01, "bearing {}", bearing);
    assert!((f32::from_bits(vel.speed_mps) - 5.0).abs() < 0.01);
    assert!((f32::from_bits(vel.vertical_speed_mps) - 0.0).abs() < 0.01);
}

#[test]
fn enu_velocity_due_east_maps_to_bearing_90() {
    let mut report = simple_detection(51.0, 0.0);
    report.velocity = Some(EnuVelocity {
        east_rate: bits(3.0),
        north_rate: bits(0.0),
        up_rate: bits(1.5),
    });
    let track = from_detection_report("node-1", None, &report).unwrap();
    let vel = track.velocity.unwrap();
    let bearing = f32::from_bits(vel.bearing);
    assert!((bearing - 90.0).abs() < 0.01, "bearing {}", bearing);
    assert!((f32::from_bits(vel.speed_mps) - 3.0).abs() < 0.01);
    assert!((f32::from_bits(vel.vertical_speed_mps) - 1.5).abs() < 0.01);
}

#[test]
fn rates_left_out_are_zero() {
    let mut report = simple_detection(51.0, 0.0);
    report.velocity = Some(EnuVelocity { east_rate: bits(-4.0), north_rate: None, up_rate: None });
    let vel = from_detection_report("node-1", None, &report).unwrap().velocity.unwrap();
    assert_eq!(f32::from_bits(vel.bearing), 270.0);
    assert_eq!(f32::from_bits(vel.speed_mps), 4.0);
    assert_eq!(f32::from_bits(vel.vertical_speed_mps), 0.0);
}

#[test]
fn no_velocity_yields_none() {
    let track = from_detection_report("node-1", None, &simple_detection(51.0, 0.0)).unwrap();
    assert!(track.velocity.is_none());
}

#[test]
fn object_id_becomes_track_id() {
    let track = from_detection_report("node-1", None, &simple_detection(51.0, 0.0)).unwrap();
    assert_eq!(track.track_id, "01HYYYYYYYYYYYYYYYYYYYYYYYY");
}

#[test]
fn source_node_id_preserved() {
    let track =
        from_detection_report("sensor-uuid-abc", None, &simple_detection(51.0, 0.0)).unwrap();
    assert_eq!(track.source.unwrap().node_id, "sensor-uuid-abc");
}

#[test]
fn track_of_a_detection_is_a_confirmed_sensor_track() {
    let track = from_detection_report("n", None, &simple_detection(51.0, 0.0)).unwrap();
    assert_eq!(track.state, TrackState::Confirmed);
    assert_eq!(track.observation_count, 1);
    assert_eq!(track.first_seen, None);
    assert_eq!(track.last_seen, None);
    let source = track.source.unwrap();
    assert_eq!(source.sensor_id, "01HZZZZZZZZZZZZZZZZZZZZZZZZ");
    assert_eq!(source.model_version, "");
    assert_eq!(source.source_type, SourceType::Sensor);
    assert_eq!(track.attributes_json, "{}");
}

#[test]
fn colour_field_in_attributes_json() {
    let mut report = simple_detection(51.0, 0.0);
    report.colour = Some("red".into());
    let track = from_detection_report("node-1", None, &report).unwrap();
    assert_eq!(json(&track.attributes_json)["colour"], "red");
}

#[test]
fn attributes_hold_id_and_labelled_behaviours() {
    let mut report = simple_detection(51.0, 0.0);
    report.id = Some("plate \"X\"".into());
    report.behaviour = vec![
        Behaviour { type_label: Some("walking".into()) },
        Behaviour { type_label: None },
        Behaviour { type_label: Some("waving".into()) },
    ];
    let track = from_detection_report("node-1", None, &report).unwrap();
    assert_eq!(
        track.attributes_json,
        "{\"behaviours\":[\"walking\",\"waving\"],\"id\":\"plate \\\"X\\\"\"}"
    );
}

fn mapping_detail(result: Result<Track, SapientError>) -> (String, String) {
    match result {
        Err(SapientError::MappingError { kind, detail }) => (kind.to_string(), detail),
        other => panic!("expected MappingError, got {other:?}"),
    }
}

#[test]
fn detection_without_what_its_mapping_needs_is_refused() {
    let refused = |report: &DetectionReport| {
        mapping_detail(from_detection_report("n", Some(&TrackPosition::default()), report))
    };
    let pair = |kind: &str, detail: &str| (kind.to_string(), detail.to_string());
    assert_eq!(
        refused(&DetectionReport::default()),
        pair("detection", "DetectionReport has no location")
    );
    let full = wgs84_deg_location(1.0, 2.0, 3.0);
    assert_eq!(
        refused(&located(Location { x: None, y: None, ..full.clone() })),
        pair("location", "Location.x missing")
    );
    assert_eq!(
        refused(&located(Location { y: None, ..full.clone() })),
        pair("location", "Location.y missing")
    );
    let utm = Location {
        coordinate_system: known(LocationCoordinateSystem::UtmM),
        ..full.clone()
    };
    assert_eq!(refused(&located(utm.clone())), pair("location", "UTM location missing utm_zone"));
    assert_eq!(
        refused(&located(Location { utm_zone: Some("61U".into()), ..utm })),
        pair("location", "invalid utm_zone: 61U")
    );
    let mut report = range_bearing(1.0, 2.0, 3.0);
    report.location_oneof = Some(LocationOneof::RangeBearing(RangeBearing::default()));
    assert_eq!(refused(&report), pair("range_bearing", "RangeBearing.range missing"));
    report.location_oneof = Some(LocationOneof::RangeBearing(RangeBearing {
        range: bits(1.0),
        ..Default::default()
    }));
    assert_eq!(refused(&report), pair("range_bearing", "RangeBearing.azimuth missing"));
}

#[test]
fn unspecified_coordinate_system_is_unsupported() {
    let full = wgs84_deg_location(1.0, 2.0, 3.0);
    let systems = vec![
        None,
        known(LocationCoordinateSystem::Unspecified),
        Some(WireEnum::Unknown(99)),
        Some(WireEnum::Unknown(-1)),
    ];
    for coordinate_system in systems {
        let loc = Location { coordinate_system, ..full.clone() };
        assert_eq!(
            plan_location(&loc),
            Err(SapientError::UnsupportedCoordinateSystem(
                "unspecified coordinate system".to_string()
            ))
        );
    }
}

#[test]
fn plans_carry_what_the_message_says() {
    let loc = Location {
        x: Some(7),
        y: Some(8),
        z: None,
        coordinate_system: known(LocationCoordinateSystem::UtmM),
        datum: None,
        utm_zone: Some(" 5m ".into()),
    };
    assert_eq!(
        plan_location(&loc),
        Ok(PositionPlan::Utm { easting: 7, northing: 8, zone: 5, northern: false, altitude: 0 })
    );
    let rb = RangeBearing { range: Some(1), azimuth: Some(2), elevation: None, range_error: Some(4) };
    let sensor = TrackPosition { latitude: 9, ..Default::default() };
    assert_eq!(
        plan_range_bearing(&rb, &sensor),
        Ok(PositionPlan::Relative { sensor, range: 1, azimuth: 2, elevation: 0, range_error: 4 })
    );
}

#[test]
fn utm_zones_are_a_number_and_a_letter() {
    let cases = vec![
        ("30U", Some((30, true))),
        ("30N", Some((30, true))),
        ("1x", Some((1, true))),
        ("60C", Some((60, false))),
        ("030U", Some((30, true))),
        ("+7S", Some((7, true))),
        ("12m", Some((12, false))),
        ("  33T\n", Some((33, true))),
        ("33\u{e9}", Some((33, false))),
        ("", None),
        ("   ", None),
        ("U", None),
        ("0U", None),
        ("61U", None),
        ("256U", None),
        ("-1U", None),
        ("3 0U", None),
        ("+U", None),
        ("30", Some((3, false))),
    ];
    for (text, parsed) in cases {
        assert_eq!(parse_utm_zone(text), parsed, "zone {text:?}");
    }
}

fn basic_alert() -> Alert {
    Alert {
        alert_id: Some("01HZALERT0000000000000000A".into()),
        alert_type: Some(WireEnum::Known(AlertType::Warning)),
        status: Some(WireEnum::Known(AlertStatus::Active)),
        priority: Some(WireEnum::Known(DiscretePriority::High)),
        description: Some("Perimeter breach detected".into()),
        confidence: Some(0.92_f32.to_bits()),
        ranking: Some(0.85_f32.to_bits()),
        ..Default::default()
    }
}

#[test]
fn alert_id_preserved() {
    let event = from_alert("node-1", &basic_alert());
    assert_eq!(event.alert_id, "01HZALERT0000000000000000A");
}

#[test]
fn alert_type_warning_label() {
    let event = from_alert("node-1", &basic_alert());
    assert_eq!(event.alert_type, "Warning");
}

#[test]
fn alert_type_critical_label() {
    let mut a = basic_alert();
    a.alert_type = Some(WireEnum::Known(AlertType::Critical));
    assert_eq!(from_alert("node-1", &a).alert_type, "Critical");
}

#[test]
fn alert_status_active_label() {
    let event = from_alert("node-1", &basic_alert());
    assert_eq!(event.status, "Active");
}

#[test]
fn alert_status_clear_label() {
    let mut a = basic_alert();
    a.status = Some(WireEnum::Known(AlertStatus::Clear));
    assert_eq!(from_alert("node-1", &a).status, "Clear");
}

#[test]
fn priority_high_label() {
    let event = from_alert("node-1", &basic_alert());
    assert_eq!(event.priority, "High");
}

#[test]
fn priority_low_label() {
    let mut a = basic_alert();
    a.priority = Some(WireEnum::Known(DiscretePriority::Low));
    assert_eq!(from_alert("node-1", &a).priority, "Low");
}

#[test]
fn labels_of_unknown_numbers_show_them() {
    let mut a = basic_alert();
    a.alert_type = Some(WireEnum::Unknown(42));
    a.status = Some(WireEnum::Unknown(-7));
    a.priority = Some(WireEnum::Unknown(i32::MIN));
    let event = from_alert("node-1", &a);
    assert_eq!(event.alert_type, "Unknown(42)");
    assert_eq!(event.status, "Unknown(-7)");
    assert_eq!(event.priority, "Unknown(-2147483648)");
}

#[test]
fn description_preserved() {
    let event = from_alert("node-1", &basic_alert());
    assert_eq!(event.description.as_deref(), Some("Perimeter breach detected"));
}

#[test]
fn confidence_preserved() {
    let event = from_alert("node-1", &basic_alert());
    assert!((f32::from_bits(event.confidence.unwrap()) - 0.92).abs() < 1e-5);
}

#[test]
fn alert_no_location_yields_none_position() {
    let event = from_alert("node-1", &basic_alert());
    assert!(event.position.is_none());
}

#[test]
fn latlng_location_converted_to_position() {
    let mut a = basic_alert();
    a.location_oneof = Some(LocationOneof::Location(wgs84_deg_location(51.5074, -0.1278, 5.0)));
    let (lat, lon, _) = lat_lon_alt(&from_alert("node-1", &a).position.unwrap());
    assert!((lat - 51.5074).abs() < 1e-9);
    assert!((lon - (-0.1278)).abs() < 1e-9);
}

#[test]
fn range_bearing_location_yields_none_position() {
    let mut a = basic_alert();
    a.location_oneof = Some(LocationOneof::RangeBearing(RangeBearing {
        range: bits(200.0),
        azimuth: bits(45.0),
        ..Default::default()
    }));
    assert!(from_alert("node-1", &a).position.is_none());
}

#[test]
fn unresolved_location_yields_none_position() {
    let mut a = basic_alert();
    a.location_oneof = Some(LocationOneof::Location(Location::default()));
    assert!(from_alert("node-1", &a).position.is_none());
}

#[test]
fn source_node_id_in_attributes_json() {
    let event = from_alert("sensor-uuid-123", &basic_alert());
    assert_eq!(json(&event.attributes_json)["sapient_source_node_id"], "sensor-uuid-123");
}

#[test]
fn associated_detection_ids_in_attributes_json() {
    let mut a = basic_alert();
    a.associated_detection = vec![
        AssociatedDetection { object_id: Some("det-001".into()) },
        AssociatedDetection { object_id: Some("det-002".into()) },
    ];
    let attrs = json(&from_alert("node-1", &a).attributes_json);
    let ids = attrs["associated_detection_ids"].as_array().unwrap();
    assert_eq!(ids.len(), 2);
    assert!(ids.contains(&serde_json::Value::String("det-001".into())));
}

#[test]
fn no_alert_id_defaults_to_empty_string() {
    let event = from_alert("node-1", &Alert::default());
    assert_eq!(event.alert_id, "");
    assert_eq!(event.alert_type, "Unspecified");
    assert_eq!(event.status, "Unspecified");
    assert_eq!(event.priority, "Unspecified");
    assert_eq!(event.description, None);
}

fn make_reg(node_type: NodeType) -> Registration {
    Registration {
        node_definition: vec![NodeDefinition {
            node_type: Some(WireEnum::Known(node_type)),
            node_sub_type: vec![],
        }],
        icd_version: Some("BSI Flex 335 v2.0".into()),
        name: Some("TestSensor".into()),
        short_name: None,
        config_data: vec![ConfigurationData {
            manufacturer: "Acme".into(),
            model: "Cam1000".into(),
            ..Default::default()
        }],
        ..Default::default()
    }
}

#[test]
fn camera_maps_to_sensor_capability() {
    let advert = from_registration("node-uuid-1", &make_reg(NodeType::Camera));
    assert_eq!(advert.capabilities.len(), 1);
    let cap = &advert.capabilities[0];
    assert_eq!(cap.capability_type, CapabilityType::Sensor);
    assert_eq!(cap.name, "Camera");
}

#[test]
fn radar_maps_to_sensor_capability() {
    let advert = from_registration("node-uuid-2", &make_reg(NodeType::Radar));
    assert_eq!(advert.capabilities[0].capability_type, CapabilityType::Sensor);
}

#[test]
fn mobile_node_maps_to_mobility_capability() {
    let advert = from_registration("node-uuid-3", &make_reg(NodeType::MobileNode));
    assert_eq!(advert.capabilities[0].capability_type, CapabilityType::Mobility);
}

#[test]
fn kinetic_maps_to_payload_capability() {
    let advert = from_registration("node-uuid-4", &make_reg(NodeType::Kinetic));
    assert_eq!(advert.capabilities[0].capability_type, CapabilityType::Payload);
}

#[test]
fn fusion_node_maps_to_compute_capability() {
    let advert = from_registration("node-uuid-5", &make_reg(NodeType::FusionNode));
    assert_eq!(advert.capabilities[0].capability_type, CapabilityType::Compute);
}

#[test]
fn node_id_preserved() {
    let advert =
        from_registration("aaaabbbb-0000-1111-2222-333344445555", &make_reg(NodeType::Camera));
    assert_eq!(advert.node_id, "aaaabbbb-0000-1111-2222-333344445555");
}

#[test]
fn icd_version_in_metadata_json() {
    let advert = from_registration("node-1", &make_reg(NodeType::Camera));
    let meta = json(&advert.capabilities[0].metadata_json);
    assert_eq!(meta["sapient_icd_version"], "BSI Flex 335 v2.0");
}

#[test]
fn manufacturer_and_model_in_metadata_json() {
    let advert = from_registration("node-1", &make_reg(NodeType::Camera));
    let meta = json(&advert.capabilities[0].metadata_json);
    assert_eq!(meta["sapient_manufacturer"], "Acme");
    assert_eq!(meta["sapient_model"], "Cam1000");
}

#[test]
fn operational_status_is_ready() {
    let advert = from_registration("node-1", &make_reg(NodeType::Camera));
    assert_eq!(advert.operational_status, WireEnum::Known(OperationalStatus::Ready));
}

#[test]
fn unknown_node_type_zero_maps_to_unspecified() {
    let advert = from_registration("node-1", &make_reg(NodeType::Unspecified));
    assert_eq!(advert.capabilities[0].capability_type, CapabilityType::Unspecified);
}

#[test]
fn multiple_node_definitions_produce_multiple_capabilities() {
    let mut reg = make_reg(NodeType::Camera);
    reg.node_definition.push(NodeDefinition {
        node_type: Some(WireEnum::Known(NodeType::Radar)),
        node_sub_type: vec![],
    });
    let advert = from_registration("multi-node", &reg);
    assert_eq!(advert.capabilities.len(), 2);
}

#[test]
fn capability_is_described_in_full() {
    let mut reg = make_reg(NodeType::PassiveRf);
    reg.node_definition[0].node_sub_type = vec!["df".into(), "esm".into()];
    reg.node_definition.push(NodeDefinition { node_type: None, node_sub_type: vec![] });
    reg.node_definition.push(NodeDefinition {
        node_type: Some(WireEnum::Unknown(77)),
        node_sub_type: vec![],
    });
    let advert = from_registration("n", &reg);
    assert_eq!(advert.capabilities.len(), 1);
    let cap = &advert.capabilities[0];
    assert_eq!(cap.id, "n/PassiveRf");
    assert_eq!(f32::from_bits(cap.confidence), 1.0);
    assert_eq!(
        json(&cap.metadata_json)["sapient_node_sub_type"],
        serde_json::Value::from(vec!["df", "esm"])
    );
    assert_eq!(json(&cap.metadata_json)["sapient_name"], "TestSensor");
}

#[test]
fn node_types_fall_into_capability_types() {
    let cases = vec![
        (NodeType::Jammer, CapabilityType::Payload),
        (NodeType::Ldew, CapabilityType::Payload),
        (NodeType::Rfdew, CapabilityType::Payload),
        (NodeType::Cyber, CapabilityType::Communication),
        (NodeType::PointableNode, CapabilityType::Mobility),
        (NodeType::Human, CapabilityType::Unspecified),
        (NodeType::Other, CapabilityType::Unspecified),
        (NodeType::Radiation, CapabilityType::Sensor),
    ];
    for (node_type, kind) in cases {
        assert_eq!(node_type_to_capability_type(node_type), kind);
    }
}

fn bare_report(system: System) -> StatusReport {
    StatusReport { system: Some(WireEnum::Known(system)), ..Default::default() }
}

fn powered(level: i32) -> StatusReport {
    StatusReport { power: Some(Power { level: Some(level) }), ..bare_report(System::Okay) }
}

#[test]
fn system_ok_maps_to_nominal() {
    let (state, _) = from_status_report("n1", &bare_report(System::Okay));
    assert_eq!(state.health, WireEnum::Known(HealthStatus::Nominal));
}

#[test]
fn system_warning_maps_to_degraded() {
    let (state, _) = from_status_report("n1", &bare_report(System::Warning));
    assert_eq!(state.health, WireEnum::Known(HealthStatus::Degraded));
}

#[test]
fn system_error_maps_to_critical() {
    let (state, _) = from_status_report("n1", &bare_report(System::Error));
    assert_eq!(state.health, WireEnum::Known(HealthStatus::Critical));
}

#[test]
fn system_goodbye_maps_to_failed() {
    let (state, _) = from_status_report("n1", &bare_report(System::Goodbye));
    assert_eq!(state.health, WireEnum::Known(HealthStatus::Failed));
}

#[test]
fn unknown_system_is_unspecified() {
    assert_eq!(system_to_health(WireEnum::Unknown(9)), HealthStatus::Unspecified);
    assert_eq!(
        system_to_operational_status(WireEnum::Unknown(9)),
        OperationalStatus::Unspecified
    );
    assert_eq!(
        system_to_operational_status(WireEnum::Known(System::Goodbye)),
        OperationalStatus::Offline
    );
    let (state, _) = from_status_report("n1", &StatusReport::default());
    assert_eq!(state.health, WireEnum::Known(HealthStatus::Unspecified));
    assert_eq!(state.phase, WireEnum::Known(Phase::Hierarchy));
}

#[test]
fn battery_level_stored_in_fuel_minutes() {
    let (state, _) = from_status_report("n1", &powered(85));
    assert_eq!(state.fuel_minutes, 85);
}

#[test]
fn battery_clamped_to_100() {
    let (state, _) = from_status_report("n1", &powered(150));
    assert_eq!(state.fuel_minutes, 100);
}

#[test]
fn battery_is_never_negative() {
    let (state, _) = from_status_report("n1", &powered(-5));
    assert_eq!(state.fuel_minutes, 0);
}

fn reporting_from(location: Location) -> StatusReport {
    StatusReport { node_location: Some(location), ..bare_report(System::Okay) }
}

fn position_of(position: &Position) -> (f64, f64, f64) {
    (
        f64::from_bits(position.latitude),
        f64::from_bits(position.longitude),
        f64::from_bits(position.altitude),
    )
}

#[test]
fn node_location_lat_lng_deg_maps_to_position() {
    let report = reporting_from(wgs84_deg_location(51.5074, -0.1278, 11.0));
    let (state, _) = from_status_report("n1", &report);
    let (lat, lon, alt) = position_of(&state.position.unwrap());
    assert!((lat - 51.5074).abs() < 1e-6);
    assert!((lon - (-0.1278)).abs() < 1e-6);
    assert!((alt - 11.0).abs() < 1e-6);
}

#[test]
fn node_location_radians_converts_to_degrees() {
    let lat_deg = 51.5074_f64;
    let lon_deg = -0.1278_f64;
    let report = reporting_from(Location {
        coordinate_system: known(LocationCoordinateSystem::LatLngRadM),
        ..wgs84_deg_location(lat_deg.to_radians(), lon_deg.to_radians(), 0.0)
    });
    let (state, _) = from_status_report("n1", &report);
    let (lat, lon, _) = position_of(&state.position.unwrap());
    assert!((lat - lat_deg).abs() < 1e-4);
    assert!((lon - lon_deg).abs() < 1e-4);
}

#[test]
fn status_no_location_yields_none_position() {
    let (state, _) = from_status_report("n1", &bare_report(System::Okay));
    assert!(state.position.is_none());
}

#[test]
fn utm_node_location_yields_none_position() {
    let report = reporting_from(Location {
        coordinate_system: known(LocationCoordinateSystem::UtmM),
        datum: None,
        utm_zone: Some("30U".into()),
        ..wgs84_deg_location(1.0, 2.0, 3.0)
    });
    assert!(from_status_report("n1", &report).0.position.is_none());
}

#[test]
fn fov_present_yields_capability_delta() {
    let report = StatusReport { field_of_view: Some(vec![]), ..bare_report(System::Okay) };
    let (_, delta) = from_status_report("n1", &report);
    assert!(delta.is_some());
}

#[test]
fn mode_present_yields_capability_delta() {
    let report = StatusReport { mode: Some("scanning".into()), ..bare_report(System::Okay) };
    let (_, delta) = from_status_report("n1", &report);
    assert!(delta.is_some());
}

#[test]
fn pure_heartbeat_yields_no_delta() {
    let (_, delta) = from_status_report("n1", &bare_report(System::Okay));
    assert!(delta.is_none());
}

#[test]
fn capability_delta_carries_battery_level() {
    let report = StatusReport { mode: Some("default".into()), ..powered(72) };
    let (_, delta) = from_status_report("n1", &report);
    let resources = delta.unwrap().resources.unwrap();
    assert!((resources.power_percent as f32 / 100.0 - 0.72).abs() < 1e-4);
}

fn isr_command() -> HierarchicalCommand {
    HierarchicalCommand {
        command_id: "cmd-001".into(),
        originator_id: "origin-node".into(),
        command_type: Some(CommandType::MissionOrder(MissionOrder {
            mission_type: Some("Isr".into()),
            mission_id: "mission-42".into(),
            description: "ISR sweep".into(),
        })),
        ..Default::default()
    }
}

fn engagement() -> HierarchicalCommand {
    HierarchicalCommand {
        command_id: "eng-cmd".into(),
        command_type: Some(CommandType::EngagementOrder(EngagementOrder {
            target_id: "tgt-001".into(),
        })),
        ..Default::default()
    }
}

fn task_of(content: Option<Content>) -> Task {
    match content {
        Some(Content::Task(task)) => task,
        other => panic!("expected Task, got {other:?}"),
    }
}

#[test]
fn isr_mission_produces_start_task() {
    let msg = to_task("src-uuid", "dst-uuid", &isr_command()).unwrap();
    assert_eq!(task_of(msg.content).control, Some(WireEnum::Known(Control::Start)));
}

#[test]
fn task_id_is_valid_ulid() {
    let msg = to_task("src-uuid", "dst-uuid", &isr_command()).unwrap();
    let task_id = task_of(msg.content).task_id.unwrap();
    assert_eq!(task_id.len(), 26, "ULID should be 26 chars, got {task_id}");
    assert!(
        task_id.chars().all(|c| c.is_ascii_alphanumeric()),
        "ULID should be alphanumeric, got {task_id}"
    );
    assert!(task_id.parse::<ulid::Ulid>().is_ok());
}

#[test]
fn source_node_id_on_outer_message() {
    let msg = to_task("source-node-uuid", "dst-uuid", &isr_command()).unwrap();
    assert_eq!(msg.node_id.as_deref(), Some("source-node-uuid"));
}

#[test]
fn destination_node_id_on_outer_message() {
    let msg = to_task("src-uuid", "destination-node-uuid", &isr_command()).unwrap();
    assert_eq!(msg.destination_id.as_deref(), Some("destination-node-uuid"));
}

#[test]
fn timestamp_is_set_and_nonzero() {
    let msg = to_task("src", "dst", &isr_command()).unwrap();
    let ts = msg.timestamp.unwrap();
    assert!(ts.seconds > 0, "timestamp.seconds should be > 0");
}

#[test]
fn task_start_time_is_set() {
    let msg = to_task("src", "dst", &isr_command()).unwrap();
    assert!(task_of(msg.content).task_start_time.is_some());
}

#[test]
fn no_command_type_returns_task_rejected() {
    let cmd = HierarchicalCommand { command_id: "empty".into(), ..Default::default() };
    let result = to_task("src", "dst", &cmd);
    assert!(
        matches!(result, Err(SapientError::TaskRejected { .. })),
        "expected TaskRejected, got {result:?}"
    );
    assert_eq!(
        result.unwrap_err().message(),
        "Task rejected by node src: HierarchicalCommand has no command_type"
    );
}

#[test]
fn task_name_includes_mission_type() {
    let msg = to_task("src", "dst", &isr_command()).unwrap();
    let name = task_of(msg.content).task_name.unwrap();
    assert!(name.contains("Isr"), "task name '{name}' should contain 'Isr'");
    assert_eq!(name, "MissionOrder/Isr");
}

#[test]
fn engagement_order_produces_start_task() {
    let msg = to_task("src", "dst", &engagement()).unwrap();
    assert_eq!(task_of(msg.content).control, Some(WireEnum::Known(Control::Start)));
}

#[test]
fn task_names_follow_the_command() {
    assert_eq!(command_to_task_name(&engagement()), "EngagementOrder/tgt-001");
    let named = |command_type: CommandType| {
        command_to_task_name(&HierarchicalCommand {
            command_type: Some(command_type),
            ..Default::default()
        })
    };
    assert_eq!(named(CommandType::FormationChange), "FormationChange");
    assert_eq!(named(CommandType::ConfigurationUpdate), "ConfigurationUpdate");
    assert_eq!(
        named(CommandType::MissionOrder(MissionOrder {
            mission_type: None,
            mission_id: "".into(),
            description: "".into(),
        })),
        "MissionOrder/Unspecified"
    );
    assert_eq!(command_to_task_name(&HierarchicalCommand::default()), "");
}

#[test]
fn task_message_carries_identifier_and_times() {
    let mut cmd = engagement();
    cmd.expires_at = Some(Timestamp { seconds: u64::MAX, nanos: 0x8000_0000 });
    let start = ProtoTimestamp { seconds: 5, nanos: 6 };
    let sent = ProtoTimestamp { seconds: 7, nanos: 8 };
    let msg = task_message("a", "b", &cmd, "task-1".to_string(), start, sent).unwrap();
    assert_eq!(msg.timestamp, Some(sent));
    let task = task_of(msg.content);
    assert_eq!(task.task_id.as_deref(), Some("task-1"));
    assert_eq!(task.task_description.as_deref(), Some("peat command_id=eng-cmd"));
    assert_eq!(task.task_start_time, Some(start));
    assert_eq!(task.task_end_time, Some(ProtoTimestamp { seconds: -1, nanos: i32::MIN }));
    assert!(task.region.is_empty());
}
