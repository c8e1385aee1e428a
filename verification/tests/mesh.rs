use peat_sapient::bridge::SapientUpdate;
use peat_sapient::error::SapientError;
use peat_sapient::geodesy::{Coordinates, EnuRates, Geodesy, PositionPlan};
use peat_sapient::ieee::{is_finite_double, is_finite_single, widened};
use peat_sapient::mesh_fields::{
    health_status_str, operational_status_str, phase_str, platform_to_fields, track_to_fields,
    FieldValue, Fields,
};
use peat_sapient::proto::{
    Content, DetectionReport, DetectionReportClassification, Location, LocationCoordinateSystem,
    LocationOneof, RangeBearing, Registration, SapientMessage, SapientProtoError, StatusReport,
    Task,
};
use peat_sapient::schema::{
    Capability, CapabilityAdvertisement, CapabilityType, HealthStatus, NodeState,
    OperationalStatus, Phase, Position, SourceType, Timestamp, Track, TrackPosition, TrackSource,
    TrackState, Velocity, WireEnum,
};
use peat_sapient::subscriber::{origin, passes_on, publication};
use peat_sapient::translator::{Document, SapientTranslator};
use peat_sapient::transport::{
    forward, receive, ConnectionState, DisconnectReason, PeatSapientTransport, PeerEvent, SapientRole,
    TransportError, SAPIENT_TRANSPORT_TYPE_TAG,
};

fn place(plan: PositionPlan) -> Coordinates {
    match plan {
        PositionPlan::Geodetic { latitude, longitude, altitude, .. } => Coordinates {
            latitude,
            longitude,
            altitude: (f64::from_bits(altitude) as f32).to_bits(),
            error: 0,
        },
        PositionPlan::Relative { sensor, .. } => Coordinates {
            latitude: sensor.latitude,
            longitude: sensor.longitude,
            altitude: sensor.altitude,
            error: 0,
        },
        _ => Coordinates { latitude: 0, longitude: 0, altitude: 0, error: 0 },
    }
}

fn motion(_rates: EnuRates) -> Velocity {
    Velocity::default()
}

fn decode(
    translator: &mut SapientTranslator,
    msg: &SapientMessage,
) -> Result<Option<Document>, SapientError> {
    translator.decode_inbound(msg, &Geodesy { position: place, velocity: motion })
}

fn double(fields: &Fields, name: &str) -> f64 {
    match fields.get(name) {
        Some(FieldValue::Double(bits)) => f64::from_bits(*bits),
        Some(FieldValue::Single(bits)) => f32::from_bits(*bits) as f64,
        other => panic!("field {name} is {other:?}"),
    }
}

fn text<'a>(fields: &'a Fields, name: &str) -> &'a str {
    match fields.get(name) {
        Some(FieldValue::Text(text)) => text,
        other => panic!("field {name} is {other:?}"),
    }
}

fn sample_track() -> Track {
    Track {
        track_id: "trk-1".into(),
        classification: "vehicle".into(),
        confidence: 0.87_f32.to_bits(),
        position: Some(TrackPosition {
            latitude: 34.05_f64.to_bits(),
            longitude: (-118.25_f64).to_bits(),
            altitude: 120.0_f32.to_bits(),
            cep_m: 5.0_f32.to_bits(),
            vertical_error_m: 2.0_f32.to_bits(),
        }),
        velocity: None,
        state: TrackState::Unspecified,
        source: Some(TrackSource {
            node_id: "sensor-42".into(),
            sensor_id: String::new(),
            model_version: String::new(),
            source_type: SourceType::Sensor,
        }),
        attributes_json: String::new(),
        first_seen: None,
        last_seen: Some(Timestamp { seconds: 1_700_000_000, nanos: 500_000_000 }),
        observation_count: 3,
    }
}

#[test]
fn track_to_fields_projects_position_and_extensions() {
    let (id, fields) = track_to_fields(&sample_track());
    assert_eq!(id, "trk-1");
    assert_eq!(double(&fields, "lat"), 34.05);
    assert_eq!(double(&fields, "lon"), -118.25);
    assert_eq!(double(&fields, "hae"), 120.0);
    assert_eq!(fields.get("timestamp_ms"), Some(&FieldValue::Integer(1_700_000_000_500i64)));
    assert_eq!(text(&fields, "sapient_classification"), "vehicle");
    assert_eq!(text(&fields, "sapient_source_node_id"), "sensor-42");
    assert!(fields.get("cot_type").is_none(), "must not guess affiliation");
}

#[test]
fn track_to_fields_omits_zero_altitude() {
    let mut track = sample_track();
    track.position.as_mut().unwrap().altitude = 0;
    let (_, fields) = track_to_fields(&track);
    assert!(fields.get("hae").is_none());
    track.position.as_mut().unwrap().altitude = (-0.0_f32).to_bits();
    let (_, fields) = track_to_fields(&track);
    assert!(fields.get("hae").is_none());
}

fn advertisement(node_id: &str, status: OperationalStatus) -> CapabilityAdvertisement {
    CapabilityAdvertisement {
        node_id: node_id.into(),
        advertised_at: None,
        capabilities: vec![],
        resources: None,
        operational_status: WireEnum::Known(status),
    }
}

fn state(position: Option<Position>) -> NodeState {
    NodeState {
        position,
        fuel_minutes: 0,
        health: WireEnum::Known(HealthStatus::Nominal),
        phase: WireEnum::Known(Phase::Hierarchy),
        cell_id: None,
        zone_id: None,
        timestamp: None,
    }
}

#[test]
fn platform_to_fields_projects_capabilities_and_health() {
    let mut advert = advertisement("node-9", OperationalStatus::Ready);
    advert.capabilities = vec![Capability {
        id: "cap-1".into(),
        name: "radar".into(),
        capability_type: CapabilityType::Sensor,
        confidence: 1.0_f32.to_bits(),
        metadata_json: String::new(),
        registered_at: None,
    }];
    let position =
        Position { latitude: 1.0_f64.to_bits(), longitude: 2.0_f64.to_bits(), altitude: 0 };
    let (id, fields) = platform_to_fields(&advert, Some(&state(Some(position))));
    assert_eq!(id, "node-9");
    assert_eq!(fields.get("capabilities"), Some(&FieldValue::TextList(vec!["radar".into()])));
    assert_eq!(text(&fields, "operational_status"), "ready");
    assert_eq!(text(&fields, "health"), "nominal");
    assert_eq!(text(&fields, "phase"), "hierarchy");
    assert_eq!(double(&fields, "lat"), 1.0);
    assert!(fields.get("hae").is_none(), "zero altitude omitted");
}

#[test]
fn platform_to_fields_omits_unspecified_operational_status() {
    let advert = advertisement("node-11", OperationalStatus::Unspecified);
    let (_, fields) = platform_to_fields(&advert, None);
    assert!(
        fields.get("operational_status").is_none(),
        "Unspecified must be omitted, not written, so it can't clobber a prior known status"
    );
}

#[test]
fn platform_to_fields_without_state_still_projects_capability_data() {
    let advert = advertisement("node-10", OperationalStatus::Unspecified);
    let (id, fields) = platform_to_fields(&advert, None);
    assert_eq!(id, "node-10");
    assert!(fields.get("capabilities").is_none());
    assert!(fields.get("health").is_none());
}

#[test]
fn words_of_statuses() {
    assert_eq!(operational_status_str(OperationalStatus::Degraded), "degraded");
    assert_eq!(operational_status_str(OperationalStatus::Maintenance), "maintenance");
    assert_eq!(health_status_str(HealthStatus::Critical), "critical");
    assert_eq!(health_status_str(HealthStatus::Failed), "failed");
    assert_eq!(phase_str(Phase::Discovery), "discovery");
    assert_eq!(phase_str(Phase::Cell), "cell");
}

fn msg(node_id: &str, content: Content) -> SapientMessage {
    SapientMessage {
        node_id: Some(node_id.to_string()),
        content: Some(content),
        ..Default::default()
    }
}

fn location(lat: f64, lon: f64, alt: f64) -> Location {
    Location {
        x: Some(lon.to_bits()),
        y: Some(lat.to_bits()),
        z: Some(alt.to_bits()),
        coordinate_system: Some(WireEnum::Known(LocationCoordinateSystem::LatLngDegM)),
        datum: None,
        utm_zone: None,
    }
}

fn document(id: &str, fields: Vec<(&str, FieldValue)>) -> Document {
    let mut values = Fields::new();
    for (name, value) in fields {
        values.set(name, value);
    }
    Document { id: Some(id.to_string()), fields: values }
}

fn number(x: f64) -> FieldValue {
    FieldValue::Number { double: x.to_bits(), single: (x as f32).to_bits() }
}

#[test]
fn transport_id_is_sapient_static() {
    let t = SapientTranslator::new();
    let id: &'static str = t.transport_id();
    assert_eq!(id, "sapient");
    assert_eq!(t.tracks_collection(), "tracks");
    assert_eq!(t.platforms_collection(), "platforms");
}

#[test]
fn encode_outbound_always_declines() {
    let t = SapientTranslator::new();
    let doc = document("any", vec![]);
    assert_eq!(t.encode_outbound(&doc, Some("tracks")), None);
}

#[test]
fn decode_inbound_declines_unrecognized_content_ok_none() {
    let mut t = SapientTranslator::new();
    let error = SapientProtoError { packet: None, error_message: vec![] };
    let result = decode(&mut t, &msg("node-1", Content::Error(error))).unwrap();
    assert!(result.is_none());
}

#[test]
fn decode_inbound_registration_produces_platforms_document() {
    let mut t = SapientTranslator::new();
    let registration = Registration { icd_version: Some("8.0".into()), ..Default::default() };
    let doc =
        decode(&mut t, &msg("node-1", Content::Registration(registration))).unwrap().unwrap();
    assert_eq!(doc.id.as_deref(), Some("node-1"));
}

fn status_at(node_id: &str, loc: Location) -> SapientMessage {
    let report = StatusReport { node_location: Some(loc), ..Default::default() };
    msg(node_id, Content::StatusReport(report))
}

#[test]
fn decode_inbound_status_report_caches_position_for_later_detection() {
    let mut t = SapientTranslator::new();
    decode(&mut t, &status_at("node-2", location(34.05, -118.25, 50.0))).unwrap();
    let cached = t.cached_position("node-2").unwrap();
    assert_eq!(f64::from_bits(cached.latitude), 34.05);
    assert_eq!(f32::from_bits(cached.altitude), 50.0);
}

#[test]
fn cached_position_places_a_later_range_and_bearing() {
    let mut t = SapientTranslator::new();
    let sighting = msg(
        "node-2",
        Content::DetectionReport(DetectionReport {
            object_id: Some("o".into()),
            location_oneof: Some(LocationOneof::RangeBearing(RangeBearing {
                range: Some(0),
                azimuth: Some(0),
                ..Default::default()
            })),
            ..Default::default()
        }),
    );
    assert!(decode(&mut t, &sighting).is_err());
    decode(&mut t, &status_at("node-2", location(34.05, -118.25, 50.0))).unwrap();
    let doc = decode(&mut t, &sighting).unwrap().unwrap();
    assert_eq!(double(&doc.fields, "lat"), 34.05);
    assert_eq!(doc.id.as_deref(), Some("o"));
}

#[test]
fn decode_inbound_detection_report_produces_tracks_document() {
    let mut t = SapientTranslator::new();
    let report = DetectionReport { object_id: Some("det-1".into()), ..Default::default() };
    assert!(decode(&mut t, &msg("node-3", Content::DetectionReport(report))).is_err());
}

fn cot_like_tracks_doc(uid: &str, lat: f64, lon: f64) -> Document {
    document(
        uid,
        vec![
            ("lat", number(lat)),
            ("lon", number(lon)),
            ("hae", number(150.0)),
            ("cot_type", FieldValue::Text("a-f-G-U-C".into())),
            ("callsign", FieldValue::Text("ALPHA-1".into())),
            ("tak_origin", FieldValue::Flag(true)),
            ("timestamp_ms", FieldValue::Integer(1719964800000_i64)),
        ],
    )
}

fn report_of(msg: SapientMessage) -> DetectionReport {
    match msg.content {
        Some(Content::DetectionReport(dr)) => dr,
        other => panic!("expected DetectionReport, got {other:?}"),
    }
}

fn location_of(report: &DetectionReport) -> &Location {
    match &report.location_oneof {
        Some(LocationOneof::Location(loc)) => loc,
        other => panic!("expected Location, got {other:?}"),
    }
}

fn as_double(field: Option<u64>) -> f64 {
    f64::from_bits(field.unwrap())
}

#[test]
fn cot_doc_encodes_to_sapient_detection_report() {
    let t = SapientTranslator::new();
    let doc = cot_like_tracks_doc("cot-uid-001", 51.5074, -0.1278);
    let dr = report_of(t.encode_outbound(&doc, Some("tracks")).unwrap());
    assert_eq!(dr.object_id.as_deref(), Some("cot-uid-001"));
    let loc = location_of(&dr);
    assert!((as_double(loc.y) - 51.5074).abs() < 1e-6);
    assert!((as_double(loc.x) - (-0.1278)).abs() < 1e-6);
    assert!((as_double(loc.z) - 150.0).abs() < 1e-6);
}

#[test]
fn minimal_cot_doc_encodes() {
    let t = SapientTranslator::new();
    let doc = document("cot-min-001", vec![("lat", number(34.05)), ("lon", number(-118.25))]);
    assert!(t.encode_outbound(&doc, Some("tracks")).is_some(), "minimal CoT doc should encode");
}

#[test]
fn cot_specific_fields_ignored_gracefully() {
    let t = SapientTranslator::new();
    let doc = cot_like_tracks_doc("cot-uid-002", 51.5, -0.12);
    let dr = report_of(t.encode_outbound(&doc, Some("tracks")).unwrap());
    assert!(
        dr.classification.is_empty(),
        "cot_type/callsign should not become classification"
    );
}

#[test]
fn sapient_round_trip_preserves_position() {
    let mut t = SapientTranslator::new();
    let original = msg(
        "sensor-rt",
        Content::DetectionReport(DetectionReport {
            object_id: Some("det-rt-001".into()),
            location_oneof: Some(LocationOneof::Location(location(51.5074, -0.1278, 30.0))),
            ..Default::default()
        }),
    );
    let mesh_doc = decode(&mut t, &original).unwrap().unwrap();
    let dr = report_of(t.encode_outbound(&mesh_doc, Some("tracks")).unwrap());
    assert_eq!(dr.object_id.as_deref(), Some("det-rt-001"));
    let loc = location_of(&dr);
    assert!((as_double(loc.y) - 51.5074).abs() < 1e-4);
    assert!((as_double(loc.x) - (-0.1278)).abs() < 1e-4);
    assert_eq!(as_double(loc.z), 30.0);
}

#[test]
fn sapient_classification_survives_round_trip() {
    let mut t = SapientTranslator::new();
    let doc = document(
        "cls-rt-001",
        vec![
            ("lat", number(34.05)),
            ("lon", number(-118.25)),
            ("sapient_classification", FieldValue::Text("vehicle".into())),
            ("sapient_confidence", number(0.92)),
        ],
    );
    let sent = t.encode_outbound(&doc, Some("tracks")).unwrap();
    let decoded = decode(&mut t, &sent).unwrap().unwrap();
    assert_eq!(text(&decoded.fields, "sapient_classification"), "vehicle");
    let conf = double(&decoded.fields, "sapient_confidence");
    assert!((conf - 0.92).abs() < 0.01);
}

#[test]
fn coordinates_that_are_not_finite_are_declined() {
    let t = SapientTranslator::new();
    let at = |lat: f64, hae: f32| {
        document(
            "x",
            vec![
                ("lat", FieldValue::Double(lat.to_bits())),
                ("lon", FieldValue::Single(2.5_f32.to_bits())),
                ("hae", FieldValue::Single(hae.to_bits())),
            ],
        )
    };
    assert_eq!(t.encode_outbound(&at(f64::NAN, 1.0), Some("tracks")), None);
    assert_eq!(t.encode_outbound(&at(f64::INFINITY, 1.0), Some("tracks")), None);
    let dr = report_of(t.encode_outbound(&at(1.0, f32::NAN), Some("tracks")).unwrap());
    assert_eq!(location_of(&dr).z, None);
    assert_eq!(as_double(location_of(&dr).x), 2.5);
}

#[test]
fn widening_is_exact() {
    let singles = vec![
        0.0_f32,
        -0.0,
        1.0,
        -1.5,
        0.1,
        f32::MAX,
        f32::MIN,
        f32::MIN_POSITIVE,
        f32::MIN_POSITIVE / 2.0,
        -f32::MIN_POSITIVE / 3.0,
        f32::from_bits(1),
        f32::from_bits(0x7f_ffff),
        f32::from_bits(0x8000_0001),
    ];
    for single in singles {
        assert!(is_finite_single(single.to_bits()));
        assert_eq!(widened(single.to_bits()), (single as f64).to_bits(), "{single:e}");
    }
    assert!(!is_finite_single(f32::NAN.to_bits()));
    assert!(!is_finite_single(f32::NEG_INFINITY.to_bits()));
    assert!(is_finite_double(f64::MAX.to_bits()));
    assert!(!is_finite_double(f64::INFINITY.to_bits()));
}

#[test]
fn documents_that_are_no_tracks_are_declined() {
    let t = SapientTranslator::new();
    let doc = cot_like_tracks_doc("x", 1.0, 2.0);
    assert_eq!(t.encode_outbound(&doc, Some("platforms")), None);
    assert_eq!(t.encode_outbound(&doc, None), None);
    let no_lon = document("x", vec![("lat", number(1.0))]);
    assert_eq!(t.encode_outbound(&no_lon, Some("tracks")), None);
}

fn hldmm() -> SapientRole {
    SapientRole::Hldmm { listen_addr: "127.0.0.1:0".to_string() }
}

#[test]
fn disconnect_emits_disconnected_event() {
    let mut transport = PeatSapientTransport::new(hldmm());
    assert!(matches!(transport.register_peer("peer-1", 5), PeerEvent::Connected { .. }));
    match transport.disconnect("peer-1", 12).expect("disconnect") {
        PeerEvent::Disconnected { peer_id, reason, connection_duration } => {
            assert_eq!(peer_id, "peer-1");
            assert!(matches!(reason, DisconnectReason::LocalClosed));
            assert_eq!(connection_duration, 7);
        }
        other => panic!("expected Disconnected event, got {other:?}"),
    }
    assert_eq!(transport.peer_count(), 0, "disconnect must remove the peer record");
}

#[test]
fn disconnect_unknown_peer_errors() {
    let mut transport = PeatSapientTransport::new(hldmm());
    let result = transport.disconnect("never-connected", 0);
    assert!(matches!(result, Err(TransportError::PeerNotFound(_))));
}

#[test]
fn lost_peer_is_deregistered_once() {
    let mut transport = PeatSapientTransport::new(SapientRole::Dlmm {
        remote_addr: "127.0.0.1:1".to_string(),
        peer_node_id: "m".to_string(),
    });
    assert!(transport.forwards_outbound());
    transport.register_peer("m", 10);
    assert_eq!(
        transport.deregister_peer("m", 15),
        Some(PeerEvent::Disconnected {
            peer_id: "m".to_string(),
            reason: DisconnectReason::RemoteClosed,
            connection_duration: 5,
        })
    );
    assert_eq!(transport.deregister_peer("m", 16), None);
}

#[test]
fn peer_records_follow_the_transport() {
    let mut transport = PeatSapientTransport::new(hldmm());
    assert!(!transport.forwards_outbound());
    assert!(!transport.is_available());
    transport.start(3);
    assert!(transport.is_available());
    transport.register_peer("a", 1);
    transport.register_peer("b", 2);
    assert_eq!(transport.peer_count(), 2);
    assert_eq!(transport.connected_peers(), ["a", "b"]);
    assert!(transport.can_reach("a"));
    assert!(!transport.can_reach("c"));
    assert_eq!(transport.get_peer_health("a"), Some(ConnectionState::Healthy));
    transport.mark_dead("a");
    transport.mark_dead("c");
    assert_eq!(transport.get_peer_health("a"), Some(ConnectionState::Dead));
    assert_eq!(transport.get_peer_health("c"), None);
    assert_eq!(transport.connect("b").unwrap().connected_at, 2);
    assert_eq!(transport.connect("c"), Err(TransportError::PeerNotFound("c".to_string())));
    assert_eq!(transport.capabilities().transport_type_tag, SAPIENT_TRANSPORT_TYPE_TAG);
    assert_eq!(transport.capabilities().typical_latency_ms, 20);
    transport.stop();
    assert!(!transport.is_available());
    assert_eq!(transport.peer_count(), 0);
}

#[test]
fn received_messages_are_published_by_collection() {
    let geodesy = Geodesy { position: place, velocity: motion };
    let mut t = SapientTranslator::new();
    let status = status_at("n", location(1.0, 2.0, 3.0));
    let published = receive(&mut t, &status, &geodesy).unwrap().unwrap();
    assert_eq!(published.collection, "platforms");
    assert_eq!(published.document.id.as_deref(), Some("n"));
    assert!(t.cached_position("n").is_some());
    let detection = msg(
        "n",
        Content::DetectionReport(DetectionReport {
            object_id: Some("o".into()),
            location_oneof: Some(LocationOneof::Location(location(1.0, 2.0, 3.0))),
            ..Default::default()
        }),
    );
    assert_eq!(receive(&mut t, &detection, &geodesy).unwrap().unwrap().collection, "tracks");
    let task = msg("n", Content::Task(Task::default()));
    assert!(receive(&mut t, &task, &geodesy).unwrap().is_none());
    let nowhere = msg("n", Content::DetectionReport(DetectionReport::default()));
    assert!(receive(&mut t, &nowhere, &geodesy).is_err());
}

#[test]
fn updates_are_published_by_collection() {
    assert_eq!(origin(), "sapient");
    let registered = SapientUpdate::Registered {
        node_id: "n".to_string(),
        advertisement: advertisement("n", OperationalStatus::Ready),
    };
    let published = publication(&registered).unwrap();
    assert_eq!(published.collection, "platforms");
    assert_eq!(published.document.id.as_deref(), Some("n"));
    let detected = SapientUpdate::Detected { node_id: "n".to_string(), track: sample_track() };
    let published = publication(&detected).unwrap();
    assert_eq!(published.collection, "tracks");
    assert_eq!(published.document.id.as_deref(), Some("trk-1"));
    let heartbeat = SapientUpdate::StatusUpdated {
        node_id: "n".to_string(),
        state: state(None),
        capability_delta: None,
    };
    let published = publication(&heartbeat).unwrap();
    assert_eq!(published.collection, "platforms");
    assert!(published.document.fields.get("operational_status").is_none());
    assert_eq!(text(&published.document.fields, "health"), "nominal");
    assert!(publication(&SapientUpdate::NodeDisconnected { node_id: "n".to_string() }).is_none());
}

#[test]
fn fields_hold_one_value_per_name() {
    let mut fields = Fields::new();
    fields.set("a", FieldValue::Flag(false));
    fields.set("b", FieldValue::Integer(-1));
    fields.set("a", FieldValue::Flag(true));
    assert_eq!(fields.len(), 2);
    assert_eq!(fields.get("a"), Some(&FieldValue::Flag(true)));
    let mut names: Vec<&String> = (0..2).map(|i| fields.field_at(i).0).collect();
    names.sort();
    assert_eq!(names, ["a", "b"]);
    assert_eq!(fields.get("c"), None);
}

#[test]
fn confidence_of_a_detection_survives_the_round_trip() {
    let mut t = SapientTranslator::new();
    let original = msg(
        "s",
        Content::DetectionReport(DetectionReport {
            object_id: Some("o".into()),
            location_oneof: Some(LocationOneof::Location(location(1.0, 2.0, 3.0))),
            classification: vec![DetectionReportClassification {
                type_label: Some("person".into()),
                confidence: Some(0.5_f32.to_bits()),
            }],
            ..Default::default()
        }),
    );
    let doc = decode(&mut t, &original).unwrap().unwrap();
    let dr = report_of(t.encode_outbound(&doc, Some("tracks")).unwrap());
    assert_eq!(dr.classification.len(), 1);
    assert_eq!(dr.classification[0].type_label.as_deref(), Some("person"));
    assert_eq!(dr.classification[0].confidence, Some(0.5_f32.to_bits()));
}

#[test]
fn documents_are_not_sent_back_to_their_origin() {
    assert!(!passes_on(Some(origin())));
    assert!(!passes_on(Some("sapient")));
    assert!(passes_on(Some("tak")));
    assert!(passes_on(Some("Sapient")));
    assert!(passes_on(None));
}

#[test]
fn fields_are_listed_once_each() {
    let mut fields = Fields::new();
    fields.set("lat", FieldValue::Integer(1));
    fields.set("lon", FieldValue::Integer(2));
    fields.set("lat", FieldValue::Integer(3));
    let mut listed: Vec<(String, FieldValue)> = Vec::new();
    for i in 0..fields.len() {
        let (name, value) = fields.field_at(i);
        listed.push((name.clone(), value.clone()));
    }
    listed.sort_by(|a, b| a.0.cmp(&b.0));
    assert_eq!(
        listed,
        [("lat".to_string(), FieldValue::Integer(3)), ("lon".to_string(), FieldValue::Integer(2))]
    );
}

#[test]
fn tracks_of_others_are_forwarded_and_nothing_else() {
    let t = SapientTranslator::new();
    let doc = document("uid-1", vec![("lat", number(51.5)), ("lon", number(-0.1))]);
    let dr = report_of(forward(&t, &doc, Some("tak"), Some("tracks")).unwrap());
    assert_eq!(dr.object_id.as_deref(), Some("uid-1"));
    assert!(forward(&t, &doc, None, Some("tracks")).is_some());
    assert_eq!(forward(&t, &doc, Some("sapient"), Some("tracks")), None);
    assert_eq!(forward(&t, &doc, Some("tak"), Some("platforms")), None);
    assert_eq!(forward(&t, &doc, Some("tak"), None), None);
}
