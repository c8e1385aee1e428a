use peat_sapient::bridge::{
    content_label, extract_task_id, make_registration_ack, route_message, AlertAckStatus,
    SapientUpdate, TaskAckStatus,
};
use peat_sapient::error::SapientError;
use peat_sapient::geodesy::{Coordinates, EnuRates, Geodesy, PositionPlan};
use peat_sapient::proto::{
    Alert, AlertAck, AlertStatus, AlertType, Content, Control, DetectionReport, DiscretePriority,
    Location, LocationCoordinateSystem, LocationOneof, NodeDefinition, NodeType,
    ProtoAlertAckStatus, Registration, RegistrationAck, SapientMessage, SapientProtoError,
    StatusReport, System, Task, TaskAck, TaskStatus,
};
use peat_sapient::rate_limit::{DetectionLimiter, RateLimitConfig};
use peat_sapient::schema::{TrackPosition, Velocity, WireEnum};

const MILLIS: u64 = 1_000_000;
const PER_SECOND: u64 = 1_000_000_000;

fn place(plan: PositionPlan) -> Coordinates {
    match plan {
        PositionPlan::Geodetic { latitude, longitude, altitude, .. } => Coordinates {
            latitude,
            longitude,
            altitude: (f64::from_bits(altitude) as f32).to_bits(),
            error: 0,
        },
        _ => Coordinates { latitude: 0, longitude: 0, altitude: 0, error: 0 },
    }
}

fn motion(_rates: EnuRates) -> Velocity {
    Velocity::default()
}

fn route(
    msg: SapientMessage,
    sensor: Option<&TrackPosition>,
    limiter: &mut Option<DetectionLimiter>,
    now: u64,
) -> Result<SapientUpdate, SapientError> {
    let geodesy = Geodesy { position: place, velocity: motion };
    route_message(msg, sensor, limiter, now, &geodesy)
}

fn msg_with(node_id: &str, content: Content) -> SapientMessage {
    SapientMessage {
        node_id: Some(node_id.to_string()),
        content: Some(content),
        ..Default::default()
    }
}

fn registration(node_type: NodeType) -> Registration {
    Registration {
        node_definition: vec![NodeDefinition {
            node_type: Some(WireEnum::Known(node_type)),
            node_sub_type: vec![],
        }],
        ..Default::default()
    }
}

#[test]
fn bridge_registration_routes_to_registered() {
    let reg = registration(NodeType::Camera);
    let update = route(msg_with("node-1", Content::Registration(reg)), None, &mut None, 0).unwrap();
    assert!(matches!(update, SapientUpdate::Registered { .. }));
}

#[test]
fn bridge_registered_carries_correct_node_id() {
    let reg = registration(NodeType::Radar);
    let update =
        route(msg_with("sensor-uuid", Content::Registration(reg)), None, &mut None, 0).unwrap();
    if let SapientUpdate::Registered { node_id, .. } = update {
        assert_eq!(node_id, "sensor-uuid");
    } else {
        panic!("expected Registered");
    }
}

#[test]
fn bridge_status_report_routes_to_status_updated() {
    let sr = StatusReport { system: Some(WireEnum::Known(System::Okay)), ..Default::default() };
    let update = route(msg_with("node-2", Content::StatusReport(sr)), None, &mut None, 0).unwrap();
    assert!(matches!(update, SapientUpdate::StatusUpdated { .. }));
}

#[test]
fn bridge_status_updated_node_id_matches() {
    let sr = StatusReport { system: Some(WireEnum::Known(System::Warning)), ..Default::default() };
    let update =
        route(msg_with("my-sensor", Content::StatusReport(sr)), None, &mut None, 0).unwrap();
    if let SapientUpdate::StatusUpdated { node_id, .. } = update {
        assert_eq!(node_id, "my-sensor");
    } else {
        panic!("expected StatusUpdated");
    }
}

fn detection_report(report_id: &str, object_id: &str) -> DetectionReport {
    DetectionReport {
        report_id: Some(report_id.into()),
        object_id: Some(object_id.into()),
        location_oneof: Some(LocationOneof::Location(Location {
            x: Some((-0.1278f64).to_bits()),
            y: Some(51.5074f64.to_bits()),
            z: Some(0.0f64.to_bits()),
            coordinate_system: Some(WireEnum::Known(LocationCoordinateSystem::LatLngDegM)),
            ..Default::default()
        })),
        ..Default::default()
    }
}

#[test]
fn bridge_detection_report_latlng_routes_to_detected() {
    let dr = detection_report("rpt-1", "obj-1");
    let update =
        route(msg_with("sensor-1", Content::DetectionReport(dr)), None, &mut None, 0).unwrap();
    assert!(matches!(update, SapientUpdate::Detected { .. }));
}

fn task_ack(task_id: &str, status: Option<TaskStatus>, reason: Vec<String>) -> Content {
    Content::TaskAck(TaskAck {
        task_id: Some(task_id.into()),
        task_status: status.map(WireEnum::Known),
        reason,
    })
}

#[test]
fn task_ack_accepted_routes_to_task_acknowledged() {
    let ack = task_ack("01HZTASKID000000000000000000", Some(TaskStatus::Accepted), vec![]);
    let update = route(msg_with("n", ack), None, &mut None, 0).unwrap();
    if let SapientUpdate::TaskAcknowledged { task_id, status, .. } = update {
        assert_eq!(task_id, "01HZTASKID000000000000000000");
        assert_eq!(status, TaskAckStatus::Accepted);
    } else {
        panic!("expected TaskAcknowledged");
    }
}

#[test]
fn task_ack_rejected_produces_rejected_status() {
    let ack = task_ack("task-rej", Some(TaskStatus::Rejected), vec!["out of fuel".into()]);
    let update = route(msg_with("n", ack), None, &mut None, 0).unwrap();
    if let SapientUpdate::TaskAcknowledged { status, reasons, .. } = update {
        assert_eq!(status, TaskAckStatus::Rejected);
        assert_eq!(reasons, ["out of fuel"]);
    } else {
        panic!("expected TaskAcknowledged");
    }
}

#[test]
fn task_ack_completed_produces_completed_status() {
    let ack = task_ack("task-done", Some(TaskStatus::Completed), vec![]);
    let update = route(msg_with("n", ack), None, &mut None, 0).unwrap();
    if let SapientUpdate::TaskAcknowledged { status, .. } = update {
        assert_eq!(status, TaskAckStatus::Completed);
    } else {
        panic!("expected TaskAcknowledged");
    }
}

#[test]
fn task_ack_failed_produces_failed_status() {
    let ack = task_ack("task-fail", Some(TaskStatus::Failed), vec!["sensor malfunction".into()]);
    let update = route(msg_with("n", ack), None, &mut None, 0).unwrap();
    if let SapientUpdate::TaskAcknowledged { status, reasons, .. } = update {
        assert_eq!(status, TaskAckStatus::Failed);
        assert_eq!(reasons, ["sensor malfunction"]);
    } else {
        panic!("expected TaskAcknowledged");
    }
}

#[test]
fn task_ack_unspecified_defaults_to_failed() {
    let ack = task_ack("task-unk", None, vec![]);
    let update = route(msg_with("n", ack), None, &mut None, 0).unwrap();
    if let SapientUpdate::TaskAcknowledged { status, .. } = update {
        assert_eq!(status, TaskAckStatus::Failed);
    } else {
        panic!("expected TaskAcknowledged");
    }
}

#[test]
fn task_ack_of_unknown_number_is_failed() {
    assert_eq!(TaskAckStatus::from_proto(Some(WireEnum::Unknown(99))), TaskAckStatus::Failed);
    assert_eq!(
        TaskAckStatus::from_proto(Some(WireEnum::Known(TaskStatus::Unspecified))),
        TaskAckStatus::Failed
    );
}

fn alert_ack(alert_id: &str, status: ProtoAlertAckStatus, reason: Vec<String>) -> Content {
    Content::AlertAck(AlertAck {
        alert_id: Some(alert_id.into()),
        alert_ack_status: Some(WireEnum::Known(status)),
        reason,
    })
}

#[test]
fn alert_ack_accepted_routes_to_alert_acknowledged() {
    let ack = alert_ack("alert-001", ProtoAlertAckStatus::Accepted, vec![]);
    let update = route(msg_with("n", ack), None, &mut None, 0).unwrap();
    if let SapientUpdate::AlertAcknowledged { alert_id, status, .. } = update {
        assert_eq!(alert_id, "alert-001");
        assert_eq!(status, AlertAckStatus::Accepted);
    } else {
        panic!("expected AlertAcknowledged");
    }
}

#[test]
fn alert_ack_rejected_produces_rejected_status() {
    let ack = alert_ack("alert-002", ProtoAlertAckStatus::Rejected, vec!["false positive".into()]);
    let update = route(msg_with("n", ack), None, &mut None, 0).unwrap();
    if let SapientUpdate::AlertAcknowledged { status, reasons, .. } = update {
        assert_eq!(status, AlertAckStatus::Rejected);
        assert_eq!(reasons, ["false positive"]);
    } else {
        panic!("expected AlertAcknowledged");
    }
}

#[test]
fn alert_ack_cancelled_produces_cancelled_status() {
    let ack = alert_ack("alert-003", ProtoAlertAckStatus::Cancelled, vec![]);
    let update = route(msg_with("n", ack), None, &mut None, 0).unwrap();
    if let SapientUpdate::AlertAcknowledged { status, .. } = update {
        assert_eq!(status, AlertAckStatus::Cancelled);
    } else {
        panic!("expected AlertAcknowledged");
    }
}

#[test]
fn alert_ack_status_survives_the_wire() {
    for status in [AlertAckStatus::Accepted, AlertAckStatus::Rejected, AlertAckStatus::Cancelled] {
        assert_eq!(AlertAckStatus::from_proto(Some(WireEnum::Known(status.to_proto()))), status);
    }
    assert_eq!(AlertAckStatus::from_proto(None), AlertAckStatus::Rejected);
    assert_eq!(AlertAckStatus::from_proto(Some(WireEnum::Unknown(7))), AlertAckStatus::Rejected);
}

#[test]
fn bridge_registration_ack_routes_to_ignored() {
    let update = route(
        msg_with("n", Content::RegistrationAck(RegistrationAck::default())),
        None,
        &mut None,
        0,
    )
    .unwrap();
    assert!(matches!(update, SapientUpdate::Ignored { .. }));
}

#[test]
fn bridge_no_content_routes_to_ignored() {
    let msg = SapientMessage { node_id: Some("n".into()), content: None, ..Default::default() };
    let update = route(msg, None, &mut None, 0).unwrap();
    match update {
        SapientUpdate::Ignored { reason } => assert_eq!(reason, "SapientMessage has no content"),
        other => panic!("expected Ignored, got {other:?}"),
    }
}

#[test]
fn error_content_routes_to_ignored() {
    let update = route(
        msg_with("n", Content::Error(SapientProtoError { packet: None, error_message: vec![] })),
        None,
        &mut None,
        0,
    )
    .unwrap();
    match update {
        SapientUpdate::Ignored { reason } => assert_eq!(reason, "no peat mapping for Error"),
        other => panic!("expected Ignored, got {other:?}"),
    }
}

#[test]
fn inbound_task_is_ignored() {
    let update = route(msg_with("n", Content::Task(Task::default())), None, &mut None, 0).unwrap();
    match update {
        SapientUpdate::Ignored { reason } => assert_eq!(reason, "no peat mapping for Task"),
        other => panic!("expected Ignored, got {other:?}"),
    }
    assert_eq!(content_label(&Content::Task(Task::default())), "Task");
}

#[test]
fn alert_routes_to_alerted() {
    let a = Alert {
        alert_id: Some("01HZALERTTEST00000000000000".into()),
        alert_type: Some(WireEnum::Known(AlertType::Warning)),
        status: Some(WireEnum::Known(AlertStatus::Active)),
        priority: Some(WireEnum::Known(DiscretePriority::High)),
        description: Some("test alert".into()),
        ..Default::default()
    };
    let update = route(msg_with("sensor-a", Content::Alert(a)), None, &mut None, 0).unwrap();
    assert!(matches!(update, SapientUpdate::Alerted { .. }));
}

#[test]
fn alerted_carries_node_id_and_alert_id() {
    let a = Alert {
        alert_id: Some("alert-uuid-001".into()),
        alert_type: Some(WireEnum::Known(AlertType::Critical)),
        ..Default::default()
    };
    let update = route(msg_with("my-sensor", Content::Alert(a)), None, &mut None, 0).unwrap();
    if let SapientUpdate::Alerted { node_id, event } = update {
        assert_eq!(node_id, "my-sensor");
        assert_eq!(event.alert_id, "alert-uuid-001");
    } else {
        panic!("expected Alerted");
    }
}

fn detection_msg(node_id: &str) -> SapientMessage {
    msg_with(node_id, Content::DetectionReport(detection_report("rpt-rl", "obj-rl")))
}

#[test]
fn burst_of_detections_drops_excess() {
    let mut limiter = Some(DetectionLimiter::new(RateLimitConfig {
        max_per_second: 10 * PER_SECOND,
        burst_size: 2,
    }));

    let r1 = route(detection_msg("node-1"), None, &mut limiter, 0).unwrap();
    let r2 = route(detection_msg("node-1"), None, &mut limiter, 0).unwrap();
    let r3 = route(detection_msg("node-1"), None, &mut limiter, 0).unwrap();

    assert!(matches!(r1, SapientUpdate::Detected { .. }), "1st should be Detected");
    assert!(matches!(r2, SapientUpdate::Detected { .. }), "2nd should be Detected");
    assert!(
        matches!(&r3, SapientUpdate::Ignored { reason } if reason.contains("rate-limited")),
        "3rd should be Ignored (rate-limited)"
    );
    assert!(
        matches!(&r3, SapientUpdate::Ignored { reason } if reason == "detection rate-limited for node node-1")
    );
}

#[test]
fn detections_resume_after_token_refill() {
    let mut limiter = Some(DetectionLimiter::new(RateLimitConfig {
        max_per_second: 10 * PER_SECOND,
        burst_size: 1,
    }));

    let r1 = route(detection_msg("node-1"), None, &mut limiter, 0).unwrap();
    let r2 = route(detection_msg("node-1"), None, &mut limiter, 0).unwrap();
    assert!(matches!(r1, SapientUpdate::Detected { .. }));
    assert!(matches!(&r2, SapientUpdate::Ignored { .. }), "should be dropped");

    let r3 = route(detection_msg("node-1"), None, &mut limiter, 100 * MILLIS).unwrap();
    assert!(matches!(r3, SapientUpdate::Detected { .. }), "should pass after refill");
}

#[test]
fn no_limiter_forwards_all_detections() {
    for i in 0..5 {
        let r = route(detection_msg(&format!("node-{i}")), None, &mut None, 0).unwrap();
        assert!(
            matches!(r, SapientUpdate::Detected { .. }),
            "detection {i} should be Detected with no limiter"
        );
    }
}

#[test]
fn dropped_detection_is_not_mapped() {
    // A detection without a location is an error, unless it is dropped first.
    let bad = || msg_with("n", Content::DetectionReport(DetectionReport::default()));
    let mut limiter = Some(DetectionLimiter::new(RateLimitConfig {
        max_per_second: PER_SECOND,
        burst_size: 1,
    }));
    let first = route(bad(), None, &mut limiter, 0);
    assert!(matches!(first, Err(SapientError::MappingError { .. })));
    let second = route(bad(), None, &mut limiter, 0).unwrap();
    assert!(matches!(second, SapientUpdate::Ignored { .. }));
}

fn task_message(task_id: Option<String>) -> SapientMessage {
    SapientMessage {
        content: Some(Content::Task(Task {
            task_id,
            control: Some(WireEnum::Known(Control::Start)),
            ..Default::default()
        })),
        ..Default::default()
    }
}

#[test]
fn extract_task_id_from_valid_task_message() {
    let msg = task_message(Some("ulid-abc".into()));
    assert_eq!(extract_task_id(&msg).unwrap(), "ulid-abc");
}

#[test]
fn extract_task_id_missing_task_id_returns_err() {
    let msg = task_message(None);
    assert!(matches!(extract_task_id(&msg), Err(SapientError::MappingError { .. })));
    let msg = task_message(Some(String::new()));
    let err = extract_task_id(&msg).unwrap_err();
    assert_eq!(err.message(), "Message mapping error (task_id): Task message has no task_id");
}

#[test]
fn extract_task_id_wrong_content_returns_err() {
    let msg = SapientMessage {
        content: Some(Content::RegistrationAck(RegistrationAck::default())),
        ..Default::default()
    };
    assert!(matches!(extract_task_id(&msg), Err(SapientError::MappingError { .. })));
}

#[test]
fn registration_ack_accepts() {
    let msg = make_registration_ack("hldmm", "dlmm");
    assert_eq!(msg.node_id.as_deref(), Some("hldmm"));
    assert_eq!(msg.destination_id.as_deref(), Some("dlmm"));
    let ts = msg.timestamp.unwrap();
    assert!(ts.seconds > 1_700_000_000);
    assert!((0..1_000_000_000).contains(&ts.nanos));
    match msg.content {
        Some(Content::RegistrationAck(ack)) => {
            assert_eq!(ack.acceptance, Some(true));
            assert!(ack.ack_response_reason.is_empty());
        }
        other => panic!("expected RegistrationAck, got {other:?}"),
    }
}
