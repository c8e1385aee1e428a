use peat_sapient::bridge::{
    AlertAckStatus, BridgeConfig, Connection, Reaction, SapientBridge, SapientUpdate,
    TaskAckStatus,
};
use peat_sapient::compliance::{ClientEvent, ComplianceRun, Step};
use peat_sapient::error::SapientError;
use peat_sapient::geodesy::{Coordinates, EnuRates, Geodesy, PositionPlan};
use peat_sapient::proto::{
    Alert, AlertAck, Capability, Content, DetectionReport, Location, LocationCoordinateSystem, LocationDatum,
    LocationOneof, LocationType, ModeDefinition, ModeType, NodeDefinition, NodeType,
    ProtoTimestamp, RangeBearing, RegionDefinition, RegionType, Registration, RegistrationAck,
    SapientDuration, SapientMessage, SapientProtoError, StatusDefinition, StatusReport, Task, TaskAck,
    TaskDefinition, TaskStatus, TimeUnits,
};
use peat_sapient::registry::{get_node, get_position};
use peat_sapient::schema::{
    CommandType, HierarchicalCommand, MissionOrder, Velocity, WireEnum,
};
use peat_sapient::transform::task::to_task;
use std::sync::Arc;

const SECOND: u64 = 1_000_000_000;

fn place(plan: PositionPlan) -> Coordinates {
    match plan {
        PositionPlan::Geodetic { latitude, longitude, altitude, .. } => Coordinates {
            latitude,
            longitude,
            altitude: (f64::from_bits(altitude) as f32).to_bits(),
            error: 0,
        },
        PositionPlan::Relative { sensor, .. } => Coordinates {
            latitude: sensor.latitude,
            longitude: sensor.longitude,
            altitude: sensor.altitude,
            error: 0,
        },
        _ => Coordinates { latitude: 0, longitude: 0, altitude: 0, error: 0 },
    }
}

fn motion(_rates: EnuRates) -> Velocity {
    Velocity::default()
}

fn bridge_config() -> BridgeConfig {
    BridgeConfig {
        node_id: "hldmm-test-uuid".into(),
        addr: "127.0.0.1:0".into(),
        detection_rate_limit: None,
        heartbeat_interval: 30 * SECOND,
        task_queue_depth: 8,
        task_ttl: 60 * SECOND,
    }
}

fn isr_command() -> HierarchicalCommand {
    HierarchicalCommand {
        command_id: "cmd-test-001".into(),
        originator_id: "hldmm-test-uuid".into(),
        command_type: Some(CommandType::MissionOrder(MissionOrder {
            mission_type: Some("Isr".into()),
            mission_id: "mission-test".into(),
            description: "test ISR sweep".into(),
        })),
        ..Default::default()
    }
}

fn isr_task() -> SapientMessage {
    to_task("hldmm-test-uuid", "dlmm-test-uuid", &isr_command()).unwrap()
}

fn from_node(content: Content) -> SapientMessage {
    SapientMessage {
        node_id: Some("dlmm-test-uuid".into()),
        content: Some(content),
        ..Default::default()
    }
}

fn registration_msg() -> SapientMessage {
    from_node(Content::Registration(Registration {
        node_definition: vec![NodeDefinition {
            node_type: Some(WireEnum::Known(NodeType::Camera)),
            node_sub_type: vec![],
        }],
        ..Default::default()
    }))
}

fn task_id_of(msg: &SapientMessage) -> String {
    match &msg.content {
        Some(Content::Task(t)) => t.task_id.clone().unwrap(),
        other => panic!("expected Task content, got {other:?}"),
    }
}

fn deliver(
    bridge: &mut SapientBridge,
    connection: &mut Connection,
    msg: SapientMessage,
    now: u64,
) -> Reaction {
    let sent = ProtoTimestamp { seconds: 1, nanos: 2 };
    let geodesy = Geodesy { position: place, velocity: motion };
    bridge.on_message_at(connection, msg, now, sent, &geodesy)
}

fn contents(replies: &[Arc<SapientMessage>]) -> Vec<&'static str> {
    replies
        .iter()
        .map(|m| match m.content {
            Some(Content::RegistrationAck(_)) => "ack",
            Some(Content::Task(_)) => "task",
            _ => "other",
        })
        .collect()
}

#[test]
fn bridge_accepts_connection_and_sends_registration_ack() {
    let mut bridge = SapientBridge::new(bridge_config());
    let mut connection = Connection::new(7);
    let geodesy = Geodesy { position: place, velocity: motion };
    let reaction = bridge.on_message(&mut connection, registration_msg(), &geodesy);
    assert_eq!(contents(&reaction.replies), ["ack"], "first message back should be RegistrationAck");
    assert_eq!(reaction.replies[0].destination_id.as_deref(), Some("dlmm-test-uuid"));
    let update = reaction.routed.unwrap();
    assert!(
        matches!(update, SapientUpdate::Registered { ref node_id, .. } if node_id == "dlmm-test-uuid"),
        "expected Registered for dlmm-test-uuid, got {update:?}"
    );
    assert!(get_node(bridge.registry(), "dlmm-test-uuid").is_some());
}

#[test]
fn bridge_delivers_task_to_connected_dlmm() {
    let mut bridge = SapientBridge::new(bridge_config());
    let mut connection = Connection::new(7);
    deliver(&mut bridge, &mut connection, registration_msg(), 0);
    let delivery = bridge.send_task("dlmm-test-uuid", isr_task(), None).unwrap().unwrap();
    assert_eq!(delivery.connection, 7);
    assert!(
        matches!(delivery.msg.content, Some(Content::Task(_))),
        "DLMM should receive Task, got {:?}",
        delivery.msg.content
    );
}

#[test]
fn bridge_replays_queued_task_on_dlmm_connect() {
    let mut bridge = SapientBridge::new(bridge_config());
    assert!(bridge.send_task_at("dlmm-test-uuid", isr_task(), None, 0).unwrap().is_none());
    let mut connection = Connection::new(1);
    let reaction = deliver(&mut bridge, &mut connection, registration_msg(), 1);
    assert_eq!(contents(&reaction.replies), ["ack", "task"]);
    let again = deliver(&mut bridge, &mut connection, registration_msg(), 2);
    assert!(again.replies.is_empty());
}

#[test]
fn task_ack_prevents_replay_on_reconnect() {
    let mut bridge = SapientBridge::new(bridge_config());
    let mut first = Connection::new(1);
    deliver(&mut bridge, &mut first, registration_msg(), 0);
    let task = isr_task();
    let task_id = task_id_of(&task);
    bridge.send_task_at("dlmm-test-uuid", task, Some("cmd-test-001".into()), 1).unwrap();
    let ack = || {
        from_node(Content::TaskAck(TaskAck {
            task_id: Some(task_id.clone()),
            task_status: Some(WireEnum::Known(TaskStatus::Accepted)),
            reason: vec!["ok".into()],
        }))
    };
    match deliver(&mut bridge, &mut first, ack(), 2).routed.unwrap() {
        SapientUpdate::TaskAcknowledged { task_id: id, command_id, status, reasons, .. } => {
            assert_eq!(id, task_id);
            assert_eq!(command_id.as_deref(), Some("cmd-test-001"));
            assert_eq!(status, TaskAckStatus::Accepted);
            assert_eq!(reasons, ["ok"]);
        }
        other => panic!("expected TaskAcknowledged, got {other:?}"),
    }
    match deliver(&mut bridge, &mut first, ack(), 3).routed.unwrap() {
        SapientUpdate::TaskAcknowledged { command_id, .. } => assert_eq!(command_id, None),
        other => panic!("expected TaskAcknowledged, got {other:?}"),
    }
    assert!(matches!(
        bridge.on_close(first),
        Some(SapientUpdate::NodeDisconnected { ref node_id }) if node_id == "dlmm-test-uuid"
    ));
    assert!(get_node(bridge.registry(), "dlmm-test-uuid").is_none());
    let mut second = Connection::new(2);
    let reaction = deliver(&mut bridge, &mut second, registration_msg(), 4);
    assert_eq!(
        contents(&reaction.replies),
        ["ack"],
        "no task should be replayed after TaskAck, but received a message"
    );
}

#[test]
fn unacknowledged_task_is_replayed_on_reconnect() {
    let mut bridge = SapientBridge::new(bridge_config());
    let mut first = Connection::new(1);
    deliver(&mut bridge, &mut first, registration_msg(), 0);
    let task = isr_task();
    let task_id = task_id_of(&task);
    bridge.send_task_at("dlmm-test-uuid", task, None, 1).unwrap();
    bridge.on_close(first);
    let mut second = Connection::new(2);
    let reaction = deliver(&mut bridge, &mut second, registration_msg(), 2);
    assert_eq!(contents(&reaction.replies), ["ack", "task"]);
    assert_eq!(task_id_of(&reaction.replies[1]), task_id);
}

#[test]
fn expired_task_is_not_replayed_on_reconnect() {
    let mut bridge =
        SapientBridge::new(BridgeConfig { task_ttl: 5 * SECOND, ..bridge_config() });
    bridge.send_task_at("dlmm-test-uuid", isr_task(), None, 0).unwrap();
    let mut connection = Connection::new(1);
    let reaction = deliver(&mut bridge, &mut connection, registration_msg(), 6 * SECOND);
    assert_eq!(contents(&reaction.replies), ["ack"], "expired task should not be replayed");
}

#[test]
fn message_without_a_task_is_not_queued() {
    let mut bridge = SapientBridge::new(bridge_config());
    let refused = bridge.send_task_at("dlmm-test-uuid", registration_msg(), None, 0);
    assert!(matches!(refused, Err(SapientError::MappingError { .. })));
    let unnamed = from_node(Content::Task(Task::default()));
    assert!(bridge.send_task_at("dlmm-test-uuid", unnamed, None, 0).is_err());
    let mut connection = Connection::new(1);
    let reaction = deliver(&mut bridge, &mut connection, registration_msg(), 1);
    assert_eq!(contents(&reaction.replies), ["ack"]);
}

#[test]
fn alert_ack_needs_a_connected_node() {
    let mut bridge = SapientBridge::new(bridge_config());
    let refused = bridge.send_alert_ack("x", "a-1", AlertAckStatus::Accepted, vec![]);
    assert_eq!(refused.unwrap_err(), SapientError::NodeNotFound("x".to_string()));
    let mut connection = Connection::new(9);
    deliver(&mut bridge, &mut connection, registration_msg(), 0);
    let delivery = bridge
        .send_alert_ack("dlmm-test-uuid", "a-1", AlertAckStatus::Rejected, vec!["no".into()])
        .unwrap();
    assert_eq!(delivery.connection, 9);
    assert_eq!(delivery.msg.node_id.as_deref(), Some("hldmm-test-uuid"));
    match &delivery.msg.content {
        Some(Content::AlertAck(ack)) => {
            assert_eq!(ack.alert_id.as_deref(), Some("a-1"));
            assert_eq!(ack.reason, ["no"]);
            assert_eq!(
                AlertAckStatus::from_proto(ack.alert_ack_status),
                AlertAckStatus::Rejected
            );
        }
        other => panic!("expected AlertAck, got {other:?}"),
    }
}

#[test]
fn reported_position_places_later_range_and_bearing() {
    let mut bridge = SapientBridge::new(bridge_config());
    let mut connection = Connection::new(1);
    let sighting = || {
        from_node(Content::DetectionReport(DetectionReport {
            location_oneof: Some(LocationOneof::RangeBearing(RangeBearing {
                range: Some(0),
                azimuth: Some(0),
                ..Default::default()
            })),
            ..Default::default()
        }))
    };
    assert!(deliver(&mut bridge, &mut connection, sighting(), 0).routed.is_err());
    let status = from_node(Content::StatusReport(StatusReport {
        node_location: Some(Location {
            x: Some((-0.1278_f64).to_bits()),
            y: Some(51.5074_f64.to_bits()),
            z: None,
            coordinate_system: Some(WireEnum::Known(LocationCoordinateSystem::LatLngDegM)),
            datum: None,
            utm_zone: None,
        }),
        ..Default::default()
    }));
    deliver(&mut bridge, &mut connection, status, 1).routed.unwrap();
    let kept = get_position(bridge.registry(), "dlmm-test-uuid").unwrap();
    assert_eq!(f64::from_bits(kept.latitude), 51.5074);
    match deliver(&mut bridge, &mut connection, sighting(), 2).routed.unwrap() {
        SapientUpdate::Detected { track, .. } => {
            assert_eq!(f64::from_bits(track.position.unwrap().latitude), 51.5074);
        }
        other => panic!("expected Detected, got {other:?}"),
    }
}

#[test]
fn silent_nodes_are_swept_and_keep_their_connection() {
    let mut bridge = SapientBridge::new(bridge_config());
    let mut connection = Connection::new(1);
    deliver(&mut bridge, &mut connection, registration_msg(), 0);
    assert!(bridge.sweep_at(SECOND, 2 * SECOND - 1).is_empty());
    assert_eq!(bridge.sweep_at(SECOND, 2 * SECOND).len(), 1);
    assert!(get_node(bridge.registry(), "dlmm-test-uuid").is_none());
    assert!(bridge.send_task("dlmm-test-uuid", isr_task(), None).unwrap().is_some());
}

#[test]
fn any_message_shows_a_node_alive() {
    let unusable = DetectionReport {
        location_oneof: Some(LocationOneof::Location(Location {
            x: Some(1.0_f64.to_bits()),
            y: Some(2.0_f64.to_bits()),
            coordinate_system: Some(WireEnum::Unknown(99)),
            ..Default::default()
        })),
        ..Default::default()
    };
    let messages = vec![
        (Content::Alert(Alert::default()), true),
        (Content::AlertAck(AlertAck::default()), true),
        (Content::TaskAck(TaskAck::default()), true),
        (Content::Error(SapientProtoError::default()), true),
        (Content::DetectionReport(unusable), false),
    ];
    for (content, usable) in messages {
        let mut bridge = SapientBridge::new(bridge_config());
        let mut connection = Connection::new(1);
        let early = deliver(&mut bridge, &mut connection, from_node(content.clone()), 0);
        assert_eq!(early.routed.is_ok(), usable, "{content:?}");
        assert!(get_node(bridge.registry(), "dlmm-test-uuid").is_none(), "it registers nobody");
        deliver(&mut bridge, &mut connection, registration_msg(), 0);
        let capability = get_node(bridge.registry(), "dlmm-test-uuid").unwrap().capability;
        deliver(&mut bridge, &mut connection, from_node(content), SECOND);
        let node = get_node(bridge.registry(), "dlmm-test-uuid").unwrap();
        assert_eq!(node.last_seen, SECOND);
        assert_eq!(node.capability, capability);
        assert!(bridge.sweep_at(SECOND, 3 * SECOND - 1).is_empty());
        assert_eq!(bridge.sweep_at(SECOND, 3 * SECOND).len(), 1);
    }
}

#[test]
fn connection_without_registration_closes_quietly() {
    let mut bridge = SapientBridge::new(bridge_config());
    assert!(bridge.on_close(Connection::new(3)).is_none());
}

fn accepted(acceptance: Option<bool>) -> ClientEvent {
    ClientEvent::Received(from_node(Content::RegistrationAck(RegistrationAck {
        acceptance,
        ack_response_reason: vec![],
    })))
}

#[test]
fn compliance_run_scores_its_steps() {
    let mut run = ComplianceRun::new("n");
    assert_eq!(run.step(), Step::RegistrationReply);
    run.on_event(&accepted(Some(true)));
    run.on_event(&ClientEvent::Sent);
    run.on_event(&ClientEvent::Sent);
    assert_eq!(run.step(), Step::Task);
    let task = isr_task();
    run.on_event(&ClientEvent::Received(task.clone()));
    assert_eq!(run.step(), Step::TaskAckSent);
    let sent = ProtoTimestamp { seconds: 3, nanos: 4 };
    let reply = run.task_reply(&task, sent).unwrap();
    assert_eq!(reply.destination_id.as_deref(), Some("hldmm-test-uuid"));
    match reply.content {
        Some(Content::TaskAck(ack)) => {
            assert_eq!(ack.task_id, Some(task_id_of(&task)));
            assert_eq!(ack.task_status, Some(WireEnum::Known(TaskStatus::Accepted)));
        }
        other => panic!("expected TaskAck, got {other:?}"),
    }
    run.on_event(&ClientEvent::Sent);
    assert_eq!(run.score(), (4, 0));
    assert!(run.succeeded());
    assert!(run.task_reply(&registration_msg(), sent).is_none());
}

#[test]
fn compliance_run_counts_failures() {
    let mut run = ComplianceRun::new("n");
    run.on_event(&accepted(None));
    run.on_event(&ClientEvent::SendFailed);
    run.on_event(&ClientEvent::Sent);
    run.on_event(&ClientEvent::TimedOut);
    assert_eq!(run.step(), Step::Complete);
    assert_eq!(run.score(), (1, 2));
    assert!(!run.succeeded());
    run.on_event(&ClientEvent::Sent);
    assert_eq!(run.score(), (1, 2));
    let mut broken = ComplianceRun::new("n");
    broken.on_event(&ClientEvent::Closed);
    assert_eq!(broken.step(), Step::Aborted);
    assert!(!broken.succeeded());
}

fn seconds(value: f32) -> SapientDuration {
    SapientDuration {
        units: Some(WireEnum::Known(TimeUnits::Seconds)),
        value: Some(value.to_bits()),
    }
}

#[test]
fn compliance_messages_say_what_the_run_needs() {
    let run = ComplianceRun::new("n");
    let registration = run.registration();
    assert_eq!(registration.node_id.as_deref(), Some("n"));
    match registration.content {
        Some(Content::Registration(reg)) => {
            assert_eq!(reg.icd_version.as_deref(), Some("BSI Flex 335 v2.0"));
            assert_eq!(reg.node_definition[0].node_sub_type, ["EO"]);
            assert_eq!(reg.config_data[0].manufacturer, "DefenseUnicorns");
            assert_eq!(reg.config_data[0].software_version.as_deref(), Some("0.1.0"));
            assert_eq!(
                reg.capabilities,
                [Capability {
                    category: Some("Sensor".into()),
                    type_label: Some("Electro-Optical".into()),
                    value: Some("1080p".into()),
                    units: Some("pixels".into()),
                }]
            );
            assert_eq!(
                reg.status_definition,
                Some(StatusDefinition { status_interval: Some(seconds(5.0)) })
            );
            assert_eq!(
                reg.mode_definition,
                [ModeDefinition {
                    mode_name: Some("Default".into()),
                    mode_type: Some(WireEnum::Known(ModeType::Permanent)),
                    mode_description: Some("Default operating mode".into()),
                    settle_time: Some(seconds(1.0)),
                    task: Some(TaskDefinition {
                        concurrent_tasks: Some(1),
                        region_definition: Some(RegionDefinition {
                            region_type: vec![WireEnum::Known(RegionType::AreaOfInterest)],
                            region_area: vec![LocationType {
                                location_units: Some(WireEnum::Known(
                                    LocationCoordinateSystem::LatLngDegM
                                )),
                                location_datum: Some(WireEnum::Known(LocationDatum::Wgs84E)),
                            }],
                        }),
                    }),
                }]
            );
        }
        other => panic!("expected Registration, got {other:?}"),
    }
    match run.status_report().content {
        Some(Content::StatusReport(report)) => {
            assert!(report.report_id.unwrap().parse::<ulid::Ulid>().is_ok());
            assert_eq!(report.mode.as_deref(), Some("Default"));
        }
        other => panic!("expected StatusReport, got {other:?}"),
    }
    match run.detection_report().content {
        Some(Content::DetectionReport(report)) => {
            assert_ne!(report.report_id, report.object_id);
            assert_eq!(report.detection_confidence, Some(0.95_f32.to_bits()));
            match report.location_oneof {
                Some(LocationOneof::Location(loc)) => {
                    assert_eq!(loc.x, Some((-1.8224_f64).to_bits()));
                    assert_eq!(loc.y, Some(51.1740_f64.to_bits()));
                    assert_eq!(loc.z, Some(100.0_f64.to_bits()));
                }
                other => panic!("expected Location, got {other:?}"),
            }
        }
        other => panic!("expected DetectionReport, got {other:?}"),
    }
}

#[test]
fn compliance_run_has_a_fresh_identity() {
    let a = ComplianceRun::start().node_id();
    let b = ComplianceRun::start().node_id();
    assert_ne!(a, b);
    assert_eq!(uuid::Uuid::parse_str(&a).unwrap().get_version_num(), 4);
}
