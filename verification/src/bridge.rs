//! The bridge: routes inbound messages to updates, and delivers outbound tasks
//! with replay on reconnect.
//!
//! [`SapientBridge`] holds what the bridge knows and decides what follows from
//! each event; reading from and writing to connections is up to the caller.

use crate::clock::{is_timestamp, now_proto_ts, Clock};
use crate::error::{ErrorModel, SapientError};
use crate::geodesy::{plain_plan, Coordinates, EnuRates, Geodesy, PositionPlan};
use crate::proto::{
    AlertAck, Content, DetectionReport, LocationCoordinateSystem, LocationOneof,
    ProtoAlertAckStatus, ProtoTimestamp, RegistrationAck, SapientMessage, TaskStatus,
};
use crate::rate_limit::{
    after_calls, after_check, checks_of, in_order, law_first_burst_passes,
    law_rate_is_bounded_in_every_window, passed, passes, BucketModel, DetectionLimiter,
    RateLimitConfig, TOKEN,
};
use crate::registry::{
    get_position, heard, heard_at, is_silent, known_position, new_registry, remove, upsert_at,
    upserted, NodeModel, NodeRegistry,
};
use crate::schema::{
    advertisement_option, AdvertisementModel, CapabilityAdvertisement, NodeState, NodeStateModel,
    Position, Track, TrackModel, TrackPosition, Velocity, WireEnum,
};
use crate::string_map::StringMap;
use crate::task_queue::{
    law_ack_removes_exactly_the_task, law_expiry_is_idempotent,
    law_expiry_removes_exactly_the_stale, messages, unexpired,
    with_task, without_task, QueuedTask, TaskQueue,
};
use crate::text::{joined, owned_or_empty, text_option, text_or_empty, texts};
use crate::transform::alert::{from_alert, is_event_of, AlertModel, SapientAlertEvent};
use crate::transform::detection::{
    deref_position, detection_plan, from_detection_report, is_track_of, mapping_error,
};
use crate::transform::registration::{from_registration, registered};
use crate::transform::status::{
    capability_change, from_status_report, is_state_of, law_node_is_where_it_reports,
};
use crate::watchdog::{all_disconnections, disconnected, is_sweep, sweep};
use std::sync::Arc;
use vstd::prelude::*;

verus! {

/// Status that a node reports of a task.
#[derive(Clone, Copy, Debug, PartialEq, Eq, Structural)]
pub enum TaskAckStatus {
    Accepted,
    Rejected,
    Completed,
    Failed,
}

/// The status of a task acknowledgement. One that is left out, unspecified or
/// not a known one counts as failed.
pub open spec fn task_ack_status(status: Option<WireEnum<TaskStatus>>) -> TaskAckStatus {
    match status {
        Some(WireEnum::Known(TaskStatus::Accepted)) => TaskAckStatus::Accepted,
        Some(WireEnum::Known(TaskStatus::Rejected)) => TaskAckStatus::Rejected,
        Some(WireEnum::Known(TaskStatus::Completed)) => TaskAckStatus::Completed,
        _ => TaskAckStatus::Failed,
    }
}

impl TaskAckStatus {
    /// Reads the status of a task acknowledgement.
    pub fn from_proto(status: Option<WireEnum<TaskStatus>>) -> (read: Self)
        ensures
            read == task_ack_status(status),
    {
        match status {
            Some(WireEnum::Known(s)) => match s {
                TaskStatus::Accepted => TaskAckStatus::Accepted,
                TaskStatus::Rejected => TaskAckStatus::Rejected,
                TaskStatus::Completed => TaskAckStatus::Completed,
                TaskStatus::Failed => TaskAckStatus::Failed,
                TaskStatus::Unspecified => TaskAckStatus::Failed,
            },
            _ => TaskAckStatus::Failed,
        }
    }
}

/// Status of an alert acknowledgement.
#[derive(Clone, Copy, Debug, PartialEq, Eq, Structural)]
pub enum AlertAckStatus {
    Accepted,
    Rejected,
    Cancelled,
}

/// The status of an alert acknowledgement. One that is left out, unspecified or
/// not a known one counts as rejected.
pub open spec fn alert_ack_status(status: Option<WireEnum<ProtoAlertAckStatus>>) -> AlertAckStatus {
    match status {
        Some(WireEnum::Known(ProtoAlertAckStatus::Accepted)) => AlertAckStatus::Accepted,
        Some(WireEnum::Known(ProtoAlertAckStatus::Cancelled)) => AlertAckStatus::Cancelled,
        _ => AlertAckStatus::Rejected,
    }
}

/// The wire value of an alert acknowledgement's status.
pub open spec fn alert_ack_wire(status: AlertAckStatus) -> ProtoAlertAckStatus {
    match status {
        AlertAckStatus::Accepted => ProtoAlertAckStatus::Accepted,
        AlertAckStatus::Rejected => ProtoAlertAckStatus::Rejected,
        AlertAckStatus::Cancelled => ProtoAlertAckStatus::Cancelled,
    }
}

impl AlertAckStatus {
    /// Reads the status of an alert acknowledgement.
    pub fn from_proto(status: Option<WireEnum<ProtoAlertAckStatus>>) -> (read: Self)
        ensures
            read == alert_ack_status(status),
    {
        match status {
            Some(WireEnum::Known(s)) => match s {
                ProtoAlertAckStatus::Accepted => AlertAckStatus::Accepted,
                ProtoAlertAckStatus::Rejected => AlertAckStatus::Rejected,
                ProtoAlertAckStatus::Cancelled => AlertAckStatus::Cancelled,
                ProtoAlertAckStatus::Unspecified => AlertAckStatus::Rejected,
            },
            _ => AlertAckStatus::Rejected,
        }
    }

    /// The wire value of the status.
    pub fn to_proto(self) -> (wire: ProtoAlertAckStatus)
        ensures
            wire == alert_ack_wire(self),
    {
        match self {
            AlertAckStatus::Accepted => ProtoAlertAckStatus::Accepted,
            AlertAckStatus::Rejected => ProtoAlertAckStatus::Rejected,
            AlertAckStatus::Cancelled => ProtoAlertAckStatus::Cancelled,
        }
    }
}

/// A status that is sent is the status that is read.
pub proof fn law_alert_ack_status_round_trips(status: AlertAckStatus)
    ensures
        alert_ack_status(Some(WireEnum::Known(alert_ack_wire(status)))) == status,
{
}

/// What one inbound message comes to.
#[derive(Debug)]
pub enum SapientUpdate {
    /// A node sent its registration.
    Registered { node_id: String, advertisement: CapabilityAdvertisement },
    /// A node sent a status report.
    StatusUpdated {
        node_id: String,
        state: NodeState,
        /// Present where the report carries a field of view or a mode.
        capability_delta: Option<CapabilityAdvertisement>,
    },
    /// A node sent a detection.
    Detected { node_id: String, track: Track },
    /// A node sent an alert.
    Alerted { node_id: String, event: SapientAlertEvent },
    /// A node acknowledged an alert.
    AlertAcknowledged {
        node_id: String,
        alert_id: String,
        status: AlertAckStatus,
        reasons: Vec<String>,
    },
    /// A node acknowledged a task.
    TaskAcknowledged {
        node_id: String,
        task_id: String,
        /// The command that the task came from, if it came from one.
        command_id: Option<String>,
        status: TaskAckStatus,
        reasons: Vec<String>,
    },
    /// The message has no counterpart in the mesh.
    Ignored { reason: String },
    /// A node fell silent or closed its connection. It is no longer registered.
    NodeDisconnected { node_id: String },
}

/// What a [`SapientUpdate`] says.
#[verifier::ext_equal]
pub enum UpdateModel {
    Registered { node_id: Seq<char>, advertisement: AdvertisementModel },
    StatusUpdated {
        node_id: Seq<char>,
        state: NodeStateModel,
        capability_delta: Option<AdvertisementModel>,
    },
    Detected { node_id: Seq<char>, track: TrackModel },
    Alerted { node_id: Seq<char>, event: AlertModel },
    AlertAcknowledged {
        node_id: Seq<char>,
        alert_id: Seq<char>,
        status: AlertAckStatus,
        reasons: Seq<Seq<char>>,
    },
    TaskAcknowledged {
        node_id: Seq<char>,
        task_id: Seq<char>,
        command_id: Option<Seq<char>>,
        status: TaskAckStatus,
        reasons: Seq<Seq<char>>,
    },
    Ignored { reason: Seq<char> },
    NodeDisconnected { node_id: Seq<char> },
}

impl View for SapientUpdate {
    type V = UpdateModel;

    open spec fn view(&self) -> UpdateModel {
        match *self {
            SapientUpdate::Registered { node_id, advertisement } => UpdateModel::Registered {
                node_id: node_id@,
                advertisement: advertisement@,
            },
            SapientUpdate::StatusUpdated { node_id, state, capability_delta } => {
                UpdateModel::StatusUpdated {
                    node_id: node_id@,
                    state: state@,
                    capability_delta: advertisement_option(capability_delta),
                }
            },
            SapientUpdate::Detected { node_id, track } => UpdateModel::Detected {
                node_id: node_id@,
                track: track@,
            },
            SapientUpdate::Alerted { node_id, event } => UpdateModel::Alerted {
                node_id: node_id@,
                event: event@,
            },
            SapientUpdate::AlertAcknowledged { node_id, alert_id, status, reasons } => {
                UpdateModel::AlertAcknowledged {
                    node_id: node_id@,
                    alert_id: alert_id@,
                    status,
                    reasons: texts(reasons@),
                }
            },
            SapientUpdate::TaskAcknowledged { node_id, task_id, command_id, status, reasons } => {
                UpdateModel::TaskAcknowledged {
                    node_id: node_id@,
                    task_id: task_id@,
                    command_id: text_option(command_id),
                    status,
                    reasons: texts(reasons@),
                }
            },
            SapientUpdate::Ignored { reason } => UpdateModel::Ignored { reason: reason@ },
            SapientUpdate::NodeDisconnected { node_id } => UpdateModel::NodeDisconnected {
                node_id: node_id@,
            },
        }
    }
}

/// What routing a message comes to.
pub open spec fn outcome(result: Result<SapientUpdate, SapientError>) -> Result<
    UpdateModel,
    ErrorModel,
> {
    match result {
        Ok(update) => Ok(update@),
        Err(error) => Err(error@),
    }
}

/// The name of a message's content.
pub open spec fn content_name(content: Content) -> Seq<char> {
    match content {
        Content::Registration(_) => "Registration"@,
        Content::RegistrationAck(_) => "RegistrationAck"@,
        Content::StatusReport(_) => "StatusReport"@,
        Content::DetectionReport(_) => "DetectionReport"@,
        Content::Task(_) => "Task"@,
        Content::TaskAck(_) => "TaskAck"@,
        Content::Alert(_) => "Alert"@,
        Content::AlertAck(_) => "AlertAck"@,
        Content::Error(_) => "Error"@,
    }
}

/// The name of a message's content.
pub fn content_label(content: &Content) -> (label: &'static str)
    ensures
        label@ == content_name(*content),
{
    match content {
        Content::Registration(_) => "Registration",
        Content::RegistrationAck(_) => "RegistrationAck",
        Content::StatusReport(_) => "StatusReport",
        Content::DetectionReport(_) => "DetectionReport",
        Content::Task(_) => "Task",
        Content::TaskAck(_) => "TaskAck",
        Content::Alert(_) => "Alert",
        Content::AlertAck(_) => "AlertAck",
        Content::Error(_) => "Error",
    }
}

/// The command that a task came from.
pub open spec fn command_of(commands: Map<Seq<char>, Seq<char>>, task_id: Seq<char>) -> Option<
    Seq<char>,
> {
    if commands.dom().contains(task_id) {
        Some(commands[task_id])
    } else {
        None
    }
}

/// `routed` is what a message comes to, given the position of its sender,
/// whether a detection of it may pass, and the commands that tasks came from.
pub open spec fn is_routed<P: Fn(PositionPlan) -> Coordinates, V: Fn(EnuRates) -> Velocity>(
    geodesy: Geodesy<P, V>,
    msg: SapientMessage,
    sensor: Option<TrackPosition>,
    forward: bool,
    commands: Map<Seq<char>, Seq<char>>,
    routed: Result<UpdateModel, ErrorModel>,
) -> bool {
    let node_id = text_or_empty(msg.node_id);
    match msg.content {
        Some(Content::Registration(reg)) => routed == Ok::<UpdateModel, ErrorModel>(
            UpdateModel::Registered { node_id, advertisement: registered(node_id, reg) },
        ),
        Some(Content::StatusReport(sr)) => {
            &&& routed matches Ok(UpdateModel::StatusUpdated { node_id: n, state, capability_delta })
            &&& n == node_id
            &&& is_state_of(geodesy, sr, state)
            &&& capability_delta == capability_change(node_id, sr)
        },
        Some(Content::DetectionReport(dr)) => if forward {
            match routed {
                Ok(UpdateModel::Detected { node_id: n, track }) => n == node_id && is_track_of(
                    geodesy,
                    node_id,
                    sensor,
                    dr,
                    track,
                ),
                Err(e) => detection_plan(sensor, dr) == Err::<PositionPlan, ErrorModel>(e),
                _ => false,
            }
        } else {
            routed == Ok::<UpdateModel, ErrorModel>(
                UpdateModel::Ignored { reason: "detection rate-limited for node "@ + node_id },
            )
        },
        Some(Content::Alert(a)) => {
            &&& routed matches Ok(UpdateModel::Alerted { node_id: n, event })
            &&& n == node_id
            &&& is_event_of(geodesy, node_id, a, event)
        },
        Some(Content::TaskAck(ack)) => routed == Ok::<UpdateModel, ErrorModel>(
            UpdateModel::TaskAcknowledged {
                node_id,
                task_id: text_or_empty(ack.task_id),
                command_id: command_of(commands, text_or_empty(ack.task_id)),
                status: task_ack_status(ack.task_status),
                reasons: texts(ack.reason@),
            },
        ),
        Some(Content::AlertAck(ack)) => routed == Ok::<UpdateModel, ErrorModel>(
            UpdateModel::AlertAcknowledged {
                node_id,
                alert_id: text_or_empty(ack.alert_id),
                status: alert_ack_status(ack.alert_ack_status),
                reasons: texts(ack.reason@),
            },
        ),
        Some(content) => routed == Ok::<UpdateModel, ErrorModel>(
            UpdateModel::Ignored { reason: "no peat mapping for "@ + content_name(content) },
        ),
        None => routed == Ok::<UpdateModel, ErrorModel>(
            UpdateModel::Ignored { reason: "SapientMessage has no content"@ },
        ),
    }
}

/// A limiter, if there is one, is well-formed.
pub open spec fn limiter_wf(limiter: Option<DetectionLimiter>) -> bool {
    match limiter {
        Some(l) => l.wf(),
        None => true,
    }
}

/// Whether a detection of a node may pass at `now`.
pub open spec fn may_pass(limiter: Option<DetectionLimiter>, node_id: Seq<char>, now: int) -> bool {
    match limiter {
        Some(l) => passes(l@, l.config(), node_id, now),
        None => true,
    }
}

/// `after` is the limiter after a message at `now`: only a detection is counted.
pub open spec fn limiter_follows(
    before: Option<DetectionLimiter>,
    after: Option<DetectionLimiter>,
    msg: SapientMessage,
    now: int,
) -> bool {
    match (before, after) {
        (Some(b), Some(a)) => {
            &&& a.wf()
            &&& a.config() == b.config()
            &&& a@ == if msg.content matches Some(Content::DetectionReport(_)) {
                after_check(b@, b.config(), text_or_empty(msg.node_id), now)
            } else {
                b@
            }
        },
        (None, None) => true,
        _ => false,
    }
}

/// Routes one inbound message to an update.
///
/// `sensor_position` resolves range and bearing detections. Detections beyond
/// the limit come out as ignored. Content that has no counterpart in the mesh is
/// ignored too, so an unexpected message never fails.
pub fn route_message<P: Fn(PositionPlan) -> Coordinates, V: Fn(EnuRates) -> Velocity>(
    msg: SapientMessage,
    sensor_position: Option<&TrackPosition>,
    detection_limiter: &mut Option<DetectionLimiter>,
    now: u64,
    geodesy: &Geodesy<P, V>,
) -> (routed: Result<SapientUpdate, SapientError>)
    requires
        geodesy.total(),
        limiter_wf(*old(detection_limiter)),
    ensures
        is_routed(
            *geodesy,
            msg,
            deref_position(sensor_position),
            may_pass(*old(detection_limiter), text_or_empty(msg.node_id), now as int),
            Map::empty(),
            outcome(routed),
        ),
        limiter_follows(*old(detection_limiter), *final(detection_limiter), msg, now as int),
{
    let node_id = owned_or_empty(&msg.node_id);
    match msg.content {
        Some(Content::Registration(reg)) => {
            let advertisement = from_registration(node_id.as_str(), &reg);
            Ok(SapientUpdate::Registered { node_id, advertisement })
        },
        Some(Content::StatusReport(sr)) => {
            let (state, capability_delta) = from_status_report(node_id.as_str(), &sr, geodesy);
            Ok(SapientUpdate::StatusUpdated { node_id, state, capability_delta })
        },
        Some(Content::DetectionReport(dr)) => {
            if let Some(limiter) = detection_limiter {
                if !limiter.check_at(node_id.as_str(), now) {
                    let reason = joined("detection rate-limited for node ", node_id.as_str());
                    return Ok(SapientUpdate::Ignored { reason });
                }
            }
            match from_detection_report(node_id.as_str(), sensor_position, &dr, geodesy) {
                Ok(track) => Ok(SapientUpdate::Detected { node_id, track }),
                Err(e) => Err(e),
            }
        },
        Some(Content::Alert(a)) => {
            let event = from_alert(node_id.as_str(), &a, geodesy);
            Ok(SapientUpdate::Alerted { node_id, event })
        },
        Some(Content::TaskAck(ack)) => {
            let task_id = owned_or_empty(&ack.task_id);
            let status = TaskAckStatus::from_proto(ack.task_status);
            Ok(
                SapientUpdate::TaskAcknowledged {
                    node_id,
                    task_id,
                    command_id: None,
                    status,
                    reasons: ack.reason,
                },
            )
        },
        Some(Content::AlertAck(ack)) => {
            let alert_id = owned_or_empty(&ack.alert_id);
            let status = AlertAckStatus::from_proto(ack.alert_ack_status);
            Ok(SapientUpdate::AlertAcknowledged { node_id, alert_id, status, reasons: ack.reason })
        },
        Some(content) => {
            let reason = joined("no peat mapping for ", content_label(&content));
            Ok(SapientUpdate::Ignored { reason })
        },
        None => Ok(
            SapientUpdate::Ignored { reason: "SapientMessage has no content".to_owned() },
        ),
    }
}

/// The identifier of the task that a message carries, or why it carries none.
pub open spec fn task_id_of(msg: SapientMessage) -> Result<Seq<char>, ErrorModel> {
    match msg.content {
        Some(Content::Task(task)) => if text_or_empty(task.task_id).len() > 0 {
            Ok(text_or_empty(task.task_id))
        } else {
            Err(mapping_error("task_id"@, "Task message has no task_id"@))
        },
        _ => Err(
            mapping_error(
                "content"@,
                "send_task requires a SapientMessage with Task content"@,
            ),
        ),
    }
}

/// The identifier of the task that a message carries.
///
/// A message without a task, or with one that has no identifier, is refused.
pub fn extract_task_id(msg: &SapientMessage) -> (id: Result<String, SapientError>)
    ensures
        match id {
            Ok(text) => task_id_of(*msg) == Ok::<Seq<char>, ErrorModel>(text@),
            Err(e) => task_id_of(*msg) == Err::<Seq<char>, ErrorModel>(e@),
        },
{
    match &msg.content {
        Some(Content::Task(task)) => {
            let id = owned_or_empty(&task.task_id);
            if id.as_str().is_empty() {
                Err(
                    SapientError::MappingError {
                        kind: "task_id",
                        detail: "Task message has no task_id".to_owned(),
                    },
                )
            } else {
                Ok(id)
            }
        },
        _ => Err(
            SapientError::MappingError {
                kind: "content",
                detail: "send_task requires a SapientMessage with Task content".to_owned(),
            },
        ),
    }
}

/// `msg` accepts a registration.
pub open spec fn is_registration_ack(
    msg: SapientMessage,
    source: Seq<char>,
    destination: Seq<char>,
    sent: ProtoTimestamp,
) -> bool {
    &&& msg.timestamp == Some(sent)
    &&& text_option(msg.node_id) == Some(source)
    &&& text_option(msg.destination_id) == Some(destination)
    &&& msg.content matches Some(Content::RegistrationAck(ack))
    &&& ack.acceptance == Some(true)
    &&& ack.ack_response_reason@.len() == 0
    &&& msg.additional_information is None
}

/// The message that accepts a registration, sent at a given time.
pub fn registration_ack_at(hldmm_node_id: &str, destination_id: &str, sent: ProtoTimestamp) -> (msg:
    SapientMessage)
    ensures
        is_registration_ack(msg, hldmm_node_id@, destination_id@, sent),
{
    SapientMessage {
        node_id: Some(hldmm_node_id.to_owned()),
        destination_id: Some(destination_id.to_owned()),
        timestamp: Some(sent),
        content: Some(
            Content::RegistrationAck(
                RegistrationAck { acceptance: Some(true), ack_response_reason: Vec::new() },
            ),
        ),
        additional_information: None,
    }
}

/// The message that accepts a registration, sent now.
pub fn make_registration_ack(hldmm_node_id: &str, destination_id: &str) -> (msg: SapientMessage)
    ensures
        msg.timestamp matches Some(sent) && is_timestamp(sent) && is_registration_ack(
            msg,
            hldmm_node_id@,
            destination_id@,
            sent,
        ),
{
    registration_ack_at(hldmm_node_id, destination_id, now_proto_ts())
}

/// `msg` acknowledges an alert.
pub open spec fn is_alert_ack(
    msg: SapientMessage,
    source: Seq<char>,
    destination: Seq<char>,
    alert_id: Seq<char>,
    status: AlertAckStatus,
    reasons: Seq<Seq<char>>,
    sent: ProtoTimestamp,
) -> bool {
    &&& msg.timestamp == Some(sent)
    &&& text_option(msg.node_id) == Some(source)
    &&& text_option(msg.destination_id) == Some(destination)
    &&& msg.content matches Some(Content::AlertAck(ack))
    &&& text_option(ack.alert_id) == Some(alert_id)
    &&& texts(ack.reason@) == reasons
    &&& ack.alert_ack_status == Some(WireEnum::Known(alert_ack_wire(status)))
    &&& msg.additional_information is None
}

/// Configuration of the bridge. Times are in nanoseconds.
#[derive(Clone, Debug)]
pub struct BridgeConfig {
    /// The identifier under which the bridge presents itself.
    pub node_id: String,
    /// The address to listen on.
    pub addr: String,
    /// Limit of the detections of one node; none where there is no limit.
    pub detection_rate_limit: Option<RateLimitConfig>,
    /// Interval between heartbeat checks. A node that is silent for twice as
    /// long counts as disconnected.
    pub heartbeat_interval: u64,
    /// Largest number of unacknowledged tasks queued for a node.
    pub task_queue_depth: usize,
    /// Age at which a queued task is discarded rather than replayed.
    pub task_ttl: u64,
}

/// One live connection.
#[derive(Debug)]
pub struct Connection {
    /// Handle by which the caller finds the connection.
    pub id: u64,
    /// The node that registered on the connection.
    pub registered: Option<String>,
}

impl Connection {
    /// A connection on which no node has registered.
    pub fn new(id: u64) -> (connection: Self)
        ensures
            connection.id == id,
            connection.registered is None,
    {
        Connection { id, registered: None }
    }
}

/// A message for a live connection.
#[derive(Debug)]
pub struct Delivery {
    /// Handle of the connection.
    pub connection: u64,
    pub msg: Arc<SapientMessage>,
}

/// What follows from an inbound message.
#[derive(Debug)]
pub struct Reaction {
    /// Messages to write to the connection, in this order.
    pub replies: Vec<Arc<SapientMessage>>,
    /// The update to emit, or why the message was dropped.
    pub routed: Result<SapientUpdate, SapientError>,
}

/// What the bridge knows.
pub struct SapientBridge {
    config: BridgeConfig,
    detection_limiter: Option<DetectionLimiter>,
    connections: StringMap<u64>,
    task_queue: TaskQueue,
    task_commands: StringMap<String>,
    registry: NodeRegistry,
    clock: Clock,
}

/// A message registers its sender on a connection where none has registered.
pub open spec fn registers(connection: Connection, msg: SapientMessage) -> bool {
    (msg.content matches Some(Content::Registration(_))) && connection.registered is None
}

/// `replies` accept a registration and replay the pending tasks.
pub open spec fn is_welcome(
    replies: Seq<Arc<SapientMessage>>,
    source: Seq<char>,
    destination: Seq<char>,
    sent: ProtoTimestamp,
    pending: Seq<QueuedTask>,
) -> bool {
    &&& replies.len() == 1 + pending.len()
    &&& is_registration_ack(*replies[0], source, destination, sent)
    &&& replies.drop_first() == messages(pending)
}

/// `narrow` is a reported position as the registry keeps it.
pub open spec fn is_kept_position<P: Fn(PositionPlan) -> Coordinates, V: Fn(EnuRates) -> Velocity>(
    geodesy: Geodesy<P, V>,
    reported: Option<Position>,
    narrow: Option<TrackPosition>,
) -> bool {
    match (reported, narrow) {
        (Some(r), Some(n)) => geodesy.resolves(plain_plan(r), n),
        (None, None) => true,
        _ => false,
    }
}

/// `after` are the registered nodes after a message of a sender at `now`. Whatever
/// the message says, a registered sender was heard of then.
pub open spec fn nodes_follow<P: Fn(PositionPlan) -> Coordinates, V: Fn(EnuRates) -> Velocity>(
    geodesy: Geodesy<P, V>,
    before: Map<Seq<char>, NodeModel>,
    sender: Seq<char>,
    routed: Result<UpdateModel, ErrorModel>,
    now: int,
    after: Map<Seq<char>, NodeModel>,
) -> bool {
    match routed {
        Ok(UpdateModel::Registered { node_id, advertisement }) => after == upserted(
            before,
            node_id,
            Some(advertisement),
            None,
            now,
        ),
        Ok(UpdateModel::StatusUpdated { node_id, state, capability_delta }) => exists|
            position: Option<TrackPosition>,
        | #[trigger]
            is_kept_position(geodesy, state.position, position) && after == upserted(
                before,
                node_id,
                capability_delta,
                position,
                now,
            ),
        Ok(UpdateModel::Detected { node_id, .. }) => after == upserted(
            before,
            node_id,
            None,
            None,
            now,
        ),
        _ => after == heard(before, sender, now),
    }
}

/// The tasks pending for a node after a message has been routed.
pub open spec fn pending_after(
    pending: Seq<QueuedTask>,
    node_id: Seq<char>,
    routed: Result<UpdateModel, ErrorModel>,
) -> Seq<QueuedTask> {
    match routed {
        Ok(UpdateModel::TaskAcknowledged { node_id: n, task_id, .. }) => if n == node_id {
            without_task(pending, task_id)
        } else {
            pending
        },
        _ => pending,
    }
}

/// The commands of outstanding tasks after a message has been routed.
pub open spec fn commands_after(
    commands: Map<Seq<char>, Seq<char>>,
    routed: Result<UpdateModel, ErrorModel>,
) -> Map<Seq<char>, Seq<char>> {
    match routed {
        Ok(UpdateModel::TaskAcknowledged { task_id, .. }) => commands.remove(task_id),
        _ => commands,
    }
}

impl SapientBridge {
    /// The identifier under which the bridge presents itself.
    pub closed spec fn node_id(&self) -> Seq<char> {
        self.config.node_id@
    }

    /// Largest number of tasks queued for a node.
    pub closed spec fn queue_depth(&self) -> nat {
        self.task_queue.max_depth()
    }

    /// Age at which a queued task is discarded.
    pub closed spec fn task_ttl(&self) -> u64 {
        self.task_queue.default_ttl()
    }

    /// The limiter of detections.
    pub closed spec fn limiter(&self) -> Option<DetectionLimiter> {
        self.detection_limiter
    }

    /// The connections of the nodes.
    pub closed spec fn connections(&self) -> Map<Seq<char>, u64> {
        self.connections@
    }

    /// The tasks that a node has not acknowledged, oldest first.
    pub closed spec fn pending(&self, node_id: Seq<char>) -> Seq<QueuedTask> {
        self.task_queue.queue(node_id)
    }

    /// The commands that outstanding tasks came from, by task.
    pub closed spec fn commands(&self) -> Map<Seq<char>, Seq<char>> {
        self.task_commands@.map_values(|c: String| c@)
    }

    /// The registered nodes.
    pub closed spec fn nodes(&self) -> Map<Seq<char>, NodeModel> {
        self.registry@
    }

    pub closed spec fn wf(&self) -> bool {
        &&& limiter_wf(self.detection_limiter)
        &&& self.connections.wf()
        &&& self.task_queue.wf()
        &&& self.task_commands.wf()
        &&& self.registry.wf()
    }

    /// The bridge's clock.
    pub closed spec fn clock(&self) -> Clock {
        self.clock
    }

    /// What never changes: the identity, the limits and the clock.
    pub open spec fn same_setup(&self, other: &SapientBridge) -> bool {
        &&& self.node_id() == other.node_id()
        &&& self.queue_depth() == other.queue_depth()
        &&& self.task_ttl() == other.task_ttl()
        &&& self.clock() == other.clock()
    }

    /// A bridge that knows no node.
    pub fn new(config: BridgeConfig) -> (bridge: Self)
        ensures
            bridge.wf(),
            bridge.node_id() == config.node_id@,
            bridge.queue_depth() == config.task_queue_depth,
            bridge.task_ttl() == config.task_ttl,
            match (config.detection_rate_limit, bridge.limiter()) {
                (Some(limit), Some(limiter)) => limiter.config() == limit && limiter@
                    == Map::<Seq<char>, BucketModel>::empty(),
                (None, None) => true,
                _ => false,
            },
            bridge.connections() == Map::<Seq<char>, u64>::empty(),
            forall|node_id: Seq<char>| #[trigger]
                bridge.pending(node_id) == Seq::<QueuedTask>::empty(),
            bridge.commands() == Map::<Seq<char>, Seq<char>>::empty(),
            bridge.nodes() == Map::<Seq<char>, NodeModel>::empty(),
    {
        let detection_limiter = match config.detection_rate_limit {
            Some(limit) => Some(DetectionLimiter::new(limit)),
            None => None,
        };
        let task_queue = TaskQueue::new(config.task_queue_depth, config.task_ttl);
        let bridge = SapientBridge {
            detection_limiter,
            connections: StringMap::new(),
            task_queue,
            task_commands: StringMap::new(),
            registry: new_registry(),
            clock: Clock::start(),
            config,
        };
        assert(bridge.commands() =~= Map::<Seq<char>, Seq<char>>::empty());
        bridge
    }

    /// The time on the bridge's clock.
    pub fn now(&self) -> (now: u64)
        ensures
            self.clock().reads(now),
    {
        self.clock.now()
    }

    /// What is known of the nodes. Its times are on the bridge's clock.
    pub fn registry(&self) -> (registry: &NodeRegistry)
        requires
            self.wf(),
        ensures
            registry.wf(),
            registry@ == self.nodes(),
    {
        &self.registry
    }

    /// Queues a task for a node at `now`, and hands it out for delivery if the
    /// node is connected.
    pub fn send_task_at(
        &mut self,
        node_id: &str,
        msg: SapientMessage,
        command_id: Option<String>,
        now: u64,
    ) -> (sent: Result<Option<Delivery>, SapientError>)
        requires
            old(self).wf(),
        ensures
            final(self).wf(),
            final(self).same_setup(old(self)),
            final(self).limiter() == old(self).limiter(),
            final(self).connections() == old(self).connections(),
            final(self).nodes() == old(self).nodes(),
            match sent {
                Ok(delivery) => {
                    &&& task_id_of(msg) matches Ok(task_id)
                    &&& is_queued(
                        *old(self),
                        *final(self),
                        node_id@,
                        task_id,
                        Arc::new(msg),
                        now,
                    )
                    &&& final(self).commands() == match command_id {
                        Some(command) => old(self).commands().insert(task_id, command@),
                        None => old(self).commands(),
                    }
                    &&& match delivery {
                        Some(d) => old(self).connections().dom().contains(node_id@) && d.connection
                            == old(self).connections()[node_id@] && *d.msg == msg,
                        None => !old(self).connections().dom().contains(node_id@),
                    }
                },
                Err(e) => {
                    &&& task_id_of(msg) == Err::<Seq<char>, ErrorModel>(e@)
                    &&& *final(self) == *old(self)
                },
            },
    {
        let task_id = match extract_task_id(&msg) {
            Ok(id) => id,
            Err(e) => return Err(e),
        };
        let ghost task = task_id@;
        if let Some(command) = command_id {
            let ghost text = command@;
            self.task_commands.insert(task_id.as_str(), command);
            assert(self.commands() =~= old(self).commands().insert(task, text));
        }
        let msg = Arc::new(msg);
        let ghost queued = QueuedTask { msg, task_id, enqueued_at: now, ttl: self.task_ttl() };
        self.task_queue.drain_expired_at(now);
        self.task_queue.enqueue_at(node_id, task_id, msg.clone(), now);
        proof {
            assert(self.pending(node_id@) == with_task(
                unexpired(old(self).pending(node_id@), now as int),
                old(self).queue_depth(),
                queued,
            ));
            assert(is_queued(*old(self), *self, node_id@, task, msg, now));
        }
        match self.connections.get(node_id) {
            Some(connection) => Ok(Some(Delivery { connection: *connection, msg })),
            None => Ok(None),
        }
    }

    /// Queues a task for a node, and hands it out for delivery if the node is
    /// connected.
    ///
    /// The task stays queued until the node acknowledges it; if the node
    /// disconnects before that, it is replayed when the node registers again,
    /// unless it has expired by then. `command_id` is the command that the task
    /// came from; the update for the acknowledgement carries it. A message
    /// without an identified task is refused.
    pub fn send_task(
        &mut self,
        node_id: &str,
        msg: SapientMessage,
        command_id: Option<String>,
    ) -> (sent: Result<Option<Delivery>, SapientError>)
        requires
            old(self).wf(),
        ensures
            final(self).wf(),
            final(self).same_setup(old(self)),
            final(self).limiter() == old(self).limiter(),
            final(self).connections() == old(self).connections(),
            final(self).nodes() == old(self).nodes(),
            match sent {
                Ok(delivery) => {
                    &&& task_id_of(msg) matches Ok(task_id)
                    &&& exists|now: u64|
                        old(self).clock().reads(now) && #[trigger] is_queued(
                            *old(self),
                            *final(self),
                            node_id@,
                            task_id,
                            Arc::new(msg),
                            now,
                        )
                    &&& final(self).commands() == match command_id {
                        Some(command) => old(self).commands().insert(task_id, command@),
                        None => old(self).commands(),
                    }
                    &&& match delivery {
                        Some(d) => old(self).connections().dom().contains(node_id@) && d.connection
                            == old(self).connections()[node_id@] && *d.msg == msg,
                        None => !old(self).connections().dom().contains(node_id@),
                    }
                },
                Err(e) => {
                    &&& task_id_of(msg) == Err::<Seq<char>, ErrorModel>(e@)
                    &&& *final(self) == *old(self)
                },
            },
    {
        let now: u64 = self.clock.now();
        self.send_task_at(node_id, msg, command_id, now)
    }

    /// The acknowledgement of an alert, for delivery to a connected node. It is
    /// not queued.
    pub fn alert_ack_at(
        &self,
        node_id: &str,
        alert_id: &str,
        status: AlertAckStatus,
        reasons: Vec<String>,
        sent: ProtoTimestamp,
    ) -> (delivery: Result<Delivery, SapientError>)
        requires
            self.wf(),
        ensures
            match delivery {
                Ok(d) => self.connections().dom().contains(node_id@) && d.connection
                    == self.connections()[node_id@] && is_alert_ack(
                    *d.msg,
                    self.node_id(),
                    node_id@,
                    alert_id@,
                    status,
                    texts(reasons@),
                    sent,
                ),
                Err(e) => !self.connections().dom().contains(node_id@) && e@
                    == ErrorModel::NodeNotFound(node_id@),
            },
    {
        let msg = SapientMessage {
            node_id: Some(self.config.node_id.clone()),
            destination_id: Some(node_id.to_owned()),
            timestamp: Some(sent),
            content: Some(
                Content::AlertAck(
                    AlertAck {
                        alert_id: Some(alert_id.to_owned()),
                        reason: reasons,
                        alert_ack_status: Some(WireEnum::Known(status.to_proto())),
                    },
                ),
            ),
            additional_information: None,
        };
        match self.connections.get(node_id) {
            Some(connection) => Ok(Delivery { connection: *connection, msg: Arc::new(msg) }),
            None => Err(SapientError::NodeNotFound(node_id.to_owned())),
        }
    }

    /// The acknowledgement of an alert, for delivery to a connected node.
    ///
    /// Unlike a task it is not queued: a node that is not connected is an error.
    pub fn send_alert_ack(
        &self,
        node_id: &str,
        alert_id: &str,
        status: AlertAckStatus,
        reasons: Vec<String>,
    ) -> (delivery: Result<Delivery, SapientError>)
        requires
            self.wf(),
        ensures
            match delivery {
                Ok(d) => {
                    &&& self.connections().dom().contains(node_id@)
                    &&& d.connection == self.connections()[node_id@]
                    &&& d.msg.timestamp matches Some(sent)
                    &&& is_timestamp(sent)
                    &&& is_alert_ack(
                        *d.msg,
                        self.node_id(),
                        node_id@,
                        alert_id@,
                        status,
                        texts(reasons@),
                        sent,
                    )
                },
                Err(e) => !self.connections().dom().contains(node_id@) && e@
                    == ErrorModel::NodeNotFound(node_id@),
            },
    {
        self.alert_ack_at(node_id, alert_id, status, reasons, now_proto_ts())
    }

    /// Takes in a message that arrived on a connection at `now`; `sent` is the
    /// time to put into a reply.
    pub fn on_message_at<P: Fn(PositionPlan) -> Coordinates, V: Fn(EnuRates) -> Velocity>(
        &mut self,
        connection: &mut Connection,
        msg: SapientMessage,
        now: u64,
        sent: ProtoTimestamp,
        geodesy: &Geodesy<P, V>,
    ) -> (reaction: Reaction)
        requires
            old(self).wf(),
            geodesy.total(),
        ensures
            final(self).wf(),
            final(self).same_setup(old(self)),
            is_reaction(
                *geodesy,
                *old(self),
                *final(self),
                *old(connection),
                *final(connection),
                msg,
                now,
                sent,
                reaction,
            ),
    {
        let node_id = owned_or_empty(&msg.node_id);
        let mut replies: Vec<Arc<SapientMessage>> = Vec::new();
        let registration = match &msg.content {
            Some(Content::Registration(_)) => true,
            _ => false,
        };
        let first = registration && connection.registered.is_none();
        if first {
            connection.registered = Some(node_id.clone());
            self.connections.insert(node_id.as_str(), connection.id);
            replies.push(
                Arc::new(
                    registration_ack_at(self.config.node_id.as_str(), node_id.as_str(), sent),
                ),
            );
            self.task_queue.drain_expired_at(now);
            let ghost ack = replies@;
            let mut pending = self.task_queue.pending_at(node_id.as_str(), now);
            let ghost replayed = pending@;
            proof {
                law_expiry_is_idempotent(old(self).pending(node_id@), now as int);
            }
            replies.append(&mut pending);
            assert(replies@ =~= ack + replayed);
            assert(replies@.drop_first() =~= replayed);
        }
        let sensor = get_position(&self.registry, node_id.as_str());
        let routed = route_message(
            msg,
            sensor.as_ref(),
            &mut self.detection_limiter,
            now,
            geodesy,
        );
        let routed = match routed {
            Ok(update) => Ok(self.record(node_id.as_str(), update, now, geodesy)),
            Err(e) => {
                heard_at(&mut self.registry, node_id.as_str(), now);
                Err(e)
            },
        };
        Reaction { replies, routed }
    }

    /// Records what an update from a sender says, and completes it with the command
    /// that an acknowledged task came from.
    fn record<P: Fn(PositionPlan) -> Coordinates, V: Fn(EnuRates) -> Velocity>(
        &mut self,
        sender: &str,
        update: SapientUpdate,
        now: u64,
        geodesy: &Geodesy<P, V>,
    ) -> (completed: SapientUpdate)
        requires
            old(self).wf(),
            geodesy.total(),
        ensures
            final(self).wf(),
            final(self).same_setup(old(self)),
            final(self).limiter() == old(self).limiter(),
            final(self).connections() == old(self).connections(),
            completed@ == with_command(update@, old(self).commands()),
            nodes_follow(
                *geodesy,
                old(self).nodes(),
                sender@,
                Ok(completed@),
                now as int,
                final(self).nodes(),
            ),
            forall|n: Seq<char>| #[trigger]
                final(self).pending(n) == pending_after(old(self).pending(n), n, Ok(completed@)),
            final(self).commands() == commands_after(old(self).commands(), Ok(completed@)),
    {
        match update {
            SapientUpdate::Registered { node_id, advertisement } => {
                let kept = advertisement.clone();
                upsert_at(&mut self.registry, node_id.as_str(), Some(kept), None, now);
                SapientUpdate::Registered { node_id, advertisement }
            },
            SapientUpdate::StatusUpdated { node_id, state, capability_delta } => {
                let kept = match &capability_delta {
                    Some(delta) => Some(delta.clone()),
                    None => None,
                };
                let position = match state.position {
                    Some(position) => Some(geodesy.narrowed(position)),
                    None => None,
                };
                assert(is_kept_position(*geodesy, state@.position, position));
                upsert_at(&mut self.registry, node_id.as_str(), kept, position, now);
                SapientUpdate::StatusUpdated { node_id, state, capability_delta }
            },
            SapientUpdate::Detected { node_id, track } => {
                upsert_at(&mut self.registry, node_id.as_str(), None, None, now);
                SapientUpdate::Detected { node_id, track }
            },
            SapientUpdate::TaskAcknowledged { node_id, task_id, command_id: _, status, reasons } => {
                heard_at(&mut self.registry, sender, now);
                self.task_queue.ack(node_id.as_str(), task_id.as_str());
                let command_id = self.task_commands.remove(task_id.as_str());
                proof {
                    assert(self.commands() =~= old(self).commands().remove(task_id@));
                }
                SapientUpdate::TaskAcknowledged { node_id, task_id, command_id, status, reasons }
            },
            other => {
                heard_at(&mut self.registry, sender, now);
                other
            },
        }
    }

    /// Takes in a message that arrived on a connection.
    ///
    /// The first registration on a connection registers the sender there, is
    /// accepted, and has the sender's pending tasks replayed in insertion order.
    /// Then the message is routed, and what it says is recorded. Whatever it says,
    /// a registered sender has been heard of.
    pub fn on_message<P: Fn(PositionPlan) -> Coordinates, V: Fn(EnuRates) -> Velocity>(
        &mut self,
        connection: &mut Connection,
        msg: SapientMessage,
        geodesy: &Geodesy<P, V>,
    ) -> (reaction: Reaction)
        requires
            old(self).wf(),
            geodesy.total(),
        ensures
            final(self).wf(),
            final(self).same_setup(old(self)),
            exists|now: u64, sent: ProtoTimestamp|
                old(self).clock().reads(now) && is_timestamp(sent) && #[trigger] is_reaction(
                    *geodesy,
                    *old(self),
                    *final(self),
                    *old(connection),
                    *final(connection),
                    msg,
                    now,
                    sent,
                    reaction,
                ),
    {
        let now: u64 = self.clock.now();
        let sent = now_proto_ts();
        self.on_message_at(connection, msg, now, sent, geodesy)
    }

    /// Takes in that a connection was closed: the node that registered on it is
    /// no longer connected nor registered.
    pub fn on_close(&mut self, connection: Connection) -> (update: Option<SapientUpdate>)
        requires
            old(self).wf(),
        ensures
            final(self).wf(),
            final(self).same_setup(old(self)),
            final(self).limiter() == old(self).limiter(),
            final(self).commands() == old(self).commands(),
            forall|n: Seq<char>| #[trigger] final(self).pending(n) == old(self).pending(n),
            match connection.registered {
                Some(node_id) => {
                    &&& update matches Some(u)
                    &&& u@ == (UpdateModel::NodeDisconnected { node_id: node_id@ })
                    &&& final(self).connections() == old(self).connections().remove(node_id@)
                    &&& final(self).nodes() == old(self).nodes().remove(node_id@)
                },
                None => update is None && *final(self) == *old(self),
            },
    {
        match connection.registered {
            Some(node_id) => {
                self.connections.remove(node_id.as_str());
                remove(&mut self.registry, node_id.as_str());
                Some(SapientUpdate::NodeDisconnected { node_id })
            },
            None => None,
        }
    }

    /// Forgets the nodes that have been silent for twice the heartbeat interval
    /// at `now`, and reports each of them once.
    pub fn sweep_at(&mut self, heartbeat_interval: u64, now: u64) -> (updates: Vec<SapientUpdate>)
        requires
            old(self).wf(),
        ensures
            final(self).wf(),
            final(self).same_setup(old(self)),
            final(self).limiter() == old(self).limiter(),
            final(self).connections() == old(self).connections(),
            final(self).commands() == old(self).commands(),
            forall|n: Seq<char>| #[trigger] final(self).pending(n) == old(self).pending(n),
            is_sweep(
                old(self).nodes(),
                final(self).nodes(),
                heartbeat_interval as int,
                now as int,
                disconnected(updates@),
            ),
            all_disconnections(updates@),
    {
        sweep(&mut self.registry, heartbeat_interval, now)
    }
}

/// An update completed with the command that an acknowledged task came from.
pub open spec fn with_command(update: UpdateModel, commands: Map<Seq<char>, Seq<char>>) -> UpdateModel {
    match update {
        UpdateModel::TaskAcknowledged { node_id, task_id, command_id, status, reasons } => {
            UpdateModel::TaskAcknowledged {
                node_id,
                task_id,
                command_id: command_of(commands, task_id),
                status,
                reasons,
            }
        },
        _ => update,
    }
}

/// `after` is the bridge once a task has been queued for a node at `now`:
/// expired tasks are discarded, the oldest gives way where the queue is full,
/// and the new one comes last. A queue of no depth keeps nothing.
pub open spec fn is_queued(
    before: SapientBridge,
    after: SapientBridge,
    node_id: Seq<char>,
    task_id: Seq<char>,
    msg: Arc<SapientMessage>,
    now: u64,
) -> bool {
    &&& exists|task: QueuedTask|
        {
            &&& task.msg == msg
            &&& task.task_id@ == task_id
            &&& task.enqueued_at == now
            &&& task.ttl == before.task_ttl()
            &&& after.pending(node_id) == #[trigger] with_task(
                unexpired(before.pending(node_id), now as int),
                before.queue_depth(),
                task,
            )
        }
    &&& forall|other: Seq<char>|
        other != node_id ==> #[trigger] after.pending(other) == unexpired(
            before.pending(other),
            now as int,
        )
}

/// The tasks pending for a node once a message has been looked at for
/// registration: a registration discards the expired ones.
pub open spec fn pending_on_arrival(
    before: SapientBridge,
    connection: Connection,
    msg: SapientMessage,
    now: u64,
    node_id: Seq<char>,
) -> Seq<QueuedTask> {
    if registers(connection, msg) {
        unexpired(before.pending(node_id), now as int)
    } else {
        before.pending(node_id)
    }
}

/// `reaction` and `after` are what follows from a message that arrived on a
/// connection at `now`.
pub open spec fn is_reaction<P: Fn(PositionPlan) -> Coordinates, V: Fn(EnuRates) -> Velocity>(
    geodesy: Geodesy<P, V>,
    before: SapientBridge,
    after: SapientBridge,
    connection_before: Connection,
    connection_after: Connection,
    msg: SapientMessage,
    now: u64,
    sent: ProtoTimestamp,
    reaction: Reaction,
) -> bool {
    let node_id = text_or_empty(msg.node_id);
    let routed = outcome(reaction.routed);
    &&& connection_after.id == connection_before.id
    &&& if registers(connection_before, msg) {
        &&& text_option(connection_after.registered) == Some(node_id)
        &&& after.connections() == before.connections().insert(node_id, connection_before.id)
        &&& is_welcome(
            reaction.replies@,
            before.node_id(),
            node_id,
            sent,
            unexpired(before.pending(node_id), now as int),
        )
    } else {
        &&& connection_after.registered == connection_before.registered
        &&& after.connections() == before.connections()
        &&& reaction.replies@.len() == 0
    }
    &&& is_routed(
        geodesy,
        msg,
        known_position(before.nodes(), node_id),
        may_pass(before.limiter(), node_id, now as int),
        before.commands(),
        routed,
    )
    &&& limiter_follows(before.limiter(), after.limiter(), msg, now as int)
    &&& nodes_follow(geodesy, before.nodes(), node_id, routed, now as int, after.nodes())
    &&& forall|n: Seq<char>| #[trigger]
        after.pending(n) == pending_after(
            pending_on_arrival(before, connection_before, msg, now, n),
            n,
            routed,
        )
    &&& after.commands() == commands_after(before.commands(), routed)
}

/// The node that an update speaks of, if it names one.
pub open spec fn update_node(update: UpdateModel) -> Option<Seq<char>> {
    match update {
        UpdateModel::Registered { node_id, .. } => Some(node_id),
        UpdateModel::StatusUpdated { node_id, .. } => Some(node_id),
        UpdateModel::Detected { node_id, .. } => Some(node_id),
        UpdateModel::Alerted { node_id, .. } => Some(node_id),
        UpdateModel::AlertAcknowledged { node_id, .. } => Some(node_id),
        UpdateModel::TaskAcknowledged { node_id, .. } => Some(node_id),
        UpdateModel::Ignored { .. } => None,
        UpdateModel::NodeDisconnected { node_id } => Some(node_id),
    }
}

/// An update speaks of the node that sent the message, and a message never
/// comes out as a disconnection.
pub proof fn law_update_speaks_of_the_sender<
    P: Fn(PositionPlan) -> Coordinates,
    V: Fn(EnuRates) -> Velocity,
>(
    geodesy: Geodesy<P, V>,
    msg: SapientMessage,
    sensor: Option<TrackPosition>,
    forward: bool,
    commands: Map<Seq<char>, Seq<char>>,
    update: UpdateModel,
)
    requires
        is_routed(geodesy, msg, sensor, forward, commands, Ok(update)),
    ensures
        update_node(update) is Some ==> update_node(update) == Some(text_or_empty(msg.node_id)),
        !(update is NodeDisconnected),
{
}

/// Unexpected messages never fail: only a detection that cannot be placed is an
/// error, and content without a counterpart in the mesh is ignored.
pub proof fn law_only_detections_fail<
    P: Fn(PositionPlan) -> Coordinates,
    V: Fn(EnuRates) -> Velocity,
>(
    geodesy: Geodesy<P, V>,
    msg: SapientMessage,
    sensor: Option<TrackPosition>,
    forward: bool,
    commands: Map<Seq<char>, Seq<char>>,
    routed: Result<UpdateModel, ErrorModel>,
)
    requires
        is_routed(geodesy, msg, sensor, forward, commands, routed),
    ensures
        routed is Err ==> forward && (msg.content matches Some(Content::DetectionReport(_))),
        match msg.content {
            None | Some(Content::RegistrationAck(_)) | Some(Content::Task(_)) | Some(
                Content::Error(_),
            ) => routed matches Ok(UpdateModel::Ignored { .. }),
            _ => true,
        },
{
}

/// A task is replayed until it is acknowledged: when a node registers after a
/// task was queued for it and before the task expires, the replies end with
/// that task, unless tasks are not kept at all.
pub proof fn law_queued_task_is_replayed<
    P: Fn(PositionPlan) -> Coordinates,
    V: Fn(EnuRates) -> Velocity,
>(
    geodesy: Geodesy<P, V>,
    before: SapientBridge,
    queued: SapientBridge,
    after: SapientBridge,
    connection_before: Connection,
    connection_after: Connection,
    task: Arc<SapientMessage>,
    task_id: Seq<char>,
    msg: SapientMessage,
    now: u64,
    later: u64,
    sent: ProtoTimestamp,
    reaction: Reaction,
)
    requires
        is_queued(before, queued, text_or_empty(msg.node_id), task_id, task, now),
        before.queue_depth() > 0,
        later - now <= before.task_ttl(),
        registers(connection_before, msg),
        is_reaction(
            geodesy,
            queued,
            after,
            connection_before,
            connection_after,
            msg,
            later,
            sent,
            reaction,
        ),
    ensures
        reaction.replies@.len() >= 2,
        reaction.replies@.last() == task,
{
    let node_id = text_or_empty(msg.node_id);
    let pending = queued.pending(node_id);
    let last = choose|last: QueuedTask|
        {
            &&& last.msg == task
            &&& last.task_id@ == task_id
            &&& last.enqueued_at == now
            &&& last.ttl == before.task_ttl()
            &&& pending == #[trigger] with_task(
                unexpired(before.pending(node_id), now as int),
                before.queue_depth(),
                last,
            )
        };
    assert(pending.last() == last);
    let kept = unexpired(pending, later as int);
    assert(kept == unexpired(pending.drop_last(), later as int).push(pending.last())) by {
        reveal(Seq::filter);
    }
    assert(messages(kept).last() == task);
    assert(reaction.replies@.drop_first().last() == task);
}

/// A message acknowledges a task of the node that sends it.
pub open spec fn acknowledges(msg: SapientMessage, node_id: Seq<char>, task_id: Seq<char>) -> bool {
    &&& text_or_empty(msg.node_id) == node_id
    &&& msg.content matches Some(Content::TaskAck(ack))
    &&& text_or_empty(ack.task_id) == task_id
}

/// Nothing that a node sends makes a pending task disappear but its
/// acknowledgement by the node that it is for, and the registration of a node
/// once the task has expired.
pub proof fn law_pending_task_survives<
    P: Fn(PositionPlan) -> Coordinates,
    V: Fn(EnuRates) -> Velocity,
>(
    geodesy: Geodesy<P, V>,
    before: SapientBridge,
    after: SapientBridge,
    connection_before: Connection,
    connection_after: Connection,
    msg: SapientMessage,
    now: u64,
    sent: ProtoTimestamp,
    reaction: Reaction,
    node_id: Seq<char>,
    task: QueuedTask,
)
    requires
        is_reaction(
            geodesy,
            before,
            after,
            connection_before,
            connection_after,
            msg,
            now,
            sent,
            reaction,
        ),
        before.pending(node_id).contains(task),
        !acknowledges(msg, node_id, task.task_id@),
        registers(connection_before, msg) ==> !task.expired(now as int),
    ensures
        after.pending(node_id).contains(task),
{
    let arrived = pending_on_arrival(before, connection_before, msg, now, node_id);
    law_expiry_removes_exactly_the_stale(before.pending(node_id), now as int, task);
    assert(arrived.contains(task));
    match outcome(reaction.routed) {
        Ok(UpdateModel::TaskAcknowledged { node_id: n, task_id, .. }) => {
            law_ack_removes_exactly_the_task(arrived, task_id, task);
        },
        _ => {},
    }
}

/// What a node is sent when it registers is the acceptance and then every task
/// that is pending for it and has not expired, in the order in which they were
/// queued: a task is replayed if and only if it is pending and has not expired.
pub proof fn law_replay_is_exact<P: Fn(PositionPlan) -> Coordinates, V: Fn(EnuRates) -> Velocity>(
    geodesy: Geodesy<P, V>,
    before: SapientBridge,
    after: SapientBridge,
    connection_before: Connection,
    connection_after: Connection,
    msg: SapientMessage,
    now: u64,
    sent: ProtoTimestamp,
    reaction: Reaction,
    task: QueuedTask,
)
    requires
        is_reaction(
            geodesy,
            before,
            after,
            connection_before,
            connection_after,
            msg,
            now,
            sent,
            reaction,
        ),
        registers(connection_before, msg),
    ensures
        ({
            let node_id = text_or_empty(msg.node_id);
            let replayed = unexpired(before.pending(node_id), now as int);
            &&& reaction.replies@.drop_first() == messages(replayed)
            &&& replayed.contains(task) <==> before.pending(node_id).contains(task)
                && !task.expired(now as int)
        }),
{
    law_expiry_removes_exactly_the_stale(
        before.pending(text_or_empty(msg.node_id)),
        now as int,
        task,
    );
}

/// A registration is accepted once: on a connection on which a node has
/// registered, no message is answered, and the node stays the one that the
/// connection belongs to.
pub proof fn law_connection_is_registered_once<
    P: Fn(PositionPlan) -> Coordinates,
    V: Fn(EnuRates) -> Velocity,
>(
    geodesy: Geodesy<P, V>,
    before: SapientBridge,
    after: SapientBridge,
    connection_before: Connection,
    connection_after: Connection,
    msg: SapientMessage,
    now: u64,
    sent: ProtoTimestamp,
    reaction: Reaction,
)
    requires
        is_reaction(
            geodesy,
            before,
            after,
            connection_before,
            connection_after,
            msg,
            now,
            sent,
            reaction,
        ),
        connection_before.registered is Some,
    ensures
        reaction.replies@.len() == 0,
        connection_after.registered == connection_before.registered,
        after.connections() == before.connections(),
{
}

/// An acknowledged task is not replayed: once a node has acknowledged a task,
/// none of the tasks replayed to it later has that identifier.
pub proof fn law_acknowledged_task_is_not_replayed<
    P: Fn(PositionPlan) -> Coordinates,
    V: Fn(EnuRates) -> Velocity,
>(
    geodesy: Geodesy<P, V>,
    before: SapientBridge,
    after: SapientBridge,
    connection_before: Connection,
    connection_after: Connection,
    msg: SapientMessage,
    now: u64,
    sent: ProtoTimestamp,
    reaction: Reaction,
    later: int,
    task: QueuedTask,
)
    requires
        is_reaction(
            geodesy,
            before,
            after,
            connection_before,
            connection_after,
            msg,
            now,
            sent,
            reaction,
        ),
        msg.content matches Some(Content::TaskAck(ack)) && task.task_id@ == text_or_empty(
            ack.task_id,
        ),
    ensures
        !after.pending(text_or_empty(msg.node_id)).contains(task),
        !unexpired(after.pending(text_or_empty(msg.node_id)), later).contains(task),
{
    let node_id = text_or_empty(msg.node_id);
    let arrived = pending_on_arrival(before, connection_before, msg, now, node_id);
    assert(after.pending(node_id) == without_task(arrived, task.task_id@));
    law_ack_removes_exactly_the_task(arrived, task.task_id@, task);
    law_expiry_removes_exactly_the_stale(after.pending(node_id), later, task);
}

/// Any message of a registered node shows that it is alive: it was heard of when
/// the message arrived, whatever the message says and even if it cannot be used.
/// So it does not count as silent until two heartbeat intervals later.
pub proof fn law_any_message_shows_a_node_alive<
    P: Fn(PositionPlan) -> Coordinates,
    V: Fn(EnuRates) -> Velocity,
>(
    geodesy: Geodesy<P, V>,
    before: SapientBridge,
    after: SapientBridge,
    connection_before: Connection,
    connection_after: Connection,
    msg: SapientMessage,
    now: u64,
    sent: ProtoTimestamp,
    reaction: Reaction,
    interval: int,
    later: int,
)
    requires
        is_reaction(
            geodesy,
            before,
            after,
            connection_before,
            connection_after,
            msg,
            now,
            sent,
            reaction,
        ),
        before.nodes().dom().contains(text_or_empty(msg.node_id)),
        now <= later < now + 2 * interval,
    ensures
        after.nodes().dom().contains(text_or_empty(msg.node_id)),
        after.nodes()[text_or_empty(msg.node_id)].last_seen == now,
        !is_silent(after.nodes()[text_or_empty(msg.node_id)], interval, later),
{
}

/// The command that a task came from is told once: the acknowledgement of the
/// task carries it, and a second acknowledgement carries none.
pub proof fn law_command_is_told_once<
    P: Fn(PositionPlan) -> Coordinates,
    V: Fn(EnuRates) -> Velocity,
>(
    geodesy: Geodesy<P, V>,
    before: SapientBridge,
    after: SapientBridge,
    connection_before: Connection,
    connection_after: Connection,
    msg: SapientMessage,
    now: u64,
    sent: ProtoTimestamp,
    reaction: Reaction,
    task_id: Seq<char>,
)
    requires
        is_reaction(
            geodesy,
            before,
            after,
            connection_before,
            connection_after,
            msg,
            now,
            sent,
            reaction,
        ),
        msg.content matches Some(Content::TaskAck(ack)) && task_id == text_or_empty(ack.task_id),
    ensures
        outcome(reaction.routed) matches Ok(UpdateModel::TaskAcknowledged { command_id, .. })
            && command_id == command_of(before.commands(), task_id),
        command_of(after.commands(), task_id) is None,
{
}

/// A message that arrived at a bridge, and what followed from it.
pub struct Arrival {
    pub before: SapientBridge,
    pub after: SapientBridge,
    pub connection_before: Connection,
    pub connection_after: Connection,
    pub msg: SapientMessage,
    pub now: u64,
    pub sent: ProtoTimestamp,
    pub reaction: Reaction,
}

impl Arrival {
    /// What followed is the reaction of the bridge.
    pub open spec fn is_real<P: Fn(PositionPlan) -> Coordinates, V: Fn(EnuRates) -> Velocity>(
        self,
        geodesy: Geodesy<P, V>,
    ) -> bool {
        is_reaction(
            geodesy,
            self.before,
            self.after,
            self.connection_before,
            self.connection_after,
            self.msg,
            self.now,
            self.sent,
            self.reaction,
        )
    }

    /// The message is a detection of a node.
    pub open spec fn detects(self, node: Seq<char>) -> bool {
        &&& self.msg.content matches Some(Content::DetectionReport(_))
        &&& match self.msg.node_id {
            Some(id) => id@ == node,
            None => node.len() == 0,
        }
    }

    /// The message came out as ignored.
    pub open spec fn is_ignored(self) -> bool {
        self.reaction.routed matches Ok(SapientUpdate::Ignored { .. })
    }
}

/// Messages that arrived one after the other at a bridge that was new at first, at
/// times that do not run backwards. What the bridge did between them left its
/// limiter alone.
pub open spec fn is_history<P: Fn(PositionPlan) -> Coordinates, V: Fn(EnuRates) -> Velocity>(
    geodesy: Geodesy<P, V>,
    config: RateLimitConfig,
    arrivals: Seq<Arrival>,
) -> bool {
    &&& forall|k: int| 0 <= k < arrivals.len() ==> (#[trigger] arrivals[k]).is_real(geodesy)
    &&& forall|k: int, l: int|
        0 <= k < arrivals.len() && l == k + 1 && l < arrivals.len() ==> (
        #[trigger] arrivals[k]).after.limiter() == (#[trigger] arrivals[l]).before.limiter()
    &&& forall|k: int, l: int|
        0 <= k <= l < arrivals.len() ==> (#[trigger] arrivals[k]).now <= (
        #[trigger] arrivals[l]).now
    &&& arrivals.len() > 0 ==> arrivals[0].before.limiter() is Some
        && arrivals[0].before.limiter()->0.config() == config && arrivals[0].before.limiter()->0@
        == Map::<Seq<char>, BucketModel>::empty()
}

/// How many of the messages are detections of a node that did not come out as
/// ignored.
pub open spec fn admitted(arrivals: Seq<Arrival>, node: Seq<char>) -> nat
    decreases arrivals.len(),
{
    if arrivals.len() == 0 {
        0
    } else {
        admitted(arrivals.drop_last(), node) + if arrivals.last().detects(node)
            && !arrivals.last().is_ignored() {
            1nat
        } else {
            0nat
        }
    }
}

/// How many of the messages are detections of a node.
pub open spec fn detections(arrivals: Seq<Arrival>, node: Seq<char>) -> nat
    decreases arrivals.len(),
{
    if arrivals.len() == 0 {
        0
    } else {
        detections(arrivals.drop_last(), node) + if arrivals.last().detects(node) {
            1nat
        } else {
            0nat
        }
    }
}

spec fn calls_in(arrivals: Seq<Arrival>) -> Seq<(Seq<char>, int)>
    decreases arrivals.len(),
{
    if arrivals.len() == 0 {
        Seq::empty()
    } else {
        let rest = calls_in(arrivals.drop_last());
        let last = arrivals.last();
        if last.msg.content matches Some(Content::DetectionReport(_)) {
            rest.push((text_or_empty(last.msg.node_id), last.now as int))
        } else {
            rest
        }
    }
}

proof fn lemma_calls_join(head: Seq<Arrival>, tail: Seq<Arrival>)
    ensures
        calls_in(head + tail) == calls_in(head) + calls_in(tail),
    decreases tail.len(),
{
    if tail.len() == 0 {
        assert(head + tail =~= head);
        assert(calls_in(head) + calls_in(tail) =~= calls_in(head));
    } else {
        lemma_calls_join(head, tail.drop_last());
        assert((head + tail).drop_last() =~= head + tail.drop_last());
        assert((head + tail).last() == tail.last());
        assert(calls_in(head + tail) =~= calls_in(head) + calls_in(tail));
    }
}

proof fn lemma_calls_in_order(arrivals: Seq<Arrival>, low: int, high: int)
    requires
        forall|k: int, l: int|
            0 <= k <= l < arrivals.len() ==> (#[trigger] arrivals[k]).now <= (
            #[trigger] arrivals[l]).now,
        forall|k: int| 0 <= k < arrivals.len() ==> low <= (#[trigger] arrivals[k]).now <= high,
    ensures
        in_order(calls_in(arrivals)),
        forall|k: int|
            0 <= k < calls_in(arrivals).len() ==> low <= (#[trigger] calls_in(arrivals)[k]).1
                <= high,
    decreases arrivals.len(),
{
    if arrivals.len() > 0 {
        let rest = arrivals.drop_last();
        let last = arrivals.last().now as int;
        assert forall|k: int| 0 <= k < rest.len() implies low <= (#[trigger] rest[k]).now
            <= last by {
            assert(rest[k] == arrivals[k]);
            assert(arrivals[k].now <= arrivals[arrivals.len() - 1].now);
        }
        assert forall|k: int, l: int| 0 <= k <= l < rest.len() implies (#[trigger] rest[k]).now <= (
        #[trigger] rest[l]).now by {
            assert(arrivals[k].now <= arrivals[l].now);
        }
        lemma_calls_in_order(rest, low, last);
        assert(low <= arrivals[arrivals.len() - 1].now <= high);
    }
}

proof fn lemma_history<P: Fn(PositionPlan) -> Coordinates, V: Fn(EnuRates) -> Velocity>(
    geodesy: Geodesy<P, V>,
    config: RateLimitConfig,
    arrivals: Seq<Arrival>,
    k: int,
)
    requires
        is_history(geodesy, config, arrivals),
        0 <= k < arrivals.len(),
    ensures
        arrivals[k].before.limiter() is Some,
        arrivals[k].before.limiter()->0.config() == config,
        arrivals[k].before.limiter()->0@ == after_calls(
            Map::empty(),
            config,
            calls_in(arrivals.take(k)),
        ),
    decreases k,
{
    if k == 0 {
        assert(arrivals.take(0).len() == 0);
    } else {
        lemma_history(geodesy, config, arrivals, k - 1);
        let last = arrivals[k - 1];
        assert(last.is_real(geodesy));
        assert(last.after.limiter() == arrivals[k].before.limiter());
        assert(arrivals.take(k).drop_last() =~= arrivals.take(k - 1));
        assert(arrivals.take(k).last() == last);
        let calls = calls_in(arrivals.take(k - 1));
        let call = (text_or_empty(last.msg.node_id), last.now as int);
        assert(calls.push(call).drop_last() =~= calls);
    }
}

proof fn lemma_admitted<P: Fn(PositionPlan) -> Coordinates, V: Fn(EnuRates) -> Velocity>(
    geodesy: Geodesy<P, V>,
    config: RateLimitConfig,
    arrivals: Seq<Arrival>,
    i: int,
    j: int,
    node: Seq<char>,
)
    requires
        is_history(geodesy, config, arrivals),
        0 <= i <= j <= arrivals.len(),
    ensures
        admitted(arrivals.subrange(i, j), node) == passed(
            after_calls(Map::empty(), config, calls_in(arrivals.take(i))),
            config,
            calls_in(arrivals.subrange(i, j)),
            node,
        ),
        after_calls(
            after_calls(Map::empty(), config, calls_in(arrivals.take(i))),
            config,
            calls_in(arrivals.subrange(i, j)),
        ) == after_calls(Map::empty(), config, calls_in(arrivals.take(j))),
    decreases j - i,
{
    let window = arrivals.subrange(i, j);
    if i == j {
        assert(window.len() == 0);
    } else {
        lemma_admitted(geodesy, config, arrivals, i, j - 1, node);
        lemma_history(geodesy, config, arrivals, j - 1);
        let last = arrivals[j - 1];
        assert(last.is_real(geodesy));
        assert(window.drop_last() =~= arrivals.subrange(i, j - 1));
        assert(window.last() == last);
        assert(arrivals.take(j).drop_last() =~= arrivals.take(j - 1));
        assert(arrivals.take(j).last() == last);
        let call = (text_or_empty(last.msg.node_id), last.now as int);
        let calls = calls_in(arrivals.subrange(i, j - 1));
        let all = calls_in(arrivals.take(j - 1));
        assert(calls.push(call).drop_last() =~= calls);
        assert(all.push(call).drop_last() =~= all);
        if last.msg.node_id is None && node.len() == 0 {
            assert(node =~= text_or_empty(last.msg.node_id));
        }
    }
}

/// The configured limit holds for what the bridge lets through: of the detections
/// of one node that arrive between two messages, these included, no more come out
/// as anything but ignored than the burst size and what the rate, in billionths
/// per second, gives in the nanoseconds between the two.
pub proof fn law_limit_holds_for_the_bridge<
    P: Fn(PositionPlan) -> Coordinates,
    V: Fn(EnuRates) -> Velocity,
>(
    geodesy: Geodesy<P, V>,
    config: RateLimitConfig,
    arrivals: Seq<Arrival>,
    i: int,
    j: int,
    node: Seq<char>,
)
    requires
        is_history(geodesy, config, arrivals),
        config.max_per_second > 0 && config.burst_size > 0,
        0 <= i < j <= arrivals.len(),
    ensures
        admitted(arrivals.subrange(i, j), node) * 1_000_000_000_000_000_000 <= config.burst_size
            * 1_000_000_000_000_000_000 + (arrivals[j - 1].now - arrivals[i].now)
            * config.max_per_second,
{
    lemma_admitted(geodesy, config, arrivals, i, j, node);
    let head = arrivals.take(i);
    let window = arrivals.subrange(i, j);
    let low = arrivals[i].now as int;
    let high = arrivals[j - 1].now as int;
    assert(head + window =~= arrivals.take(j));
    lemma_calls_join(head, window);
    let calls = calls_in(arrivals.take(j));
    let a = calls_in(head).len() as int;
    let b = calls.len() as int;
    assert(calls.take(a) =~= calls_in(head));
    assert(calls.subrange(a, b) =~= calls_in(window));
    assert forall|k: int, l: int| 0 <= k <= l < window.len() implies (#[trigger] window[k]).now <= (
    #[trigger] window[l]).now by {
        assert(arrivals[i + k].now <= arrivals[i + l].now);
    }
    assert forall|k: int| 0 <= k < window.len() implies low <= (#[trigger] window[k]).now
        <= high by {
        assert(arrivals[i].now <= arrivals[i + k].now);
        assert(arrivals[i + k].now <= arrivals[j - 1].now);
    }
    lemma_calls_in_order(window, low, high);
    let all = arrivals.take(j);
    assert forall|k: int, l: int| 0 <= k <= l < all.len() implies (#[trigger] all[k]).now <= (
    #[trigger] all[l]).now by {
        assert(arrivals[k].now <= arrivals[l].now);
    }
    assert forall|k: int| 0 <= k < all.len() implies 0 <= (#[trigger] all[k]).now <= high by {
        assert(arrivals[k].now <= arrivals[j - 1].now);
    }
    lemma_calls_in_order(all, 0, high);
    let rate = config.max_per_second as int;
    let burst = config.burst_size as int;
    assert(low <= high);
    assert((high - low) * rate >= 0 && burst * TOKEN >= 0) by (nonlinear_arith)
        requires
            high >= low,
            rate >= 0,
            burst >= 0,
            TOKEN >= 0,
    ;
    if a < b {
        law_rate_is_bounded_in_every_window(config, calls, a, b, node);
        assert(calls[a] == calls_in(window)[0]);
        assert(calls[b - 1] == calls_in(window)[b - 1 - a]);
        let spent = calls[b - 1].1 - calls[a].1;
        assert(spent * rate <= (high - low) * rate) by (nonlinear_arith)
            requires
                spent <= high - low,
                rate >= 0,
        ;
    } else {
        assert(calls_in(window).len() == 0);
    }
}

proof fn lemma_detections(arrivals: Seq<Arrival>, node: Seq<char>)
    ensures
        checks_of(calls_in(arrivals), node) == detections(arrivals, node),
    decreases arrivals.len(),
{
    if arrivals.len() > 0 {
        lemma_detections(arrivals.drop_last(), node);
        let last = arrivals.last();
        let calls = calls_in(arrivals.drop_last());
        let call = (text_or_empty(last.msg.node_id), last.now as int);
        assert(calls.push(call).drop_last() =~= calls);
        if last.msg.node_id is None && node.len() == 0 {
            assert(node =~= text_or_empty(last.msg.node_id));
        }
    }
}

/// The first detections of a node are let through, up to the burst size, whatever
/// else arrives and whenever: a detection of a node that has sent fewer than the
/// burst size so far is not ignored.
pub proof fn law_first_burst_is_let_through<
    P: Fn(PositionPlan) -> Coordinates,
    V: Fn(EnuRates) -> Velocity,
>(
    geodesy: Geodesy<P, V>,
    config: RateLimitConfig,
    arrivals: Seq<Arrival>,
    k: int,
    node: Seq<char>,
)
    requires
        is_history(geodesy, config, arrivals),
        0 <= k < arrivals.len(),
        arrivals[k].detects(node),
        detections(arrivals.take(k), node) < config.burst_size,
    ensures
        !arrivals[k].is_ignored(),
{
    lemma_history(geodesy, config, arrivals, k);
    lemma_detections(arrivals.take(k), node);
    assert(arrivals[k].is_real(geodesy));
    if arrivals[k].msg.node_id is None {
        assert(node =~= text_or_empty(arrivals[k].msg.node_id));
    }
    law_first_burst_passes(config, calls_in(arrivals.take(k)), node, arrivals[k].now as int);
}

/// A bridge without a limit ignores no detection: where none is configured, or one
/// of zero, every detection is placed or refused.
pub proof fn law_without_limit_nothing_is_dropped<
    P: Fn(PositionPlan) -> Coordinates,
    V: Fn(EnuRates) -> Velocity,
>(geodesy: Geodesy<P, V>, arrival: Arrival, node: Seq<char>)
    requires
        arrival.is_real(geodesy),
        arrival.detects(node),
        arrival.before.limiter() matches Some(l) ==> l.config().max_per_second == 0
            || l.config().burst_size == 0,
    ensures
        !arrival.is_ignored(),
        arrival.reaction.routed is Err || (arrival.reaction.routed matches Ok(
            SapientUpdate::Detected { .. },
        )),
{
}

/// A detection that is dropped changes nothing but the count of its node: it says
/// why, and neither the position nor the capabilities of the node change.
pub proof fn law_dropped_detection_says_why<
    P: Fn(PositionPlan) -> Coordinates,
    V: Fn(EnuRates) -> Velocity,
>(geodesy: Geodesy<P, V>, arrival: Arrival, node: Seq<char>)
    requires
        arrival.is_real(geodesy),
        arrival.detects(node),
        arrival.is_ignored(),
    ensures
        arrival.before.limiter() is Some,
        outcome(arrival.reaction.routed) == Ok::<UpdateModel, ErrorModel>(
            UpdateModel::Ignored { reason: "detection rate-limited for node "@ + node },
        ),
        arrival.after.nodes().dom() == arrival.before.nodes().dom(),
{
    if arrival.msg.node_id is None {
        assert(node =~= text_or_empty(arrival.msg.node_id));
    }
    assert(arrival.after.nodes().dom() =~= arrival.before.nodes().dom());
}

/// The status of an acknowledged task is the one that the node gives; anything but
/// a plain acceptance, rejection or completion counts as failed.
pub proof fn law_task_status_is_the_one_given(status: Option<WireEnum<TaskStatus>>)
    ensures
        task_ack_status(status) == TaskAckStatus::Accepted <==> status == Some(
            WireEnum::Known(TaskStatus::Accepted),
        ),
        task_ack_status(status) == TaskAckStatus::Rejected <==> status == Some(
            WireEnum::Known(TaskStatus::Rejected),
        ),
        task_ack_status(status) == TaskAckStatus::Completed <==> status == Some(
            WireEnum::Known(TaskStatus::Completed),
        ),
{
}

/// The status of an acknowledged alert is the one that the node gives; anything
/// but a plain acceptance or cancellation counts as rejected. On the wire each
/// status has the value of its own name.
pub proof fn law_alert_status_is_the_one_given(status: Option<WireEnum<ProtoAlertAckStatus>>)
    ensures
        alert_ack_status(status) == AlertAckStatus::Accepted <==> status == Some(
            WireEnum::Known(ProtoAlertAckStatus::Accepted),
        ),
        alert_ack_status(status) == AlertAckStatus::Cancelled <==> status == Some(
            WireEnum::Known(ProtoAlertAckStatus::Cancelled),
        ),
        alert_ack_wire(AlertAckStatus::Accepted) == ProtoAlertAckStatus::Accepted,
        alert_ack_wire(AlertAckStatus::Rejected) == ProtoAlertAckStatus::Rejected,
        alert_ack_wire(AlertAckStatus::Cancelled) == ProtoAlertAckStatus::Cancelled,
{
}

/// Every message comes out as the update of its kind, of the node that sent it and
/// with what the message says; what has no counterpart in the mesh is ignored, and
/// the reason names it.
pub proof fn law_messages_become_updates_of_their_kind<
    P: Fn(PositionPlan) -> Coordinates,
    V: Fn(EnuRates) -> Velocity,
>(
    geodesy: Geodesy<P, V>,
    msg: SapientMessage,
    sensor: Option<TrackPosition>,
    forward: bool,
    commands: Map<Seq<char>, Seq<char>>,
    routed: Result<UpdateModel, ErrorModel>,
)
    requires
        is_routed(geodesy, msg, sensor, forward, commands, routed),
    ensures
        ({
            let sender = if msg.node_id is Some {
                msg.node_id->0@
            } else {
                Seq::<char>::empty()
            };
            match msg.content {
                Some(Content::Registration(reg)) => {
                    &&& routed matches Ok(UpdateModel::Registered { node_id, advertisement })
                    &&& node_id == sender
                    &&& advertisement.node_id == sender
                    &&& advertisement == registered(sender, reg)
                },
                Some(Content::StatusReport(sr)) => {
                    &&& routed matches Ok(
                        UpdateModel::StatusUpdated { node_id, state, capability_delta },
                    )
                    &&& node_id == sender
                    &&& is_state_of(geodesy, sr, state)
                    &&& capability_delta is Some <==> sr.field_of_view is Some || sr.mode is Some
                    &&& capability_delta == capability_change(sender, sr)
                },
                Some(Content::DetectionReport(dr)) => {
                    &&& !forward ==> routed == Ok::<UpdateModel, ErrorModel>(
                        UpdateModel::Ignored {
                            reason: "detection rate-limited for node "@ + sender,
                        },
                    )
                    &&& forward && detection_plan(sensor, dr) is Ok ==> {
                        &&& routed matches Ok(UpdateModel::Detected { node_id, track })
                        &&& node_id == sender
                        &&& is_track_of(geodesy, sender, sensor, dr, track)
                    }
                    &&& forward && detection_plan(sensor, dr) is Err ==> routed is Err
                        && detection_plan(sensor, dr)->Err_0 == routed->Err_0
                },
                Some(Content::Alert(alert)) => {
                    &&& routed matches Ok(UpdateModel::Alerted { node_id, event })
                    &&& node_id == sender
                    &&& is_event_of(geodesy, sender, alert, event)
                },
                Some(Content::TaskAck(ack)) => {
                    &&& routed matches Ok(
                        UpdateModel::TaskAcknowledged {
                            node_id,
                            task_id,
                            command_id,
                            status,
                            reasons,
                        },
                    )
                    &&& node_id == sender
                    &&& ack.task_id matches Some(id) ==> task_id == id@
                    &&& ack.task_id is None ==> task_id.len() == 0
                    &&& commands.dom().contains(task_id) ==> command_id == Some(commands[task_id])
                    &&& !commands.dom().contains(task_id) ==> command_id is None
                    &&& status == task_ack_status(ack.task_status)
                    &&& reasons == ack.reason@.map_values(|s: String| s@)
                },
                Some(Content::AlertAck(ack)) => {
                    &&& routed matches Ok(
                        UpdateModel::AlertAcknowledged { node_id, alert_id, status, reasons },
                    )
                    &&& node_id == sender
                    &&& ack.alert_id matches Some(id) ==> alert_id == id@
                    &&& ack.alert_id is None ==> alert_id.len() == 0
                    &&& status == alert_ack_status(ack.alert_ack_status)
                    &&& reasons == ack.reason@.map_values(|s: String| s@)
                },
                Some(Content::RegistrationAck(_)) => routed == Ok::<UpdateModel, ErrorModel>(
                    UpdateModel::Ignored { reason: "no peat mapping for "@ + "RegistrationAck"@ },
                ),
                Some(Content::Task(_)) => routed == Ok::<UpdateModel, ErrorModel>(
                    UpdateModel::Ignored { reason: "no peat mapping for "@ + "Task"@ },
                ),
                Some(Content::Error(_)) => routed == Ok::<UpdateModel, ErrorModel>(
                    UpdateModel::Ignored { reason: "no peat mapping for "@ + "Error"@ },
                ),
                None => routed == Ok::<UpdateModel, ErrorModel>(
                    UpdateModel::Ignored { reason: "SapientMessage has no content"@ },
                ),
            }
        }),
{
    if msg.node_id is None {
        assert(text_or_empty(msg.node_id) =~= Seq::<char>::empty());
    }
}

/// The first registration on a connection, and nothing else, is accepted: the
/// sender is told so first, in the name of the bridge, the connection belongs to
/// the sender from then on, and tasks for the sender go there.
pub proof fn law_first_registration_is_accepted<
    P: Fn(PositionPlan) -> Coordinates,
    V: Fn(EnuRates) -> Velocity,
>(geodesy: Geodesy<P, V>, arrival: Arrival)
    requires
        arrival.is_real(geodesy),
    ensures
        arrival.connection_after.id == arrival.connection_before.id,
        ({
            let first = (arrival.msg.content matches Some(Content::Registration(_)))
                && arrival.connection_before.registered is None;
            let sender = if arrival.msg.node_id is Some {
                arrival.msg.node_id->0@
            } else {
                Seq::<char>::empty()
            };
            &&& first <==> arrival.reaction.replies@.len() > 0
            &&& !first ==> arrival.connection_after.registered
                == arrival.connection_before.registered && arrival.after.connections()
                == arrival.before.connections()
            &&& first ==> {
                let reply = *arrival.reaction.replies@[0];
                &&& arrival.connection_after.registered is Some
                &&& arrival.connection_after.registered->0@ == sender
                &&& arrival.after.connections().dom().contains(sender)
                &&& arrival.after.connections()[sender] == arrival.connection_before.id
                &&& forall|other: Seq<char>| #[trigger]
                    arrival.after.connections().dom().contains(other) && other != sender
                        ==> arrival.before.connections().dom().contains(other)
                        && arrival.after.connections()[other]
                        == arrival.before.connections()[other]
                &&& forall|other: Seq<char>| #[trigger]
                    arrival.before.connections().dom().contains(other)
                        ==> arrival.after.connections().dom().contains(other)
                &&& reply.timestamp == Some(arrival.sent)
                &&& reply.node_id is Some && reply.node_id->0@ == arrival.before.node_id()
                &&& reply.destination_id is Some && reply.destination_id->0@ == sender
                &&& reply.additional_information is None
                &&& reply.content matches Some(Content::RegistrationAck(ack))
                &&& ack.acceptance == Some(true)
                &&& ack.ack_response_reason@.len() == 0
            }
        }),
{
    if arrival.msg.node_id is None {
        assert(text_or_empty(arrival.msg.node_id) =~= Seq::<char>::empty());
    }
}

/// The registry knows what the nodes report: a registration sets what the sender
/// can do, a status report with a position sets where it is, degrees as they
/// stand, and every registration, status report or placed detection makes its
/// sender known and heard of. What is not reported stays, and so does every other
/// node.
pub proof fn law_registry_knows_what_is_reported<
    P: Fn(PositionPlan) -> Coordinates,
    V: Fn(EnuRates) -> Velocity,
>(geodesy: Geodesy<P, V>, arrival: Arrival, other: Seq<char>)
    requires
        arrival.is_real(geodesy),
        arrival.msg.node_id is Some,
    ensures
        ({
            let sender = arrival.msg.node_id->0@;
            let before = arrival.before.nodes();
            let after = arrival.after.nodes();
            let old_capability = if before.dom().contains(sender) {
                before[sender].capability
            } else {
                None
            };
            let old_position = if before.dom().contains(sender) {
                before[sender].last_position
            } else {
                None
            };
            &&& other != sender ==> (after.dom().contains(other) <==> before.dom().contains(other))
            &&& other != sender && before.dom().contains(other) ==> after[other] == before[other]
            &&& before.dom().contains(sender) ==> after.dom().contains(sender)
            &&& after.dom().contains(sender) ==> after[sender].last_seen == arrival.now
            &&& arrival.msg.content matches Some(Content::Registration(reg)) ==> {
                &&& after.dom().contains(sender)
                &&& after[sender].node_id == sender
                &&& after[sender].capability == Some(registered(sender, reg))
                &&& after[sender].last_position == old_position
            }
            &&& arrival.msg.content matches Some(Content::StatusReport(sr)) ==> {
                let loc = sr.node_location->0;
                let degrees = sr.node_location is Some && loc.x is Some && loc.y is Some
                    && loc.coordinate_system == Some(
                    WireEnum::Known(LocationCoordinateSystem::LatLngDegM),
                );
                &&& after.dom().contains(sender)
                &&& after[sender].node_id == sender
                &&& sr.field_of_view is Some || sr.mode is Some ==> after[sender].capability
                    == capability_change(sender, sr)
                &&& sr.field_of_view is None && sr.mode is None ==> after[sender].capability
                    == old_capability
                &&& sr.node_location is None ==> after[sender].last_position == old_position
                &&& degrees ==> {
                    &&& after[sender].last_position is Some
                    &&& after[sender].last_position->0.latitude == loc.y->0
                    &&& after[sender].last_position->0.longitude == loc.x->0
                }
            }
            &&& !(arrival.msg.content matches Some(Content::Registration(_))) && !(
            arrival.msg.content matches Some(Content::StatusReport(_)))
                && after.dom().contains(sender) ==> {
                &&& after[sender].capability == old_capability
                &&& after[sender].last_position == old_position
            }
            &&& arrival.reaction.routed matches Ok(SapientUpdate::Detected { .. })
                ==> after.dom().contains(sender)
        }),
{
    match arrival.msg.content {
        Some(Content::StatusReport(sr)) => {
            match outcome(arrival.reaction.routed) {
                Ok(UpdateModel::StatusUpdated { state, .. }) => {
                    law_node_is_where_it_reports(geodesy, sr, state);
                },
                _ => {},
            }
        },
        _ => {},
    }
}

/// A detection by range and bearing is placed from where its sender last reported
/// to be, and from nowhere else.
pub proof fn law_range_and_bearing_start_at_the_sender<
    P: Fn(PositionPlan) -> Coordinates,
    V: Fn(EnuRates) -> Velocity,
>(geodesy: Geodesy<P, V>, arrival: Arrival, dr: DetectionReport, track: TrackModel)
    requires
        arrival.is_real(geodesy),
        arrival.msg.node_id is Some,
        arrival.msg.content == Some(Content::DetectionReport(dr)),
        dr.location_oneof matches Some(LocationOneof::RangeBearing(_)),
        outcome(arrival.reaction.routed) == Ok::<UpdateModel, ErrorModel>(
            UpdateModel::Detected { node_id: arrival.msg.node_id->0@, track },
        ),
    ensures
        ({
            let sender = arrival.msg.node_id->0@;
            &&& arrival.before.nodes().dom().contains(sender)
            &&& arrival.before.nodes()[sender].last_position is Some
            &&& is_track_of(
                geodesy,
                sender,
                arrival.before.nodes()[sender].last_position,
                dr,
                track,
            )
        }),
{
}

/// An acknowledgement takes the task off the queue of the node that sends it and
/// forgets the command that it came from. No other message touches the queues, but
/// for what a registration finds expired.
pub proof fn law_only_acknowledgements_touch_the_queue<
    P: Fn(PositionPlan) -> Coordinates,
    V: Fn(EnuRates) -> Velocity,
>(geodesy: Geodesy<P, V>, arrival: Arrival, node: Seq<char>, task: Seq<char>)
    requires
        arrival.is_real(geodesy),
        arrival.msg.node_id is Some,
    ensures
        !(arrival.msg.content matches Some(Content::TaskAck(_))) ==> arrival.after.commands()
            == arrival.before.commands(),
        !(arrival.msg.content matches Some(Content::TaskAck(_))) && !(
        arrival.msg.content matches Some(Content::Registration(_))) ==> arrival.after.pending(node)
            == arrival.before.pending(node),
        arrival.msg.content matches Some(Content::TaskAck(ack)) ==> {
            let acked = if ack.task_id is Some {
                ack.task_id->0@
            } else {
                Seq::<char>::empty()
            };
            &&& node != arrival.msg.node_id->0@ ==> arrival.after.pending(node)
                == arrival.before.pending(node)
            &&& !arrival.after.commands().dom().contains(acked)
            &&& task != acked && arrival.before.commands().dom().contains(task)
                ==> arrival.after.commands().dom().contains(task)
                && arrival.after.commands()[task] == arrival.before.commands()[task]
            &&& arrival.after.commands().dom().contains(task)
                ==> arrival.before.commands().dom().contains(task)
        },
{
    match arrival.msg.content {
        Some(Content::TaskAck(ack)) => {
            if ack.task_id is None {
                assert(text_or_empty(ack.task_id) =~= Seq::<char>::empty());
            }
        },
        _ => {},
    }
}

/// A task that is sent is queued last, with the time of sending and the time to
/// live of the bridge, and the queue keeps within its depth. The queues of other
/// nodes lose what has expired and nothing else.
pub proof fn law_sent_task_is_queued_last(
    before: SapientBridge,
    after: SapientBridge,
    node_id: Seq<char>,
    task_id: Seq<char>,
    msg: Arc<SapientMessage>,
    now: u64,
    other: Seq<char>,
    task: QueuedTask,
)
    requires
        is_queued(before, after, node_id, task_id, msg, now),
        before.pending(node_id).len() <= before.queue_depth(),
    ensures
        after.pending(node_id).len() <= before.queue_depth(),
        before.queue_depth() > 0 ==> {
            let last = after.pending(node_id).last();
            &&& after.pending(node_id).len() > 0
            &&& last.msg == msg
            &&& last.task_id@ == task_id
            &&& last.enqueued_at == now
            &&& last.ttl == before.task_ttl()
        },
        other != node_id ==> (after.pending(other).contains(task) <==> before.pending(
            other,
        ).contains(task) && now - task.enqueued_at <= task.ttl),
        after.pending(node_id).contains(task) ==> {
            ||| before.pending(node_id).contains(task) && now - task.enqueued_at <= task.ttl
            ||| task.msg == msg && task.task_id@ == task_id && task.enqueued_at == now
        },
        before.pending(node_id).len() < before.queue_depth() && before.pending(node_id).contains(
            task,
        ) && now - task.enqueued_at <= task.ttl ==> after.pending(node_id).contains(task),
{
    let kept = unexpired(before.pending(node_id), now as int);
    let queued = choose|queued: QueuedTask|
        {
            &&& queued.msg == msg
            &&& queued.task_id@ == task_id
            &&& queued.enqueued_at == now
            &&& queued.ttl == before.task_ttl()
            &&& after.pending(node_id) == #[trigger] with_task(kept, before.queue_depth(), queued)
        };
    law_expiry_removes_exactly_the_stale(before.pending(node_id), now as int, task);
    law_expiry_removes_exactly_the_stale(before.pending(other), now as int, task);
    before.pending(node_id).lemma_filter_len(|t: QueuedTask| !t.expired(now as int));
    assert(kept.len() <= before.pending(node_id).len());
    let result = after.pending(node_id);
    if result.contains(task) {
        let i = choose|i: int| 0 <= i < result.len() && result[i] == task;
        if before.queue_depth() > 0 && i < result.len() - 1 {
            if kept.len() >= before.queue_depth() {
                assert(kept[i + 1] == task);
            } else {
                assert(kept[i] == task);
            }
            assert(kept.contains(task));
        }
    }
    if before.pending(node_id).len() < before.queue_depth() && kept.contains(task) {
        let i = choose|i: int| 0 <= i < kept.len() && kept[i] == task;
        assert(result[i] == task);
    }
}

/// Only a message with an identified task can be sent as one: it is known by that
/// identifier, and anything else is refused with what it lacks.
pub proof fn law_only_identified_tasks_are_sent(msg: SapientMessage)
    ensures
        task_id_of(msg) matches Ok(id) ==> {
            &&& msg.content matches Some(Content::Task(task))
            &&& task.task_id is Some
            &&& task.task_id->0@ == id
            &&& id.len() > 0
        },
        msg.content matches Some(Content::Task(task)) ==> {
            &&& task.task_id is Some && task.task_id->0@.len() > 0 ==> task_id_of(msg) is Ok
            &&& task.task_id is None || task.task_id->0@.len() == 0 ==> task_id_of(msg) == Err::<
                Seq<char>,
                ErrorModel,
            >(
                ErrorModel::MappingError {
                    kind: "task_id"@,
                    detail: "Task message has no task_id"@,
                },
            )
        },
        !(msg.content matches Some(Content::Task(_))) ==> task_id_of(msg) == Err::<
            Seq<char>,
            ErrorModel,
        >(
            ErrorModel::MappingError {
                kind: "content"@,
                detail: "send_task requires a SapientMessage with Task content"@,
            },
        ),
{
}

/// The acknowledgement of an alert goes from the bridge to the node, names the
/// alert, and gives the status and the reasons as they are, so that they are read
/// back on the other side.
pub proof fn law_alert_acknowledgement_is_read_back(
    msg: SapientMessage,
    source: Seq<char>,
    destination: Seq<char>,
    alert_id: Seq<char>,
    status: AlertAckStatus,
    reasons: Seq<Seq<char>>,
    sent: ProtoTimestamp,
)
    requires
        is_alert_ack(msg, source, destination, alert_id, status, reasons, sent),
    ensures
        msg.timestamp == Some(sent),
        msg.node_id is Some && msg.node_id->0@ == source,
        msg.destination_id is Some && msg.destination_id->0@ == destination,
        msg.additional_information is None,
        msg.content matches Some(Content::AlertAck(ack)) && {
            &&& ack.alert_id is Some && ack.alert_id->0@ == alert_id
            &&& ack.reason@.map_values(|s: String| s@) == reasons
            &&& alert_ack_status(ack.alert_ack_status) == status
        },
{
}

/// The content of a message is named after its kind.
pub proof fn law_content_is_named_after_its_kind(content: Content)
    ensures
        content is Registration ==> content_name(content) == "Registration"@,
        content is RegistrationAck ==> content_name(content) == "RegistrationAck"@,
        content is StatusReport ==> content_name(content) == "StatusReport"@,
        content is DetectionReport ==> content_name(content) == "DetectionReport"@,
        content is Task ==> content_name(content) == "Task"@,
        content is TaskAck ==> content_name(content) == "TaskAck"@,
        content is Alert ==> content_name(content) == "Alert"@,
        content is AlertAck ==> content_name(content) == "AlertAck"@,
        content is Error ==> content_name(content) == "Error"@,
{
}

/// What a bridge was set up with stays: its identity, the depth of its queues, the
/// time that its tasks live, and its clock.
pub proof fn law_setup_stays(before: SapientBridge, after: SapientBridge)
    requires
        after.same_setup(&before),
    ensures
        after.node_id() == before.node_id(),
        after.queue_depth() == before.queue_depth(),
        after.task_ttl() == before.task_ttl(),
        after.clock() == before.clock(),
{
}

} // verus!
