//! A compliance run of a node against a manager: register, report status and a
//! detection, and acknowledge a task if one comes.

use crate::clock::{is_timestamp, now_proto_ts};
use crate::identifiers::{is_ulid, is_uuid_v4, new_ulid, new_uuid};
use crate::proto::{
    Capability, ConfigurationData, Content, DetectionReport, Location, LocationCoordinateSystem,
    LocationDatum, LocationOneof, LocationType, ModeDefinition, ModeType, NodeDefinition, NodeType,
    ProtoTimestamp, RegionDefinition, RegionType, Registration, SapientDuration, SapientMessage,
    StatusDefinition, StatusInfo, StatusReport, System, TaskAck, TaskDefinition, TaskStatus,
    TimeUnits,
};
use crate::schema::WireEnum;
use crate::text::{copy_option, text_option};
use vstd::prelude::*;

verus! {

/// Double precision bits of -1.8224, the longitude of the detection.
pub const DETECTION_LONGITUDE: u64 = 0xbffd_288c_e703_afb8;

/// Double precision bits of 51.1740, the latitude of the detection.
pub const DETECTION_LATITUDE: u64 = 0x4049_9645_a1ca_c083;

/// Double precision bits of 100, the altitude of the detection.
pub const DETECTION_ALTITUDE: u64 = 0x4059_0000_0000_0000;

/// Single precision bits of 0.95, the confidence of the detection.
pub const DETECTION_CONFIDENCE: u32 = 0x3f73_3333;

/// Single precision bits of 5, the seconds between the node's status reports.
pub const STATUS_INTERVAL: u32 = 0x40a0_0000;

/// Single precision bits of 1, the seconds that the node's mode takes to settle.
pub const SETTLE_TIME: u32 = 0x3f80_0000;

/// What the run waits for.
#[derive(Clone, Copy, Debug, PartialEq, Eq, Structural)]
pub enum Step {
    /// The reply to the registration.
    RegistrationReply,
    /// The status report to be sent.
    StatusSent,
    /// The detection to be sent.
    DetectionSent,
    /// A task, which is optional.
    Task,
    /// The acknowledgement of the task to be sent.
    TaskAckSent,
    /// Nothing: the run is complete.
    Complete,
    /// Nothing: the run was broken off.
    Aborted,
}

/// What happens in a run.
#[derive(Debug)]
pub enum ClientEvent {
    Received(SapientMessage),
    Closed,
    ReceiveFailed,
    TimedOut,
    Sent,
    SendFailed,
}

/// A run and its score.
#[derive(Debug)]
pub struct ComplianceRun {
    node_id: String,
    step: Step,
    passed: u32,
    failed: u32,
}

/// What a [`ComplianceRun`] has come to.
#[verifier::ext_equal]
pub struct RunModel {
    pub node_id: Seq<char>,
    pub step: Step,
    pub passed: nat,
    pub failed: nat,
}

impl View for ComplianceRun {
    type V = RunModel;

    closed spec fn view(&self) -> RunModel {
        RunModel {
            node_id: self.node_id@,
            step: self.step,
            passed: self.passed as nat,
            failed: self.failed as nat,
        }
    }
}

/// A message accepts a registration.
pub open spec fn accepts_registration(msg: SapientMessage) -> bool {
    msg.content matches Some(Content::RegistrationAck(ack)) && ack.acceptance == Some(true)
}

/// A message carries a task.
pub open spec fn carries_task(msg: SapientMessage) -> bool {
    msg.content matches Some(Content::Task(_))
}

impl RunModel {
    /// The largest number of steps scored so far.
    pub open spec fn scored(self) -> nat {
        match self.step {
            Step::RegistrationReply => 0,
            Step::StatusSent => 1,
            Step::DetectionSent => 2,
            Step::Task | Step::TaskAckSent => 3,
            Step::Complete => 4,
            Step::Aborted => 0,
        }
    }

    /// The run with one more step passed or failed.
    pub open spec fn score(self, passed: bool, step: Step) -> RunModel {
        if passed {
            RunModel { passed: self.passed + 1, step, ..self }
        } else {
            RunModel { failed: self.failed + 1, step, ..self }
        }
    }

    /// The run after an event. An event that the run does not wait for changes
    /// nothing.
    pub open spec fn after(self, event: ClientEvent) -> RunModel {
        match (self.step, event) {
            (Step::RegistrationReply, ClientEvent::Received(msg)) => self.score(
                accepts_registration(msg),
                Step::StatusSent,
            ),
            (Step::RegistrationReply, ClientEvent::Closed)
            | (Step::RegistrationReply, ClientEvent::ReceiveFailed)
            | (Step::RegistrationReply, ClientEvent::SendFailed) => RunModel {
                step: Step::Aborted,
                ..self
            },
            (Step::StatusSent, ClientEvent::Sent) => self.score(true, Step::DetectionSent),
            (Step::StatusSent, ClientEvent::SendFailed) => self.score(false, Step::DetectionSent),
            (Step::DetectionSent, ClientEvent::Sent) => self.score(true, Step::Task),
            (Step::DetectionSent, ClientEvent::SendFailed) => self.score(false, Step::Task),
            (Step::Task, ClientEvent::Received(msg)) => RunModel {
                step: if carries_task(msg) {
                    Step::TaskAckSent
                } else {
                    Step::Complete
                },
                ..self
            },
            (Step::Task, ClientEvent::Closed) | (Step::Task, ClientEvent::TimedOut) => RunModel {
                step: Step::Complete,
                ..self
            },
            (Step::Task, ClientEvent::ReceiveFailed) => self.score(false, Step::Complete),
            (Step::TaskAckSent, ClientEvent::Sent) => self.score(true, Step::Complete),
            (Step::TaskAckSent, ClientEvent::SendFailed) => self.score(false, Step::Complete),
            _ => self,
        }
    }

    /// The run is complete and nothing failed.
    pub open spec fn succeeded(self) -> bool {
        self.step == Step::Complete && self.failed == 0
    }
}

/// `msg` accepts the task that another message carries.
pub open spec fn is_task_acceptance(
    msg: SapientMessage,
    task_msg: SapientMessage,
    node_id: Seq<char>,
    sent: ProtoTimestamp,
) -> bool {
    &&& msg.timestamp == Some(sent)
    &&& text_option(msg.node_id) == Some(node_id)
    &&& msg.destination_id == task_msg.node_id
    &&& msg.content matches Some(Content::TaskAck(ack))
    &&& task_msg.content matches Some(Content::Task(task))
    &&& ack.task_id == task.task_id
    &&& ack.task_status == Some(WireEnum::Known(TaskStatus::Accepted))
    &&& ack.reason@.len() == 1
    &&& ack.reason@[0]@ == "Accepted by peat-sapient compliance client"@
    &&& msg.additional_information is None
}

/// `msg` is sent by the node of a run, to nobody in particular.
pub open spec fn is_sent_by(msg: SapientMessage, node_id: Seq<char>, sent: ProtoTimestamp) -> bool {
    &&& msg.timestamp == Some(sent)
    &&& text_option(msg.node_id) == Some(node_id)
    &&& msg.destination_id is None
    &&& msg.additional_information is None
}

/// `duration` is a number of seconds.
pub open spec fn is_seconds(duration: Option<SapientDuration>, value: u32) -> bool {
    duration == Some(
        SapientDuration { units: Some(WireEnum::Known(TimeUnits::Seconds)), value: Some(value) },
    )
}

/// `capability` is that of the camera of a run.
pub open spec fn is_run_capability(capability: Capability) -> bool {
    &&& text_option(capability.category) == Some("Sensor"@)
    &&& text_option(capability.type_label) == Some("Electro-Optical"@)
    &&& text_option(capability.value) == Some("1080p"@)
    &&& text_option(capability.units) == Some("pixels"@)
}

/// `mode` is the only mode of the node of a run: it takes one task at a time, in
/// areas of interest.
pub open spec fn is_run_mode(mode: ModeDefinition) -> bool {
    &&& text_option(mode.mode_name) == Some("Default"@)
    &&& mode.mode_type == Some(WireEnum::Known(ModeType::Permanent))
    &&& text_option(mode.mode_description) == Some("Default operating mode"@)
    &&& is_seconds(mode.settle_time, SETTLE_TIME)
    &&& mode.task matches Some(task)
    &&& task.concurrent_tasks == Some(1i32)
    &&& task.region_definition matches Some(region)
    &&& region.region_type@ == seq![WireEnum::Known(RegionType::AreaOfInterest)]
    &&& region.region_area@ == seq![
        LocationType {
            location_units: Some(WireEnum::Known(LocationCoordinateSystem::LatLngDegM)),
            location_datum: Some(WireEnum::Known(LocationDatum::Wgs84E)),
        },
    ]
}

/// `msg` registers the node of a run as a camera.
pub open spec fn is_run_registration(
    msg: SapientMessage,
    node_id: Seq<char>,
    sent: ProtoTimestamp,
) -> bool {
    &&& is_sent_by(msg, node_id, sent)
    &&& msg.content matches Some(Content::Registration(reg))
    &&& text_option(reg.icd_version) == Some("BSI Flex 335 v2.0"@)
    &&& text_option(reg.name) == Some("peat-sapient compliance client"@)
    &&& text_option(reg.short_name) == Some("peat-cc"@)
    &&& reg.node_definition@.len() == 1
    &&& reg.node_definition@[0].node_type == Some(WireEnum::Known(NodeType::Camera))
    &&& reg.node_definition@[0].node_sub_type@.len() == 1
    &&& reg.node_definition@[0].node_sub_type@[0]@ == "EO"@
    &&& reg.capabilities@.len() == 1
    &&& is_run_capability(reg.capabilities@[0])
    &&& reg.status_definition matches Some(status)
    &&& is_seconds(status.status_interval, STATUS_INTERVAL)
    &&& reg.mode_definition@.len() == 1
    &&& is_run_mode(reg.mode_definition@[0])
    &&& reg.config_data@.len() == 1
    &&& reg.config_data@[0].manufacturer@ == "DefenseUnicorns"@
    &&& reg.config_data@[0].model@ == "peat-sapient"@
    &&& text_option(reg.config_data@[0].software_version) == Some("0.1.0"@)
}

/// `msg` reports that the node of a run is well.
pub open spec fn is_run_status(
    msg: SapientMessage,
    node_id: Seq<char>,
    report_id: Seq<char>,
    sent: ProtoTimestamp,
) -> bool {
    &&& is_sent_by(msg, node_id, sent)
    &&& msg.content matches Some(Content::StatusReport(report))
    &&& text_option(report.report_id) == Some(report_id)
    &&& report.system == Some(WireEnum::Known(System::Okay))
    &&& report.info == Some(WireEnum::Known(StatusInfo::New))
    &&& text_option(report.mode) == Some("Default"@)
    &&& report.node_location is None
    &&& report.power is None
    &&& report.field_of_view is None
}

/// The place of the detection of a run.
pub open spec fn run_location() -> Location {
    Location {
        x: Some(DETECTION_LONGITUDE),
        y: Some(DETECTION_LATITUDE),
        z: Some(DETECTION_ALTITUDE),
        coordinate_system: Some(WireEnum::Known(LocationCoordinateSystem::LatLngDegM)),
        datum: Some(WireEnum::Known(LocationDatum::Wgs84E)),
        utm_zone: None,
    }
}

/// `msg` reports the detection of a run.
pub open spec fn is_run_detection(
    msg: SapientMessage,
    node_id: Seq<char>,
    report_id: Seq<char>,
    object_id: Seq<char>,
    sent: ProtoTimestamp,
) -> bool {
    &&& is_sent_by(msg, node_id, sent)
    &&& msg.content matches Some(Content::DetectionReport(report))
    &&& text_option(report.report_id) == Some(report_id)
    &&& text_option(report.object_id) == Some(object_id)
    &&& report.location_oneof == Some(LocationOneof::Location(run_location()))
    &&& report.detection_confidence == Some(DETECTION_CONFIDENCE)
    &&& report.classification@.len() == 0
    &&& report.behaviour@.len() == 0
    &&& report.velocity is None
    &&& report.colour is None
    &&& report.id is None
}

/// `msg` reports the status of a node under an identifier and with a time of its
/// own.
pub open spec fn is_fresh_status(msg: SapientMessage, node_id: Seq<char>) -> bool {
    &&& msg.timestamp matches Some(sent)
    &&& is_timestamp(sent)
    &&& msg.content matches Some(Content::StatusReport(report))
    &&& report.report_id matches Some(id)
    &&& is_ulid(id@)
    &&& is_run_status(msg, node_id, id@, sent)
}

/// `msg` reports a detection of a node under identifiers and with a time of its
/// own.
pub open spec fn is_fresh_detection(msg: SapientMessage, node_id: Seq<char>) -> bool {
    &&& msg.timestamp matches Some(sent)
    &&& is_timestamp(sent)
    &&& msg.content matches Some(Content::DetectionReport(report))
    &&& report.report_id matches Some(id)
    &&& is_ulid(id@)
    &&& report.object_id matches Some(object)
    &&& is_ulid(object@)
    &&& is_run_detection(msg, node_id, id@, object@, sent)
}

fn seconds(value: u32) -> (duration: SapientDuration)
    ensures
        is_seconds(Some(duration), value),
{
    SapientDuration { units: Some(WireEnum::Known(TimeUnits::Seconds)), value: Some(value) }
}

/// The mode of the node of a run.
fn run_mode() -> (mode: ModeDefinition)
    ensures
        is_run_mode(mode),
{
    let mut region_type: Vec<WireEnum<RegionType>> = Vec::new();
    region_type.push(WireEnum::Known(RegionType::AreaOfInterest));
    let mut region_area: Vec<LocationType> = Vec::new();
    region_area.push(
        LocationType {
            location_units: Some(WireEnum::Known(LocationCoordinateSystem::LatLngDegM)),
            location_datum: Some(WireEnum::Known(LocationDatum::Wgs84E)),
        },
    );
    ModeDefinition {
        mode_name: Some("Default".to_owned()),
        mode_type: Some(WireEnum::Known(ModeType::Permanent)),
        mode_description: Some("Default operating mode".to_owned()),
        settle_time: Some(seconds(SETTLE_TIME)),
        task: Some(
            TaskDefinition {
                concurrent_tasks: Some(1),
                region_definition: Some(RegionDefinition { region_type, region_area }),
            },
        ),
    }
}

impl ComplianceRun {
    /// No more steps are scored than the run has been through.
    pub closed spec fn wf(&self) -> bool {
        self.step == Step::Aborted || self@.passed + self@.failed <= self@.scored()
    }

    /// A run whose registration has been sent.
    pub fn new(node_id: &str) -> (run: Self)
        ensures
            run.wf(),
            run@ == (RunModel {
                node_id: node_id@,
                step: Step::RegistrationReply,
                passed: 0,
                failed: 0,
            }),
    {
        let run = ComplianceRun {
            node_id: node_id.to_owned(),
            step: Step::RegistrationReply,
            passed: 0,
            failed: 0,
        };
        assert(run@ =~= RunModel {
            node_id: node_id@,
            step: Step::RegistrationReply,
            passed: 0,
            failed: 0,
        });
        run
    }

    /// A run under a fresh identity whose registration has been sent.
    pub fn start() -> (run: Self)
        ensures
            run.wf(),
            is_uuid_v4(run@.node_id),
            run@.step == Step::RegistrationReply,
            run@.passed == 0,
            run@.failed == 0,
    {
        let node_id = new_uuid();
        ComplianceRun::new(node_id.as_str())
    }

    /// The identity of the node.
    pub fn node_id(&self) -> (id: String)
        ensures
            id@ == self@.node_id,
    {
        self.node_id.clone()
    }

    /// What the run waits for.
    pub fn step(&self) -> (step: Step)
        ensures
            step == self@.step,
    {
        self.step
    }

    /// The numbers of steps passed and failed.
    pub fn score(&self) -> (score: (u32, u32))
        ensures
            score.0 == self@.passed,
            score.1 == self@.failed,
    {
        (self.passed, self.failed)
    }

    /// Whether the run is complete and nothing failed.
    pub fn succeeded(&self) -> (yes: bool)
        ensures
            yes == self@.succeeded(),
    {
        self.step == Step::Complete && self.failed == 0
    }

    fn record(&mut self, passed: bool, step: Step)
        requires
            old(self)@.passed + old(self)@.failed < 100,
        ensures
            final(self)@ == old(self)@.score(passed, step),
    {
        if passed {
            self.passed = self.passed + 1;
        } else {
            self.failed = self.failed + 1;
        }
        self.step = step;
        assert(self@ =~= old(self)@.score(passed, step));
    }

    /// Takes in an event.
    pub fn on_event(&mut self, event: &ClientEvent)
        requires
            old(self).wf(),
        ensures
            final(self).wf(),
            final(self)@ == old(self)@.after(*event),
    {
        match self.step {
            Step::RegistrationReply => match event {
                ClientEvent::Received(msg) => {
                    let accepted = match &msg.content {
                        Some(Content::RegistrationAck(ack)) => match ack.acceptance {
                            Some(acceptance) => acceptance,
                            None => false,
                        },
                        _ => false,
                    };
                    self.record(accepted, Step::StatusSent);
                },
                ClientEvent::Closed | ClientEvent::ReceiveFailed | ClientEvent::SendFailed => {
                    self.step = Step::Aborted;
                },
                _ => {},
            },
            Step::StatusSent => match event {
                ClientEvent::Sent => self.record(true, Step::DetectionSent),
                ClientEvent::SendFailed => self.record(false, Step::DetectionSent),
                _ => {},
            },
            Step::DetectionSent => match event {
                ClientEvent::Sent => self.record(true, Step::Task),
                ClientEvent::SendFailed => self.record(false, Step::Task),
                _ => {},
            },
            Step::Task => match event {
                ClientEvent::Received(msg) => {
                    self.step = match &msg.content {
                        Some(Content::Task(_)) => Step::TaskAckSent,
                        _ => Step::Complete,
                    };
                },
                ClientEvent::Closed | ClientEvent::TimedOut => {
                    self.step = Step::Complete;
                },
                ClientEvent::ReceiveFailed => self.record(false, Step::Complete),
                _ => {},
            },
            Step::TaskAckSent => match event {
                ClientEvent::Sent => self.record(true, Step::Complete),
                ClientEvent::SendFailed => self.record(false, Step::Complete),
                _ => {},
            },
            Step::Complete | Step::Aborted => {},
        }
        assert(self@ =~= old(self)@.after(*event));
    }

    fn message(&self, content: Content, sent: ProtoTimestamp) -> (msg: SapientMessage)
        ensures
            is_sent_by(msg, self@.node_id, sent),
            msg.content == Some(content),
    {
        SapientMessage {
            timestamp: Some(sent),
            node_id: Some(self.node_id.clone()),
            destination_id: None,
            content: Some(content),
            additional_information: None,
        }
    }

    /// The message that registers the node, sent at a given time.
    pub fn registration_at(&self, sent: ProtoTimestamp) -> (msg: SapientMessage)
        ensures
            is_run_registration(msg, self@.node_id, sent),
    {
        let mut node_sub_type: Vec<String> = Vec::new();
        node_sub_type.push("EO".to_owned());
        let mut node_definition: Vec<NodeDefinition> = Vec::new();
        node_definition.push(
            NodeDefinition { node_type: Some(WireEnum::Known(NodeType::Camera)), node_sub_type },
        );
        let mut config_data: Vec<ConfigurationData> = Vec::new();
        config_data.push(
            ConfigurationData {
                manufacturer: "DefenseUnicorns".to_owned(),
                model: "peat-sapient".to_owned(),
                software_version: Some("0.1.0".to_owned()),
            },
        );
        let mut capabilities: Vec<Capability> = Vec::new();
        capabilities.push(
            Capability {
                category: Some("Sensor".to_owned()),
                type_label: Some("Electro-Optical".to_owned()),
                value: Some("1080p".to_owned()),
                units: Some("pixels".to_owned()),
            },
        );
        let mut mode_definition: Vec<ModeDefinition> = Vec::new();
        mode_definition.push(run_mode());
        self.message(
            Content::Registration(
                Registration {
                    node_definition,
                    icd_version: Some("BSI Flex 335 v2.0".to_owned()),
                    name: Some("peat-sapient compliance client".to_owned()),
                    short_name: Some("peat-cc".to_owned()),
                    capabilities,
                    status_definition: Some(
                        StatusDefinition { status_interval: Some(seconds(STATUS_INTERVAL)) },
                    ),
                    mode_definition,
                    config_data,
                },
            ),
            sent,
        )
    }

    /// The message that registers the node, sent now.
    pub fn registration(&self) -> (msg: SapientMessage)
        ensures
            msg.timestamp matches Some(sent) && is_timestamp(sent) && is_run_registration(
                msg,
                self@.node_id,
                sent,
            ),
    {
        self.registration_at(now_proto_ts())
    }

    /// The message that reports the node's status, under a given identifier and
    /// sent at a given time.
    pub fn status_report_at(&self, report_id: String, sent: ProtoTimestamp) -> (msg: SapientMessage)
        ensures
            is_run_status(msg, self@.node_id, report_id@, sent),
    {
        self.message(
            Content::StatusReport(
                StatusReport {
                    report_id: Some(report_id),
                    system: Some(WireEnum::Known(System::Okay)),
                    info: Some(WireEnum::Known(StatusInfo::New)),
                    node_location: None,
                    power: None,
                    field_of_view: None,
                    mode: Some("Default".to_owned()),
                },
            ),
            sent,
        )
    }

    /// The message that reports the node's status, under a fresh identifier and
    /// sent now.
    pub fn status_report(&self) -> (msg: SapientMessage)
        ensures
            is_fresh_status(msg, self@.node_id),
    {
        self.status_report_at(new_ulid(), now_proto_ts())
    }

    /// The message that reports a detection, under given identifiers and sent at
    /// a given time.
    pub fn detection_report_at(
        &self,
        report_id: String,
        object_id: String,
        sent: ProtoTimestamp,
    ) -> (msg: SapientMessage)
        ensures
            is_run_detection(msg, self@.node_id, report_id@, object_id@, sent),
    {
        self.message(
            Content::DetectionReport(
                DetectionReport {
                    report_id: Some(report_id),
                    object_id: Some(object_id),
                    location_oneof: Some(
                        LocationOneof::Location(
                            Location {
                                x: Some(DETECTION_LONGITUDE),
                                y: Some(DETECTION_LATITUDE),
                                z: Some(DETECTION_ALTITUDE),
                                coordinate_system: Some(
                                    WireEnum::Known(LocationCoordinateSystem::LatLngDegM),
                                ),
                                datum: Some(WireEnum::Known(LocationDatum::Wgs84E)),
                                utm_zone: None,
                            },
                        ),
                    ),
                    detection_confidence: Some(DETECTION_CONFIDENCE),
                    classification: Vec::new(),
                    behaviour: Vec::new(),
                    velocity: None,
                    colour: None,
                    id: None,
                },
            ),
            sent,
        )
    }

    /// The message that reports a detection, under fresh identifiers and sent
    /// now.
    pub fn detection_report(&self) -> (msg: SapientMessage)
        ensures
            is_fresh_detection(msg, self@.node_id),
    {
        let report_id = new_ulid();
        let object_id = new_ulid();
        self.detection_report_at(report_id, object_id, now_proto_ts())
    }

    /// The acceptance of the task that a message carries, if it carries one.
    pub fn task_reply(&self, msg: &SapientMessage, sent: ProtoTimestamp) -> (reply: Option<
        SapientMessage,
    >)
        ensures
            match reply {
                Some(r) => is_task_acceptance(r, *msg, self@.node_id, sent),
                None => !carries_task(*msg),
            },
    {
        match &msg.content {
            Some(Content::Task(task)) => {
                let mut reason: Vec<String> = Vec::new();
                reason.push("Accepted by peat-sapient compliance client".to_owned());
                Some(
                    SapientMessage {
                        timestamp: Some(sent),
                        node_id: Some(self.node_id.clone()),
                        destination_id: copy_option(&msg.node_id),
                        content: Some(
                            Content::TaskAck(
                                TaskAck {
                                    task_id: copy_option(&task.task_id),
                                    task_status: Some(WireEnum::Known(TaskStatus::Accepted)),
                                    reason,
                                },
                            ),
                        ),
                        additional_information: None,
                    },
                )
            },
            _ => None,
        }
    }
}

/// A run goes through its steps in order, one step for each event that it waits
/// for: the reply to the registration, the status report, the detection, and a
/// task, which is acknowledged if there is one.
pub proof fn law_steps_come_in_order(run: RunModel, msg: SapientMessage)
    ensures
        run.step == Step::RegistrationReply ==> run.after(ClientEvent::Received(msg)).step
            == Step::StatusSent,
        run.step == Step::StatusSent ==> {
            &&& run.after(ClientEvent::Sent).step == Step::DetectionSent
            &&& run.after(ClientEvent::SendFailed).step == Step::DetectionSent
        },
        run.step == Step::DetectionSent ==> {
            &&& run.after(ClientEvent::Sent).step == Step::Task
            &&& run.after(ClientEvent::SendFailed).step == Step::Task
        },
        run.step == Step::Task ==> {
            &&& run.after(ClientEvent::Received(msg)).step == Step::TaskAckSent <==> (
            msg.content matches Some(Content::Task(_)))
            &&& run.after(ClientEvent::Received(msg)).step == Step::TaskAckSent || run.after(
                ClientEvent::Received(msg),
            ).step == Step::Complete
            &&& run.after(ClientEvent::Closed).step == Step::Complete
            &&& run.after(ClientEvent::TimedOut).step == Step::Complete
            &&& run.after(ClientEvent::ReceiveFailed).step == Step::Complete
        },
        run.step == Step::TaskAckSent ==> {
            &&& run.after(ClientEvent::Sent).step == Step::Complete
            &&& run.after(ClientEvent::SendFailed).step == Step::Complete
        },
        run.step == Step::RegistrationReply ==> {
            &&& run.after(ClientEvent::Closed).step == Step::Aborted
            &&& run.after(ClientEvent::ReceiveFailed).step == Step::Aborted
            &&& run.after(ClientEvent::SendFailed).step == Step::Aborted
            &&& run.after(ClientEvent::TimedOut) == run
        },
{
}

/// A step passes where what was to be sent was sent, and the first where the
/// registration was accepted; it fails where that went wrong. A task that never
/// comes counts neither way, nor does a run that is broken off.
pub proof fn law_score_counts_what_went_well(run: RunModel, event: ClientEvent)
    ensures
        run.after(event).node_id == run.node_id,
        run.after(event).passed == run.passed + 1 <==> {
            ||| run.step == Step::RegistrationReply && (event matches ClientEvent::Received(msg)
                && msg.content matches Some(Content::RegistrationAck(ack)) && ack.acceptance
                == Some(true))
            ||| (run.step == Step::StatusSent || run.step == Step::DetectionSent || run.step
                == Step::TaskAckSent) && event == ClientEvent::Sent
        },
        run.after(event).failed == run.failed + 1 <==> {
            ||| run.step == Step::RegistrationReply && event is Received && run.after(event).passed
                == run.passed
            ||| (run.step == Step::StatusSent || run.step == Step::DetectionSent || run.step
                == Step::TaskAckSent) && event == ClientEvent::SendFailed
            ||| run.step == Step::Task && event == ClientEvent::ReceiveFailed
        },
        run.after(event).passed == run.passed || run.after(event).passed == run.passed + 1,
        run.after(event).failed == run.failed || run.after(event).failed == run.failed + 1,
        run.after(event).passed + run.after(event).failed <= run.passed + run.failed + 1,
{
}

/// A run that is over stays as it is.
pub proof fn law_finished_run_stays(run: RunModel, event: ClientEvent)
    requires
        run.step == Step::Complete || run.step == Step::Aborted,
    ensures
        run.after(event) == run,
{
}

/// A run succeeds where it is complete and nothing went wrong on the way: with the
/// registration accepted and everything sent, with a task or without one. Once a
/// step has failed, or the run is broken off, nothing makes it succeed.
pub proof fn law_run_succeeds_if_nothing_fails(
    run: RunModel,
    reply: SapientMessage,
    task: SapientMessage,
    event: ClientEvent,
)
    requires
        run.step == Step::RegistrationReply,
        run.passed == 0,
        run.failed == 0,
        reply.content matches Some(Content::RegistrationAck(ack)) && ack.acceptance == Some(true),
        task.content matches Some(Content::Task(_)),
    ensures
        ({
            let sent = run.after(ClientEvent::Received(reply)).after(ClientEvent::Sent).after(
                ClientEvent::Sent,
            );
            let tasked = sent.after(ClientEvent::Received(task)).after(ClientEvent::Sent);
            let waited = sent.after(ClientEvent::TimedOut);
            &&& tasked.succeeded() && tasked.passed == 4
            &&& waited.succeeded() && waited.passed == 3
        }),
        forall|later: RunModel|
            later.failed > 0 || later.step == Step::Aborted ==> !(#[trigger] later.after(
                event,
            )).succeeded(),
{
}

/// A task is accepted under its own identifier, by the node of the run, towards
/// whoever sent it.
pub proof fn law_task_is_accepted_by_the_node(
    msg: SapientMessage,
    task_msg: SapientMessage,
    node_id: Seq<char>,
    sent: ProtoTimestamp,
)
    requires
        is_task_acceptance(msg, task_msg, node_id, sent),
    ensures
        msg.timestamp == Some(sent),
        msg.node_id is Some && msg.node_id->0@ == node_id,
        msg.destination_id == task_msg.node_id,
        msg.content matches Some(Content::TaskAck(ack)) && {
            &&& task_msg.content matches Some(Content::Task(task)) && ack.task_id == task.task_id
            &&& ack.task_status == Some(WireEnum::Known(TaskStatus::Accepted))
            &&& ack.reason@.len() == 1 && ack.reason@[0]@
                == "Accepted by peat-sapient compliance client"@
        },
{
}

/// The node of a run registers as a camera, with the identity and the capability
/// of one, a status report every five seconds, and one mode in which it takes one
/// task at a time.
pub proof fn law_run_registers_a_camera(
    msg: SapientMessage,
    node_id: Seq<char>,
    sent: ProtoTimestamp,
)
    requires
        is_run_registration(msg, node_id, sent),
    ensures
        msg.timestamp == Some(sent),
        msg.node_id is Some && msg.node_id->0@ == node_id,
        msg.destination_id is None && msg.additional_information is None,
        msg.content matches Some(Content::Registration(reg)) && {
            &&& reg.icd_version is Some && reg.icd_version->0@ == "BSI Flex 335 v2.0"@
            &&& reg.name is Some && reg.name->0@ == "peat-sapient compliance client"@
            &&& reg.short_name is Some && reg.short_name->0@ == "peat-cc"@
            &&& reg.node_definition@.len() == 1
            &&& reg.node_definition@[0].node_type == Some(WireEnum::Known(NodeType::Camera))
            &&& reg.node_definition@[0].node_sub_type@.len() == 1
            &&& reg.node_definition@[0].node_sub_type@[0]@ == "EO"@
            &&& reg.capabilities@.len() == 1
            &&& reg.capabilities@[0].category is Some && reg.capabilities@[0].category->0@
                == "Sensor"@
            &&& reg.capabilities@[0].type_label is Some && reg.capabilities@[0].type_label->0@
                == "Electro-Optical"@
            &&& reg.capabilities@[0].value is Some && reg.capabilities@[0].value->0@ == "1080p"@
            &&& reg.capabilities@[0].units is Some && reg.capabilities@[0].units->0@ == "pixels"@
            &&& reg.status_definition is Some
            &&& reg.status_definition->0.status_interval == Some(
                SapientDuration {
                    units: Some(WireEnum::Known(TimeUnits::Seconds)),
                    value: Some(0x40a0_0000u32),
                },
            )
            &&& reg.config_data@.len() == 1
            &&& reg.config_data@[0].manufacturer@ == "DefenseUnicorns"@
            &&& reg.config_data@[0].model@ == "peat-sapient"@
            &&& reg.config_data@[0].software_version is Some
                && reg.config_data@[0].software_version->0@ == "0.1.0"@
        },
{
}

/// The only mode of the node of a run is permanent, settles within a second, and
/// takes one task at a time, in an area of interest given by latitude and
/// longitude in degrees.
pub proof fn law_run_has_one_mode(msg: SapientMessage, node_id: Seq<char>, sent: ProtoTimestamp)
    requires
        is_run_registration(msg, node_id, sent),
    ensures
        msg.content matches Some(Content::Registration(reg)) && {
            let mode = reg.mode_definition@[0];
            &&& reg.mode_definition@.len() == 1
            &&& mode.mode_name is Some && mode.mode_name->0@ == "Default"@
            &&& mode.mode_type == Some(WireEnum::Known(ModeType::Permanent))
            &&& mode.mode_description is Some && mode.mode_description->0@
                == "Default operating mode"@
            &&& mode.settle_time == Some(
                SapientDuration {
                    units: Some(WireEnum::Known(TimeUnits::Seconds)),
                    value: Some(0x3f80_0000u32),
                },
            )
            &&& mode.task is Some && mode.task->0.concurrent_tasks == Some(1i32)
            &&& mode.task->0.region_definition is Some
            &&& mode.task->0.region_definition->0.region_type@.len() == 1
            &&& mode.task->0.region_definition->0.region_type@[0] == WireEnum::Known(
                RegionType::AreaOfInterest,
            )
            &&& mode.task->0.region_definition->0.region_area@.len() == 1
            &&& mode.task->0.region_definition->0.region_area@[0].location_units == Some(
                WireEnum::Known(LocationCoordinateSystem::LatLngDegM),
            )
            &&& mode.task->0.region_definition->0.region_area@[0].location_datum == Some(
                WireEnum::Known(LocationDatum::Wgs84E),
            )
        },
{
}

/// The node of a run reports that it is well, in its only mode, and nothing else.
pub proof fn law_run_reports_well_being(
    msg: SapientMessage,
    node_id: Seq<char>,
    report_id: Seq<char>,
    sent: ProtoTimestamp,
)
    requires
        is_run_status(msg, node_id, report_id, sent),
    ensures
        msg.timestamp == Some(sent),
        msg.node_id is Some && msg.node_id->0@ == node_id,
        msg.destination_id is None && msg.additional_information is None,
        msg.content matches Some(Content::StatusReport(report)) && {
            &&& report.report_id is Some && report.report_id->0@ == report_id
            &&& report.system == Some(WireEnum::Known(System::Okay))
            &&& report.info == Some(WireEnum::Known(StatusInfo::New))
            &&& report.mode is Some && report.mode->0@ == "Default"@
            &&& report.node_location is None && report.power is None && report.field_of_view is None
        },
{
}

/// The node of a run reports an object that it is almost sure of, at 51.1740
/// degrees north, 1.8224 degrees west and 100 metres up, and says nothing else of
/// it.
pub proof fn law_run_reports_one_place(
    msg: SapientMessage,
    node_id: Seq<char>,
    report_id: Seq<char>,
    object_id: Seq<char>,
    sent: ProtoTimestamp,
)
    requires
        is_run_detection(msg, node_id, report_id, object_id, sent),
    ensures
        msg.timestamp == Some(sent),
        msg.node_id is Some && msg.node_id->0@ == node_id,
        msg.destination_id is None && msg.additional_information is None,
        msg.content matches Some(Content::DetectionReport(report)) && {
            &&& report.report_id is Some && report.report_id->0@ == report_id
            &&& report.object_id is Some && report.object_id->0@ == object_id
            &&& report.location_oneof matches Some(LocationOneof::Location(place)) && {
                &&& place.y == Some(0x4049_9645_a1ca_c083u64)
                &&& place.x == Some(0xbffd_288c_e703_afb8u64)
                &&& place.z == Some(0x4059_0000_0000_0000u64)
                &&& place.coordinate_system == Some(
                    WireEnum::Known(LocationCoordinateSystem::LatLngDegM),
                )
                &&& place.datum == Some(WireEnum::Known(LocationDatum::Wgs84E))
                &&& place.utm_zone is None
            }
            &&& report.detection_confidence == Some(0x3f73_3333u32)
            &&& report.classification@.len() == 0 && report.behaviour@.len() == 0
            &&& report.velocity is None && report.colour is None && report.id is None
        },
{
}

/// What is reported now is reported under fresh identifiers and at a time of the
/// clock.
pub proof fn law_fresh_reports_are_reports_of_the_run(
    status: SapientMessage,
    detection: SapientMessage,
    node_id: Seq<char>,
)
    requires
        is_fresh_status(status, node_id),
        is_fresh_detection(detection, node_id),
    ensures
        status.timestamp is Some && is_timestamp(status.timestamp->0),
        status.content matches Some(Content::StatusReport(r)) && r.report_id is Some && is_ulid(
            r.report_id->0@,
        ) && is_run_status(status, node_id, r.report_id->0@, status.timestamp->0),
        detection.timestamp is Some && is_timestamp(detection.timestamp->0),
        detection.content matches Some(Content::DetectionReport(r)) && r.report_id is Some
            && is_ulid(r.report_id->0@) && r.object_id is Some && is_ulid(r.object_id->0@)
            && is_run_detection(
            detection,
            node_id,
            r.report_id->0@,
            r.object_id->0@,
            detection.timestamp->0,
        ),
{
}

} // verus!
