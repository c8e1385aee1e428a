//! [`HierarchicalCommand`] to an outbound SAPIENT `Task`.

use crate::clock::{is_timestamp, now_proto_ts, wrap_i32, wrap_i64, wrapped_i32, wrapped_i64};
use crate::error::{ErrorModel, SapientError};
use crate::identifiers::{is_ulid, new_ulid};
use crate::proto::{Content, Control, ProtoTimestamp, SapientMessage, Task};
use crate::schema::{CommandType, HierarchicalCommand, Timestamp, WireEnum};
use crate::text::{joined, text_option};
use vstd::prelude::*;

verus! {

/// The name of the task that a command asks for.
pub open spec fn task_name(cmd: HierarchicalCommand) -> Seq<char> {
    match cmd.command_type {
        Some(CommandType::MissionOrder(order)) => "MissionOrder/"@ + match order.mission_type {
            Some(name) => name@,
            None => "Unspecified"@,
        },
        Some(CommandType::EngagementOrder(order)) => "EngagementOrder/"@ + order.target_id@,
        Some(CommandType::FormationChange) => "FormationChange"@,
        Some(CommandType::ConfigurationUpdate) => "ConfigurationUpdate"@,
        None => Seq::empty(),
    }
}

/// The end of a task: when its command expires.
pub open spec fn task_end(expires_at: Option<Timestamp>) -> Option<ProtoTimestamp> {
    match expires_at {
        Some(t) => Some(
            ProtoTimestamp {
                seconds: wrapped_i64(t.seconds as int) as i64,
                nanos: wrapped_i32(t.nanos as int) as i32,
            },
        ),
        None => None,
    }
}

/// `task` starts what a command asks for.
pub open spec fn is_task_of(
    task: Task,
    cmd: HierarchicalCommand,
    task_id: Seq<char>,
    start: ProtoTimestamp,
) -> bool {
    &&& text_option(task.task_id) == Some(task_id)
    &&& text_option(task.task_name) == Some(task_name(cmd))
    &&& text_option(task.task_description) == Some("peat command_id="@ + cmd.command_id@)
    &&& task.control == Some(WireEnum::Known(Control::Start))
    &&& task.task_start_time == Some(start)
    &&& task.task_end_time == task_end(cmd.expires_at)
    &&& task.region@.len() == 0
    &&& task.command is None
}

/// `msg` carries the task that a command asks for.
pub open spec fn is_task_message(
    msg: SapientMessage,
    source: Seq<char>,
    destination: Seq<char>,
    cmd: HierarchicalCommand,
    task_id: Seq<char>,
    start: ProtoTimestamp,
    sent: ProtoTimestamp,
) -> bool {
    &&& msg.timestamp == Some(sent)
    &&& text_option(msg.node_id) == Some(source)
    &&& text_option(msg.destination_id) == Some(destination)
    &&& msg.content matches Some(Content::Task(task)) && is_task_of(task, cmd, task_id, start)
    &&& msg.additional_information is None
}

/// `msg` carries the task that a command asks for, under an identifier and with
/// times of its own.
pub open spec fn is_fresh_task_message(
    msg: SapientMessage,
    source: Seq<char>,
    destination: Seq<char>,
    cmd: HierarchicalCommand,
) -> bool {
    &&& msg.timestamp matches Some(sent)
    &&& is_timestamp(sent)
    &&& msg.content matches Some(Content::Task(task))
    &&& task.task_id matches Some(id)
    &&& is_ulid(id@)
    &&& task.task_start_time matches Some(start)
    &&& is_timestamp(start)
    &&& is_task_message(msg, source, destination, cmd, id@, start, sent)
}

/// The error for a command that asks for nothing.
pub open spec fn empty_command(source: Seq<char>) -> ErrorModel {
    ErrorModel::TaskRejected {
        node_id: source,
        reason: "HierarchicalCommand has no command_type"@,
    }
}

/// The name of the task that a command asks for.
pub fn command_to_task_name(cmd: &HierarchicalCommand) -> (name: String)
    ensures
        name@ == task_name(*cmd),
{
    match &cmd.command_type {
        Some(CommandType::MissionOrder(order)) => match &order.mission_type {
            Some(name) => joined("MissionOrder/", name.as_str()),
            None => joined("MissionOrder/", "Unspecified"),
        },
        Some(CommandType::EngagementOrder(order)) => joined(
            "EngagementOrder/",
            order.target_id.as_str(),
        ),
        Some(CommandType::FormationChange) => "FormationChange".to_owned(),
        Some(CommandType::ConfigurationUpdate) => "ConfigurationUpdate".to_owned(),
        None => String::new(),
    }
}

fn end_time(expires_at: &Option<Timestamp>) -> (end: Option<ProtoTimestamp>)
    ensures
        end == task_end(*expires_at),
{
    match expires_at {
        Some(t) => Some(
            ProtoTimestamp { seconds: wrap_i64(t.seconds), nanos: wrap_i32(t.nanos) },
        ),
        None => None,
    }
}

/// The message that carries the task of a command, under a given identifier
/// and with given times.
pub fn task_message(
    source_node_id: &str,
    destination_node_id: &str,
    cmd: &HierarchicalCommand,
    task_id: String,
    start: ProtoTimestamp,
    sent: ProtoTimestamp,
) -> (msg: Result<SapientMessage, SapientError>)
    ensures
        match msg {
            Ok(m) => cmd.command_type is Some && is_task_message(
                m,
                source_node_id@,
                destination_node_id@,
                *cmd,
                task_id@,
                start,
                sent,
            ),
            Err(e) => cmd.command_type is None && e@ == empty_command(source_node_id@),
        },
{
    if cmd.command_type.is_none() {
        return Err(
            SapientError::TaskRejected {
                node_id: source_node_id.to_owned(),
                reason: "HierarchicalCommand has no command_type".to_owned(),
            },
        );
    }
    let task = Task {
        task_id: Some(task_id),
        task_name: Some(command_to_task_name(cmd)),
        task_description: Some(joined("peat command_id=", cmd.command_id.as_str())),
        control: Some(WireEnum::Known(Control::Start)),
        task_start_time: Some(start),
        task_end_time: end_time(&cmd.expires_at),
        region: Vec::new(),
        command: None,
    };
    Ok(
        SapientMessage {
            timestamp: Some(sent),
            node_id: Some(source_node_id.to_owned()),
            destination_id: Some(destination_node_id.to_owned()),
            content: Some(Content::Task(task)),
            additional_information: None,
        },
    )
}

/// Maps a command to the message that carries its task, under a fresh
/// identifier and with the current time.
///
/// A command without a type is refused.
pub fn to_task(source_node_id: &str, destination_node_id: &str, cmd: &HierarchicalCommand) -> (msg:
    Result<SapientMessage, SapientError>)
    ensures
        match msg {
            Ok(m) => cmd.command_type is Some && is_fresh_task_message(
                m,
                source_node_id@,
                destination_node_id@,
                *cmd,
            ),
            Err(e) => cmd.command_type is None && e@ == empty_command(source_node_id@),
        },
{
    let task_id = new_ulid();
    let start = now_proto_ts();
    let sent = now_proto_ts();
    task_message(source_node_id, destination_node_id, cmd, task_id, start, sent)
}

/// A task starts what its command asks for: it is named after the kind of order
/// and what the order is about, refers to the command, and starts under the
/// identifier and at the time that are given.
pub proof fn law_task_says_what_is_asked_for(
    task: Task,
    cmd: HierarchicalCommand,
    task_id: Seq<char>,
    start: ProtoTimestamp,
)
    requires
        is_task_of(task, cmd, task_id, start),
    ensures
        task.task_id is Some && task.task_id->0@ == task_id,
        task.task_name is Some,
        cmd.command_type matches Some(CommandType::MissionOrder(order)) ==> task.task_name->0@
            == "MissionOrder/"@ + (if order.mission_type is Some {
            order.mission_type->0@
        } else {
            "Unspecified"@
        }),
        cmd.command_type matches Some(CommandType::EngagementOrder(order)) ==> task.task_name->0@
            == "EngagementOrder/"@ + order.target_id@,
        cmd.command_type == Some(CommandType::FormationChange) ==> task.task_name->0@
            == "FormationChange"@,
        cmd.command_type == Some(CommandType::ConfigurationUpdate) ==> task.task_name->0@
            == "ConfigurationUpdate"@,
        task.task_description is Some && task.task_description->0@ == "peat command_id="@
            + cmd.command_id@,
        task.control == Some(WireEnum::Known(Control::Start)),
        task.task_start_time == Some(start),
        task.region@.len() == 0 && task.command is None,
{
}

/// A task ends when its command expires, to the nanosecond, and has no end where
/// the command has none. A time that the wire cannot hold wraps around.
pub proof fn law_task_ends_when_the_command_expires(
    task: Task,
    cmd: HierarchicalCommand,
    task_id: Seq<char>,
    start: ProtoTimestamp,
)
    requires
        is_task_of(task, cmd, task_id, start),
    ensures
        task.task_end_time is Some <==> cmd.expires_at is Some,
        cmd.expires_at matches Some(t) ==> {
            &&& t.seconds <= i64::MAX ==> task.task_end_time->0.seconds == t.seconds
            &&& t.seconds > i64::MAX ==> task.task_end_time->0.seconds == t.seconds
                - 0x1_0000_0000_0000_0000
            &&& t.nanos <= i32::MAX ==> task.task_end_time->0.nanos == t.nanos
            &&& t.nanos > i32::MAX ==> task.task_end_time->0.nanos == t.nanos - 0x1_0000_0000
        },
{
}

/// The message of a task goes from the bridge to the node that it is for, at the
/// time of sending, and carries nothing but the task.
pub proof fn law_task_goes_to_its_node(
    msg: SapientMessage,
    source: Seq<char>,
    destination: Seq<char>,
    cmd: HierarchicalCommand,
    task_id: Seq<char>,
    start: ProtoTimestamp,
    sent: ProtoTimestamp,
)
    requires
        is_task_message(msg, source, destination, cmd, task_id, start, sent),
    ensures
        msg.node_id is Some && msg.node_id->0@ == source,
        msg.destination_id is Some && msg.destination_id->0@ == destination,
        msg.timestamp == Some(sent),
        msg.additional_information is None,
        msg.content matches Some(Content::Task(task)) && is_task_of(task, cmd, task_id, start),
{
}

/// A task made now is the task of its command: it has an identifier of its own,
/// and starts and is sent at times of the clock.
pub proof fn law_fresh_task_is_the_task_of_its_command(
    msg: SapientMessage,
    source: Seq<char>,
    destination: Seq<char>,
    cmd: HierarchicalCommand,
)
    requires
        is_fresh_task_message(msg, source, destination, cmd),
    ensures
        msg.node_id is Some && msg.node_id->0@ == source,
        msg.destination_id is Some && msg.destination_id->0@ == destination,
        msg.timestamp is Some && is_timestamp(msg.timestamp->0),
        msg.content matches Some(Content::Task(task)) && {
            &&& task.task_id is Some && is_ulid(task.task_id->0@)
            &&& task.task_start_time is Some && is_timestamp(task.task_start_time->0)
            &&& is_task_of(task, cmd, task.task_id->0@, task.task_start_time->0)
        },
{
}

/// A command that asks for nothing is refused in the name of the bridge.
pub proof fn law_empty_command_is_refused(source: Seq<char>)
    ensures
        empty_command(source) == (ErrorModel::TaskRejected {
            node_id: source,
            reason: "HierarchicalCommand has no command_type"@,
        }),
{
}

} // verus!
