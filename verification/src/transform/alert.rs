//! `Alert` to [`SapientAlertEvent`].

use crate::attributes::{json_text, no_members, with_text, Attributes, JsonText};
use crate::geodesy::{Coordinates, EnuRates, Geodesy, PositionPlan};
use crate::proto::{
    Alert, AlertStatus, AlertType, AssociatedDetection, DiscretePriority, LocationCoordinateSystem,
    LocationOneof,
};
use crate::schema::{TrackPosition, Velocity, WireEnum};
use crate::text::{
    copy_option, joined, owned_or_empty, present_texts, signed_decimal, signed_decimal_text,
    text_option, text_or_empty, texts,
};
use crate::transform::detection::{location_plan, location_to_track_position};
use vstd::prelude::*;

verus! {

/// An alert with its labels spelled out and its position resolved.
#[derive(Clone, Debug, PartialEq, Eq)]
pub struct SapientAlertEvent {
    pub alert_id: String,
    /// Label of the alert's type, such as `Warning`.
    pub alert_type: String,
    /// Label of the alert's status, such as `Active`.
    pub status: String,
    /// Label of the alert's priority, such as `High`.
    pub priority: String,
    pub description: Option<String>,
    /// Confidence that this is no false alarm, single precision bits.
    pub confidence: Option<u32>,
    /// Ranking score, single precision bits.
    pub ranking: Option<u32>,
    pub position: Option<TrackPosition>,
    pub region_id: Option<String>,
    /// JSON object with the remaining fields.
    pub attributes_json: String,
}

/// What a [`SapientAlertEvent`] says.
#[verifier::ext_equal]
pub struct AlertModel {
    pub alert_id: Seq<char>,
    pub alert_type: Seq<char>,
    pub status: Seq<char>,
    pub priority: Seq<char>,
    pub description: Option<Seq<char>>,
    pub confidence: Option<u32>,
    pub ranking: Option<u32>,
    pub position: Option<TrackPosition>,
    pub region_id: Option<Seq<char>>,
    pub attributes_json: Seq<char>,
}

impl View for SapientAlertEvent {
    type V = AlertModel;

    open spec fn view(&self) -> AlertModel {
        AlertModel {
            alert_id: self.alert_id@,
            alert_type: self.alert_type@,
            status: self.status@,
            priority: self.priority@,
            description: text_option(self.description),
            confidence: self.confidence,
            ranking: self.ranking,
            position: self.position,
            region_id: text_option(self.region_id),
            attributes_json: self.attributes_json@,
        }
    }
}

/// The label of a number that is not a known one.
pub open spec fn unknown_name(n: i32) -> Seq<char> {
    "Unknown("@ + signed_decimal(n as int) + ")"@
}

pub open spec fn alert_type_name(v: WireEnum<AlertType>) -> Seq<char> {
    match v {
        WireEnum::Known(AlertType::Unspecified) => "Unspecified"@,
        WireEnum::Known(AlertType::Information) => "Information"@,
        WireEnum::Known(AlertType::Warning) => "Warning"@,
        WireEnum::Known(AlertType::Critical) => "Critical"@,
        WireEnum::Known(AlertType::Error) => "Error"@,
        WireEnum::Known(AlertType::Fatal) => "Fatal"@,
        WireEnum::Known(AlertType::ModeChange) => "ModeChange"@,
        WireEnum::Unknown(n) => unknown_name(n),
    }
}

pub open spec fn alert_status_name(v: WireEnum<AlertStatus>) -> Seq<char> {
    match v {
        WireEnum::Known(AlertStatus::Unspecified) => "Unspecified"@,
        WireEnum::Known(AlertStatus::Active) => "Active"@,
        WireEnum::Known(AlertStatus::Acknowledge) => "Acknowledge"@,
        WireEnum::Known(AlertStatus::Reject) => "Reject"@,
        WireEnum::Known(AlertStatus::Ignore) => "Ignore"@,
        WireEnum::Known(AlertStatus::Clear) => "Clear"@,
        WireEnum::Unknown(n) => unknown_name(n),
    }
}

pub open spec fn priority_name(v: WireEnum<DiscretePriority>) -> Seq<char> {
    match v {
        WireEnum::Known(DiscretePriority::Unspecified) => "Unspecified"@,
        WireEnum::Known(DiscretePriority::Low) => "Low"@,
        WireEnum::Known(DiscretePriority::Medium) => "Medium"@,
        WireEnum::Known(DiscretePriority::High) => "High"@,
        WireEnum::Unknown(n) => unknown_name(n),
    }
}

/// An open enumeration field; one that is left out counts as unspecified.
pub open spec fn field_or<T>(field: Option<WireEnum<T>>, unspecified: T) -> WireEnum<T> {
    match field {
        Some(v) => v,
        None => WireEnum::Known(unspecified),
    }
}

/// How the position of an alert follows from it, if it does.
pub open spec fn alert_plan(msg: Alert) -> Option<PositionPlan> {
    match msg.location_oneof {
        Some(LocationOneof::Location(loc)) => match location_plan(loc) {
            Ok(plan) => Some(plan),
            Err(_) => None,
        },
        _ => None,
    }
}

/// The objects that an alert names.
pub open spec fn associated_ids(associated: Seq<AssociatedDetection>) -> Seq<Seq<char>> {
    present_texts(associated.map_values(|d: AssociatedDetection| d.object_id))
}

/// The members of the attributes that an alert carries along.
pub open spec fn alert_attributes(node_id: Seq<char>, msg: Alert) -> Map<Seq<char>, JsonText> {
    let listed = if msg.associated_detection@.len() > 0 {
        no_members().insert(
            "associated_detection_ids"@,
            JsonText::List(associated_ids(msg.associated_detection@)),
        )
    } else {
        no_members()
    };
    with_text(
        with_text(listed, "additional_information"@, msg.additional_information),
        "sapient_region_id"@,
        msg.region_id,
    ).insert("sapient_source_node_id"@, JsonText::Text(node_id))
}

/// The event of an alert, given its position.
pub open spec fn alert_event(
    node_id: Seq<char>,
    msg: Alert,
    position: Option<TrackPosition>,
) -> AlertModel {
    AlertModel {
        alert_id: text_or_empty(msg.alert_id),
        alert_type: alert_type_name(field_or(msg.alert_type, AlertType::Unspecified)),
        status: alert_status_name(field_or(msg.status, AlertStatus::Unspecified)),
        priority: priority_name(field_or(msg.priority, DiscretePriority::Unspecified)),
        description: text_option(msg.description),
        confidence: msg.confidence,
        ranking: msg.ranking,
        position,
        region_id: text_option(msg.region_id),
        attributes_json: json_text(alert_attributes(node_id, msg)),
    }
}

/// `event` is the event of an alert.
pub open spec fn is_event_of<P: Fn(PositionPlan) -> Coordinates, V: Fn(EnuRates) -> Velocity>(
    geodesy: Geodesy<P, V>,
    node_id: Seq<char>,
    msg: Alert,
    event: AlertModel,
) -> bool {
    &&& match alert_plan(msg) {
        Some(plan) => event.position matches Some(position) && geodesy.resolves(plan, position),
        None => event.position is None,
    }
    &&& event == alert_event(node_id, msg, event.position)
}

fn unknown_label(n: i32) -> (label: String)
    ensures
        label@ == unknown_name(n),
{
    let digits = signed_decimal_text(n as i64);
    let mut label = joined("Unknown(", digits.as_str());
    label.append(")");
    label
}

/// The label of an alert type.
pub fn alert_type_label(v: WireEnum<AlertType>) -> (label: String)
    ensures
        label@ == alert_type_name(v),
{
    match v {
        WireEnum::Known(AlertType::Unspecified) => "Unspecified".to_owned(),
        WireEnum::Known(AlertType::Information) => "Information".to_owned(),
        WireEnum::Known(AlertType::Warning) => "Warning".to_owned(),
        WireEnum::Known(AlertType::Critical) => "Critical".to_owned(),
        WireEnum::Known(AlertType::Error) => "Error".to_owned(),
        WireEnum::Known(AlertType::Fatal) => "Fatal".to_owned(),
        WireEnum::Known(AlertType::ModeChange) => "ModeChange".to_owned(),
        WireEnum::Unknown(n) => unknown_label(n),
    }
}

/// The label of an alert status.
pub fn alert_status_label(v: WireEnum<AlertStatus>) -> (label: String)
    ensures
        label@ == alert_status_name(v),
{
    match v {
        WireEnum::Known(AlertStatus::Unspecified) => "Unspecified".to_owned(),
        WireEnum::Known(AlertStatus::Active) => "Active".to_owned(),
        WireEnum::Known(AlertStatus::Acknowledge) => "Acknowledge".to_owned(),
        WireEnum::Known(AlertStatus::Reject) => "Reject".to_owned(),
        WireEnum::Known(AlertStatus::Ignore) => "Ignore".to_owned(),
        WireEnum::Known(AlertStatus::Clear) => "Clear".to_owned(),
        WireEnum::Unknown(n) => unknown_label(n),
    }
}

/// The label of a priority.
pub fn priority_label(v: WireEnum<DiscretePriority>) -> (label: String)
    ensures
        label@ == priority_name(v),
{
    match v {
        WireEnum::Known(DiscretePriority::Unspecified) => "Unspecified".to_owned(),
        WireEnum::Known(DiscretePriority::Low) => "Low".to_owned(),
        WireEnum::Known(DiscretePriority::Medium) => "Medium".to_owned(),
        WireEnum::Known(DiscretePriority::High) => "High".to_owned(),
        WireEnum::Unknown(n) => unknown_label(n),
    }
}

fn object_ids(associated: &Vec<AssociatedDetection>) -> (list: Vec<String>)
    ensures
        texts(list@) == associated_ids(associated@),
{
    let mut list: Vec<String> = Vec::new();
    let ghost all = associated@.map_values(|d: AssociatedDetection| d.object_id);
    let mut i: usize = 0;
    proof {
        assert(texts(list@) =~= present_texts(all.take(0)));
    }
    while i < associated.len()
        invariant
            i <= associated@.len(),
            all == associated@.map_values(|d: AssociatedDetection| d.object_id),
            texts(list@) == present_texts(all.take(i as int)),
        decreases associated@.len() - i,
    {
        let ghost before = list@;
        proof {
            let t = all.take(i + 1);
            assert(t.drop_last() =~= all.take(i as int));
            assert(t.last() == associated@[i as int].object_id);
        }
        if let Some(id) = &associated[i].object_id {
            list.push(id.clone());
            proof {
                assert(texts(list@) =~= texts(before).push(id@));
            }
        }
        i = i + 1;
    }
    proof {
        assert(all.take(associated@.len() as int) =~= all);
    }
    list
}

fn attributes(node_id: &str, msg: &Alert) -> (text: String)
    ensures
        text@ == json_text(alert_attributes(node_id@, *msg)),
{
    let mut attrs = Attributes::new();
    if !msg.associated_detection.is_empty() {
        attrs.list("associated_detection_ids", object_ids(&msg.associated_detection));
    }
    attrs.text_option("additional_information", &msg.additional_information);
    attrs.text_option("sapient_region_id", &msg.region_id);
    attrs.text("sapient_source_node_id", node_id);
    attrs.render()
}

/// Maps an alert to an event.
///
/// A position that cannot be resolved is left out; it is no error.
pub fn from_alert<P: Fn(PositionPlan) -> Coordinates, V: Fn(EnuRates) -> Velocity>(
    node_id: &str,
    msg: &Alert,
    geodesy: &Geodesy<P, V>,
) -> (event: SapientAlertEvent)
    requires
        geodesy.total(),
    ensures
        is_event_of(*geodesy, node_id@, *msg, event@),
{
    let position = match &msg.location_oneof {
        Some(LocationOneof::Location(loc)) => match location_to_track_position(loc, geodesy) {
            Ok(position) => Some(position),
            Err(_) => None,
        },
        Some(LocationOneof::RangeBearing(_)) => None,
        None => None,
    };
    let event = SapientAlertEvent {
        alert_id: owned_or_empty(&msg.alert_id),
        alert_type: alert_type_label(
            match msg.alert_type {
                Some(v) => v,
                None => WireEnum::Known(AlertType::Unspecified),
            },
        ),
        status: alert_status_label(
            match msg.status {
                Some(v) => v,
                None => WireEnum::Known(AlertStatus::Unspecified),
            },
        ),
        priority: priority_label(
            match msg.priority {
                Some(v) => v,
                None => WireEnum::Known(DiscretePriority::Unspecified),
            },
        ),
        description: copy_option(&msg.description),
        confidence: msg.confidence,
        ranking: msg.ranking,
        position,
        region_id: copy_option(&msg.region_id),
        attributes_json: attributes(node_id, msg),
    };
    proof {
        assert(event@ =~= alert_event(node_id@, *msg, event@.position));
    }
    event
}

/// An event says what its alert says: what is left out stays out, and an
/// identifier that is left out is empty.
pub proof fn law_event_says_what_the_alert_says<
    P: Fn(PositionPlan) -> Coordinates,
    V: Fn(EnuRates) -> Velocity,
>(geodesy: Geodesy<P, V>, node_id: Seq<char>, msg: Alert, event: AlertModel)
    requires
        is_event_of(geodesy, node_id, msg, event),
    ensures
        match msg.alert_id {
            Some(id) => event.alert_id == id@,
            None => event.alert_id.len() == 0,
        },
        match msg.description {
            Some(text) => event.description == Some(text@),
            None => event.description is None,
        },
        match msg.region_id {
            Some(text) => event.region_id == Some(text@),
            None => event.region_id is None,
        },
        event.confidence == msg.confidence,
        event.ranking == msg.ranking,
        event.attributes_json == json_text(alert_attributes(node_id, msg)),
{
}

/// The labels of an event name the type, status and priority of its alert: each
/// known one by its own word, any other number by `Unknown` with the number in
/// brackets, and one that is left out as unspecified.
pub proof fn law_labels_name_the_values<
    P: Fn(PositionPlan) -> Coordinates,
    V: Fn(EnuRates) -> Velocity,
>(geodesy: Geodesy<P, V>, node_id: Seq<char>, msg: Alert, event: AlertModel)
    requires
        is_event_of(geodesy, node_id, msg, event),
    ensures
        msg.alert_type is None ==> event.alert_type == "Unspecified"@,
        msg.status is None ==> event.status == "Unspecified"@,
        msg.priority is None ==> event.priority == "Unspecified"@,
        msg.alert_type matches Some(WireEnum::Unknown(n)) ==> event.alert_type == "Unknown("@
            + signed_decimal(n as int) + ")"@,
        msg.status matches Some(WireEnum::Unknown(n)) ==> event.status == "Unknown("@
            + signed_decimal(n as int) + ")"@,
        msg.priority matches Some(WireEnum::Unknown(n)) ==> event.priority == "Unknown("@
            + signed_decimal(n as int) + ")"@,
        msg.alert_type matches Some(WireEnum::Known(kind)) ==> event.alert_type == (match kind {
            AlertType::Unspecified => "Unspecified"@,
            AlertType::Information => "Information"@,
            AlertType::Warning => "Warning"@,
            AlertType::Critical => "Critical"@,
            AlertType::Error => "Error"@,
            AlertType::Fatal => "Fatal"@,
            AlertType::ModeChange => "ModeChange"@,
        }),
        msg.status matches Some(WireEnum::Known(kind)) ==> event.status == (match kind {
            AlertStatus::Unspecified => "Unspecified"@,
            AlertStatus::Active => "Active"@,
            AlertStatus::Acknowledge => "Acknowledge"@,
            AlertStatus::Reject => "Reject"@,
            AlertStatus::Ignore => "Ignore"@,
            AlertStatus::Clear => "Clear"@,
        }),
        msg.priority matches Some(WireEnum::Known(kind)) ==> event.priority == (match kind {
            DiscretePriority::Unspecified => "Unspecified"@,
            DiscretePriority::Low => "Low"@,
            DiscretePriority::Medium => "Medium"@,
            DiscretePriority::High => "High"@,
        }),
{
}

/// An event lies where its alert says, in the same way as a detection would; a
/// range and bearing, or a location that does not resolve, leaves it without a
/// position.
pub proof fn law_event_lies_where_the_alert_says<
    P: Fn(PositionPlan) -> Coordinates,
    V: Fn(EnuRates) -> Velocity,
>(geodesy: Geodesy<P, V>, node_id: Seq<char>, msg: Alert, event: AlertModel)
    requires
        is_event_of(geodesy, node_id, msg, event),
    ensures
        !(msg.location_oneof matches Some(LocationOneof::Location(_))) ==> event.position is None,
        msg.location_oneof matches Some(LocationOneof::Location(loc)) ==> {
            &&& event.position is Some <==> location_plan(loc) is Ok
            &&& event.position matches Some(p) ==> geodesy.resolves(location_plan(loc)->Ok_0, p)
            &&& event.position is Some && loc.coordinate_system == Some(
                WireEnum::Known(LocationCoordinateSystem::LatLngDegM),
            ) ==> loc.y == Some(event.position->0.latitude) && loc.x == Some(
                event.position->0.longitude,
            )
        },
{
}

/// The attributes of an event name its source, always, and carry along the
/// associated detections, the additional information and the region of its alert,
/// each where it is reported, and nothing else.
pub proof fn law_attributes_carry_the_rest(node_id: Seq<char>, msg: Alert, name: Seq<char>)
    ensures
        alert_attributes(node_id, msg).dom().contains(name) <==> {
            ||| name == "sapient_source_node_id"@
            ||| name == "associated_detection_ids"@ && msg.associated_detection@.len() > 0
            ||| name == "additional_information"@ && msg.additional_information is Some
            ||| name == "sapient_region_id"@ && msg.region_id is Some
        },
        alert_attributes(node_id, msg)["sapient_source_node_id"@] == JsonText::Text(node_id),
        msg.associated_detection@.len() > 0 ==> alert_attributes(
            node_id,
            msg,
        )["associated_detection_ids"@] == JsonText::List(
            present_texts(
                msg.associated_detection@.map_values(|d: AssociatedDetection| d.object_id),
            ),
        ),
        msg.additional_information matches Some(text) ==> alert_attributes(
            node_id,
            msg,
        )["additional_information"@] == JsonText::Text(text@),
        msg.region_id matches Some(text) ==> alert_attributes(node_id, msg)["sapient_region_id"@]
            == JsonText::Text(text@),
{
    reveal_strlit("sapient_source_node_id");
    reveal_strlit("associated_detection_ids");
    reveal_strlit("additional_information");
    reveal_strlit("sapient_region_id");
    assert("sapient_source_node_id"@.len() == 22);
    assert("associated_detection_ids"@.len() == 24);
    assert("additional_information"@.len() == 22);
    assert("sapient_region_id"@.len() == 17);
    assert("sapient_source_node_id"@[0] == 's' && "additional_information"@[0] == 'a');
}

} // verus!
