//! Translation between SAPIENT messages and mesh documents.
//!
//! `DetectionReport`s become documents of the `tracks` collection, and
//! registrations and status reports become documents of the `platforms`
//! collection. In the other direction, documents of `tracks` become
//! `DetectionReport`s. Tasking does not pass through here.

use crate::bridge::is_kept_position;
use crate::error::{ErrorModel, SapientError};
use crate::geodesy::{Coordinates, EnuRates, Geodesy, PositionPlan};
use crate::ieee::{
    double_is_finite, is_finite_double, is_finite_single, same_number, single_is_finite, widened,
};
use crate::mesh_fields::{
    is_single_zero, law_platform_position_is_kept, law_platform_says_how_the_node_is,
    law_track_classification_is_kept, law_track_position_is_kept, law_track_source_is_kept,
    platform_fields, platform_to_fields, track_fields, track_to_fields, FieldModel, FieldValue,
    Fields,
};
use crate::proto::{
    Content, DetectionReport, DetectionReportClassification, Location, LocationCoordinateSystem,
    LocationOneof, SapientMessage, StatusReport, System,
};
use crate::schema::{
    bare_advertisement, AdvertisementModel, CapabilityAdvertisement, NodeStateModel, TrackModel,
    TrackPosition, Velocity, WireEnum,
};
use crate::string_map::StringMap;
use crate::text::{owned_or_empty, same_text, text_option, text_or_empty};
use crate::transform::detection::{
    detection_plan, first_class, first_confidence, from_detection_report, is_track_of,
};
use crate::transform::registration::{from_registration, registered};
use crate::transform::status::{
    capability_change, from_status_report, is_state_of, law_node_is_where_it_reports,
};
use vstd::prelude::*;

verus! {

/// A document of the mesh.
pub struct Document {
    pub id: Option<String>,
    pub fields: Fields,
}

/// What a [`Document`] says.
#[verifier::ext_equal]
pub struct DocumentModel {
    pub id: Option<Seq<char>>,
    pub fields: Map<Seq<char>, FieldModel>,
}

impl View for Document {
    type V = DocumentModel;

    open spec fn view(&self) -> DocumentModel {
        DocumentModel { id: text_option(self.id), fields: self.fields@ }
    }
}

/// The document of a track.
pub open spec fn track_document(track: TrackModel) -> DocumentModel {
    DocumentModel { id: Some(track.track_id), fields: track_fields(track) }
}

/// The document of a platform.
pub open spec fn platform_document(
    advertisement: AdvertisementModel,
    state: Option<NodeStateModel>,
) -> DocumentModel {
    DocumentModel {
        id: Some(advertisement.node_id),
        fields: platform_fields(advertisement, state),
    }
}

/// A change of capability, or the advertisement of a node that says nothing.
pub open spec fn change_or_bare(
    change: Option<AdvertisementModel>,
    node_id: Seq<char>,
) -> AdvertisementModel {
    match change {
        Some(advertisement) => advertisement,
        None => bare_advertisement(node_id),
    }
}

/// Translator with the last known positions of the sensors.
pub struct SapientTranslator {
    sensor_positions: StringMap<TrackPosition>,
}

/// The position cached for a node.
pub open spec fn cached(positions: Map<Seq<char>, TrackPosition>, node_id: Seq<char>) -> Option<
    TrackPosition,
> {
    if positions.dom().contains(node_id) {
        Some(positions[node_id])
    } else {
        None
    }
}

/// `document` is what a message comes to, given the cached positions before and
/// after it.
pub open spec fn is_translation<P: Fn(PositionPlan) -> Coordinates, V: Fn(EnuRates) -> Velocity>(
    geodesy: Geodesy<P, V>,
    msg: SapientMessage,
    before: Map<Seq<char>, TrackPosition>,
    after: Map<Seq<char>, TrackPosition>,
    document: Result<Option<DocumentModel>, ErrorModel>,
) -> bool {
    let node_id = text_or_empty(msg.node_id);
    match msg.content {
        Some(Content::Registration(reg)) => {
            &&& after == before
            &&& document == Ok::<Option<DocumentModel>, ErrorModel>(
                Some(platform_document(registered(node_id, reg), None)),
            )
        },
        Some(Content::StatusReport(sr)) => exists|
            state: NodeStateModel,
            position: Option<TrackPosition>,
        |
            {
                &&& #[trigger] is_state_of(geodesy, sr, state)
                &&& #[trigger] is_kept_position(geodesy, state.position, position)
                &&& after == match position {
                    Some(p) => before.insert(node_id, p),
                    None => before,
                }
                &&& document == Ok::<Option<DocumentModel>, ErrorModel>(
                    Some(
                        platform_document(
                            change_or_bare(capability_change(node_id, sr), node_id),
                            Some(state),
                        ),
                    ),
                )
            },
        Some(Content::DetectionReport(dr)) => {
            &&& after == before
            &&& match document {
                Ok(Some(d)) => exists|track: TrackModel| #[trigger]
                    is_track_of(geodesy, node_id, cached(before, node_id), dr, track) && d
                        == track_document(track),
                Ok(None) => false,
                Err(e) => detection_plan(cached(before, node_id), dr) == Err::<
                    PositionPlan,
                    ErrorModel,
                >(e),
            }
        },
        _ => after == before && document == Ok::<Option<DocumentModel>, ErrorModel>(None),
    }
}

/// What translating a message comes to.
pub open spec fn translation(result: Result<Option<Document>, SapientError>) -> Result<
    Option<DocumentModel>,
    ErrorModel,
> {
    match result {
        Ok(Some(document)) => Ok(Some(document@)),
        Ok(None) => Ok(None),
        Err(e) => Err(e@),
    }
}

/// A field holds a finite number that can be read in double precision.
pub open spec fn holds_number(fields: Map<Seq<char>, FieldModel>, name: Seq<char>) -> bool {
    fields.dom().contains(name) && match fields[name] {
        FieldModel::Double(bits) => double_is_finite(bits),
        FieldModel::Single(bits) => single_is_finite(bits),
        FieldModel::Number { .. } => true,
        _ => false,
    }
}

/// `number` is the number in a field, in double precision, if the field holds
/// one.
pub open spec fn is_number_in(
    fields: Map<Seq<char>, FieldModel>,
    name: Seq<char>,
    number: Option<u64>,
) -> bool {
    match number {
        Some(n) => holds_number(fields, name) && match fields[name] {
            FieldModel::Double(bits) => n == bits,
            FieldModel::Single(bits) => same_number(bits, n),
            FieldModel::Number { double, .. } => n == double,
            _ => false,
        },
        None => !holds_number(fields, name),
    }
}

/// The number in a field, in single precision, if it holds one that can be read
/// so.
pub open spec fn single_field(fields: Map<Seq<char>, FieldModel>, name: Seq<char>) -> Option<u32> {
    if fields.dom().contains(name) {
        match fields[name] {
            FieldModel::Single(bits) => if single_is_finite(bits) {
                Some(bits)
            } else {
                None
            },
            FieldModel::Number { single, .. } => Some(single),
            _ => None,
        }
    } else {
        None
    }
}

/// The text in a field, if it holds one.
pub open spec fn text_field(fields: Map<Seq<char>, FieldModel>, name: Seq<char>) -> Option<
    Seq<char>,
> {
    if fields.dom().contains(name) {
        match fields[name] {
            FieldModel::Text(text) => Some(text),
            _ => None,
        }
    } else {
        None
    }
}

/// A document can be sent as a detection: it belongs to `tracks` and has an
/// identifier, a latitude and a longitude.
pub open spec fn is_sendable(document: DocumentModel, collection: Option<Seq<char>>) -> bool {
    &&& collection == Some("tracks"@)
    &&& document.id is Some
    &&& holds_number(document.fields, "lat"@)
    &&& holds_number(document.fields, "lon"@)
}

/// `msg` reports the detection of a document.
pub open spec fn is_report_of(msg: SapientMessage, document: DocumentModel) -> bool {
    &&& msg.timestamp is None
    &&& msg.node_id is None
    &&& msg.destination_id is None
    &&& msg.additional_information is None
    &&& msg.content matches Some(Content::DetectionReport(dr))
    &&& dr.report_id is None
    &&& text_option(dr.object_id) == document.id
    &&& dr.location_oneof matches Some(LocationOneof::Location(loc))
    &&& is_number_in(document.fields, "lon"@, loc.x)
    &&& is_number_in(document.fields, "lat"@, loc.y)
    &&& is_number_in(document.fields, "hae"@, loc.z)
    &&& loc.coordinate_system == Some(WireEnum::Known(LocationCoordinateSystem::LatLngDegM))
    &&& loc.datum is None
    &&& loc.utm_zone is None
    &&& dr.detection_confidence is None
    &&& match text_field(document.fields, "sapient_classification"@) {
        Some(label) => {
            &&& dr.classification@.len() == 1
            &&& text_option(dr.classification@[0].type_label) == Some(label)
            &&& dr.classification@[0].confidence == single_field(
                document.fields,
                "sapient_confidence"@,
            )
        },
        None => dr.classification@.len() == 0,
    }
    &&& dr.behaviour@.len() == 0
    &&& dr.velocity is None
    &&& dr.colour is None
    &&& dr.id is None
}

fn read_double(fields: &Fields, name: &str) -> (number: Option<u64>)
    requires
        fields.wf(),
    ensures
        is_number_in(fields@, name@, number),
{
    match fields.get(name) {
        Some(FieldValue::Double(bits)) => if is_finite_double(*bits) {
            Some(*bits)
        } else {
            None
        },
        Some(FieldValue::Single(bits)) => if is_finite_single(*bits) {
            Some(widened(*bits))
        } else {
            None
        },
        Some(FieldValue::Number { double, .. }) => Some(*double),
        _ => None,
    }
}

fn read_single(fields: &Fields, name: &str) -> (number: Option<u32>)
    requires
        fields.wf(),
    ensures
        number == single_field(fields@, name@),
{
    match fields.get(name) {
        Some(FieldValue::Single(bits)) => if is_finite_single(*bits) {
            Some(*bits)
        } else {
            None
        },
        Some(FieldValue::Number { single, .. }) => Some(*single),
        _ => None,
    }
}

fn read_text(fields: &Fields, name: &str) -> (text: Option<String>)
    requires
        fields.wf(),
    ensures
        text_option(text) == text_field(fields@, name@),
{
    match fields.get(name) {
        Some(FieldValue::Text(text)) => Some(text.clone()),
        _ => None,
    }
}

impl SapientTranslator {
    /// The cached positions.
    pub closed spec fn positions(&self) -> Map<Seq<char>, TrackPosition> {
        self.sensor_positions@
    }

    pub closed spec fn wf(&self) -> bool {
        self.sensor_positions.wf()
    }

    /// A translator that knows no position.
    pub fn new() -> (translator: Self)
        ensures
            translator.wf(),
            translator.positions() == Map::<Seq<char>, TrackPosition>::empty(),
    {
        SapientTranslator { sensor_positions: StringMap::new() }
    }

    /// The name under which documents from SAPIENT are published.
    pub fn transport_id(&self) -> (id: &'static str)
        ensures
            id@ == "sapient"@,
    {
        "sapient"
    }

    /// The collection of the documents of detections.
    pub fn tracks_collection(&self) -> (name: &'static str)
        ensures
            name@ == "tracks"@,
    {
        "tracks"
    }

    /// The collection of the documents of registrations and status reports.
    pub fn platforms_collection(&self) -> (name: &'static str)
        ensures
            name@ == "platforms"@,
    {
        "platforms"
    }

    /// Remembers the position of a node.
    pub fn cache_position(&mut self, node_id: &str, position: &TrackPosition)
        requires
            old(self).wf(),
        ensures
            final(self).wf(),
            final(self).positions() == old(self).positions().insert(node_id@, *position),
    {
        self.sensor_positions.insert(node_id, *position);
    }

    /// The remembered position of a node.
    pub fn cached_position(&self, node_id: &str) -> (position: Option<TrackPosition>)
        requires
            self.wf(),
        ensures
            position == cached(self.positions(), node_id@),
    {
        match self.sensor_positions.get(node_id) {
            Some(position) => Some(*position),
            None => None,
        }
    }

    /// Translates a message to a document.
    ///
    /// A status report also has its position remembered, for the range and
    /// bearing detections of the same node. Content that is not carried comes
    /// out as no document; a detection that cannot be placed is an error.
    pub fn decode_inbound<P: Fn(PositionPlan) -> Coordinates, V: Fn(EnuRates) -> Velocity>(
        &mut self,
        msg: &SapientMessage,
        geodesy: &Geodesy<P, V>,
    ) -> (document: Result<Option<Document>, SapientError>)
        requires
            old(self).wf(),
            geodesy.total(),
        ensures
            final(self).wf(),
            is_translation(
                *geodesy,
                *msg,
                old(self).positions(),
                final(self).positions(),
                translation(document),
            ),
            document matches Ok(Some(d)) ==> d.fields.wf(),
    {
        let node_id = owned_or_empty(&msg.node_id);
        match &msg.content {
            Some(Content::Registration(reg)) => {
                let advertisement = from_registration(node_id.as_str(), reg);
                let (id, fields) = platform_to_fields(&advertisement, None);
                let document = Document { id: Some(id), fields };
                assert(document@ =~= platform_document(registered(node_id@, *reg), None));
                Ok(Some(document))
            },
            Some(Content::StatusReport(sr)) => {
                let (state, change) = from_status_report(node_id.as_str(), sr, geodesy);
                let position = match state.position {
                    Some(position) => Some(geodesy.narrowed(position)),
                    None => None,
                };
                assert(is_state_of(*geodesy, *sr, state@));
                assert(is_kept_position(*geodesy, state@.position, position));
                if let Some(p) = &position {
                    self.cache_position(node_id.as_str(), p);
                }
                let advertisement = match change {
                    Some(advertisement) => advertisement,
                    None => CapabilityAdvertisement::bare(node_id.as_str()),
                };
                let (id, fields) = platform_to_fields(&advertisement, Some(&state));
                let document = Document { id: Some(id), fields };
                assert(document@ =~= platform_document(
                    change_or_bare(capability_change(node_id@, *sr), node_id@),
                    Some(state@),
                ));
                Ok(Some(document))
            },
            Some(Content::DetectionReport(dr)) => {
                let sensor = self.cached_position(node_id.as_str());
                match from_detection_report(node_id.as_str(), sensor.as_ref(), dr, geodesy) {
                    Ok(track) => {
                        let (id, fields) = track_to_fields(&track);
                        let document = Document { id: Some(id), fields };
                        assert(document@ =~= track_document(track@));
                        Ok(Some(document))
                    },
                    Err(e) => Err(e),
                }
            },
            _ => Ok(None),
        }
    }

    /// Translates a document of a collection to a message that reports a
    /// detection. A document of another collection, or one without identifier,
    /// latitude or longitude, is declined.
    pub fn encode_outbound(&self, document: &Document, collection: Option<&str>) -> (msg: Option<
        SapientMessage,
    >)
        requires
            document.fields.wf(),
        ensures
            match msg {
                Some(m) => is_sendable(document@, name_option(collection)) && is_report_of(
                    m,
                    document@,
                ),
                None => !is_sendable(document@, name_option(collection)),
            },
    {
        match collection {
            Some(name) => if !same_text(name, "tracks") {
                return None;
            },
            None => return None,
        }
        let object_id = match &document.id {
            Some(id) => id.clone(),
            None => return None,
        };
        let y = read_double(&document.fields, "lat");
        let x = read_double(&document.fields, "lon");
        if y.is_none() || x.is_none() {
            return None;
        }
        let z = read_double(&document.fields, "hae");
        let mut classification: Vec<DetectionReportClassification> = Vec::new();
        if let Some(label) = read_text(&document.fields, "sapient_classification") {
            let confidence = read_single(&document.fields, "sapient_confidence");
            classification.push(
                DetectionReportClassification { type_label: Some(label), confidence },
            );
        }
        Some(
            SapientMessage {
                timestamp: None,
                node_id: None,
                destination_id: None,
                content: Some(
                    Content::DetectionReport(
                        DetectionReport {
                            report_id: None,
                            object_id: Some(object_id),
                            location_oneof: Some(
                                LocationOneof::Location(
                                    Location {
                                        x,
                                        y,
                                        z,
                                        coordinate_system: Some(
                                            WireEnum::Known(LocationCoordinateSystem::LatLngDegM),
                                        ),
                                        datum: None,
                                        utm_zone: None,
                                    },
                                ),
                            ),
                            detection_confidence: None,
                            classification,
                            behaviour: Vec::new(),
                            velocity: None,
                            colour: None,
                            id: None,
                        },
                    ),
                ),
                additional_information: None,
            },
        )
    }
}

/// The text behind an optional reference.
pub open spec fn name_option(name: Option<&str>) -> Option<Seq<char>> {
    match name {
        Some(n) => Some(n@),
        None => None,
    }
}

/// The detection that a message reports, if it reports one.
pub open spec fn report_in(msg: SapientMessage) -> Option<DetectionReport> {
    match msg.content {
        Some(Content::DetectionReport(dr)) => Some(dr),
        _ => None,
    }
}

/// The location of a detection, if it has one.
pub open spec fn location_in(dr: DetectionReport) -> Option<Location> {
    match dr.location_oneof {
        Some(LocationOneof::Location(loc)) => Some(loc),
        _ => None,
    }
}

/// A position in degrees survives the way through the mesh: a detection that is
/// translated to a document can be sent on from there, and then reports the
/// same object at the same latitude and longitude, and at the altitude that the
/// track has. Coordinates that are no finite numbers have no place in a
/// document.
pub proof fn law_position_round_trips<
    P: Fn(PositionPlan) -> Coordinates,
    V: Fn(EnuRates) -> Velocity,
>(
    geodesy: Geodesy<P, V>,
    node_id: Seq<char>,
    sensor: Option<TrackPosition>,
    dr: DetectionReport,
    track: TrackModel,
    sent: SapientMessage,
)
    requires
        is_track_of(geodesy, node_id, sensor, dr, track),
        location_in(dr) matches Some(loc) && loc.coordinate_system == Some(
            WireEnum::Known(LocationCoordinateSystem::LatLngDegM),
        ) && double_is_finite(loc.x->0) && double_is_finite(loc.y->0),
        is_report_of(sent, track_document(track)),
    ensures
        is_sendable(track_document(track), Some("tracks"@)),
        report_in(sent) is Some,
        text_option(report_in(sent)->0.object_id) == Some(text_or_empty(dr.object_id)),
        location_in(report_in(sent)->0) is Some,
        location_in(report_in(sent)->0)->0.x == location_in(dr)->0.x,
        location_in(report_in(sent)->0)->0.y == location_in(dr)->0.y,
        ({
            let altitude = track.position->0.altitude;
            match location_in(report_in(sent)->0)->0.z {
                Some(z) => same_number(altitude, z),
                None => is_single_zero(altitude) || !single_is_finite(altitude),
            }
        }),
{
    law_track_position_is_kept(track);
}

/// A classification survives the way through the mesh: a detection that is
/// translated to a document and sent on from there reports the same first
/// classification, and none where there was none. So does its confidence,
/// unless it is no finite number.
pub proof fn law_classification_round_trips<
    P: Fn(PositionPlan) -> Coordinates,
    V: Fn(EnuRates) -> Velocity,
>(
    geodesy: Geodesy<P, V>,
    node_id: Seq<char>,
    sensor: Option<TrackPosition>,
    dr: DetectionReport,
    track: TrackModel,
    sent: SapientMessage,
)
    requires
        is_track_of(geodesy, node_id, sensor, dr, track),
        is_report_of(sent, track_document(track)),
    ensures
        report_in(sent) is Some,
        first_class(report_in(sent)->0.classification@) == first_class(dr.classification@),
        first_class(dr.classification@).len() > 0 && single_is_finite(
            first_confidence(dr.classification@),
        ) ==> first_confidence(report_in(sent)->0.classification@) == first_confidence(
            dr.classification@,
        ),
{
    law_track_classification_is_kept(track);
}

/// A document survives the way over the wire: a document that is sent can be
/// translated back by the receiver, whatever sensor positions it knows, and the
/// document that comes out has the same identifier, latitude and longitude. It
/// has the same classification, unless that is empty, and with it the same
/// confidence.
pub proof fn law_document_round_trips<
    P: Fn(PositionPlan) -> Coordinates,
    V: Fn(EnuRates) -> Velocity,
>(
    geodesy: Geodesy<P, V>,
    document: DocumentModel,
    sent: SapientMessage,
    before: Map<Seq<char>, TrackPosition>,
    after: Map<Seq<char>, TrackPosition>,
    received: Result<Option<DocumentModel>, ErrorModel>,
)
    requires
        is_sendable(document, Some("tracks"@)),
        is_report_of(sent, document),
        is_translation(geodesy, sent, before, after, received),
    ensures
        received matches Ok(Some(d)) && {
            let label = text_field(document.fields, "sapient_classification"@);
            &&& d.id == document.id
            &&& d.fields.dom().contains("lat"@) && d.fields["lat"@] is Double
            &&& is_number_in(document.fields, "lat"@, Some(d.fields["lat"@]->Double_0))
            &&& d.fields.dom().contains("lon"@) && d.fields["lon"@] is Double
            &&& is_number_in(document.fields, "lon"@, Some(d.fields["lon"@]->Double_0))
            &&& text_field(d.fields, "sapient_classification"@) == match label {
                Some(text) => if text.len() > 0 {
                    label
                } else {
                    None
                },
                None => None,
            }
            &&& match (label, single_field(document.fields, "sapient_confidence"@)) {
                (Some(_), Some(confidence)) => single_is_finite(confidence) ==> single_field(
                    d.fields,
                    "sapient_confidence"@,
                ) == Some(confidence),
                _ => true,
            }
        },
{
    let dr = report_in(sent)->0;
    let sensor = cached(before, text_or_empty(sent.node_id));
    assert(detection_plan(sensor, dr) is Ok);
    let track = choose|track: TrackModel| #[trigger]
        is_track_of(geodesy, text_or_empty(sent.node_id), sensor, dr, track) && received
            == Ok::<Option<DocumentModel>, ErrorModel>(Some(track_document(track)));
    law_track_position_is_kept(track);
    law_track_classification_is_kept(track);
}

/// Only documents of tracks are sent: what comes of a platform, or of anything
/// in another collection, stays in the mesh.
pub proof fn law_other_collections_are_declined(
    document: DocumentModel,
    collection: Option<Seq<char>>,
)
    requires
        collection != Some("tracks"@),
    ensures
        !is_sendable(document, collection),
{
}

/// A document is sent on if and only if it is one of the tracks and has an
/// identifier, and `lat` and `lon` hold numbers, of which neither is infinite nor
/// undefined.
pub proof fn law_placed_tracks_are_sent(document: DocumentModel)
    requires
        document.id is Some,
        document.fields.dom().contains("lat"@) && document.fields.dom().contains("lon"@),
    ensures
        document.fields["lat"@] matches FieldModel::Double(y) ==> document.fields["lon"@] matches FieldModel::Double(x)
            ==> (is_sendable(document, Some("tracks"@)) <==> double_is_finite(y)
            && double_is_finite(x)),
        document.fields["lat"@] is Number && document.fields["lon"@] is Number ==> is_sendable(
            document,
            Some("tracks"@),
        ),
        document.fields["lat"@] is Text || document.fields["lon"@] is Text ==> !is_sendable(
            document,
            Some("tracks"@),
        ),
        document.fields["lat"@] is Integer || document.fields["lon"@] is Integer ==> !is_sendable(
            document,
            Some("tracks"@),
        ),
        document.fields["lat"@] is Flag || document.fields["lon"@] is Flag ==> !is_sendable(
            document,
            Some("tracks"@),
        ),
        document.fields["lat"@] is TextList || document.fields["lon"@] is TextList
            ==> !is_sendable(document, Some("tracks"@)),
{
}

/// A document without an identifier, a latitude or a longitude is not sent.
pub proof fn law_unplaced_documents_are_declined(document: DocumentModel)
    requires
        document.id is None || !document.fields.dom().contains("lat"@)
            || !document.fields.dom().contains("lon"@),
    ensures
        !is_sendable(document, Some("tracks"@)),
{
}

/// A message that is sent for a document reports its object in degrees, `lon`
/// as `x`, `lat` as `y` and `hae` as `z` where there is one, with the
/// classification and confidence that the document gives. It says nothing else.
pub proof fn law_report_says_what_the_document_says(msg: SapientMessage, document: DocumentModel)
    requires
        is_report_of(msg, document),
    ensures
        msg.timestamp is None && msg.node_id is None && msg.destination_id is None
            && msg.additional_information is None,
        msg.content matches Some(Content::DetectionReport(dr)) && {
            &&& dr.report_id is None && dr.detection_confidence is None && dr.velocity is None
                && dr.colour is None && dr.id is None
            &&& dr.behaviour@.len() == 0
            &&& document.id matches Some(id) ==> dr.object_id is Some && dr.object_id->0@ == id
            &&& document.id is None ==> dr.object_id is None
            &&& dr.location_oneof matches Some(LocationOneof::Location(loc)) && {
                &&& loc.coordinate_system == Some(
                    WireEnum::Known(LocationCoordinateSystem::LatLngDegM),
                )
                &&& loc.datum is None && loc.utm_zone is None
                &&& document.fields.dom().contains("lat"@) ==> {
                    &&& document.fields["lat"@] matches FieldModel::Double(y) ==> double_is_finite(
                        y,
                    ) ==> loc.y == Some(y)
                    &&& document.fields["lat"@] matches FieldModel::Number { double, .. }
                        ==> loc.y == Some(double)
                    &&& document.fields["lat"@] matches FieldModel::Single(y) ==> single_is_finite(
                        y,
                    ) ==> loc.y is Some && same_number(y, loc.y->0)
                }
                &&& document.fields.dom().contains("lon"@) ==> {
                    &&& document.fields["lon"@] matches FieldModel::Double(x) ==> double_is_finite(
                        x,
                    ) ==> loc.x == Some(x)
                    &&& document.fields["lon"@] matches FieldModel::Number { double, .. }
                        ==> loc.x == Some(double)
                    &&& document.fields["lon"@] matches FieldModel::Single(x) ==> single_is_finite(
                        x,
                    ) ==> loc.x is Some && same_number(x, loc.x->0)
                }
                &&& document.fields.dom().contains("hae"@) ==> {
                    &&& document.fields["hae"@] matches FieldModel::Double(z) ==> double_is_finite(
                        z,
                    ) ==> loc.z == Some(z)
                    &&& document.fields["hae"@] matches FieldModel::Number { double, .. }
                        ==> loc.z == Some(double)
                    &&& document.fields["hae"@] matches FieldModel::Single(z) ==> single_is_finite(
                        z,
                    ) ==> loc.z is Some && same_number(z, loc.z->0)
                }
                &&& !document.fields.dom().contains("hae"@) ==> loc.z is None
            }
            &&& dr.classification@.len() <= 1
            &&& dr.classification@.len() == 1 <==> document.fields.dom().contains(
                "sapient_classification"@,
            ) && document.fields["sapient_classification"@] is Text
            &&& dr.classification@.len() == 1 ==> {
                let class = dr.classification@[0];
                let sure = "sapient_confidence"@;
                &&& class.type_label is Some
                &&& document.fields["sapient_classification"@] == FieldModel::Text(
                    class.type_label->0@,
                )
                &&& !document.fields.dom().contains(sure) ==> class.confidence is None
                &&& document.fields.dom().contains(sure) ==> {
                    &&& document.fields[sure] matches FieldModel::Single(c) ==> single_is_finite(c)
                        ==> class.confidence == Some(c)
                    &&& document.fields[sure] matches FieldModel::Number { single, .. }
                        ==> class.confidence == Some(single)
                }
            }
        },
{
}

/// Registrations and status reports become documents of their node, a detection
/// becomes the document of its object, and nothing else becomes a document. Only
/// a detection can fail.
pub proof fn law_messages_become_documents_of_their_subject<
    P: Fn(PositionPlan) -> Coordinates,
    V: Fn(EnuRates) -> Velocity,
>(
    geodesy: Geodesy<P, V>,
    msg: SapientMessage,
    before: Map<Seq<char>, TrackPosition>,
    after: Map<Seq<char>, TrackPosition>,
    document: Result<Option<DocumentModel>, ErrorModel>,
)
    requires
        is_translation(geodesy, msg, before, after, document),
    ensures
        ({
            let sender = if msg.node_id is Some {
                msg.node_id->0@
            } else {
                Seq::<char>::empty()
            };
            match msg.content {
                Some(Content::Registration(_)) => document matches Ok(Some(d)) && d.id == Some(
                    sender,
                ) && !d.fields.dom().contains("lat"@) && !d.fields.dom().contains("health"@)
                    && d.fields.dom().contains("operational_status"@)
                    && d.fields["operational_status"@] == FieldModel::Text("ready"@),
                Some(Content::StatusReport(_)) => document matches Ok(Some(d)) && d.id == Some(
                    sender,
                ) && d.fields.dom().contains("health"@),
                Some(Content::DetectionReport(dr)) => match document {
                    Ok(Some(d)) => {
                        &&& dr.object_id matches Some(id) ==> d.id == Some(id@)
                        &&& dr.object_id is None ==> d.id == Some(Seq::<char>::empty())
                        &&& d.fields.dom().contains("sapient_source_node_id"@) <==> sender.len() > 0
                        &&& sender.len() > 0 ==> d.fields["sapient_source_node_id"@]
                            == FieldModel::Text(sender)
                    },
                    Ok(None) => false,
                    Err(_) => true,
                },
                _ => document == Ok::<Option<DocumentModel>, ErrorModel>(None),
            }
        }),
{
    match msg.content {
        Some(Content::Registration(reg)) => {
            let advertisement = registered(text_or_empty(msg.node_id), reg);
            law_platform_position_is_kept(advertisement, None);
            law_platform_says_how_the_node_is(advertisement, None);
        },
        Some(Content::StatusReport(sr)) => {
            let (state, position) = choose|
                state: NodeStateModel,
                position: Option<TrackPosition>,
            |
                {
                    &&& #[trigger] is_state_of(geodesy, sr, state)
                    &&& #[trigger] is_kept_position(geodesy, state.position, position)
                    &&& after == match position {
                        Some(p) => before.insert(text_or_empty(msg.node_id), p),
                        None => before,
                    }
                    &&& document == Ok::<Option<DocumentModel>, ErrorModel>(
                        Some(
                            platform_document(
                                change_or_bare(
                                    capability_change(text_or_empty(msg.node_id), sr),
                                    text_or_empty(msg.node_id),
                                ),
                                Some(state),
                            ),
                        ),
                    )
                };
            law_platform_says_how_the_node_is(
                change_or_bare(
                    capability_change(text_or_empty(msg.node_id), sr),
                    text_or_empty(msg.node_id),
                ),
                Some(state),
            );
        },
        Some(Content::DetectionReport(dr)) => {
            if document is Ok && document->Ok_0 is Some {
                let node_id = text_or_empty(msg.node_id);
                let track = choose|track: TrackModel| #[trigger]
                    is_track_of(geodesy, node_id, cached(before, node_id), dr, track)
                        && document->Ok_0->0 == track_document(track);
                law_track_source_is_kept(track);
            }
        },
        _ => {},
    }
}

/// A status report in degrees is published at the place that it gives, and that
/// place is remembered for its node and for no other; a report that gives none
/// leaves what is remembered.
pub proof fn law_reported_place_is_published_and_remembered<
    P: Fn(PositionPlan) -> Coordinates,
    V: Fn(EnuRates) -> Velocity,
>(
    geodesy: Geodesy<P, V>,
    msg: SapientMessage,
    sr: StatusReport,
    before: Map<Seq<char>, TrackPosition>,
    after: Map<Seq<char>, TrackPosition>,
    document: Result<Option<DocumentModel>, ErrorModel>,
)
    requires
        is_translation(geodesy, msg, before, after, document),
        msg.content == Some(Content::StatusReport(sr)),
        msg.node_id is Some,
    ensures
        document is Ok && document->Ok_0 is Some,
        ({
            let fields = document->Ok_0->0.fields;
            let loc = sr.node_location->0;
            let node_id = msg.node_id->0@;
            let placed = sr.node_location is Some && loc.x is Some && loc.y is Some && (
            loc.coordinate_system == Some(WireEnum::Known(LocationCoordinateSystem::LatLngDegM))
                || loc.coordinate_system == Some(
                WireEnum::Known(LocationCoordinateSystem::LatLngRadM),
            ));
            &&& fields.dom().contains("lat"@) <==> placed
            &&& fields.dom().contains("lon"@) <==> placed
            &&& !placed ==> after == before
            &&& placed ==> after.dom().contains(node_id)
            &&& forall|other: Seq<char>|
                other != node_id ==> #[trigger] cached(after, other) == cached(before, other)
            &&& placed && loc.coordinate_system == Some(
                WireEnum::Known(LocationCoordinateSystem::LatLngDegM),
            ) ==> {
                &&& fields["lat"@] == FieldModel::Double(loc.y->0)
                &&& fields["lon"@] == FieldModel::Double(loc.x->0)
                &&& after[node_id].latitude == loc.y->0
                &&& after[node_id].longitude == loc.x->0
            }
        }),
{
    let node_id = msg.node_id->0@;
    let (state, position) = choose|state: NodeStateModel, position: Option<TrackPosition>|
        {
            &&& #[trigger] is_state_of(geodesy, sr, state)
            &&& #[trigger] is_kept_position(geodesy, state.position, position)
            &&& after == match position {
                Some(p) => before.insert(node_id, p),
                None => before,
            }
            &&& document == Ok::<Option<DocumentModel>, ErrorModel>(
                Some(
                    platform_document(
                        change_or_bare(capability_change(node_id, sr), node_id),
                        Some(state),
                    ),
                ),
            )
        };
    law_platform_position_is_kept(
        change_or_bare(capability_change(node_id, sr), node_id),
        Some(state),
    );
    law_node_is_where_it_reports(geodesy, sr, state);
}

/// The document of a status report says how its node is: the health follows from
/// the state of the system, and so does the operational status, which is left out
/// of a mere heartbeat and where the state is not a known one. It names no
/// capabilities.
pub proof fn law_status_document_follows_the_system<
    P: Fn(PositionPlan) -> Coordinates,
    V: Fn(EnuRates) -> Velocity,
>(geodesy: Geodesy<P, V>, node_id: Seq<char>, sr: StatusReport, state: NodeStateModel)
    requires
        is_state_of(geodesy, sr, state),
    ensures
        ({
            let d = platform_document(
                change_or_bare(capability_change(node_id, sr), node_id),
                Some(state),
            );
            let telling = sr.field_of_view is Some || sr.mode is Some;
            let okay = sr.system == Some(WireEnum::Known(System::Okay));
            let warning = sr.system == Some(WireEnum::Known(System::Warning));
            let error = sr.system == Some(WireEnum::Known(System::Error));
            let goodbye = sr.system == Some(WireEnum::Known(System::Goodbye));
            &&& d.id == Some(node_id)
            &&& d.fields.dom().contains("health"@)
            &&& okay ==> d.fields["health"@] == FieldModel::Text("nominal"@)
            &&& warning ==> d.fields["health"@] == FieldModel::Text("degraded"@)
            &&& error ==> d.fields["health"@] == FieldModel::Text("critical"@)
            &&& goodbye ==> d.fields["health"@] == FieldModel::Text("failed"@)
            &&& !okay && !warning && !error && !goodbye ==> d.fields["health"@]
                == FieldModel::Text("unspecified"@)
            &&& d.fields.dom().contains("operational_status"@) <==> telling && (okay || warning
                || error || goodbye)
            &&& telling && okay ==> d.fields["operational_status"@] == FieldModel::Text("ready"@)
            &&& telling && warning ==> d.fields["operational_status"@] == FieldModel::Text(
                "degraded"@,
            )
            &&& telling && (error || goodbye) ==> d.fields["operational_status"@]
                == FieldModel::Text("offline"@)
            &&& !d.fields.dom().contains("capabilities"@)
            &&& d.fields.dom().contains("phase"@) && d.fields["phase"@] == FieldModel::Text(
                "hierarchy"@,
            )
        }),
{
    law_platform_says_how_the_node_is(
        change_or_bare(capability_change(node_id, sr), node_id),
        Some(state),
    );
}

} // verus!
