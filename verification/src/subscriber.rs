//! What of the bridge's updates is published to the mesh.

use crate::bridge::{SapientUpdate, UpdateModel};
use crate::mesh_fields::{
    law_platform_position_is_kept, law_platform_says_how_the_node_is, law_track_position_is_kept,
    millis_fit, platform_to_fields, track_to_fields, FieldModel,
};
use crate::schema::CapabilityAdvertisement;
use crate::text::same_text;
use crate::translator::{
    change_or_bare, name_option, platform_document, track_document, Document, DocumentModel,
};
use vstd::prelude::*;

verus! {

/// A document for a collection of the mesh.
pub struct Publication {
    pub collection: &'static str,
    pub document: Document,
}

/// The origin under which documents are published.
pub fn origin() -> (name: &'static str)
    ensures
        name@ == "sapient"@,
{
    "sapient"
}

/// Whether a document of an origin is passed on to the SAPIENT side: all are but
/// those that came from there.
pub open spec fn is_passed_on(origin: Option<Seq<char>>) -> bool {
    origin != Some("sapient"@)
}

/// Whether a document of an origin is passed on to the SAPIENT side.
pub fn passes_on(document_origin: Option<&str>) -> (passes: bool)
    ensures
        passes == is_passed_on(name_option(document_origin)),
{
    match document_origin {
        Some(name) => !same_text(name, origin()),
        None => true,
    }
}

/// What an update is published as: registrations and status reports as
/// platforms, detections as tracks, and nothing else.
pub open spec fn published(update: UpdateModel) -> Option<(Seq<char>, DocumentModel)> {
    match update {
        UpdateModel::Registered { advertisement, .. } => Some(
            ("platforms"@, platform_document(advertisement, None)),
        ),
        UpdateModel::StatusUpdated { node_id, state, capability_delta } => Some(
            (
                "platforms"@,
                platform_document(change_or_bare(capability_delta, node_id), Some(state)),
            ),
        ),
        UpdateModel::Detected { track, .. } => Some(("tracks"@, track_document(track))),
        _ => None,
    }
}

/// Whether the times of an update can be published.
pub open spec fn is_publishable(update: SapientUpdate) -> bool {
    match update {
        SapientUpdate::Detected { track, .. } => millis_fit(track.last_seen),
        _ => true,
    }
}

/// The document that an update is published as, if it is published.
pub fn publication(update: &SapientUpdate) -> (publication: Option<Publication>)
    requires
        is_publishable(*update),
    ensures
        match publication {
            Some(p) => p.document.fields.wf() && published(update@) == Some(
                (p.collection@, p.document@),
            ),
            None => published(update@) is None,
        },
{
    match update {
        SapientUpdate::Registered { advertisement, .. } => {
            let (id, fields) = platform_to_fields(advertisement, None);
            let document = Document { id: Some(id), fields };
            assert(document@ =~= platform_document(advertisement@, None));
            Some(Publication { collection: "platforms", document })
        },
        SapientUpdate::StatusUpdated { node_id, state, capability_delta } => {
            let advertisement = match capability_delta {
                Some(delta) => delta.clone(),
                None => CapabilityAdvertisement::bare(node_id.as_str()),
            };
            let (id, fields) = platform_to_fields(&advertisement, Some(state));
            let document = Document { id: Some(id), fields };
            assert(document@ =~= platform_document(advertisement@, Some(state@)));
            Some(Publication { collection: "platforms", document })
        },
        SapientUpdate::Detected { track, .. } => {
            let (id, fields) = track_to_fields(track);
            let document = Document { id: Some(id), fields };
            assert(document@ =~= track_document(track@));
            Some(Publication { collection: "tracks", document })
        },
        _ => None,
    }
}

/// Registrations and status reports are published as platforms under the
/// identifier of their node, detections as tracks under that of their object, and
/// nothing else is published.
pub proof fn law_updates_are_published_under_their_subject(update: UpdateModel)
    ensures
        match update {
            UpdateModel::Registered { node_id, advertisement } => {
                &&& published(update) matches Some((collection, document))
                &&& collection == "platforms"@
                &&& document.id == Some(advertisement.node_id)
                &&& document == platform_document(advertisement, None)
            },
            UpdateModel::StatusUpdated { node_id, state, capability_delta } => {
                &&& published(update) matches Some((collection, document))
                &&& collection == "platforms"@
                &&& capability_delta matches Some(change) ==> document == platform_document(
                    change,
                    Some(state),
                )
                &&& capability_delta is None ==> document.id == Some(node_id)
                    && !document.fields.dom().contains("operational_status"@)
                    && !document.fields.dom().contains("capabilities"@)
                &&& state.position matches Some(p) ==> {
                    &&& document.fields.dom().contains("lat"@) && document.fields["lat"@]
                        == FieldModel::Double(p.latitude)
                    &&& document.fields.dom().contains("lon"@) && document.fields["lon"@]
                        == FieldModel::Double(p.longitude)
                }
            },
            UpdateModel::Detected { track, .. } => {
                &&& published(update) matches Some((collection, document))
                &&& collection == "tracks"@
                &&& document.id == Some(track.track_id)
                &&& document == track_document(track)
                &&& track.position matches Some(p) ==> {
                    &&& document.fields.dom().contains("lat"@) && document.fields["lat"@]
                        == FieldModel::Double(p.latitude)
                    &&& document.fields.dom().contains("lon"@) && document.fields["lon"@]
                        == FieldModel::Double(p.longitude)
                }
            },
            _ => published(update) is None,
        },
{
    match update {
        UpdateModel::StatusUpdated { node_id, state, capability_delta } => {
            let advertisement = change_or_bare(capability_delta, node_id);
            law_platform_position_is_kept(advertisement, Some(state));
            law_platform_says_how_the_node_is(advertisement, Some(state));
        },
        UpdateModel::Detected { track, .. } => {
            if track.position is Some {
                law_track_position_is_kept(track);
            }
        },
        _ => {},
    }
}

/// What came from the SAPIENT side is not sent back there, and everything else is
/// passed on.
pub proof fn law_only_echoes_are_held_back(origin: Seq<char>)
    ensures
        is_passed_on(Some(origin)) <==> origin != "sapient"@,
        is_passed_on(None),
{
}

} // verus!
