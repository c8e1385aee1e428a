//! Flat projections of tracks and platforms into the fields of mesh documents.
//!
//! Field names follow the conventions that other translators of the same
//! collections use (`lat`, `lon`, `hae`, `timestamp_ms`), so that they can read
//! each other's documents. `timestamp_ms` is milliseconds since the Unix epoch,
//! signed.

use crate::clock::{wrap_i64, wrapped_i64};
use crate::schema::{
    known_or, AdvertisementModel, CapabilityAdvertisement, CapabilityModel, HealthStatus,
    NodeState, NodeStateModel, OperationalStatus, Phase, Timestamp, Track, TrackModel, WireEnum,
};
use crate::string_map::StringMap;
use crate::text::texts;
use vstd::prelude::*;

verus! {

/// A value of a document's field.
#[derive(Clone, Debug, PartialEq, Eq)]
pub enum FieldValue {
    Text(String),
    TextList(Vec<String>),
    /// A real number to be written, double precision bits.
    Double(u64),
    /// A real number to be written, single precision bits.
    Single(u32),
    /// A number as it is read from a document, in either precision.
    Number { double: u64, single: u32 },
    Integer(i64),
    Flag(bool),
}

/// What a [`FieldValue`] says.
#[verifier::ext_equal]
pub enum FieldModel {
    Text(Seq<char>),
    TextList(Seq<Seq<char>>),
    Double(u64),
    Single(u32),
    Number { double: u64, single: u32 },
    Integer(int),
    Flag(bool),
}

impl View for FieldValue {
    type V = FieldModel;

    open spec fn view(&self) -> FieldModel {
        match *self {
            FieldValue::Text(text) => FieldModel::Text(text@),
            FieldValue::TextList(list) => FieldModel::TextList(texts(list@)),
            FieldValue::Double(bits) => FieldModel::Double(bits),
            FieldValue::Single(bits) => FieldModel::Single(bits),
            FieldValue::Number { double, single } => FieldModel::Number { double, single },
            FieldValue::Integer(n) => FieldModel::Integer(n as int),
            FieldValue::Flag(flag) => FieldModel::Flag(flag),
        }
    }
}

/// The fields of a document by their names.
pub struct Fields {
    values: StringMap<FieldValue>,
}

impl View for Fields {
    type V = Map<Seq<char>, FieldModel>;

    closed spec fn view(&self) -> Map<Seq<char>, FieldModel> {
        self.values@.map_values(|v: FieldValue| v@)
    }
}

impl Fields {
    /// No name occurs twice.
    pub closed spec fn wf(&self) -> bool {
        self.values.wf()
    }

    /// The names, in the order in which the fields are held.
    pub closed spec fn names(&self) -> Seq<Seq<char>> {
        self.values.keys()
    }

    /// The names are those of the fields, each once.
    pub proof fn law_names_are_the_fields(&self)
        requires
            self.wf(),
        ensures
            self.names().no_duplicates(),
            self.names().to_set() == self@.dom(),
    {
        self.values.lemma_keys();
        assert(self@.dom() =~= self.values@.dom());
        assert forall|name: Seq<char>| #[trigger] self.names().to_set().contains(name)
            == self@.dom().contains(name) by {
            assert(self.values@.dom().contains(name) <==> self.values.keys().contains(name));
        }
        assert(self.names().to_set() =~= self@.dom());
    }

    /// No fields.
    pub fn new() -> (fields: Self)
        ensures
            fields.wf(),
            fields@ == no_fields(),
    {
        let fields = Fields { values: StringMap::new() };
        assert(fields@ =~= no_fields());
        fields
    }

    /// Sets a field.
    pub fn set(&mut self, name: &str, value: FieldValue)
        requires
            old(self).wf(),
        ensures
            final(self).wf(),
            final(self)@ == old(self)@.insert(name@, value@),
    {
        self.values.insert(name, value);
        assert(self@ =~= old(self)@.insert(name@, value@));
    }

    /// The value of a field.
    pub fn get(&self, name: &str) -> (value: Option<&FieldValue>)
        requires
            self.wf(),
        ensures
            match value {
                Some(v) => self@.dom().contains(name@) && self@[name@] == v@,
                None => !self@.dom().contains(name@),
            },
    {
        self.values.get(name)
    }

    /// The number of fields.
    pub fn len(&self) -> (n: usize)
        ensures
            n == self.names().len(),
    {
        self.values.len()
    }

    /// The field at a place of the list of names.
    pub fn field_at(&self, i: usize) -> (field: (&String, &FieldValue))
        requires
            self.wf(),
            i < self.names().len(),
        ensures
            field.0@ == self.names()[i as int],
            self@.dom().contains(field.0@),
            self@[field.0@] == field.1@,
    {
        self.values.entry_at(i)
    }
}

/// No fields.
pub open spec fn no_fields() -> Map<Seq<char>, FieldModel> {
    Map::empty()
}

/// Whether bits are a single precision zero, of either sign.
pub open spec fn is_single_zero(bits: u32) -> bool {
    bits == 0 || bits == 0x8000_0000
}

/// Whether bits are a double precision zero, of either sign.
pub open spec fn is_double_zero(bits: u64) -> bool {
    bits == 0 || bits == 0x8000_0000_0000_0000
}

/// Milliseconds since the Unix epoch; the seconds saturate.
pub open spec fn epoch_millis(t: Timestamp) -> int {
    (if t.seconds * 1000 <= u64::MAX {
        t.seconds * 1000
    } else {
        u64::MAX as int
    }) + t.nanos / 1_000_000
}

/// Whether the milliseconds of a timestamp fit in 64 bits.
pub open spec fn millis_fit(t: Option<Timestamp>) -> bool {
    match t {
        Some(t) => epoch_millis(t) <= u64::MAX,
        None => true,
    }
}

/// The fields with one more where a condition holds.
pub open spec fn with_field(
    fields: Map<Seq<char>, FieldModel>,
    condition: bool,
    name: Seq<char>,
    value: FieldModel,
) -> Map<Seq<char>, FieldModel> {
    if condition {
        fields.insert(name, value)
    } else {
        fields
    }
}

/// The fields of a track's position.
pub open spec fn track_position_fields(track: TrackModel) -> Map<Seq<char>, FieldModel> {
    match track.position {
        Some(p) => with_field(
            no_fields().insert("lat"@, FieldModel::Double(p.latitude)).insert(
                "lon"@,
                FieldModel::Double(p.longitude),
            ),
            !is_single_zero(p.altitude),
            "hae"@,
            FieldModel::Single(p.altitude),
        ),
        None => no_fields(),
    }
}

/// The fields of a track's document.
///
/// The track's affiliation is not among them: a sensor does not know it.
pub open spec fn track_fields(track: TrackModel) -> Map<Seq<char>, FieldModel> {
    let timed = match track.last_seen {
        Some(t) => track_position_fields(track).insert(
            "timestamp_ms"@,
            FieldModel::Integer(wrapped_i64(epoch_millis(t))),
        ),
        None => track_position_fields(track),
    };
    let classified = with_field(
        timed,
        track.classification.len() > 0,
        "sapient_classification"@,
        FieldModel::Text(track.classification),
    ).insert("sapient_confidence"@, FieldModel::Single(track.confidence));
    match track.source {
        Some(source) => with_field(
            classified,
            source.node_id.len() > 0,
            "sapient_source_node_id"@,
            FieldModel::Text(source.node_id),
        ),
        None => classified,
    }
}

/// The names of capabilities.
pub open spec fn capability_names(capabilities: Seq<CapabilityModel>) -> Seq<Seq<char>> {
    capabilities.map_values(|c: CapabilityModel| c.name)
}

/// The word for an operational status.
pub open spec fn operational_status_word(status: OperationalStatus) -> Seq<char> {
    match status {
        OperationalStatus::Unspecified => "unspecified"@,
        OperationalStatus::Ready => "ready"@,
        OperationalStatus::Active => "active"@,
        OperationalStatus::Degraded => "degraded"@,
        OperationalStatus::Offline => "offline"@,
        OperationalStatus::Maintenance => "maintenance"@,
    }
}

/// The word for a health status.
pub open spec fn health_status_word(health: HealthStatus) -> Seq<char> {
    match health {
        HealthStatus::Unspecified => "unspecified"@,
        HealthStatus::Nominal => "nominal"@,
        HealthStatus::Degraded => "degraded"@,
        HealthStatus::Critical => "critical"@,
        HealthStatus::Failed => "failed"@,
    }
}

/// The word for a phase.
pub open spec fn phase_word(phase: Phase) -> Seq<char> {
    match phase {
        Phase::Unspecified => "unspecified"@,
        Phase::Discovery => "discovery"@,
        Phase::Cell => "cell"@,
        Phase::Hierarchy => "hierarchy"@,
    }
}

/// The fields that an advertisement gives. A status that is unspecified is left
/// out, so that it does not overwrite one that is known.
pub open spec fn advertisement_fields(advertisement: AdvertisementModel) -> Map<
    Seq<char>,
    FieldModel,
> {
    let status = known_or(advertisement.operational_status, OperationalStatus::Unspecified);
    with_field(
        with_field(
            no_fields(),
            advertisement.capabilities.len() > 0,
            "capabilities"@,
            FieldModel::TextList(capability_names(advertisement.capabilities)),
        ),
        status != OperationalStatus::Unspecified,
        "operational_status"@,
        FieldModel::Text(operational_status_word(status)),
    )
}

/// The fields of a platform's document.
pub open spec fn platform_fields(
    advertisement: AdvertisementModel,
    state: Option<NodeStateModel>,
) -> Map<Seq<char>, FieldModel> {
    match state {
        Some(s) => {
            let stated = advertisement_fields(advertisement).insert(
                "health"@,
                FieldModel::Text(health_status_word(known_or(s.health, HealthStatus::Unspecified))),
            ).insert("phase"@, FieldModel::Text(phase_word(known_or(s.phase, Phase::Unspecified))));
            match s.position {
                Some(p) => with_field(
                    stated.insert("lat"@, FieldModel::Double(p.latitude)).insert(
                        "lon"@,
                        FieldModel::Double(p.longitude),
                    ),
                    !is_double_zero(p.altitude),
                    "hae"@,
                    FieldModel::Double(p.altitude),
                ),
                None => stated,
            }
        },
        None => advertisement_fields(advertisement),
    }
}

fn millis(t: &Timestamp) -> (ms: u64)
    requires
        epoch_millis(*t) <= u64::MAX,
    ensures
        ms == epoch_millis(*t),
{
    let whole: u128 = t.seconds as u128 * 1000;
    let seconds: u64 = if whole <= u64::MAX as u128 {
        whole as u64
    } else {
        u64::MAX
    };
    seconds + (t.nanos / 1_000_000) as u64
}

/// Projects a track into the identifier and the fields of its document.
pub fn track_to_fields(track: &Track) -> (document: (String, Fields))
    requires
        millis_fit(track.last_seen),
    ensures
        document.0@ == track.track_id@,
        document.1.wf(),
        document.1@ == track_fields(track@),
{
    let mut fields = Fields::new();
    if let Some(p) = &track.position {
        fields.set("lat", FieldValue::Double(p.latitude));
        fields.set("lon", FieldValue::Double(p.longitude));
        if !(p.altitude == 0 || p.altitude == 0x8000_0000) {
            fields.set("hae", FieldValue::Single(p.altitude));
        }
    }
    if let Some(t) = &track.last_seen {
        let ms = millis(t);
        fields.set("timestamp_ms", FieldValue::Integer(wrap_i64(ms)));
    }
    if !track.classification.as_str().is_empty() {
        fields.set("sapient_classification", FieldValue::Text(track.classification.clone()));
    }
    fields.set("sapient_confidence", FieldValue::Single(track.confidence));
    if let Some(source) = &track.source {
        if !source.node_id.as_str().is_empty() {
            fields.set("sapient_source_node_id", FieldValue::Text(source.node_id.clone()));
        }
    }
    (track.track_id.clone(), fields)
}

/// The word for an operational status.
pub fn operational_status_str(status: OperationalStatus) -> (word: &'static str)
    ensures
        word@ == operational_status_word(status),
{
    match status {
        OperationalStatus::Unspecified => "unspecified",
        OperationalStatus::Ready => "ready",
        OperationalStatus::Active => "active",
        OperationalStatus::Degraded => "degraded",
        OperationalStatus::Offline => "offline",
        OperationalStatus::Maintenance => "maintenance",
    }
}

/// The word for a health status.
pub fn health_status_str(health: HealthStatus) -> (word: &'static str)
    ensures
        word@ == health_status_word(health),
{
    match health {
        HealthStatus::Unspecified => "unspecified",
        HealthStatus::Nominal => "nominal",
        HealthStatus::Degraded => "degraded",
        HealthStatus::Critical => "critical",
        HealthStatus::Failed => "failed",
    }
}

/// The word for a phase.
pub fn phase_str(phase: Phase) -> (word: &'static str)
    ensures
        word@ == phase_word(phase),
{
    match phase {
        Phase::Unspecified => "unspecified",
        Phase::Discovery => "discovery",
        Phase::Cell => "cell",
        Phase::Hierarchy => "hierarchy",
    }
}

fn names(advertisement: &CapabilityAdvertisement) -> (list: Vec<String>)
    ensures
        texts(list@) == capability_names(advertisement@.capabilities),
{
    let mut list: Vec<String> = Vec::new();
    let ghost all = capability_names(advertisement@.capabilities);
    let mut i: usize = 0;
    assert(texts(list@) =~= all.take(0));
    while i < advertisement.capabilities.len()
        invariant
            i <= advertisement.capabilities@.len(),
            all == capability_names(advertisement@.capabilities),
            texts(list@) == all.take(i as int),
        decreases advertisement.capabilities@.len() - i,
    {
        let ghost before = list@;
        list.push(advertisement.capabilities[i].name.clone());
        proof {
            assert(texts(list@) =~= texts(before).push(all[i as int]));
            assert(all.take(i as int).push(all[i as int]) =~= all.take(i + 1));
        }
        i = i + 1;
    }
    assert(all.take(all.len() as int) =~= all);
    list
}

/// Projects an advertisement, and the state of the node where it is known, into
/// the identifier and the fields of the platform's document.
pub fn platform_to_fields(advertisement: &CapabilityAdvertisement, state: Option<&NodeState>) -> (
document: (String, Fields))
    ensures
        document.0@ == advertisement.node_id@,
        document.1.wf(),
        document.1@ == platform_fields(advertisement@, state_option(state)),
{
    let mut fields = Fields::new();
    let list = names(advertisement);
    if !list.is_empty() {
        assert(texts(list@).len() == advertisement@.capabilities.len());
        fields.set("capabilities", FieldValue::TextList(list));
    } else {
        assert(texts(list@).len() == advertisement@.capabilities.len());
    }
    let status = match advertisement.operational_status {
        WireEnum::Known(status) => status,
        WireEnum::Unknown(_) => OperationalStatus::Unspecified,
    };
    if status != OperationalStatus::Unspecified {
        let word = operational_status_str(status).to_owned();
        fields.set("operational_status", FieldValue::Text(word));
    }
    if let Some(s) = state {
        let health = match s.health {
            WireEnum::Known(health) => health,
            WireEnum::Unknown(_) => HealthStatus::Unspecified,
        };
        let phase = match s.phase {
            WireEnum::Known(phase) => phase,
            WireEnum::Unknown(_) => Phase::Unspecified,
        };
        let health_word = health_status_str(health).to_owned();
        fields.set("health", FieldValue::Text(health_word));
        let phase_word = phase_str(phase).to_owned();
        fields.set("phase", FieldValue::Text(phase_word));
        if let Some(p) = &s.position {
            fields.set("lat", FieldValue::Double(p.latitude));
            fields.set("lon", FieldValue::Double(p.longitude));
            if !(p.altitude == 0 || p.altitude == 0x8000_0000_0000_0000) {
                fields.set("hae", FieldValue::Double(p.altitude));
            }
        }
    }
    (advertisement.node_id.clone(), fields)
}

/// The contents of an optional state.
pub open spec fn state_option(state: Option<&NodeState>) -> Option<NodeStateModel> {
    match state {
        Some(s) => Some(s@),
        None => None,
    }
}

/// A document after an update has been merged into it field by field, the later
/// value winning.
pub open spec fn merged(
    document: Map<Seq<char>, FieldModel>,
    update: Map<Seq<char>, FieldModel>,
) -> Map<Seq<char>, FieldModel> {
    document.union_prefer_right(update)
}

proof fn lemma_field_names()
    ensures
        "operational_status"@ != "health"@,
        "operational_status"@ != "phase"@,
        "operational_status"@ != "lat"@,
        "operational_status"@ != "lon"@,
        "operational_status"@ != "hae"@,
        "capabilities"@ != "operational_status"@,
        "capabilities"@ != "health"@,
        "capabilities"@ != "phase"@,
        "capabilities"@ != "lat"@,
        "capabilities"@ != "lon"@,
        "capabilities"@ != "hae"@,
        "lat"@ != "lon"@,
        "lat"@ != "hae"@,
        "lon"@ != "hae"@,
        "lat"@ != "timestamp_ms"@,
        "lon"@ != "timestamp_ms"@,
        "lat"@ != "sapient_classification"@,
        "lon"@ != "sapient_classification"@,
        "lat"@ != "sapient_confidence"@,
        "lon"@ != "sapient_confidence"@,
        "lat"@ != "sapient_source_node_id"@,
        "lon"@ != "sapient_source_node_id"@,
        "hae"@ != "timestamp_ms"@,
        "hae"@ != "sapient_confidence"@,
        "hae"@ != "sapient_source_node_id"@,
        "sapient_classification"@ != "sapient_confidence"@,
        "sapient_classification"@ != "sapient_source_node_id"@,
        "sapient_classification"@ != "hae"@,
        "sapient_classification"@ != "timestamp_ms"@,
        "sapient_confidence"@ != "sapient_source_node_id"@,
        "cot_type"@ != "lat"@,
        "cot_type"@ != "lon"@,
        "cot_type"@ != "hae"@,
        "cot_type"@ != "timestamp_ms"@,
        "cot_type"@ != "sapient_classification"@,
        "cot_type"@ != "sapient_confidence"@,
        "cot_type"@ != "sapient_source_node_id"@,
        "health"@ != "phase"@,
        "health"@ != "lat"@,
        "health"@ != "lon"@,
        "health"@ != "hae"@,
        "phase"@ != "lat"@,
        "phase"@ != "lon"@,
        "phase"@ != "hae"@,
        "timestamp_ms"@ != "sapient_confidence"@,
        "timestamp_ms"@ != "sapient_source_node_id"@,
{
    reveal_strlit("operational_status");
    reveal_strlit("capabilities");
    reveal_strlit("health");
    reveal_strlit("phase");
    reveal_strlit("lat");
    reveal_strlit("lon");
    reveal_strlit("hae");
    reveal_strlit("timestamp_ms");
    reveal_strlit("sapient_classification");
    reveal_strlit("sapient_confidence");
    reveal_strlit("sapient_source_node_id");
    reveal_strlit("cot_type");
    assert("operational_status"@.len() == 18);
    assert("capabilities"@.len() == 12);
    assert("health"@.len() == 6);
    assert("phase"@.len() == 5);
    assert("lat"@.len() == 3);
    assert("lon"@.len() == 3);
    assert("hae"@.len() == 3);
    assert("timestamp_ms"@.len() == 12);
    assert("sapient_classification"@.len() == 22);
    assert("sapient_confidence"@.len() == 18);
    assert("sapient_source_node_id"@.len() == 22);
    assert("cot_type"@.len() == 8);
    assert("lat"@[1] == 'a' && "lon"@[1] == 'o');
    assert("lat"@[0] == 'l' && "lon"@[0] == 'l' && "hae"@[0] == 'h');
    assert("sapient_classification"@[8] == 'c' && "sapient_source_node_id"@[8] == 's');
}

/// A heartbeat does not overwrite what a registration set: merging the document
/// of a node that advertises no status and no capabilities keeps both fields.
pub proof fn law_heartbeat_keeps_known_status(
    document: Map<Seq<char>, FieldModel>,
    advertisement: AdvertisementModel,
    state: Option<NodeStateModel>,
)
    requires
        known_or(advertisement.operational_status, OperationalStatus::Unspecified)
            == OperationalStatus::Unspecified,
        advertisement.capabilities.len() == 0,
    ensures
        ({
            let after = merged(document, platform_fields(advertisement, state));
            &&& after.dom().contains("operational_status"@) == document.dom().contains(
                "operational_status"@,
            )
            &&& document.dom().contains("operational_status"@) ==> after["operational_status"@]
                == document["operational_status"@]
            &&& after.dom().contains("capabilities"@) == document.dom().contains("capabilities"@)
            &&& document.dom().contains("capabilities"@) ==> after["capabilities"@]
                == document["capabilities"@]
        }),
{
    lemma_field_names();
}

/// A track's document says nothing of the track's affiliation.
pub proof fn law_affiliation_is_not_guessed(track: TrackModel)
    ensures
        !track_fields(track).dom().contains("cot_type"@),
{
    lemma_field_names();
}

/// A track's document gives its position unchanged; an altitude of zero is left
/// out.
pub proof fn law_track_position_is_kept(track: TrackModel)
    requires
        track.position is Some,
    ensures
        track_fields(track).dom().contains("lat"@),
        track_fields(track)["lat"@] == FieldModel::Double(track.position->0.latitude),
        track_fields(track).dom().contains("lon"@),
        track_fields(track)["lon"@] == FieldModel::Double(track.position->0.longitude),
        track_fields(track).dom().contains("hae"@) <==> !is_single_zero(
            track.position->0.altitude,
        ),
        !is_single_zero(track.position->0.altitude) ==> track_fields(track)["hae"@]
            == FieldModel::Single(track.position->0.altitude),
{
    lemma_field_names();
}

/// A track's document gives its classification and confidence unchanged; an
/// empty classification is left out.
pub proof fn law_track_classification_is_kept(track: TrackModel)
    ensures
        track_fields(track).dom().contains("sapient_classification"@)
            <==> track.classification.len() > 0,
        track.classification.len() > 0 ==> track_fields(track)["sapient_classification"@]
            == FieldModel::Text(track.classification),
        track_fields(track).dom().contains("sapient_confidence"@),
        track_fields(track)["sapient_confidence"@] == FieldModel::Single(track.confidence),
{
    lemma_field_names();
}

/// A platform's document gives the position of its node unchanged: the latitude
/// under `lat`, the longitude under `lon`, and the altitude under `hae` unless it
/// is zero. Without a position it has none of these fields.
pub proof fn law_platform_position_is_kept(
    advertisement: AdvertisementModel,
    state: Option<NodeStateModel>,
)
    ensures
        ({
            let fields = platform_fields(advertisement, state);
            let placed = state is Some && state->0.position is Some;
            let p = state->0.position->0;
            let high = p.altitude != 0 && p.altitude != 0x8000_0000_0000_0000;
            &&& fields.dom().contains("lat"@) <==> placed
            &&& fields.dom().contains("lon"@) <==> placed
            &&& fields.dom().contains("hae"@) <==> placed && high
            &&& placed ==> fields["lat"@] == FieldModel::Double(p.latitude)
            &&& placed ==> fields["lon"@] == FieldModel::Double(p.longitude)
            &&& placed && high ==> fields["hae"@] == FieldModel::Double(p.altitude)
        }),
{
    lemma_field_names();
}

/// A platform's document says how its node is: its health and phase where the
/// state is known, its operational status where that is specified, and the names
/// of its capabilities, in their order, where it has any.
pub proof fn law_platform_says_how_the_node_is(
    advertisement: AdvertisementModel,
    state: Option<NodeStateModel>,
)
    ensures
        ({
            let fields = platform_fields(advertisement, state);
            let names = advertisement.capabilities;
            &&& fields.dom().contains("health"@) <==> state is Some
            &&& fields.dom().contains("phase"@) <==> state is Some
            &&& state matches Some(s) ==> {
                &&& s.health matches WireEnum::Known(h) ==> fields["health"@] == FieldModel::Text(
                    health_status_word(h),
                )
                &&& s.health is Unknown ==> fields["health"@] == FieldModel::Text("unspecified"@)
                &&& s.phase matches WireEnum::Known(p) ==> fields["phase"@] == FieldModel::Text(
                    phase_word(p),
                )
                &&& s.phase is Unknown ==> fields["phase"@] == FieldModel::Text("unspecified"@)
            }
            &&& fields.dom().contains("operational_status"@) <==> {
                &&& advertisement.operational_status is Known
                &&& advertisement.operational_status != WireEnum::Known(
                    OperationalStatus::Unspecified,
                )
            }
            &&& advertisement.operational_status matches WireEnum::Known(status) ==> status
                != OperationalStatus::Unspecified ==> fields["operational_status"@]
                == FieldModel::Text(operational_status_word(status))
            &&& fields.dom().contains("capabilities"@) <==> names.len() > 0
            &&& names.len() > 0 ==> {
                &&& fields["capabilities"@] matches FieldModel::TextList(list)
                &&& list.len() == names.len()
                &&& forall|i: int| 0 <= i < names.len() ==> #[trigger] list[i] == names[i].name
            }
        }),
{
    lemma_field_names();
}

/// The words of a document are those of the statuses that they stand for.
pub proof fn law_words_are_those_of_the_statuses()
    ensures
        operational_status_word(OperationalStatus::Unspecified) == "unspecified"@,
        operational_status_word(OperationalStatus::Ready) == "ready"@,
        operational_status_word(OperationalStatus::Active) == "active"@,
        operational_status_word(OperationalStatus::Degraded) == "degraded"@,
        operational_status_word(OperationalStatus::Offline) == "offline"@,
        operational_status_word(OperationalStatus::Maintenance) == "maintenance"@,
        health_status_word(HealthStatus::Unspecified) == "unspecified"@,
        health_status_word(HealthStatus::Nominal) == "nominal"@,
        health_status_word(HealthStatus::Degraded) == "degraded"@,
        health_status_word(HealthStatus::Critical) == "critical"@,
        health_status_word(HealthStatus::Failed) == "failed"@,
        phase_word(Phase::Unspecified) == "unspecified"@,
        phase_word(Phase::Discovery) == "discovery"@,
        phase_word(Phase::Cell) == "cell"@,
        phase_word(Phase::Hierarchy) == "hierarchy"@,
{
}

/// A document has no other fields than these.
pub proof fn law_documents_have_no_other_fields(
    track: TrackModel,
    advertisement: AdvertisementModel,
    state: Option<NodeStateModel>,
    name: Seq<char>,
)
    ensures
        track_fields(track).dom().contains(name) ==> {
            ||| name == "lat"@ || name == "lon"@ || name == "hae"@
            ||| name == "timestamp_ms"@
            ||| name == "sapient_classification"@ || name == "sapient_confidence"@
            ||| name == "sapient_source_node_id"@
        },
        platform_fields(advertisement, state).dom().contains(name) ==> {
            ||| name == "lat"@ || name == "lon"@ || name == "hae"@
            ||| name == "health"@ || name == "phase"@
            ||| name == "operational_status"@ || name == "capabilities"@
        },
{
}

/// A track without a position has no position in its document; an altitude counts
/// as zero whatever its sign.
pub proof fn law_track_without_position_has_none(track: TrackModel)
    ensures
        track.position is None ==> !track_fields(track).dom().contains("lat"@) && !track_fields(
            track,
        ).dom().contains("lon"@) && !track_fields(track).dom().contains("hae"@),
        track.position matches Some(p) ==> (track_fields(track).dom().contains("hae"@)
            <==> p.altitude != 0 && p.altitude != 0x8000_0000),
{
    lemma_field_names();
}

/// A track's document names the node that the track came from, where it came from
/// a named one.
pub proof fn law_track_source_is_kept(track: TrackModel)
    ensures
        track_fields(track).dom().contains("sapient_source_node_id"@) <==> track.source is Some
            && track.source->0.node_id.len() > 0,
        track.source is Some && track.source->0.node_id.len() > 0 ==> track_fields(
            track,
        )["sapient_source_node_id"@] == FieldModel::Text(track.source->0.node_id),
{
    lemma_field_names();
}

/// A track's document gives when the track was last seen, in milliseconds since
/// the Unix epoch with fractions cut off, as long as 63 bits hold them.
pub proof fn law_track_time_is_kept(track: TrackModel)
    ensures
        track_fields(track).dom().contains("timestamp_ms"@) <==> track.last_seen is Some,
        track.last_seen matches Some(t) ==> {
            let ms = t.seconds * 1000 + t.nanos as int / 1_000_000;
            ms <= i64::MAX ==> track_fields(track)["timestamp_ms"@] == FieldModel::Integer(ms)
        },
{
    lemma_field_names();
}

/// The milliseconds of a timestamp are those of its seconds and of its whole
/// milliseconds of nanoseconds; seconds too many for 64 bits count as the largest
/// number that those hold.
pub proof fn law_milliseconds_count_from_the_epoch(t: Timestamp)
    ensures
        t.seconds <= 18_446_744_073_709_551 ==> {
            &&& epoch_millis(t) * 1_000_000 <= t.seconds * 1_000_000_000 + t.nanos
            &&& t.seconds * 1_000_000_000 + t.nanos < (epoch_millis(t) + 1) * 1_000_000
        },
        t.seconds > 18_446_744_073_709_551 ==> {
            &&& u64::MAX <= epoch_millis(t)
            &&& (epoch_millis(t) - u64::MAX) * 1_000_000 <= t.nanos < (epoch_millis(t) - u64::MAX
                + 1) * 1_000_000
        },
        millis_fit(Some(t)) <==> epoch_millis(t) <= u64::MAX,
        millis_fit(None),
{
}

} // verus!
