//! The peers of a SAPIENT transport.
//!
//! The topology is fixed: a manager listens and nodes connect to it, or a node
//! dials one configured manager. Connecting and disconnecting by name therefore
//! manage the record of a peer; there is no dialling by name.

use crate::error::{ErrorModel, SapientError};
use crate::geodesy::{Coordinates, EnuRates, Geodesy, PositionPlan};
use crate::proto::{Content, SapientMessage};
use crate::schema::Velocity;
use crate::string_map::StringMap;
use crate::subscriber::{is_passed_on, passes_on, Publication};
use crate::text::texts;
use crate::translator::{
    is_report_of, is_sendable, is_translation, name_option, Document, DocumentModel,
    SapientTranslator,
};
use vstd::prelude::*;

verus! {

/// Tag of the transport's type: `SP` in ASCII.
pub const SAPIENT_TRANSPORT_TYPE_TAG: u32 = 0x5350;

/// How a transport is wired into the SAPIENT topology.
#[derive(Clone, Debug, PartialEq, Eq)]
pub enum SapientRole {
    /// Accept connections of the nodes.
    Hldmm { listen_addr: String },
    /// Dial one manager; `peer_node_id` is the identity that the mesh gives it.
    Dlmm { remote_addr: String, peer_node_id: String },
}

/// What a transport can do.
#[derive(Clone, Copy, Debug, PartialEq, Eq, Structural)]
pub struct TransportCapabilities {
    pub transport_type_tag: u32,
    pub max_bandwidth_bps: u64,
    pub typical_latency_ms: u32,
    pub max_range_meters: u32,
    pub bidirectional: bool,
    pub reliable: bool,
    pub battery_impact: u8,
}

/// The record of a peer.
#[derive(Clone, Copy, Debug, PartialEq, Eq, Structural)]
pub struct PeerRecord {
    /// When the peer connected, in nanoseconds on the transport's clock.
    pub connected_at: u64,
    /// Whether its connection still delivers messages.
    pub alive: bool,
}

#[derive(Clone, Copy, Debug, PartialEq, Eq, Structural)]
pub enum DisconnectReason {
    /// The peer was disconnected on request.
    LocalClosed,
    /// The peer's connection was lost.
    RemoteClosed,
}

/// What happens to peers.
#[derive(Clone, Debug, PartialEq, Eq)]
pub enum PeerEvent {
    Connected { peer_id: String, connected_at: u64 },
    Disconnected { peer_id: String, reason: DisconnectReason, connection_duration: u64 },
}

#[derive(Clone, Debug, PartialEq, Eq)]
pub enum TransportError {
    PeerNotFound(String),
}

#[derive(Clone, Copy, Debug, PartialEq, Eq, Structural)]
pub enum ConnectionState {
    Healthy,
    Dead,
}

/// The collection that a message's document belongs to.
pub open spec fn collection_of(msg: SapientMessage) -> Option<Seq<char>> {
    match msg.content {
        Some(Content::DetectionReport(_)) => Some("tracks"@),
        Some(Content::Registration(_)) | Some(Content::StatusReport(_)) => Some("platforms"@),
        _ => None,
    }
}

/// `event` reports that a peer was disconnected at `now`.
pub open spec fn is_disconnection(
    event: PeerEvent,
    peer_id: Seq<char>,
    reason: DisconnectReason,
    record: PeerRecord,
    now: u64,
) -> bool {
    &&& event matches PeerEvent::Disconnected { peer_id: id, reason: why, connection_duration }
    &&& id@ == peer_id
    &&& why == reason
    &&& connection_duration == if now >= record.connected_at {
        now - record.connected_at
    } else {
        0
    }
}

fn disconnection(peer_id: &str, reason: DisconnectReason, record: &PeerRecord, now: u64) -> (event:
    PeerEvent)
    ensures
        is_disconnection(event, peer_id@, reason, *record, now),
{
    let connection_duration: u64 = if now >= record.connected_at {
        now - record.connected_at
    } else {
        0
    };
    PeerEvent::Disconnected { peer_id: peer_id.to_owned(), reason, connection_duration }
}

/// What a received message is published as: `published` is the document that it
/// translates to, in the collection of its content.
pub open spec fn is_published<P: Fn(PositionPlan) -> Coordinates, V: Fn(EnuRates) -> Velocity>(
    geodesy: Geodesy<P, V>,
    msg: SapientMessage,
    before: SapientTranslator,
    after: SapientTranslator,
    published: Result<Option<Publication>, SapientError>,
) -> bool {
    match collection_of(msg) {
        Some(collection) => {
            &&& is_translation(
                geodesy,
                msg,
                before.positions(),
                after.positions(),
                published_document(published),
            )
            &&& published matches Ok(Some(p)) ==> p.collection@ == collection
                && p.document.fields.wf()
        },
        None => published matches Ok(None) && after.positions() == before.positions(),
    }
}

/// The document of a publication.
pub open spec fn published_document(published: Result<Option<Publication>, SapientError>) -> Result<
    Option<DocumentModel>,
    ErrorModel,
> {
    match published {
        Ok(Some(p)) => Ok(Some(p.document@)),
        Ok(None) => Ok(None),
        Err(e) => Err(e@),
    }
}

/// Turns a message that a peer sent into the document to publish. A message that
/// belongs to no collection is passed over.
pub fn receive<P: Fn(PositionPlan) -> Coordinates, V: Fn(EnuRates) -> Velocity>(
    translator: &mut SapientTranslator,
    msg: &SapientMessage,
    geodesy: &Geodesy<P, V>,
) -> (published: Result<Option<Publication>, SapientError>)
    requires
        old(translator).wf(),
        geodesy.total(),
    ensures
        final(translator).wf(),
        is_published(*geodesy, *msg, *old(translator), *final(translator), published),
{
    let collection = match PeatSapientTransport::collection_for(msg) {
        Some(collection) => collection,
        None => return Ok(None),
    };
    match translator.decode_inbound(msg, geodesy) {
        Ok(Some(document)) => Ok(Some(Publication { collection, document })),
        Ok(None) => Ok(None),
        Err(e) => Err(e),
    }
}

/// Turns a document of a collection into the message for the peer. A document
/// that came from the SAPIENT side is not sent back there, and one that is no
/// detection is declined.
pub fn forward(
    translator: &SapientTranslator,
    document: &Document,
    document_origin: Option<&str>,
    collection: Option<&str>,
) -> (msg: Option<SapientMessage>)
    requires
        document.fields.wf(),
    ensures
        match msg {
            Some(m) => is_passed_on(name_option(document_origin)) && is_sendable(
                document@,
                name_option(collection),
            ) && is_report_of(m, document@),
            None => !is_passed_on(name_option(document_origin)) || !is_sendable(
                document@,
                name_option(collection),
            ),
        },
{
    if passes_on(document_origin) {
        translator.encode_outbound(document, collection)
    } else {
        None
    }
}

/// The peers of a transport and whether it has been started.
pub struct PeatSapientTransport {
    role: SapientRole,
    peers: StringMap<PeerRecord>,
    started: Option<u64>,
}

impl PeatSapientTransport {
    /// The records of the peers.
    pub closed spec fn peers(&self) -> Map<Seq<char>, PeerRecord> {
        self.peers@
    }

    /// The peers, in the order in which they are held.
    pub closed spec fn peer_ids(&self) -> Seq<Seq<char>> {
        self.peers.keys()
    }

    pub closed spec fn role(&self) -> SapientRole {
        self.role
    }

    /// When the transport was started, if it runs.
    pub closed spec fn started(&self) -> Option<u64> {
        self.started
    }

    pub closed spec fn wf(&self) -> bool {
        self.peers.wf()
    }

    /// A transport without peers that does not run.
    pub fn new(role: SapientRole) -> (transport: Self)
        ensures
            transport.wf(),
            transport.role() == role,
            transport.peers() == Map::<Seq<char>, PeerRecord>::empty(),
            transport.started() is None,
    {
        PeatSapientTransport { role, peers: StringMap::new(), started: None }
    }

    /// The collection that a message's document belongs to.
    pub fn collection_for(msg: &SapientMessage) -> (collection: Option<&'static str>)
        ensures
            match collection {
                Some(name) => collection_of(*msg) == Some(name@),
                None => collection_of(*msg) is None,
            },
    {
        match &msg.content {
            Some(Content::DetectionReport(_)) => Some("tracks"),
            Some(Content::Registration(_)) => Some("platforms"),
            Some(Content::StatusReport(_)) => Some("platforms"),
            _ => None,
        }
    }

    /// Records a peer that has connected. The event is for every subscriber.
    pub fn register_peer(&mut self, peer_id: &str, connected_at: u64) -> (event: PeerEvent)
        requires
            old(self).wf(),
        ensures
            final(self).wf(),
            final(self).role() == old(self).role(),
            final(self).started() == old(self).started(),
            final(self).peers() == old(self).peers().insert(
                peer_id@,
                (PeerRecord { connected_at, alive: true }),
            ),
            event matches PeerEvent::Connected { peer_id: id, connected_at: at } && id@ == peer_id@
                && at == connected_at,
    {
        self.peers.insert(peer_id, PeerRecord { connected_at, alive: true });
        PeerEvent::Connected { peer_id: peer_id.to_owned(), connected_at }
    }

    /// Records that the connection of a peer no longer delivers messages. The
    /// record stays.
    pub fn mark_dead(&mut self, peer_id: &str)
        requires
            old(self).wf(),
        ensures
            final(self).wf(),
            final(self).role() == old(self).role(),
            final(self).started() == old(self).started(),
            final(self).peers() == if old(self).peers().dom().contains(peer_id@) {
                old(self).peers().insert(
                    peer_id@,
                    (PeerRecord { alive: false, ..old(self).peers()[peer_id@] }),
                )
            } else {
                old(self).peers()
            },
    {
        let record = match self.peers.get(peer_id) {
            Some(record) => *record,
            None => return,
        };
        self.peers.insert(
            peer_id,
            PeerRecord { connected_at: record.connected_at, alive: false },
        );
    }

    /// Forgets a peer at `now`. The event is for every subscriber. A peer that
    /// is not known is an error.
    pub fn disconnect(&mut self, peer_id: &str, now: u64) -> (event: Result<
        PeerEvent,
        TransportError,
    >)
        requires
            old(self).wf(),
        ensures
            final(self).wf(),
            final(self).role() == old(self).role(),
            final(self).started() == old(self).started(),
            final(self).peers() == old(self).peers().remove(peer_id@),
            match event {
                Ok(e) => old(self).peers().dom().contains(peer_id@) && is_disconnection(
                    e,
                    peer_id@,
                    DisconnectReason::LocalClosed,
                    old(self).peers()[peer_id@],
                    now,
                ),
                Err(TransportError::PeerNotFound(id)) => !old(self).peers().dom().contains(
                    peer_id@,
                ) && id@ == peer_id@,
            },
    {
        match self.peers.remove(peer_id) {
            Some(record) => Ok(
                disconnection(peer_id, DisconnectReason::LocalClosed, &record, now),
            ),
            None => Err(TransportError::PeerNotFound(peer_id.to_owned())),
        }
    }

    /// Takes in at `now` that the connection of a peer was lost. The event is for
    /// every subscriber, and the peer is to be dialled again; there is none where
    /// the record was removed on purpose, and then it is not.
    pub fn deregister_peer(&mut self, peer_id: &str, now: u64) -> (event: Option<PeerEvent>)
        requires
            old(self).wf(),
        ensures
            final(self).wf(),
            final(self).role() == old(self).role(),
            final(self).started() == old(self).started(),
            final(self).peers() == old(self).peers().remove(peer_id@),
            match event {
                Some(e) => old(self).peers().dom().contains(peer_id@) && is_disconnection(
                    e,
                    peer_id@,
                    DisconnectReason::RemoteClosed,
                    old(self).peers()[peer_id@],
                    now,
                ),
                None => !old(self).peers().dom().contains(peer_id@),
            },
    {
        match self.peers.remove(peer_id) {
            Some(record) => Some(
                disconnection(peer_id, DisconnectReason::RemoteClosed, &record, now),
            ),
            None => None,
        }
    }

    /// Whether documents of the mesh are sent to the peer: a node reports them
    /// to its manager, a manager has nobody to report to.
    pub fn forwards_outbound(&self) -> (forwards: bool)
        ensures
            forwards == (self.role() is Dlmm),
    {
        match &self.role {
            SapientRole::Dlmm { .. } => true,
            SapientRole::Hldmm { .. } => false,
        }
    }

    /// The record of a peer.
    pub fn get_connection(&self, peer_id: &str) -> (record: Option<PeerRecord>)
        requires
            self.wf(),
        ensures
            match record {
                Some(r) => self.peers().dom().contains(peer_id@) && self.peers()[peer_id@] == r,
                None => !self.peers().dom().contains(peer_id@),
            },
    {
        match self.peers.get(peer_id) {
            Some(record) => Some(*record),
            None => None,
        }
    }

    /// The record of a peer that has connected; others cannot be dialled.
    pub fn connect(&self, peer_id: &str) -> (record: Result<PeerRecord, TransportError>)
        requires
            self.wf(),
        ensures
            match record {
                Ok(r) => self.peers().dom().contains(peer_id@) && self.peers()[peer_id@] == r,
                Err(TransportError::PeerNotFound(id)) => !self.peers().dom().contains(peer_id@)
                    && id@ == peer_id@,
            },
    {
        match self.get_connection(peer_id) {
            Some(record) => Ok(record),
            None => Err(TransportError::PeerNotFound(peer_id.to_owned())),
        }
    }

    /// The number of peers.
    pub fn peer_count(&self) -> (n: usize)
        requires
            self.wf(),
        ensures
            n == self.peers().dom().len(),
    {
        proof {
            self.peers.lemma_keys();
            self.peers.keys().unique_seq_to_set();
            assert(self.peers.keys().to_set() =~= self.peers@.dom());
        }
        self.peers.len()
    }

    /// The peers, each once.
    pub fn connected_peers(&self) -> (ids: Vec<String>)
        requires
            self.wf(),
        ensures
            texts(ids@) == self.peer_ids(),
            texts(ids@).no_duplicates(),
            forall|id: Seq<char>| #[trigger]
                self.peers().dom().contains(id) <==> texts(ids@).contains(id),
    {
        let mut ids: Vec<String> = Vec::new();
        let ghost keys = self.peers.keys();
        proof {
            self.peers.lemma_keys();
            assert(texts(ids@) =~= keys.take(0));
        }
        let mut i: usize = 0;
        while i < self.peers.len()
            invariant
                self.peers.wf(),
                keys == self.peers.keys(),
                i <= keys.len(),
                texts(ids@) == keys.take(i as int),
            decreases keys.len() - i,
        {
            let (id, _) = self.peers.entry_at(i);
            let ghost before = ids@;
            ids.push(id.clone());
            proof {
                assert(texts(ids@) =~= texts(before).push(keys[i as int]));
                assert(keys.take(i as int).push(keys[i as int]) =~= keys.take(i + 1));
            }
            i = i + 1;
        }
        assert(keys.take(keys.len() as int) =~= keys);
        ids
    }

    /// Whether the connection of a peer still delivers messages.
    pub fn get_peer_health(&self, peer_id: &str) -> (state: Option<ConnectionState>)
        requires
            self.wf(),
        ensures
            match state {
                Some(s) => self.peers().dom().contains(peer_id@) && s == if self.peers()[peer_id@].alive {
                    ConnectionState::Healthy
                } else {
                    ConnectionState::Dead
                },
                None => !self.peers().dom().contains(peer_id@),
            },
    {
        match self.get_connection(peer_id) {
            Some(record) => if record.alive {
                Some(ConnectionState::Healthy)
            } else {
                Some(ConnectionState::Dead)
            },
            None => None,
        }
    }

    /// Records that the transport runs since `now`.
    pub fn start(&mut self, now: u64)
        requires
            old(self).wf(),
        ensures
            final(self).wf(),
            final(self).role() == old(self).role(),
            final(self).peers() == old(self).peers(),
            final(self).started() == Some(now),
    {
        self.started = Some(now);
    }

    /// Records that the transport has been stopped; all peers are forgotten.
    pub fn stop(&mut self)
        requires
            old(self).wf(),
        ensures
            final(self).wf(),
            final(self).role() == old(self).role(),
            final(self).peers() == Map::<Seq<char>, PeerRecord>::empty(),
            final(self).started() is None,
    {
        self.peers = StringMap::new();
        self.started = None;
    }

    /// Whether the transport runs.
    pub fn is_available(&self) -> (available: bool)
        ensures
            available == self.started() is Some,
    {
        self.started.is_some()
    }

    /// Whether a peer is connected.
    pub fn can_reach(&self, peer_id: &str) -> (reachable: bool)
        requires
            self.wf(),
        ensures
            reachable == self.peers().dom().contains(peer_id@),
    {
        self.peers.contains_key(peer_id)
    }

    /// What the transport can do.
    pub fn capabilities(&self) -> (capabilities: TransportCapabilities)
        ensures
            capabilities == (TransportCapabilities {
                transport_type_tag: SAPIENT_TRANSPORT_TYPE_TAG,
                max_bandwidth_bps: 0,
                typical_latency_ms: 20,
                max_range_meters: 0,
                bidirectional: true,
                reliable: true,
                battery_impact: 0,
            }),
    {
        TransportCapabilities {
            transport_type_tag: SAPIENT_TRANSPORT_TYPE_TAG,
            max_bandwidth_bps: 0,
            typical_latency_ms: 20,
            max_range_meters: 0,
            bidirectional: true,
            reliable: true,
            battery_impact: 0,
        }
    }
}

/// Detections belong to the tracks, registrations and status reports to the
/// platforms, and nothing else to any collection.
pub proof fn law_content_decides_the_collection(msg: SapientMessage)
    ensures
        collection_of(msg) == Some("tracks"@) || collection_of(msg) == Some("platforms"@)
            || collection_of(msg) is None,
        msg.content matches Some(Content::DetectionReport(_)) ==> collection_of(msg) == Some(
            "tracks"@,
        ),
        msg.content matches Some(Content::Registration(_)) ==> collection_of(msg) == Some(
            "platforms"@,
        ),
        msg.content matches Some(Content::StatusReport(_)) ==> collection_of(msg) == Some(
            "platforms"@,
        ),
        collection_of(msg) is Some ==> {
            ||| msg.content matches Some(Content::DetectionReport(_))
            ||| msg.content matches Some(Content::Registration(_))
            ||| msg.content matches Some(Content::StatusReport(_))
        },
{
}

/// A disconnection names the peer, says why, and says how long the peer was
/// connected.
pub proof fn law_disconnection_says_how_long(
    event: PeerEvent,
    peer: Seq<char>,
    why: DisconnectReason,
    record: PeerRecord,
    now: u64,
)
    requires
        is_disconnection(event, peer, why, record, now),
    ensures
        event matches PeerEvent::Disconnected { peer_id, reason, connection_duration } && {
            &&& peer_id@ == peer
            &&& reason == why
            &&& now >= record.connected_at ==> record.connected_at + connection_duration == now
            &&& now < record.connected_at ==> connection_duration == 0
        },
{
}

/// A received message is published where it belongs and as what it says: a
/// detection among the tracks, a registration or a status report among the
/// platforms. Nothing else is published or changes what is remembered.
pub proof fn law_received_message_is_published_where_it_belongs<
    P: Fn(PositionPlan) -> Coordinates,
    V: Fn(EnuRates) -> Velocity,
>(
    geodesy: Geodesy<P, V>,
    msg: SapientMessage,
    before: SapientTranslator,
    after: SapientTranslator,
    published: Result<Option<Publication>, SapientError>,
)
    requires
        is_published(geodesy, msg, before, after, published),
    ensures
        published matches Ok(Some(p)) ==> {
            &&& msg.content matches Some(Content::DetectionReport(_)) ==> p.collection@ == "tracks"@
            &&& msg.content matches Some(Content::Registration(_)) ==> p.collection@
                == "platforms"@
            &&& msg.content matches Some(Content::StatusReport(_)) ==> p.collection@
                == "platforms"@
            &&& is_translation(
                geodesy,
                msg,
                before.positions(),
                after.positions(),
                Ok(Some(p.document@)),
            )
        },
        published is Err ==> (msg.content matches Some(Content::DetectionReport(_)))
            && is_translation(
            geodesy,
            msg,
            before.positions(),
            after.positions(),
            Err(published->Err_0@),
        ),
        published matches Ok(None) <==> !(msg.content matches Some(Content::DetectionReport(_)))
            && !(msg.content matches Some(Content::Registration(_))) && !(
        msg.content matches Some(Content::StatusReport(_))),
        published matches Ok(None) ==> after.positions() == before.positions(),
{
}

} // verus!
