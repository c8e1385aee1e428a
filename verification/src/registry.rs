//! State of the connected SAPIENT nodes.
//!
//! The registry holds the last known capabilities of a node, its last known
//! position, which resolves range and bearing detections, and when it was last
//! heard of.

use crate::clock::Clock;
use crate::schema::{
    advertisement_option, AdvertisementModel, CapabilityAdvertisement, TrackPosition,
};
use crate::string_map::StringMap;
use crate::text::texts;
use vstd::prelude::*;

verus! {

/// State of one connected node.
#[derive(Debug)]
pub struct ConnectedNode {
    pub node_id: String,
    /// The last advertised capabilities.
    pub capability: Option<CapabilityAdvertisement>,
    /// The last reported position.
    pub last_position: Option<TrackPosition>,
    /// When the node was last heard of, in nanoseconds on the clock of whoever
    /// recorded it.
    pub last_seen: u64,
}

/// What a [`ConnectedNode`] says.
#[verifier::ext_equal]
pub struct NodeModel {
    pub node_id: Seq<char>,
    pub capability: Option<AdvertisementModel>,
    pub last_position: Option<TrackPosition>,
    pub last_seen: int,
}

impl View for ConnectedNode {
    type V = NodeModel;

    open spec fn view(&self) -> NodeModel {
        NodeModel {
            node_id: self.node_id@,
            capability: advertisement_option(self.capability),
            last_position: self.last_position,
            last_seen: self.last_seen as int,
        }
    }
}

impl Clone for ConnectedNode {
    fn clone(&self) -> (copy: Self)
        ensures
            copy@ == self@,
    {
        ConnectedNode {
            node_id: self.node_id.clone(),
            capability: match &self.capability {
                Some(capability) => Some(capability.clone()),
                None => None,
            },
            last_position: self.last_position,
            last_seen: self.last_seen,
        }
    }
}

/// The connected nodes by their identifiers.
pub struct NodeRegistry {
    nodes: StringMap<ConnectedNode>,
    clock: Clock,
}

impl View for NodeRegistry {
    type V = Map<Seq<char>, NodeModel>;

    closed spec fn view(&self) -> Map<Seq<char>, NodeModel> {
        self.nodes@.map_values(|n: ConnectedNode| n@)
    }
}

impl NodeRegistry {
    /// Every node is held under its own identifier, once.
    pub closed spec fn wf(&self) -> bool {
        &&& self.nodes.wf()
        &&& forall|id: Seq<char>| #[trigger]
            self.nodes@.dom().contains(id) ==> self.nodes@[id].node_id@ == id
    }

    /// The registry's clock.
    pub closed spec fn clock(&self) -> Clock {
        self.clock
    }

    /// The time on the registry's clock.
    pub fn now(&self) -> (now: u64)
        ensures
            self.clock().reads(now),
    {
        self.clock.now()
    }
}

/// The registry after news of a node at `now`: what is not reported stays as it
/// was.
pub open spec fn upserted(
    nodes: Map<Seq<char>, NodeModel>,
    node_id: Seq<char>,
    capability: Option<AdvertisementModel>,
    position: Option<TrackPosition>,
    now: int,
) -> Map<Seq<char>, NodeModel> {
    nodes.insert(
        node_id,
        NodeModel {
            node_id,
            capability: if capability is Some {
                capability
            } else if nodes.dom().contains(node_id) {
                nodes[node_id].capability
            } else {
                None
            },
            last_position: if position is Some {
                position
            } else {
                known_position(nodes, node_id)
            },
            last_seen: now,
        },
    )
}

/// The registry after a message of a node at `now`: one that is registered was
/// heard of then.
pub open spec fn heard(nodes: Map<Seq<char>, NodeModel>, node_id: Seq<char>, now: int) -> Map<
    Seq<char>,
    NodeModel,
> {
    if nodes.dom().contains(node_id) {
        upserted(nodes, node_id, None, None, now)
    } else {
        nodes
    }
}

/// The last known position of a node.
pub open spec fn known_position(nodes: Map<Seq<char>, NodeModel>, node_id: Seq<char>) -> Option<
    TrackPosition,
> {
    if nodes.dom().contains(node_id) {
        nodes[node_id].last_position
    } else {
        None
    }
}

/// A registry without nodes.
pub fn new_registry() -> (registry: NodeRegistry)
    ensures
        registry.wf(),
        registry@ == Map::<Seq<char>, NodeModel>::empty(),
{
    let registry = NodeRegistry { nodes: StringMap::new(), clock: Clock::start() };
    assert(registry@ =~= Map::<Seq<char>, NodeModel>::empty());
    registry
}

/// Records news of a node at `now`.
pub fn upsert_at(
    registry: &mut NodeRegistry,
    node_id: &str,
    capability: Option<CapabilityAdvertisement>,
    position: Option<TrackPosition>,
    now: u64,
)
    requires
        old(registry).wf(),
    ensures
        final(registry).wf(),
        final(registry).clock() == old(registry).clock(),
        final(registry)@ == upserted(
            old(registry)@,
            node_id@,
            advertisement_option(capability),
            position,
            now as int,
        ),
{
    let mut node = match registry.nodes.remove(node_id) {
        Some(node) => node,
        None => ConnectedNode {
            node_id: node_id.to_owned(),
            capability: None,
            last_position: None,
            last_seen: now,
        },
    };
    node.last_seen = now;
    let ghost news = advertisement_option(capability);
    if capability.is_some() {
        node.capability = capability;
    }
    if position.is_some() {
        node.last_position = position;
    }
    registry.nodes.insert(node_id, node);
    proof {
        assert(registry@ =~= upserted(old(registry)@, node_id@, news, position, now as int));
    }
}

/// Records that a node was heard of at `now`, if it is registered.
pub fn heard_at(registry: &mut NodeRegistry, node_id: &str, now: u64)
    requires
        old(registry).wf(),
    ensures
        final(registry).wf(),
        final(registry).clock() == old(registry).clock(),
        final(registry)@ == heard(old(registry)@, node_id@, now as int),
{
    if registry.nodes.get(node_id).is_some() {
        upsert_at(registry, node_id, None, None, now);
    }
}

/// Records news of a node.
///
/// The time at which it was last heard of is always refreshed; a capability or
/// position that is given replaces the one recorded.
pub fn upsert(
    registry: &mut NodeRegistry,
    node_id: &str,
    capability: Option<CapabilityAdvertisement>,
    position: Option<TrackPosition>,
)
    requires
        old(registry).wf(),
    ensures
        final(registry).wf(),
        final(registry).clock() == old(registry).clock(),
        exists|now: u64|
            old(registry).clock().reads(now) && final(registry)@ == #[trigger] upserted(
                old(registry)@,
                node_id@,
                advertisement_option(capability),
                position,
                now as int,
            ),
{
    let now: u64 = registry.now();
    upsert_at(registry, node_id, capability, position, now);
}

/// The last known position of a node, if there is one.
pub fn get_position(registry: &NodeRegistry, node_id: &str) -> (position: Option<TrackPosition>)
    requires
        registry.wf(),
    ensures
        position == known_position(registry@, node_id@),
{
    match registry.nodes.get(node_id) {
        Some(node) => node.last_position,
        None => None,
    }
}

/// A copy of what is known of a node.
pub fn get_node(registry: &NodeRegistry, node_id: &str) -> (node: Option<ConnectedNode>)
    requires
        registry.wf(),
    ensures
        match node {
            Some(n) => registry@.dom().contains(node_id@) && registry@[node_id@] == n@,
            None => !registry@.dom().contains(node_id@),
        },
{
    match registry.nodes.get(node_id) {
        Some(node) => Some(node.clone()),
        None => None,
    }
}

/// Forgets a node.
pub fn remove(registry: &mut NodeRegistry, node_id: &str)
    requires
        old(registry).wf(),
    ensures
        final(registry).wf(),
        final(registry).clock() == old(registry).clock(),
        final(registry)@ == old(registry)@.remove(node_id@),
{
    registry.nodes.remove(node_id);
    assert(registry@ =~= old(registry)@.remove(node_id@));
}

/// Whether a node has not been heard of for twice the heartbeat interval.
pub open spec fn is_silent(node: NodeModel, interval: int, now: int) -> bool {
    (if now >= node.last_seen {
        now - node.last_seen
    } else {
        0
    }) >= 2 * interval
}

/// The identifiers of the nodes that have not been heard of for twice the
/// heartbeat interval, each once.
pub fn silent_nodes(registry: &NodeRegistry, heartbeat_interval: u64, now: u64) -> (ids: Vec<
    String,
>)
    requires
        registry.wf(),
    ensures
        texts(ids@).no_duplicates(),
        forall|id: Seq<char>| #[trigger]
            texts(ids@).contains(id) <==> registry@.dom().contains(id) && is_silent(
                registry@[id],
                heartbeat_interval as int,
                now as int,
            ),
{
    let mut ids: Vec<String> = Vec::new();
    let ghost keys = registry.nodes.keys();
    proof {
        registry.nodes.lemma_keys();
    }
    let mut i: usize = 0;
    while i < registry.nodes.len()
        invariant
            registry.wf(),
            keys == registry.nodes.keys(),
            keys.no_duplicates(),
            i <= keys.len(),
            forall|j: int|
                0 <= j < ids@.len() ==> exists|k: int|
                    0 <= k < i && keys[k] == (#[trigger] ids@[j])@ && is_silent(
                        registry@[keys[k]],
                        heartbeat_interval as int,
                        now as int,
                    ),
            forall|k: int|
                0 <= k < i && is_silent(
                    registry@[#[trigger] keys[k]],
                    heartbeat_interval as int,
                    now as int,
                ) ==> texts(ids@).contains(keys[k]),
            texts(ids@).no_duplicates(),
            forall|k: int|
                0 <= k < keys.len() ==> registry.nodes@.dom().contains(#[trigger] keys[k]),
        decreases keys.len() - i,
    {
        let (id, node) = registry.nodes.entry_at(i);
        let elapsed: u64 = if now >= node.last_seen {
            now - node.last_seen
        } else {
            0
        };
        let ghost before = ids@;
        if elapsed as u128 >= 2 * heartbeat_interval as u128 {
            ids.push(id.clone());
            proof {
                let old_texts = texts(before);
                let new_texts = texts(ids@);
                assert(new_texts =~= old_texts.push(keys[i as int]));
                assert(!old_texts.contains(keys[i as int])) by {
                    if old_texts.contains(keys[i as int]) {
                        let j = choose|j: int| 0 <= j < old_texts.len() && old_texts[j] == keys[i as int];
                        assert(before[j]@ == keys[i as int]);
                    }
                }
                assert forall|k: int|
                    0 <= k < i + 1 && is_silent(
                        registry@[#[trigger] keys[k]],
                        heartbeat_interval as int,
                        now as int,
                    ) implies new_texts.contains(keys[k]) by {
                    if k < i {
                        let j = choose|j: int| 0 <= j < old_texts.len() && old_texts[j] == keys[k];
                        assert(new_texts[j] == keys[k]);
                    } else {
                        assert(new_texts[old_texts.len() as int] == keys[k]);
                    }
                }
                assert forall|j: int| 0 <= j < ids@.len() implies exists|k: int|
                    0 <= k < i + 1 && keys[k] == (#[trigger] ids@[j])@ && is_silent(
                        registry@[keys[k]],
                        heartbeat_interval as int,
                        now as int,
                    ) by {
                    if j < before.len() {
                        assert(ids@[j] == before[j]);
                    } else {
                        assert(keys[i as int] == ids@[j]@);
                    }
                }
            }
        }
        i = i + 1;
    }
    proof {
        let names = texts(ids@);
        assert forall|id: Seq<char>| #[trigger] names.contains(id) implies registry@.dom().contains(id)
            && is_silent(registry@[id], heartbeat_interval as int, now as int) by {
            let j = choose|j: int| 0 <= j < names.len() && names[j] == id;
            assert(ids@[j]@ == id);
        }
        assert forall|id: Seq<char>|
            registry@.dom().contains(id) && is_silent(
                registry@[id],
                heartbeat_interval as int,
                now as int,
            ) implies #[trigger] names.contains(id) by {
            assert(registry.nodes@.dom().contains(id));
            let k = choose|k: int| 0 <= k < keys.len() && keys[k] == id;
            assert(keys[k] == id);
        }
    }
    ids
}

/// A node that is known by an identifier is the one that news of it was
/// recorded for, and news of one node leaves the others as they were.
pub proof fn law_upsert_is_local(
    nodes: Map<Seq<char>, NodeModel>,
    node_id: Seq<char>,
    capability: Option<AdvertisementModel>,
    position: Option<TrackPosition>,
    now: int,
    other: Seq<char>,
)
    requires
        other != node_id,
    ensures
        ({
            let after = upserted(nodes, node_id, capability, position, now);
            &&& after.dom().contains(node_id)
            &&& after[node_id].node_id == node_id
            &&& after[node_id].last_seen == now
            &&& after.dom().contains(other) == nodes.dom().contains(other)
            &&& nodes.dom().contains(other) ==> after[other] == nodes[other]
        }),
{
}

/// What is recorded stays until it is replaced: news without a capability or
/// position keep the recorded ones, and news with them replace them.
pub proof fn law_upsert_keeps_what_is_not_reported(
    nodes: Map<Seq<char>, NodeModel>,
    node_id: Seq<char>,
    capability: AdvertisementModel,
    position: TrackPosition,
    now: int,
)
    requires
        nodes.dom().contains(node_id),
    ensures
        upserted(nodes, node_id, None, None, now)[node_id].capability == nodes[node_id].capability,
        upserted(nodes, node_id, None, None, now)[node_id].last_position
            == nodes[node_id].last_position,
        upserted(nodes, node_id, Some(capability), None, now)[node_id].capability == Some(
            capability,
        ),
        upserted(nodes, node_id, None, Some(position), now)[node_id].last_position == Some(
            position,
        ),
        known_position(upserted(nodes, node_id, None, Some(position), now), node_id) == Some(
            position,
        ),
{
}

/// A node is silent once two heartbeat intervals have passed since it was heard
/// of, not before; time that runs backwards counts as none.
pub proof fn law_silence_is_two_intervals(node: NodeModel, interval: int, now: int)
    requires
        interval > 0,
    ensures
        is_silent(node, interval, now) <==> now - node.last_seen >= 2 * interval,
{
}

/// News of a node that is not known make it known, with nothing but what is
/// reported of it; a mere message of it does not.
pub proof fn law_unknown_node_becomes_known_by_news(
    nodes: Map<Seq<char>, NodeModel>,
    node_id: Seq<char>,
    capability: Option<AdvertisementModel>,
    position: Option<TrackPosition>,
    now: int,
)
    requires
        !nodes.dom().contains(node_id),
    ensures
        upserted(nodes, node_id, capability, position, now).dom().contains(node_id),
        upserted(nodes, node_id, capability, position, now)[node_id] == (NodeModel {
            node_id,
            capability,
            last_position: position,
            last_seen: now,
        }),
        known_position(nodes, node_id) is None,
        heard(nodes, node_id, now) == nodes,
{
}

/// A message of a known node refreshes when it was heard of and nothing else.
pub proof fn law_message_refreshes_the_time_only(
    nodes: Map<Seq<char>, NodeModel>,
    node_id: Seq<char>,
    now: int,
    other: Seq<char>,
)
    requires
        nodes.dom().contains(node_id),
        nodes[node_id].node_id == node_id,
    ensures
        heard(nodes, node_id, now).dom() == nodes.dom(),
        heard(nodes, node_id, now)[node_id].last_seen == now,
        heard(nodes, node_id, now)[node_id].capability == nodes[node_id].capability,
        heard(nodes, node_id, now)[node_id].last_position == nodes[node_id].last_position,
        other != node_id ==> heard(nodes, node_id, now)[other] == nodes[other],
{
    assert(heard(nodes, node_id, now).dom() =~= nodes.dom());
}

} // verus!
