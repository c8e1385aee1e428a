//! Heartbeat watchdog.

use crate::bridge::{SapientUpdate, UpdateModel};
use crate::registry::{is_silent, remove, silent_nodes, NodeModel, NodeRegistry};
use crate::text::texts;
use vstd::prelude::*;

verus! {

/// The node that an update reports as disconnected, if it does.
pub open spec fn disconnected_node(update: UpdateModel) -> Option<Seq<char>> {
    match update {
        UpdateModel::NodeDisconnected { node_id } => Some(node_id),
        _ => None,
    }
}

/// Every update reports a disconnected node.
pub open spec fn all_disconnections(updates: Seq<SapientUpdate>) -> bool {
    forall|i: int|
        0 <= i < updates.len() ==> disconnected_node((#[trigger] updates[i])@) is Some
}

/// The nodes that updates report as disconnected.
pub open spec fn disconnected(updates: Seq<SapientUpdate>) -> Seq<Seq<char>> {
    updates.map_values(|u: SapientUpdate| disconnected_node(u@)->0)
}

/// `after` are the nodes that are left when the silent ones among `before` are
/// forgotten, and `gone` are the silent ones, each once.
pub open spec fn is_sweep(
    before: Map<Seq<char>, NodeModel>,
    after: Map<Seq<char>, NodeModel>,
    interval: int,
    now: int,
    gone: Seq<Seq<char>>,
) -> bool {
    &&& gone.no_duplicates()
    &&& forall|id: Seq<char>| #[trigger]
        gone.contains(id) <==> before.dom().contains(id) && is_silent(before[id], interval, now)
    &&& forall|id: Seq<char>| #[trigger]
        after.dom().contains(id) <==> before.dom().contains(id) && !is_silent(
            before[id],
            interval,
            now,
        )
    &&& forall|id: Seq<char>| #[trigger] after.dom().contains(id) ==> after[id] == before[id]
}

/// Forgets the nodes that have been silent for twice the heartbeat interval at
/// `now`, and reports each of them once.
pub fn sweep(registry: &mut NodeRegistry, heartbeat_interval: u64, now: u64) -> (updates: Vec<
    SapientUpdate,
>)
    requires
        old(registry).wf(),
    ensures
        final(registry).wf(),
        final(registry).clock() == old(registry).clock(),
        all_disconnections(updates@),
        is_sweep(
            old(registry)@,
            final(registry)@,
            heartbeat_interval as int,
            now as int,
            disconnected(updates@),
        ),
{
    let ids = silent_nodes(registry, heartbeat_interval, now);
    let ghost names = texts(ids@);
    let mut updates: Vec<SapientUpdate> = Vec::new();
    let mut i: usize = 0;
    assert(disconnected(updates@) =~= names.take(0));
    while i < ids.len()
        invariant
            registry.wf(),
            registry.clock() == old(registry).clock(),
            names == texts(ids@),
            i <= ids@.len(),
            all_disconnections(updates@),
            disconnected(updates@) == names.take(i as int),
            forall|id: Seq<char>| #[trigger]
                registry@.dom().contains(id) <==> old(registry)@.dom().contains(id)
                    && !names.take(i as int).contains(id),
            forall|id: Seq<char>| #[trigger]
                registry@.dom().contains(id) ==> registry@[id] == old(registry)@[id],
        decreases ids@.len() - i,
    {
        let node_id = ids[i].clone();
        remove(registry, node_id.as_str());
        let ghost before = updates@;
        updates.push(SapientUpdate::NodeDisconnected { node_id });
        proof {
            let id = names[i as int];
            assert(names.take(i as int).push(id) =~= names.take(i + 1));
            assert(disconnected(updates@) =~= disconnected(before).push(id));
            assert forall|other: Seq<char>| #[trigger]
                names.take(i + 1).contains(other) <==> names.take(i as int).contains(other) || other
                    == id by {
                let t = names.take(i as int);
                if t.contains(other) {
                    let k = choose|k: int| 0 <= k < t.len() && t[k] == other;
                    assert(names.take(i + 1)[k] == other);
                }
                if other == id {
                    assert(names.take(i + 1)[i as int] == other);
                }
                if names.take(i + 1).contains(other) && other != id {
                    let u = names.take(i + 1);
                    let k = choose|k: int| 0 <= k < u.len() && u[k] == other;
                    assert(t[k] == other);
                }
            }
        }
        i = i + 1;
    }
    assert(names.take(names.len() as int) =~= names);
    updates
}

/// A node that was heard of within twice the interval stays registered, and one
/// that was not is reported.
pub proof fn law_only_silent_nodes_disconnect(
    before: Map<Seq<char>, NodeModel>,
    after: Map<Seq<char>, NodeModel>,
    interval: int,
    now: int,
    gone: Seq<Seq<char>>,
    id: Seq<char>,
)
    requires
        is_sweep(before, after, interval, now, gone),
        before.dom().contains(id),
        before[id].last_seen <= now,
    ensures
        now - before[id].last_seen < 2 * interval ==> after.dom().contains(id) && after[id]
            == before[id] && !gone.contains(id),
        now - before[id].last_seen >= 2 * interval ==> !after.dom().contains(id) && gone.contains(
            id,
        ),
{
}

/// A sweep reports each silent node once and nobody else, and forgets exactly the
/// nodes that it reports; the others stay as they were.
pub proof fn law_sweep_forgets_what_it_reports(
    before: Map<Seq<char>, NodeModel>,
    after: Map<Seq<char>, NodeModel>,
    interval: int,
    now: int,
    gone: Seq<Seq<char>>,
    id: Seq<char>,
)
    requires
        is_sweep(before, after, interval, now, gone),
    ensures
        gone.no_duplicates(),
        gone.contains(id) ==> before.dom().contains(id) && !after.dom().contains(id),
        before.dom().contains(id) && !gone.contains(id) ==> after.dom().contains(id) && after[id]
            == before[id],
        after.dom().contains(id) ==> before.dom().contains(id),
{
}

/// Sweeping again at the same moment reports nobody.
pub proof fn law_second_sweep_reports_nobody(
    before: Map<Seq<char>, NodeModel>,
    between: Map<Seq<char>, NodeModel>,
    after: Map<Seq<char>, NodeModel>,
    interval: int,
    now: int,
    first: Seq<Seq<char>>,
    second: Seq<Seq<char>>,
)
    requires
        is_sweep(before, between, interval, now, first),
        is_sweep(between, after, interval, now, second),
    ensures
        second.len() == 0,
        after == between,
{
    if second.len() > 0 {
        assert(second.contains(second[0]));
        assert(between.dom().contains(second[0]));
    }
    assert(after.dom() =~= between.dom()) by {
        assert forall|id: Seq<char>| #[trigger] between.dom().contains(id) implies after.dom().contains(
            id,
        ) by {
            assert(!second.contains(id));
        }
    }
    assert(after =~= between);
}

/// Updates that are all disconnections report the end of one node each, and name
/// those nodes in their order.
pub proof fn law_updates_name_the_nodes_that_are_gone(updates: Seq<SapientUpdate>, i: int)
    requires
        all_disconnections(updates),
        0 <= i < updates.len(),
    ensures
        disconnected(updates).len() == updates.len(),
        updates[i] matches SapientUpdate::NodeDisconnected { node_id } && disconnected(updates)[i]
            == node_id@,
{
    assert(disconnected_node(updates[i]@) is Some);
}

} // verus!
