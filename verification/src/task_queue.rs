//! Per-node queues of outbound tasks.
//!
//! A task stays queued from when it is sent until the node acknowledges it. If
//! the node disconnects before that, its queue is replayed in insertion order
//! on reconnect. A task older than its time to live is discarded rather than
//! replayed: a stale command is worse than none.

use crate::clock::Clock;
use crate::proto::SapientMessage;
use crate::string_map::StringMap;
use crate::text::{text_option, texts};
use std::collections::VecDeque;
use std::sync::Arc;
use vstd::prelude::*;

verus! {

/// A task that has not been acknowledged.
#[derive(Debug)]
pub struct QueuedTask {
    pub msg: Arc<SapientMessage>,
    pub task_id: String,
    /// When the task was queued, in nanoseconds on the clock of the caller that
    /// gave the time, or else on the queue's.
    pub enqueued_at: u64,
    /// Time to live in nanoseconds.
    pub ttl: u64,
}

impl QueuedTask {
    /// Whether the task has outlived its time to live at `now`.
    pub open spec fn expired(self, now: int) -> bool {
        now - self.enqueued_at > self.ttl
    }
}

/// First-in first-out queues of outbound tasks, one per node.
pub struct TaskQueue {
    queues: StringMap<VecDeque<QueuedTask>>,
    max_depth: usize,
    default_ttl: u64,
    clock: Clock,
}

/// A queue once a task has been queued: when it is full, the oldest task gives
/// way. A queue of no depth keeps nothing.
pub open spec fn with_task(queue: Seq<QueuedTask>, max_depth: nat, task: QueuedTask) -> Seq<
    QueuedTask,
> {
    if max_depth == 0 {
        Seq::empty()
    } else if queue.len() >= max_depth {
        queue.drop_first().push(task)
    } else {
        queue.push(task)
    }
}

/// The identifier of the task that gives way when one is queued, if one does: the
/// oldest where the queue is full, the new one where it has no depth.
pub open spec fn evicted_id(
    queue: Seq<QueuedTask>,
    max_depth: nat,
    task_id: Seq<char>,
) -> Option<Seq<char>> {
    if max_depth == 0 {
        Some(task_id)
    } else if queue.len() >= max_depth {
        Some(queue[0].task_id@)
    } else {
        None
    }
}

/// The tasks other than those of an identifier, in their order.
pub open spec fn without_task(queue: Seq<QueuedTask>, task_id: Seq<char>) -> Seq<QueuedTask> {
    queue.filter(|t: QueuedTask| t.task_id@ != task_id)
}

/// The tasks that have not expired, in their order.
pub open spec fn unexpired(queue: Seq<QueuedTask>, now: int) -> Seq<QueuedTask> {
    queue.filter(|t: QueuedTask| !t.expired(now))
}

/// The identifiers of the expired tasks, in their order.
pub open spec fn expired_ids(queue: Seq<QueuedTask>, now: int) -> Seq<Seq<char>> {
    queue.filter(|t: QueuedTask| t.expired(now)).map_values(|t: QueuedTask| t.task_id@)
}

/// The messages of queued tasks, in their order.
pub open spec fn messages(queue: Seq<QueuedTask>) -> Seq<Arc<SapientMessage>> {
    queue.map_values(|t: QueuedTask| t.msg)
}

/// A queue is no deeper than it may be, and its tasks have the given time to
/// live.
pub open spec fn is_sound(queue: Seq<QueuedTask>, max_depth: nat, ttl: u64) -> bool {
    &&& queue.len() <= max_depth
    &&& forall|i: int| 0 <= i < queue.len() ==> (#[trigger] queue[i]).ttl == ttl
}

spec fn held(queues: Map<Seq<char>, VecDeque<QueuedTask>>, node_id: Seq<char>) -> Seq<QueuedTask> {
    if queues.dom().contains(node_id) {
        queues[node_id]@
    } else {
        Seq::empty()
    }
}

impl TaskQueue {
    /// The tasks queued for a node, oldest first.
    pub closed spec fn queue(&self, node_id: Seq<char>) -> Seq<QueuedTask> {
        held(self.queues@, node_id)
    }

    /// The nodes that tasks have been queued for.
    pub closed spec fn nodes(&self) -> Seq<Seq<char>> {
        self.queues.keys()
    }

    pub closed spec fn max_depth(&self) -> nat {
        self.max_depth as nat
    }

    pub closed spec fn default_ttl(&self) -> u64 {
        self.default_ttl
    }

    /// The queue's clock.
    pub closed spec fn clock(&self) -> Clock {
        self.clock
    }

    /// No queue is deeper than the configured depth, and every task has the
    /// configured time to live.
    pub closed spec fn wf(&self) -> bool {
        &&& self.queues.wf()
        &&& forall|node_id: Seq<char>|
            is_sound(
                #[trigger] held(self.queues@, node_id),
                self.max_depth as nat,
                self.default_ttl,
            )
    }

    /// No node is listed twice, and a node that is not listed has no tasks.
    pub proof fn law_nodes_cover_all_tasks(&self)
        requires
            self.wf(),
        ensures
            self.nodes().no_duplicates(),
            forall|node_id: Seq<char>| #[trigger]
                self.queue(node_id).len() > 0 ==> self.nodes().contains(node_id),
    {
        self.queues.lemma_keys();
    }

    /// At most the configured number of tasks is queued for a node.
    pub proof fn law_depth_is_bounded(&self, node_id: Seq<char>)
        requires
            self.wf(),
        ensures
            self.queue(node_id).len() <= self.max_depth(),
    {
        assert(is_sound(
            held(self.queues@, node_id),
            self.max_depth as nat,
            self.default_ttl,
        ));
    }

    /// A task expires by its age and the queue's time to live alone: a queued task
    /// is discarded at `now` if and only if it is older than that.
    pub proof fn law_expiry_is_by_age(&self, node_id: Seq<char>, task: QueuedTask, now: int)
        requires
            self.wf(),
            self.queue(node_id).contains(task),
        ensures
            unexpired(self.queue(node_id), now).contains(task) <==> now - task.enqueued_at
                <= self.default_ttl(),
    {
        let queue = held(self.queues@, node_id);
        assert(is_sound(queue, self.max_depth as nat, self.default_ttl));
        let i = choose|i: int| 0 <= i < queue.len() && queue[i] == task;
        assert(queue[i].ttl == self.default_ttl);
        law_expiry_removes_exactly_the_stale(queue, now, task);
    }

    /// A queue without tasks.
    pub fn new(max_depth: usize, default_ttl: u64) -> (queue: Self)
        ensures
            queue.wf(),
            queue.max_depth() == max_depth,
            queue.default_ttl() == default_ttl,
            forall|node_id: Seq<char>| #[trigger]
                queue.queue(node_id) == Seq::<QueuedTask>::empty(),
    {
        TaskQueue { queues: StringMap::new(), max_depth, default_ttl, clock: Clock::start() }
    }

    /// The time on the queue's clock.
    pub fn now(&self) -> (now: u64)
        ensures
            self.clock().reads(now),
    {
        self.clock.now()
    }

    /// Queues a task for a node at `now`. The identifier of a task that gave way
    /// is returned; where the queue has no depth, that is the new one.
    pub fn enqueue_at(
        &mut self,
        node_id: &str,
        task_id: String,
        msg: Arc<SapientMessage>,
        now: u64,
    ) -> (evicted: Option<String>)
        requires
            old(self).wf(),
        ensures
            final(self).wf(),
            final(self).max_depth() == old(self).max_depth(),
            final(self).default_ttl() == old(self).default_ttl(),
            final(self).clock() == old(self).clock(),
            final(self).queue(node_id@) == with_task(
                old(self).queue(node_id@),
                old(self).max_depth(),
                (QueuedTask { msg, task_id, enqueued_at: now, ttl: old(self).default_ttl() }),
            ),
            forall|other: Seq<char>|
                other != node_id@ ==> #[trigger] final(self).queue(other) == old(self).queue(other),
            text_option(evicted) == evicted_id(
                old(self).queue(node_id@),
                old(self).max_depth(),
                task_id@,
            ),
    {
        assert(is_sound(
            held(self.queues@, node_id@),
            self.max_depth as nat,
            self.default_ttl,
        ));
        if self.max_depth == 0 {
            assert(self.queue(node_id@) =~= Seq::<QueuedTask>::empty());
            return Some(task_id);
        }
        let mut queue = match self.queues.remove(node_id) {
            Some(queue) => queue,
            None => VecDeque::new(),
        };
        let ghost before = queue@;
        assert(before == old(self).queue(node_id@));
        let evicted = if queue.len() >= self.max_depth {
            match queue.pop_front() {
                Some(dropped) => Some(dropped.task_id),
                None => None,
            }
        } else {
            None
        };
        let ghost task = QueuedTask { msg, task_id, enqueued_at: now, ttl: self.default_ttl };
        queue.push_back(QueuedTask { msg, task_id, enqueued_at: now, ttl: self.default_ttl });
        assert(queue@ =~= with_task(before, self.max_depth as nat, task));
        self.queues.insert(node_id, queue);
        proof {
            assert forall|other: Seq<char>|
                is_sound(
                    #[trigger] held(self.queues@, other),
                    self.max_depth as nat,
                    self.default_ttl,
                ) by {
                if other != node_id@ {
                    assert(held(self.queues@, other) == held(old(self).queues@, other));
                }
            }
        }
        evicted
    }

    /// Queues a task for a node.
    ///
    /// If the node's queue is full, the oldest task gives way; its identifier is
    /// returned. A queue of no depth keeps nothing and returns the new task's.
    pub fn enqueue(&mut self, node_id: &str, task_id: String, msg: SapientMessage) -> (evicted:
        Option<String>)
        requires
            old(self).wf(),
        ensures
            final(self).wf(),
            final(self).max_depth() == old(self).max_depth(),
            final(self).default_ttl() == old(self).default_ttl(),
            final(self).clock() == old(self).clock(),
            exists|now: u64|
                old(self).clock().reads(now) && final(self).queue(node_id@) == #[trigger] with_task(
                    old(self).queue(node_id@),
                    old(self).max_depth(),
                    (QueuedTask {
                        msg: Arc::new(msg),
                        task_id,
                        enqueued_at: now,
                        ttl: old(self).default_ttl(),
                    }),
                ),
            forall|other: Seq<char>|
                other != node_id@ ==> #[trigger] final(self).queue(other) == old(self).queue(other),
            text_option(evicted) == evicted_id(
                old(self).queue(node_id@),
                old(self).max_depth(),
                task_id@,
            ),
    {
        let now: u64 = self.clock.now();
        self.enqueue_at(node_id, task_id, Arc::new(msg), now)
    }

    /// Removes a task that its node has acknowledged. Does nothing where there
    /// is no such task.
    pub fn ack(&mut self, node_id: &str, task_id: &str)
        requires
            old(self).wf(),
        ensures
            final(self).wf(),
            final(self).max_depth() == old(self).max_depth(),
            final(self).default_ttl() == old(self).default_ttl(),
            final(self).clock() == old(self).clock(),
            final(self).queue(node_id@) == without_task(old(self).queue(node_id@), task_id@),
            forall|other: Seq<char>|
                other != node_id@ ==> #[trigger] final(self).queue(other) == old(self).queue(other),
    {
        assert(is_sound(
            held(self.queues@, node_id@),
            self.max_depth as nat,
            self.default_ttl,
        ));
        match self.queues.remove(node_id) {
            Some(queue) => {
                let ghost before = queue@;
                let kept = drop_task(queue, task_id);
                self.queues.insert(node_id, kept);
                proof {
                    lemma_filter_sound(
                        before,
                        |t: QueuedTask| t.task_id@ != task_id@,
                        self.max_depth as nat,
                        self.default_ttl,
                    );
                    assert forall|other: Seq<char>|
                        is_sound(
                            #[trigger] held(self.queues@, other),
                            self.max_depth as nat,
                            self.default_ttl,
                        ) by {
                        if other != node_id@ {
                            assert(held(self.queues@, other) == held(old(self).queues@, other));
                        }
                    }
                }
            },
            None => {
                proof {
                    assert(self.queues@ =~= old(self).queues@);
                    assert(without_task(Seq::empty(), task_id@) =~= Seq::<QueuedTask>::empty()) by {
                        reveal(Seq::filter);
                    }
                }
            },
        }
    }

    /// Discards the tasks that have expired at `now`; their identifiers are
    /// returned.
    pub fn drain_expired_at(&mut self, now: u64) -> (ids: Vec<String>)
        requires
            old(self).wf(),
        ensures
            final(self).wf(),
            final(self).max_depth() == old(self).max_depth(),
            final(self).default_ttl() == old(self).default_ttl(),
            final(self).clock() == old(self).clock(),
            forall|node_id: Seq<char>| #[trigger]
                final(self).queue(node_id) == unexpired(old(self).queue(node_id), now as int),
            texts(ids@) == all_expired_ids(*old(self), old(self).nodes(), now as int),
    {
        let mut ids: Vec<String> = Vec::new();
        let ghost keys = self.queues.keys();
        let ghost start = *self;
        proof {
            self.queues.lemma_keys();
            assert(texts(ids@) =~= all_expired_ids(start, keys.take(0), now as int));
        }
        let mut i: usize = 0;
        while i < self.queues.len()
            invariant
                start == *old(self),
                start.wf(),
                self.wf(),
                keys == start.queues.keys(),
                keys == self.queues.keys(),
                keys.no_duplicates(),
                i <= keys.len(),
                self.max_depth == start.max_depth,
                self.default_ttl == start.default_ttl,
                self.clock == start.clock,
                texts(ids@) == all_expired_ids(start, keys.take(i as int), now as int),
                forall|key: Seq<char>| #[trigger]
                    start.queues@.dom().contains(key) <==> keys.contains(key),
                forall|key: Seq<char>| #[trigger]
                    self.queues@.dom().contains(key) <==> keys.contains(key),
                forall|k: int|
                    0 <= k < i ==> self.queues@[#[trigger] keys[k]]@ == unexpired(
                        start.queues@[keys[k]]@,
                        now as int,
                    ),
                forall|k: int|
                    i <= k < keys.len() ==> self.queues@[#[trigger] keys[k]]
                        == start.queues@[keys[k]],
            decreases keys.len() - i,
        {
            let ghost key = keys[i as int];
            assert(keys.contains(key));
            let ghost before = self.queues@;
            let queue = self.queues.replace_at(i, VecDeque::new());
            let ghost tasks = queue@;
            let (kept, expired) = split_expired(queue, now);
            let ghost old_ids = ids@;
            let mut expired = expired;
            let ghost expired_list = expired@;
            ids.append(&mut expired);
            let ghost kept_tasks = kept@;
            self.queues.replace_at(i, kept);
            proof {
                self.queues.lemma_keys();
                assert(keys.take(i + 1).drop_last() =~= keys.take(i as int));
                assert(keys.take(i + 1).last() == key);
                assert(start.queue(key) == tasks);
                assert(texts(ids@) =~= texts(old_ids) + texts(expired_list));
                assert forall|k: int| 0 <= k < i implies self.queues@[#[trigger] keys[k]]@
                    == unexpired(start.queues@[keys[k]]@, now as int) by {
                    assert(keys[k] != keys[i as int]);
                }
                assert forall|k: int| i + 1 <= k < keys.len() implies self.queues@[#[trigger] keys[k]]
                    == start.queues@[keys[k]] by {
                    assert(keys[k] != keys[i as int]);
                }
                assert(held(before, key) == tasks);
                lemma_filter_sound(
                    tasks,
                    |t: QueuedTask| !t.expired(now as int),
                    self.max_depth as nat,
                    self.default_ttl,
                );
                assert forall|other: Seq<char>|
                    is_sound(
                        #[trigger] held(self.queues@, other),
                        self.max_depth as nat,
                        self.default_ttl,
                    ) by {
                    if other != key {
                        assert(held(self.queues@, other) == held(before, other));
                    }
                }
            }
            i = i + 1;
        }
        proof {
            assert(keys.take(keys.len() as int) =~= keys);
            assert forall|node_id: Seq<char>| #[trigger]
                self.queue(node_id) == unexpired(start.queue(node_id), now as int) by {
                if keys.contains(node_id) {
                    let k = choose|k: int| 0 <= k < keys.len() && keys[k] == node_id;
                    assert(self.queues@[keys[k]]@ == unexpired(
                        start.queues@[keys[k]]@,
                        now as int,
                    ));
                    assert(start.queues@.dom().contains(node_id));
                    assert(self.queues@.dom().contains(node_id));
                } else {
                    assert(!start.queues@.dom().contains(node_id));
                    assert(!self.queues@.dom().contains(node_id));
                    reveal(Seq::filter);
                    assert(unexpired(Seq::empty(), now as int) =~= Seq::<QueuedTask>::empty());
                }
            }
        }
        ids
    }

    /// Discards the tasks that have expired; their identifiers are returned.
    pub fn drain_expired(&mut self) -> (ids: Vec<String>)
        requires
            old(self).wf(),
        ensures
            final(self).wf(),
            final(self).max_depth() == old(self).max_depth(),
            final(self).default_ttl() == old(self).default_ttl(),
            final(self).clock() == old(self).clock(),
            exists|now: u64|
                {
                    &&& old(self).clock().reads(now)
                    &&& texts(ids@) == #[trigger] all_expired_ids(
                        *old(self),
                        old(self).nodes(),
                        now as int,
                    )
                    &&& forall|node_id: Seq<char>| #[trigger]
                        final(self).queue(node_id) == unexpired(
                            old(self).queue(node_id),
                            now as int,
                        )
                },
    {
        let now: u64 = self.clock.now();
        self.drain_expired_at(now)
    }

    /// The messages of the tasks that are queued for a node and have not expired
    /// at `now`, in insertion order. They stay queued.
    pub fn pending_at(&self, node_id: &str, now: u64) -> (pending: Vec<Arc<SapientMessage>>)
        requires
            self.wf(),
        ensures
            pending@ == messages(unexpired(self.queue(node_id@), now as int)),
    {
        let mut pending: Vec<Arc<SapientMessage>> = Vec::new();
        let ghost keep = |t: QueuedTask| !t.expired(now as int);
        proof {
            reveal(Seq::filter);
        }
        match self.queues.get(node_id) {
            Some(queue) => {
                let ghost all = queue@;
                let mut i: usize = 0;
                assert(pending@ =~= messages(all.take(0).filter(keep)));
                while i < queue.len()
                    invariant
                        i <= queue@.len(),
                        all == queue@,
                        keep == (|t: QueuedTask| !t.expired(now as int)),
                        pending@ == messages(all.take(i as int).filter(keep)),
                    decreases queue@.len() - i,
                {
                    let task = &queue[i];
                    let ghost before = all.take(i as int).filter(keep);
                    proof {
                        lemma_filter_step(all, i as int, keep);
                        assert(messages(before.push(*task)) =~= messages(before).push(task.msg));
                    }
                    if !(now > task.enqueued_at && now - task.enqueued_at > task.ttl) {
                        pending.push(task.msg.clone());
                    }
                    i = i + 1;
                }
                assert(all.take(i as int) =~= all);
            },
            None => {
                assert(pending@ =~= messages(unexpired(self.queue(node_id@), now as int)));
            },
        }
        pending
    }

    /// The messages of the tasks that are queued for a node and have not expired,
    /// in insertion order. They stay queued.
    pub fn pending_for(&self, node_id: &str) -> (pending: Vec<Arc<SapientMessage>>)
        requires
            self.wf(),
        ensures
            exists|now: u64|
                self.clock().reads(now) && pending@ == messages(
                    #[trigger] unexpired(self.queue(node_id@), now as int),
                ),
    {
        let now: u64 = self.clock.now();
        self.pending_at(node_id, now)
    }

    /// Whether no task is queued for a node.
    pub fn is_empty_for(&self, node_id: &str) -> (empty: bool)
        requires
            self.wf(),
        ensures
            empty == (self.queue(node_id@).len() == 0),
    {
        match self.queues.get(node_id) {
            Some(queue) => queue.len() == 0,
            None => true,
        }
    }
}

/// The identifiers of the expired tasks of the given nodes, node by node.
pub open spec fn all_expired_ids(queue: TaskQueue, nodes: Seq<Seq<char>>, now: int) -> Seq<
    Seq<char>,
>
    decreases nodes.len(),
{
    if nodes.len() == 0 {
        Seq::empty()
    } else {
        all_expired_ids(queue, nodes.drop_last(), now) + expired_ids(queue.queue(nodes.last()), now)
    }
}

/// The number of tasks queued for the given nodes.
pub open spec fn task_count(queue: TaskQueue, nodes: Seq<Seq<char>>) -> nat
    decreases nodes.len(),
{
    if nodes.len() == 0 {
        0
    } else {
        task_count(queue, nodes.drop_last()) + queue.queue(nodes.last()).len()
    }
}

proof fn lemma_filter_sound(
    queue: Seq<QueuedTask>,
    keep: spec_fn(QueuedTask) -> bool,
    max_depth: nat,
    ttl: u64,
)
    requires
        is_sound(queue, max_depth, ttl),
    ensures
        is_sound(queue.filter(keep), max_depth, ttl),
        queue.filter(keep).len() <= queue.len(),
    decreases queue.len(),
{
    reveal(Seq::filter);
    if queue.len() > 0 {
        let rest = queue.drop_last();
        assert(is_sound(rest, max_depth, ttl)) by {
            assert forall|i: int| 0 <= i < rest.len() implies (#[trigger] rest[i]).ttl == ttl by {
                assert(rest[i] == queue[i]);
            }
        }
        lemma_filter_sound(rest, keep, max_depth, ttl);
        assert(queue.last().ttl == ttl);
        let kept = rest.filter(keep);
        assert(kept.len() <= rest.len());
        assert forall|i: int| 0 <= i < queue.filter(keep).len() implies (#[trigger] queue.filter(
            keep,
        )[i]).ttl == ttl by {
            if i < kept.len() {
                assert(queue.filter(keep)[i] == kept[i]);
            }
        }
    }
}

proof fn lemma_filter_step<T>(s: Seq<T>, i: int, keep: spec_fn(T) -> bool)
    requires
        0 <= i < s.len(),
    ensures
        s.take(i + 1).filter(keep) == if keep(s[i]) {
            s.take(i).filter(keep).push(s[i])
        } else {
            s.take(i).filter(keep)
        },
{
    reveal(Seq::filter);
    assert(s.take(i + 1).drop_last() =~= s.take(i));
    assert(s.take(i + 1).last() == s[i]);
}

fn drop_task(queue: VecDeque<QueuedTask>, task_id: &str) -> (kept: VecDeque<QueuedTask>)
    ensures
        kept@ == without_task(queue@, task_id@),
{
    let ghost all = queue@;
    let ghost keep = |t: QueuedTask| t.task_id@ != task_id@;
    let wanted = task_id.to_owned();
    let mut queue = queue;
    let mut kept: VecDeque<QueuedTask> = VecDeque::new();
    let ghost mut i: int = 0;
    proof {
        reveal(Seq::filter);
        assert(all.skip(0) =~= all);
        assert(all.take(0).filter(keep) =~= Seq::<QueuedTask>::empty());
    }
    while queue.len() > 0
        invariant
            0 <= i <= all.len(),
            queue@ == all.skip(i),
            kept@ == all.take(i).filter(keep),
            keep == (|t: QueuedTask| t.task_id@ != task_id@),
            wanted@ == task_id@,
        decreases queue@.len(),
    {
        proof {
            lemma_filter_step(all, i, keep);
            assert(all.skip(i)[0] == all[i]);
            assert(all.skip(i).drop_first() =~= all.skip(i + 1));
        }
        match queue.pop_front() {
            Some(task) => {
                assert(task == all[i]);
                if task.task_id != wanted {
                    kept.push_back(task);
                }
            },
            None => {},
        }
        proof {
            assert(queue@ =~= all.skip(i + 1));
            i = i + 1;
        }
    }
    assert(all.take(i) =~= all);
    kept
}

fn split_expired(queue: VecDeque<QueuedTask>, now: u64) -> (parts: (
    VecDeque<QueuedTask>,
    Vec<String>,
))
    ensures
        parts.0@ == unexpired(queue@, now as int),
        texts(parts.1@) == expired_ids(queue@, now as int),
{
    let ghost all = queue@;
    let ghost keep = |t: QueuedTask| !t.expired(now as int);
    let ghost gone = |t: QueuedTask| t.expired(now as int);
    let mut queue = queue;
    let mut kept: VecDeque<QueuedTask> = VecDeque::new();
    let mut ids: Vec<String> = Vec::new();
    let ghost mut i: int = 0;
    proof {
        reveal(Seq::filter);
        assert(all.skip(0) =~= all);
        assert(all.take(0).filter(keep) =~= Seq::<QueuedTask>::empty());
        assert(texts(ids@) =~= all.take(0).filter(gone).map_values(|t: QueuedTask| t.task_id@));
    }
    while queue.len() > 0
        invariant
            0 <= i <= all.len(),
            queue@ == all.skip(i),
            keep == (|t: QueuedTask| !t.expired(now as int)),
            gone == (|t: QueuedTask| t.expired(now as int)),
            kept@ == all.take(i).filter(keep),
            texts(ids@) == all.take(i).filter(gone).map_values(|t: QueuedTask| t.task_id@),
        decreases queue@.len(),
    {
        proof {
            lemma_filter_step(all, i, keep);
            lemma_filter_step(all, i, gone);
            assert(all.skip(i)[0] == all[i]);
            assert(all.skip(i).drop_first() =~= all.skip(i + 1));
        }
        let ghost old_ids = ids@;
        match queue.pop_front() {
            Some(task) => {
                assert(task == all[i]);
                if now > task.enqueued_at && now - task.enqueued_at > task.ttl {
                    ids.push(task.task_id);
                    proof {
                        assert(texts(ids@) =~= texts(old_ids).push(task.task_id@));
                        assert(all.take(i).filter(gone).push(task).map_values(
                            |t: QueuedTask| t.task_id@,
                        ) =~= all.take(i).filter(gone).map_values(
                            |t: QueuedTask| t.task_id@,
                        ).push(task.task_id@));
                    }
                } else {
                    kept.push_back(task);
                }
            },
            None => {},
        }
        proof {
            assert(queue@ =~= all.skip(i + 1));
            i = i + 1;
        }
    }
    assert(all.take(i) =~= all);
    (kept, ids)
}

/// A duplicate acknowledgement changes nothing: what is left after one is left
/// after two.
pub proof fn law_duplicate_ack_is_no_op(queue: Seq<QueuedTask>, task_id: Seq<char>)
    ensures
        without_task(without_task(queue, task_id), task_id) == without_task(queue, task_id),
    decreases queue.len(),
{
    reveal(Seq::filter);
    if queue.len() > 0 {
        law_duplicate_ack_is_no_op(queue.drop_last(), task_id);
        let rest = without_task(queue.drop_last(), task_id);
        if queue.last().task_id@ != task_id {
            assert(rest.push(queue.last()).drop_last() =~= rest);
        }
    }
}

/// An acknowledged task is not replayed, and every other task still is: a task
/// is queued after an acknowledgement if and only if it was queued before and
/// has another identifier.
pub proof fn law_ack_removes_exactly_the_task(
    queue: Seq<QueuedTask>,
    task_id: Seq<char>,
    task: QueuedTask,
)
    ensures
        without_task(queue, task_id).contains(task) <==> queue.contains(task) && task.task_id@
            != task_id,
    decreases queue.len(),
{
    reveal(Seq::filter);
    if queue.len() > 0 {
        let rest = queue.drop_last();
        law_ack_removes_exactly_the_task(rest, task_id, task);
        lemma_contains_last(queue, task);
        if queue.last().task_id@ != task_id {
            let kept = without_task(rest, task_id);
            assert(kept.push(queue.last()).drop_last() =~= kept);
            lemma_contains_last(kept.push(queue.last()), task);
        }
    }
}

/// Expired tasks are not replayed, and fresh ones are: a task is queued after
/// the expired ones are discarded if and only if it was queued before and has
/// not expired.
pub proof fn law_expiry_removes_exactly_the_stale(queue: Seq<QueuedTask>, now: int, task: QueuedTask)
    ensures
        unexpired(queue, now).contains(task) <==> queue.contains(task) && !task.expired(now),
    decreases queue.len(),
{
    reveal(Seq::filter);
    if queue.len() > 0 {
        let rest = queue.drop_last();
        law_expiry_removes_exactly_the_stale(rest, now, task);
        lemma_contains_last(queue, task);
        if !queue.last().expired(now) {
            let kept = unexpired(rest, now);
            assert(kept.push(queue.last()).drop_last() =~= kept);
            lemma_contains_last(kept.push(queue.last()), task);
        }
    }
}

/// Discarding twice at one moment discards nothing more: what has not expired is
/// left as it is.
pub proof fn law_expiry_is_idempotent(queue: Seq<QueuedTask>, now: int)
    ensures
        unexpired(unexpired(queue, now), now) == unexpired(queue, now),
        expired_ids(unexpired(queue, now), now) == Seq::<Seq<char>>::empty(),
    decreases queue.len(),
{
    reveal(Seq::filter);
    if queue.len() > 0 {
        law_expiry_is_idempotent(queue.drop_last(), now);
        let rest = unexpired(queue.drop_last(), now);
        if !queue.last().expired(now) {
            assert(rest.push(queue.last()).drop_last() =~= rest);
        }
    }
    let gone = |t: QueuedTask| t.expired(now);
    assert(unexpired(queue, now).filter(gone).len() == 0) by {
        if queue.len() > 0 {
            let rest = unexpired(queue.drop_last(), now);
            assert(expired_ids(rest, now).len() == rest.filter(gone).len());
            if !queue.last().expired(now) {
                assert(rest.push(queue.last()).drop_last() =~= rest);
            }
        }
    }
    assert(expired_ids(unexpired(queue, now), now) =~= Seq::<Seq<char>>::empty());
}

proof fn lemma_expired_count(queue: Seq<QueuedTask>, now: int)
    ensures
        expired_ids(queue, now).len() + unexpired(queue, now).len() == queue.len(),
    decreases queue.len(),
{
    reveal(Seq::filter);
    if queue.len() > 0 {
        lemma_expired_count(queue.drop_last(), now);
        let gone = |t: QueuedTask| t.expired(now);
        assert(expired_ids(queue, now).len() == queue.filter(gone).len());
        assert(expired_ids(queue.drop_last(), now).len() == queue.drop_last().filter(gone).len());
    }
}

proof fn lemma_expired_ids(queue: Seq<QueuedTask>, now: int, id: Seq<char>)
    ensures
        expired_ids(queue, now).contains(id) <==> exists|task: QueuedTask| #[trigger]
            queue.contains(task) && task.expired(now) && task.task_id@ == id,
{
    let gone = |t: QueuedTask| t.expired(now);
    let stale = queue.filter(gone);
    let ids = expired_ids(queue, now);
    if ids.contains(id) {
        let i = choose|i: int| 0 <= i < ids.len() && ids[i] == id;
        let task = stale[i];
        queue.lemma_filter_pred(gone, i);
        assert(stale.contains(task));
        queue.lemma_filter_contains_rev(gone, task);
        assert(queue.contains(task) && task.expired(now) && task.task_id@ == id);
    }
    if exists|task: QueuedTask| #[trigger]
        queue.contains(task) && task.expired(now) && task.task_id@ == id {
        let task = choose|task: QueuedTask| #[trigger]
            queue.contains(task) && task.expired(now) && task.task_id@ == id;
        let k = choose|k: int| 0 <= k < queue.len() && queue[k] == task;
        queue.lemma_filter_contains(gone, k);
        let i = choose|i: int| 0 <= i < stale.len() && stale[i] == task;
        assert(ids[i] == id);
    }
}

proof fn lemma_drained(
    before: TaskQueue,
    after: TaskQueue,
    nodes: Seq<Seq<char>>,
    now: int,
    id: Seq<char>,
)
    requires
        forall|node_id: Seq<char>| #[trigger]
            after.queue(node_id) == unexpired(before.queue(node_id), now),
    ensures
        all_expired_ids(before, nodes, now).contains(id) <==> exists|
            node_id: Seq<char>,
            task: QueuedTask,
        | #[trigger]
            is_stale(before, nodes, now, node_id, task) && task.task_id@ == id,
        all_expired_ids(before, nodes, now).len() + task_count(after, nodes) == task_count(
            before,
            nodes,
        ),
        all_expired_ids(after, nodes, now) == Seq::<Seq<char>>::empty(),
    decreases nodes.len(),
{
    if nodes.len() > 0 {
        let rest = nodes.drop_last();
        let last = nodes.last();
        lemma_drained(before, after, rest, now, id);
        lemma_expired_count(before.queue(last), now);
        lemma_expired_ids(before.queue(last), now, id);
        law_expiry_is_idempotent(before.queue(last), now);
        assert(after.queue(last) == unexpired(before.queue(last), now));
        assert(all_expired_ids(after, nodes, now) =~= Seq::<Seq<char>>::empty());
        let head = all_expired_ids(before, rest, now);
        let tail = expired_ids(before.queue(last), now);
        let ids = all_expired_ids(before, nodes, now);
        if ids.contains(id) {
            let i = choose|i: int| 0 <= i < ids.len() && ids[i] == id;
            if i < head.len() {
                assert(head[i] == id);
                let (node_id, task) = choose|node_id: Seq<char>, task: QueuedTask| #[trigger]
                    is_stale(before, rest, now, node_id, task) && task.task_id@ == id;
                let k = choose|k: int| 0 <= k < rest.len() && rest[k] == node_id;
                assert(nodes[k] == node_id);
                assert(is_stale(before, nodes, now, node_id, task));
            } else {
                assert(tail[i - head.len()] == id);
                let task = choose|task: QueuedTask| #[trigger]
                    before.queue(last).contains(task) && task.expired(now) && task.task_id@ == id;
                assert(nodes[nodes.len() - 1] == last);
                assert(is_stale(before, nodes, now, last, task));
            }
        }
        if exists|node_id: Seq<char>, task: QueuedTask| #[trigger]
            is_stale(before, nodes, now, node_id, task) && task.task_id@ == id {
            let (node_id, task) = choose|node_id: Seq<char>, task: QueuedTask| #[trigger]
                is_stale(before, nodes, now, node_id, task) && task.task_id@ == id;
            let k = choose|k: int| 0 <= k < nodes.len() && nodes[k] == node_id;
            if k < rest.len() {
                assert(rest[k] == node_id);
                assert(is_stale(before, rest, now, node_id, task));
                let i = choose|i: int| 0 <= i < head.len() && head[i] == id;
                assert(ids[i] == id);
            } else {
                assert(before.queue(last).contains(task));
                let i = choose|i: int| 0 <= i < tail.len() && tail[i] == id;
                assert(ids[head.len() + i] == id);
            }
        }
    }
}

/// A task of one of the given nodes that has expired at `now`.
pub open spec fn is_stale(
    queue: TaskQueue,
    nodes: Seq<Seq<char>>,
    now: int,
    node_id: Seq<char>,
    task: QueuedTask,
) -> bool {
    nodes.contains(node_id) && queue.queue(node_id).contains(task) && task.expired(now)
}

/// Discarding at `now` removes exactly the tasks that are older than the queue's
/// time to live, and reports them: a task stays if and only if its age is at most
/// that, the identifiers are those of the removed tasks of all nodes and there is
/// one for each removal, and discarding again at the same moment reports nothing
/// and removes nothing.
pub proof fn law_drain_is_exact(before: TaskQueue, after: TaskQueue, now: int, id: Seq<char>)
    requires
        before.wf(),
        forall|node_id: Seq<char>| #[trigger]
            after.queue(node_id) == unexpired(before.queue(node_id), now),
    ensures
        forall|node_id: Seq<char>, task: QueuedTask|
            before.queue(node_id).contains(task) ==> (#[trigger] after.queue(node_id).contains(task)
                <==> now - task.enqueued_at <= before.default_ttl()),
        ({
            let ids = all_expired_ids(before, before.nodes(), now);
            &&& ids.contains(id) <==> exists|node_id: Seq<char>, task: QueuedTask|
                {
                    &&& #[trigger] before.queue(node_id).contains(task)
                    &&& now - task.enqueued_at > before.default_ttl()
                    &&& task.task_id@ == id
                }
            &&& ids.len() + task_count(after, before.nodes()) == task_count(before, before.nodes())
        }),
        all_expired_ids(after, before.nodes(), now) == Seq::<Seq<char>>::empty(),
        forall|node_id: Seq<char>|
            unexpired(#[trigger] after.queue(node_id), now) == after.queue(node_id),
{
    let nodes = before.nodes();
    lemma_drained(before, after, nodes, now, id);
    before.law_nodes_cover_all_tasks();
    assert forall|node_id: Seq<char>, task: QueuedTask|
        before.queue(node_id).contains(task) implies (#[trigger] after.queue(node_id).contains(task)
        <==> now - task.enqueued_at <= before.default_ttl()) by {
        before.law_expiry_is_by_age(node_id, task, now);
    }
    assert forall|node_id: Seq<char>, task: QueuedTask| #[trigger]
        before.queue(node_id).contains(task) implies (task.expired(now) <==> now - task.enqueued_at
        > before.default_ttl()) by {
        before.law_expiry_is_by_age(node_id, task, now);
        law_expiry_removes_exactly_the_stale(before.queue(node_id), now, task);
    }
    assert forall|node_id: Seq<char>|
        unexpired(#[trigger] after.queue(node_id), now) == after.queue(node_id) by {
        law_expiry_is_idempotent(before.queue(node_id), now);
    }
    let ids = all_expired_ids(before, nodes, now);
    if ids.contains(id) {
        let (node_id, task) = choose|node_id: Seq<char>, task: QueuedTask| #[trigger]
            is_stale(before, nodes, now, node_id, task) && task.task_id@ == id;
        assert(before.queue(node_id).contains(task));
    }
    if exists|node_id: Seq<char>, task: QueuedTask|
        {
            &&& #[trigger] before.queue(node_id).contains(task)
            &&& now - task.enqueued_at > before.default_ttl()
            &&& task.task_id@ == id
        } {
        let (node_id, task) = choose|node_id: Seq<char>, task: QueuedTask|
            {
                &&& #[trigger] before.queue(node_id).contains(task)
                &&& now - task.enqueued_at > before.default_ttl()
                &&& task.task_id@ == id
            };
        assert(before.queue(node_id).len() > 0);
        assert(is_stale(before, nodes, now, node_id, task));
    }
}

proof fn lemma_contains_last(s: Seq<QueuedTask>, task: QueuedTask)
    requires
        s.len() > 0,
    ensures
        s.contains(task) <==> s.drop_last().contains(task) || s.last() == task,
{
    if s.contains(task) {
        let i = choose|i: int| 0 <= i < s.len() && s[i] == task;
        if i < s.len() - 1 {
            assert(s.drop_last()[i] == task);
        }
    }
    if s.drop_last().contains(task) {
        let i = choose|i: int| 0 <= i < s.drop_last().len() && s.drop_last()[i] == task;
        assert(s[i] == task);
    }
    if s.last() == task {
        assert(s[s.len() - 1] == task);
    }
}

/// A queued task comes last, and only where the queue is full does a task give
/// way: the oldest, and no other. The tasks that stay keep their order, and the
/// queue never gets deeper than it may be.
pub proof fn law_oldest_gives_way(queue: Seq<QueuedTask>, max_depth: nat, task: QueuedTask)
    requires
        queue.len() <= max_depth,
        max_depth > 0,
    ensures
        with_task(queue, max_depth, task).len() <= max_depth,
        with_task(queue, max_depth, task).last() == task,
        queue.len() < max_depth ==> {
            &&& with_task(queue, max_depth, task).len() == queue.len() + 1
            &&& forall|i: int|
                0 <= i < queue.len() ==> #[trigger] with_task(queue, max_depth, task)[i]
                    == queue[i]
            &&& evicted_id(queue, max_depth, task.task_id@) is None
        },
        queue.len() == max_depth ==> {
            &&& with_task(queue, max_depth, task).len() == max_depth
            &&& forall|i: int|
                0 <= i < max_depth - 1 ==> #[trigger] with_task(queue, max_depth, task)[i]
                    == queue[i + 1]
            &&& evicted_id(queue, max_depth, task.task_id@) == Some(queue[0].task_id@)
        },
{
}

/// A queue of no depth keeps nothing and hands back what it is given.
pub proof fn law_no_depth_keeps_nothing(queue: Seq<QueuedTask>, task: QueuedTask)
    ensures
        with_task(queue, 0, task).len() == 0,
        evicted_id(queue, 0, task.task_id@) == Some(task.task_id@),
{
}

/// The tasks that stay keep their order, and so do the identifiers of those that
/// expire: two rows of tasks give what each gives, in that order.
pub proof fn law_order_is_kept(
    head: Seq<QueuedTask>,
    tail: Seq<QueuedTask>,
    now: int,
    task_id: Seq<char>,
)
    ensures
        unexpired(head + tail, now) == unexpired(head, now) + unexpired(tail, now),
        without_task(head + tail, task_id) == without_task(head, task_id) + without_task(
            tail,
            task_id,
        ),
        expired_ids(head + tail, now) == expired_ids(head, now) + expired_ids(tail, now),
        messages(head + tail) == messages(head) + messages(tail),
{
    let fresh = |t: QueuedTask| !t.expired(now);
    let other = |t: QueuedTask| t.task_id@ != task_id;
    let stale = |t: QueuedTask| t.expired(now);
    Seq::filter_distributes_over_add(head, tail, fresh);
    Seq::filter_distributes_over_add(head, tail, other);
    Seq::filter_distributes_over_add(head, tail, stale);
    assert(expired_ids(head + tail, now) =~= expired_ids(head, now) + expired_ids(tail, now));
    assert(messages(head + tail) =~= messages(head) + messages(tail));
}

/// A task by itself stays while it is no older than its time to live, and is
/// reported by its identifier once it is; it is acknowledged by its identifier
/// alone, and its message is the one that was queued.
pub proof fn law_single_task(task: QueuedTask, now: int, task_id: Seq<char>)
    ensures
        now - task.enqueued_at <= task.ttl ==> unexpired(seq![task], now) == seq![task]
            && expired_ids(seq![task], now) == Seq::<Seq<char>>::empty(),
        now - task.enqueued_at > task.ttl ==> unexpired(seq![task], now) == Seq::<
            QueuedTask,
        >::empty() && expired_ids(seq![task], now) == seq![task.task_id@],
        task.task_id@ != task_id ==> without_task(seq![task], task_id) == seq![task],
        task.task_id@ == task_id ==> without_task(seq![task], task_id) == Seq::<
            QueuedTask,
        >::empty(),
        messages(seq![task]) == seq![task.msg],
{
    reveal(Seq::filter);
    reveal_with_fuel(Seq::filter, 3);
    assert(seq![task].drop_last() =~= Seq::<QueuedTask>::empty());
    assert(seq![task].last() == task);
    assert(Seq::<QueuedTask>::empty().push(task) =~= seq![task]);
    assert(seq![task].map_values(|t: QueuedTask| t.task_id@) =~= seq![task.task_id@]);
    assert(expired_ids(seq![task], now) =~= if task.expired(now) {
        seq![task.task_id@]
    } else {
        Seq::<Seq<char>>::empty()
    });
    assert(messages(seq![task]) =~= seq![task.msg]);
}

} // verus!
