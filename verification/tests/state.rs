use peat_sapient::bridge::SapientUpdate;
use peat_sapient::clock::{now_proto_ts, saturated, timestamp_at, wrap_i32, wrap_i64, Clock};
use peat_sapient::proto::{Content, Control, ProtoTimestamp, SapientMessage, Task};
use peat_sapient::rate_limit::{DetectionLimiter, RateLimitConfig, TokenBucket};
use peat_sapient::registry::{
    get_node, get_position, new_registry, remove, silent_nodes, upsert, upsert_at,
};
use peat_sapient::schema::{
    CapabilityAdvertisement, OperationalStatus, TrackPosition, WireEnum,
};
use peat_sapient::string_map::StringMap;
use peat_sapient::task_queue::TaskQueue;
use peat_sapient::watchdog::sweep;
use std::future::Future;
use std::sync::Arc;
use std::time::Duration;

const SECOND: u64 = 1_000_000_000;
const MILLI: u64 = 1_000_000;

fn paused<F: Future>(work: F) -> F::Output {
    tokio::runtime::Builder::new_current_thread()
        .enable_time()
        .start_paused(true)
        .build()
        .unwrap()
        .block_on(work)
}

fn limiter(per_sec: u64, burst: u32) -> DetectionLimiter {
    DetectionLimiter::new(RateLimitConfig { max_per_second: per_sec * SECOND, burst_size: burst })
}

#[test]
fn burst_allows_exactly_burst_size() {
    paused(async {
        let mut l = limiter(10, 3);
        assert!(l.check("node-1"), "1st");
        assert!(l.check("node-1"), "2nd");
        assert!(l.check("node-1"), "3rd");
        assert!(!l.check("node-1"), "4th exceeds burst");
    })
}

#[test]
fn tokens_refill_after_interval() {
    paused(async {
        let mut l = limiter(10, 1);
        assert!(l.check("node-1"));
        assert!(!l.check("node-1"));
        tokio::time::advance(Duration::from_millis(100)).await;
        assert!(l.check("node-1"), "token should have refilled");
    })
}

#[test]
fn partial_refill_not_enough_for_token() {
    paused(async {
        let mut l = limiter(10, 1);
        assert!(l.check("node-1"));
        assert!(!l.check("node-1"));
        tokio::time::advance(Duration::from_millis(50)).await;
        assert!(!l.check("node-1"), "0.5 tokens is not enough for one detection");
    })
}

#[test]
fn different_nodes_have_independent_buckets() {
    paused(async {
        let mut l = limiter(10, 1);
        assert!(l.check("node-1"));
        assert!(!l.check("node-1"));
        assert!(l.check("node-2"));
    })
}

#[test]
fn zero_rate_disables_limiting() {
    let mut l = limiter(0, 3);
    for _ in 0..20 {
        assert!(l.check("node-1"), "zero rate should disable limiting");
    }
}

#[test]
fn zero_burst_disables_limiting() {
    let mut l = limiter(10, 0);
    for _ in 0..20 {
        assert!(l.check("node-1"), "zero burst should disable limiting");
    }
}

#[test]
fn fractional_rates_accumulate() {
    let mut l =
        DetectionLimiter::new(RateLimitConfig { max_per_second: SECOND / 2, burst_size: 1 });
    assert!(l.check_at("n", 0));
    assert!(!l.check_at("n", SECOND));
    assert!(l.check_at("n", 2 * SECOND));
}

#[test]
fn sustained_rate_bounds_what_passes() {
    let mut l = limiter(10, 5);
    let mut passed = 0;
    for step in 0..1000u64 {
        if l.check_at("n", step * 10 * MILLI) {
            passed += 1;
        }
    }
    assert_eq!(passed, 5 + 99);
}

#[test]
fn every_window_is_bounded_by_burst_and_rate() {
    let mut l = limiter(2, 3);
    let step = SECOND / 10;
    let mut passed = Vec::new();
    for i in 0..100u64 {
        let quiet = (30..60).contains(&i);
        passed.push(!quiet && l.check_at("node-1", i * step));
        l.check_at("node-2", i * step);
    }
    for first in 0..100usize {
        for last in first..100usize {
            let grants = passed[first..=last].iter().filter(|p| **p).count() as u64;
            let time = (last - first) as u64 * step;
            assert!(grants * SECOND <= 3 * SECOND + time * 2, "window {first}..={last}");
        }
    }
    assert_eq!(passed[60..=70].iter().filter(|p| **p).count(), 5, "idle time saves up a burst only");
}

#[test]
fn calls_for_other_nodes_change_nothing() {
    let mut alone = limiter(2, 3);
    let mut shared = limiter(2, 3);
    for i in 0..50u64 {
        let now = i * SECOND / 10;
        shared.check_at("other", now);
        assert_eq!(alone.check_at("node-1", now), shared.check_at("node-1", now));
    }
}

#[test]
fn bucket_never_holds_more_than_its_capacity() {
    let mut bucket =
        TokenBucket::new(&RateLimitConfig { max_per_second: 10 * SECOND, burst_size: 2 }, 0);
    assert!(bucket.try_consume(0));
    let granted = (0..10).filter(|_| bucket.try_consume(3600 * SECOND)).count();
    assert_eq!(granted, 2);
}

fn make_capability(node_id: &str) -> CapabilityAdvertisement {
    CapabilityAdvertisement {
        node_id: node_id.to_string(),
        advertised_at: None,
        capabilities: vec![],
        resources: None,
        operational_status: WireEnum::Known(OperationalStatus::Ready),
    }
}

fn make_position(lat: f64, lon: f64) -> TrackPosition {
    TrackPosition { latitude: lat.to_bits(), longitude: lon.to_bits(), ..Default::default() }
}

#[test]
fn insert_and_retrieve_node() {
    let mut registry = new_registry();
    upsert(&mut registry, "node-1", Some(make_capability("node-1")), None);
    let node = get_node(&registry, "node-1").unwrap();
    assert_eq!(node.node_id, "node-1");
    assert_eq!(
        node.capability.unwrap().operational_status,
        WireEnum::Known(OperationalStatus::Ready)
    );
}

#[test]
fn position_is_none_before_status_report() {
    let mut registry = new_registry();
    upsert(&mut registry, "node-2", Some(make_capability("node-2")), None);
    assert!(get_position(&registry, "node-2").is_none());
}

#[test]
fn position_set_after_upsert_with_position() {
    let mut registry = new_registry();
    upsert(&mut registry, "node-3", None, Some(make_position(51.5, -0.1)));
    let pos = get_position(&registry, "node-3").unwrap();
    assert!((f64::from_bits(pos.latitude) - 51.5).abs() < 1e-9);
    assert!((f64::from_bits(pos.longitude) - (-0.1)).abs() < 1e-9);
}

#[test]
fn upsert_updates_existing_capability() {
    let mut registry = new_registry();
    upsert(&mut registry, "node-4", Some(make_capability("node-4")), None);
    let mut cap2 = make_capability("node-4");
    cap2.operational_status = WireEnum::Known(OperationalStatus::Degraded);
    upsert(&mut registry, "node-4", Some(cap2), None);
    let node = get_node(&registry, "node-4").unwrap();
    assert_eq!(
        node.capability.unwrap().operational_status,
        WireEnum::Known(OperationalStatus::Degraded)
    );
}

#[test]
fn capability_preserved_when_none_passed() {
    let mut registry = new_registry();
    upsert(&mut registry, "node-5", Some(make_capability("node-5")), None);
    upsert(&mut registry, "node-5", None, Some(make_position(10.0, 20.0)));
    let node = get_node(&registry, "node-5").unwrap();
    assert!(node.capability.is_some(), "capability should be preserved");
    assert!(node.last_position.is_some(), "position should be set");
}

#[test]
fn position_preserved_when_none_passed() {
    let mut registry = new_registry();
    upsert_at(&mut registry, "a", None, Some(make_position(10.0, 20.0)), 1);
    upsert_at(&mut registry, "b", None, None, 2);
    upsert_at(&mut registry, "a", Some(make_capability("a")), None, 3);
    assert_eq!(get_position(&registry, "a"), Some(make_position(10.0, 20.0)));
    assert_eq!(get_position(&registry, "b"), None);
    assert_eq!(get_node(&registry, "a").unwrap().last_seen, 3);
    assert_eq!(get_node(&registry, "b").unwrap().last_seen, 2);
}

#[test]
fn unknown_node_get_position_returns_none() {
    assert!(get_position(&new_registry(), "ghost-node").is_none());
}

#[test]
fn unknown_node_get_node_returns_none() {
    assert!(get_node(&new_registry(), "ghost-node").is_none());
}

#[test]
fn remove_drops_node() {
    let mut registry = new_registry();
    upsert(&mut registry, "node-6", Some(make_capability("node-6")), None);
    remove(&mut registry, "node-6");
    assert!(get_node(&registry, "node-6").is_none());
}

#[test]
fn last_seen_updates_on_upsert() {
    paused(async {
        let mut registry = new_registry();
        upsert(&mut registry, "node-7", Some(make_capability("node-7")), None);
        let t1 = get_node(&registry, "node-7").unwrap().last_seen;
        tokio::time::advance(Duration::from_millis(5)).await;
        upsert(&mut registry, "node-7", None, None);
        let t2 = get_node(&registry, "node-7").unwrap().last_seen;
        assert!(t2 >= t1, "last_seen should advance on upsert");
        assert_eq!(t2 - t1, 5 * MILLI);
        assert_eq!(registry.now(), 5 * MILLI);
    })
}

#[test]
fn silence_begins_at_two_intervals() {
    let mut registry = new_registry();
    upsert_at(&mut registry, "n", None, None, 100);
    assert!(silent_nodes(&registry, 50, 199).is_empty());
    assert_eq!(silent_nodes(&registry, 50, 200), vec!["n".to_string()]);
    assert!(silent_nodes(&registry, 50, 0).is_empty());
    assert!(silent_nodes(&registry, u64::MAX, u64::MAX).is_empty());
}

fn gone(updates: Vec<SapientUpdate>) -> Vec<String> {
    updates
        .into_iter()
        .map(|update| match update {
            SapientUpdate::NodeDisconnected { node_id } => node_id,
            other => panic!("unexpected update: {other:?}"),
        })
        .collect()
}

#[test]
fn silent_node_beyond_two_intervals_disconnects() {
    let mut registry = new_registry();
    let interval = 5 * SECOND;
    upsert_at(&mut registry, "node-1", None, None, 0);
    assert!(gone(sweep(&mut registry, interval, 0)).is_empty());
    assert_eq!(gone(sweep(&mut registry, interval, interval * 2 + MILLI)), ["node-1"]);
    assert!(gone(sweep(&mut registry, interval, interval * 3)).is_empty());
}

#[test]
fn node_removed_from_registry_on_disconnect() {
    let mut registry = new_registry();
    let interval = 5 * SECOND;
    upsert_at(&mut registry, "node-1", None, None, 0);
    sweep(&mut registry, interval, interval * 2 + MILLI);
    assert!(
        get_node(&registry, "node-1").is_none(),
        "node should be removed from registry after disconnect"
    );
}

#[test]
fn active_node_is_not_disconnected() {
    let mut registry = new_registry();
    let interval = 5 * SECOND;
    upsert_at(&mut registry, "node-1", None, None, 0);
    assert!(sweep(&mut registry, interval, interval * 3 / 2).is_empty());
    upsert_at(&mut registry, "node-1", None, None, interval * 3 / 2);
    assert!(
        sweep(&mut registry, interval, interval * 3).is_empty(),
        "active node should not receive NodeDisconnected"
    );
}

#[test]
fn only_silent_node_disconnects_when_multiple_nodes_present() {
    let mut registry = new_registry();
    let interval = 5 * SECOND;
    upsert_at(&mut registry, "silent-node", None, None, 0);
    upsert_at(&mut registry, "active-node", None, None, 0);
    upsert_at(&mut registry, "active-node", None, None, interval * 3 / 2);
    assert_eq!(gone(sweep(&mut registry, interval, interval * 2 + MILLI)), ["silent-node"]);
    assert!(
        get_node(&registry, "active-node").is_some(),
        "active-node should still be in registry"
    );
}

fn task_msg(task_id: &str) -> SapientMessage {
    SapientMessage {
        node_id: Some("hldmm-1".into()),
        destination_id: Some("dlmm-1".into()),
        content: Some(Content::Task(Task {
            task_id: Some(task_id.to_string()),
            task_name: Some("test".into()),
            control: Some(WireEnum::Known(Control::Start)),
            ..Default::default()
        })),
        ..Default::default()
    }
}

fn task_ids(msgs: &[Arc<SapientMessage>]) -> Vec<String> {
    msgs.iter()
        .filter_map(|m| match &m.content {
            Some(Content::Task(t)) => t.task_id.clone(),
            _ => None,
        })
        .collect()
}

fn enqueue(q: &mut TaskQueue, node_id: &str, task_id: &str) -> Option<String> {
    q.enqueue(node_id, task_id.to_string(), task_msg(task_id))
}

#[test]
fn enqueue_adds_task_to_pending() {
    let mut q = TaskQueue::new(10, 60 * SECOND);
    enqueue(&mut q, "node-1", "task-a");
    assert_eq!(q.pending_for("node-1").len(), 1);
}

#[test]
fn pending_for_unknown_node_returns_empty() {
    let q = TaskQueue::new(10, 60 * SECOND);
    assert!(q.pending_for("ghost").is_empty());
}

#[test]
fn pending_for_returns_insertion_order() {
    let mut q = TaskQueue::new(10, 60 * SECOND);
    enqueue(&mut q, "node-1", "task-a");
    enqueue(&mut q, "node-1", "task-b");
    enqueue(&mut q, "node-1", "task-c");
    assert_eq!(task_ids(&q.pending_for("node-1")), ["task-a", "task-b", "task-c"]);
}

#[test]
fn ack_removes_acknowledged_task() {
    let mut q = TaskQueue::new(10, 60 * SECOND);
    enqueue(&mut q, "node-1", "task-a");
    enqueue(&mut q, "node-1", "task-b");
    q.ack("node-1", "task-a");
    assert_eq!(task_ids(&q.pending_for("node-1")), ["task-b"]);
}

#[test]
fn ack_unknown_task_is_noop() {
    let mut q = TaskQueue::new(10, 60 * SECOND);
    enqueue(&mut q, "node-1", "task-a");
    q.ack("node-1", "ghost-task");
    assert_eq!(q.pending_for("node-1").len(), 1);
}

#[test]
fn ack_on_unknown_node_is_noop() {
    let mut q = TaskQueue::new(10, 60 * SECOND);
    q.ack("ghost-node", "task-x");
    assert!(q.is_empty_for("ghost-node"));
}

#[test]
fn queue_full_evicts_oldest_task() {
    let mut q = TaskQueue::new(2, 60 * SECOND);
    assert_eq!(enqueue(&mut q, "node-1", "task-a"), None);
    assert_eq!(enqueue(&mut q, "node-1", "task-b"), None);
    assert_eq!(enqueue(&mut q, "node-1", "task-c"), Some("task-a".to_string()));
    let ids = task_ids(&q.pending_for("node-1"));
    assert_eq!(ids.len(), 2);
    assert!(!ids.contains(&"task-a".to_string()), "task-a should have been evicted");
    assert!(ids.contains(&"task-b".to_string()));
    assert!(ids.contains(&"task-c".to_string()));
}

#[test]
fn queue_without_depth_keeps_nothing() {
    let mut q = TaskQueue::new(0, 60 * SECOND);
    assert_eq!(enqueue(&mut q, "node-1", "task-a"), Some("task-a".to_string()));
    assert_eq!(enqueue(&mut q, "node-1", "task-b"), Some("task-b".to_string()));
    assert!(q.pending_for("node-1").is_empty());
    assert!(q.is_empty_for("node-1"));
}

#[test]
fn queue_of_depth_one_keeps_the_newest_task() {
    let mut q = TaskQueue::new(1, 60 * SECOND);
    assert_eq!(enqueue(&mut q, "node-1", "task-a"), None);
    assert_eq!(enqueue(&mut q, "node-1", "task-b"), Some("task-a".to_string()));
    assert_eq!(task_ids(&q.pending_for("node-1")), ["task-b"]);
}

#[test]
fn pending_leaves_out_expired_tasks() {
    paused(async {
        let mut q = TaskQueue::new(10, 30 * SECOND);
        enqueue(&mut q, "node-1", "a");
        tokio::time::advance(Duration::from_secs(30)).await;
        assert_eq!(task_ids(&q.pending_for("node-1")), ["a"], "age equal to the TTL stays");
        tokio::time::advance(Duration::from_secs(1)).await;
        enqueue(&mut q, "node-1", "b");
        assert_eq!(task_ids(&q.pending_for("node-1")), ["b"]);
        assert_eq!(q.drain_expired(), ["a"], "looking at the queue did not change it");
        assert!(q.drain_expired().is_empty(), "a second drain finds nothing");
        assert_eq!(task_ids(&q.pending_for("node-1")), ["b"]);
    })
}

#[test]
fn pending_at_a_time_goes_by_that_time() {
    let mut q = TaskQueue::new(10, 30);
    q.enqueue_at("n", "a".to_string(), Arc::new(task_msg("a")), 0);
    q.enqueue_at("n", "b".to_string(), Arc::new(task_msg("b")), 31);
    assert_eq!(task_ids(&q.pending_at("n", 30)), ["a", "b"]);
    assert_eq!(task_ids(&q.pending_at("n", 31)), ["b"]);
    assert!(q.pending_at("n", 62).is_empty());
}

#[test]
fn is_empty_for_unknown_node_returns_true() {
    let q = TaskQueue::new(10, 60 * SECOND);
    assert!(q.is_empty_for("ghost"));
}

#[test]
fn is_empty_for_returns_false_when_tasks_present() {
    let mut q = TaskQueue::new(10, 60 * SECOND);
    enqueue(&mut q, "node-1", "task-a");
    assert!(!q.is_empty_for("node-1"));
}

#[test]
fn nodes_have_independent_queues() {
    let mut q = TaskQueue::new(10, 60 * SECOND);
    enqueue(&mut q, "node-1", "task-a");
    enqueue(&mut q, "node-2", "task-b");
    assert_eq!(q.pending_for("node-1").len(), 1);
    assert_eq!(q.pending_for("node-2").len(), 1);
    q.ack("node-1", "task-a");
    assert!(q.is_empty_for("node-1"));
    assert!(!q.is_empty_for("node-2"));
}

#[test]
fn drain_expired_removes_stale_tasks() {
    paused(async {
        let mut q = TaskQueue::new(10, 30 * SECOND);
        enqueue(&mut q, "node-1", "task-old");
        tokio::time::advance(Duration::from_secs(31)).await;
        assert_eq!(q.drain_expired(), ["task-old"]);
        assert!(q.is_empty_for("node-1"), "stale task should be expired");
    })
}

#[test]
fn drain_expired_preserves_fresh_tasks() {
    paused(async {
        let mut q = TaskQueue::new(10, 60 * SECOND);
        enqueue(&mut q, "node-1", "task-fresh");
        tokio::time::advance(Duration::from_secs(30)).await;
        assert!(q.drain_expired().is_empty());
        assert_eq!(q.pending_for("node-1").len(), 1, "fresh task should survive");
    })
}

#[test]
fn drain_expired_selective_within_node() {
    paused(async {
        let mut q = TaskQueue::new(10, 30 * SECOND);
        enqueue(&mut q, "node-1", "task-old");
        tokio::time::advance(Duration::from_secs(31)).await;
        enqueue(&mut q, "node-1", "task-fresh");
        q.drain_expired();
        let ids = task_ids(&q.pending_for("node-1"));
        assert_eq!(ids, ["task-fresh"], "only the fresh task should remain");
    })
}

#[test]
fn second_ack_changes_nothing() {
    let mut q = TaskQueue::new(10, 60 * SECOND);
    enqueue(&mut q, "n", "a");
    enqueue(&mut q, "n", "b");
    q.ack("n", "a");
    q.ack("n", "a");
    assert_eq!(task_ids(&q.pending_for("n")), ["b"]);
}

#[test]
fn string_map_holds_one_value_per_key() {
    let mut map: StringMap<u8> = StringMap::new();
    assert_eq!(map.insert("a", 1), None);
    assert_eq!(map.insert("b", 2), None);
    assert_eq!(map.insert("a", 3), Some(1));
    assert_eq!(map.len(), 2);
    assert_eq!(map.get("a"), Some(&3));
    assert!(map.contains_key("b"));
    let key = map.entry_at(1).0.clone();
    let value = *map.entry_at(1).1;
    assert_eq!(map.replace_at(1, 9), value);
    assert_eq!(map.get(&key), Some(&9));
    assert_eq!(map.insert(&key, value), Some(9));
    assert_eq!(map.remove("a"), Some(3));
    assert_eq!(map.remove("a"), None);
    assert_eq!(map.get("a"), None);
}

#[test]
fn clock_counts_nanoseconds_from_its_start() {
    paused(async {
        let clock = Clock::start();
        assert_eq!(clock.now(), 0);
        tokio::time::advance(Duration::from_millis(7)).await;
        assert_eq!(clock.now(), 7 * MILLI);
    })
}

#[test]
fn timestamps_split_seconds_and_nanoseconds() {
    assert_eq!(timestamp_at(0), ProtoTimestamp { seconds: 0, nanos: 0 });
    assert_eq!(
        timestamp_at(1_700_000_000_123_456_789),
        ProtoTimestamp { seconds: 1_700_000_000, nanos: 123_456_789 }
    );
    let now = now_proto_ts();
    assert!(now.seconds > 1_600_000_000);
    assert!((0..1_000_000_000).contains(&now.nanos));
}

#[test]
fn numbers_wrap_and_saturate() {
    assert_eq!(saturated(5), 5);
    assert_eq!(saturated(u128::MAX), u64::MAX);
    assert_eq!(wrap_i64(u64::MAX), -1);
    assert_eq!(wrap_i64(1 << 63), i64::MIN);
    assert_eq!(wrap_i32(7), 7);
    assert_eq!(wrap_i32(u32::MAX), -1);
}
