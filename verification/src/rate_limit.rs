//! Per-node token buckets for `DetectionReport`s.
//!
//! Tokens refill at the configured rate up to the burst size. A detection that
//! finds no whole token is dropped: a stale track is worse than a dropped one.
//! A rate or a burst size of zero disables limiting.

use crate::clock::Clock;
use crate::string_map::StringMap;
use vstd::prelude::*;

verus! {

/// Parts of a token: one nanosecond at a rate of one billionth of a token per
/// second refills one part.
pub const TOKEN: u128 = 1_000_000_000_000_000_000;

/// Limits of the rate.
#[derive(Clone, Copy, Debug, PartialEq, Eq, Structural)]
pub struct RateLimitConfig {
    /// Sustained rate in billionths of a detection per second. Zero disables
    /// limiting.
    pub max_per_second: u64,
    /// Largest number of tokens. Zero disables limiting.
    pub burst_size: u32,
}

impl RateLimitConfig {
    /// Whether these limits limit anything.
    pub open spec fn limits(&self) -> bool {
        self.max_per_second > 0 && self.burst_size > 0
    }
}

/// Tokens of one node.
#[derive(Clone, Copy, Debug, PartialEq, Eq, Structural)]
pub struct TokenBucket {
    tokens: u128,
    capacity: u128,
    refill_rate: u64,
    last_check: u64,
}

/// The contents of a token bucket, in parts of a token.
#[verifier::ext_equal]
pub struct BucketModel {
    pub tokens: int,
    pub capacity: int,
    pub refill_rate: int,
    pub last_check: int,
}

impl View for TokenBucket {
    type V = BucketModel;

    closed spec fn view(&self) -> BucketModel {
        BucketModel {
            tokens: self.tokens as int,
            capacity: self.capacity as int,
            refill_rate: self.refill_rate as int,
            last_check: self.last_check as int,
        }
    }
}

impl BucketModel {
    /// A bucket never holds more than its capacity.
    pub open spec fn within_capacity(self) -> bool {
        0 <= self.tokens <= self.capacity && self.refill_rate >= 0
    }

    /// The time between the last check and `now`.
    pub open spec fn elapsed(self, now: int) -> int {
        if now >= self.last_check {
            now - self.last_check
        } else {
            0
        }
    }

    /// The tokens there are at `now`, before anything is taken.
    pub open spec fn refilled(self, now: int) -> int {
        if self.tokens + self.elapsed(now) * self.refill_rate <= self.capacity {
            self.tokens + self.elapsed(now) * self.refill_rate
        } else {
            self.capacity
        }
    }

    /// Whether a check at `now` finds a token.
    pub open spec fn grants(self, now: int) -> bool {
        self.refilled(now) >= TOKEN
    }

    /// The bucket after a check at `now`.
    pub open spec fn checked(self, now: int) -> BucketModel {
        BucketModel {
            tokens: if self.grants(now) {
                self.refilled(now) - TOKEN
            } else {
                self.refilled(now)
            },
            last_check: now,
            ..self
        }
    }
}

/// The full bucket of a node that is seen for the first time at `now`.
pub open spec fn full_bucket(config: RateLimitConfig, now: int) -> BucketModel {
    BucketModel {
        tokens: config.burst_size * TOKEN,
        capacity: config.burst_size * TOKEN,
        refill_rate: config.max_per_second as int,
        last_check: now,
    }
}

impl TokenBucket {
    /// A full bucket.
    pub fn new(config: &RateLimitConfig, now: u64) -> (bucket: Self)
        ensures
            bucket@ == full_bucket(*config, now as int),
    {
        proof {
            assert(config.burst_size * TOKEN <= u128::MAX) by (nonlinear_arith)
                requires
                    config.burst_size <= u32::MAX,
                    TOKEN == 1_000_000_000_000_000_000,
            ;
        }
        let capacity: u128 = config.burst_size as u128 * TOKEN;
        TokenBucket {
            tokens: capacity,
            capacity,
            refill_rate: config.max_per_second,
            last_check: now,
        }
    }

    /// Takes a token, if there is a whole one at `now`.
    pub fn try_consume(&mut self, now: u64) -> (granted: bool)
        requires
            old(self)@.within_capacity(),
        ensures
            granted == old(self)@.grants(now as int),
            final(self)@ == old(self)@.checked(now as int),
            final(self)@.within_capacity(),
    {
        let elapsed: u64 = if now >= self.last_check {
            now - self.last_check
        } else {
            0
        };
        proof {
            assert(0 <= elapsed * self.refill_rate <= u128::MAX) by (nonlinear_arith)
                requires
                    0 <= elapsed <= u64::MAX,
                    0 <= self.refill_rate <= u64::MAX,
            ;
        }
        let gained: u128 = elapsed as u128 * self.refill_rate as u128;
        self.last_check = now;
        if gained <= self.capacity - self.tokens {
            self.tokens = self.tokens + gained;
        } else {
            self.tokens = self.capacity;
        }
        if self.tokens >= TOKEN {
            self.tokens = self.tokens - TOKEN;
            true
        } else {
            false
        }
    }
}

/// Per-node limiter.
pub struct DetectionLimiter {
    buckets: StringMap<TokenBucket>,
    config: RateLimitConfig,
    enabled: bool,
    clock: Clock,
}

impl View for DetectionLimiter {
    type V = Map<Seq<char>, BucketModel>;

    closed spec fn view(&self) -> Map<Seq<char>, BucketModel> {
        self.buckets@.map_values(|b: TokenBucket| b@)
    }
}

/// The bucket that a node has at `now`: its own, or a full one.
pub open spec fn bucket_of(
    buckets: Map<Seq<char>, BucketModel>,
    config: RateLimitConfig,
    node_id: Seq<char>,
    now: int,
) -> BucketModel {
    if buckets.dom().contains(node_id) {
        buckets[node_id]
    } else {
        full_bucket(config, now)
    }
}

/// Whether a detection of a node passes at `now`.
pub open spec fn passes(
    buckets: Map<Seq<char>, BucketModel>,
    config: RateLimitConfig,
    node_id: Seq<char>,
    now: int,
) -> bool {
    config.limits() ==> bucket_of(buckets, config, node_id, now).grants(now)
}

/// The buckets after a detection of a node at `now`.
pub open spec fn after_check(
    buckets: Map<Seq<char>, BucketModel>,
    config: RateLimitConfig,
    node_id: Seq<char>,
    now: int,
) -> Map<Seq<char>, BucketModel> {
    if config.limits() {
        buckets.insert(node_id, bucket_of(buckets, config, node_id, now).checked(now))
    } else {
        buckets
    }
}

impl DetectionLimiter {
    pub closed spec fn config(&self) -> RateLimitConfig {
        self.config
    }

    /// The limiter's clock.
    pub closed spec fn clock(&self) -> Clock {
        self.clock
    }

    pub closed spec fn wf(&self) -> bool {
        &&& self.buckets.wf()
        &&& self.enabled == self.config.limits()
        &&& forall|node: Seq<char>| #[trigger]
            self.buckets@.dom().contains(node) ==> self.buckets@[node]@.within_capacity()
    }

    /// A limiter that has seen no node.
    pub fn new(config: RateLimitConfig) -> (limiter: Self)
        ensures
            limiter.wf(),
            limiter.config() == config,
            limiter@ == Map::<Seq<char>, BucketModel>::empty(),
    {
        let limiter = DetectionLimiter {
            buckets: StringMap::new(),
            config,
            enabled: config.max_per_second > 0 && config.burst_size > 0,
            clock: Clock::start(),
        };
        assert(limiter@ =~= Map::<Seq<char>, BucketModel>::empty());
        limiter
    }

    /// Whether a detection of a node is to be forwarded at `now`.
    pub fn check_at(&mut self, node_id: &str, now: u64) -> (forward: bool)
        requires
            old(self).wf(),
        ensures
            final(self).wf(),
            final(self).config() == old(self).config(),
            final(self).clock() == old(self).clock(),
            forward == passes(old(self)@, old(self).config(), node_id@, now as int),
            final(self)@ == after_check(old(self)@, old(self).config(), node_id@, now as int),
    {
        if !self.enabled {
            return true;
        }
        let mut bucket = match self.buckets.get(node_id) {
            Some(bucket) => *bucket,
            None => TokenBucket::new(&self.config, now),
        };
        let ghost before = bucket@;
        proof {
            assert(before == bucket_of(self@, self.config, node_id@, now as int));
            assert(self.config.burst_size * TOKEN >= 0) by (nonlinear_arith)
                requires
                    self.config.burst_size >= 0,
                    TOKEN >= 0,
            ;
        }
        let forward = bucket.try_consume(now);
        self.buckets.insert(node_id, bucket);
        proof {
            assert(self@ =~= old(self)@.insert(node_id@, before.checked(now as int)));
        }
        forward
    }

    /// Whether a detection of a node is to be forwarded now.
    pub fn check(&mut self, node_id: &str) -> (forward: bool)
        requires
            old(self).wf(),
        ensures
            final(self).wf(),
            final(self).config() == old(self).config(),
            final(self).clock() == old(self).clock(),
            exists|now: u64|
                {
                    &&& old(self).clock().reads(now)
                    &&& forward == #[trigger] passes(
                        old(self)@,
                        old(self).config(),
                        node_id@,
                        now as int,
                    )
                    &&& final(self)@ == after_check(
                        old(self)@,
                        old(self).config(),
                        node_id@,
                        now as int,
                    )
                },
    {
        let now: u64 = self.clock.now();
        self.check_at(node_id, now)
    }
}

/// The bucket after checks at the given times.
pub open spec fn after_checks(bucket: BucketModel, times: Seq<int>) -> BucketModel
    decreases times.len(),
{
    if times.len() == 0 {
        bucket
    } else {
        after_checks(bucket, times.drop_last()).checked(times.last())
    }
}

/// How many of the checks at the given times find a token.
pub open spec fn granted(bucket: BucketModel, times: Seq<int>) -> nat
    decreases times.len(),
{
    if times.len() == 0 {
        0
    } else {
        granted(bucket, times.drop_last()) + if after_checks(bucket, times.drop_last()).grants(
            times.last(),
        ) {
            1nat
        } else {
            0nat
        }
    }
}

/// Times that do not run backwards.
pub open spec fn ordered(start: int, times: Seq<int>) -> bool {
    &&& forall|i: int| 0 <= i < times.len() ==> start <= #[trigger] times[i]
    &&& forall|i: int, j: int| 0 <= i <= j < times.len() ==> times[i] <= times[j]
}

proof fn lemma_granted_bound(bucket: BucketModel, times: Seq<int>)
    requires
        bucket.within_capacity(),
        ordered(bucket.last_check, times),
    ensures
        after_checks(bucket, times).within_capacity(),
        after_checks(bucket, times).capacity == bucket.capacity,
        after_checks(bucket, times).refill_rate == bucket.refill_rate,
        after_checks(bucket, times).last_check == if times.len() == 0 {
            bucket.last_check
        } else {
            times.last()
        },
        after_checks(bucket, times).tokens + granted(bucket, times) * TOKEN <= bucket.tokens + (
        after_checks(bucket, times).last_check - bucket.last_check) * bucket.refill_rate,
        times.len() > 0 ==> after_checks(bucket, times).tokens + granted(bucket, times) * TOKEN
            <= bucket.capacity + (times.last() - times[0]) * bucket.refill_rate,
    decreases times.len(),
{
    if times.len() > 0 {
        let rest = times.drop_last();
        assert(ordered(bucket.last_check, rest)) by {
            assert forall|i: int| 0 <= i < rest.len() implies bucket.last_check <= #[trigger] rest[i] by {
                assert(rest[i] == times[i]);
            }
        }
        lemma_granted_bound(bucket, rest);
        let b = after_checks(bucket, rest);
        let now = times.last();
        assert(b.last_check <= now) by {
            if rest.len() > 0 {
                assert(rest.last() == times[rest.len() - 1]);
            } else {
                assert(now == times[0]);
            }
        }
        let d = now - b.last_check;
        let r = bucket.refill_rate;
        assert(d * r >= 0) by (nonlinear_arith)
            requires
                d >= 0,
                r >= 0,
        ;
        assert((now - bucket.last_check) * r == (b.last_check - bucket.last_check) * r + d * r)
            by (nonlinear_arith)
            requires
                d == now - b.last_check,
        ;
        let g = granted(bucket, rest);
        assert((g + 1) * TOKEN == g * TOKEN + TOKEN) by (nonlinear_arith);
        let first = times[0];
        if rest.len() > 0 {
            assert(rest[0] == first);
            assert((now - first) * r == (b.last_check - first) * r + d * r) by (nonlinear_arith)
                requires
                    d == now - b.last_check,
            ;
        } else {
            assert(g * TOKEN == 0) by (nonlinear_arith)
                requires
                    g == 0,
            ;
            assert((now - first) * r == 0) by (nonlinear_arith)
                requires
                    now == first,
            ;
        }
    }
}

/// The limit holds over time: however the checks of a node fall, the number
/// that pass up to some moment is at most what the bucket held at first plus
/// what the rate refills until then. From the first check to the last it is at
/// most the capacity plus what the rate refills in between, however long the
/// bucket was left alone before.
pub proof fn law_rate_is_bounded(bucket: BucketModel, times: Seq<int>)
    requires
        bucket.within_capacity(),
        ordered(bucket.last_check, times),
        times.len() > 0,
    ensures
        granted(bucket, times) * TOKEN <= bucket.tokens + (times.last() - bucket.last_check)
            * bucket.refill_rate,
        granted(bucket, times) * TOKEN <= bucket.capacity + (times.last() - times[0])
            * bucket.refill_rate,
{
    lemma_granted_bound(bucket, times);
}

/// The buckets after checks, each of a node and at a time.
pub open spec fn after_calls(
    buckets: Map<Seq<char>, BucketModel>,
    config: RateLimitConfig,
    calls: Seq<(Seq<char>, int)>,
) -> Map<Seq<char>, BucketModel>
    decreases calls.len(),
{
    if calls.len() == 0 {
        buckets
    } else {
        after_check(
            after_calls(buckets, config, calls.drop_last()),
            config,
            calls.last().0,
            calls.last().1,
        )
    }
}

/// How many of the checks of a node pass.
pub open spec fn passed(
    buckets: Map<Seq<char>, BucketModel>,
    config: RateLimitConfig,
    calls: Seq<(Seq<char>, int)>,
    node: Seq<char>,
) -> nat
    decreases calls.len(),
{
    if calls.len() == 0 {
        0
    } else {
        let rest = calls.drop_last();
        passed(buckets, config, rest, node) + if calls.last().0 == node && passes(
            after_calls(buckets, config, rest),
            config,
            node,
            calls.last().1,
        ) {
            1nat
        } else {
            0nat
        }
    }
}

/// Checks at times that do not run backwards.
pub open spec fn in_order(calls: Seq<(Seq<char>, int)>) -> bool {
    forall|i: int, j: int| 0 <= i <= j < calls.len() ==> calls[i].1 <= calls[j].1
}

/// Every bucket is one of the limiter's and was last checked at `now` or before.
spec fn is_current(
    buckets: Map<Seq<char>, BucketModel>,
    config: RateLimitConfig,
    now: int,
) -> bool {
    forall|node: Seq<char>| #[trigger]
        buckets.dom().contains(node) ==> {
            &&& buckets[node].within_capacity()
            &&& buckets[node].capacity == config.burst_size * TOKEN
            &&& buckets[node].refill_rate == config.max_per_second
            &&& buckets[node].last_check <= now
        }
}

proof fn lemma_stays_current(
    buckets: Map<Seq<char>, BucketModel>,
    config: RateLimitConfig,
    calls: Seq<(Seq<char>, int)>,
    start: int,
    now: int,
)
    requires
        is_current(buckets, config, start),
        start <= now,
        forall|i: int| 0 <= i < calls.len() ==> (#[trigger] calls[i]).1 <= now,
    ensures
        is_current(after_calls(buckets, config, calls), config, now),
    decreases calls.len(),
{
    assert(config.burst_size * TOKEN >= 0) by (nonlinear_arith)
        requires
            config.burst_size >= 0,
            TOKEN >= 0,
    ;
    if calls.len() > 0 {
        let rest = calls.drop_last();
        assert forall|i: int| 0 <= i < rest.len() implies (#[trigger] rest[i]).1 <= now by {
            assert(rest[i] == calls[i]);
        }
        lemma_stays_current(buckets, config, rest, start, now);
        let before = after_calls(buckets, config, rest);
        let node = calls.last().0;
        let time = calls.last().1;
        assert(calls[calls.len() - 1].1 <= now);
        let bucket = bucket_of(before, config, node, time);
        assert(bucket.elapsed(time) * bucket.refill_rate >= 0) by (nonlinear_arith)
            requires
                bucket.elapsed(time) >= 0,
                bucket.refill_rate >= 0,
        ;
    }
}

proof fn lemma_window(
    buckets: Map<Seq<char>, BucketModel>,
    config: RateLimitConfig,
    calls: Seq<(Seq<char>, int)>,
    start: int,
    node: Seq<char>,
)
    requires
        config.limits(),
        is_current(buckets, config, start),
        in_order(calls),
        forall|i: int| 0 <= i < calls.len() ==> start <= (#[trigger] calls[i]).1,
    ensures
        ({
            let after = after_calls(buckets, config, calls);
            let bucket = after[node];
            ||| passed(buckets, config, calls, node) == 0 && after.dom().contains(node)
                == buckets.dom().contains(node) && (after.dom().contains(node) ==> bucket
                == buckets[node])
            ||| {
                &&& calls.len() > 0
                &&& after.dom().contains(node)
                &&& start <= bucket.last_check <= calls.last().1
                &&& bucket.tokens + passed(buckets, config, calls, node) * TOKEN
                    <= config.burst_size * TOKEN + (bucket.last_check - start)
                    * config.max_per_second
            }
        }),
    decreases calls.len(),
{
    if calls.len() > 0 {
        let rest = calls.drop_last();
        let time = calls.last().1;
        assert(in_order(rest)) by {
            assert forall|i: int, j: int| 0 <= i <= j < rest.len() implies rest[i].1 <= rest[j].1 by {
                assert(rest[i] == calls[i] && rest[j] == calls[j]);
            }
        }
        assert forall|i: int| 0 <= i < rest.len() implies start <= (#[trigger] rest[i]).1 by {
            assert(rest[i] == calls[i]);
        }
        lemma_window(buckets, config, rest, start, node);
        assert(start <= calls[calls.len() - 1].1);
        if rest.len() > 0 {
            assert(rest.last() == calls[rest.len() - 1]);
            assert(rest.last().1 <= time);
        }
        assert forall|i: int| 0 <= i < rest.len() implies (#[trigger] rest[i]).1 <= time by {
            assert(calls[i].1 <= calls[calls.len() - 1].1);
        }
        lemma_stays_current(buckets, config, rest, start, time);
        if calls.last().0 == node {
            let before = after_calls(buckets, config, rest);
            let bucket = bucket_of(before, config, node, time);
            let p = passed(buckets, config, rest, node);
            let r = config.max_per_second as int;
            let d = bucket.elapsed(time);
            assert(d * r >= 0 && (time - start) * r >= 0) by (nonlinear_arith)
                requires
                    d >= 0,
                    r >= 0,
                    time >= start,
            ;
            assert((p + 1) * TOKEN == p * TOKEN + TOKEN) by (nonlinear_arith);
            assert(config.burst_size * TOKEN >= 0) by (nonlinear_arith)
                requires
                    config.burst_size >= 0,
                    TOKEN >= 0,
            ;
            if start <= bucket.last_check <= time {
                let s = bucket.last_check - start;
                assert((time - start) * r == s * r + (time - bucket.last_check) * r)
                    by (nonlinear_arith)
                    requires
                        s == bucket.last_check - start,
                ;
            }
            assert(p == 0 ==> p * TOKEN == 0) by (nonlinear_arith);
        }
    }
}

/// The limit holds in every window of time: however the checks of the nodes of a
/// new limiter fall, of any stretch of them no more pass of one node than the
/// burst size and what the rate refills between its first and its last moment.
pub proof fn law_rate_is_bounded_in_every_window(
    config: RateLimitConfig,
    calls: Seq<(Seq<char>, int)>,
    i: int,
    j: int,
    node: Seq<char>,
)
    requires
        config.limits(),
        in_order(calls),
        0 <= i < j <= calls.len(),
    ensures
        passed(
            after_calls(Map::empty(), config, calls.take(i)),
            config,
            calls.subrange(i, j),
            node,
        ) * TOKEN <= config.burst_size * TOKEN + (calls[j - 1].1 - calls[i].1)
            * config.max_per_second,
{
    let start = calls[i].1;
    let fresh = Map::<Seq<char>, BucketModel>::empty();
    let prefix = calls.take(i);
    let window = calls.subrange(i, j);
    assert forall|k: int| 0 <= k < prefix.len() implies (#[trigger] prefix[k]).1 <= start by {
        assert(calls[k].1 <= calls[i].1);
    }
    lemma_stays_current(fresh, config, prefix, start, start);
    let buckets = after_calls(fresh, config, prefix);
    assert(in_order(window)) by {
        assert forall|a: int, b: int| 0 <= a <= b < window.len() implies window[a].1
            <= window[b].1 by {
            assert(window[a] == calls[i + a] && window[b] == calls[i + b]);
        }
    }
    assert forall|k: int| 0 <= k < window.len() implies start <= (#[trigger] window[k]).1 by {
        assert(calls[i].1 <= calls[i + k].1);
    }
    lemma_window(buckets, config, window, start, node);
    let after = after_calls(buckets, config, window);
    let last = calls[j - 1].1;
    assert(window.last() == calls[j - 1]);
    assert(start <= last);
    assert forall|k: int| 0 <= k < window.len() implies (#[trigger] window[k]).1 <= last by {
        assert(calls[i + k].1 <= calls[j - 1].1);
    }
    lemma_stays_current(buckets, config, window, start, last);
    let r = config.max_per_second as int;
    let n = passed(buckets, config, window, node);
    assert(config.burst_size * TOKEN >= 0 && (last - start) * r >= 0) by (nonlinear_arith)
        requires
            config.burst_size >= 0,
            TOKEN >= 0,
            last >= start,
            r >= 0,
    ;
    if n == 0 {
        assert(n * TOKEN == 0) by (nonlinear_arith)
            requires
                n == 0,
        ;
    } else {
        let checked = after[node].last_check;
        assert((checked - start) * r <= (last - start) * r) by (nonlinear_arith)
            requires
                checked <= last,
                r >= 0,
        ;
    }
}

/// The checks of one node.
pub open spec fn calls_of(calls: Seq<(Seq<char>, int)>, node: Seq<char>) -> Seq<(Seq<char>, int)> {
    calls.filter(|call: (Seq<char>, int)| call.0 == node)
}

/// Whether a detection of a node passes depends on that node's checks alone,
/// however those of other nodes fall between them.
pub proof fn law_other_nodes_do_not_matter(
    buckets: Map<Seq<char>, BucketModel>,
    config: RateLimitConfig,
    calls: Seq<(Seq<char>, int)>,
    node: Seq<char>,
    now: int,
)
    ensures
        bucket_of(after_calls(buckets, config, calls), config, node, now) == bucket_of(
            after_calls(buckets, config, calls_of(calls, node)),
            config,
            node,
            now,
        ),
        passes(after_calls(buckets, config, calls), config, node, now) == passes(
            after_calls(buckets, config, calls_of(calls, node)),
            config,
            node,
            now,
        ),
    decreases calls.len(),
{
    reveal(Seq::filter);
    if calls.len() > 0 {
        let rest = calls.drop_last();
        law_other_nodes_do_not_matter(buckets, config, rest, node, now);
        law_other_nodes_do_not_matter(buckets, config, rest, node, calls.last().1);
        let own = calls_of(rest, node);
        if calls.last().0 == node {
            assert(calls_of(calls, node) =~= own.push(calls.last()));
            assert(own.push(calls.last()).drop_last() =~= own);
        }
    }
}

proof fn lemma_burst(config: RateLimitConfig, now: int, n: nat)
    ensures
        ({
            let b = after_checks(full_bucket(config, now), Seq::new(n, |i: int| now));
            &&& b.capacity == config.burst_size * TOKEN
            &&& b.refill_rate == config.max_per_second
            &&& b.last_check == now
            &&& b.tokens == if n <= config.burst_size {
                (config.burst_size - n) * TOKEN
            } else {
                0
            }
        }),
    decreases n,
{
    if n > 0 {
        let m = (n - 1) as nat;
        lemma_burst(config, now, m);
        let times = Seq::new(n, |i: int| now);
        assert(times.drop_last() =~= Seq::new(m, |i: int| now));
        let b = after_checks(full_bucket(config, now), times.drop_last());
        let burst = config.burst_size as int;
        assert(b.elapsed(now) * b.refill_rate == 0) by (nonlinear_arith)
            requires
                b.elapsed(now) == 0,
        ;
        if m < burst {
            assert((burst - m) * TOKEN >= TOKEN && (burst - m) * TOKEN - TOKEN == (burst - n)
                * TOKEN && (burst - m) * TOKEN <= burst * TOKEN) by (nonlinear_arith)
                requires
                    m < burst,
                    n == m + 1,
                    TOKEN > 0,
            ;
        } else {
            assert(burst * TOKEN >= 0) by (nonlinear_arith)
                requires
                    burst >= 0,
                    TOKEN > 0,
            ;
            assert((burst - m) * TOKEN <= 0) by (nonlinear_arith)
                requires
                    burst <= m,
                    TOKEN > 0,
            ;
            if m == burst {
                assert((burst - m) * TOKEN == 0) by (nonlinear_arith)
                    requires
                        burst == m,
                ;
            }
        }
    }
}

/// A burst passes exactly the burst size: of the checks of a new node at one
/// moment, the one after `n` others passes if and only if `n` is below the
/// burst size.
pub proof fn law_burst_is_exact(config: RateLimitConfig, now: int, n: nat)
    ensures
        after_checks(full_bucket(config, now), Seq::new(n, |i: int| now)).grants(now) <==> n
            < config.burst_size,
{
    lemma_burst(config, now, n);
    let b = after_checks(full_bucket(config, now), Seq::new(n, |i: int| now));
    let burst = config.burst_size as int;
    assert(b.elapsed(now) * b.refill_rate == 0) by (nonlinear_arith)
        requires
            b.elapsed(now) == 0,
    ;
    assert(burst * TOKEN >= 0) by (nonlinear_arith)
        requires
            burst >= 0,
            TOKEN > 0,
    ;
    if n < burst {
        assert((burst - n) * TOKEN >= TOKEN && (burst - n) * TOKEN <= burst * TOKEN)
            by (nonlinear_arith)
            requires
                n < burst,
                TOKEN > 0,
        ;
    }
    if n == burst {
        assert((burst - n) * TOKEN == 0) by (nonlinear_arith)
            requires
                burst == n,
        ;
    }
}

/// Nodes have independent buckets: a check of one node changes neither the
/// bucket of another nor whether its detections pass.
pub proof fn law_nodes_are_independent(
    buckets: Map<Seq<char>, BucketModel>,
    config: RateLimitConfig,
    node: Seq<char>,
    other: Seq<char>,
    now: int,
    later: int,
)
    requires
        node != other,
    ensures
        bucket_of(after_check(buckets, config, node, now), config, other, later) == bucket_of(
            buckets,
            config,
            other,
            later,
        ),
        passes(after_check(buckets, config, node, now), config, other, later) == passes(
            buckets,
            config,
            other,
            later,
        ),
{
}

/// Limits of zero let everything through and record nothing.
pub proof fn law_zero_disables(
    buckets: Map<Seq<char>, BucketModel>,
    config: RateLimitConfig,
    node: Seq<char>,
    now: int,
)
    requires
        config.max_per_second == 0 || config.burst_size == 0,
    ensures
        passes(buckets, config, node, now),
        after_check(buckets, config, node, now) == buckets,
{
}

/// A bucket refills at its rate and holds no more than its capacity: after some
/// time it holds what it held and what the rate gives in that time, or is full,
/// whichever is less. Time that runs backwards refills nothing.
pub proof fn law_refill_is_exact(bucket: BucketModel, now: int)
    requires
        bucket.within_capacity(),
    ensures
        now < bucket.last_check ==> bucket.refilled(now) == bucket.tokens,
        now >= bucket.last_check ==> {
            let given = (now - bucket.last_check) * bucket.refill_rate;
            &&& bucket.tokens + given <= bucket.capacity ==> bucket.refilled(now) == bucket.tokens
                + given
            &&& bucket.tokens + given >= bucket.capacity ==> bucket.refilled(now)
                == bucket.capacity
        },
{
    if now < bucket.last_check {
        assert(0 * bucket.refill_rate == 0) by (nonlinear_arith);
    }
}

/// A check passes if and only if there is a whole token, takes exactly that token
/// if it passes and nothing otherwise, and is remembered as the last one. The
/// capacity and the rate stay.
pub proof fn law_check_takes_one_token(bucket: BucketModel, now: int)
    ensures
        bucket.grants(now) <==> bucket.refilled(now) >= 1_000_000_000_000_000_000,
        bucket.checked(now).tokens == bucket.refilled(now) - (if bucket.grants(now) {
            1_000_000_000_000_000_000int
        } else {
            0
        }),
        bucket.checked(now).last_check == now,
        bucket.checked(now).capacity == bucket.capacity,
        bucket.checked(now).refill_rate == bucket.refill_rate,
{
}

/// A node that is new to the limiter has the burst size in whole tokens, and its
/// bucket refills at the sustained rate.
pub proof fn law_new_node_has_a_full_burst(config: RateLimitConfig, now: int)
    ensures
        full_bucket(config, now).tokens == config.burst_size * 1_000_000_000_000_000_000,
        full_bucket(config, now).capacity == config.burst_size * 1_000_000_000_000_000_000,
        full_bucket(config, now).refill_rate == config.max_per_second,
        full_bucket(config, now).last_check == now,
{
}

proof fn lemma_drawn(bucket: BucketModel, now: int, n: nat)
    requires
        bucket.within_capacity(),
        n * TOKEN <= bucket.refilled(now),
    ensures
        ({
            let b = after_checks(bucket, Seq::new(n, |i: int| now));
            &&& b.within_capacity()
            &&& b.capacity == bucket.capacity
            &&& b.refilled(now) == bucket.refilled(now) - n * TOKEN
        }),
    decreases n,
{
    let d = bucket.elapsed(now) * bucket.refill_rate;
    assert(d >= 0) by (nonlinear_arith)
        requires
            d == bucket.elapsed(now) * bucket.refill_rate,
            bucket.elapsed(now) >= 0,
            bucket.refill_rate >= 0,
    ;
    if n == 0 {
        assert(0 * TOKEN == 0);
    } else {
        let m = (n - 1) as nat;
        assert(n * TOKEN == m * TOKEN + TOKEN && m * TOKEN >= 0) by (nonlinear_arith)
            requires
                n == m + 1,
                m >= 0,
                TOKEN >= 0,
        ;
        lemma_drawn(bucket, now, m);
        let times = Seq::new(n, |i: int| now);
        assert(times.drop_last() =~= Seq::new(m, |i: int| now));
        let b = after_checks(bucket, times.drop_last());
        assert(b.grants(now));
        let c = b.checked(now);
        assert(c.elapsed(now) == 0);
        assert(c.elapsed(now) * c.refill_rate == 0) by (nonlinear_arith)
            requires
                c.elapsed(now) == 0,
        ;
    }
}

/// As many checks pass at one moment as there are whole tokens: of the checks of a
/// bucket at `now`, the one after `n` others that passed passes if and only if
/// there is a token more than those took.
pub proof fn law_whole_tokens_pass(bucket: BucketModel, now: int, n: nat)
    requires
        bucket.within_capacity(),
        n * 1_000_000_000_000_000_000 <= bucket.refilled(now),
    ensures
        after_checks(bucket, Seq::new(n, |i: int| now)).grants(now) <==> (n + 1)
            * 1_000_000_000_000_000_000 <= bucket.refilled(now),
{
    lemma_drawn(bucket, now, n);
}

/// A quiet time refills a whole burst: once a bucket has been left alone for as
/// long as the rate takes to fill it, a full burst passes again at one moment,
/// however empty the bucket was.
pub proof fn law_quiet_time_refills_the_burst(
    config: RateLimitConfig,
    bucket: BucketModel,
    now: int,
    n: nat,
)
    requires
        bucket.within_capacity(),
        bucket.capacity == config.burst_size * 1_000_000_000_000_000_000,
        bucket.refill_rate == config.max_per_second,
        now >= bucket.last_check,
        (now - bucket.last_check) * config.max_per_second >= config.burst_size
            * 1_000_000_000_000_000_000,
        n < config.burst_size,
    ensures
        after_checks(bucket, Seq::new(n, |i: int| now)).grants(now),
{
    law_refill_is_exact(bucket, now);
    let burst = config.burst_size as int;
    assert(n * TOKEN <= burst * TOKEN && (n + 1) * TOKEN <= burst * TOKEN) by (nonlinear_arith)
        requires
            0 <= n < burst,
            TOKEN >= 0,
    ;
    law_whole_tokens_pass(bucket, now, n);
}

/// A node that keeps to the rate is never limited: a check that comes at least the
/// time of one token after the last one passes, if the burst size is not zero.
pub proof fn law_spaced_checks_pass(config: RateLimitConfig, bucket: BucketModel, now: int)
    requires
        bucket.within_capacity(),
        bucket.capacity == config.burst_size * 1_000_000_000_000_000_000,
        bucket.refill_rate == config.max_per_second,
        config.limits(),
        now >= bucket.last_check,
        (now - bucket.last_check) * config.max_per_second >= 1_000_000_000_000_000_000,
    ensures
        bucket.grants(now),
{
    law_refill_is_exact(bucket, now);
}

/// How many of the checks are of a node.
pub open spec fn checks_of(calls: Seq<(Seq<char>, int)>, node: Seq<char>) -> nat
    decreases calls.len(),
{
    if calls.len() == 0 {
        0
    } else {
        checks_of(calls.drop_last(), node) + if calls.last().0 == node {
            1nat
        } else {
            0nat
        }
    }
}

proof fn lemma_first_burst(config: RateLimitConfig, calls: Seq<(Seq<char>, int)>, node: Seq<char>)
    requires
        checks_of(calls, node) <= config.burst_size,
        config.limits(),
    ensures
        ({
            let after = after_calls(Map::empty(), config, calls);
            &&& after.dom().contains(node) ==> {
                &&& after[node].within_capacity()
                &&& after[node].capacity == config.burst_size * TOKEN
                &&& after[node].refill_rate == config.max_per_second
                &&& after[node].tokens >= (config.burst_size - checks_of(calls, node)) * TOKEN
            }
        }),
    decreases calls.len(),
{
    if calls.len() > 0 {
        let rest = calls.drop_last();
        lemma_first_burst(config, rest, node);
        if calls.last().0 == node {
            let now = calls.last().1;
            let before = after_calls(Map::empty(), config, rest);
            let bucket = bucket_of(before, config, node, now);
            let left = config.burst_size - checks_of(rest, node);
            let burst = config.burst_size as int;
            let n = checks_of(rest, node) as int;
            assert(left * TOKEN == (left - 1) * TOKEN + TOKEN && left * TOKEN <= burst * TOKEN
                && burst * TOKEN >= 0) by (nonlinear_arith)
                requires
                    left == burst - n,
                    n >= 0,
                    burst >= 0,
                    TOKEN >= 0,
            ;
            let d = bucket.elapsed(now) * bucket.refill_rate;
            assert(d >= 0) by (nonlinear_arith)
                requires
                    d == bucket.elapsed(now) * bucket.refill_rate,
                    bucket.elapsed(now) >= 0,
                    bucket.refill_rate >= 0,
            ;
        }
    }
}

/// The first detections of every node pass, up to the burst size, whenever they
/// come and however many other nodes send: a check of a new limiter passes if the
/// node has had fewer checks than the burst size.
pub proof fn law_first_burst_passes(
    config: RateLimitConfig,
    calls: Seq<(Seq<char>, int)>,
    node: Seq<char>,
    now: int,
)
    requires
        checks_of(calls, node) < config.burst_size,
    ensures
        passes(after_calls(Map::empty(), config, calls), config, node, now),
{
    if config.limits() {
        lemma_first_burst(config, calls, node);
        let bucket = bucket_of(after_calls(Map::empty(), config, calls), config, node, now);
        let left = config.burst_size - checks_of(calls, node);
        let burst = config.burst_size as int;
        assert(left * TOKEN >= TOKEN && burst * TOKEN >= TOKEN) by (nonlinear_arith)
            requires
                left >= 1,
                burst >= 1,
                TOKEN >= 0,
        ;
        let d = bucket.elapsed(now) * bucket.refill_rate;
        assert(d >= 0) by (nonlinear_arith)
            requires
                d == bucket.elapsed(now) * bucket.refill_rate,
                bucket.elapsed(now) >= 0,
                bucket.refill_rate >= 0,
        ;
    }
}

/// The limiter goes by the bucket of the node: a check passes if and only if that
/// bucket grants it, and leaves that bucket checked and every other as it was. A
/// node without a bucket starts with a full one. Limits of zero limit nothing.
pub proof fn law_check_goes_by_the_bucket_of_the_node(
    buckets: Map<Seq<char>, BucketModel>,
    config: RateLimitConfig,
    node: Seq<char>,
    other: Seq<char>,
    now: int,
)
    requires
        config.max_per_second > 0 && config.burst_size > 0,
    ensures
        ({
            let bucket = if buckets.dom().contains(node) {
                buckets[node]
            } else {
                full_bucket(config, now)
            };
            let after = after_check(buckets, config, node, now);
            &&& passes(buckets, config, node, now) <==> bucket.grants(now)
            &&& after.dom().contains(node) && after[node] == bucket.checked(now)
            &&& other != node ==> (after.dom().contains(other) <==> buckets.dom().contains(other))
            &&& other != node && buckets.dom().contains(other) ==> after[other] == buckets[other]
        }),
{
}

} // verus!
