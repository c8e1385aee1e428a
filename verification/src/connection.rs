//! Roles and reconnection of the TCP connections.

use vstd::arithmetic::power2::{lemma2_to64, lemma_pow2_unfold, pow2};
use vstd::prelude::*;

verus! {

/// Reconnect policy. Delays are in nanoseconds.
#[derive(Clone, Copy, Debug, PartialEq, Eq, Structural)]
pub struct ReconnectConfig {
    /// Delay before the first retry.
    pub initial_delay: u64,
    /// Largest delay between retries.
    pub max_delay: u64,
}

impl Default for ReconnectConfig {
    /// One second at first, thirty seconds at most.
    fn default() -> (config: Self)
        ensures
            config.initial_delay == 1_000_000_000,
            config.max_delay == 30_000_000_000,
    {
        ReconnectConfig { initial_delay: 1_000_000_000, max_delay: 30_000_000_000 }
    }
}

/// How a bridge takes part in the SAPIENT topology.
#[derive(Clone, Debug, PartialEq, Eq)]
pub enum BridgeRole {
    /// Listen for connections of the nodes.
    Hldmm { listen_addr: String },
    /// Connect to a manager.
    Dlmm { remote_addr: String, reconnect: ReconnectConfig },
}

/// The delay after another failure: twice the last one, at most the largest.
pub open spec fn backed_off(delay: int, max_delay: int) -> int {
    if 2 * delay <= max_delay {
        2 * delay
    } else {
        max_delay
    }
}

/// The delay after a number of failures.
pub open spec fn delay_after(config: ReconnectConfig, failures: nat) -> int
    decreases failures,
{
    if failures == 0 {
        config.initial_delay as int
    } else {
        backed_off(delay_after(config, (failures - 1) as nat), config.max_delay as int)
    }
}

/// Nanoseconds between two attempts to reach a static peer of the mesh.
pub const REDIAL_DELAY: u64 = 5_000_000_000;

/// How long to wait before a static peer of the mesh is dialled again after an
/// attempt; not at all once it is connected.
pub fn redial_after(connected: bool) -> (delay: Option<u64>)
    ensures
        connected ==> delay is None,
        !connected ==> delay == Some(5_000_000_000u64),
{
    if connected {
        None
    } else {
        Some(REDIAL_DELAY)
    }
}

/// Exponential backoff between attempts to connect.
#[derive(Clone, Copy, Debug, PartialEq, Eq, Structural)]
pub struct Backoff {
    delay: u64,
    max_delay: u64,
}

impl Backoff {
    /// The delay before the next attempt.
    pub closed spec fn delay(&self) -> int {
        self.delay as int
    }

    pub closed spec fn max_delay(&self) -> int {
        self.max_delay as int
    }

    /// A backoff before any failure.
    pub fn new(config: &ReconnectConfig) -> (backoff: Self)
        ensures
            backoff.delay() == config.initial_delay,
            backoff.max_delay() == config.max_delay,
    {
        Backoff { delay: config.initial_delay, max_delay: config.max_delay }
    }

    /// The delay to wait after a failure; the one after it is longer.
    pub fn next_delay(&mut self) -> (delay: u64)
        ensures
            delay == old(self).delay(),
            final(self).delay() == backed_off(old(self).delay(), old(self).max_delay()),
            final(self).max_delay() == old(self).max_delay(),
    {
        let delay: u64 = self.delay;
        self.delay = if delay as u128 * 2 <= self.max_delay as u128 {
            delay * 2
        } else {
            self.max_delay
        };
        delay
    }
}

/// Delays double with each failure until they reach the largest one: after any
/// failure the delay is the initial one times a power of two, capped.
pub proof fn law_backoff_doubles_and_caps(config: ReconnectConfig, failures: nat)
    requires
        failures > 0,
    ensures
        delay_after(config, failures) == if config.initial_delay * pow2(failures)
            <= config.max_delay {
            config.initial_delay * pow2(failures)
        } else {
            config.max_delay as int
        },
    decreases failures,
{
    lemma2_to64();
    lemma_pow2_unfold(failures);
    let previous = (failures - 1) as nat;
    let initial = config.initial_delay as int;
    let power = pow2(previous) as int;
    assert(initial * (2 * power) == 2 * (initial * power)) by (nonlinear_arith);
    assert(initial * power >= 0) by (nonlinear_arith)
        requires
            initial >= 0,
            power >= 0,
    ;
    if previous > 0 {
        law_backoff_doubles_and_caps(config, previous);
    } else {
        assert(delay_after(config, 0) == initial);
        assert(power == 1);
        assert(initial * power == initial) by (nonlinear_arith)
            requires
                power == 1,
        ;
    }
    assert(pow2(failures) == 2 * power);
    assert(config.initial_delay * pow2(failures) == 2 * (initial * power));
}

/// No delay after a failure exceeds the largest one, and delays never shrink
/// where the initial one does not exceed it.
pub proof fn law_backoff_is_bounded_and_monotone(config: ReconnectConfig, failures: nat)
    ensures
        failures > 0 ==> delay_after(config, failures) <= config.max_delay,
        config.initial_delay <= config.max_delay ==> delay_after(config, failures) <= delay_after(
            config,
            failures + 1,
        ) <= config.max_delay,
    decreases failures,
{
    if failures > 0 {
        law_backoff_is_bounded_and_monotone(config, (failures - 1) as nat);
    }
    lemma_delay_nonnegative(config, failures);
}

proof fn lemma_delay_nonnegative(config: ReconnectConfig, failures: nat)
    ensures
        delay_after(config, failures) >= 0,
    decreases failures,
{
    if failures > 0 {
        lemma_delay_nonnegative(config, (failures - 1) as nat);
    }
}

/// The first delay is the initial one, and each later one twice the one before it,
/// or the largest.
pub proof fn law_backoff_starts_with_the_initial_delay(config: ReconnectConfig, delay: int, max: int)
    ensures
        delay_after(config, 0) == config.initial_delay,
        2 * delay <= max ==> backed_off(delay, max) == delay + delay,
        2 * delay > max ==> backed_off(delay, max) == max,
{
}

} // verus!
