use peat_sapient::connection::{redial_after, Backoff, ReconnectConfig};

const MILLIS: u64 = 1_000_000;

#[test]
fn backoff_doubles_and_caps_at_max() {
    let config = ReconnectConfig {
        initial_delay: 100 * MILLIS,
        max_delay: 400 * MILLIS,
    };
    let mut backoff = Backoff::new(&config);
    assert_eq!(backoff.next_delay(), 100 * MILLIS);

    let delay = backoff.next_delay();
    assert_eq!(delay, 200 * MILLIS);

    let delay = backoff.next_delay();
    assert_eq!(delay, 400 * MILLIS);

    // would be 800, capped at 400
    let delay = backoff.next_delay();
    assert_eq!(delay, 400 * MILLIS, "delay must cap at max_delay");
}

#[test]
fn default_reconnect_policy() {
    let config = ReconnectConfig::default();
    assert_eq!(config.initial_delay, 1000 * MILLIS);
    assert_eq!(config.max_delay, 30_000 * MILLIS);
}

#[test]
fn default_backoff_reaches_thirty_seconds() {
    let mut backoff = Backoff::new(&ReconnectConfig::default());
    let delays: Vec<u64> = (0..7).map(|_| backoff.next_delay() / (1000 * MILLIS)).collect();
    assert_eq!(delays, [1, 2, 4, 8, 16, 30, 30]);
}

#[test]
fn backoff_of_huge_delays_stays_at_the_cap() {
    let config = ReconnectConfig { initial_delay: u64::MAX, max_delay: u64::MAX };
    let mut backoff = Backoff::new(&config);
    assert_eq!(backoff.next_delay(), u64::MAX);
    assert_eq!(backoff.next_delay(), u64::MAX);
}

#[test]
fn initial_delay_over_the_cap_falls_to_it() {
    let config = ReconnectConfig { initial_delay: 500, max_delay: 300 };
    let mut backoff = Backoff::new(&config);
    assert_eq!(backoff.next_delay(), 500);
    assert_eq!(backoff.next_delay(), 300);
}

#[test]
fn static_peers_are_dialled_again_after_five_seconds() {
    assert_eq!(redial_after(false), Some(5_000 * MILLIS));
    assert_eq!(redial_after(true), None);
}
