use net_utils::AcquireOutcome;
use net_utils::Config;
use net_utils::Connection;
use net_utils::ConnectionPool;

fn reused(pool: &mut ConnectionPool) -> Connection {
    match pool.acquire() {
        AcquireOutcome::Reused(c) => c,
        _ => panic!("expected an idle session to be reused"),
    }
}

fn opened(pool: &mut ConnectionPool, handle: i64) -> Connection {
    match pool.acquire() {
        AcquireOutcome::MustOpen => pool.register_opened(handle),
        _ => panic!("expected the pool to ask for a fresh transport"),
    }
}

#[test]
fn test_new() {
    let cfg: Config = Default::default();
    let mut pool = ConnectionPool::new(0, 5, false, &cfg);
    assert_eq!(pool.idle_conns_count(), 0);
    pool.release_all();
    assert_eq!(pool.idle_conns_count(), 0);
}

#[test]
fn test_init_ssl() {
    let mut cfg: Config = Default::default();
    cfg.port = Some(443);
    cfg.server = Some("google.com".to_string());
    cfg.use_ssl = Some(true);
    let mut pool = ConnectionPool::new(2, 5, false, &cfg);
    assert_eq!(pool.init(vec![10, 11]), true);

    pool.release_all();
    assert_eq!(pool.idle_conns_count(), 0);
}

#[test]
fn test_init_fills_warm_set() {
    let cfg: Config = Default::default();
    let mut pool = ConnectionPool::new(2, 5, false, &cfg);
    assert_eq!(pool.init(vec![3, 4]), true);
    assert_eq!(pool.idle_conns_count(), 2);
    assert_eq!(pool.in_use_count(), 0);
}

#[test]
fn test_init_partial_failure_keeps_opened() {
    let cfg: Config = Default::default();
    let mut pool = ConnectionPool::new(3, 5, false, &cfg);
    // only one of the three openings succeeded
    assert_eq!(pool.init(vec![5]), false);
    assert_eq!(pool.idle_conns_count(), 1);
}

#[test]
fn test_init_nothing_to_open() {
    let cfg: Config = Default::default();
    let mut pool = ConnectionPool::new(0, 5, false, &cfg);
    assert_eq!(pool.init(vec![]), true);
    assert_eq!(pool.idle_conns_count(), 0);
}

#[test]
fn test_acquire_is_fifo() {
    let cfg: Config = Default::default();
    let mut pool = ConnectionPool::new(2, 5, false, &cfg);
    assert!(pool.init(vec![7, 8]));
    let c1 = reused(&mut pool);
    let c2 = reused(&mut pool);
    assert_eq!(c1.handle(), 7);
    assert_eq!(c2.handle(), 8);
}

#[test]
fn test_acquire_release_counts() {
    let cfg: Config = Default::default();
    let mut pool = ConnectionPool::new(2, 2, true, &cfg);
    assert_eq!(pool.init(vec![3, 4]), true);
    assert_eq!(pool.idle_conns_count(), 2);

    let c1 = reused(&mut pool);
    assert_eq!(pool.idle_conns_count(), 1);
    let c2 = reused(&mut pool);
    assert_eq!(pool.idle_conns_count(), 0);
    // the cap is reached, but overflow is allowed: a transient opens
    let c3 = opened(&mut pool, 5);
    assert_eq!(pool.in_use_count(), 3);

    pool.release(c1);
    assert_eq!(pool.idle_conns_count(), 0);
    pool.release(c2);
    assert_eq!(pool.idle_conns_count(), 0);
    pool.release(c3);
    assert_eq!(pool.idle_conns_count(), 1);

    pool.release_all();
    assert_eq!(pool.idle_conns_count(), 0);
}

#[test]
fn test_exhausted_without_overflow() {
    let cfg: Config = Default::default();
    let mut pool = ConnectionPool::new(2, 2, false, &cfg);
    assert_eq!(pool.init(vec![1, 2]), true);
    let c1 = reused(&mut pool);
    let c2 = reused(&mut pool);
    assert_eq!(pool.idle_conns_count(), 0);
    assert!(matches!(pool.acquire(), AcquireOutcome::Exhausted));
    // releasing lets the idle count rise toward the warm set again
    pool.release(c1);
    pool.release(c2);
    assert_eq!(pool.idle_conns_count(), 1);
}

#[test]
fn test_release_below_warm_set_reinserts() {
    let cfg: Config = Default::default();
    let mut pool = ConnectionPool::new(2, 5, false, &cfg);
    let c = opened(&mut pool, 6);
    assert_eq!(pool.idle_conns_count(), 0);
    assert_eq!(pool.in_use_count(), 1);
    // idle + in use == 1 < min == 2, and the session is valid
    pool.release(c);
    assert_eq!(pool.idle_conns_count(), 1);
    assert_eq!(pool.in_use_count(), 0);
}

#[test]
fn test_release_at_warm_set_destroys() {
    let cfg: Config = Default::default();
    let mut pool = ConnectionPool::new(1, 5, false, &cfg);
    let c = opened(&mut pool, 6);
    // idle + in use == 1, not under min == 1: destroyed
    pool.release(c);
    assert_eq!(pool.idle_conns_count(), 0);
    assert_eq!(pool.in_use_count(), 0);
}

#[test]
fn test_release_invalid_destroys() {
    let cfg: Config = Default::default();
    let mut pool = ConnectionPool::new(5, 5, false, &cfg);
    let c = opened(&mut pool, -1);
    assert!(!c.is_valid());
    // far below the warm set, but invalid: destroyed anyway
    pool.release(c);
    assert_eq!(pool.idle_conns_count(), 0);
    assert_eq!(pool.in_use_count(), 0);
}

#[test]
fn test_release_all_resets() {
    let cfg: Config = Default::default();
    let mut pool = ConnectionPool::new(2, 5, true, &cfg);
    assert!(pool.init(vec![1, 2]));
    let _c = reused(&mut pool);
    pool.release_all();
    assert_eq!(pool.idle_conns_count(), 0);
    assert_eq!(pool.in_use_count(), 0);
}

#[test]
fn test_drop_decrements_in_use() {
    let cfg: Config = Default::default();
    let mut pool = ConnectionPool::new(0, 5, true, &cfg);
    let c = opened(&mut pool, 9);
    assert_eq!(pool.in_use_count(), 1);
    pool.drop(c);
    assert_eq!(pool.in_use_count(), 0);
    assert_eq!(pool.idle_conns_count(), 0);
}

#[test]
fn test_default_pool_is_empty() {
    let mut pool = ConnectionPool::default();
    assert_eq!(pool.idle_conns_count(), 0);
    assert_eq!(pool.in_use_count(), 0);
    // overflow is allowed by default, so an empty pool still serves
    let c = opened(&mut pool, 2);
    assert!(c.is_valid());
}

#[test]
fn test_session_ids_are_distinct() {
    let cfg: Config = Default::default();
    let mut pool = ConnectionPool::new(2, 5, false, &cfg);
    assert!(pool.init(vec![1, 2]));
    let c1 = reused(&mut pool);
    let c2 = reused(&mut pool);
    assert_ne!(c1.id(), c2.id());
}

#[test]
fn test_session_id_is_a_urn() {
    let cfg: Config = Default::default();
    let mut pool = ConnectionPool::new(0, 5, true, &cfg);
    let c = opened(&mut pool, 3);
    let id = c.id();
    assert_eq!(id.len(), 45);
    assert!(id.starts_with("urn:uuid:"));
}

#[test]
fn test_reconnect_keeps_config_fresh_identity() {
    let cfg = Config {
        port: Some(2195),
        ..Default::default()
    };
    let mut pool = ConnectionPool::new(0, 5, true, &cfg);
    let c = opened(&mut pool, 3);
    let fresh = c.reconnect(4);
    assert_eq!(fresh.handle(), 4);
    assert!(fresh.is_valid());
    assert_eq!(fresh.config().port, Some(2195));
    assert_ne!(fresh.id(), c.id());
    // the old session is unaffected
    assert_eq!(c.handle(), 3);
}

#[test]
fn test_zero_capacity_exhausts_at_once() {
    let cfg: Config = Default::default();
    let mut pool = ConnectionPool::new(0, 0, false, &cfg);
    assert!(matches!(pool.acquire(), AcquireOutcome::Exhausted));
}

#[test]
fn test_zero_capacity_overflow_still_serves() {
    let cfg: Config = Default::default();
    let mut pool = ConnectionPool::new(0, 0, true, &cfg);
    let c = opened(&mut pool, 4);
    assert_eq!(pool.in_use_count(), 1);
    pool.release(c);
    assert_eq!(pool.idle_conns_count(), 0);
    assert_eq!(pool.in_use_count(), 0);
}
