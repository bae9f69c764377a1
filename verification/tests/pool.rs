use dark_pool::errors::DarkPoolError;
use dark_pool::events::PoolStateUpdated;
use dark_pool::keys::Pubkey;
use dark_pool::state::pool::EncryptedPoolState;

fn key(n: u8) -> Pubkey {
    Pubkey::new([n; 32])
}

fn new_pool() -> EncryptedPoolState {
    EncryptedPoolState {
        market: key(1),
        encrypted_state: vec![],
        state_version: 0,
        last_computation_id: 0,
        pending_computations: 0,
        last_updated: 10,
        bump: 254,
        is_initialized: false,
    }
}

#[test]
fn keys_compare_by_bytes() {
    assert_eq!(key(3), key(3));
    assert_ne!(key(3), key(4));
    let mut bytes = [3u8; 32];
    bytes[31] = 4;
    assert_ne!(key(3), Pubkey::new(bytes));
    assert_eq!(Pubkey::new(bytes).to_bytes(), bytes);
}

#[test]
fn new_pool_is_not_ready() {
    let pool = new_pool();
    assert!(!pool.is_ready());
    assert_eq!(pool.state_version(), 0);
    assert_eq!(pool.pending_computations(), 0);
}

#[test]
fn activation_makes_the_pool_ready() {
    let mut pool = new_pool();
    pool.activate();
    assert!(pool.is_ready());
    assert!(pool.is_initialized);
    assert_eq!(pool.state_version(), 1);
    assert_eq!(pool.market, key(1));
    assert_eq!(pool.last_updated, 10);
}

#[test]
fn initialized_pool_at_version_zero_is_not_ready() {
    let mut pool = new_pool();
    pool.is_initialized = true;
    assert!(!pool.is_ready());
}

#[test]
fn snapshot_replaces_payload_and_advances_version() {
    let mut pool = new_pool();
    pool.activate();
    pool.pending_computations = 2;
    let r = pool.apply_snapshot(vec![7u8; 96], [9u8; 32], 42, 1000);
    assert_eq!(
        r,
        Ok(PoolStateUpdated {
            market: key(1),
            state_version: 2,
            commitment: [9u8; 32],
            updated_at: 1000
        })
    );
    assert_eq!(pool.encrypted_state, vec![7u8; 96]);
    assert_eq!(pool.state_version(), 2);
    assert_eq!(pool.pending_computations(), 1);
    assert_eq!(pool.last_computation_id, 42);
    assert_eq!(pool.last_updated, 1000);
}

#[test]
fn pending_count_stops_at_zero() {
    let mut pool = new_pool();
    pool.activate();
    assert!(pool.apply_snapshot(vec![1], [0u8; 32], 1, 1).is_ok());
    assert_eq!(pool.pending_computations(), 0);
    assert_eq!(pool.state_version(), 2);
}

#[test]
fn snapshot_on_inactive_pool_is_refused() {
    let mut pool = new_pool();
    let r = pool.apply_snapshot(vec![7u8; 96], [9u8; 32], 42, 1000);
    assert_eq!(r, Err(DarkPoolError::PoolStateNotInitialized));
    assert_eq!(pool.state_version(), 0);
    assert!(pool.encrypted_state.is_empty());
    assert_eq!(pool.last_updated, 10);
}

#[test]
fn oversized_snapshot_is_refused() {
    let mut pool = new_pool();
    pool.activate();
    pool.pending_computations = 1;
    let r = pool.apply_snapshot(vec![7u8; 257], [9u8; 32], 42, 1000);
    assert_eq!(r, Err(DarkPoolError::EncryptedStateTooLarge));
    assert_eq!(pool.state_version(), 1);
    assert_eq!(pool.pending_computations(), 1);
    assert!(pool.encrypted_state.is_empty());
    assert!(pool.apply_snapshot(vec![7u8; 256], [9u8; 32], 42, 1000).is_ok());
}

#[test]
fn version_overflow_is_refused() {
    let mut pool = new_pool();
    pool.activate();
    pool.state_version = u64::MAX;
    pool.pending_computations = 1;
    let r = pool.apply_snapshot(vec![7u8; 96], [9u8; 32], 42, 1000);
    assert_eq!(r, Err(DarkPoolError::Overflow));
    assert_eq!(pool.state_version(), u64::MAX);
    assert_eq!(pool.pending_computations(), 1);
    assert_eq!(pool.last_computation_id, 0);
}
