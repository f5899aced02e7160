use gatehouse::admission::PermitPool;

#[test]
fn fresh_pool_has_all_permits_free() {
    let pool = PermitPool::new(3);
    assert_eq!(pool.available_permits(), 3);
    assert_eq!(pool.capacity(), 3);
}

#[test]
fn acquire_succeeds_while_permits_are_free() {
    let mut pool = PermitPool::new(2);
    assert!(pool.try_acquire());
    assert!(pool.try_acquire());
    assert!(!pool.try_acquire());
    assert_eq!(pool.available_permits(), 0);
}

#[test]
fn failed_acquire_consumes_nothing() {
    let mut pool = PermitPool::new(1);
    assert!(pool.try_acquire());
    assert!(!pool.try_acquire());
    assert!(!pool.try_acquire());
    pool.release();
    assert_eq!(pool.available_permits(), 1);
}

#[test]
fn release_restores_permit_balance() {
    let mut pool = PermitPool::new(2);
    assert!(pool.try_acquire());
    assert!(pool.try_acquire());
    pool.release();
    pool.release();
    assert_eq!(pool.available_permits(), 2);
    assert_eq!(pool.capacity(), 2);
}

#[test]
fn batch_admits_at_most_capacity() {
    let mut pool = PermitPool::new(3);
    let admitted = pool.try_admit_batch(10);
    assert_eq!(admitted, 3);
    assert_eq!(pool.available_permits(), 0);
}

#[test]
fn batch_admits_all_when_capacity_suffices() {
    let mut pool = PermitPool::new(5);
    let admitted = pool.try_admit_batch(2);
    assert_eq!(admitted, 2);
    assert_eq!(pool.available_permits(), 3);
}

#[test]
fn batch_on_exhausted_pool_admits_none() {
    let mut pool = PermitPool::new(1);
    assert!(pool.try_acquire());
    let admitted = pool.try_admit_batch(4);
    assert_eq!(admitted, 0);
    assert_eq!(pool.available_permits(), 0);
}
