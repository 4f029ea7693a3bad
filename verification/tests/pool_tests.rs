use sindri::jobs::ErrorKind;
use sindri::limits::{GCM_TAG_SIZE, MAX_CIPHERTEXT_SIZE, MAX_PLAINTEXT_SIZE, MAX_RANDOM_SIZE};
use sindri::pool::{BufferKind, Pool, POOL_SIZE};

#[test]
fn test_required_size_covers_every_class() {
    assert_eq!(Pool::required_size(), POOL_SIZE);
    assert_eq!(
        POOL_SIZE,
        MAX_RANDOM_SIZE + MAX_CIPHERTEXT_SIZE + GCM_TAG_SIZE + MAX_PLAINTEXT_SIZE
    );
}

#[test]
fn test_checkout_release_returns_accounting_to_zero() {
    let mut pool = Pool::new();
    assert_eq!(pool.outstanding, 0);

    let buf = pool.checkout(BufferKind::Random, 16).expect("checkout failed");
    assert_eq!(pool.outstanding, 16);
    assert_eq!(buf.data, vec![0u8; 16]);
    pool.release(buf);
    assert_eq!(pool.outstanding, 0);

    // Several paired checkouts in a row still return the accounting to zero.
    for size in [0usize, 1, 100, MAX_RANDOM_SIZE] {
        let buf = pool.checkout(BufferKind::Random, size).expect("checkout failed");
        assert_eq!(pool.outstanding, size);
        pool.release(buf);
        assert_eq!(pool.outstanding, 0);
    }
}

#[test]
fn test_overlapping_checkouts_accumulate() {
    let mut pool = Pool::new();
    let a = pool.checkout(BufferKind::Random, 10).expect("checkout failed");
    let b = pool.checkout(BufferKind::Plaintext, 20).expect("checkout failed");
    assert_eq!(pool.outstanding, 30);
    pool.release(a);
    assert_eq!(pool.outstanding, 20);
    pool.release(b);
    assert_eq!(pool.outstanding, 0);
}

#[test]
fn test_oversize_checkout_fails_and_leaves_accounting_unchanged() {
    let mut pool = Pool::new();
    let held = pool.checkout(BufferKind::Random, 8).expect("checkout failed");
    match pool.checkout(BufferKind::Random, MAX_RANDOM_SIZE + 1) {
        Err(e) => assert_eq!(e, ErrorKind::AllocationFailed),
        Ok(_) => panic!("oversize checkout succeeded"),
    }
    assert_eq!(pool.outstanding, 8);
    pool.release(held);
    assert_eq!(pool.outstanding, 0);
}

#[test]
fn test_checkout_buffer_is_zeroed_and_exact() {
    let mut pool = Pool::new();
    let buf = pool
        .checkout(BufferKind::Ciphertext, MAX_CIPHERTEXT_SIZE + GCM_TAG_SIZE)
        .expect("checkout failed");
    assert_eq!(buf.data.len(), MAX_CIPHERTEXT_SIZE + GCM_TAG_SIZE);
    assert!(buf.data.iter().all(|b| *b == 0));
    pool.release(buf);
}
