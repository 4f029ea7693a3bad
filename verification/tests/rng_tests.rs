use sindri::jobs::ErrorKind;
use sindri::limits::MAX_RANDOM_SIZE;
use sindri::rng::Rng;

const SEED: &[u8; 32] = &[
    0x01, 0x23, 0x45, 0x67, 0x89, 0xab, 0xcd, 0xef, 0x10, 0x32, 0x54, 0x76, 0x98, 0xba, 0xdc,
    0xfe, 0x11, 0x22, 0x33, 0x44, 0x55, 0x66, 0x77, 0x88, 0x99, 0xaa, 0xbb, 0xcc, 0xdd, 0xee,
    0xff, 0x00,
];

#[test]
fn test_two_successive_fills_differ() {
    let mut rng = Rng::new(SEED);
    let first = rng.fill(16).expect("fill failed");
    let second = rng.fill(16).expect("fill failed");
    assert_eq!(first.len(), 16);
    assert_eq!(second.len(), 16);
    assert_ne!(first, second);
}

#[test]
fn test_same_seed_gives_same_stream() {
    let mut a = Rng::new(SEED);
    let mut b = Rng::new(SEED);
    assert_eq!(a.fill(64).expect("fill failed"), b.fill(64).expect("fill failed"));
    assert_eq!(a.fill(7).expect("fill failed"), b.fill(7).expect("fill failed"));
}

#[test]
fn test_different_seeds_give_different_streams() {
    let mut other_seed = *SEED;
    other_seed[0] ^= 1;
    let mut a = Rng::new(SEED);
    let mut b = Rng::new(&other_seed);
    assert_ne!(a.fill(32).expect("fill failed"), b.fill(32).expect("fill failed"));
}

#[test]
fn test_oversize_fill_fails() {
    let mut rng = Rng::new(SEED);
    assert_eq!(rng.fill(MAX_RANDOM_SIZE + 1), Err(ErrorKind::AllocationFailed));
    // The refusal consumed no output: the next fill is still the first.
    let mut fresh = Rng::new(SEED);
    assert_eq!(rng.fill(8).expect("fill failed"), fresh.fill(8).expect("fill failed"));
}

#[test]
fn test_fill_returns_requested_length() {
    let mut rng = Rng::new(SEED);
    for n in [0usize, 1, 13, 255, MAX_RANDOM_SIZE] {
        assert_eq!(rng.fill(n).expect("fill failed").len(), n);
    }
}
