use watcher::fingerprint::{hash, Fingerprint};

fn fp(stamps: &[u128]) -> Fingerprint {
    hash(stamps.to_vec())
}

#[test]
fn determinism_same_stamps_equal() {
    let a = fp(&[1_000_000_000, 2_000_000_000, 3_000_000_000]);
    let b = fp(&[1_000_000_000, 2_000_000_000, 3_000_000_000]);
    assert!(a.equals(&b));
    assert!(b.equals(&a));
}

#[test]
fn determinism_twice_without_modification() {
    let stamps: Vec<u128> = vec![42, 42, 7];
    let a = hash(stamps.clone());
    let b = hash(stamps);
    assert!(a.equals(&b));
}

#[test]
fn sensitivity_first_stamp() {
    let a = fp(&[10, 20, 30]);
    let b = fp(&[11, 20, 30]);
    assert!(!a.equals(&b));
}

#[test]
fn sensitivity_middle_stamp() {
    let a = fp(&[10, 20, 30]);
    let b = fp(&[10, 21, 30]);
    assert!(!a.equals(&b));
}

#[test]
fn sensitivity_last_stamp() {
    let a = fp(&[10, 20, 30]);
    let b = fp(&[10, 20, 31]);
    assert!(!a.equals(&b));
}

#[test]
fn sensitivity_single_path() {
    let a = fp(&[5]);
    let b = fp(&[6]);
    assert!(!a.equals(&b));
}

#[test]
fn sensitivity_random_touches() {
    // A crude deterministic pseudo-random walk over subsets and touches.
    let mut state: u128 = 0x9e3779b97f4a7c15;
    for n in 1..8usize {
        let mut stamps: Vec<u128> = (0..n as u128).map(|i| i * 1_000).collect();
        for _ in 0..10 {
            state = state.wrapping_mul(6364136223846793005).wrapping_add(1442695040888963407);
            let idx = (state >> 32) as usize % n;
            let before = hash(stamps.clone());
            stamps[idx] += 1 + (state as u128 & 0xff);
            let after = hash(stamps.clone());
            assert!(!before.equals(&after));
        }
    }
}

#[test]
fn order_sensitive_combination() {
    let a = fp(&[1, 2]);
    let b = fp(&[2, 1]);
    assert!(!a.equals(&b));
}

#[test]
fn different_lengths_differ() {
    let a = fp(&[1, 2]);
    let b = fp(&[1, 2, 3]);
    assert!(!a.equals(&b));
}

#[test]
fn empty_stamp_lists_equal() {
    let a = fp(&[]);
    let b = fp(&[]);
    assert!(a.equals(&b));
}
