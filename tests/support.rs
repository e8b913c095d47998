use memory_hub::merkle::merkle_root;
use memory_hub::{AllowAllPolicy, CancellationToken, DetailMem, PolicyEngine, SloGuard};
use sha2::{Digest, Sha256};

fn h(data: &[u8]) -> [u8; 32] {
    Sha256::digest(data).into()
}

#[test]
fn cancel_is_seen_by_all_clones() {
    let a = CancellationToken::new();
    let b = a.clone();
    let c = b.clone();
    assert!(!a.is_cancelled());
    b.cancel();
    assert!(a.is_cancelled());
    assert!(b.is_cancelled());
    assert!(c.is_cancelled());
}

#[test]
fn cancel_twice_is_a_no_op() {
    let a = CancellationToken::new();
    a.cancel();
    a.cancel();
    assert!(a.is_cancelled());
}

#[test]
fn gate_capacity_one_admits_one() {
    let g = SloGuard::new(1);
    assert_eq!(g.capacity(), 1);
    let first = g.permits().try_acquire();
    assert!(first.is_some());
    assert!(g.permits().try_acquire().is_none());
    drop(first);
    assert!(g.permits().try_acquire().is_some());
}

#[test]
fn gate_capacity_n_admits_n() {
    let g = SloGuard::new(3);
    let clone = g.clone();
    let held: Vec<_> = (0..3).map(|_| g.permits().try_acquire().unwrap()).collect();
    assert!(clone.permits().try_acquire().is_none());
    drop(held);
    assert!(clone.permits().try_acquire().is_some());
}

#[test]
fn allow_all_policy_allows() {
    assert!(AllowAllPolicy.allow("delete", &serde_json::Value::Null));
}

#[test]
fn blob_file_path() {
    let d = DetailMem::new("/data/blobs".to_string());
    assert_eq!(d.file_path("key1"), "/data/blobs/key1.bin");
    assert_eq!(d.root(), "/data/blobs");
}

#[test]
fn merkle_root_empty_is_zero() {
    assert_eq!(merkle_root(vec![]), [0u8; 32]);
}

#[test]
fn merkle_root_single_leaf() {
    assert_eq!(merkle_root(vec![[5u8; 32]]), [5u8; 32]);
}

#[test]
fn merkle_root_two_leaves() {
    let a = [1u8; 32];
    let b = [2u8; 32];
    let expected = h(&[a, b].concat());
    assert_eq!(merkle_root(vec![a, b]), expected);
}

#[test]
fn merkle_root_three_leaves() {
    let a = [1u8; 32];
    let b = [2u8; 32];
    let c = [3u8; 32];
    let left = h(&[a, b].concat());
    let right = h(&c);
    assert_eq!(merkle_root(vec![a, b, c]), h(&[left, right].concat()));
}

#[test]
fn gate_clone_shares_permits() {
    let g = SloGuard::new(2);
    let c = g.clone();
    assert_eq!(c.capacity(), 2);
    let _a = g.permits().try_acquire().unwrap();
    let _b = c.permits().try_acquire().unwrap();
    assert!(g.permits().try_acquire().is_none());
    assert!(c.permits().try_acquire().is_none());
}
