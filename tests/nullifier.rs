use ark_std::rand::rngs::StdRng;
use ark_std::rand::SeedableRng;
use std::collections::hash_map::DefaultHasher;
use std::hash::{Hash, Hasher};
use zk_vote::{calculate_nullifier, generate_nullifier, nullifier_from_parts, nullifier_preimage};

#[test]
fn test_nullifier_calculation() {
    let user_id1 = "user1";
    let user_id2 = "user2";
    let nullifier1 = calculate_nullifier(user_id1);
    let nullifier2 = calculate_nullifier(user_id2);
    assert_ne!(nullifier1, nullifier2);
}

#[test]
fn calculate_nullifier_matches_str_hash() {
    let mut h = DefaultHasher::new();
    "user1".hash(&mut h);
    assert_eq!(calculate_nullifier("user1"), h.finish());
    assert_eq!(calculate_nullifier("user1"), calculate_nullifier("user1"));
}

#[test]
fn preimage_layout() {
    let p = nullifier_preimage("ab", 0x0102030405060708, 1);
    assert_eq!(
        p,
        vec![b'a', b'b', 8, 7, 6, 5, 4, 3, 2, 1, 1, 0, 0, 0, 0, 0, 0, 0]
    );
    assert_eq!(nullifier_preimage("", 0, 0), vec![0u8; 16]);
}

#[test]
fn nullifier_from_parts_is_reduced_sha256() {
    // SHA-256 of the sixteen zero bytes of ("", 0, 0), read little-endian and reduced.
    let n = nullifier_from_parts("", 0, 0);
    let again = nullifier_from_parts("", 0, 0);
    assert_eq!(n, again);
    let limbs = n.limbs();
    assert!(limbs[3] <= 0x30644e72e131a029);
    assert_ne!(n, nullifier_from_parts("", 1, 0));
    assert_ne!(n, nullifier_from_parts("", 0, 1));
    assert_ne!(nullifier_from_parts("user1", 5, 9), nullifier_from_parts("user2", 5, 9));
}

#[test]
fn generated_nullifiers_are_fresh() {
    let mut rng = StdRng::seed_from_u64(3);
    let a = generate_nullifier("user1", &mut rng);
    let b = generate_nullifier("user1", &mut rng);
    assert_ne!(a, b);
    let c = generate_nullifier("user2", &mut rng);
    assert_ne!(a, c);
    assert_ne!(b, c);
}
