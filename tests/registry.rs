use zk_vote::{Acceptance, FieldElement, SpentRegistry};

#[test]
fn second_ballot_with_same_nullifier_is_refused() {
    let mut r = SpentRegistry::new();
    let n = FieldElement::from_u64(12345);
    assert!(!r.is_spent(&n));
    assert_eq!(r.accept(n), Acceptance::Accepted);
    assert!(r.is_spent(&n));
    assert_eq!(r.accept(n), Acceptance::DoubleVote);
    assert_eq!(r.accept(FieldElement::from_u64(1)), Acceptance::Accepted);
    assert_eq!(r.len(), 2);
}
