use zk_vote::FieldElement;

#[test]
fn small_values_round_trip() {
    assert_eq!(FieldElement::from_u64(12345).limbs(), [12345, 0, 0, 0]);
    assert!(FieldElement::zero().is_zero());
    assert!(FieldElement::one().is_one());
    assert!(!FieldElement::from_u64(2).is_one());
}

#[test]
fn limbs_at_the_modulus_are_refused() {
    let m = [0x43e1f593f0000001u64, 0x2833e84879b97091, 0xb85045b68181585d, 0x30644e72e131a029];
    assert!(FieldElement::from_limbs(m[0], m[1], m[2], m[3]).is_none());
    let below = FieldElement::from_limbs(m[0] - 1, m[1], m[2], m[3]).unwrap();
    assert_eq!(below.limbs(), [m[0] - 1, m[1], m[2], m[3]]);
    assert!(FieldElement::from_limbs(0, 0, 0, u64::MAX).is_none());
}

#[test]
fn bytes_are_reduced_modulo_the_order() {
    let e = FieldElement::from_le_bytes_mod_order(&vec![1, 2]);
    assert_eq!(e.limbs(), [0x0201, 0, 0, 0]);
    // The modulus itself, little-endian, reduces to zero; one more reduces to one.
    let m = [0x43e1f593f0000001u64, 0x2833e84879b97091, 0xb85045b68181585d, 0x30644e72e131a029];
    let mut bytes: Vec<u8> = m.iter().flat_map(|l| l.to_le_bytes()).collect();
    assert!(FieldElement::from_le_bytes_mod_order(&bytes).is_zero());
    bytes[0] += 1;
    assert!(FieldElement::from_le_bytes_mod_order(&bytes).is_one());
}
