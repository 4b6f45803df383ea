//! Elements of the scalar field of the BN254 curve, held as four 64-bit limbs.
use ark_ff::PrimeField;
use vstd::prelude::*;

verus! {

/// The order of the BN254 scalar field: every witness value lives modulo this prime.
pub const MODULUS_LIMB0: u64 = 0x43e1f593f0000001;
pub const MODULUS_LIMB1: u64 = 0x2833e84879b97091;
pub const MODULUS_LIMB2: u64 = 0xb85045b68181585d;
pub const MODULUS_LIMB3: u64 = 0x30644e72e131a029;

pub open spec fn limb_base() -> nat {
    0x1_0000_0000_0000_0000nat
}

/// The integer that four little-endian 64-bit limbs stand for.
pub open spec fn limbs_value(l0: u64, l1: u64, l2: u64, l3: u64) -> nat {
    l0 as nat + limb_base() * (l1 as nat + limb_base() * (l2 as nat + limb_base() * (l3 as nat)))
}

/// The field order as an integer.
pub open spec fn modulus() -> nat {
    limbs_value(MODULUS_LIMB0, MODULUS_LIMB1, MODULUS_LIMB2, MODULUS_LIMB3)
}

/// The integer that a little-endian byte string stands for.
pub open spec fn le_bytes_value(b: Seq<u8>) -> nat
    decreases b.len(),
{
    if b.len() == 0 {
        0
    } else {
        b[0] as nat + 256 * le_bytes_value(b.drop_first())
    }
}

/// The field order exceeds 2^253, so every 64-bit integer is a field element of its own.
pub proof fn lemma_modulus_bounds()
    ensures
        modulus() > limb_base() * limb_base() * limb_base() * 0x2000_0000_0000_0000nat,
        modulus() > limb_base(),
{
    assert(modulus() == 21888242871839275222246405745257275088548364400416034343698204186575808495617nat);
}

/// A canonical element of the BN254 scalar field: its value is below the field order.
#[derive(Clone, Copy, Debug, PartialEq, Eq, Structural)]
pub struct FieldElement {
    l0: u64,
    l1: u64,
    l2: u64,
    l3: u64,
}

impl FieldElement {
    #[verifier::type_invariant]
    spec fn canonical(&self) -> bool {
        limbs_value(self.l0, self.l1, self.l2, self.l3) < modulus()
    }

    /// The element as an integer in `[0, modulus())`.
    pub closed spec fn value(&self) -> nat {
        limbs_value(self.l0, self.l1, self.l2, self.l3)
    }

    /// The element whose value is `x`.
    pub fn from_u64(x: u64) -> (r: FieldElement)
        ensures
            r.value() == x as nat,
    {
        proof {
            lemma_modulus_bounds();
        }
        FieldElement { l0: x, l1: 0, l2: 0, l3: 0 }
    }

    pub fn zero() -> (r: FieldElement)
        ensures
            r.value() == 0,
    {
        FieldElement::from_u64(0)
    }

    pub fn one() -> (r: FieldElement)
        ensures
            r.value() == 1,
    {
        FieldElement::from_u64(1)
    }

    /// The additive inverse of one: the field order minus one.
    pub fn minus_one() -> (r: FieldElement)
        ensures
            r.value() + 1 == modulus(),
    {
        FieldElement { l0: MODULUS_LIMB0 - 1, l1: MODULUS_LIMB1, l2: MODULUS_LIMB2, l3: MODULUS_LIMB3 }
    }

    /// The element of value `limbs_value(l0, l1, l2, l3)`, or `None` where that integer
    /// is not below the field order.
    pub fn from_limbs(l0: u64, l1: u64, l2: u64, l3: u64) -> (r: Option<FieldElement>)
        ensures
            limbs_value(l0, l1, l2, l3) < modulus() <==> r.is_some(),
            r matches Some(e) ==> e.value() == limbs_value(l0, l1, l2, l3),
    {
        if limbs_below_modulus(l0, l1, l2, l3) {
            Some(FieldElement { l0, l1, l2, l3 })
        } else {
            None
        }
    }

    /// The four little-endian limbs of the element.
    pub fn limbs(&self) -> (r: [u64; 4])
        ensures
            limbs_value(r[0], r[1], r[2], r[3]) == self.value(),
    {
        [self.l0, self.l1, self.l2, self.l3]
    }

    pub fn is_zero(&self) -> (r: bool)
        ensures
            r == (self.value() == 0),
    {
        self.l0 == 0 && self.l1 == 0 && self.l2 == 0 && self.l3 == 0
    }

    pub fn is_one(&self) -> (r: bool)
        ensures
            r == (self.value() == 1),
    {
        self.l0 == 1 && self.l1 == 0 && self.l2 == 0 && self.l3 == 0
    }

    /// Reduces a little-endian byte string modulo the field order.
    pub fn from_le_bytes_mod_order(bytes: &Vec<u8>) -> (r: FieldElement)
        ensures
            r.value() == le_bytes_value(bytes@) % modulus(),
    {
        let l = reduce_le_bytes(bytes);
        proof {
            lemma_modulus_bounds();
        }
        FieldElement { l0: l[0], l1: l[1], l2: l[2], l3: l[3] }
    }
}

/// Lexicographic comparison of limbs, most significant first, against the field order.
fn limbs_below_modulus(l0: u64, l1: u64, l2: u64, l3: u64) -> (r: bool)
    ensures
        r == (limbs_value(l0, l1, l2, l3) < modulus()),
{
    proof {
        lemma_limbs_order(l0, l1, l2, l3, MODULUS_LIMB0, MODULUS_LIMB1, MODULUS_LIMB2, MODULUS_LIMB3);
    }
    if l3 != MODULUS_LIMB3 {
        l3 < MODULUS_LIMB3
    } else if l2 != MODULUS_LIMB2 {
        l2 < MODULUS_LIMB2
    } else if l1 != MODULUS_LIMB1 {
        l1 < MODULUS_LIMB1
    } else {
        l0 < MODULUS_LIMB0
    }
}

/// Two limb vectors compare as their most significant differing limbs do.
proof fn lemma_limbs_order(a0: u64, a1: u64, a2: u64, a3: u64, b0: u64, b1: u64, b2: u64, b3: u64)
    ensures
        a3 != b3 ==> (limbs_value(a0, a1, a2, a3) < limbs_value(b0, b1, b2, b3) <==> a3 < b3),
        a3 == b3 && a2 != b2 ==> (limbs_value(a0, a1, a2, a3) < limbs_value(b0, b1, b2, b3) <==> a2 < b2),
        a3 == b3 && a2 == b2 && a1 != b1 ==> (limbs_value(a0, a1, a2, a3) < limbs_value(b0, b1, b2, b3) <==> a1 < b1),
        a3 == b3 && a2 == b2 && a1 == b1 ==> (limbs_value(a0, a1, a2, a3) < limbs_value(b0, b1, b2, b3) <==> a0 < b0),
{
    let base = limb_base();
    let ta = a0 as nat + base * (a1 as nat + base * (a2 as nat));
    let tb = b0 as nat + base * (b1 as nat + base * (b2 as nat));
    let ma = a0 as nat + base * (a1 as nat);
    let mb = b0 as nat + base * (b1 as nat);
    assert(ma < base * base) by (nonlinear_arith)
        requires ma == a0 as nat + base * (a1 as nat), a0 < base, a1 < base, base > 0;
    assert(mb < base * base) by (nonlinear_arith)
        requires mb == b0 as nat + base * (b1 as nat), b0 < base, b1 < base, base > 0;
    assert(ta == ma + base * base * (a2 as nat)) by (nonlinear_arith)
        requires ta == a0 as nat + base * (a1 as nat + base * (a2 as nat)), ma == a0 as nat + base * (a1 as nat);
    assert(tb == mb + base * base * (b2 as nat)) by (nonlinear_arith)
        requires tb == b0 as nat + base * (b1 as nat + base * (b2 as nat)), mb == b0 as nat + base * (b1 as nat);
    assert(ta < base * base * base) by (nonlinear_arith)
        requires ta == ma + base * base * (a2 as nat), ma < base * base, a2 < base, base > 0;
    assert(tb < base * base * base) by (nonlinear_arith)
        requires tb == mb + base * base * (b2 as nat), mb < base * base, b2 < base, base > 0;
    assert(limbs_value(a0, a1, a2, a3) == ta + base * base * base * (a3 as nat)) by (nonlinear_arith)
        requires ta == a0 as nat + base * (a1 as nat + base * (a2 as nat)),
            limbs_value(a0, a1, a2, a3) == a0 as nat + base * (a1 as nat + base * (a2 as nat + base * (a3 as nat)));
    assert(limbs_value(b0, b1, b2, b3) == tb + base * base * base * (b3 as nat)) by (nonlinear_arith)
        requires tb == b0 as nat + base * (b1 as nat + base * (b2 as nat)),
            limbs_value(b0, b1, b2, b3) == b0 as nat + base * (b1 as nat + base * (b2 as nat + base * (b3 as nat)));
    let c3 = base * base * base;
    if a3 != b3 {
        assert(ta + c3 * (a3 as nat) < tb + c3 * (b3 as nat) <==> a3 < b3) by (nonlinear_arith)
            requires ta < c3, tb < c3, a3 != b3;
    } else if a2 != b2 {
        let c2 = base * base;
        assert(ma + c2 * (a2 as nat) < mb + c2 * (b2 as nat) <==> a2 < b2) by (nonlinear_arith)
            requires ma < c2, mb < c2, a2 != b2;
    } else if a1 != b1 {
        assert(a0 as nat + base * (a1 as nat) < b0 as nat + base * (b1 as nat) <==> a1 < b1) by (nonlinear_arith)
            requires a0 < base, b0 < base, a1 != b1;
    }
}

/// Relies on ark_ff's `PrimeField::from_le_bytes_mod_order` for the BN254 scalar field:
/// it reads the bytes as a little-endian integer and reduces it modulo the field order;
/// `into_bigint` then gives the canonical little-endian limbs of that element.
#[verifier::external_body]
fn reduce_le_bytes(bytes: &Vec<u8>) -> (r: [u64; 4])
    ensures
        limbs_value(r[0], r[1], r[2], r[3]) == le_bytes_value(bytes@) % modulus(),
{
    ark_bn254::Fr::from_le_bytes_mod_order(bytes.as_slice()).into_bigint().0
}

} // verus!
