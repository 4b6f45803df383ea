//! The ballot circuit: three private witnesses and the single rank-one constraint
//! `vote * (vote - 1) = 0` over the BN254 scalar field.
use crate::field::{lemma_modulus_bounds, limb_base, modulus, FieldElement};
use vstd::arithmetic::div_mod::lemma_mod_multiples_vanish;
use vstd::prelude::*;

verus! {

/// Private witness variables the circuit allocates: vote, nullifier, randomness.
pub const NUM_WITNESS_VARIABLES: usize = 3;

/// Rank-one constraints the circuit enforces.
pub const NUM_CONSTRAINTS: usize = 1;

/// Public inputs the circuit declares: none, so a verifier is handed an empty vector.
pub const NUM_PUBLIC_INPUTS: usize = 0;

/// The constraint `v * (v - 1) = 0`, read modulo the field order.
pub open spec fn vote_constraint_holds(v: nat) -> bool {
    (v as int * (v as int - 1)) % (modulus() as int) == 0
}

/// A ballot is a zero or a one.
pub open spec fn is_valid_vote(v: nat) -> bool {
    v == 0 || v == 1
}

/// A variable of a rank-one constraint system: the constant one, or the witness at an index.
#[derive(Clone, Copy, Debug, PartialEq, Eq, Structural)]
pub enum Var {
    One,
    Witness(usize),
}

/// One summand `coeff * var` of a linear combination.
#[derive(Clone, Copy, Debug)]
pub struct Term {
    pub coeff: FieldElement,
    pub var: Var,
}

/// The rank-one constraint `<a, z> * <b, z> = <c, z>`.
#[derive(Clone, Debug)]
pub struct Constraint {
    pub a: Vec<Term>,
    pub b: Vec<Term>,
    pub c: Vec<Term>,
}

/// A constraint system with its witness assignment: the witnesses, in order of
/// allocation, and the constraints over them.
#[derive(Clone, Debug)]
pub struct R1cs {
    pub witnesses: Vec<FieldElement>,
    pub constraints: Vec<Constraint>,
}

pub open spec fn var_value(w: Seq<FieldElement>, v: Var) -> int {
    match v {
        Var::One => 1,
        Var::Witness(i) => if i < w.len() { w[i as int].value() as int } else { 0 },
    }
}

/// The integer sum of a linear combination under an assignment, before reduction.
pub open spec fn lc_value(terms: Seq<Term>, w: Seq<FieldElement>) -> int
    decreases terms.len(),
{
    if terms.len() == 0 {
        0
    } else {
        terms[0].coeff.value() * var_value(w, terms[0].var) + lc_value(terms.drop_first(), w)
    }
}

pub open spec fn constraint_satisfied(c: Constraint, w: Seq<FieldElement>) -> bool {
    (lc_value(c.a@, w) * lc_value(c.b@, w) - lc_value(c.c@, w)) % (modulus() as int) == 0
}

/// Every constraint holds in the field under the system's own assignment.
pub open spec fn r1cs_satisfied(cs: R1cs) -> bool {
    forall|i: int| 0 <= i < cs.constraints@.len() ==> #[trigger] constraint_satisfied(cs.constraints@[i], cs.witnesses@)
}

/// Every variable a constraint names is the constant or an allocated witness.
pub open spec fn r1cs_closed(cs: R1cs) -> bool {
    forall|i: int| 0 <= i < cs.constraints@.len() ==> {
        let c = #[trigger] cs.constraints@[i];
        lc_closed(c.a@, cs.witnesses@.len()) && lc_closed(c.b@, cs.witnesses@.len())
            && lc_closed(c.c@, cs.witnesses@.len())
    }
}

pub open spec fn lc_closed(terms: Seq<Term>, n: nat) -> bool {
    forall|j: int| 0 <= j < terms.len() ==> var_in_range(#[trigger] terms[j].var, n)
}

pub open spec fn var_in_range(v: Var, n: nat) -> bool {
    match v {
        Var::One => true,
        Var::Witness(i) => i < n,
    }
}

/// The ballot constraint exactly: `a = [1 * w0]`, `b = [1 * w0, (p - 1) * one]`, `c = []`.
pub open spec fn is_vote_constraint(c: Constraint) -> bool {
    &&& c.a@.len() == 1
    &&& c.a@[0].coeff.value() == 1
    &&& c.a@[0].var == Var::Witness(0)
    &&& c.b@.len() == 2
    &&& c.b@[0].coeff.value() == 1
    &&& c.b@[0].var == Var::Witness(0)
    &&& c.b@[1].coeff.value() + 1 == modulus()
    &&& c.b@[1].var == Var::One
    &&& c.c@.len() == 0
}

/// The private witness of one ballot. `randomness` is carried as a witness only and
/// is bound by no constraint.
#[derive(Clone, Copy, Debug)]
pub struct VoteCircuit {
    pub vote: FieldElement,
    pub nullifier: FieldElement,
    pub randomness: FieldElement,
}

/// The circuit's constraint system is satisfied by its witness.
pub open spec fn circuit_satisfied(c: VoteCircuit) -> bool {
    vote_constraint_holds(c.vote.value())
}

impl VoteCircuit {
    pub fn new(vote: FieldElement, nullifier: FieldElement, randomness: FieldElement) -> (r: VoteCircuit)
        ensures
            r.vote == vote,
            r.nullifier == nullifier,
            r.randomness == randomness,
    {
        VoteCircuit { vote, nullifier, randomness }
    }

    /// Lays the witness out as a constraint system: witnesses vote, nullifier and
    /// randomness at indices 0, 1, 2, and the single constraint
    /// `vote * (vote - 1) = 0`, written `<vote> * <vote + (p - 1) * one> = <>`.
    pub fn synthesize(&self) -> (r: R1cs)
        ensures
            r.witnesses@ == seq![self.vote, self.nullifier, self.randomness],
            r.witnesses@.len() == NUM_WITNESS_VARIABLES,
            r.constraints@.len() == NUM_CONSTRAINTS,
            is_vote_constraint(r.constraints@[0]),
            r1cs_closed(r),
            r1cs_satisfied(r) == circuit_satisfied(*self),
    {
        let witnesses = vec![self.vote, self.nullifier, self.randomness];
        let vote_term = Term { coeff: FieldElement::one(), var: Var::Witness(0) };
        let minus_one = Term { coeff: FieldElement::minus_one(), var: Var::One };
        let constraint = Constraint { a: vec![vote_term], b: vec![vote_term, minus_one], c: Vec::new() };
        let r = R1cs { witnesses, constraints: vec![constraint] };
        proof {
            let w = r.witnesses@;
            let c = r.constraints@[0];
            let v = self.vote.value() as int;
            let m = modulus() as int;
            assert(w[0] == self.vote);
            assert(c.a@ =~= seq![vote_term]);
            assert(c.b@ =~= seq![vote_term, minus_one]);
            assert(c.c@.len() == 0);
            assert(var_value(w, Var::Witness(0)) == v);
            assert(c.a@[0] == vote_term);
            assert(vote_term.coeff.value() == 1);
            assert(c.a@[0].coeff.value() * var_value(w, c.a@[0].var) == v) by (nonlinear_arith)
                requires c.a@[0].coeff.value() == 1, var_value(w, c.a@[0].var) == v;
            assert(lc_value(c.a@.drop_first(), w) == 0);
            assert(lc_value(c.a@, w) == v);
            assert(c.b@.drop_first() =~= seq![minus_one]);
            assert(lc_value(c.b@.drop_first().drop_first(), w) == 0);
            assert(lc_value(c.b@.drop_first(), w) == m - 1);
            assert(lc_value(c.b@, w) == v + m - 1);
            assert(lc_value(c.c@, w) == 0);
            assert(v * (v + m - 1) - 0 == m * v + v * (v - 1)) by (nonlinear_arith);
            lemma_modulus_bounds();
            lemma_mod_multiples_vanish(v, v * (v - 1), m);
            assert(constraint_satisfied(c, w) == vote_constraint_holds(self.vote.value()));
            assert(r1cs_satisfied(r) == constraint_satisfied(c, w));
        }
        r
    }

    /// Whether the witness carries a valid ballot, that is a root of the constraint.
    pub fn is_satisfied(&self) -> (r: bool)
        ensures
            r == is_valid_vote(self.vote.value()),
            r ==> circuit_satisfied(*self),
    {
        let r = self.vote.is_zero() || self.vote.is_one();
        proof {
            if r {
                lemma_valid_vote_satisfies(*self);
            }
        }
        r
    }
}

/// A witness whose vote is zero or one satisfies the circuit's constraint system, so the
/// system that `synthesize` lays out for it is satisfied.
pub proof fn lemma_valid_vote_satisfies(c: VoteCircuit)
    requires
        is_valid_vote(c.vote.value()),
    ensures
        circuit_satisfied(c),
{
    lemma_modulus_bounds();
    let v = c.vote.value() as int;
    assert(v * (v - 1) == 0) by (nonlinear_arith)
        requires v == 0 || v == 1;
}

/// A vote outside `{0, 1}` below 2^126 violates the constraint: there `v * (v - 1)` is a
/// positive integer smaller than the field order, so it is not zero in the field.
pub proof fn lemma_invalid_vote_violates(v: nat)
    requires
        !is_valid_vote(v),
        v < 0x4000_0000_0000_0000_0000_0000_0000_0000nat,
    ensures
        !vote_constraint_holds(v),
{
    lemma_modulus_bounds();
    let b = limb_base();
    let m = modulus() as int;
    let p = v as int * (v as int - 1);
    assert(0 < p < 0x1000_0000_0000_0000_0000_0000_0000_0000_0000_0000_0000_0000_0000_0000_0000_0000int)
        by (nonlinear_arith)
        requires
            p == v as int * (v as int - 1),
            v >= 2,
            v < 0x4000_0000_0000_0000_0000_0000_0000_0000nat,
    ;
    assert(b * b * b * 0x2000_0000_0000_0000nat
        == 0x2000_0000_0000_0000_0000_0000_0000_0000_0000_0000_0000_0000_0000_0000_0000_0000nat);
    assert(p % m == p) by (nonlinear_arith)
        requires 0 < p < m;
}

} // verus!
