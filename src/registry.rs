//! Spent nullifiers: a ballot is accepted only if its nullifier has not been used.
use crate::field::FieldElement;
use vstd::prelude::*;

verus! {

/// The outcome of offering a verified ballot's nullifier.
#[derive(Clone, Copy, Debug, PartialEq, Eq, Structural)]
pub enum Acceptance {
    /// The nullifier was fresh and is now spent.
    Accepted,
    /// The nullifier was already spent: a second vote, refused.
    DoubleVote,
}

/// The set of nullifiers whose ballots were accepted, each recorded once.
pub struct SpentRegistry {
    spent: Vec<FieldElement>,
}

impl SpentRegistry {
    pub closed spec fn spent(&self) -> Set<FieldElement> {
        self.spent@.to_set()
    }

    pub closed spec fn wf(&self) -> bool {
        self.spent@.no_duplicates()
    }

    pub fn new() -> (r: SpentRegistry)
        ensures
            r.wf(),
            r.spent() == Set::<FieldElement>::empty(),
    {
        let r = SpentRegistry { spent: Vec::new() };
        proof {
            assert(r.spent@.to_set() =~= Set::<FieldElement>::empty());
        }
        r
    }

    /// The number of spent nullifiers.
    pub fn len(&self) -> (r: usize)
        requires
            self.wf(),
        ensures
            r == self.spent().len(),
    {
        proof {
            self.spent@.unique_seq_to_set();
        }
        self.spent.len()
    }

    pub fn is_spent(&self, nullifier: &FieldElement) -> (r: bool)
        ensures
            r == self.spent().contains(*nullifier),
    {
        let mut i: usize = 0;
        while i < self.spent.len()
            invariant
                i <= self.spent@.len(),
                forall|j: int| 0 <= j < i ==> self.spent@[j] != *nullifier,
            decreases self.spent@.len() - i,
        {
            if self.spent[i] == *nullifier {
                proof {
                    assert(self.spent@.to_set().contains(self.spent@[i as int]));
                }
                return true;
            }
            i = i + 1;
        }
        proof {
            if self.spent@.to_set().contains(*nullifier) {
                let k = self.spent@.index_of(*nullifier);
                assert(self.spent@[k] == *nullifier);
            }
        }
        false
    }

    /// Records the nullifier of a verified ballot, unless it was spent already.
    pub fn accept(&mut self, nullifier: FieldElement) -> (r: Acceptance)
        requires
            old(self).wf(),
        ensures
            final(self).wf(),
            old(self).spent().contains(nullifier) <==> r == Acceptance::DoubleVote,
            final(self).spent() == old(self).spent().insert(nullifier),
    {
        if self.is_spent(&nullifier) {
            proof {
                assert(self.spent@.to_set().insert(nullifier) =~= self.spent@.to_set());
            }
            Acceptance::DoubleVote
        } else {
            self.spent.push(nullifier);
            proof {
                let old_spent = old(self).spent@;
                assert forall|x: FieldElement| #[trigger] self.spent@.contains(x) <==> old_spent.contains(x) || x == nullifier by {
                    if x == nullifier {
                        assert(self.spent@[self.spent@.len() - 1] == x);
                    }
                    if old_spent.contains(x) {
                        let k = old_spent.index_of(x);
                        assert(self.spent@[k] == x);
                    }
                    if self.spent@.contains(x) {
                        let k = self.spent@.index_of(x);
                        if k < old_spent.len() {
                            assert(old_spent[k] == x);
                        }
                    }
                }
                assert(self.spent@.to_set() =~= old_spent.to_set().insert(nullifier));
                assert forall|a: int, b: int| 0 <= a < b < self.spent@.len() implies self.spent@[a] != self.spent@[b] by {
                    if b == self.spent@.len() - 1 {
                        assert(old(self).spent@.to_set().contains(self.spent@[a]));
                    }
                }
            }
            Acceptance::Accepted
        }
    }
}

} // verus!
