//! The vote orchestrator. It owns the dispatcher queue and decides, around a proof
//! backend handed in as closures, when work is done and which error a caller sees.
use crate::circuit::{is_valid_vote, VoteCircuit, NUM_PUBLIC_INPUTS};
use crate::dispatcher::{DispatchError, Submitted, TaskQueue, WorkerStep, WorkerTask};
use crate::field::FieldElement;
use ark_relations::r1cs::SynthesisError;
use vstd::prelude::*;

verus! {

#[verifier::external_type_specification]
#[verifier::external_body]
pub struct ExSynthesisError(ark_relations::r1cs::SynthesisError);

/// Pending tasks the dispatcher holds by default.
pub const DEFAULT_QUEUE_CAPACITY: usize = 100;

/// Every failure the orchestrator reports.
#[derive(Clone, Copy, Debug, PartialEq, Eq, Structural)]
pub enum VoteError {
    /// Key generation failed; the orchestrator never became ready.
    KeySetup,
    /// No proof was produced: the witness breaks the circuit, or the prover failed.
    ProofGeneration,
    /// The verification inputs were malformed. An invalid proof is `Ok(false)` instead.
    ProofVerification,
    /// The dispatcher's queue is closed.
    Dispatch,
    /// The execution context that ran the work could not be joined.
    Internal,
}

/// A ready orchestrator: its keys exist and its dispatcher queue is built.
pub struct VoteSystem {
    queue: TaskQueue,
}

impl VoteSystem {
    pub closed spec fn queue(&self) -> TaskQueue {
        self.queue
    }

    pub open spec fn wf(&self) -> bool {
        self.queue().wf()
    }

    /// Generates the keys with `keygen` and builds a dispatcher of `capacity` slots.
    /// Key generation failing is `KeySetup`; there is no partly built orchestrator.
    pub fn setup<K, F: FnOnce() -> Result<K, SynthesisError>>(
        capacity: usize,
        keygen: F,
    ) -> (r: Result<(VoteSystem, K), VoteError>)
        requires
            capacity > 0,
            keygen.requires(()),
        ensures
            exists|out: Result<K, SynthesisError>| #[trigger] keygen.ensures((), out) && match out {
                Ok(keys) => r matches Ok(pair) && pair.1 == keys && pair.0.wf()
                    && pair.0.queue().pending().len() == 0 && !pair.0.queue().is_closed_spec()
                    && pair.0.queue().capacity_spec() == capacity,
                Err(_) => r == Err::<(VoteSystem, K), VoteError>(VoteError::KeySetup),
            },
    {
        match keygen() {
            Ok(keys) => Ok((VoteSystem { queue: TaskQueue::new(capacity) }, keys)),
            Err(_) => Err(VoteError::KeySetup),
        }
    }

    /// Whether a witness may be handed to the prover: only a valid ballot may.
    pub fn admit_witness(circuit: &VoteCircuit) -> (r: Result<(), VoteError>)
        ensures
            r is Ok <==> is_valid_vote(circuit.vote.value()),
            r is Err ==> r == Err::<(), VoteError>(VoteError::ProofGeneration),
    {
        if circuit.is_satisfied() {
            Ok(())
        } else {
            Err(VoteError::ProofGeneration)
        }
    }

    /// Proves a ballot with `prove`, on the caller's execution context. A witness whose
    /// vote is not zero or one is refused before the prover runs; a prover failure is
    /// `ProofGeneration`.
    pub fn vote<P, F: FnOnce(VoteCircuit) -> Result<P, SynthesisError>>(
        &self,
        circuit: VoteCircuit,
        prove: F,
    ) -> (r: Result<P, VoteError>)
        requires
            prove.requires((circuit,)),
        ensures
            !is_valid_vote(circuit.vote.value()) ==> r == Err::<P, VoteError>(VoteError::ProofGeneration),
            is_valid_vote(circuit.vote.value()) ==> exists|out: Result<P, SynthesisError>|
                #[trigger] prove.ensures((circuit,), out) && match out {
                    Ok(proof) => r == Ok::<P, VoteError>(proof),
                    Err(_) => r == Err::<P, VoteError>(VoteError::ProofGeneration),
                },
    {
        match VoteSystem::admit_witness(&circuit) {
            Err(e) => Err(e),
            Ok(()) => match prove(circuit) {
                Ok(proof) => Ok(proof),
                Err(_) => Err(VoteError::ProofGeneration),
            },
        }
    }

    /// Whether a public-input vector has the length the circuit declares.
    pub fn admit_public_inputs(public_inputs: &Vec<FieldElement>) -> (r: Result<(), VoteError>)
        ensures
            r is Ok <==> public_inputs@.len() == NUM_PUBLIC_INPUTS,
            r is Err ==> r == Err::<(), VoteError>(VoteError::ProofVerification),
    {
        if public_inputs.len() == NUM_PUBLIC_INPUTS {
            Ok(())
        } else {
            Err(VoteError::ProofVerification)
        }
    }

    /// Checks a proof with `check` against `public_inputs`. A vector of the wrong
    /// length, or a backend error, is `ProofVerification`; otherwise the backend's
    /// verdict is returned as it is.
    pub fn verify<F: FnOnce(&Vec<FieldElement>) -> Result<bool, SynthesisError>>(
        &self,
        public_inputs: &Vec<FieldElement>,
        check: F,
    ) -> (r: Result<bool, VoteError>)
        requires
            check.requires((public_inputs,)),
        ensures
            public_inputs@.len() != NUM_PUBLIC_INPUTS ==> r == Err::<bool, VoteError>(VoteError::ProofVerification),
            public_inputs@.len() == NUM_PUBLIC_INPUTS ==> exists|out: Result<bool, SynthesisError>|
                #[trigger] check.ensures((public_inputs,), out) && match out {
                    Ok(valid) => r == Ok::<bool, VoteError>(valid),
                    Err(_) => r == Err::<bool, VoteError>(VoteError::ProofVerification),
                },
    {
        match VoteSystem::admit_public_inputs(public_inputs) {
            Err(e) => Err(e),
            Ok(()) => match check(public_inputs) {
                Ok(valid) => Ok(valid),
                Err(_) => Err(VoteError::ProofVerification),
            },
        }
    }

    /// Tells the dispatcher that work of kind `task` starts. A closed queue is
    /// `Dispatch`; a full one is reported so the caller can wait and announce again.
    pub fn announce(&mut self, task: WorkerTask) -> (r: Result<Submitted, VoteError>)
        requires
            old(self).wf(),
        ensures
            final(self).wf(),
            final(self).queue().capacity_spec() == old(self).queue().capacity_spec(),
            final(self).queue().is_closed_spec() == old(self).queue().is_closed_spec(),
            old(self).queue().is_closed_spec() <==> r == Err::<Submitted, VoteError>(VoteError::Dispatch),
            r == Ok::<Submitted, VoteError>(Submitted::Queued) <==> (!old(self).queue().is_closed_spec()
                && old(self).queue().pending().len() < old(self).queue().capacity_spec()),
            r == Ok::<Submitted, VoteError>(Submitted::Full) <==> (!old(self).queue().is_closed_spec()
                && old(self).queue().pending().len() == old(self).queue().capacity_spec()),
            r == Ok::<Submitted, VoteError>(Submitted::Queued) ==> final(self).queue().pending() == old(self).queue().pending().push(task),
            r != Ok::<Submitted, VoteError>(Submitted::Queued) ==> final(self).queue().pending() == old(self).queue().pending(),
    {
        let submitted = self.queue.try_submit(task);
        match submitted {
            Ok(s) => Ok(s),
            Err(e) => {
                assert(e == DispatchError::Closed);
                Err(VoteError::Dispatch)
            },
        }
    }

    /// A worker's next step on the orchestrator's queue.
    pub fn worker_step(&mut self) -> (r: WorkerStep)
        requires
            old(self).wf(),
        ensures
            final(self).wf(),
            final(self).queue().capacity_spec() == old(self).queue().capacity_spec(),
            final(self).queue().is_closed_spec() == old(self).queue().is_closed_spec(),
            old(self).queue().pending().len() > 0 ==> r == WorkerStep::Process(old(self).queue().pending()[0])
                && final(self).queue().pending() == old(self).queue().pending().drop_first(),
            old(self).queue().pending().len() == 0 ==> final(self).queue().pending() == old(self).queue().pending()
                && r == (if old(self).queue().is_closed_spec() { WorkerStep::Exit } else { WorkerStep::Wait }),
    {
        self.queue.next_step()
    }

    /// Closes the dispatcher: later announcements are `Dispatch`, pending tasks drain.
    pub fn shutdown(&mut self)
        requires
            old(self).wf(),
        ensures
            final(self).wf(),
            final(self).queue().is_closed_spec(),
            final(self).queue().pending() == old(self).queue().pending(),
    {
        self.queue.close();
    }

    /// The result of off-loaded work once joined: `None` stands for a context that
    /// could not be joined, which is `Internal`; a joined result passes through.
    pub fn joined<T>(outcome: Option<Result<T, VoteError>>) -> (r: Result<T, VoteError>)
        ensures
            outcome is None ==> r == Err::<T, VoteError>(VoteError::Internal),
            outcome matches Some(res) ==> r == res,
    {
        match outcome {
            Some(res) => res,
            None => Err(VoteError::Internal),
        }
    }
}

} // verus!
