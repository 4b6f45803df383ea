//! Anonymous binary ballots: the vote circuit's rule, nullifier derivation, the task
//! queue that feeds proof workers, the spent-nullifier registry, and the decisions of
//! the vote orchestrator around a pluggable proof backend.
pub mod circuit;
pub mod dispatcher;
pub mod field;
pub mod nullifier;
pub mod registry;
pub mod system;

pub use circuit::{Constraint, R1cs, Term, Var, VoteCircuit};
pub use dispatcher::{DispatchError, Submitted, TaskQueue, WorkerStep, WorkerTask};
pub use field::FieldElement;
pub use nullifier::{calculate_nullifier, generate_nullifier, nullifier_from_parts, nullifier_preimage};
pub use registry::{Acceptance, SpentRegistry};
pub use system::{VoteError, VoteSystem, DEFAULT_QUEUE_CAPACITY};
