//! The task dispatcher's bounded queue: producers submit tagged tasks, workers drain
//! them in order of submission. A full queue pushes back on the submitter; only a
//! closed queue refuses work.
use vstd::prelude::*;

verus! {

/// A tagged unit of proof work.
#[derive(Clone, Copy, Debug, PartialEq, Eq, Structural)]
pub enum WorkerTask {
    GenerateProof,
    VerifyProof,
}

/// The queue no longer accepts tasks.
#[derive(Clone, Copy, Debug, PartialEq, Eq, Structural)]
pub enum DispatchError {
    Closed,
}

/// What became of a submission that the queue did not refuse.
#[derive(Clone, Copy, Debug, PartialEq, Eq, Structural)]
pub enum Submitted {
    /// The task now stands last in the queue.
    Queued,
    /// The queue is at capacity and was left unchanged: the submitter waits for a
    /// worker to take a task and submits again.
    Full,
}

/// What a worker does next.
#[derive(Clone, Copy, Debug, PartialEq, Eq, Structural)]
pub enum WorkerStep {
    /// Carry out the given work item, already taken off the queue.
    Process(WorkerTask),
    /// Nothing is pending but the queue is open: wait for a submission.
    Wait,
    /// The queue is closed and drained: the worker's slot ends.
    Exit,
}

/// A bounded first-in first-out queue of tasks.
pub struct TaskQueue {
    pending: Vec<WorkerTask>,
    capacity: usize,
    closed: bool,
}

impl TaskQueue {
    /// Pending tasks, oldest first.
    pub closed spec fn pending(&self) -> Seq<WorkerTask> {
        self.pending@
    }

    pub closed spec fn capacity_spec(&self) -> nat {
        self.capacity as nat
    }

    pub closed spec fn is_closed_spec(&self) -> bool {
        self.closed
    }

    /// The queue never holds more than its capacity, which is positive.
    pub open spec fn wf(&self) -> bool {
        &&& 0 < self.capacity_spec()
        &&& self.pending().len() <= self.capacity_spec()
    }

    /// An open, empty queue that holds at most `capacity` tasks.
    pub fn new(capacity: usize) -> (r: TaskQueue)
        requires
            capacity > 0,
        ensures
            r.wf(),
            r.pending() == Seq::<WorkerTask>::empty(),
            r.capacity_spec() == capacity,
            !r.is_closed_spec(),
    {
        TaskQueue { pending: Vec::new(), capacity, closed: false }
    }

    pub fn len(&self) -> (r: usize)
        ensures
            r == self.pending().len(),
    {
        self.pending.len()
    }

    pub fn capacity(&self) -> (r: usize)
        ensures
            r == self.capacity_spec(),
    {
        self.capacity
    }

    pub fn is_closed(&self) -> (r: bool)
        ensures
            r == self.is_closed_spec(),
    {
        self.closed
    }

    /// Offers `task` to the queue. A closed queue refuses it; an open queue at capacity
    /// is left unchanged and says so; otherwise the task is appended. No task is dropped
    /// without the submitter being told.
    pub fn try_submit(&mut self, task: WorkerTask) -> (r: Result<Submitted, DispatchError>)
        requires
            old(self).wf(),
        ensures
            final(self).wf(),
            final(self).capacity_spec() == old(self).capacity_spec(),
            final(self).is_closed_spec() == old(self).is_closed_spec(),
            old(self).is_closed_spec() <==> r == Err::<Submitted, DispatchError>(DispatchError::Closed),
            r == Ok::<Submitted, DispatchError>(Submitted::Queued) <==> (!old(self).is_closed_spec()
                && old(self).pending().len() < old(self).capacity_spec()),
            r == Ok::<Submitted, DispatchError>(Submitted::Full) <==> (!old(self).is_closed_spec()
                && old(self).pending().len() == old(self).capacity_spec()),
            r == Ok::<Submitted, DispatchError>(Submitted::Queued) ==> final(self).pending() == old(self).pending().push(task),
            r != Ok::<Submitted, DispatchError>(Submitted::Queued) ==> final(self).pending() == old(self).pending(),
    {
        if self.closed {
            Err(DispatchError::Closed)
        } else if self.pending.len() < self.capacity {
            self.pending.push(task);
            Ok(Submitted::Queued)
        } else {
            Ok(Submitted::Full)
        }
    }

    /// The next step of a worker: the oldest pending task leaves the queue; with none
    /// pending the worker waits while the queue is open and exits once it is closed.
    pub fn next_step(&mut self) -> (r: WorkerStep)
        requires
            old(self).wf(),
        ensures
            final(self).wf(),
            final(self).capacity_spec() == old(self).capacity_spec(),
            final(self).is_closed_spec() == old(self).is_closed_spec(),
            old(self).pending().len() > 0 ==> r == WorkerStep::Process(old(self).pending()[0])
                && final(self).pending() == old(self).pending().drop_first(),
            old(self).pending().len() == 0 ==> final(self).pending() == old(self).pending()
                && r == (if old(self).is_closed_spec() { WorkerStep::Exit } else { WorkerStep::Wait }),
    {
        if self.pending.len() > 0 {
            let task = self.pending.remove(0);
            proof {
                assert(self.pending@ =~= old(self).pending@.drop_first());
            }
            WorkerStep::Process(task)
        } else if self.closed {
            WorkerStep::Exit
        } else {
            WorkerStep::Wait
        }
    }

    /// Stops accepting tasks; those already pending stay to be drained.
    pub fn close(&mut self)
        requires
            old(self).wf(),
        ensures
            final(self).wf(),
            final(self).is_closed_spec(),
            final(self).pending() == old(self).pending(),
            final(self).capacity_spec() == old(self).capacity_spec(),
    {
        self.closed = true;
    }
}

} // verus!
