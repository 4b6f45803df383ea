use zk_vote::{DispatchError, Submitted, TaskQueue, VoteError, VoteSystem, WorkerStep, WorkerTask};

#[test]
fn saturation_pushes_back_and_drops_nothing() {
    let mut q = TaskQueue::new(2);
    assert_eq!(q.try_submit(WorkerTask::GenerateProof), Ok(Submitted::Queued));
    assert_eq!(q.try_submit(WorkerTask::VerifyProof), Ok(Submitted::Queued));
    assert_eq!(q.try_submit(WorkerTask::GenerateProof), Ok(Submitted::Full));
    assert_eq!(q.len(), 2);
    assert_eq!(q.next_step(), WorkerStep::Process(WorkerTask::GenerateProof));
    assert_eq!(q.try_submit(WorkerTask::GenerateProof), Ok(Submitted::Queued));
    assert_eq!(q.next_step(), WorkerStep::Process(WorkerTask::VerifyProof));
    assert_eq!(q.next_step(), WorkerStep::Process(WorkerTask::GenerateProof));
    assert_eq!(q.next_step(), WorkerStep::Wait);
}

#[test]
fn closed_queue_refuses_and_drains() {
    let mut q = TaskQueue::new(3);
    q.try_submit(WorkerTask::VerifyProof).unwrap();
    q.close();
    assert!(q.is_closed());
    assert_eq!(q.try_submit(WorkerTask::GenerateProof), Err(DispatchError::Closed));
    assert_eq!(q.next_step(), WorkerStep::Process(WorkerTask::VerifyProof));
    assert_eq!(q.next_step(), WorkerStep::Exit);
    assert_eq!(q.capacity(), 3);
}

#[test]
fn orchestrator_maps_closed_queue_to_dispatch_error() {
    let mut system = VoteSystem::setup(1, || Ok::<(), ark_relations::r1cs::SynthesisError>(())).unwrap().0;
    assert_eq!(system.announce(WorkerTask::GenerateProof), Ok(Submitted::Queued));
    assert_eq!(system.announce(WorkerTask::VerifyProof), Ok(Submitted::Full));
    assert_eq!(system.worker_step(), WorkerStep::Process(WorkerTask::GenerateProof));
    system.shutdown();
    assert_eq!(system.announce(WorkerTask::VerifyProof), Err(VoteError::Dispatch));
    assert_eq!(system.worker_step(), WorkerStep::Exit);
}
