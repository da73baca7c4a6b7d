use anchor::{
    CheckpointManager, ForkEvent, ForkManager, ForkPhase, ForkRequest, ForkStep, KillEvent,
    KillStep, Network, SnapshotManager,
};

#[test]
fn fork_snapshot_revert_kill() {
    let mut forks = ForkManager::new();
    let request = ForkRequest {
        network: Network::Sepolia,
        block: None,
        port: None,
        session: None,
    };
    // The outside world, as it answers each piece of work in turn.
    let events = [
        ForkEvent::Head(Some(6_123_456)),
        ForkEvent::Picked(Some(45_123)),
        ForkEvent::Spawned(Some(31_337)),
        ForkEvent::Polled(false),
        ForkEvent::Polled(false),
        ForkEvent::Polled(true),
    ];
    let mut step = forks.fork(&request);
    assert_eq!(step, ForkStep::Wait(ForkPhase::ResolvingHead));
    for event in events {
        let phase = match step {
            ForkStep::Wait(phase) => phase,
            other => panic!("{:?}", other),
        };
        step = forks.fork_advance(&request, phase, event);
    }
    let (block, port, pid) = match step {
        ForkStep::Ready { block, port, pid } => (block, port, pid),
        other => panic!("{:?}", other),
    };
    let fork = forks
        .record("a1b2c3d4".to_string(), request.network, block, port, pid, None, 1_700_000_000)
        .unwrap();
    assert_eq!(fork.block_number, 6_123_456);
    assert_eq!(fork.port, 45_123);
    assert_eq!(fork.pid, 31_337);
    assert_eq!(fork.rpc_url, "http://localhost:45123");
    assert_eq!(fork.network, Network::Sepolia);
    assert_eq!(forks.get("a1b2c3d4"), Some(&fork));

    let mut snapshots = SnapshotManager::new(&fork.id);
    let snapshot = snapshots
        .create("s1".to_string(), Some("0x0".to_string()), Some(fork.block_number), None, None, None, 1_700_000_001)
        .unwrap();
    assert_eq!(snapshot.block_number, fork.block_number);
    assert_eq!(snapshot.fork_id, fork.id);
    assert_eq!(snapshots.list().len(), 1);

    assert_eq!(snapshots.revert(&snapshot.id, true), Ok(()));
    assert!(snapshots.list().is_empty());

    let phase = match forks.kill(&fork.id) {
        KillStep::Wait(phase) => phase,
        other => panic!("{:?}", other),
    };
    let phase = match forks.kill_advance(&fork.id, phase, KillEvent::Signalled(true)) {
        KillStep::Wait(phase) => phase,
        other => panic!("{:?}", other),
    };
    assert_eq!(
        forks.kill_advance(&fork.id, phase, KillEvent::Checked(true)),
        KillStep::Done
    );
    assert_eq!(forks.get(&fork.id), None);
    assert!(forks.all().is_empty());
}

#[test]
fn checkpoint_outlives_its_fork() {
    let mut forks = ForkManager::new();
    let first = forks
        .record("f1".to_string(), Network::Base, 10, 8545, 100, Some("task".to_string()), 1)
        .unwrap();
    let dump = b"{\"accounts\":{}}".to_vec();
    let mut checkpoints = CheckpointManager::new(&first.id, "task");
    let saved = checkpoints
        .save("c1".to_string(), first.network, first.block_number, &dump, true, None, 2)
        .unwrap();
    assert_eq!(saved.size_bytes, dump.len() as u64);
    assert!(forks.remove("f1").is_some());
    // Another fork of the same network takes the port and the state.
    let second = forks
        .record("f2".to_string(), Network::Base, 11, 8545, 101, Some("task".to_string()), 3)
        .unwrap();
    let mut later = CheckpointManager::new(&second.id, "task");
    assert_eq!(
        later.load_registry(anchor::Loaded::Records(checkpoints.list().clone())),
        Ok(())
    );
    assert_eq!(later.restore("c1", second.network, dump.clone()), Ok(dump));
}
