use anchor::fork::rpc_url;
use anchor::kill::{KILL_CHECK_INTERVAL_MS, KILL_GRACE_CHECKS};
use anchor::launch::{PORT_ATTEMPTS, READY_POLLS, READY_POLL_INTERVAL_MS};
use anchor::{
    AnchorError, ErrorKind, Fork, ForkAction, ForkEvent, ForkManager, ForkPhase, ForkRequest,
    ForkStep, KillAction, KillEvent, KillPhase, KillStep, Loaded, Network,
};

#[test]
fn rpc_url_is_derived_from_the_port() {
    assert_eq!(rpc_url(8545), "http://localhost:8545");
    assert_eq!(rpc_url(0), "http://localhost:0");
    assert_eq!(rpc_url(65535), "http://localhost:65535");
}

#[test]
fn record_and_get() {
    let mut m = ForkManager::new();
    assert!(m.all().is_empty());
    let f = m
        .record(
            "f1".to_string(),
            Network::Sepolia,
            5_500_000,
            8545,
            4242,
            Some("task".to_string()),
            1_700_000_000,
        )
        .unwrap();
    assert_eq!(
        f,
        Fork {
            id: "f1".to_string(),
            network: Network::Sepolia,
            block_number: 5_500_000,
            port: 8545,
            rpc_url: "http://localhost:8545".to_string(),
            pid: 4242,
            session_id: Some("task".to_string()),
            created_at: 1_700_000_000,
        }
    );
    assert_eq!(m.get("f1"), Some(&f));
    assert_eq!(m.get("f2"), None);
    assert_eq!(m.get("F1"), None);
    assert_eq!(m.get(""), None);
    assert!(m.port_in_use(8545));
    assert!(!m.port_in_use(8546));
    m.record("f2".to_string(), Network::Base, 1, 8546, 4343, None, 2)
        .unwrap();
    let ids: Vec<&str> = m.all().iter().map(|f| f.id.as_str()).collect();
    assert_eq!(ids, vec!["f1", "f2"]);
    assert_eq!(f.clone(), f);
}

#[test]
fn record_never_reuses_a_live_port_or_id() {
    let mut m = ForkManager::new();
    m.record("f1".to_string(), Network::Base, 1, 8545, 10, None, 1)
        .unwrap();
    let r = m.record("f2".to_string(), Network::Base, 1, 8545, 11, None, 2);
    assert_eq!(r, Err(AnchorError::PortUnavailable));
    assert_eq!(r.unwrap_err().kind(), ErrorKind::Resource);
    let r = m.record("f1".to_string(), Network::Base, 1, 8546, 11, None, 2);
    assert_eq!(r, Err(AnchorError::DuplicateId));
    // The id is looked at first.
    let r = m.record("f1".to_string(), Network::Base, 1, 8545, 11, None, 2);
    assert_eq!(r, Err(AnchorError::DuplicateId));
    assert_eq!(m.all().len(), 1);
    assert_eq!(m.all()[0].pid, 10);
}

#[test]
fn port_is_free_again_after_remove() {
    let mut m = ForkManager::new();
    m.record("f1".to_string(), Network::Base, 1, 8545, 10, None, 1)
        .unwrap();
    m.record("f2".to_string(), Network::Base, 1, 8546, 11, None, 1)
        .unwrap();
    let gone = m.remove("f1").unwrap();
    assert_eq!(gone.id, "f1");
    assert_eq!(gone.port, 8545);
    assert!(!m.port_in_use(8545));
    assert!(m.port_in_use(8546));
    assert!(m.get("f1").is_none());
    assert_eq!(m.remove("f1"), None);
    assert_eq!(m.all().len(), 1);
    let request = ForkRequest {
        network: Network::Base,
        block: Some(5),
        port: Some(8545),
        session: None,
    };
    assert_eq!(
        m.fork(&request),
        ForkStep::Wait(ForkPhase::ProbingPort { block: 5, port: 8545 })
    );
    m.record("f3".to_string(), Network::Base, 5, 8545, 12, None, 2)
        .unwrap();
    let ids: Vec<&str> = m.all().iter().map(|f| f.id.as_str()).collect();
    assert_eq!(ids, vec!["f2", "f3"]);
}

#[test]
fn load_fork_registry_outcomes() {
    let record = |id: &str, port: u16, url: &str| Fork {
        id: id.to_string(),
        network: Network::Mainnet,
        block_number: 1,
        port,
        rpc_url: url.to_string(),
        pid: 1,
        session_id: None,
        created_at: 1,
    };
    let mut m = ForkManager::new();
    m.record("old".to_string(), Network::Base, 1, 9000, 10, None, 1)
        .unwrap();
    assert_eq!(m.load_registry(Loaded::Missing), Ok(()));
    assert!(m.all().is_empty());
    assert_eq!(m.load_registry(Loaded::Unreadable), Err(AnchorError::Io));
    assert!(m.all().is_empty());
    assert_eq!(
        m.load_registry(Loaded::Malformed),
        Err(AnchorError::MalformedRegistry)
    );
    assert!(m.all().is_empty());
    let good = vec![
        record("a", 8545, "http://localhost:8545"),
        record("b", 8546, "http://localhost:8546"),
    ];
    assert_eq!(m.load_registry(Loaded::Records(good)), Ok(()));
    let ids: Vec<&str> = m.all().iter().map(|f| f.id.as_str()).collect();
    assert_eq!(ids, vec!["a", "b"]);
    let same_id = vec![
        record("a", 8545, "http://localhost:8545"),
        record("a", 8546, "http://localhost:8546"),
    ];
    assert_eq!(
        m.load_registry(Loaded::Records(same_id)),
        Err(AnchorError::MalformedRegistry)
    );
    assert!(m.all().is_empty());
    let same_port = vec![
        record("a", 8545, "http://localhost:8545"),
        record("b", 8545, "http://localhost:8545"),
    ];
    assert_eq!(
        m.load_registry(Loaded::Records(same_port)),
        Err(AnchorError::MalformedRegistry)
    );
    let wrong_url = vec![record("a", 8545, "http://localhost:8546")];
    assert_eq!(
        m.load_registry(Loaded::Records(wrong_url)),
        Err(AnchorError::MalformedRegistry)
    );
    assert!(m.all().is_empty());
}

#[test]
fn fork_with_block_and_port_probes_the_port() {
    let m = ForkManager::new();
    let request = ForkRequest {
        network: Network::Mainnet,
        block: Some(19_000_000),
        port: Some(8545),
        session: None,
    };
    let step = m.fork(&request);
    let phase = ForkPhase::ProbingPort { block: 19_000_000, port: 8545 };
    assert_eq!(step, ForkStep::Wait(phase));
    assert_eq!(
        phase.action(request.network),
        ForkAction::ProbePort { port: 8545 }
    );
    let phase = match m.fork_advance(&request, phase, ForkEvent::Probed(true)) {
        ForkStep::Wait(p) => p,
        other => panic!("{:?}", other),
    };
    assert_eq!(phase, ForkPhase::Spawning { block: 19_000_000, port: 8545 });
    assert_eq!(
        phase.action(request.network),
        ForkAction::Spawn { network: Network::Mainnet, block: 19_000_000, port: 8545 }
    );
    let phase = match m.fork_advance(&request, phase, ForkEvent::Spawned(Some(77))) {
        ForkStep::Wait(p) => p,
        other => panic!("{:?}", other),
    };
    assert_eq!(
        phase,
        ForkPhase::Polling { block: 19_000_000, port: 8545, pid: 77, polls_left: READY_POLLS }
    );
    assert_eq!(phase.action(request.network), ForkAction::Poll { port: 8545 });
    assert_eq!(
        m.fork_advance(&request, phase, ForkEvent::Polled(true)),
        ForkStep::Ready { block: 19_000_000, port: 8545, pid: 77 }
    );
}

#[test]
fn fork_refuses_a_requested_port_that_is_live() {
    let mut m = ForkManager::new();
    m.record("f1".to_string(), Network::Base, 1, 8545, 10, None, 1)
        .unwrap();
    let request = ForkRequest {
        network: Network::Mainnet,
        block: Some(5),
        port: Some(8545),
        session: None,
    };
    assert_eq!(m.fork(&request), ForkStep::Failed(AnchorError::PortUnavailable));
    // With the head still to resolve, the port is refused once it is known.
    let request = ForkRequest { block: None, ..request };
    assert_eq!(m.fork(&request), ForkStep::Wait(ForkPhase::ResolvingHead));
    assert_eq!(
        m.fork_advance(&request, ForkPhase::ResolvingHead, ForkEvent::Head(Some(9))),
        ForkStep::Failed(AnchorError::PortUnavailable)
    );
    // A port that another fork took meanwhile is refused at every later step.
    let probing = ForkPhase::ProbingPort { block: 5, port: 8545 };
    assert_eq!(
        m.fork_advance(&request, probing, ForkEvent::Probed(true)),
        ForkStep::Failed(AnchorError::PortUnavailable)
    );
    let polling = ForkPhase::Polling { block: 5, port: 8545, pid: 3, polls_left: 9 };
    let step = m.fork_advance(&request, polling, ForkEvent::Polled(true));
    let reaping = ForkPhase::Reaping { pid: 3, reason: AnchorError::PortUnavailable };
    assert_eq!(step, ForkStep::Wait(reaping));
    assert_eq!(reaping.action(Network::Mainnet), ForkAction::Terminate { pid: 3 });
    assert_eq!(
        m.fork_advance(&request, reaping, ForkEvent::Reaped),
        ForkStep::Failed(AnchorError::PortUnavailable)
    );
}

#[test]
fn fork_port_that_cannot_be_bound_is_unavailable() {
    let m = ForkManager::new();
    let request = ForkRequest {
        network: Network::Mainnet,
        block: Some(5),
        port: Some(80),
        session: None,
    };
    let probing = ForkPhase::ProbingPort { block: 5, port: 80 };
    assert_eq!(m.fork(&request), ForkStep::Wait(probing));
    assert_eq!(
        m.fork_advance(&request, probing, ForkEvent::Probed(false)),
        ForkStep::Failed(AnchorError::PortUnavailable)
    );
}

#[test]
fn fork_resolves_the_head_when_no_block_is_given() {
    let m = ForkManager::new();
    let request = ForkRequest {
        network: Network::Optimism,
        block: None,
        port: None,
        session: None,
    };
    assert_eq!(m.fork(&request), ForkStep::Wait(ForkPhase::ResolvingHead));
    assert_eq!(
        ForkPhase::ResolvingHead.action(request.network),
        ForkAction::QueryHead { network: Network::Optimism }
    );
    assert_eq!(
        m.fork_advance(&request, ForkPhase::ResolvingHead, ForkEvent::Head(Some(123))),
        ForkStep::Wait(ForkPhase::PickingPort { block: 123, attempts_left: PORT_ATTEMPTS })
    );
    let r = m.fork_advance(&request, ForkPhase::ResolvingHead, ForkEvent::Head(None));
    assert_eq!(r, ForkStep::Failed(AnchorError::UpstreamUnreachable));
    assert_eq!(AnchorError::UpstreamUnreachable.kind(), ErrorKind::Rpc);
}

#[test]
fn fork_picks_a_port_a_bounded_number_of_times() {
    let mut m = ForkManager::new();
    m.record("f1".to_string(), Network::Base, 1, 40000, 10, None, 1)
        .unwrap();
    let request = ForkRequest {
        network: Network::Base,
        block: Some(5),
        port: None,
        session: None,
    };
    let mut phase = match m.fork(&request) {
        ForkStep::Wait(p) => p,
        other => panic!("{:?}", other),
    };
    assert_eq!(phase, ForkPhase::PickingPort { block: 5, attempts_left: PORT_ATTEMPTS });
    assert_eq!(phase.action(request.network), ForkAction::PickPort);
    let mut picks = 0;
    loop {
        picks += 1;
        // The host offers nothing, or a port that a live fork holds.
        let event = if picks % 2 == 0 {
            ForkEvent::Picked(None)
        } else {
            ForkEvent::Picked(Some(40000))
        };
        match m.fork_advance(&request, phase, event) {
            ForkStep::Wait(next) => phase = next,
            ForkStep::Failed(e) => {
                assert_eq!(e, AnchorError::PortUnavailable);
                break;
            }
            other => panic!("{:?}", other),
        }
    }
    assert_eq!(picks, PORT_ATTEMPTS);
    let first = ForkPhase::PickingPort { block: 5, attempts_left: PORT_ATTEMPTS };
    assert_eq!(
        m.fork_advance(&request, first, ForkEvent::Picked(Some(40001))),
        ForkStep::Wait(ForkPhase::Spawning { block: 5, port: 40001 })
    );
}

#[test]
fn fork_spawn_failure() {
    let m = ForkManager::new();
    let request = ForkRequest {
        network: Network::Base,
        block: Some(5),
        port: Some(8545),
        session: None,
    };
    let spawning = ForkPhase::Spawning { block: 5, port: 8545 };
    assert_eq!(
        m.fork_advance(&request, spawning, ForkEvent::Spawned(None)),
        ForkStep::Failed(AnchorError::SpawnFailed)
    );
}

#[test]
fn fork_readiness_timeout_kills_the_process_first() {
    let m = ForkManager::new();
    let request = ForkRequest {
        network: Network::Base,
        block: Some(5),
        port: Some(8545),
        session: None,
    };
    let mut phase = ForkPhase::Polling { block: 5, port: 8545, pid: 99, polls_left: READY_POLLS };
    let mut polls = 0;
    let reaping = loop {
        polls += 1;
        match m.fork_advance(&request, phase, ForkEvent::Polled(false)) {
            ForkStep::Wait(next @ ForkPhase::Polling { .. }) => phase = next,
            ForkStep::Wait(next) => break next,
            other => panic!("{:?}", other),
        }
    };
    assert_eq!(polls, READY_POLLS);
    assert_eq!(
        reaping,
        ForkPhase::Reaping { pid: 99, reason: AnchorError::ReadinessTimeout }
    );
    assert_eq!(reaping.action(request.network), ForkAction::Terminate { pid: 99 });
    assert_eq!(
        m.fork_advance(&request, reaping, ForkEvent::Reaped),
        ForkStep::Failed(AnchorError::ReadinessTimeout)
    );
}

#[test]
fn fork_event_that_does_not_answer_counts_as_failure() {
    let m = ForkManager::new();
    let request = ForkRequest {
        network: Network::Base,
        block: None,
        port: None,
        session: None,
    };
    assert_eq!(
        m.fork_advance(&request, ForkPhase::ResolvingHead, ForkEvent::Polled(true)),
        ForkStep::Failed(AnchorError::UpstreamUnreachable)
    );
    assert_eq!(
        m.fork_advance(
            &request,
            ForkPhase::ProbingPort { block: 1, port: 2 },
            ForkEvent::Picked(Some(2))
        ),
        ForkStep::Failed(AnchorError::PortUnavailable)
    );
    assert_eq!(
        m.fork_advance(
            &request,
            ForkPhase::PickingPort { block: 1, attempts_left: 1 },
            ForkEvent::Probed(true)
        ),
        ForkStep::Failed(AnchorError::PortUnavailable)
    );
    assert_eq!(
        m.fork_advance(
            &request,
            ForkPhase::PickingPort { block: 1, attempts_left: 0 },
            ForkEvent::Picked(None)
        ),
        ForkStep::Failed(AnchorError::PortUnavailable)
    );
    assert_eq!(
        m.fork_advance(
            &request,
            ForkPhase::Spawning { block: 1, port: 2 },
            ForkEvent::Head(Some(3))
        ),
        ForkStep::Failed(AnchorError::SpawnFailed)
    );
    assert_eq!(
        m.fork_advance(
            &request,
            ForkPhase::Polling { block: 1, port: 2, pid: 3, polls_left: 0 },
            ForkEvent::Reaped
        ),
        ForkStep::Wait(ForkPhase::Reaping { pid: 3, reason: AnchorError::ReadinessTimeout })
    );
}

#[test]
fn waits_are_bounded() {
    assert_eq!(PORT_ATTEMPTS, 10);
    assert_eq!(READY_POLLS, 150);
    assert_eq!(READY_POLL_INTERVAL_MS, 200);
    assert_eq!(KILL_GRACE_CHECKS, 50);
    assert_eq!(KILL_CHECK_INTERVAL_MS, 100);
}

#[test]
fn kill_of_unknown_id_is_not_found_and_signals_nothing() {
    let mut m = ForkManager::new();
    m.record("f1".to_string(), Network::Base, 1, 8545, 10, None, 1)
        .unwrap();
    let step = m.kill("nope");
    assert_eq!(step, KillStep::Failed(AnchorError::NotFound));
    assert_eq!(AnchorError::NotFound.kind(), ErrorKind::NotFound);
    assert_eq!(
        m.kill_advance("nope", KillPhase::Signalling { pid: 10 }, KillEvent::Signalled(false)),
        KillStep::Failed(AnchorError::NotFound)
    );
    assert_eq!(m.all().len(), 1);
    assert_eq!(ForkManager::new().kill("f1"), KillStep::Failed(AnchorError::NotFound));
}

#[test]
fn kill_signals_waits_and_removes() {
    let mut m = ForkManager::new();
    m.record("f1".to_string(), Network::Base, 1, 8545, 10, None, 1)
        .unwrap();
    m.record("f2".to_string(), Network::Base, 1, 8546, 11, None, 1)
        .unwrap();
    let signalling = KillPhase::Signalling { pid: 11 };
    assert_eq!(m.kill("f2"), KillStep::Wait(signalling));
    assert_eq!(signalling.action(), KillAction::Terminate { pid: 11 });
    let waiting = KillPhase::Waiting { pid: 11, checks_left: KILL_GRACE_CHECKS };
    assert_eq!(
        m.kill_advance("f2", signalling, KillEvent::Signalled(true)),
        KillStep::Wait(waiting)
    );
    assert_eq!(waiting.action(), KillAction::CheckExit { pid: 11 });
    assert_eq!(m.all().len(), 2);
    assert_eq!(
        m.kill_advance("f2", waiting, KillEvent::Checked(false)),
        KillStep::Wait(KillPhase::Waiting { pid: 11, checks_left: KILL_GRACE_CHECKS - 1 })
    );
    assert_eq!(m.all().len(), 2);
    assert_eq!(
        m.kill_advance("f2", waiting, KillEvent::Checked(true)),
        KillStep::Done
    );
    let ids: Vec<&str> = m.all().iter().map(|f| f.id.as_str()).collect();
    assert_eq!(ids, vec!["f1"]);
    assert!(m.get("f2").is_none());
    assert!(!m.port_in_use(8546));
}

#[test]
fn kill_of_stale_pid_still_removes_the_entry() {
    let mut m = ForkManager::new();
    m.record("f1".to_string(), Network::Base, 1, 8545, 10, None, 1)
        .unwrap();
    let phase = match m.kill("f1") {
        KillStep::Wait(p) => p,
        other => panic!("{:?}", other),
    };
    // The signal finds no process.
    assert_eq!(
        m.kill_advance("f1", phase, KillEvent::Signalled(false)),
        KillStep::Done
    );
    assert!(m.all().is_empty());
    assert!(m.get("f1").is_none());
}

#[test]
fn kill_forces_after_the_grace_period() {
    let mut m = ForkManager::new();
    m.record("f1".to_string(), Network::Base, 1, 8545, 10, None, 1)
        .unwrap();
    let mut phase = KillPhase::Waiting { pid: 10, checks_left: KILL_GRACE_CHECKS };
    let mut checks = 0;
    let forcing = loop {
        checks += 1;
        match m.kill_advance("f1", phase, KillEvent::Checked(false)) {
            KillStep::Wait(next @ KillPhase::Waiting { .. }) => phase = next,
            KillStep::Wait(next) => break next,
            other => panic!("{:?}", other),
        }
    };
    assert_eq!(checks, KILL_GRACE_CHECKS);
    assert_eq!(forcing, KillPhase::Forcing { pid: 10 });
    assert_eq!(forcing.action(), KillAction::ForceKill { pid: 10 });
    assert_eq!(m.all().len(), 1);
    assert_eq!(m.kill_advance("f1", forcing, KillEvent::Forced), KillStep::Done);
    assert!(m.all().is_empty());
}

#[test]
fn kill_all_reports_the_ids_that_failed() {
    assert_eq!(ForkManager::kill_all(&vec![]), Ok(()));
    assert_eq!(
        ForkManager::kill_all(&vec![("a".to_string(), true), ("b".to_string(), true)]),
        Ok(())
    );
    assert_eq!(
        ForkManager::kill_all(&vec![
            ("a".to_string(), false),
            ("b".to_string(), true),
            ("c".to_string(), false),
            ("d".to_string(), true),
        ]),
        Err(vec!["a".to_string(), "c".to_string()])
    );
    assert_eq!(
        ForkManager::kill_all(&vec![("z".to_string(), false)]),
        Err(vec!["z".to_string()])
    );
}

#[test]
fn free_id_is_the_first_candidate_not_in_use() {
    let mut m = ForkManager::new();
    let candidates: Vec<String> = ["f1", "f2", "f3"].iter().map(|s| s.to_string()).collect();
    assert_eq!(m.free_id(&candidates), Some(0));
    assert_eq!(m.free_id(&vec![]), None);
    m.record("f1".to_string(), Network::Base, 1, 8545, 10, None, 1)
        .unwrap();
    assert_eq!(m.free_id(&candidates), Some(1));
    m.record("f3".to_string(), Network::Base, 1, 8546, 11, None, 1)
        .unwrap();
    assert_eq!(m.free_id(&candidates), Some(1));
    m.record("f2".to_string(), Network::Base, 1, 8547, 12, None, 1)
        .unwrap();
    assert_eq!(m.free_id(&candidates), None);
    m.remove("f3");
    assert_eq!(m.free_id(&candidates), Some(2));
}

#[test]
fn enter_records_a_ready_fork() {
    let mut m = ForkManager::new();
    let request = ForkRequest {
        network: Network::Arbitrum,
        block: None,
        port: None,
        session: Some("task".to_string()),
    };
    let fork = m
        .enter("f1".to_string(), &request, 42, 8545, 77, 1_700_000_000)
        .unwrap();
    assert_eq!(
        fork,
        Fork {
            id: "f1".to_string(),
            network: Network::Arbitrum,
            block_number: 42,
            port: 8545,
            rpc_url: "http://localhost:8545".to_string(),
            pid: 77,
            session_id: Some("task".to_string()),
            created_at: 1_700_000_000,
        }
    );
    assert_eq!(m.get("f1"), Some(&fork));
}

#[test]
fn refused_entry_stops_the_node() {
    let mut m = ForkManager::new();
    let request = ForkRequest {
        network: Network::Base,
        block: Some(5),
        port: Some(8545),
        session: None,
    };
    m.enter("f1".to_string(), &request, 5, 8545, 10, 1).unwrap();
    let phase = m.enter("f2".to_string(), &request, 5, 8545, 11, 2).unwrap_err();
    assert_eq!(
        phase,
        ForkPhase::Reaping { pid: 11, reason: AnchorError::PortUnavailable }
    );
    assert_eq!(phase.action(request.network), ForkAction::Terminate { pid: 11 });
    assert_eq!(
        m.fork_advance(&request, phase, ForkEvent::Reaped),
        ForkStep::Failed(AnchorError::PortUnavailable)
    );
    let phase = m.enter("f1".to_string(), &request, 5, 8546, 12, 2).unwrap_err();
    assert_eq!(
        phase,
        ForkPhase::Reaping { pid: 12, reason: AnchorError::DuplicateId }
    );
    assert_eq!(m.all().len(), 1);
}

#[test]
fn retract_takes_the_entry_back_and_stops_the_node() {
    let mut m = ForkManager::new();
    let request = ForkRequest {
        network: Network::Base,
        block: Some(5),
        port: Some(8545),
        session: None,
    };
    m.enter("f1".to_string(), &request, 5, 8545, 10, 1).unwrap();
    let step = m.retract("f1");
    let reaping = ForkPhase::Reaping { pid: 10, reason: AnchorError::Io };
    assert_eq!(step, ForkStep::Wait(reaping));
    assert!(m.all().is_empty());
    assert!(!m.port_in_use(8545));
    assert_eq!(
        m.fork_advance(&request, reaping, ForkEvent::Reaped),
        ForkStep::Failed(AnchorError::Io)
    );
    assert_eq!(m.retract("f1"), ForkStep::Failed(AnchorError::Io));
}
