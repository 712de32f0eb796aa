use docker_bootstrapper::container::{Container, RemoveStatus, WaitStatus};
use docker_bootstrapper::errors::RunError;
use docker_bootstrapper::image::ImageBuilder;
use docker_bootstrapper::network::{ContainerNetwork, ContainerNetworkBuilder, RemoveOp};
use docker_bootstrapper::run::{RunAction, RunEvent, RunMachine, RunPhase};

fn two_container_network() -> ContainerNetwork {
    ContainerNetwork {
        id: "net-1".to_string(),
        containers: vec![
            Container::new("c-sleeper".to_string(), "sleeper".to_string(), true),
            Container::new("c-failer".to_string(), "failer".to_string(), true),
        ],
    }
}

/// Drives the machine through a whole event sequence, counting how many
/// times it orders the cleanup plan executed.
fn drive(events: Vec<RunEvent>) -> (RunMachine, usize) {
    let mut machine = RunMachine::new();
    let mut cleanups: usize = 0;
    for ev in events {
        assert!(machine.accepts(&ev));
        let (next, action) = machine.step(ev);
        machine = next;
        if action == RunAction::Cleanup {
            cleanups += 1;
        }
    }
    (machine, cleanups)
}

#[test]
fn successful_run_cleans_up_exactly_once() {
    let (machine, cleanups) = drive(vec![
        RunEvent::Launched,
        RunEvent::StartFinished { failure: None },
        RunEvent::ObservedQuiescent { failure: None },
        RunEvent::CleanupFinished { failure: None },
    ]);
    assert_eq!(cleanups, 1);
    assert_eq!(machine.phase, RunPhase::Done);
    assert!(machine.conclude().is_ok());
}

#[test]
fn cleanup_plan_removes_each_container_then_the_network() {
    let net = two_container_network();
    let plan = net.cleanup_plan();
    assert_eq!(plan.len(), 3);
    let mut container_removes = 0;
    let mut network_removes = 0;
    for op in &plan {
        match op {
            RemoveOp::Container { .. } => container_removes += 1,
            RemoveOp::Network { .. } => network_removes += 1,
        }
    }
    assert_eq!(container_removes, 2);
    assert_eq!(network_removes, 1);
    assert!(matches!(&plan[0], RemoveOp::Container { id } if id == "c-sleeper"));
    assert!(matches!(&plan[1], RemoveOp::Container { id } if id == "c-failer"));
    assert!(matches!(&plan[2], RemoveOp::Network { id } if id == "net-1"));
}

#[test]
fn failed_run_still_cleans_up_exactly_once() {
    let exit = RunError::ContainerExit {
        name: "failer".to_string(),
        code: 1,
        message: String::new(),
    };
    let (machine, cleanups) = drive(vec![
        RunEvent::Launched,
        RunEvent::StartFinished { failure: None },
        RunEvent::ObservedEarlyExit { failure: Some(exit) },
        RunEvent::ReplayFinished { failure: None },
        RunEvent::CleanupFinished { failure: None },
    ]);
    assert_eq!(cleanups, 1);
    match machine.conclude() {
        Err(RunError::ContainerExit { name, code, .. }) => {
            assert_eq!(name, "failer");
            assert_eq!(code, 1);
        }
        other => panic!("expected a container-exit error, got {:?}", other),
    }
}

#[test]
fn failer_aborts_run_with_replay_and_full_cleanup() {
    // Two waited containers; the quick failer exits 1 while the sleeper is
    // still running: the early exit wins the observation race, the logs are
    // replayed, and both containers and the network are removed.
    let net = two_container_network();
    let failer_exit = net.containers[1]
        .wait_outcome(WaitStatus::Exited {
            code: 1,
            message: "exit status 1".to_string(),
        })
        .unwrap_err();

    let mut machine = RunMachine::new();
    let mut replayed = false;
    let mut removed: Vec<RemoveOp> = Vec::new();
    let events = vec![
        RunEvent::Launched,
        RunEvent::StartFinished { failure: None },
        RunEvent::ObservedEarlyExit { failure: Some(failer_exit) },
        RunEvent::ReplayFinished { failure: None },
        RunEvent::CleanupFinished { failure: None },
    ];
    for ev in events {
        let (next, action) = machine.step(ev);
        machine = next;
        match action {
            RunAction::ReplayLogs => replayed = true,
            RunAction::Cleanup => removed = net.cleanup_plan(),
            _ => {}
        }
    }
    assert!(replayed);
    assert_eq!(removed.len(), 3);
    match machine.conclude() {
        Err(RunError::ContainerExit { name, code, .. }) => {
            assert_eq!(name, "failer");
            assert_eq!(code, 1);
        }
        other => panic!("expected a container-exit error, got {:?}", other),
    }
}

#[test]
fn interrupt_cancels_run_and_still_cleans_up() {
    let (machine, cleanups) = drive(vec![
        RunEvent::Launched,
        RunEvent::StartFinished { failure: None },
        RunEvent::Interrupted,
        RunEvent::CleanupFinished { failure: None },
    ]);
    assert_eq!(cleanups, 1);
    assert!(machine.interrupted);
    match machine.conclude() {
        Err(RunError::Interrupted) => {}
        other => panic!("expected the interrupt error, got {:?}", other),
    }
}

#[test]
fn second_interrupt_aborts_cleanup() {
    let (machine, cleanups) = drive(vec![
        RunEvent::Launched,
        RunEvent::StartFinished { failure: None },
        RunEvent::Interrupted,
        RunEvent::Interrupted,
    ]);
    assert_eq!(cleanups, 1);
    assert_eq!(machine.phase, RunPhase::Done);
    assert!(machine.interrupted);
}

#[test]
fn start_failure_skips_observation_and_cleans_up() {
    let (machine, cleanups) = drive(vec![
        RunEvent::Launched,
        RunEvent::StartFinished {
            failure: Some(RunError::Transport {
                message: "engine down".to_string(),
            }),
        },
        RunEvent::CleanupFinished { failure: None },
    ]);
    assert_eq!(cleanups, 1);
    match machine.conclude() {
        Err(RunError::Transport { message }) => assert_eq!(message, "engine down"),
        other => panic!("expected a transport error, got {:?}", other),
    }
}

#[test]
fn primary_error_outranks_cleanup_error() {
    let (machine, _) = drive(vec![
        RunEvent::Launched,
        RunEvent::StartFinished {
            failure: Some(RunError::Transport {
                message: "primary".to_string(),
            }),
        },
        RunEvent::CleanupFinished {
            failure: Some(RunError::Cleanup {
                message: "secondary".to_string(),
            }),
        },
    ]);
    assert!(machine.cleanup_failure.is_some());
    match machine.conclude() {
        Err(RunError::Transport { message }) => assert_eq!(message, "primary"),
        other => panic!("expected the primary error, got {:?}", other),
    }
}

#[test]
fn cleanup_error_surfaces_when_nothing_else_failed() {
    let (machine, _) = drive(vec![
        RunEvent::Launched,
        RunEvent::StartFinished { failure: None },
        RunEvent::ObservedQuiescent { failure: None },
        RunEvent::CleanupFinished {
            failure: Some(RunError::Cleanup {
                message: "remove failed".to_string(),
            }),
        },
    ]);
    match machine.conclude() {
        Err(RunError::Cleanup { message }) => assert_eq!(message, "remove failed"),
        other => panic!("expected the cleanup error, got {:?}", other),
    }
}

#[test]
fn idle_machine_rejects_stray_events() {
    let machine = RunMachine::new();
    assert!(!machine.accepts(&RunEvent::Interrupted));
    assert!(!machine.accepts(&RunEvent::CleanupFinished { failure: None }));
    assert!(machine.accepts(&RunEvent::Launched));
}

#[test]
fn waited_spec_lands_in_wait_set_and_unwaited_does_not() {
    let mut builder = ContainerNetworkBuilder::new("test-net");
    builder.add_container(
        ImageBuilder::new("FROM alpine\n".to_string())
            .to_container("watched")
            .with_wait(true),
    );
    builder.add_container(
        ImageBuilder::new("FROM alpine\n".to_string())
            .to_container("background")
            .with_wait(false),
    );
    let bound = builder.bind_all("net-7");
    assert!(bound.iter().all(|c| c.network.as_deref() == Some("net-7")));
    let ids = vec!["id-0".to_string(), "id-1".to_string()];
    let net = ContainerNetwork::assemble("net-7".to_string(), ids, &bound);
    assert_eq!(net.containers[0].name(), "watched");
    assert!(net.containers[0].is_waited);
    assert!(!net.containers[1].is_waited);
    assert_eq!(net.wait_indices(), vec![0]);
}

#[test]
fn start_outcome_requires_every_start_to_succeed() {
    let ok: Vec<Result<(), String>> = vec![Ok(()), Ok(())];
    assert!(ContainerNetwork::start_outcome(ok).is_ok());
    let mixed: Vec<Result<(), String>> = vec![Ok(()), Err("boom".to_string()), Ok(())];
    match ContainerNetwork::start_outcome(mixed) {
        Err(RunError::Transport { message }) => assert_eq!(message, "boom"),
        other => panic!("expected a transport error, got {:?}", other),
    }
}

#[test]
fn wait_outcome_distinguishes_exits_from_transport() {
    let c = Container::new("id".to_string(), "job".to_string(), true);
    assert!(c
        .wait_outcome(WaitStatus::Exited {
            code: 0,
            message: String::new()
        })
        .is_ok());
    match c.wait_outcome(WaitStatus::Exited {
        code: 3,
        message: "died".to_string(),
    }) {
        Err(RunError::ContainerExit {
            name,
            code,
            message,
        }) => {
            assert_eq!(name, "job");
            assert_eq!(code, 3);
            assert_eq!(message, "died");
        }
        other => panic!("expected a container-exit error, got {:?}", other),
    }
    match c.wait_outcome(WaitStatus::Failed {
        message: "socket closed".to_string(),
    }) {
        Err(RunError::Transport { message }) => assert_eq!(message, "socket closed"),
        other => panic!("expected a transport error, got {:?}", other),
    }
}

#[test]
fn removing_an_already_gone_container_counts_as_success() {
    let c = Container::new("id".to_string(), "job".to_string(), false);
    assert!(c.removal_outcome(RemoveStatus::Removed).is_ok());
    assert!(c.removal_outcome(RemoveStatus::NotFound).is_ok());
    match c.removal_outcome(RemoveStatus::Failed {
        message: "still in use".to_string(),
    }) {
        Err(RunError::Cleanup { message }) => assert_eq!(message, "still in use"),
        other => panic!("expected a cleanup error, got {:?}", other),
    }
}
