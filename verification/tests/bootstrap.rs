use docker_bootstrapper::bootstrap::{BootstrapDockerNet, Decision, Runner};
use docker_bootstrapper::errors::RunError;
use docker_bootstrapper::image::ImageBuilder;
use docker_bootstrapper::RUNNER_ENV_VAR;

fn three_tasks() -> BootstrapDockerNet {
    let containers = vec![
        ImageBuilder::new("FROM alpine\n".to_string()).to_container("t0"),
        ImageBuilder::new("FROM alpine\n".to_string()).to_container("t1"),
        ImageBuilder::new("FROM alpine\n".to_string()).to_container("t2"),
    ];
    BootstrapDockerNet::new("bootstrapper", containers)
}

#[test]
fn absent_variable_means_master() {
    assert_eq!(Runner::from_env(None).unwrap(), Runner::Master);
}

#[test]
fn ordinal_value_means_worker() {
    assert_eq!(
        Runner::from_env(Some("2")).unwrap(),
        Runner::ContainerId(2)
    );
    assert_eq!(
        Runner::from_env(Some("0")).unwrap(),
        Runner::ContainerId(0)
    );
}

#[test]
fn malformed_ordinal_is_a_fatal_configuration_error() {
    for bad in ["", "abc", "1x", "-1", "99999999999999999999999999"] {
        match Runner::from_env(Some(bad)) {
            Err(RunError::Configuration { .. }) => {}
            other => panic!("expected a configuration error for {:?}, got {:?}", bad, other),
        }
    }
}

#[test]
fn worker_runs_exactly_its_own_task() {
    let args = vec!["arg0".to_string()];
    match three_tasks().dispatch(Runner::ContainerId(1), "/bin/dir", "exe", &args) {
        Ok(Decision::RunTask { ordinal }) => assert_eq!(ordinal, 1),
        other => panic!("expected task 1, got {:?}", other),
    }
}

#[test]
fn worker_with_ordinal_out_of_range_fails_fatally() {
    let args: Vec<String> = vec![];
    match three_tasks().dispatch(Runner::ContainerId(3), "/bin/dir", "exe", &args) {
        Err(RunError::Configuration { message }) => {
            assert_eq!(message, "no task for runner ordinal 3");
        }
        other => panic!("expected a configuration error, got {:?}", other),
    }
}

#[test]
fn worker_decision_carries_no_engine_work() {
    let args: Vec<String> = vec![];
    match three_tasks().dispatch(Runner::ContainerId(0), "/bin/dir", "exe", &args) {
        Ok(Decision::RunTask { .. }) => {}
        Ok(Decision::Orchestrate { .. }) => panic!("a worker must never touch the engine"),
        Err(e) => panic!("unexpected error: {:?}", e),
    }
}

#[test]
fn master_injects_reexec_configuration_into_every_container() {
    let args = vec!["prog".to_string(), "--flag".to_string()];
    let network = match three_tasks().dispatch(Runner::Master, "/host/bin", "prog", &args) {
        Ok(Decision::Orchestrate { network }) => network,
        other => panic!("expected an orchestration decision, got {:?}", other),
    };
    assert_eq!(network.name, "bootstrapper");
    assert_eq!(network.driver, "bridge");
    assert!(network.check_duplicate);
    assert_eq!(network.containers.len(), 3);
    for (i, c) in network.containers.iter().enumerate() {
        assert_eq!(c.env, vec![format!("{}={}", RUNNER_ENV_VAR, i)]);
        assert_eq!(c.binds, vec!["/host/bin:/tmp/target".to_string()]);
        let cmd = c.cmd.as_ref().expect("command must be set");
        assert_eq!(
            cmd,
            &vec![
                "/tmp/target/prog".to_string(),
                "prog".to_string(),
                "--flag".to_string()
            ]
        );
    }
}
