use docker_bootstrapper::image::ImageBuilder;
use docker_bootstrapper::network::ContainerNetworkBuilder;

#[test]
fn container_builder_accumulates_configuration_in_order() {
    let c = ImageBuilder::new("FROM postgres\n".to_string())
        .to_container("db")
        .with_env("POSTGRES_PASSWORD", "test")
        .with_env("PGDATA", "/data")
        .with_bind("/host/a", "/a")
        .with_cmd(vec!["postgres".to_string()])
        .with_wait(true);
    assert_eq!(c.name, "db");
    assert_eq!(c.image.docker_file, "FROM postgres\n");
    assert_eq!(c.env, vec!["POSTGRES_PASSWORD=test", "PGDATA=/data"]);
    assert_eq!(c.binds, vec!["/host/a:/a"]);
    assert_eq!(c.cmd.as_ref().unwrap(), &vec!["postgres".to_string()]);
    assert!(c.is_waited);
    assert!(c.network.is_none());
}

#[test]
fn bootstrap_configuration_mounts_the_executable_directory() {
    let args = vec!["run".to_string()];
    let c = ImageBuilder::new("FROM alpine\n".to_string())
        .to_container("w")
        .with_bootstrap("/proc/self/dir", "worker", &args);
    assert_eq!(c.binds, vec!["/proc/self/dir:/tmp/target"]);
    assert_eq!(
        c.cmd.as_ref().unwrap(),
        &vec!["/tmp/target/worker".to_string(), "run".to_string()]
    );
}

#[test]
fn network_builder_collects_containers_from_both_entry_points() {
    let mut b = ContainerNetworkBuilder::new("n");
    b.add_container(ImageBuilder::new("FROM alpine\n".to_string()).to_container("one"));
    let b = b.with_containers(vec![
        ImageBuilder::new("FROM alpine\n".to_string()).to_container("two"),
        ImageBuilder::new("FROM alpine\n".to_string()).to_container("three"),
    ]);
    let names: Vec<&str> = b.containers.iter().map(|c| c.name.as_str()).collect();
    assert_eq!(names, vec!["one", "two", "three"]);
    assert_eq!(b.name, "n");
    assert_eq!(b.driver, "bridge");
}
