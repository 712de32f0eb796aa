use std::io::Read;

use docker_bootstrapper::errors::RunError;
use docker_bootstrapper::image::{Image, ImageBuilder};

#[test]
fn tarball_holds_the_dockerfile_under_its_conventional_name() {
    let text = "FROM alpine\nRUN true\n";
    let tarball = ImageBuilder::new(text.to_string()).create_docker_tarball();

    // gzip magic bytes: the context really is compressed.
    assert!(tarball.len() > 2);
    assert_eq!(&tarball[0..2], &[0x1f, 0x8b]);

    // Unpack it and read the one entry back.
    let decoder = flate2::read::GzDecoder::new(&tarball[..]);
    let mut archive = tar::Archive::new(decoder);
    let mut entries = archive.entries().expect("tar entries");
    let mut entry = entries
        .next()
        .expect("one entry")
        .expect("readable entry");
    assert_eq!(
        entry.path().expect("path").to_string_lossy(),
        "Dockerfile"
    );
    let mut contents = String::new();
    entry.read_to_string(&mut contents).expect("read entry");
    assert_eq!(contents, text);
    assert!(entries.next().is_none());
}

#[test]
fn image_id_comes_from_the_first_reported_build_id() {
    let img = Image::from_build_ids(vec![
        Some("sha256:abc".to_string()),
        Some("sha256:def".to_string()),
    ])
    .expect("id present");
    assert_eq!(img.id, "sha256:abc");

    match Image::from_build_ids(vec![]) {
        Err(RunError::Transport { message }) => assert_eq!(message, "image built without id"),
        other => panic!("expected a transport error, got {:?}", other),
    }
    match Image::from_build_ids(vec![None]) {
        Err(RunError::Transport { .. }) => {}
        other => panic!("expected a transport error, got {:?}", other),
    }
}

#[test]
fn image_new_keeps_its_id() {
    let img = Image::new("sha256:123".to_string());
    assert_eq!(img.id, "sha256:123");
}
