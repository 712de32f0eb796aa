use docker_bootstrapper::dockerfile::{CopyInstr, DockerFile, EntryPoint, FromImage, Run, Volume};

#[test]
fn test_docker_file_creation() {
    let df = DockerFile::new(FromImage::image("alpine"))
        .then(CopyInstr::new(".", "."))
        .then(Volume::new(".", "."))
        .then(Run::new("apt add curl"))
        .entry_point(vec!["echo".to_string(), "hello".to_string()]);

    let df_exp = r#"
FROM alpine
COPY . .
VOLUME . .
RUN apt add curl
ENTRYPOINT ["echo", "hello"]
            "#;

    assert_eq!(df.render().trim(), df_exp.trim());
}

#[test]
fn from_line_renders_tag_right_after_image() {
    let from = FromImage::image("postgres").with_tag(":16");
    assert_eq!(from.render(), "FROM postgres:16");
}

#[test]
fn dockerfile_without_entry_point_ends_after_instructions() {
    let df = DockerFile::new(FromImage::image("alpine")).then(Run::new("true"));
    assert_eq!(df.render(), "FROM alpine\nRUN true\n");
}

#[test]
fn entry_point_quotes_and_separates_commands() {
    let ep = EntryPoint {
        cmds: vec!["sh".to_string(), "-c".to_string(), "exit 0".to_string()],
    };
    assert_eq!(ep.render(), "ENTRYPOINT [\"sh\", \"-c\", \"exit 0\"]");
}

#[test]
fn empty_entry_point_renders_empty_brackets() {
    let ep = EntryPoint { cmds: vec![] };
    assert_eq!(ep.render(), "ENTRYPOINT []");
}
