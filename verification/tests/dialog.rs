use docker_bootstrapper::dialog::{Dialogger, LogEntry, LogLine, multiplex_all};

fn entry(id: usize, name: &str, msg: &str) -> LogEntry {
    LogEntry {
        id,
        name: name.to_string(),
        msg: msg.to_string(),
    }
}

#[test]
fn three_lines_make_two_blocks() {
    let lines = multiplex_all(vec![
        entry(0, "A", "x"),
        entry(0, "A", "y"),
        entry(1, "B", "z"),
    ]);
    assert_eq!(lines.len(), 4);
    assert!(matches!(&lines[0], LogLine::Start { name, msg } if name == "A" && msg == "x"));
    assert!(matches!(&lines[1], LogLine::Mid { msg } if msg == "y"));
    assert!(matches!(&lines[2], LogLine::End));
    assert!(matches!(&lines[3], LogLine::Start { name, msg } if name == "B" && msg == "z"));
}

#[test]
fn blank_lines_change_nothing() {
    let with_blanks = multiplex_all(vec![
        entry(0, "A", "x"),
        entry(0, "A", ""),
        entry(0, "A", "  \t"),
        entry(0, "A", "y"),
    ]);
    let without = multiplex_all(vec![entry(0, "A", "x"), entry(0, "A", "y")]);
    assert_eq!(with_blanks.len(), without.len());
    for (a, b) in with_blanks.iter().zip(without.iter()) {
        assert_eq!(a.render(), b.render());
    }
}

#[test]
fn single_line_block_gets_no_closing_foot() {
    let lines = multiplex_all(vec![entry(0, "A", "only")]);
    assert_eq!(lines.len(), 1);
    assert!(matches!(&lines[0], LogLine::Start { .. }));
}

#[test]
fn long_last_block_is_closed_at_end_of_stream() {
    let lines = multiplex_all(vec![entry(0, "A", "x"), entry(0, "A", "y")]);
    assert_eq!(lines.len(), 3);
    assert!(matches!(&lines[2], LogLine::End));
}

#[test]
fn messages_are_trimmed_of_surrounding_newlines() {
    let lines = multiplex_all(vec![entry(0, "A", "\nhello\n\n")]);
    assert_eq!(lines.len(), 1);
    assert!(matches!(&lines[0], LogLine::Start { msg, .. } if msg == "hello"));
}

#[test]
fn rendered_lines_carry_the_gutter() {
    let lines = multiplex_all(vec![
        entry(0, "db", "ready"),
        entry(0, "db", "listening"),
        entry(1, "app", "up"),
    ]);
    assert_eq!(lines[0].render(), format!("{:<20}{}", "db", "ready"));
    assert_eq!(lines[1].render(), format!("{:<20}{}", " \u{2503}", "listening"));
    assert_eq!(lines[2].render(), " \u{2517}\u{2501}\u{2501}");
    assert_eq!(lines[3].render(), format!("{:<20}{}", "app", "up"));
}

#[test]
fn dialogger_counts_block_length_per_speaker() {
    let d = Dialogger::new();
    let (d, first) = d.log(0, "A", "one".to_string());
    assert_eq!(first.len(), 1);
    let (d, second) = d.log(0, "A", "two".to_string());
    assert_eq!(second.len(), 1);
    assert!(matches!(&second[0], LogLine::Mid { .. }));
    let (d, third) = d.log(1, "B", "three".to_string());
    assert_eq!(third.len(), 2);
    assert!(matches!(&third[0], LogLine::End));
    assert!(matches!(&third[1], LogLine::Start { .. }));
    assert!(d.print_end().is_none());
}
