use catr::config::{source_of, Config, ConfigError, Source};
use catr::format::format_number;
use catr::render::{render_line, render_lines, NumberMode};
use catr::session::{open_failure_message, read_failure_message, Session};

fn owned(lines: &[&str]) -> Vec<String> {
    lines.iter().map(|s| s.to_string()).collect()
}

fn as_text(lines: &[String]) -> String {
    let mut out = String::new();
    for line in lines {
        out.push_str(line);
        out.push('\n');
    }
    out
}

fn render_text(lines: &[&str], mode: NumberMode) -> String {
    let mut counter: u64 = 1;
    as_text(&render_lines(&owned(lines), &mut counter, mode))
}

#[test]
fn plain_output_is_input() {
    assert_eq!(render_text(&["foo", "", "bar"], NumberMode::Plain), "foo\n\nbar\n");
}

#[test]
fn number_all_lines() {
    assert_eq!(
        render_text(&["foo", "", "bar"], NumberMode::NumberAll),
        "     1\tfoo\n     2\t\n     3\tbar\n"
    );
}

#[test]
fn number_nonblank_lines() {
    assert_eq!(
        render_text(&["foo", "", "bar"], NumberMode::NumberNonblank),
        "     1\tfoo\n\n     2\tbar\n"
    );
}

#[test]
fn numbering_runs_on_across_sources() {
    let mut counter: u64 = 1;
    let mut out = render_lines(&owned(&["a"]), &mut counter, NumberMode::NumberAll);
    out.extend(render_lines(&owned(&["b"]), &mut counter, NumberMode::NumberAll));
    assert_eq!(as_text(&out), "     1\ta\n     2\tb\n");
    assert_eq!(counter, 3);
}

#[test]
fn two_sources_equal_their_concatenation() {
    for mode in [NumberMode::Plain, NumberMode::NumberAll, NumberMode::NumberNonblank] {
        let mut counter: u64 = 1;
        let mut split = render_lines(&owned(&["x", "", "y"]), &mut counter, mode);
        split.extend(render_lines(&owned(&["", "z"]), &mut counter, mode));
        let mut whole_counter: u64 = 1;
        let whole = render_lines(&owned(&["x", "", "y", "", "z"]), &mut whole_counter, mode);
        assert_eq!(split, whole);
        assert_eq!(counter, whole_counter);
    }
}

#[test]
fn stdin_sentinel_with_plain_output() {
    assert_eq!(source_of("-"), Source::Stdin);
    assert_eq!(render_text(&["x"], NumberMode::Plain), "x\n");
}

#[test]
fn missing_file_is_reported_and_the_next_is_printed() {
    let config = Config::new(owned(&["nope.txt", "ok.txt"]), false, false).unwrap();
    let mut session = Session::new(&config);
    assert_eq!(session.next_source(), Some("nope.txt".to_string()));
    assert_eq!(
        open_failure_message("nope.txt", "No such file or directory (os error 2)"),
        "Failed to open nope.txt: No such file or directory (os error 2)"
    );
    assert_eq!(session.next_source(), Some("ok.txt".to_string()));
    assert_eq!(session.render("hi"), Some("hi".to_string()));
    assert_eq!(session.next_source(), None);
    assert_eq!(session.next_source(), None);
}

#[test]
fn session_counter_is_shared_by_sources() {
    let config = Config::new(owned(&["a.txt", "b.txt"]), false, true).unwrap();
    let mut session = Session::new(&config);
    assert_eq!(session.mode(), NumberMode::NumberNonblank);
    assert_eq!(session.counter(), 1);
    assert_eq!(session.next_source(), Some("a.txt".to_string()));
    assert_eq!(session.render("one"), Some("     1\tone".to_string()));
    assert_eq!(session.render(""), Some(String::new()));
    assert_eq!(session.next_source(), Some("b.txt".to_string()));
    assert_eq!(session.render("two"), Some("     2\ttwo".to_string()));
    assert_eq!(session.counter(), 3);
}

#[test]
fn plain_keeps_every_line_verbatim() {
    let input = ["  lead", "", "\ttab", "trail  ", "     1\tlooks numbered"];
    let mut counter: u64 = 5;
    let out = render_lines(&owned(&input), &mut counter, NumberMode::Plain);
    assert_eq!(out, owned(&input));
    assert_eq!(counter, 5);
}

#[test]
fn all_and_nonblank_agree_without_blank_lines() {
    let input = ["a", "b b", " ", "d"];
    assert_eq!(
        render_text(&input, NumberMode::NumberAll),
        render_text(&input, NumberMode::NumberNonblank)
    );
}

#[test]
fn nonblank_numbers_skip_blank_lines() {
    let mut counter: u64 = 1;
    let out = render_lines(&owned(&["", "", "a", "", "b", "c"]), &mut counter, NumberMode::NumberNonblank);
    assert_eq!(out, owned(&["", "", "     1\ta", "", "     2\tb", "     3\tc"]));
    assert_eq!(counter, 4);
}

#[test]
fn number_all_counts_blank_lines() {
    let mut counter: u64 = 1;
    let out = render_lines(&owned(&["", "a", ""]), &mut counter, NumberMode::NumberAll);
    assert_eq!(out, owned(&["     1\t", "     2\ta", "     3\t"]));
    assert_eq!(counter, 4);
}

#[test]
fn empty_source_leaves_counter() {
    let mut counter: u64 = 7;
    let out = render_lines(&Vec::new(), &mut counter, NumberMode::NumberAll);
    assert!(out.is_empty());
    assert_eq!(counter, 7);
}

#[test]
fn number_field_widths() {
    assert_eq!(format_number(0), "     0");
    assert_eq!(format_number(42), "    42");
    assert_eq!(format_number(999999), "999999");
    assert_eq!(format_number(1234567), "1234567");
    assert_eq!(format_number(u64::MAX), "18446744073709551615");
}

#[test]
fn render_line_at_the_largest_counter() {
    let mut counter: u64 = u64::MAX - 1;
    assert_eq!(
        render_line("last", &mut counter, NumberMode::NumberAll),
        "18446744073709551614\tlast"
    );
    assert_eq!(counter, u64::MAX);
    assert_eq!(render_line("", &mut counter, NumberMode::NumberNonblank), "");
    assert_eq!(render_line("plain", &mut counter, NumberMode::Plain), "plain");
    assert_eq!(counter, u64::MAX);
}

#[test]
fn conflicting_flags_are_refused() {
    assert_eq!(Config::new(owned(&["a"]), true, true).err(), Some(ConfigError::ConflictingNumbering));
}

#[test]
fn no_files_means_stdin() {
    let config = Config::new(Vec::new(), true, false).unwrap();
    assert_eq!(config.files(), &owned(&["-"]));
    assert!(config.number_lines());
    assert!(!config.number_nonblank_lines());
    assert_eq!(config.mode(), NumberMode::NumberAll);
}

#[test]
fn flags_give_modes() {
    let files = owned(&["a", "-"]);
    let plain = Config::new(files.clone(), false, false).unwrap();
    assert_eq!(plain.files(), &files);
    assert_eq!(plain.mode(), NumberMode::Plain);
    let nonblank = Config::new(files, false, true).unwrap();
    assert!(nonblank.number_nonblank_lines());
    assert_eq!(nonblank.mode(), NumberMode::NumberNonblank);
}

#[test]
fn paths_are_not_stdin() {
    assert_eq!(source_of("notes.txt"), Source::Path("notes.txt".to_string()));
    assert_eq!(source_of("--"), Source::Path("--".to_string()));
    assert_eq!(source_of(""), Source::Path(String::new()));
}

#[test]
fn read_failures_name_the_source() {
    assert_eq!(
        read_failure_message("-", "stream did not contain valid UTF-8"),
        "Failed to read -: stream did not contain valid UTF-8"
    );
}
