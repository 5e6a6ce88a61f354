use pueue_tui::app::{App, ContentStatus};
use pueue_tui::command::{content_extent, POLL_TIMEOUT_MILLIS, TICK_RATE};
use pueue_tui::lines::measure_lines;

#[test]
fn empty_output_has_no_lines_and_no_width() {
    let mut app = App::new(false, 0);
    app.load_output(Vec::new(), 10);
    assert_eq!(app.vertical_scroll_state().content_length, 0);
    assert_eq!(app.horizontal_scroll_state().content_length, 0);
    assert_eq!(app.status(), ContentStatus::Loaded);
    assert_eq!(app.command_output(), b"");
    assert_eq!(content_extent(b""), Some((0, 0)));
}

#[test]
fn output_of_escape_sequences_alone_has_no_width() {
    assert_eq!(content_extent(b"\x1b[31m\x1b[1m\x1b[0m"), Some((1, 0)));
}

#[test]
fn extent_counts_lines_and_visible_width() {
    assert_eq!(content_extent(b"a\nbb\n"), Some((2, 2)));
    assert_eq!(content_extent(b"abc"), Some((1, 3)));
    assert_eq!(content_extent(b"\n"), Some((1, 0)));
    assert_eq!(content_extent(b"x\n\nyyyy"), Some((3, 4)));
}

#[test]
fn styling_does_not_count_as_width() {
    let output = b"\x1b[1;32mGroup \"default\"\x1b[0m\n\x1b[31mid\x1b[0m \x1b[34mstatus\x1b[0m\n";
    assert_eq!(content_extent(output), Some((2, 15)));
    let mut app = App::new(false, 0);
    app.load_output(output.to_vec(), 1);
    assert_eq!(app.vertical_scroll_state().content_length, 2);
    assert_eq!(app.horizontal_scroll_state().content_length, 15);
    assert_eq!(app.command_output(), output);
}

#[test]
fn width_is_counted_in_characters() {
    assert_eq!(content_extent("\u{e9}\u{e9}\u{e9}\nab".as_bytes()), Some((2, 3)));
    assert_eq!(content_extent("\u{1f600}".as_bytes()), Some((1, 1)));
}

#[test]
fn output_that_is_no_text_is_kept_and_measures_zero() {
    assert_eq!(content_extent(&[0x61, 0xff, 0x62]), None);
    assert_eq!(content_extent(&[0xc3]), None);
    let mut app = App::new(false, 0);
    app.load_output(b"one\ntwo".to_vec(), 1);
    app.load_output(vec![0x61, 0xff, 0x0a, 0x62], 2);
    assert_eq!(app.status(), ContentStatus::InvalidText);
    assert_eq!(app.command_output(), &[0x61, 0xff, 0x0a, 0x62]);
    assert_eq!(app.vertical_scroll_state().content_length, 0);
    assert_eq!(app.horizontal_scroll_state().content_length, 0);
    assert_eq!(app.last_tick(), 2);
    app.load_output(b"ok".to_vec(), 3);
    assert_eq!(app.status(), ContentStatus::Loaded);
    assert_eq!(app.vertical_scroll_state().content_length, 1);
}

#[test]
fn failed_spawn_is_recorded() {
    let mut app = App::new(false, 0);
    app.load_output(b"one\ntwo".to_vec(), 1);
    app.scroll_down(None);
    app.spawn_failed(7);
    assert_eq!(app.status(), ContentStatus::SpawnFailed);
    assert_eq!(app.command_output(), b"");
    assert_eq!(app.vertical_scroll_state().content_length, 0);
    assert_eq!(app.horizontal_scroll_state().content_length, 0);
    assert_eq!(app.vertical_scroll(), 1);
    assert_eq!(app.last_tick(), 7);
}

#[test]
fn output_is_replaced_not_appended() {
    let mut app = App::new(false, 0);
    app.load_output(b"first\nrun\nhere".to_vec(), 1);
    assert_eq!(app.vertical_scroll_state().content_length, 3);
    assert_eq!(app.horizontal_scroll_state().content_length, 5);
    app.load_output(b"second".to_vec(), 2);
    assert_eq!(app.command_output(), b"second");
    assert_eq!(app.vertical_scroll_state().content_length, 1);
    assert_eq!(app.horizontal_scroll_state().content_length, 6);
}

#[test]
fn loading_keeps_scroll_positions_and_editor() {
    let mut app = App::new(false, 0);
    app.scroll_down(Some(20));
    app.scroll_right(Some(3));
    app.toggle_popup();
    app.enter_char('a');
    app.load_output(b"x".to_vec(), 9);
    assert_eq!(app.vertical_scroll(), 20);
    assert_eq!(app.horizontal_scroll(), 3);
    assert_eq!(app.input(), "a");
    assert_eq!(app.character_index(), 1);
    assert!(app.show_popup());
    assert_eq!(app.last_tick(), 9);
}

#[test]
fn no_refresh_while_the_popup_is_open() {
    let mut app = App::new(false, 1_000);
    app.toggle_popup();
    assert!(!app.refresh_due(1_000 + TICK_RATE + 1));
    assert!(!app.refresh_due(u128::MAX));
    assert_eq!(app.last_tick(), 1_000);
    app.toggle_popup();
    assert!(app.refresh_due(1_000 + TICK_RATE + 1));
    assert_eq!(app.last_tick(), 1_000);
}

#[test]
fn refresh_is_due_after_more_than_five_seconds() {
    let app = App::new(false, 1_000);
    assert_eq!(TICK_RATE, 5_000_000_000);
    assert!(!app.refresh_due(0));
    assert!(!app.refresh_due(1_000));
    assert!(!app.refresh_due(1_000 + TICK_RATE - 1));
    assert!(!app.refresh_due(1_000 + TICK_RATE));
    assert!(app.refresh_due(1_000 + TICK_RATE + 1));
    assert!(app.refresh_due(u128::MAX));
}

#[test]
fn loading_restarts_the_interval() {
    let mut app = App::new(false, 0);
    assert!(app.refresh_due(TICK_RATE + 1));
    app.load_output(b"x".to_vec(), TICK_RATE + 1);
    assert!(!app.refresh_due(TICK_RATE + 2));
    assert!(!app.refresh_due(2 * TICK_RATE + 1));
    assert!(app.refresh_due(2 * TICK_RATE + 2));
}

#[test]
fn poll_timeout_is_a_quarter_second() {
    assert_eq!(POLL_TIMEOUT_MILLIS, 250);
}

#[test]
fn command_line_appends_the_arguments_as_typed() {
    let mut app = App::new(false, 0);
    assert_eq!(app.command_line(), "pueue --color always status ");
    app.toggle_popup();
    for c in "-g 'my group' ; $x \u{e9}".chars() {
        app.enter_char(c);
    }
    assert_eq!(app.command_line(), "pueue --color always status ");
    app.submit_pueue();
    assert_eq!(app.command_line(), "pueue --color always status -g 'my group' ; $x \u{e9}");
}

#[test]
fn shell_by_platform() {
    assert_eq!(App::new(false, 0).shell(), ("sh", "-c"));
    assert_eq!(App::new(true, 0).shell(), ("cmd", "/C"));
}

#[test]
fn measure_lines_values() {
    assert_eq!(measure_lines(""), (0, 0));
    assert_eq!(measure_lines("a"), (1, 1));
    assert_eq!(measure_lines("a\n"), (1, 1));
    assert_eq!(measure_lines("\n"), (1, 0));
    assert_eq!(measure_lines("\n\n"), (2, 0));
    assert_eq!(measure_lines("a\n\n"), (2, 1));
    assert_eq!(measure_lines("ab\ncde\nf"), (3, 3));
    assert_eq!(measure_lines("abcd\nb"), (2, 4));
}

#[test]
fn measure_lines_carriage_returns() {
    assert_eq!(measure_lines("ab\r\ncd\r\n"), (2, 2));
    assert_eq!(measure_lines("ab\r"), (1, 3));
    assert_eq!(measure_lines("\r\n"), (1, 0));
    assert_eq!(measure_lines("\r"), (1, 1));
    assert_eq!(measure_lines("a\rb\n"), (1, 3));
    assert_eq!(measure_lines("a\r\r\n"), (1, 2));
    assert_eq!(measure_lines("x\n\r"), (2, 1));
}

#[test]
fn measure_lines_agrees_with_the_standard_library() {
    for text in ["", "a", "a\nb", "a\n", "\n\n\n", "a\r\nbb\r\n\r\nccc", "\r", "x\r\ny\r", "\u{e9}\u{e9}\n\u{1f600}"] {
        let count = text.lines().count();
        let width = text.lines().map(|line| line.chars().count()).max().unwrap_or(0);
        assert_eq!(measure_lines(text), (count, width));
    }
}

#[test]
fn empty_text_strips_to_nothing() {
    let mut app = App::new(false, 0);
    app.load_output(b"wide line".to_vec(), 1);
    assert_eq!(app.horizontal_scroll_state().content_length, 9);
    app.load_output(Vec::new(), 2);
    assert_eq!(app.status(), ContentStatus::Loaded);
    assert_eq!(app.vertical_scroll_state().content_length, 0);
    assert_eq!(app.horizontal_scroll_state().content_length, 0);
}
