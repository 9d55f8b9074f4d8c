use log_watcher::lines::{chunk_lines, split_records, text_lines, BINARY_NOTICE};

fn strings(lines: &[&str]) -> Vec<String> {
    lines.iter().map(|line| line.to_string()).collect()
}

#[test]
fn whole_lines_are_shown_in_order() {
    assert_eq!(text_lines(b"first\nsecond\n"), strings(&["first", "second"]));
}

#[test]
fn carriage_return_before_line_feed_is_dropped() {
    assert_eq!(text_lines(b"first\r\nsecond\n"), strings(&["first", "second"]));
}

#[test]
fn only_one_carriage_return_is_dropped() {
    assert_eq!(text_lines(b"a\r\r\n"), strings(&["a\r"]));
}

#[test]
fn carriage_return_inside_a_line_stays() {
    assert_eq!(text_lines(b"a\rb\n"), strings(&["a\rb"]));
}

#[test]
fn bytes_after_the_last_line_feed_are_no_line() {
    assert_eq!(text_lines(b"done\nhalf"), strings(&["done"]));
}

#[test]
fn an_empty_record_is_an_empty_line() {
    assert_eq!(text_lines(b"\n"), strings(&[""]));
    assert_eq!(text_lines(b"\r\n"), strings(&[""]));
    assert_eq!(chunk_lines(b"\n"), strings(&[""]));
}

#[test]
fn records_are_split_at_every_line_feed() {
    let found = split_records(b"x\n\ny\r\nrest");
    assert_eq!(found, vec![b"x".to_vec(), b"".to_vec(), b"y".to_vec()]);
}

#[test]
fn no_line_feed_means_no_record() {
    assert_eq!(split_records(b"no terminator"), Vec::<Vec<u8>>::new());
    assert_eq!(split_records(b""), Vec::<Vec<u8>>::new());
}

#[test]
fn ill_formed_record_is_skipped() {
    let delta = [0xff, 0xfe, b'\n', b'o', b'k', b'\n'];
    assert_eq!(text_lines(&delta), strings(&["ok"]));
    assert_eq!(chunk_lines(&delta), strings(&["ok"]));
}

#[test]
fn record_cut_inside_a_character_is_skipped() {
    let delta = [0xc3, b'\n', b'o', b'k', b'\n'];
    assert_eq!(text_lines(&delta), strings(&["ok"]));
}

#[test]
fn text_beyond_ascii_is_decoded() {
    let delta = "h\u{e9}llo \u{4e16}\u{754c} \u{1f600}\n".as_bytes();
    assert_eq!(text_lines(delta), strings(&["h\u{e9}llo \u{4e16}\u{754c} \u{1f600}"]));
}

#[test]
fn overlong_and_surrogate_encodings_are_no_text() {
    assert_eq!(text_lines(&[0xc0, 0x80, b'\n']), Vec::<String>::new());
    assert_eq!(text_lines(&[0xed, 0xa0, 0x80, b'\n']), Vec::<String>::new());
}

#[test]
fn binary_delta_is_one_notice() {
    let delta = [0x00, 0xff, 0xfe, 0x80, 0x81];
    assert_eq!(chunk_lines(&delta), strings(&["* binary file modification *"]));
    assert_eq!(chunk_lines(&delta).len(), 1);
}

#[test]
fn binary_records_are_one_notice() {
    let delta = [0xff, b'\n', 0xfe, b'\n', 0x80, b'\n'];
    assert_eq!(text_lines(&delta), Vec::<String>::new());
    assert_eq!(chunk_lines(&delta), strings(&[BINARY_NOTICE]));
}

#[test]
fn text_without_line_feed_is_one_notice() {
    assert_eq!(chunk_lines(b"abc"), strings(&[BINARY_NOTICE]));
}

#[test]
fn empty_delta_is_one_notice() {
    assert_eq!(text_lines(b""), Vec::<String>::new());
    assert_eq!(chunk_lines(b""), strings(&[BINARY_NOTICE]));
}

#[test]
fn notice_text() {
    assert_eq!(BINARY_NOTICE, "* binary file modification *");
}

#[test]
fn reading_in_two_steps_shows_what_one_step_shows() {
    let seen = b"one\ntwo\n".to_vec();
    let appended = b"three\r\n\xff\nfour\n".to_vec();
    let mut whole = seen.clone();
    whole.extend_from_slice(&appended);
    let mut in_steps = text_lines(&seen);
    in_steps.extend(text_lines(&appended));
    assert_eq!(text_lines(&whole), in_steps);
    assert_eq!(in_steps, strings(&["one", "two", "three", "four"]));
}

#[test]
fn a_step_that_ends_inside_a_record_loses_it() {
    assert_eq!(text_lines(b"one\ntw"), strings(&["one"]));
    assert_eq!(text_lines(b"o\nthree\n"), strings(&["o", "three"]));
}
