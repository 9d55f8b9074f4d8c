use log_watcher::engine::{
    triage, Emission, EventProcessor, Found, Lookup, Notification, Reaction, Triage,
};
use log_watcher::position::{initial_offset, FilePosition, PositionTable};

fn strings(lines: &[&str]) -> Vec<String> {
    lines.iter().map(|line| line.to_string()).collect()
}

fn emit(from: u64, header: bool, read: bool) -> Reaction {
    Reaction::Emit(Emission { from, header, read })
}

#[test]
fn initial_offset_is_the_tail_of_a_large_file() {
    assert_eq!(initial_offset(10000, 2048), 7952);
    assert_eq!(initial_offset(2049, 2048), 1);
    assert_eq!(initial_offset(u64::MAX, 2048), u64::MAX - 2048);
    assert_eq!(initial_offset(u64::MAX, 0), u64::MAX);
}

#[test]
fn initial_offset_is_zero_for_a_small_file() {
    assert_eq!(initial_offset(500, 2048), 0);
    assert_eq!(initial_offset(2048, 2048), 0);
    assert_eq!(initial_offset(0, 2048), 0);
    assert_eq!(initial_offset(0, 0), 0);
    assert_eq!(initial_offset(5, u64::MAX), 0);
}

#[test]
fn large_file_is_shown_from_its_tail() {
    let mut processor = EventProcessor::new(2048);
    let reaction = processor.process_file_event("/var/log/big", Lookup::File { size: 10000 });
    assert_eq!(reaction, emit(7952, true, true));
    assert_eq!(processor.offset_of("/var/log/big"), Some(7952));
    assert_eq!(processor.watched_files(), 1);
}

#[test]
fn small_file_is_shown_in_full() {
    let mut processor = EventProcessor::new(2048);
    let reaction = processor.process_file_event("/var/log/small", Lookup::File { size: 500 });
    assert_eq!(reaction, emit(0, true, true));
    assert_eq!(processor.offset_of("/var/log/small"), Some(0));
}

#[test]
fn new_empty_file_gets_a_header_and_no_read() {
    let mut processor = EventProcessor::new(2048);
    let reaction = processor.process_file_event("/tmp/empty", Lookup::File { size: 0 });
    assert_eq!(reaction, emit(0, true, false));
    assert_eq!(processor.offset_of("/tmp/empty"), Some(0));
    assert!(processor.shown_last("/tmp/empty"));
}

#[test]
fn no_tail_window_shows_nothing_of_a_new_file() {
    let mut processor = EventProcessor::new(0);
    assert_eq!(processor.tail_bytes(), 0);
    let reaction = processor.process_file_event("/tmp/a", Lookup::File { size: 700 });
    assert_eq!(reaction, emit(700, true, false));
    assert_eq!(processor.offset_of("/tmp/a"), Some(700));
}

#[test]
fn successful_read_moves_the_offset_to_the_size() {
    let mut processor = EventProcessor::new(2048);
    processor.process_file_event("/var/log/big", Lookup::File { size: 10000 });
    let lines = processor.complete_read("/var/log/big", Some(&b"tail\nof it\n"[..]));
    assert_eq!(lines, strings(&["tail", "of it"]));
    assert_eq!(processor.offset_of("/var/log/big"), Some(10000));
}

#[test]
fn failed_read_shows_nothing_and_moves_nothing() {
    let mut processor = EventProcessor::new(2048);
    processor.process_file_event("/var/log/big", Lookup::File { size: 10000 });
    let lines = processor.complete_read("/var/log/big", None);
    assert_eq!(lines, Vec::<String>::new());
    assert_eq!(processor.offset_of("/var/log/big"), Some(7952));
}

#[test]
fn steady_growth_shows_exactly_what_was_appended() {
    let mut processor = EventProcessor::new(2048);
    let first = b"alpha\nbeta\n";
    let appended = b"gamma\ndelta\n";
    let size = first.len() as u64;
    assert_eq!(
        processor.process_file_event("/l/a", Lookup::File { size }),
        emit(0, true, true)
    );
    assert_eq!(processor.complete_read("/l/a", Some(&first[..])), strings(&["alpha", "beta"]));
    assert_eq!(processor.offset_of("/l/a"), Some(size));

    let grown = size + appended.len() as u64;
    assert_eq!(
        processor.process_file_event("/l/a", Lookup::File { size: grown }),
        emit(size, false, true)
    );
    assert_eq!(
        processor.complete_read("/l/a", Some(&appended[..])),
        strings(&["gamma", "delta"])
    );
    assert_eq!(processor.offset_of("/l/a"), Some(grown));
}

#[test]
fn offsets_do_not_decrease_while_a_file_grows() {
    let mut processor = EventProcessor::new(16);
    let mut last = 0;
    for size in [10u64, 10, 25, 25, 26, 400, 400, 1000] {
        let reaction = processor.process_file_event("/l/a", Lookup::File { size });
        let recorded = processor.offset_of("/l/a").unwrap();
        assert!(recorded >= last);
        assert!(recorded <= size);
        last = recorded;
        if let Reaction::Emit(emission) = reaction {
            if emission.read {
                processor.complete_read("/l/a", Some(&b"x\n"[..]));
                let recorded = processor.offset_of("/l/a").unwrap();
                assert_eq!(recorded, size);
                last = recorded;
            }
        }
    }
    assert_eq!(last, 1000);
}

#[test]
fn unchanged_file_shows_nothing() {
    let mut processor = EventProcessor::new(2048);
    processor.process_file_event("/l/a", Lookup::File { size: 40 });
    processor.complete_read("/l/a", Some(&b"x\n"[..]));
    processor.process_file_event("/l/b", Lookup::File { size: 7 });
    let reaction = processor.process_file_event("/l/a", Lookup::File { size: 40 });
    assert_eq!(reaction, Reaction::Nothing);
    assert_eq!(processor.offset_of("/l/a"), Some(40));
    assert!(processor.shown_last("/l/b"));
    assert!(!processor.shown_last("/l/a"));
}

#[test]
fn shrunk_file_is_shown_from_its_start() {
    let mut processor = EventProcessor::new(2048);
    processor.process_file_event("/l/a", Lookup::File { size: 900 });
    processor.complete_read("/l/a", Some(&b"x\n"[..]));
    let reaction = processor.process_file_event("/l/a", Lookup::File { size: 30 });
    assert_eq!(reaction, emit(0, true, true));
    assert_eq!(processor.offset_of("/l/a"), Some(0));
    processor.complete_read("/l/a", Some(&b"fresh\n"[..]));
    assert_eq!(processor.offset_of("/l/a"), Some(30));
}

#[test]
fn file_cut_to_nothing_is_reset() {
    let mut processor = EventProcessor::new(2048);
    processor.process_file_event("/l/a", Lookup::File { size: 900 });
    processor.complete_read("/l/a", Some(&b"x\n"[..]));
    let reaction = processor.process_file_event("/l/a", Lookup::File { size: 0 });
    assert_eq!(reaction, emit(0, true, false));
    assert_eq!(processor.offset_of("/l/a"), Some(0));
}

#[test]
fn vanished_file_is_forgotten_and_new_when_it_returns() {
    let mut processor = EventProcessor::new(2048);
    processor.process_file_event("/l/a", Lookup::File { size: 5000 });
    processor.complete_read("/l/a", Some(&b"x\n"[..]));
    assert_eq!(processor.process_file_event("/l/a", Lookup::Failed), Reaction::Unwatch);
    assert_eq!(processor.offset_of("/l/a"), Some(5000));
    assert_eq!(
        processor.process_vanished("/l/a", Found::Nothing),
        Reaction::Dropped { last: Some(5000) }
    );
    assert_eq!(processor.offset_of("/l/a"), None);
    assert_eq!(processor.watched_files(), 0);

    let reaction = processor.process_file_event("/l/a", Lookup::File { size: 3000 });
    assert_eq!(reaction, emit(952, false, true));
    assert_eq!(processor.offset_of("/l/a"), Some(952));
}

#[test]
fn vanished_path_that_was_never_read_has_no_last_offset() {
    let mut processor = EventProcessor::new(2048);
    assert_eq!(
        processor.process_vanished("/l/dir", Found::Nothing),
        Reaction::Dropped { last: None }
    );
}

#[test]
fn path_that_turned_into_something_else_keeps_its_offset() {
    let mut processor = EventProcessor::new(2048);
    processor.process_file_event("/l/a", Lookup::File { size: 10 });
    assert_eq!(processor.process_vanished("/l/a", Found::Directory), Reaction::Enumerate);
    assert_eq!(processor.process_vanished("/l/a", Found::File), Reaction::Watch);
    assert_eq!(processor.process_vanished("/l/a", Found::Other), Reaction::Nothing);
    assert_eq!(processor.offset_of("/l/a"), Some(0));
}

#[test]
fn directory_is_walked_and_not_recorded() {
    let mut processor = EventProcessor::new(2048);
    assert_eq!(processor.process_file_event("/l/dir", Lookup::Directory), Reaction::Enumerate);
    assert_eq!(processor.offset_of("/l/dir"), None);
    assert_eq!(processor.watched_files(), 0);
    assert!(!processor.shown_last("/l/dir"));
}

#[test]
fn two_chunks_of_one_file_show_one_header() {
    let mut processor = EventProcessor::new(8);
    let first = processor.handle_file_event(92, 100, "/l/a");
    let second = processor.handle_file_event(100, 130, "/l/a");
    assert_eq!(first, Emission { from: 92, header: true, read: true });
    assert_eq!(second, Emission { from: 100, header: false, read: true });
}

#[test]
fn chunks_of_alternating_files_show_a_header_each() {
    let mut processor = EventProcessor::new(8);
    let headers = [
        processor.handle_file_event(50, 60, "/l/a").header,
        processor.handle_file_event(70, 80, "/l/b").header,
        processor.handle_file_event(60, 90, "/l/a").header,
    ];
    assert_eq!(headers, [true, true, true]);
}

#[test]
fn chunk_at_offset_zero_always_shows_a_header() {
    let mut processor = EventProcessor::new(8);
    assert!(processor.handle_file_event(0, 0, "/l/a").header);
    assert!(processor.handle_file_event(0, 10, "/l/a").header);
    assert!(!processor.handle_file_event(10, 20, "/l/a").header);
}

#[test]
fn headers_through_the_state_machine() {
    let mut processor = EventProcessor::new(8);
    assert_eq!(processor.process_file_event("/l/a", Lookup::File { size: 100 }), emit(92, true, true));
    processor.complete_read("/l/a", Some(&b"x\n"[..]));
    assert_eq!(processor.process_file_event("/l/a", Lookup::File { size: 130 }), emit(100, false, true));
    processor.complete_read("/l/a", Some(&b"x\n"[..]));
    assert_eq!(processor.process_file_event("/l/b", Lookup::File { size: 20 }), emit(12, true, true));
    processor.complete_read("/l/b", Some(&b"x\n"[..]));
    assert_eq!(processor.process_file_event("/l/a", Lookup::File { size: 150 }), emit(130, true, true));
}

#[test]
fn binary_delta_is_read_as_one_notice() {
    let mut processor = EventProcessor::new(2048);
    processor.process_file_event("/l/bin", Lookup::File { size: 4 });
    let lines = processor.complete_read("/l/bin", Some(&[0xde, 0xad, 0xbe, 0xef][..]));
    assert_eq!(lines, strings(&["* binary file modification *"]));
    assert_eq!(processor.offset_of("/l/bin"), Some(4));
}

#[test]
fn paths_do_not_disturb_each_other() {
    let mut processor = EventProcessor::new(2048);
    processor.process_file_event("/l/a", Lookup::File { size: 3000 });
    processor.process_file_event("/l/b", Lookup::File { size: 10 });
    processor.complete_read("/l/b", Some(&b"x\n"[..]));
    processor.process_vanished("/l/b", Found::Nothing);
    assert_eq!(processor.offset_of("/l/a"), Some(952));
    assert_eq!(processor.offset_of("/l/b"), None);
    assert_eq!(processor.watched_files(), 1);
}

#[test]
fn position_table_keeps_what_is_set() {
    let mut table = PositionTable::new();
    assert!(table.is_empty());
    assert_eq!(table.get("/l/a"), None);
    table.set("/l/a", 7, 10);
    table.set("/l/b", 9, 9);
    table.set("/l/a", 11, 40);
    assert_eq!(table.len(), 2);
    assert!(table.contains("/l/a"));
    assert_eq!(table.get("/l/a"), Some(FilePosition { offset: 11, size: 40 }));
    assert_eq!(table.remove("/l/a"), Some(FilePosition { offset: 11, size: 40 }));
    assert_eq!(table.remove("/l/a"), None);
    assert!(!table.contains("/l/a"));
    assert_eq!(table.get("/l/b"), Some(FilePosition { offset: 9, size: 9 }));
    assert_eq!(table.len(), 1);
}

#[test]
fn size_on_record_is_the_size_last_seen() {
    let mut processor = EventProcessor::new(2048);
    processor.process_file_event("/l/a", Lookup::File { size: 3000 });
    assert_eq!(processor.position_of("/l/a"), Some(FilePosition { offset: 952, size: 3000 }));
    processor.complete_read("/l/a", None);
    processor.process_file_event("/l/a", Lookup::File { size: 3500 });
    assert_eq!(processor.position_of("/l/a"), Some(FilePosition { offset: 952, size: 3500 }));
    processor.complete_read("/l/a", Some(&b"x\n"[..]));
    assert_eq!(processor.position_of("/l/a"), Some(FilePosition { offset: 3500, size: 3500 }));
    processor.process_file_event("/l/a", Lookup::File { size: 3500 });
    assert_eq!(processor.position_of("/l/a"), Some(FilePosition { offset: 3500, size: 3500 }));
    assert_eq!(processor.position_of("/l/none"), None);
}

#[test]
fn read_of_a_file_that_is_not_on_record_records_nothing() {
    let mut processor = EventProcessor::new(2048);
    let lines = processor.complete_read("/l/a", Some(&b"text\n"[..]));
    assert_eq!(lines, strings(&["text"]));
    assert_eq!(processor.position_of("/l/a"), None);
    assert_eq!(processor.watched_files(), 0);
}

#[test]
fn change_is_looked_up_and_anything_else_ignored() {
    assert_eq!(triage(&Notification::Changed { path: "/l/a".to_string() }), Triage::LookUp);
    assert_eq!(triage(&Notification::Unknown), Triage::Ignore);
}
