use vorleser_server::helpers::uuid::Uuid;
use vorleser_server::worker::error::WorkerError;
use vorleser_server::worker::hashing::{checksum_dir, checksum_file, HashEntry, Hasher};
use vorleser_server::worker::muxer::{MergeClock, PacketTiming};
use vorleser_server::worker::scanner::{
    already_known, book_step, books_to_mark_deleted, build_target_path, cache_action, cover_art_path, data_path_of, deletion_report,
    is_chapter_file, lock_decision, lock_step, most_recent_change, needs_processing, path_update, plan_chapters,
    probable_audio_filetype, relative_path_str, should_recover, should_scan, BookPresence, CacheAction, DeletionReport,
    BookAction, BookEvent, BookState, FileTime, LockDecision, LockStep, LockingBehavior, Scan, Update,
};

fn strings(v: &[&str]) -> Vec<String> {
    v.iter().map(|s| s.to_string()).collect()
}

#[test]
fn common_extension_is_chosen() {
    let exts = strings(&["mp3", "jpg", "mp3", "txt", "mp3", "jpg"]);
    assert_eq!(probable_audio_filetype(&exts).as_deref(), Some("mp3"));
    assert_eq!(probable_audio_filetype(&Vec::new()), None);
}

#[test]
fn latest_change_and_rescan() {
    let times = vec![
        FileTime { secs: 10, nanos: 5 },
        FileTime { secs: 12, nanos: 1 },
        FileTime { secs: 12, nanos: 0 },
    ];
    let latest = most_recent_change(&times).unwrap();
    assert_eq!(latest, FileTime { secs: 12, nanos: 1 });
    assert!(should_scan(Some(latest), Some(FileTime { secs: 12, nanos: 1 })));
    assert!(!should_scan(Some(latest), Some(FileTime { secs: 13, nanos: 0 })));
    assert!(should_scan(None, Some(latest)));
    assert!(should_scan(Some(latest), None));
    assert_eq!(most_recent_change(&Vec::new()), None);
}

#[test]
fn processing_decisions() {
    assert!(needs_processing(Scan::Full, false, true));
    assert!(needs_processing(Scan::Incremental, true, true));
    assert!(needs_processing(Scan::Incremental, false, false));
    assert!(!needs_processing(Scan::Incremental, false, true));
    assert_eq!(cache_action(true, false), CacheAction::Remux);
    assert_eq!(cache_action(false, false), CacheAction::Link);
    assert_eq!(cache_action(true, true), CacheAction::Nothing);
}

#[test]
fn moved_books_keep_their_identity() {
    assert_eq!(path_update(Some("book.mp3"), "book.mp3"), Update::Nothing);
    assert_eq!(path_update(Some("book.mp3"), "moved/book.mp3"), Update::Path);
    assert_eq!(path_update(None, "book.mp3"), Update::NotFound);
    assert!(already_known(Update::Path));
    assert!(!already_known(Update::NotFound));
}

#[test]
fn missing_books_are_marked_deleted() {
    let books = vec![
        BookPresence { exists: true, deleted: false },
        BookPresence { exists: false, deleted: false },
        BookPresence { exists: false, deleted: true },
        BookPresence { exists: false, deleted: false },
    ];
    assert_eq!(books_to_mark_deleted(&books), vec![1, 3]);
    assert_eq!(deletion_report(1), DeletionReport::Marked);
    assert_eq!(deletion_report(0), DeletionReport::NothingMarked);
    assert_eq!(deletion_report(2), DeletionReport::SeveralMarked);
    assert!(should_recover(&vec![1, 2, 3], &vec![1, 2, 3]));
    assert!(!should_recover(&vec![1, 2, 3], &vec![1, 2, 4]));
}

#[test]
fn locking() {
    assert_eq!(lock_step(LockingBehavior::Dont), LockStep::Skip);
    assert_eq!(lock_step(LockingBehavior::Block), LockStep::TryLock);
    assert_eq!(lock_decision(LockingBehavior::Block, false), LockDecision::Wait);
    assert_eq!(lock_decision(LockingBehavior::Error, false), LockDecision::Fail);
    assert_eq!(lock_decision(LockingBehavior::Error, true), LockDecision::Proceed);
}

#[test]
fn data_paths() {
    let id = Uuid::parse_str("de362999-55a1-4d91-9adc-b2ca2c013c97").unwrap();
    assert_eq!(build_target_path("data", &id, "mp3"), "data/de362999-55a1-4d91-9adc-b2ca2c013c97.mp3");
    assert_eq!(data_path_of("/srv", &id, "m4b"), "/srv/de362999-55a1-4d91-9adc-b2ca2c013c97.m4b");
    assert_eq!(cover_art_path("data", &id), "data/img/de362999-55a1-4d91-9adc-b2ca2c013c97");
}

#[test]
fn relative_paths() {
    assert_eq!(relative_path_str("lib/books/a.mp3", "lib").unwrap(), "books/a.mp3");
    assert!(matches!(relative_path_str("other/a.mp3", "lib"), Err(WorkerError::OutsideLibrary)));
}

#[test]
fn chapters_of_a_multifile_book() {
    let titles = strings(&["Intro", "Part 1", "Part 1", "Part 2", "Part 1"]);
    let plan = plan_chapters(&titles);
    let got: Vec<(String, usize, i64)> = plan.into_iter().map(|c| (c.title, c.first_file, c.number)).collect();
    assert_eq!(
        got,
        vec![
            ("Intro".to_string(), 0, 0),
            ("Part 1".to_string(), 1, 1),
            ("Part 2".to_string(), 3, 2),
            ("Part 1".to_string(), 4, 3),
        ]
    );
    assert!(is_chapter_file(false, Some("mp3"), "mp3"));
    assert!(!is_chapter_file(true, Some("mp3"), "mp3"));
    assert!(!is_chapter_file(false, Some("jpg"), "mp3"));
    assert!(!is_chapter_file(false, None, "mp3"));
}

#[test]
fn sha256_checksums() {
    let d = checksum_file(b"abc");
    assert_eq!(
        d,
        vec![
            0xba, 0x78, 0x16, 0xbf, 0x8f, 0x01, 0xcf, 0xea, 0x41, 0x41, 0x40, 0xde, 0x5d, 0xae, 0x22, 0x23,
            0xb0, 0x03, 0x61, 0xa3, 0x96, 0x17, 0x7a, 0x9c, 0xb4, 0x10, 0xff, 0x61, 0xf2, 0x00, 0x15, 0xad
        ]
    );
    let mut h = Hasher::new();
    h.update(b"a");
    h.update(b"bc");
    assert_eq!(h.finish(), d);
}

#[test]
fn directory_checksum_feeds_contents_then_paths() {
    let entries = vec![
        HashEntry { path: b"book".to_vec(), is_file: false, content: vec![] },
        HashEntry { path: b"book/1.mp3".to_vec(), is_file: true, content: b"xyz".to_vec() },
    ];
    let expected = checksum_file(b"bookxyzbook/1.mp3");
    assert_eq!(checksum_dir(&entries), expected);
}

#[test]
fn merged_files_are_shifted() {
    let mut clock = MergeClock::new();
    let a = PacketTiming { stream_index: 0, pts: 0, dts: 0, duration: 1152 };
    assert_eq!(clock.shift_packet(0, a), Some(a));
    let cover = PacketTiming { stream_index: 1, pts: 0, dts: 0, duration: 1 };
    assert_eq!(clock.shift_packet(0, cover), None);
    clock.shift_packet(0, PacketTiming { pts: 1152, dts: 1152, ..a });
    clock.finish_file();
    assert_eq!(clock.previous_files_duration, 2304);
    let shifted = clock.shift_packet(2, PacketTiming { stream_index: 2, pts: 0, dts: 0, duration: 1152 }).unwrap();
    assert_eq!((shifted.stream_index, shifted.pts, shifted.dts), (0, 2304, 2304));
}

#[test]
fn error_messages() {
    assert_eq!(WorkerError::Locked.message(), "Can't aquire lockfile, is there another scan runnning?");
    assert_eq!(
        WorkerError::MediaError { description: "No such file or directory".to_string(), code: -2 }.message(),
        "Error -2: No such file or directory"
    );
    assert_eq!(WorkerError::OutsideLibrary.message(), "This path is outside the library");
}

#[test]
fn common_extension() {
    // the four chapters of a multi-file book and its directory
    let exts = strings(&["mp3", "mp3", "mp3", "mp3"]);
    assert_eq!(probable_audio_filetype(&exts).as_deref(), Some("mp3"));
}

#[test]
fn checksum() {
    let digest = checksum_file(b"The quick brown fox jumps over the lazy dog");
    assert_eq!(
        digest,
        vec![0xd7, 0xa8, 0xfb, 0xb3, 0x07, 0xd7, 0x80, 0x94, 0x69, 0xca, 0x9a, 0xbc, 0xb0, 0x08, 0x2e, 0x4f, 0x8d, 0x56, 0x51, 0xe4, 0x6d, 0x3c, 0xdb, 0x76, 0x2d, 0x02, 0xd0, 0xbf, 0x37, 0xc9, 0xe5, 0x92]
    );
}

#[test]
fn book_steps() {
    // a new single-file book: hash, create, locate, link
    let (s, a) = book_step(BookState::Found, BookEvent::Reached { scan: Scan::Incremental, is_dir: false, changed: true, known: false });
    assert_eq!((s, a), (BookState::Hashing { is_dir: false }, BookAction::Hash));
    let (s, a) = book_step(s, BookEvent::Looked { update: Update::NotFound });
    assert_eq!((s, a), (BookState::Creating { is_dir: false }, BookAction::CreateSingle));
    let (s, a) = book_step(s, BookEvent::Created);
    assert_eq!((s, a), (BookState::Locating { is_dir: false }, BookAction::Locate));
    let (s, a) = book_step(s, BookEvent::Located { copy_exists: Some(false) });
    assert_eq!((s, a), (BookState::Finished, BookAction::Link));
    // an unchanged known directory: straight to its copy, which is remuxed when missing
    let (s, a) = book_step(BookState::Found, BookEvent::Reached { scan: Scan::Incremental, is_dir: true, changed: false, known: true });
    assert_eq!((s, a), (BookState::Locating { is_dir: true }, BookAction::Locate));
    assert_eq!(book_step(s, BookEvent::Located { copy_exists: Some(false) }), (BookState::Finished, BookAction::Remux));
    assert_eq!(book_step(s, BookEvent::Located { copy_exists: Some(true) }), (BookState::Finished, BookAction::Stop));
    // a moved book keeps its record; a full scan hashes; a failure stops
    let (s, _) = book_step(BookState::Found, BookEvent::Reached { scan: Scan::Full, is_dir: true, changed: false, known: true });
    assert_eq!(s, BookState::Hashing { is_dir: true });
    assert_eq!(book_step(s, BookEvent::Looked { update: Update::Path }), (BookState::Locating { is_dir: true }, BookAction::Locate));
    assert_eq!(book_step(s, BookEvent::Failed), (BookState::Finished, BookAction::Stop));
}
