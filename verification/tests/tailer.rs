use claudy::lines::split_complete_lines;
use claudy::offsets::{FileReadState, OffsetTable};
use claudy::watch::{path_to_slug, candidate_project, RootWatchAction, WatchSet};

#[test]
fn test_split_full_buffer() {
    let (lines, pending) = split_complete_lines("one\ntwo\r\nthree".to_string());
    assert_eq!(lines, vec!["one".to_string(), "two".to_string()]);
    assert_eq!(pending, "three");
}

#[test]
fn test_split_terminated_buffer() {
    let (lines, pending) = split_complete_lines("a\n\nb\n".to_string());
    assert_eq!(lines, vec!["a".to_string(), "".to_string(), "b".to_string()]);
    assert_eq!(pending, "");
}

#[test]
fn test_split_no_newline() {
    let (lines, pending) = split_complete_lines("partial".to_string());
    assert!(lines.is_empty());
    assert_eq!(pending, "partial");
}

#[test]
fn test_chunked_reads_match_one_read() {
    // The same byte stream, cut at arbitrary points, yields the same lines.
    let mut chunked = FileReadState::new();
    let mut collected = Vec::new();
    collected.extend(chunked.ingest("{\"a\"", 4));
    collected.extend(chunked.ingest(":1}\n{\"b\"", 8));
    collected.extend(chunked.ingest(":2}\n", 4));

    let mut whole = FileReadState::new();
    let one_read = whole.ingest("{\"a\":1}\n{\"b\":2}\n", 16);

    assert_eq!(collected, one_read);
    assert_eq!(chunked.pending, whole.pending);
    assert_eq!(chunked.offset, 16);
}

#[test]
fn test_truncation_resets_offset_and_pending() {
    let mut st = FileReadState::new();
    let lines = st.ingest("complete\npart", 13);
    assert_eq!(lines, vec!["complete".to_string()]);
    assert_eq!(st.offset, 13);
    assert_eq!(st.pending, "part");

    // The file shrank below the stored offset: restart from byte 0 with no
    // stale fragment.
    let start = st.prepare_read(5);
    assert_eq!(start, 0);
    assert_eq!(st.offset, 0);
    assert_eq!(st.pending, "");

    let lines = st.ingest("fresh\n", 6);
    assert_eq!(lines, vec!["fresh".to_string()]);
}

#[test]
fn test_no_new_bytes_yields_nothing() {
    let mut st = FileReadState::new();
    let _ = st.ingest("done\ntail", 9);
    assert_eq!(st.pending, "tail");

    // Replaying a notification with nothing beyond the offset is a no-op.
    let start = st.prepare_read(9);
    assert_eq!(start, 9);
    let lines = st.ingest("", 0);
    assert!(lines.is_empty());
    assert_eq!(st.offset, 9);
    assert_eq!(st.pending, "tail");
}

#[test]
fn test_offset_table_tracks_files_independently() {
    let mut table = OffsetTable::new();
    let a = "/logs/p/a.jsonl";
    let b = "/logs/p/b.jsonl";

    assert_eq!(table.prepare_read(a, 6), 0);
    let lines = table.ingest(a, "one\ntw", 6);
    assert_eq!(lines, vec!["one".to_string()]);

    assert_eq!(table.prepare_read(b, 4), 0);
    let lines = table.ingest(b, "x\ny\n", 4);
    assert_eq!(lines, vec!["x".to_string(), "y".to_string()]);

    // The first file resumes where it left off, fragment intact.
    assert_eq!(table.prepare_read(a, 8), 6);
    let lines = table.ingest(a, "o\n", 2);
    assert_eq!(lines, vec!["two".to_string()]);
}

#[test]
fn test_path_to_slug() {
    assert_eq!(path_to_slug("/home/user/my.project"), "-home-user-myproject");
    assert_eq!(path_to_slug("plain"), "plain");
    assert_eq!(path_to_slug(""), "");
}

#[test]
fn test_candidate_project() {
    assert_eq!(
        candidate_project("/root/projects/-home-user-app/session.jsonl").as_deref(),
        Some("-home-user-app")
    );
    // Wrong extension.
    assert_eq!(candidate_project("/root/projects/p/session.txt"), None);
    // Nested-agent files are excluded.
    assert_eq!(candidate_project("/root/projects/p/subagents/x.jsonl"), None);
    // No parent directory name to read.
    assert_eq!(candidate_project("session.jsonl"), None);
}

#[test]
fn test_watch_set_replaced_wholesale() {
    let mut ws = WatchSet::new();
    ws.sync(&vec!["/home/a".to_string(), "/home/b".to_string()]);
    assert!(ws.is_project_watched("-home-a"));
    assert!(ws.is_project_watched("-home-b"));

    ws.sync(&vec!["/home/c".to_string()]);
    assert!(!ws.is_project_watched("-home-a"));
    assert!(ws.is_project_watched("-home-c"));
}

#[test]
fn test_root_watch_bookkeeping() {
    let mut ws = WatchSet::new();
    // A missing root is reported exactly once.
    assert!(matches!(ws.root_watch_step(false), RootWatchAction::LogMissing));
    assert!(matches!(ws.root_watch_step(false), RootWatchAction::SkipQuietly));
    // Once it exists, start watching; after success nothing more to do.
    assert!(matches!(ws.root_watch_step(true), RootWatchAction::StartWatch));
    ws.mark_root_watched();
    assert!(matches!(ws.root_watch_step(true), RootWatchAction::AlreadyWatched));
    assert!(matches!(ws.root_watch_step(false), RootWatchAction::AlreadyWatched));
}

#[test]
fn test_split_empty_buffer() {
    let (lines, pending) = split_complete_lines(String::new());
    assert!(lines.is_empty());
    assert_eq!(pending, "");
}
