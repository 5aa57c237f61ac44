use server_assistant::tailer::{LineBuffer, Tailer};

#[test]
fn fresh_tailer_starts_at_zero() {
    let t = Tailer::new();
    assert_eq!(t.offset, 0);
}

#[test]
fn poll_consumes_exactly_the_appended_range() {
    let mut t = Tailer::new();
    let (start, len) = t.window(100);
    assert_eq!((start, len), (0, 100));
    t.advance_to(100);
    let (start, len) = t.window(250);
    assert_eq!((start, len), (100, 150));
    t.advance_to(250);
    assert_eq!(t.offset, 250);
}

#[test]
fn polling_twice_without_growth_is_idempotent() {
    let mut t = Tailer::new();
    t.advance_to(80);
    let (start, len) = t.window(80);
    assert_eq!((start, len), (80, 0));
    t.advance_to(80);
    let (start, len) = t.window(80);
    assert_eq!((start, len), (80, 0));
    t.advance_to(80);
    assert_eq!(t.offset, 80);
}

#[test]
fn successive_polls_never_redeliver_a_byte() {
    let mut t = Tailer::new();
    let (s1, l1) = t.window(40);
    t.advance_to(40);
    let (s2, l2) = t.window(70);
    t.advance_to(70);
    let (s3, l3) = t.window(70);
    assert_eq!(s1 + l1, s2);
    assert_eq!(s2 + l2, s3);
    assert_eq!(l3, 0);
}

#[test]
fn failed_read_leaves_the_cursor_in_place() {
    // The window is computed, but the bytes never arrive: nothing advances
    // and the next poll asks for the same range.
    let mut t = Tailer::new();
    t.advance_to(40);
    let (start, len) = t.window(90);
    assert_eq!((start, len), (40, 50));
    let (start, len) = t.window(90);
    assert_eq!((start, len), (40, 50));
    assert_eq!(t.offset, 40);
}

#[test]
fn shrunken_file_consumes_nothing() {
    let mut t = Tailer::new();
    t.advance_to(50);
    let (start, len) = t.window(30);
    assert_eq!((start, len), (50, 0));
    t.advance_to(30);
    assert_eq!(t.offset, 50);
}

#[test]
fn complete_lines_come_out_without_line_feeds() {
    let mut b = LineBuffer::new();
    let lines = b.push_chunk(&b"alpha\nbeta\n".to_vec());
    assert_eq!(lines, vec![b"alpha".to_vec(), b"beta".to_vec()]);
}

#[test]
fn partial_line_waits_for_its_line_feed() {
    let mut b = LineBuffer::new();
    let lines = b.push_chunk(&b"al".to_vec());
    assert!(lines.is_empty());
    let lines = b.push_chunk(&b"pha\nbe".to_vec());
    assert_eq!(lines, vec![b"alpha".to_vec()]);
    let lines = b.push_chunk(&b"ta\n".to_vec());
    assert_eq!(lines, vec![b"beta".to_vec()]);
}

#[test]
fn empty_chunk_completes_nothing() {
    let mut b = LineBuffer::new();
    b.push_chunk(&b"pending".to_vec());
    let lines = b.push_chunk(&b"".to_vec());
    assert!(lines.is_empty());
}

#[test]
fn empty_lines_are_preserved() {
    let mut b = LineBuffer::new();
    let lines = b.push_chunk(&b"\n\nx\n".to_vec());
    assert_eq!(lines, vec![b"".to_vec(), b"".to_vec(), b"x".to_vec()]);
}
