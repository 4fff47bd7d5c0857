use cka_buddy_tui::pty::PtySession;

#[test]
fn drain_with_no_new_bytes_returns_nothing() {
    let mut session = PtySession::new();
    assert!(session.drain_output().is_empty());
    assert!(session.drain_output().is_empty());
    session.push_chunk("line\n".to_string());
    assert_eq!(session.drain_output(), vec!["line"]);
    assert!(session.drain_output().is_empty());
}

#[test]
fn drain_splits_chunks_into_lines() {
    let mut session = PtySession::new();
    session.push_chunk("one\r\ntwo\n".to_string());
    session.push_chunk("three".to_string());
    assert_eq!(session.drain_output(), vec!["one", "two", "three"]);
}

#[test]
fn drain_keeps_interior_empty_lines() {
    let mut session = PtySession::new();
    session.push_chunk("a\n\nb".to_string());
    assert_eq!(session.drain_output(), vec!["a", "", "b"]);
}

#[test]
fn send_line_queues_the_line_with_a_newline() {
    let mut session = PtySession::new();
    session.send_line("echo hi");
    session.send_line("ls");
    assert_eq!(session.take_outgoing(), vec!["echo hi\n", "ls\n"]);
    assert!(session.take_outgoing().is_empty());
}
