use user_listener::connection::{Next, ReadEvent, ReadSession};

fn feed(chunks: &[&str]) -> Next {
    let mut session = ReadSession::new();
    for c in chunks {
        match session.on_read(ReadEvent::Received(String::from(*c))) {
            Next::Reading(s) => session = s,
            other => return other,
        }
    }
    session.on_read(ReadEvent::Received(String::new()))
}

#[test]
fn immediate_close_completes_with_nothing() {
    match feed(&[]) {
        Next::Complete(c) => assert_eq!(c, ""),
        _ => panic!("expected the stream to complete"),
    }
}

#[test]
fn lines_are_joined_until_end_of_stream() {
    match feed(&["[{\"id\":2,\n", "\"name\":\"x\"}", "]\n"]) {
        Next::Complete(c) => assert_eq!(c, "[{\"id\":2,\n\"name\":\"x\"}]\n"),
        _ => panic!("expected the stream to complete"),
    }
}

#[test]
fn reading_keeps_what_was_received() {
    let session = ReadSession::new();
    match session.on_read(ReadEvent::Received(String::from("ab\n"))) {
        Next::Reading(s) => assert_eq!(s.received(), "ab\n"),
        _ => panic!("expected to read on"),
    }
}

#[test]
fn failed_read_aborts_with_message() {
    let mut session = ReadSession::new();
    if let Next::Reading(s) = session.on_read(ReadEvent::Received(String::from("[\n"))) {
        session = s;
    } else {
        panic!("expected to read on");
    }
    match session.on_read(ReadEvent::Failed(String::from("connection reset by peer"))) {
        Next::Aborted(m) => assert_eq!(m, "Error while reading from stream! connection reset by peer"),
        _ => panic!("expected the read to abort"),
    }
}
