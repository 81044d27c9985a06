use pty_shell::{
    Fatal, LoopState, RawHandler, ReadOutcome, ReadRequest, Source, INPUT, INPUT_CHUNK, OUTPUT,
    OUTPUT_CHUNK,
};

fn numbered(len: usize) -> Vec<u8> {
    let mut bytes: Vec<u8> = Vec::with_capacity(len);
    let mut i: usize = 0;
    while i < len {
        bytes.push((i % 251) as u8);
        i += 1;
    }
    bytes
}

#[test]
fn tokens_and_chunk_sizes() {
    assert_eq!(INPUT, 0);
    assert_eq!(OUTPUT, 1);
    assert_eq!(INPUT_CHUNK, 128);
    assert_eq!(OUTPUT_CHUNK, 10 * 1024);
}

#[test]
fn readable_input_asks_for_a_small_chunk() {
    let handler = RawHandler::new(5, 0);
    assert_eq!(
        handler.ready(INPUT, true),
        Some(ReadRequest { source: Source::Input, capacity: 128 })
    );
}

#[test]
fn readable_output_asks_for_a_large_chunk() {
    let handler = RawHandler::new(5, 0);
    assert_eq!(
        handler.ready(OUTPUT, true),
        Some(ReadRequest { source: Source::Output, capacity: 10240 })
    );
}

#[test]
fn nothing_is_read_unless_readable() {
    let handler = RawHandler::new(5, 0);
    assert_eq!(handler.ready(INPUT, false), None);
    assert_eq!(handler.ready(OUTPUT, false), None);
}

#[test]
fn readiness_does_not_change_the_handler() {
    let handler = RawHandler::new(5, 9);
    let before = handler;
    let _ = handler.ready(INPUT, true);
    let _ = handler.ready(OUTPUT, true);
    assert_eq!(handler, before);
}

#[test]
fn input_bytes_are_forwarded_as_read() {
    let handler = RawHandler::new(5, 0);
    let buf = numbered(128);
    assert_eq!(handler.input_read(ReadOutcome::Bytes(3), &buf), Ok(&[0u8, 1, 2][..]));
    assert_eq!(handler.input_read(ReadOutcome::Bytes(1), &buf), Ok(&[0u8][..]));
}

#[test]
fn a_full_input_chunk_is_forwarded_whole() {
    let handler = RawHandler::new(5, 0);
    let buf = numbered(128);
    assert_eq!(handler.input_read(ReadOutcome::Bytes(128), &buf), Ok(&buf[..]));
}

#[test]
fn empty_input_read_is_forwarded_and_ends_nothing() {
    let handler = RawHandler::new(5, 0);
    let buf = numbered(128);
    let empty: &[u8] = &[];
    assert_eq!(handler.input_read(ReadOutcome::Bytes(0), &buf), Ok(empty));
    assert!(handler.is_running());
    assert_eq!(handler.state, LoopState::Running);
    assert_eq!(
        handler.ready(INPUT, true),
        Some(ReadRequest { source: Source::Input, capacity: 128 })
    );
}

#[test]
fn empty_input_read_into_an_empty_buffer() {
    let handler = RawHandler::new(5, 0);
    let buf: Vec<u8> = Vec::new();
    let empty: &[u8] = &[];
    assert_eq!(handler.input_read(ReadOutcome::Bytes(0), &buf), Ok(empty));
}

#[test]
fn failed_input_read_is_fatal() {
    let handler = RawHandler::new(5, 0);
    let buf = numbered(128);
    assert_eq!(handler.input_read(ReadOutcome::Failed, &buf), Err(Fatal::InputRead));
}

#[test]
fn output_bytes_are_forwarded_as_read() {
    let mut handler = RawHandler::new(5, 0);
    let buf = numbered(10240);
    assert_eq!(handler.output_read(ReadOutcome::Bytes(4), &buf), Some(&[0u8, 1, 2, 3][..]));
    assert_eq!(handler, RawHandler::new(5, 0));
}

#[test]
fn a_full_output_chunk_is_forwarded_whole() {
    let mut handler = RawHandler::new(5, 0);
    let buf = numbered(10240);
    assert_eq!(handler.output_read(ReadOutcome::Bytes(10240), &buf), Some(&buf[..]));
    assert!(handler.is_running());
}

#[test]
fn empty_output_read_ends_the_loop_and_notifies_nobody() {
    let mut handler = RawHandler::new(5, 0);
    let buf = numbered(10240);
    assert_eq!(handler.output_read(ReadOutcome::Bytes(0), &buf), None);
    assert_eq!(handler.state, LoopState::ShuttingDown);
    assert!(!handler.is_running());
    assert_eq!(handler.resize_count, 0);
    assert_eq!(handler.pty, 5);
    handler.released();
    assert_eq!(handler.state, LoopState::Stopped);
}

#[test]
fn failed_output_read_is_the_end_of_the_stream() {
    let buf = numbered(10240);
    let mut failed = RawHandler::new(5, 0);
    let mut empty = RawHandler::new(5, 0);
    assert_eq!(failed.output_read(ReadOutcome::Failed, &buf), None);
    assert_eq!(empty.output_read(ReadOutcome::Bytes(0), &buf), None);
    assert_eq!(failed, empty);
    assert_eq!(failed.state, LoopState::ShuttingDown);
}

#[test]
fn read_failures_differ_between_the_sources() {
    let buf = numbered(128);
    let mut handler = RawHandler::new(5, 0);
    assert_eq!(handler.input_read(ReadOutcome::Failed, &buf), Err(Fatal::InputRead));
    assert!(handler.is_running());
    assert_eq!(handler.output_read(ReadOutcome::Failed, &buf), None);
    assert!(!handler.is_running());
}

#[test]
fn no_read_after_the_output_has_ended() {
    let mut handler = RawHandler::new(5, 0);
    let buf = numbered(16);
    let _ = handler.output_read(ReadOutcome::Bytes(0), &buf);
    assert_eq!(handler.ready(INPUT, true), None);
    assert_eq!(handler.ready(OUTPUT, true), None);
}

#[test]
fn end_of_output_on_a_stopped_loop_keeps_it_stopped() {
    let mut handler = RawHandler::new(5, 0);
    let buf = numbered(16);
    let _ = handler.output_read(ReadOutcome::Failed, &buf);
    handler.released();
    assert_eq!(handler.output_read(ReadOutcome::Bytes(0), &buf), None);
    assert_eq!(handler.state, LoopState::Stopped);
}
