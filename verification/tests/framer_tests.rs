use gpt_anywhere::framer::LineBuffer;

#[test]
fn splits_chunks_into_lines() {
    let mut buf = LineBuffer::new();
    let first = buf.feed(b"data: hello\ndata: wor");
    assert_eq!(first, vec!["data: hello".to_string()]);
    let second = buf.feed(b"ld\n");
    assert_eq!(second, vec!["data: world".to_string()]);
    assert_eq!(buf.flush(), None);
}

#[test]
fn blank_lines_yield_nothing() {
    let mut buf = LineBuffer::new();
    let lines = buf.feed(b"\n\n  \n");
    assert!(lines.is_empty());
    assert_eq!(buf.flush(), None);
}

#[test]
fn flush_yields_only_once() {
    let mut buf = LineBuffer::new();
    assert!(buf.feed(b"tail without newline").is_empty());
    assert_eq!(buf.flush(), Some("tail without newline".to_string()));
    assert_eq!(buf.flush(), None);
}

#[test]
fn flush_of_pure_white_space_yields_nothing() {
    let mut buf = LineBuffer::new();
    assert!(buf.feed(b"   \t ").is_empty());
    assert_eq!(buf.flush(), None);
}

#[test]
fn rejoining_yields_restores_trimmed_stream() {
    let mut buf = LineBuffer::new();
    let mut lines = Vec::new();
    let chunks: [&[u8]; 3] = [b"alpha\nbe", b"ta\n\n gam", b"ma "];
    for chunk in chunks {
        lines.extend(buf.feed(chunk));
    }
    if let Some(tail) = buf.flush() {
        lines.push(tail);
    }
    assert_eq!(
        lines,
        vec!["alpha".to_string(), "beta".to_string(), "gamma".to_string()]
    );
}

#[test]
fn chunk_boundaries_do_not_change_the_lines() {
    let stream: &[u8] = b" one \ntwo\n\nthree";
    let mut whole = LineBuffer::new();
    let mut expected = whole.feed(stream);
    expected.extend(whole.flush());

    for cut in 0..=stream.len() {
        let mut buf = LineBuffer::new();
        let mut got = buf.feed(&stream[..cut]);
        got.extend(buf.feed(&stream[cut..]));
        got.extend(buf.flush());
        assert_eq!(got, expected);
    }
}

#[test]
fn carriage_returns_are_trimmed() {
    let mut buf = LineBuffer::new();
    let lines = buf.feed(b"status: ready\r\nstatus: done\r\n");
    assert_eq!(
        lines,
        vec!["status: ready".to_string(), "status: done".to_string()]
    );
    assert_eq!(buf.flush(), None);
}

#[test]
fn empty_chunks_change_nothing() {
    let mut buf = LineBuffer::new();
    assert!(buf.feed(b"").is_empty());
    assert!(buf.feed(b"kept").is_empty());
    assert!(buf.feed(b"").is_empty());
    assert_eq!(buf.flush(), Some("kept".to_string()));
}

#[test]
fn lines_are_trimmed_of_unicode_white_space() {
    let mut buf = LineBuffer::new();
    let lines = buf.feed("\u{a0} spaced out \u{3000}\n".as_bytes());
    assert_eq!(lines, vec!["spaced out".to_string()]);
}

#[test]
fn invalid_utf8_is_replaced_not_dropped() {
    let mut buf = LineBuffer::new();
    let lines = buf.feed(&[0xff, 0xfe, b'o', b'k', b'\n']);
    assert_eq!(lines, vec!["\u{fffd}\u{fffd}ok".to_string()]);
}

#[test]
fn feed_chars_frames_decoded_characters() {
    let mut buf = LineBuffer::new();
    let lines = buf.feed_chars(&vec![' ', 'h', 'i', '\n', 'x']);
    assert_eq!(lines, vec!["hi".to_string()]);
    assert_eq!(buf.flush(), Some("x".to_string()));
}
