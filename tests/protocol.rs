use rusty_nodejs_repl::protocol::{frame_request, pull_result_from_stdout, ResponseScanner, STOP_CODE};
use rusty_nodejs_repl::Error;

const EOF: &[u8] = &[0, 1, 0];

#[test]
fn request_wraps_code_in_async_function() {
    let r = frame_request("console.log('Hello, world!');", EOF);
    assert_eq!(
        r,
        b";(async () =>{\nconsole.log('Hello, world!');; process.stdout.write('\x00\x01\x00');})();".to_vec()
    );
}

#[test]
fn stop_request_calls_queue_done() {
    let r = frame_request(STOP_CODE, &[9]);
    assert_eq!(r, b";(async () =>{\nqueue.done(); process.stdout.write('\x09');})();".to_vec());
}

#[test]
fn request_keeps_non_ascii_code() {
    let r = frame_request("é", &[1]);
    assert_eq!(r, ";(async () =>{\né; process.stdout.write('\x01');})();".as_bytes().to_vec());
}

#[test]
fn answer_echoes_written_bytes() {
    let mut s = b"Hello, world!\n".to_vec();
    s.extend_from_slice(EOF);
    s.extend_from_slice(b"73");
    let (out, used) = pull_result_from_stdout(&s, EOF).unwrap();
    assert_eq!(out, b"Hello, world!\n");
    assert_eq!(used, 17);
}

#[test]
fn empty_answer() {
    let (out, used) = pull_result_from_stdout(EOF, EOF).unwrap();
    assert!(out.is_empty());
    assert_eq!(used, 3);
}

#[test]
fn stream_end_before_marker_is_unexpected_eof() {
    match pull_result_from_stdout(b"partial\x00\x01", EOF) {
        Err(Error::UnexpectedEof(p)) => assert_eq!(p, b"partial\x00\x01"),
        other => panic!("unexpected {other:?}"),
    }
    assert!(matches!(pull_result_from_stdout(b"", EOF), Err(Error::UnexpectedEof(p)) if p.is_empty()));
}

#[test]
fn first_marker_ends_the_answer() {
    let s = b"a\x00\x01\x00b\x00\x01\x00";
    let (out, used) = pull_result_from_stdout(s, EOF).unwrap();
    assert_eq!(out, b"a");
    assert_eq!(used, 4);
    let (out, used) = pull_result_from_stdout(&s[used..], EOF).unwrap();
    assert_eq!(out, b"b");
    assert_eq!(used, 4);
}

#[test]
fn overlapping_output_ends_early() {
    let (out, used) = pull_result_from_stdout(b"xaaa", b"aa").unwrap();
    assert_eq!(out, b"x");
    assert_eq!(used, 3);
}

#[test]
fn answer_never_ends_with_marker() {
    for eof in [&b"#"[..], &b"\x00\x01\x00"[..], &b"END-OF-OUTPUT"[..]] {
        let mut s = b"some output".to_vec();
        s.extend_from_slice(eof);
        s.extend_from_slice(eof);
        let (out, _) = pull_result_from_stdout(&s, eof).unwrap();
        assert_eq!(out, b"some output");
        assert!(!out.ends_with(eof));
    }
}

#[test]
fn scanner_cuts_a_stream_into_answers() {
    let mut sc = ResponseScanner::new(EOF.to_vec());
    let mut answers = vec![];
    for &b in b"73\x00\x01\x0077\x00\x01\x00tail" {
        if let Some(a) = sc.push(b) {
            answers.push(a);
        }
    }
    assert_eq!(answers, vec![b"73".to_vec(), b"77".to_vec()]);
    match sc.end_of_stream() {
        Error::UnexpectedEof(p) => assert_eq!(p, b"tail"),
        other => panic!("unexpected {other:?}"),
    }
}
