use singleload::config::Config;
use singleload::container::ContainerManager;
use singleload::executor::{limit_output, Executor};
use singleload::logs::{append_marked_lines, frame_chunks, split_streams, strip_trailing_newlines, LogChunk};
use singleload::run::exit_code_to_unsigned;
use singleload::types::{ExecutionResult, CPU_UNIT};

const SUFFIX: &[u8] = b"... [truncated]";

fn executor_with_cap(cap: u64) -> Executor {
    Executor::new(ContainerManager::new(Config::default(), Ok(())).unwrap(), 30, 512 * 1024 * 1024, CPU_UNIT, cap)
}

#[test]
fn short_stream_is_unchanged() {
    assert_eq!(limit_output(b"hello".to_vec(), 10), (b"hello".to_vec(), false));
    assert_eq!(limit_output(Vec::new(), 0), (Vec::new(), false));
}

#[test]
fn stream_of_exactly_the_cap_is_unchanged() {
    assert_eq!(limit_output(b"0123456789".to_vec(), 10), (b"0123456789".to_vec(), false));
}

#[test]
fn long_stream_keeps_its_first_bytes_and_gains_the_marker() {
    assert_eq!(
        limit_output(b"0123456789A".to_vec(), 10),
        (b"0123456789... [truncated]".to_vec(), true)
    );
    assert_eq!(limit_output(b"x".to_vec(), 0), (b"... [truncated]".to_vec(), true));
}

#[test]
fn cut_may_fall_inside_a_character() {
    let text = "h\u{e9}llo".as_bytes().to_vec();
    let (limited, cut) = limit_output(text.clone(), 2);
    assert!(cut);
    assert_eq!(&limited[..2], &text[..2]);
    assert_eq!(&limited[2..], SUFFIX);
}

#[test]
fn two_hundred_thousand_bytes_under_a_kibibyte_cap() {
    let mut stdout = Vec::new();
    while stdout.len() < 200000 {
        stdout.extend_from_slice(b"x\n");
    }
    let e = executor_with_cap(1024);
    let (out, err, truncated) = e.apply_output_limits(stdout.clone(), Vec::new());
    assert!(truncated);
    assert!(out.ends_with(SUFFIX));
    assert_eq!(out.len(), 1024 + SUFFIX.len());
    assert_eq!(&out[..1024], &stdout[..1024]);
    assert!(err.is_empty());
}

#[test]
fn flag_is_set_when_either_stream_is_cut() {
    let e = executor_with_cap(4);
    assert_eq!(
        e.apply_output_limits(b"abcd".to_vec(), b"ab".to_vec()),
        (b"abcd".to_vec(), b"ab".to_vec(), false)
    );
    assert_eq!(
        e.apply_output_limits(b"abcde".to_vec(), b"ab".to_vec()),
        (b"abcd... [truncated]".to_vec(), b"ab".to_vec(), true)
    );
    assert_eq!(
        e.apply_output_limits(b"ab".to_vec(), b"abcdef".to_vec()),
        (b"ab".to_vec(), b"abcd... [truncated]".to_vec(), true)
    );
    assert_eq!(
        e.apply_output_limits(b"12345".to_vec(), b"67890".to_vec()),
        (b"1234... [truncated]".to_vec(), b"6789... [truncated]".to_vec(), true)
    );
}

#[test]
fn truncated_streams_stay_within_cap_and_marker() {
    for cap in [0u64, 1, 7, 64] {
        let e = executor_with_cap(cap);
        for (a, b) in [(0usize, 100usize), (100, 0), (100, 100), (65, 3)] {
            let (out, err, truncated) = e.apply_output_limits(vec![b'a'; a], vec![b'b'; b]);
            if truncated {
                let most = cap as usize + SUFFIX.len();
                assert!(out.len() <= most && err.len() <= most);
                assert!(out.len() == most || err.len() == most);
            } else {
                assert!(out.len() <= cap as usize && err.len() <= cap as usize);
            }
            assert_eq!(truncated, a > cap as usize || b > cap as usize);
        }
    }
}

#[test]
fn log_lines_go_to_their_streams() {
    assert_eq!(
        split_streams(b"1 hello\n2 oops\n1 world\n"),
        (b"hello\nworld".to_vec(), b"oops".to_vec())
    );
}

#[test]
fn hello_from_python() {
    assert_eq!(split_streams(b"1 hi\n"), (b"hi".to_vec(), Vec::new()));
}

#[test]
fn unmarked_lines_count_as_standard_output() {
    assert_eq!(split_streams(b"plain\n3 three\n"), (b"plain\n3 three".to_vec(), Vec::new()));
    assert_eq!(split_streams(b"1"), (b"1".to_vec(), Vec::new()));
    assert_eq!(split_streams(b"2"), (b"2".to_vec(), Vec::new()));
    assert_eq!(split_streams(b"1x\n2\ty\n"), (b"1x\n2\ty".to_vec(), Vec::new()));
}

#[test]
fn empty_log_has_empty_streams() {
    assert_eq!(split_streams(b""), (Vec::new(), Vec::new()));
    assert_eq!(split_streams(b"\n"), (Vec::new(), Vec::new()));
    assert_eq!(split_streams(b"\n\n\n"), (Vec::new(), Vec::new()));
}

#[test]
fn last_line_needs_no_ending() {
    assert_eq!(split_streams(b"2 err"), (Vec::new(), b"err".to_vec()));
    assert_eq!(split_streams(b"1 a\n1 b"), (b"a\nb".to_vec(), Vec::new()));
}

#[test]
fn carriage_return_before_line_feed_belongs_to_the_ending() {
    assert_eq!(split_streams(b"1 a\r\n2 b\r\n"), (b"a".to_vec(), b"b".to_vec()));
    assert_eq!(split_streams(b"1 a\r"), (b"a\r".to_vec(), Vec::new()));
    assert_eq!(split_streams(b"1 a\r\r\n1 b\n"), (b"a\r\nb".to_vec(), Vec::new()));
    assert_eq!(split_streams(b"1 \r\n1 x\n"), (b"\nx".to_vec(), Vec::new()));
}

#[test]
fn only_trailing_line_feeds_are_stripped() {
    assert_eq!(split_streams(b"1 hi  \n"), (b"hi  ".to_vec(), Vec::new()));
    assert_eq!(split_streams(b"1 a\n\n\n"), (b"a".to_vec(), Vec::new()));
    assert_eq!(split_streams(b"1 a\n\n1 b\n1 \n"), (b"a\n\nb".to_vec(), Vec::new()));
    assert_eq!(split_streams(b"1 \n2 \n"), (Vec::new(), Vec::new()));
    assert_eq!(split_streams(b"1  a\n"), (b" a".to_vec(), Vec::new()));
}

#[test]
fn marker_needs_digit_and_space() {
    assert_eq!(split_streams(b"1 \n"), (Vec::new(), Vec::new()));
    assert_eq!(split_streams(b"2 x\n1 y\n2 z"), (b"y".to_vec(), b"x\nz".to_vec()));
    assert_eq!(split_streams(b" 1 x\n"), (b" 1 x".to_vec(), Vec::new()));
}

#[test]
fn stripping_newlines_in_place() {
    let mut s = b"a\nb\n\n".to_vec();
    strip_trailing_newlines(&mut s);
    assert_eq!(s, b"a\nb".to_vec());
    let mut s = b"\n\n".to_vec();
    strip_trailing_newlines(&mut s);
    assert!(s.is_empty());
    let mut s = b"a \t".to_vec();
    strip_trailing_newlines(&mut s);
    assert_eq!(s, b"a \t".to_vec());
}

#[test]
fn exit_codes_keep_their_bits() {
    assert_eq!(exit_code_to_unsigned(0), 0);
    assert_eq!(exit_code_to_unsigned(7), 7);
    assert_eq!(exit_code_to_unsigned(i32::MAX), 2147483647);
    assert_eq!(exit_code_to_unsigned(-1), 4294967295);
    assert_eq!(exit_code_to_unsigned(i32::MIN), 2147483648);
    for code in [0, 1, 7, 137, -1, -9, i32::MIN, i32::MAX] {
        let record =
            ExecutionResult::success(exit_code_to_unsigned(code), Vec::new(), Vec::new(), 0, false);
        assert_eq!(record.process_exit_code(), code);
    }
}

#[test]
fn success_record() {
    let r = ExecutionResult::success(0, b"hi".to_vec(), Vec::new(), 42, false);
    assert_eq!(r.status, "success");
    assert_eq!(r.exit_code, 0);
    assert_eq!(r.stdout, b"hi".to_vec());
    assert!(r.stderr.is_empty());
    assert_eq!(r.duration_ms, 42);
    assert_eq!(r.error, None);
    assert!(!r.truncated);
}

#[test]
fn failed_record() {
    let r = ExecutionResult::success(7, Vec::new(), b"bad".to_vec(), 9, true);
    assert_eq!(r.status, "failed");
    assert_eq!(r.exit_code, 7);
    assert_eq!(r.stderr, b"bad".to_vec());
    assert_eq!(r.error, None);
    assert!(r.truncated);
    assert_eq!(r.process_exit_code(), 7);
}

#[test]
fn error_record() {
    let r = ExecutionResult::error("Execution timeout exceeded".to_string(), 1000);
    assert_eq!(r.status, "error");
    assert_eq!(r.exit_code, 1);
    assert!(r.stdout.is_empty());
    assert!(r.stderr.is_empty());
    assert_eq!(r.duration_ms, 1000);
    assert_eq!(r.error, Some("Execution timeout exceeded".to_string()));
    assert!(!r.truncated);
    assert_eq!(r.process_exit_code(), 1);
}

#[test]
fn chunk_lines_are_marked() {
    let mut log = b"seen\n".to_vec();
    append_marked_lines(&mut log, b'1', b"a\nb");
    assert_eq!(log, b"seen\n1 a\n1 b\n".to_vec());
    let mut log = Vec::new();
    append_marked_lines(&mut log, b'2', b"x\n\ny\n");
    assert_eq!(log, b"2 x\n2 \n2 y\n".to_vec());
    let mut log = Vec::new();
    append_marked_lines(&mut log, b'1', b"");
    assert!(log.is_empty());
    append_marked_lines(&mut log, b'1', b"\n");
    assert_eq!(log, b"1 \n".to_vec());
}

#[test]
fn chunks_are_framed_in_order() {
    let chunks = vec![
        LogChunk::Stdout(b"hello\n".to_vec()),
        LogChunk::Stderr(b"warn: x\nwarn: y".to_vec()),
        LogChunk::Stdout(b"world".to_vec()),
        LogChunk::Stderr(Vec::new()),
    ];
    assert_eq!(frame_chunks(&chunks), b"1 hello\n2 warn: x\n2 warn: y\n1 world\n".to_vec());
    assert!(frame_chunks(&Vec::new()).is_empty());
}

#[test]
fn framed_chunks_come_apart_into_their_streams() {
    let chunks = vec![
        LogChunk::Stdout(b"1 looks marked\n2 too\n".to_vec()),
        LogChunk::Stderr(b"e1\n\ne2".to_vec()),
        LogChunk::Stdout(b"tail\n\n".to_vec()),
        LogChunk::Stderr(b"\n".to_vec()),
    ];
    assert_eq!(
        split_streams(&frame_chunks(&chunks)),
        (b"1 looks marked\n2 too\ntail".to_vec(), b"e1\n\ne2".to_vec())
    );
    let chunks = vec![LogChunk::Stdout(b"hi\n".to_vec())];
    assert_eq!(split_streams(&frame_chunks(&chunks)), (b"hi".to_vec(), Vec::new()));
}
