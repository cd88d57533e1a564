use std::io::Read;

use gunzip::driver::{Action, Event, Run, RunError};
use gunzip::gzip::{DecodeError, FNAME};
use gunzip::text::{display_text, report};

fn member(name: &[u8], payload: &[u8]) -> Vec<u8> {
    let flags = if name.is_empty() { 0 } else { FNAME };
    let mut v = vec![0x1f, 0x8b, 8, flags, 0, 0, 0, 0, 0, 0xff];
    if !name.is_empty() {
        v.extend_from_slice(name);
        v.push(0);
    }
    let n = payload.len() as u16;
    v.extend_from_slice(&[0x01, (n & 0xff) as u8, (n >> 8) as u8, (!n & 0xff) as u8, (!n >> 8) as u8]);
    v.extend_from_slice(payload);
    v.extend_from_slice(&crc32fast::hash(payload).to_le_bytes());
    v.extend_from_slice(&(payload.len() as u32).to_le_bytes());
    v
}

fn inflate(input: &[u8]) -> Result<(Vec<u8>, usize), String> {
    let mut d = compress::flate::Decoder::new(input);
    let mut out = Vec::new();
    while !d.eof() {
        d.read_to_end(&mut out).map_err(|e| e.to_string())?;
    }
    Ok((out, d.r.len()))
}

/// Hands `e` to the run and answers any decoding it asks for.
fn step(run: &mut Run, e: Event) -> Action {
    assert!(run.accepts(&e));
    match run.step(e) {
        Action::Inflate(bytes) => step(run, Event::Inflated(inflate(&bytes))),
        a => a,
    }
}

fn expect_open(a: Action) -> usize {
    match a {
        Action::Open(i) => i,
        _ => panic!("expected an open"),
    }
}

fn expect_show(a: Action) -> Vec<String> {
    match a {
        Action::Show(lines) => lines,
        _ => panic!("expected lines to print"),
    }
}

#[test]
fn unnamed_member_is_dumped_between_delimiters() {
    let (mut run, a) = Run::new(1);
    assert_eq!(expect_open(a), 0);
    let lines = expect_show(step(&mut run, Event::Opened(member(b"", b"hello"))));
    assert_eq!(lines, vec!["Member: no name".to_string(), "================\nhello\n================".to_string()]);
    match step(&mut run, Event::Done) {
        Action::Finish(Ok(())) => {}
        _ => panic!("expected a clean finish"),
    }
    assert!(run.is_finished());
}

#[test]
fn named_member_is_written_to_its_name() {
    let (mut run, _) = Run::new(1);
    let lines = expect_show(step(&mut run, Event::Opened(member(b"data.txt", b"content"))));
    assert_eq!(lines, vec!["Member: data.txt".to_string()]);
    match step(&mut run, Event::Done) {
        Action::Check(p) => assert_eq!(p, b"data.txt".to_vec()),
        _ => panic!("expected a destination check"),
    }
    match step(&mut run, Event::Exists(false)) {
        Action::Create(p, c) => {
            assert_eq!(p, b"data.txt".to_vec());
            assert_eq!(c, b"content".to_vec());
        }
        _ => panic!("expected a create"),
    }
    match step(&mut run, Event::Done) {
        Action::Finish(Ok(())) => {}
        _ => panic!("expected a clean finish"),
    }
}

#[test]
fn existing_destination_aborts_the_run() {
    let (mut run, _) = Run::new(2);
    expect_show(step(&mut run, Event::Opened(member(b"out.txt", b"new"))));
    step(&mut run, Event::Done);
    match step(&mut run, Event::Exists(true)) {
        Action::Finish(Err(e @ RunError::AlreadyExists(_))) => {
            match &e {
                RunError::AlreadyExists(d) => assert_eq!(d.clone(), Some("out.txt".to_string())),
                _ => unreachable!(),
            }
            assert_eq!(e.message(), "file already exists (out.txt)".to_string());
        }
        _ => panic!("expected the already-exists error"),
    }
    assert!(run.is_finished());
    assert!(!run.accepts(&Event::Done));
}

#[test]
fn invalid_name_has_lossy_detail() {
    let (mut run, _) = Run::new(1);
    let lines = expect_show(step(&mut run, Event::Opened(member(b"o\xffut", b"x"))));
    assert_eq!(lines, vec!["Member: o\u{fffd}ut".to_string()]);
    step(&mut run, Event::Done);
    match step(&mut run, Event::Exists(true)) {
        Action::Finish(Err(e @ RunError::AlreadyExists(Some(_)))) => {
            assert_eq!(e.message(), "file already exists (o\u{fffd}ut)".to_string())
        }
        _ => panic!("expected the already-exists error with the lossy name"),
    }
}

#[test]
fn two_valid_files_are_both_processed() {
    let (mut run, a) = Run::new(2);
    assert_eq!(expect_open(a), 0);
    expect_show(step(&mut run, Event::Opened(member(b"", b"one"))));
    assert_eq!(expect_open(step(&mut run, Event::Done)), 1);
    let lines = expect_show(step(&mut run, Event::Opened(member(b"", b"two"))));
    assert_eq!(lines[1], "================\ntwo\n================".to_string());
    match step(&mut run, Event::Done) {
        Action::Finish(Ok(())) => {}
        _ => panic!("expected a clean finish"),
    }
}

#[test]
fn malformed_second_file_stops_the_run() {
    let (mut run, _) = Run::new(3);
    step(&mut run, Event::Opened(member(b"first.txt", b"1")));
    step(&mut run, Event::Done);
    match step(&mut run, Event::Exists(false)) {
        Action::Create(p, _) => assert_eq!(p, b"first.txt".to_vec()),
        _ => panic!("expected the first file's output"),
    }
    assert_eq!(expect_open(step(&mut run, Event::Done)), 1);
    match step(&mut run, Event::Opened(vec![0x50, 0x4b, 3, 4, 0, 0, 0, 0, 0, 0, 0])) {
        Action::Finish(Err(RunError::Decode(DecodeError::BadHeader))) => {}
        _ => panic!("expected a decode error"),
    }
    assert!(run.is_finished());
}

#[test]
fn open_failure_stops_the_run() {
    let (mut run, _) = Run::new(2);
    match step(&mut run, Event::Failed("permission denied".to_string())) {
        Action::Finish(Err(e @ RunError::Io(_))) => assert_eq!(e.message(), "permission denied".to_string()),
        _ => panic!("expected an I/O error"),
    }
    assert!(run.is_finished());
}

#[test]
fn write_failure_stops_the_run() {
    let (mut run, _) = Run::new(1);
    step(&mut run, Event::Opened(member(b"a", b"b")));
    step(&mut run, Event::Done);
    step(&mut run, Event::Exists(false));
    match step(&mut run, Event::Failed("disk full".to_string())) {
        Action::Finish(Err(RunError::Io(m))) => assert_eq!(m, "disk full".to_string()),
        _ => panic!("expected an I/O error"),
    }
}

#[test]
fn no_files_finish_at_once() {
    let (run, a) = Run::new(0);
    assert!(matches!(a, Action::Finish(Ok(()))));
    assert!(run.is_finished());
}

#[test]
fn events_out_of_turn_are_refused() {
    let (run, _) = Run::new(1);
    assert!(!run.accepts(&Event::Done));
    assert!(!run.accepts(&Event::Exists(false)));
    assert!(run.accepts(&Event::Opened(Vec::new())));
}

#[test]
fn report_lists_name_comment_and_dump() {
    assert_eq!(
        report(&b"".to_vec(), &b"hi".to_vec(), &b"body".to_vec()),
        vec!["Member: no name".to_string(), "Comment: hi".to_string(), "================\nbody\n================".to_string()]
    );
    assert_eq!(report(&b"n".to_vec(), &b"".to_vec(), &b"body".to_vec()), vec!["Member: n".to_string()]);
}

#[test]
fn display_text_falls_back_to_lossy() {
    assert_eq!(display_text(b"plain"), "plain".to_string());
    assert_eq!(display_text(b"a\xc3"), "a\u{fffd}".to_string());
}

#[test]
fn inflate_is_asked_for_the_data_after_the_header() {
    let (mut run, _) = Run::new(1);
    let data = member(b"", b"hi");
    match run.step(Event::Opened(data.clone())) {
        Action::Inflate(bytes) => assert_eq!(bytes, data[10..].to_vec()),
        _ => panic!("expected the compressed data"),
    }
    assert!(!run.accepts(&Event::Inflated(Ok((Vec::new(), data.len())))));
    match run.step(Event::Inflated(Err("broken".to_string()))) {
        Action::Finish(Err(e @ RunError::Decode(_))) => assert_eq!(e.message(), "broken".to_string()),
        _ => panic!("expected the decoder's error"),
    }
}
