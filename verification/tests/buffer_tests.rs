use hecto::Buffer;
use std::io::{Error, ErrorKind};

#[test]
fn default_buffer_is_empty() {
    let buffer = Buffer::default();
    assert!(buffer.is_empty());
    assert_eq!(buffer.lines.len(), 0);
}

#[test]
fn load_builds_one_line_per_record() {
    let buffer = Buffer::load_file(Ok("ab\nc\nd".to_string())).unwrap();
    assert!(!buffer.is_empty());
    assert_eq!(buffer.lines.len(), 3);
    assert_eq!(buffer.lines[0].len(), 2);
    assert_eq!(buffer.lines[1].len(), 1);
    assert_eq!(buffer.lines[2].len(), 1);
    assert_eq!(buffer.lines[0].get(0..10), "ab");
    assert_eq!(buffer.lines[1].get(0..10), "c");
    assert_eq!(buffer.lines[2].get(0..10), "d");
}

#[test]
fn load_of_an_empty_text_is_empty() {
    let buffer = Buffer::load_file(Ok(String::new())).unwrap();
    assert!(buffer.is_empty());
}

#[test]
fn load_of_a_single_line_feed_is_one_empty_line() {
    let buffer = Buffer::load_file(Ok("\n".to_string())).unwrap();
    assert!(!buffer.is_empty());
    assert_eq!(buffer.lines.len(), 1);
    assert_eq!(buffer.lines[0].len(), 0);
}

#[test]
fn load_drops_line_endings() {
    let buffer = Buffer::load_file(Ok("a好\r\nb\n".to_string())).unwrap();
    assert_eq!(buffer.lines.len(), 2);
    assert_eq!(buffer.lines[0].len(), 2);
    assert_eq!(buffer.lines[0].width_until(2), 3);
    assert_eq!(buffer.lines[1].get(0..5), "b");
}

#[test]
fn load_passes_the_error_of_the_read_on() {
    let failed = Buffer::load_file(Err(Error::new(ErrorKind::NotFound, "no such file")));
    match failed {
        Ok(_) => panic!("a failed read gave a buffer"),
        Err(error) => {
            assert_eq!(error.kind(), ErrorKind::NotFound);
            assert_eq!(error.to_string(), "no such file");
        }
    }
    let undecodable = Buffer::load_file(Err(Error::new(ErrorKind::InvalidData, "not text")));
    assert_eq!(undecodable.err().map(|e| e.kind()), Some(ErrorKind::InvalidData));
}
