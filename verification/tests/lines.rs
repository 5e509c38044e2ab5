use bytes::BytesMut;
use std::fmt;
use std::io;
use tokio_fmt_encoder::line::{write_line, write_rendered, LINE_FEED};
use tokio_fmt_encoder::Error;

#[test]
fn the_line_feed_is_byte_ten() {
    assert_eq!(LINE_FEED, 10u8);
    assert_eq!(LINE_FEED, b'\n');
}

#[test]
fn write_line_appends_text_and_line_feed() {
    let mut buffer = BytesMut::default();
    write_line("hello", &mut buffer).unwrap();
    assert_eq!(&buffer[..], b"hello\n");
    write_line("world", &mut buffer).unwrap();
    assert_eq!(&buffer[..], b"hello\nworld\n");
}

#[test]
fn write_line_of_nothing_is_one_byte() {
    let mut buffer = BytesMut::default();
    write_line("", &mut buffer).unwrap();
    assert_eq!(&buffer[..], &[LINE_FEED][..]);
}

#[test]
fn write_rendered_writes_a_text() {
    let mut buffer = BytesMut::default();
    write_rendered(Ok(String::from("Some(10)")), &mut buffer).unwrap();
    assert_eq!(&buffer[..], b"Some(10)\n");
}

#[test]
fn write_rendered_passes_a_failure_on() {
    let mut buffer = BytesMut::default();
    buffer.extend_from_slice(b"kept");
    let res = write_rendered(Err(fmt::Error), &mut buffer);
    assert!(matches!(res, Err(Error::Fmt(fmt::Error))));
    assert_eq!(&buffer[..], b"kept");
}

#[test]
fn an_io_error_converts_into_the_io_variant() {
    let cause = io::Error::new(io::ErrorKind::BrokenPipe, "pipe closed");
    let error = Error::from(cause);
    match error {
        Error::Io(inner) => {
            assert_eq!(inner.kind(), io::ErrorKind::BrokenPipe);
            assert_eq!(inner.to_string(), "pipe closed");
        }
        Error::Fmt(_) => panic!("an I/O error must stay an I/O error"),
    }
}

#[test]
fn an_io_error_converts_through_into() {
    let error: Error = io::Error::from(io::ErrorKind::NotFound).into();
    assert!(matches!(error, Error::Io(_)));
}

#[test]
fn errors_have_a_debug_form() {
    assert_eq!(format!("{:?}", Error::Fmt(fmt::Error)), "Fmt(Error)");
    let error = Error::from(io::Error::from(io::ErrorKind::NotFound));
    assert!(format!("{:?}", error).starts_with("Io("));
}

#[test]
fn write_line_counts_bytes_not_characters() {
    let mut buffer = BytesMut::with_capacity(64);
    let room = buffer.capacity();
    // Two bytes each in UTF-8: half as many characters as there is room.
    let text = "\u{e9}".repeat(room / 2);
    assert_eq!(text.len(), room);
    write_line(&text, &mut buffer).unwrap();
    assert_eq!(buffer.len(), room + 1);
    assert_eq!(&buffer[..room], text.as_bytes());
    assert_eq!(buffer[room], LINE_FEED);
}

#[test]
fn write_line_into_a_full_buffer_makes_room() {
    let mut buffer = BytesMut::with_capacity(64);
    let room = buffer.capacity();
    write_line(&"a".repeat(room - 1), &mut buffer).unwrap();
    assert_eq!(buffer.len(), room);
    let mut expected = buffer.to_vec();
    write_line("", &mut buffer).unwrap();
    expected.push(LINE_FEED);
    assert_eq!(&buffer[..], &expected[..]);
    write_line("next", &mut buffer).unwrap();
    expected.extend_from_slice(b"next\n");
    assert_eq!(&buffer[..], &expected[..]);
}

#[test]
fn write_rendered_writes_a_text_longer_than_the_room() {
    let mut buffer = BytesMut::new();
    let text = "q".repeat(buffer.capacity() * 3);
    write_rendered(Ok(text.clone()), &mut buffer).unwrap();
    assert_eq!(buffer.len(), text.len() + 1);
    assert_eq!(&buffer[..text.len()], text.as_bytes());
    assert_eq!(buffer[text.len()], LINE_FEED);
}
