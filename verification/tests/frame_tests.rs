use airoi::error::AiroiError;
use airoi::frame::{frame_len, read_frame, write_frame};

fn round_trip(payload: Vec<u8>) {
    let mut stream: Vec<u8> = Vec::new();
    write_frame(&mut stream, &payload).unwrap();
    let (read, next) = read_frame(&stream, 0).unwrap();
    assert_eq!(read, payload);
    assert_eq!(next, stream.len());
}

#[test]
fn test_round_trip_empty() {
    round_trip(Vec::new());
}

#[test]
fn test_round_trip_small() {
    round_trip(vec![1, 2, 3]);
}

#[test]
fn test_round_trip_max() {
    round_trip(vec![0xabu8; 65535]);
}

#[test]
fn test_write_frame_exact_bytes() {
    let mut stream: Vec<u8> = Vec::new();
    write_frame(&mut stream, &[7, 9]).unwrap();
    assert_eq!(stream, vec![0, 2, 7, 9]);

    let mut long: Vec<u8> = Vec::new();
    write_frame(&mut long, &[0u8; 300]).unwrap();
    assert_eq!(long[0], 1);
    assert_eq!(long[1], 44);
    assert_eq!(long.len(), 302);
}

#[test]
fn test_write_frame_rejects_oversize() {
    let mut stream: Vec<u8> = Vec::new();
    let r = write_frame(&mut stream, &vec![0u8; 65536]);
    assert!(matches!(r, Err(AiroiError::Io(_))));
    assert!(stream.is_empty());
}

#[test]
fn test_read_frame_rejects_truncation() {
    assert!(matches!(
        read_frame(&vec![0], 0),
        Err(AiroiError::Io(_))
    ));
    assert!(matches!(
        read_frame(&vec![0, 5, 1, 2], 0),
        Err(AiroiError::Io(_))
    ));
}

#[test]
fn test_two_frames_in_sequence() {
    let mut stream: Vec<u8> = Vec::new();
    write_frame(&mut stream, b"abc").unwrap();
    write_frame(&mut stream, b"defg").unwrap();
    let (first, p1) = read_frame(&stream, 0).unwrap();
    let (second, p2) = read_frame(&stream, p1).unwrap();
    assert_eq!(first, b"abc");
    assert_eq!(second, b"defg");
    assert_eq!(p2, stream.len());
}

#[test]
fn test_frame_len() {
    assert_eq!(frame_len(0, 2), 2);
    assert_eq!(frame_len(1, 44), 300);
    assert_eq!(frame_len(255, 255), 65535);
}
