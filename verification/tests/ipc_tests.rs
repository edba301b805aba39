use emp::ipc::{encode_frame, frame_len, get_addr, split_frame, PlayStatus, Response};

#[test]
fn daemon_address() {
    assert_eq!(get_addr(), "127.0.0.1:6600");
}

#[test]
fn frame_has_little_endian_length_header() {
    let f = encode_frame(&[7, 8, 9]);
    assert_eq!(f, vec![3, 0, 0, 0, 0, 0, 0, 0, 7, 8, 9]);
    assert_eq!(frame_len(&f[..8]), 3);
}

#[test]
fn long_frame_header() {
    let payload = vec![1u8; 300];
    let f = encode_frame(&payload);
    assert_eq!(&f[..8], &[44, 1, 0, 0, 0, 0, 0, 0]);
    assert_eq!(f.len(), 308);
}

#[test]
fn frame_round_trip_with_trailing_bytes() {
    let mut f = encode_frame(b"hello");
    f.extend_from_slice(&[1, 2, 3]);
    assert_eq!(split_frame(&f), Some((b"hello".to_vec(), 13)));
}

#[test]
fn empty_frame() {
    let f = encode_frame(&[]);
    assert_eq!(f, vec![0; 8]);
    assert_eq!(split_frame(&f), Some((vec![], 8)));
}

#[test]
fn incomplete_frames_are_not_split() {
    assert_eq!(split_frame(&[5, 0, 0]), None);
    assert_eq!(split_frame(&[5, 0, 0, 0, 0, 0, 0, 0, 1, 2]), None);
}

#[test]
fn play_status_clone_is_equal() {
    let s = PlayStatus {
        playing: true,
        position: 3,
        duration: 200,
        cover: Some("/tmp/c.png".to_string()),
        music_name: "n".to_string(),
        artist: "a".to_string(),
    };
    assert_eq!(Response::Status(s.clone()), Response::Status(s));
}
