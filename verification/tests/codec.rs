use clipsync::{decode, encode, CbData, Decoded, Image};

fn text_snapshot(s: &str) -> CbData {
    CbData::Text(String::from(s))
}

fn sample_image() -> Image {
    Image { width: 2, height: 1, bytes: vec![255, 0, 0, 255, 0, 255, 0, 255] }
}

#[test]
fn text_frame_layout_is_exact() {
    let frame = encode(&text_snapshot("hello"));
    let mut expected = vec![0u8, 5, 0, 0, 0, 0, 0, 0, 0];
    expected.extend_from_slice(b"hello");
    assert_eq!(frame, expected);
}

#[test]
fn image_frame_layout_is_exact() {
    let frame = encode(&CbData::Image(sample_image()));
    let mut expected = vec![1u8];
    expected.extend_from_slice(&2u64.to_le_bytes());
    expected.extend_from_slice(&1u64.to_le_bytes());
    expected.extend_from_slice(&8u64.to_le_bytes());
    expected.extend_from_slice(&[255, 0, 0, 255, 0, 255, 0, 255]);
    assert_eq!(frame, expected);
}

#[test]
fn text_frame_round_trips() {
    let frame = encode(&text_snapshot("hello"));
    match decode(&frame) {
        Decoded::Complete(CbData::Text(s), rest) => {
            assert_eq!(s, "hello");
            assert!(rest.is_empty());
        }
        _ => panic!("expected a complete text frame"),
    }
}

#[test]
fn image_frame_round_trips() {
    let frame = encode(&CbData::Image(sample_image()));
    match decode(&frame) {
        Decoded::Complete(CbData::Image(img), rest) => {
            assert_eq!(img.width, 2);
            assert_eq!(img.height, 1);
            assert_eq!(img.bytes, vec![255, 0, 0, 255, 0, 255, 0, 255]);
            assert!(rest.is_empty());
        }
        _ => panic!("expected a complete image frame"),
    }
}

#[test]
fn unicode_text_round_trips() {
    let frame = encode(&text_snapshot("héllo wörld ✂"));
    match decode(&frame) {
        Decoded::Complete(CbData::Text(s), rest) => {
            assert_eq!(s, "héllo wörld ✂");
            assert!(rest.is_empty());
        }
        _ => panic!("expected a complete text frame"),
    }
}

#[test]
fn every_strict_prefix_is_incomplete() {
    for snapshot in [text_snapshot("hello"), CbData::Image(sample_image())] {
        let frame = encode(&snapshot);
        for i in 0..frame.len() {
            let prefix: Vec<u8> = frame[..i].to_vec();
            assert!(
                matches!(decode(&prefix), Decoded::Incomplete),
                "prefix of {i} bytes must be incomplete"
            );
        }
        assert!(matches!(decode(&frame), Decoded::Complete(_, _)));
    }
}

#[test]
fn empty_buffer_is_incomplete() {
    assert!(matches!(decode(&Vec::new()), Decoded::Incomplete));
}

#[test]
fn out_of_range_tag_is_malformed() {
    assert!(matches!(decode(&vec![9, 1, 2, 3]), Decoded::Malformed));
    assert!(matches!(decode(&vec![2]), Decoded::Malformed));
}

#[test]
fn invalid_utf8_payload_is_malformed() {
    let mut frame = vec![0u8];
    frame.extend_from_slice(&2u64.to_le_bytes());
    frame.extend_from_slice(&[0xff, 0xfe]);
    assert!(matches!(decode(&frame), Decoded::Malformed));
}

#[test]
fn decode_returns_bytes_after_the_frame() {
    let mut buffer = encode(&text_snapshot("one"));
    let second = encode(&text_snapshot("two"));
    buffer.extend_from_slice(&second);
    match decode(&buffer) {
        Decoded::Complete(CbData::Text(s), rest) => {
            assert_eq!(s, "one");
            assert_eq!(rest, second);
        }
        _ => panic!("expected the first frame to decode"),
    }
    match decode(&second) {
        Decoded::Complete(CbData::Text(s), rest) => {
            assert_eq!(s, "two");
            assert!(rest.is_empty());
        }
        _ => panic!("expected the second frame to decode"),
    }
}
