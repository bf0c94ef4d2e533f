use clipsync::{
    choose_snapshot, decode, encode, input_step, output_step, should_apply, CbData, Decoded, Image,
    InputStep,
};

fn text_snapshot(s: &str) -> CbData {
    CbData::Text(String::from(s))
}

#[test]
fn output_loop_sends_identical_snapshot_once() {
    let (frame, last) = output_step(Some(text_snapshot("hello")), None);
    let sent = frame.expect("first sample must be sent");
    assert_eq!(sent, encode(&text_snapshot("hello")));
    let (frame2, last2) = output_step(Some(text_snapshot("hello")), last);
    assert!(frame2.is_none(), "an unchanged snapshot must be suppressed");
    let (frame3, _) = output_step(Some(text_snapshot("hello")), last2);
    assert!(frame3.is_none());
}

#[test]
fn output_loop_sends_changed_snapshot() {
    let (_, last) = output_step(Some(text_snapshot("one")), None);
    let (frame, last) = output_step(Some(text_snapshot("two")), last);
    assert_eq!(frame.expect("a changed snapshot must be sent"), encode(&text_snapshot("two")));
    match last {
        Some(CbData::Text(s)) => assert_eq!(s, "two"),
        _ => panic!("the record must hold the new snapshot"),
    }
}

#[test]
fn failed_read_skips_cycle_and_keeps_record() {
    let (_, last) = output_step(Some(text_snapshot("hello")), None);
    let (frame, last) = output_step(None, last);
    assert!(frame.is_none(), "a cycle without a snapshot sends nothing");
    match &last {
        Some(CbData::Text(s)) => assert_eq!(s, "hello"),
        _ => panic!("a failed read must not clear the record"),
    }
    let (frame, _) = output_step(Some(text_snapshot("hello")), last);
    assert!(frame.is_none(), "the kept record still suppresses the snapshot");
}

#[test]
fn zero_length_read_closes_input_loop() {
    let outcome = input_step(vec![1, 2, 3], Vec::new());
    assert!(matches!(outcome, InputStep::Closed));
}

#[test]
fn input_loop_assembles_split_frame() {
    let frame = encode(&text_snapshot("hello"));
    let (first, second) = frame.split_at(4);
    let buffer = match input_step(Vec::new(), first.to_vec()) {
        InputStep::NeedMore(b) => b,
        _ => panic!("half a frame must ask for more bytes"),
    };
    match input_step(buffer, second.to_vec()) {
        InputStep::Frame(CbData::Text(s), rest) => {
            assert_eq!(s, "hello");
            assert!(rest.is_empty());
        }
        _ => panic!("the completed frame must decode"),
    }
}

#[test]
fn input_loop_dies_on_malformed_bytes() {
    let outcome = input_step(Vec::new(), vec![42, 0, 0]);
    assert!(matches!(outcome, InputStep::Fatal));
}

#[test]
fn input_loop_keeps_bytes_after_frame() {
    let mut bytes = encode(&text_snapshot("one"));
    let second = encode(&text_snapshot("two"));
    bytes.extend_from_slice(&second);
    match input_step(Vec::new(), bytes) {
        InputStep::Frame(CbData::Text(s), rest) => {
            assert_eq!(s, "one");
            assert_eq!(rest, second);
        }
        _ => panic!("the first frame must decode"),
    }
}

#[test]
fn equal_local_content_suppresses_write() {
    let incoming = text_snapshot("hello");
    let local = Some(text_snapshot("hello"));
    assert!(!should_apply(&incoming, &local));
}

#[test]
fn different_local_content_is_overwritten() {
    let incoming = text_snapshot("hello");
    assert!(should_apply(&incoming, &Some(text_snapshot("other"))));
    assert!(should_apply(&incoming, &None));
}

#[test]
fn text_is_preferred_over_image() {
    let img = Image { width: 1, height: 1, bytes: vec![0, 0, 0, 0] };
    match choose_snapshot(Some(String::from("t")), Some(img)) {
        Some(CbData::Text(s)) => assert_eq!(s, "t"),
        _ => panic!("text must win over an image"),
    }
    let img = Image { width: 1, height: 1, bytes: vec![0, 0, 0, 0] };
    assert!(matches!(choose_snapshot(None, Some(img)), Some(CbData::Image(_))));
    assert!(choose_snapshot(None, None).is_none());
}

#[test]
fn hello_travels_to_an_empty_peer_exactly_once() {
    let (frame, last) = output_step(Some(text_snapshot("hello")), None);
    let wire = frame.expect("the first sample is sent");

    let received = match input_step(Vec::new(), wire) {
        InputStep::Frame(x, rest) => {
            assert!(rest.is_empty());
            x
        }
        _ => panic!("the peer must decode one frame"),
    };
    match &received {
        CbData::Text(s) => assert_eq!(s, "hello"),
        _ => panic!("the peer must receive the text"),
    }
    let peer_local: Option<CbData> = None;
    assert!(should_apply(&received, &peer_local), "an empty peer clipboard is written");

    let (frame2, _) = output_step(Some(text_snapshot("hello")), last);
    assert!(frame2.is_none(), "a second identical sample sends no frame");
}

#[test]
fn snapshots_describe_themselves() {
    assert_eq!(text_snapshot("hello").describe(), "hello");
    let img = Image { width: 1920, height: 1080, bytes: vec![0; 1920 * 1080 * 4] };
    assert_eq!(CbData::Image(img).describe(), "Image 1920x1080");
    let dot = Image { width: 1, height: 1, bytes: vec![0, 0, 0, 0] };
    assert_eq!(CbData::Image(dot).describe(), "Image 1x1");
    let zero = Image { width: 0, height: 0, bytes: Vec::new() };
    assert_eq!(CbData::Image(zero).describe(), "Image 0x0");
}

#[test]
fn image_snapshot_survives_the_wire() {
    let img = Image { width: 2, height: 1, bytes: vec![255, 0, 0, 255, 0, 255, 0, 255] };
    let (frame, _) = output_step(Some(CbData::Image(img)), None);
    let wire = frame.expect("a fresh image is sent");
    match decode(&wire) {
        Decoded::Complete(CbData::Image(img), rest) => {
            assert_eq!((img.width, img.height), (2, 1));
            assert_eq!(img.bytes, vec![255, 0, 0, 255, 0, 255, 0, 255]);
            assert!(rest.is_empty());
        }
        _ => panic!("the image frame must decode"),
    }
}
