use qmk_notifier::{
    build_frame, build_frames, frame_count, terminated_payload, FRAME_LENGTH, FRAME_PAYLOAD,
    MARKER_FIRST, MARKER_SECOND, READ_TIMEOUT_MS, REPORT_ID, REPORT_LENGTH, TERMINATOR,
};

#[test]
fn constants_of_the_wire_format() {
    assert_eq!(REPORT_LENGTH, 32);
    assert_eq!(FRAME_LENGTH, REPORT_LENGTH + 1);
    assert_eq!(FRAME_PAYLOAD, 30);
    assert_eq!(REPORT_ID, 0);
    assert_eq!(MARKER_FIRST, 0x81);
    assert_eq!(MARKER_SECOND, 0x9F);
    assert_eq!(TERMINATOR, 0x03);
    assert_eq!(READ_TIMEOUT_MS, 100);
}

#[test]
fn frame_count_is_the_ceiling_and_at_least_one() {
    assert_eq!(frame_count(0), 1);
    assert_eq!(frame_count(1), 1);
    assert_eq!(frame_count(29), 1);
    assert_eq!(frame_count(30), 1);
    assert_eq!(frame_count(31), 2);
    assert_eq!(frame_count(59), 2);
    assert_eq!(frame_count(60), 2);
    assert_eq!(frame_count(61), 3);
    assert_eq!(frame_count(3000), 100);
    assert_eq!(frame_count(usize::MAX), usize::MAX / 30 + 1);
}

#[test]
fn terminator_is_appended_once() {
    let payload = terminated_payload("hi");
    assert_eq!(payload, vec![0x68, 0x69, 0x03]);
    assert_eq!(frame_count(payload.len()), 1);
    assert_eq!(terminated_payload(""), vec![0x03]);
    assert_eq!(terminated_payload("\u{e9}"), vec![0xC3, 0xA9, 0x03]);
    assert_eq!(terminated_payload("a\u{3}"), vec![0x61, 0x03, 0x03]);
}

#[test]
fn frame_of_a_short_payload() {
    let frame = build_frame(&[0x68, 0x69, 0x03], 0);
    let mut expected = vec![0u8; 33];
    expected[1] = 0x81;
    expected[2] = 0x9F;
    expected[3] = 0x68;
    expected[4] = 0x69;
    expected[5] = 0x03;
    assert_eq!(frame, expected);
}

#[test]
fn frame_of_an_empty_payload() {
    let frame = build_frame(&[], 0);
    let mut expected = vec![0u8; 33];
    expected[1] = 0x81;
    expected[2] = 0x9F;
    assert_eq!(frame, expected);
    assert_eq!(build_frames(&[]), vec![expected]);
}

#[test]
fn frames_of_a_long_payload() {
    let data: Vec<u8> = (1..=65).collect();
    let frames = build_frames(&data);
    assert_eq!(frames.len(), 3);
    for (i, frame) in frames.iter().enumerate() {
        assert_eq!(frame.len(), 33);
        assert_eq!(frame[0], 0x00);
        assert_eq!(frame[1], 0x81);
        assert_eq!(frame[2], 0x9F);
        assert_eq!(*frame, build_frame(&data, i));
    }
    assert_eq!(frames[0][3..], data[0..30]);
    assert_eq!(frames[1][3..], data[30..60]);
    assert_eq!(frames[2][3..8], data[60..65]);
    assert_eq!(frames[2][8..], [0u8; 25]);
}

#[test]
fn frames_of_a_payload_that_fills_its_reports() {
    let data: Vec<u8> = (0..60).map(|i| 200 - i).collect();
    let frames = build_frames(&data);
    assert_eq!(frames.len(), 2);
    assert_eq!(frames[0][3..], data[0..30]);
    assert_eq!(frames[1][3..], data[30..60]);
}

#[test]
fn frames_carry_the_payload_in_order() {
    for len in [0usize, 1, 29, 30, 31, 60, 61, 95, 300] {
        let data: Vec<u8> = (0..len).map(|i| (i % 251) as u8 + 1).collect();
        let frames = build_frames(&data);
        assert_eq!(frames.len(), frame_count(len));
        let mut carried: Vec<u8> = Vec::new();
        for frame in &frames {
            assert_eq!(frame.len(), FRAME_LENGTH);
            assert_eq!(frame[..3], [0x00, 0x81, 0x9F]);
            carried.extend_from_slice(&frame[3..]);
        }
        assert_eq!(carried[..len], data[..]);
        assert!(carried[len..].iter().all(|b| *b == 0));
    }
}

#[test]
fn frame_beyond_the_payload_is_padding() {
    let data = [7u8; 31];
    let mut expected = vec![0u8; 33];
    expected[1] = 0x81;
    expected[2] = 0x9F;
    assert_eq!(build_frame(&data, 2), expected);
    assert_eq!(build_frame(&data, usize::MAX), expected);
    expected[3] = 7;
    assert_eq!(build_frame(&data, 1), expected);
}
