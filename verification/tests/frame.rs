use tplink_hs110::error::TpLinkHs110Error;
use tplink_hs110::frame::{decode_frame, encode_frame, HEADER_LEN};
use tplink_hs110::HS110;

#[test]
fn frame_round_trip_restores_the_command_text() {
    for text in [
        "",
        "{}",
        "{\"system\":{\"get_sysinfo\":{}}}",
        "{\"emeter\":{\"get_realtime\":{}}}",
        "tab\tand\nnewline and \u{7f}",
    ] {
        let frame = HS110::encrypt(text);
        assert_eq!(HS110::decrypt(&frame).unwrap(), text);
        assert_eq!(decode_frame(&encode_frame(text.as_bytes())).unwrap(), text);
    }
}

#[test]
fn frame_of_get_sysinfo_is_exact() {
    assert_eq!(
        HS110::encrypt("{\"system\":{\"get_sysinfo\":{}}}"),
        vec![
            0, 0, 0, 29, 208, 242, 129, 248, 139, 255, 154, 247, 213, 239, 148, 182, 209, 180,
            192, 159, 236, 149, 230, 143, 225, 135, 232, 202, 240, 139, 246, 139, 246
        ]
    );
}

#[test]
fn frame_of_set_relay_state_is_exact() {
    assert_eq!(
        HS110::encrypt("{\"system\":{\"set_relay_state\":{\"state\":1}}}"),
        vec![
            0, 0, 0, 42, 208, 242, 129, 248, 139, 255, 154, 247, 213, 239, 148, 182, 197, 160,
            212, 139, 249, 156, 240, 145, 232, 183, 196, 176, 209, 165, 192, 226, 216, 163, 129,
            242, 134, 231, 147, 246, 212, 238, 223, 162, 223, 162
        ]
    );
}

#[test]
fn frame_header_is_four_bytes_big_endian() {
    assert_eq!(HEADER_LEN, 4);
    assert_eq!(encode_frame(&[]), vec![0, 0, 0, 0]);
    assert_eq!(encode_frame(&[0u8; 300])[..4], [0, 0, 1, 44]);
    assert_eq!(encode_frame(&[0u8; 70000])[..4], [0, 1, 17, 112]);
    assert_eq!(encode_frame(&[0u8; 70000]).len(), 70004);
}

#[test]
fn frame_length_mismatch_is_rejected() {
    match decode_frame(&[0, 0, 0, 5, 202, 168, 203]) {
        Err(TpLinkHs110Error::EncryptedPayloadLengthMismatch {
            payload_len_actual: 3,
            payload_len_from_header: 5,
        }) => {}
        other => panic!("unexpected result: {other:?}"),
    }
}

#[test]
fn frame_with_trailing_bytes_is_rejected() {
    let mut frame = HS110::encrypt("{}");
    frame.push(0);
    match HS110::decrypt(&frame) {
        Err(TpLinkHs110Error::EncryptedPayloadLengthMismatch {
            payload_len_actual: 3,
            payload_len_from_header: 2,
        }) => {}
        other => panic!("unexpected result: {other:?}"),
    }
}

#[test]
fn frame_cut_short_is_rejected() {
    let frame = HS110::encrypt("{\"system\":{}}");
    match HS110::decrypt(&frame[..frame.len() - 1]) {
        Err(TpLinkHs110Error::EncryptedPayloadLengthMismatch {
            payload_len_actual: 12,
            payload_len_from_header: 13,
        }) => {}
        other => panic!("unexpected result: {other:?}"),
    }
}

#[test]
fn frame_header_uses_all_four_bytes() {
    match decode_frame(&[1, 2, 3, 4]) {
        Err(TpLinkHs110Error::EncryptedPayloadLengthMismatch {
            payload_len_actual: 0,
            payload_len_from_header: 0x0102_0304,
        }) => {}
        other => panic!("unexpected result: {other:?}"),
    }
    match decode_frame(&[255, 255, 255, 255, 0]) {
        Err(TpLinkHs110Error::EncryptedPayloadLengthMismatch {
            payload_len_actual: 1,
            payload_len_from_header: u32::MAX,
        }) => {}
        other => panic!("unexpected result: {other:?}"),
    }
}

#[test]
fn short_buffer_is_rejected() {
    match decode_frame(&[0, 0]) {
        Err(TpLinkHs110Error::ShortEncryptedResponse(2)) => {}
        other => panic!("unexpected result: {other:?}"),
    }
    match decode_frame(&[]) {
        Err(TpLinkHs110Error::ShortEncryptedResponse(0)) => {}
        other => panic!("unexpected result: {other:?}"),
    }
    match decode_frame(&[0, 0, 0]) {
        Err(TpLinkHs110Error::ShortEncryptedResponse(3)) => {}
        other => panic!("unexpected result: {other:?}"),
    }
}

#[test]
fn frame_of_nothing_decodes_to_the_empty_text() {
    assert_eq!(decode_frame(&[0, 0, 0, 0]).unwrap(), "");
}

#[test]
fn frame_decodes_known_bytes() {
    assert_eq!(decode_frame(&[0, 0, 0, 3, 202, 168, 203]).unwrap(), "abc");
}

#[test]
fn each_deciphered_byte_is_one_character() {
    // "é" is two bytes of UTF-8; each comes back as a character of its own.
    let frame = HS110::encrypt("é");
    assert_eq!(frame, vec![0, 0, 0, 2, 104, 193]);
    let text = HS110::decrypt(&frame).unwrap();
    assert_eq!(text, "\u{c3}\u{a9}");
    assert_eq!(text.chars().count(), 2);
    assert_ne!(text, "é");
}
