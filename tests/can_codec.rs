use pandacan::can::{decode_can_frames, encode_can_frames};
use pandacan::{CanMessage, PandaError};

fn msg(address: u32, src: u8, len: usize, dat: [u8; 8]) -> CanMessage {
    CanMessage { address, bus_time: 0, src, len, dat }
}

fn slot(w0: u32, w1: u32, dat: [u8; 8]) -> Vec<u8> {
    let mut v = Vec::new();
    v.extend_from_slice(&w0.to_le_bytes());
    v.extend_from_slice(&w1.to_le_bytes());
    v.extend_from_slice(&dat);
    v
}

#[test]
fn round_trip_standard_address() {
    let m = msg(0x123, 2, 5, [1, 2, 3, 4, 5, 0, 0, 0]);
    let buf = encode_can_frames(&[m]).unwrap();
    assert_eq!(buf.len(), 16);
    let back = decode_can_frames(&buf).unwrap();
    assert_eq!(back.len(), 1);
    assert_eq!(back[0].address, 0x123);
    assert_eq!(back[0].src, 2);
    assert_eq!(back[0].len, 5);
    assert_eq!(back[0].dat[..5], [1, 2, 3, 4, 5]);
    assert_eq!(back[0].bus_time, 0);
}

#[test]
fn round_trip_extended_address() {
    let m = msg(0x18DA_F110, 1, 8, [9, 8, 7, 6, 5, 4, 3, 2]);
    let buf = encode_can_frames(&[m]).unwrap();
    assert_eq!(buf[0] & 0x4, 0x4);
    let back = decode_can_frames(&buf).unwrap();
    assert_eq!(back[0].address, 0x18DA_F110);
    assert_eq!(back[0].src, 1);
    assert_eq!(back[0].len, 8);
    assert_eq!(back[0].dat, [9, 8, 7, 6, 5, 4, 3, 2]);
}

#[test]
fn round_trip_keeps_order() {
    let ms = [
        msg(0x10, 0, 1, [0xaa, 0, 0, 0, 0, 0, 0, 0]),
        msg(0x900, 1, 2, [0xbb, 0xcc, 0, 0, 0, 0, 0, 0]),
        msg(0x10, 2, 0, [0; 8]),
    ];
    let buf = encode_can_frames(&ms).unwrap();
    assert_eq!(buf.len(), 48);
    let back = decode_can_frames(&buf).unwrap();
    assert_eq!(back.len(), 3);
    assert_eq!((back[0].address, back[0].src, back[0].dat[0]), (0x10, 0, 0xaa));
    assert_eq!((back[1].address, back[1].src, back[1].len), (0x900, 1, 2));
    assert_eq!((back[2].address, back[2].src, back[2].len), (0x10, 2, 0));
}

#[test]
fn full_payload_survives() {
    let dat = [0x00, 0xff, 0x10, 0x80, 0x7f, 0x01, 0xfe, 0x55];
    let buf = encode_can_frames(&[msg(0x7ff, 0, 8, dat)]).unwrap();
    assert_eq!(buf[8..16], dat);
    let back = decode_can_frames(&buf).unwrap();
    assert_eq!(back[0].dat, dat);
    assert_eq!(back[0].len, 8);
}

#[test]
fn zero_length_frame_has_empty_payload() {
    let buf = slot(0x123 << 21, 0, [1, 2, 3, 4, 5, 6, 7, 8]);
    let back = decode_can_frames(&buf).unwrap();
    assert_eq!(back[0].len, 0);
    assert!(back[0].dat[..back[0].len].is_empty());
}

#[test]
fn standard_framing_up_to_0x7ff() {
    let buf = encode_can_frames(&[msg(0x7ff, 0, 0, [0; 8])]).unwrap();
    assert_eq!(buf[0..4], [0x01, 0x00, 0xe0, 0xff]);
    assert_eq!(decode_can_frames(&buf).unwrap()[0].address, 0x7ff);
}

#[test]
fn extended_framing_from_0x800() {
    let buf = encode_can_frames(&[msg(0x800, 0, 0, [0; 8])]).unwrap();
    assert_eq!(buf[0..4], [0x05, 0x40, 0x00, 0x00]);
    assert_eq!(decode_can_frames(&buf).unwrap()[0].address, 0x800);
}

#[test]
fn second_word_packs_len_and_src() {
    let buf = encode_can_frames(&[msg(0x1, 0xab, 3, [0; 8])]).unwrap();
    assert_eq!(buf[4..8], [0xb3, 0x0a, 0x00, 0x00]);
}

#[test]
fn decode_reads_bus_time_and_src() {
    let buf = slot((0x2a << 3) | 4, (0xbeef << 16) | (0x07 << 4) | 2, [0x11, 0x22, 0, 0, 0, 0, 0, 0]);
    let back = decode_can_frames(&buf).unwrap();
    assert_eq!(back[0].address, 0x2a);
    assert_eq!(back[0].bus_time, 0xbeef);
    assert_eq!(back[0].src, 7);
    assert_eq!(back[0].len, 2);
    assert_eq!(back[0].dat[..2], [0x11, 0x22]);
}

#[test]
fn empty_buffer_decodes_to_nothing() {
    assert!(decode_can_frames(&[]).unwrap().is_empty());
    assert!(encode_can_frames(&[]).unwrap().is_empty());
}

#[test]
fn decode_rejects_partial_slot() {
    assert_eq!(decode_can_frames(&[0u8; 15]).unwrap_err(), PandaError::MalformedResponse);
    assert_eq!(decode_can_frames(&[0u8; 17]).unwrap_err(), PandaError::MalformedResponse);
    assert_eq!(decode_can_frames(&[0u8; 40]).unwrap_err(), PandaError::MalformedResponse);
}

#[test]
fn decode_rejects_length_above_eight() {
    for len in 9u32..16 {
        let buf = slot(0x100 << 21, len, [0; 8]);
        assert_eq!(decode_can_frames(&buf).unwrap_err(), PandaError::InvalidFrame);
    }
    let mut two = slot(0x100 << 21, 8, [0; 8]);
    two.extend(slot(0x100 << 21, 9, [0; 8]));
    assert_eq!(decode_can_frames(&two).unwrap_err(), PandaError::InvalidFrame);
}

#[test]
fn encode_rejects_unframeable_messages() {
    let too_long = msg(0x10, 0, 9, [0; 8]);
    assert_eq!(encode_can_frames(&[too_long]).unwrap_err(), PandaError::InvalidFrame);
    let too_wide = msg(0x2000_0000, 0, 1, [0; 8]);
    assert_eq!(encode_can_frames(&[too_wide]).unwrap_err(), PandaError::InvalidFrame);
    let widest = msg(0x1fff_ffff, 0, 1, [0; 8]);
    assert_eq!(decode_can_frames(&encode_can_frames(&[widest]).unwrap()).unwrap()[0].address, 0x1fff_ffff);
}
