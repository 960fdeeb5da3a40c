use automotive::can::{Frame, Identifier};
use automotive::panda::usb_protocol::{calculate_checksum, pack_can_buffer, unpack_can_buffer};
use automotive::panda::{HwType, Error as PandaError};
use automotive::Error;

#[test]
fn unpack_test_unpack_single() {
    let mut buffer = vec![
        208, 128, 1, 0, 0, 171, 0, 0, 0, 0, 0, 0, 13, 69, 0, 0, 8, 0, 0, 27, 0, 0, 0, 0, 0, 1,
        0, 0, 255, 250, 0, 0, 0, 0, 199, 116, 151, 129,
    ];
    let frames = unpack_can_buffer(&mut buffer).unwrap();

    // All data is consumed
    assert_eq!(buffer.len(), 0);

    assert_eq!(frames.len(), 1);
    assert_eq!(frames[0].id, Identifier::Standard(48));
    assert_eq!(frames[0].bus, 0);
    assert_eq!(
        frames[0].data,
        vec![
            0, 0, 0, 0, 0, 0, 13, 69, 0, 0, 8, 0, 0, 27, 0, 0, 0, 0, 0, 1, 0, 0, 255, 250, 0,
            0, 0, 0, 199, 116, 151, 129
        ]
    );
}

#[test]
fn unpack_test_remaining_data() {
    let mut buffer = vec![
        208, 128, 1, 0, 0, 171, 0, 0, 0, 0, 0, 0, 13, 69, 0, 0, 8, 0, 0, 27, 0, 0, 0, 0, 0, 1,
        0, 0, 255, 250, 0, 0, 0, 0, 199, 116, 151, 129, // Extra
        208, 128,
    ];

    unpack_can_buffer(&mut buffer).unwrap();
    assert_eq!(buffer.len(), 2);
}

#[test]
fn usb_protocol_test_unpack_single() {
    let mut buffer = vec![
        208, 128, 1, 0, 0, 171, 0, 0, 0, 0, 0, 0, 13, 69, 0, 0, 8, 0, 0, 27, 0, 0, 0, 0, 0, 1,
        0, 0, 255, 250, 0, 0, 0, 0, 199, 116, 151, 129,
    ];
    let frames = unpack_can_buffer(&mut buffer).unwrap();

    // All data is consumed
    assert_eq!(buffer.len(), 0);

    assert_eq!(frames.len(), 1);
    assert_eq!(frames[0].id, Identifier::Standard(48));
    assert_eq!(frames[0].bus, 0);
    assert_eq!(
        frames[0].data,
        vec![
            0, 0, 0, 0, 0, 0, 13, 69, 0, 0, 8, 0, 0, 27, 0, 0, 0, 0, 0, 1, 0, 0, 255, 250, 0,
            0, 0, 0, 199, 116, 151, 129
        ]
    );
}

#[test]
fn usb_protocol_test_remaining_data() {
    let mut buffer = vec![
        208, 128, 1, 0, 0, 171, 0, 0, 0, 0, 0, 0, 13, 69, 0, 0, 8, 0, 0, 27, 0, 0, 0, 0, 0, 1,
        0, 0, 255, 250, 0, 0, 0, 0, 199, 116, 151, 129, // Extra
        208, 128,
    ];

    unpack_can_buffer(&mut buffer).unwrap();
    assert_eq!(buffer.len(), 2);
}

#[test]
fn test_round_trip() {
    let frames = vec![
        Frame {
            bus: 0,
            id: Identifier::Standard(0x123),
            data: vec![1, 2, 3, 4, 5, 6, 7, 8],
            loopback: false,
            fd: false,
        },
        Frame {
            bus: 1,
            id: Identifier::Extended(0x123),
            data: vec![1, 2, 3, 4],
            loopback: false,
            fd: false,
        },
    ];

    let buffer = pack_can_buffer(&frames).unwrap();
    let mut buffer = buffer.concat();
    let unpacked = unpack_can_buffer(&mut buffer).unwrap();

    assert_eq!(frames, unpacked);
}

#[test]
fn test_round_malformed_dlc() {
    let frames = vec![Frame {
        bus: 0,
        id: Identifier::Standard(0x123),
        data: vec![1, 2, 3, 4, 5, 6, 7, 8, 9],
        loopback: false,
        fd: false,
    }];
    let r = pack_can_buffer(&frames);
    assert_eq!(r, Err(Error::MalformedFrame));
}

#[test]
fn test_round_malformed_id() {
    let frames = vec![Frame {
        bus: 0,
        id: Identifier::Standard(0xfff),
        data: vec![1, 2, 3, 4, 5, 6, 7, 8],
        loopback: false,
        fd: false,
    }];
    let r = pack_can_buffer(&frames);
    assert_eq!(r, Err(Error::MalformedFrame));
}

#[test]
fn pack_exact_bytes_and_chunking() {
    let f = Frame::new(2, Identifier::Standard(0x123), &[0xde, 0xad]).unwrap();
    let chunks = pack_can_buffer(&[f]).unwrap();
    assert_eq!(chunks.len(), 1);
    let w: u32 = 0x123 << 3;
    let header = [(2u8 << 4) | (2 << 1), w as u8, (w >> 8) as u8, 0, 0];
    let checksum = header.iter().fold(0u8, |a, b| a ^ b) ^ 0xde ^ 0xad;
    let mut expected = header.to_vec();
    expected.push(checksum);
    expected.extend([0xde, 0xad]);
    assert_eq!(chunks[0], expected);

    let many: Vec<Frame> = (0..5).map(|_| Frame::new(0, Identifier::Standard(1), &[0u8; 64]).unwrap()).collect();
    let chunks = pack_can_buffer(&many).unwrap();
    // 70-byte packets: a chunk closes after the fourth packet (280 bytes).
    assert_eq!(chunks.len(), 2);
    assert_eq!(chunks[0].len(), 280);
    assert_eq!(chunks[1].len(), 70);
}

#[test]
fn unpack_bad_checksum_and_fd_flag() {
    let f = Frame::new(0, Identifier::Extended(0x18daf110), &[7u8; 12]).unwrap();
    let mut buf = pack_can_buffer(&[f.clone()]).unwrap().concat();
    let mut good = buf.clone();
    let out = unpack_can_buffer(&mut good).unwrap();
    assert_eq!(out[0], f);
    assert!(out[0].fd);
    buf[6] ^= 1;
    let len = buf.len();
    assert_eq!(unpack_can_buffer(&mut buf), Err(Error::PandaError(PandaError::InvalidChecksum)));
    assert_eq!(buf.len(), len);
}

#[test]
fn checksum_and_hw_type() {
    assert_eq!(calculate_checksum(&[0x01, 0x02, 0x04]), 0x07);
    assert_eq!(calculate_checksum(&[]), 0);
    assert_eq!(HwType::from_repr(0x10), Some(HwType::Quatro));
    assert_eq!(HwType::from_repr(0x0a), None);
    assert!(HwType::RedPanda.is_fd());
}
