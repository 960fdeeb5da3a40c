use automotive::can::{dlc_to_len, is_valid_dlc_len, len_to_dlc, next_valid_dlc_len, Frame, Identifier};
use automotive::Error;

#[test]
fn id_compare() {
    assert_eq!(
        true,
        Identifier::Standard(0x123) < Identifier::Standard(0x124)
    );
    assert_eq!(
        true,
        Identifier::Standard(0x7ff) > Identifier::Standard(0x100)
    );

    // Extended IDs always have lower priority than standard IDs
    assert_eq!(
        true,
        Identifier::Extended(0x1) > Identifier::Standard(0x100)
    );
}

#[test]
fn id_order_among_extended_and_equal() {
    assert!(Identifier::Extended(0x100) < Identifier::Extended(0x101));
    assert!(!(Identifier::Extended(0x1) < Identifier::Standard(0x7ff)));
    assert_eq!(
        Identifier::Standard(5).partial_cmp(&Identifier::Standard(5)),
        Some(std::cmp::Ordering::Equal)
    );
    assert!(Identifier::Standard(0x7ff) < Identifier::Extended(0));
}

#[test]
fn id_kinds_and_conversions() {
    assert!(Identifier::Standard(1).is_standard());
    assert!(!Identifier::Standard(1).is_extended());
    assert!(Identifier::Extended(1).is_extended());
    assert_eq!(Identifier::from(0x7ffu32), Identifier::Standard(0x7ff));
    assert_eq!(Identifier::from(0x800u32), Identifier::Extended(0x800));
    let raw: u32 = Identifier::Extended(0x18daf110).into();
    assert_eq!(raw, 0x18daf110);
}

#[test]
fn frame_new_keeps_data_and_sets_fd() {
    for len in [0usize, 1, 7, 8, 12, 16, 20, 24, 32, 48, 64] {
        let data: Vec<u8> = (0..len).map(|i| i as u8).collect();
        let f = Frame::new(1, Identifier::Standard(0x123), &data).unwrap();
        assert_eq!(f.data, data);
        assert_eq!(f.fd, len > 8);
        assert_eq!(f.bus, 1);
        assert!(!f.loopback);
    }
}

#[test]
fn frame_new_rejects_bad_length_and_id() {
    assert_eq!(Frame::new(0, Identifier::Standard(1), &[0u8; 9]).unwrap_err(), Error::MalformedFrame);
    assert_eq!(Frame::new(0, Identifier::Standard(1), &[0u8; 65]).unwrap_err(), Error::MalformedFrame);
    assert_eq!(Frame::new(0, Identifier::Standard(0x800), &[0u8; 8]).unwrap_err(), Error::MalformedFrame);
    assert_eq!(
        Frame::new(0, Identifier::Extended(0x2000_0000), &[0u8; 8]).unwrap_err(),
        Error::MalformedFrame
    );
    assert!(Frame::new(0, Identifier::Extended(0x1fff_ffff), &[0u8; 8]).is_ok());
}

#[test]
fn frame_equality_ignores_loopback() {
    let a = Frame::new(0, Identifier::Standard(0x10), &[1, 2, 3]).unwrap();
    let b = a.with_loopback(true);
    assert!(b.loopback);
    assert!(a == b);
    let c = Frame::new(0, Identifier::Standard(0x10), &[1, 2, 4]).unwrap();
    assert!(a != c);
}

#[test]
fn dlc_tables() {
    assert_eq!(dlc_to_len(9), 12);
    assert_eq!(dlc_to_len(15), 64);
    assert_eq!(len_to_dlc(48), 14);
    assert!(is_valid_dlc_len(20));
    assert!(!is_valid_dlc_len(13));
    assert_eq!(next_valid_dlc_len(13), 16);
    assert_eq!(next_valid_dlc_len(49), 64);
}
