//! Wire-form tests for addresses, flags and frames.

use rfm69_link::{Address, Flags, Packet, PacketError};

#[test]
fn address_every_byte_roundtrips() {
    for b in 0..=255u8 {
        let a = Address::from_u8(b);
        assert_eq!(a.as_u8(), b);
        if b == 255 {
            assert_eq!(a, Address::Broadcast);
        } else {
            assert_eq!(a, Address::Unicast(b));
        }
    }
}

#[test]
fn address_every_value_roundtrips() {
    assert_eq!(Address::from_u8(Address::Broadcast.as_u8()), Address::Broadcast);
    for n in 0..=254u8 {
        let a = Address::Unicast(n);
        assert_eq!(Address::from_u8(a.as_u8()), a);
    }
}

#[test]
fn flags_decode_is_lenient() {
    for b in 0..=255u8 {
        let f = Flags::from_u8(b);
        if b == 0 {
            assert_eq!(f, Flags::NoFlags);
        } else if b <= 3 {
            assert_eq!(f, Flags::Ack(b));
        } else {
            assert_eq!(f, Flags::NoFlags);
        }
    }
}

#[test]
fn flags_encode() {
    assert_eq!(Flags::NoFlags.as_u8(), 0);
    assert_eq!(Flags::Ack(1).as_u8(), 1);
    assert_eq!(Flags::Ack(3).as_u8(), 3);
}

#[test]
fn frame_wire_layout() {
    let p = Packet::new(
        Address::Unicast(42),
        Address::Unicast(84),
        Flags::NoFlags,
        &[0xAA, 0x01],
    )
    .unwrap();
    assert_eq!(p.to_slice(), vec![0x05, 0x2A, 0x54, 0x00, 0xAA, 0x01]);
}

#[test]
fn broadcast_wire_layout() {
    let p = Packet::new(Address::Unicast(42), Address::Broadcast, Flags::NoFlags, &[0x00])
        .unwrap();
    assert_eq!(p.to_slice(), vec![0x04, 0x2A, 0xFF, 0x00, 0x00]);
}

#[test]
fn frame_roundtrips() {
    let payloads: [&[u8]; 3] = [&[], &[0x07], &[0x10, 0x20, 0x30, 0x40]];
    for data in payloads {
        let p = Packet::new(
            Address::Unicast(7),
            Address::Unicast(9),
            Flags::Ack(2),
            data,
        )
        .unwrap();
        let wire = p.to_slice();
        assert_eq!(wire.len(), data.len() + 4);
        let q = Packet::from_rx_data(wire[0], &wire[1..], -40).unwrap();
        assert_eq!(q.src, p.src);
        assert_eq!(q.dst, p.dst);
        assert_eq!(q.flags, p.flags);
        assert_eq!(q.data_bytes(), p.data_bytes());
        assert_eq!(q.rssi, Some(-40));
        assert_eq!(p.rssi, None);
    }
}

#[test]
fn frame_length_bounds() {
    let long = [0u8; 62];
    assert!(matches!(
        Packet::new(Address::Unicast(1), Address::Unicast(2), Flags::NoFlags, &long),
        Err(PacketError::DataTooLong)
    ));
    let max = [0u8; 61];
    let p = Packet::new(Address::Unicast(1), Address::Unicast(2), Flags::NoFlags, &max).unwrap();
    assert_eq!(p.to_slice().len(), 65);
    assert!(matches!(
        Packet::from_rx_data(2, &[0x01, 0x02], 0),
        Err(PacketError::DataTooShort)
    ));
    let min = Packet::from_rx_data(3, &[0x01, 0x02, 0x00], -10).unwrap();
    assert_eq!(min.data_bytes().len(), 0);
}

#[test]
fn frame_ack_flag() {
    let none = Packet::new(Address::Unicast(1), Address::Unicast(2), Flags::NoFlags, &[])
        .unwrap();
    assert!(!none.is_ack());
    let ack = Packet::new(Address::Unicast(1), Address::Unicast(2), Flags::Ack(0), &[])
        .unwrap();
    assert!(ack.is_ack());
}
