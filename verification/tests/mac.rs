//! MAC tests over a scripted transceiver: acknowledged retry, the
//! acknowledgement reply rule, broadcast handling and the destination
//! filter, on a simulated millisecond clock.

use rfm69_link::mock::{HalRec, MockHal, MockTransceiver, TrxRec, TrxStep};
use rfm69_link::{Address, Flags, Packet, Rfm69, Stack, TrxError, TxError};

fn frame(src: u8, dst: Address, flags: Flags, data: &[u8]) -> Packet {
    Packet::new(Address::Unicast(src), dst, flags, data).unwrap()
}

fn ack_from_to(src: u8, dst: u8) -> Packet {
    frame(src, Address::Unicast(dst), Flags::Ack(0), &[])
}

#[test]
fn unacknowledged_unicast_sends_once() {
    let mut stack = Stack::new(MockTransceiver::new(vec![]), Address::Unicast(42));
    stack.send_packet(Address::Unicast(84), Flags::NoFlags, &[0xAA, 0x01]).unwrap();
    let trx = stack.transceiver();
    assert_eq!(trx.sent.len(), 1);
    assert_eq!(trx.sent[0].to_slice(), vec![0x05, 0x2A, 0x54, 0x00, 0xAA, 0x01]);
    assert_eq!(trx.events.len(), 1);
    assert!(matches!(trx.events[0], TrxRec::Sent(_)));
}

#[test]
fn broadcast_sends_once() {
    let mut stack = Stack::new(MockTransceiver::new(vec![]), Address::Unicast(42));
    stack.send_packet(Address::Broadcast, Flags::NoFlags, &[0x00]).unwrap();
    let trx = stack.transceiver();
    assert_eq!(trx.sent.len(), 1);
    assert_eq!(trx.sent[0].to_slice(), vec![0x04, 0x2A, 0xFF, 0x00, 0x00]);
}

#[test]
fn ack_zero_is_unacknowledged() {
    let mut stack = Stack::new(MockTransceiver::new(vec![]), Address::Unicast(42));
    stack.send_packet(Address::Unicast(84), Flags::Ack(0), &[0x01]).unwrap();
    let trx = stack.transceiver();
    assert_eq!(trx.sent.len(), 1);
    assert_eq!(trx.events.len(), 1);
}

#[test]
fn acknowledged_unicast_first_try() {
    let script = vec![TrxStep::Deliver(20, ack_from_to(42, 84))];
    let mut stack = Stack::new(MockTransceiver::new(script), Address::Unicast(84));
    stack.send_packet(Address::Unicast(42), Flags::Ack(3), &[0xAA, 0x07]).unwrap();
    let trx = stack.transceiver();
    assert_eq!(trx.sent.len(), 1);
    assert_eq!(trx.sent[0].to_slice(), vec![0x05, 0x54, 0x2A, 0x03, 0xAA, 0x07]);
    assert!(trx.now_ms <= 50);
    assert_eq!(trx.events.len(), 2);
    assert!(matches!(trx.events[0], TrxRec::Sent(_)));
    assert!(matches!(trx.events[1], TrxRec::Delivered(_)));
}

#[test]
fn acknowledged_unicast_second_try() {
    let script = vec![TrxStep::Deliver(260, ack_from_to(42, 84))];
    let mut stack = Stack::new(MockTransceiver::new(script), Address::Unicast(84));
    stack.send_packet(Address::Unicast(42), Flags::Ack(3), &[0xAA, 0x07]).unwrap();
    let trx = stack.transceiver();
    assert_eq!(trx.sent.len(), 2);
    assert_eq!(trx.now_ms, 260);
    assert_eq!(trx.events.len(), 5);
    assert!(matches!(trx.events[0], TrxRec::Sent(_)));
    assert!(matches!(trx.events[1], TrxRec::TimedOut));
    assert!(matches!(trx.events[2], TrxRec::Paused(200)));
    assert!(matches!(trx.events[3], TrxRec::Sent(_)));
    assert!(matches!(trx.events[4], TrxRec::Delivered(_)));
}

#[test]
fn acknowledged_unicast_exhausted() {
    let mut stack = Stack::new(MockTransceiver::new(vec![]), Address::Unicast(84));
    let r = stack.send_packet(Address::Unicast(42), Flags::Ack(3), &[0xAA, 0x07]);
    assert!(matches!(r, Err(TxError::AckTimeout)));
    let trx = stack.transceiver();
    assert_eq!(trx.sent.len(), 3);
    assert_eq!(trx.now_ms, 550);
    assert_eq!(trx.events.len(), 8);
    assert!(matches!(trx.events[7], TrxRec::TimedOut));
}

#[test]
fn foreign_frames_do_not_acknowledge() {
    let script = vec![
        TrxStep::Deliver(5, frame(7, Address::Unicast(84), Flags::NoFlags, &[1])),
        TrxStep::Deliver(30, ack_from_to(42, 84)),
    ];
    let mut stack = Stack::new(MockTransceiver::new(script), Address::Unicast(84));
    stack.send_packet(Address::Unicast(42), Flags::Ack(2), &[0x05]).unwrap();
    let trx = stack.transceiver();
    assert_eq!(trx.sent.len(), 1);
    assert_eq!(trx.events.len(), 3);
    assert!(matches!(trx.events[1], TrxRec::Delivered(_)));
    assert!(matches!(trx.events[2], TrxRec::Delivered(_)));
}

#[test]
fn oversized_payload_is_rejected() {
    let mut stack = Stack::new(MockTransceiver::new(vec![]), Address::Unicast(42));
    let data = [0u8; 62];
    let r = stack.send_packet(Address::Unicast(84), Flags::NoFlags, &data);
    assert!(matches!(r, Err(TxError::TrxError(TrxError::WrongPacketFormat))));
    assert_eq!(stack.transceiver().sent.len(), 0);
}

#[test]
fn send_failure_surfaces() {
    let mut trx = MockTransceiver::new(vec![]);
    trx.fail_send = true;
    let mut stack = Stack::new(trx, Address::Unicast(42));
    let r = stack.send_packet(Address::Unicast(84), Flags::NoFlags, &[0x01]);
    assert!(matches!(r, Err(TxError::TrxError(TrxError::Spi))));
}

#[test]
fn ack_requested_reply_is_sent() {
    let script = vec![TrxStep::Deliver(0, frame(84, Address::Unicast(42), Flags::Ack(2), &[9]))];
    let mut stack = Stack::new(MockTransceiver::new(script), Address::Unicast(42));
    let p = stack.receive_packet().unwrap();
    assert_eq!(p.src, Address::Unicast(84));
    assert_eq!(p.data_bytes(), &[9]);
    let trx = stack.transceiver();
    assert_eq!(trx.sent.len(), 1);
    let reply = &trx.sent[0];
    assert_eq!(reply.src, Address::Unicast(42));
    assert_eq!(reply.dst, Address::Unicast(84));
    assert_eq!(reply.flags, Flags::Ack(0));
    assert_eq!(reply.data_bytes().len(), 0);
    assert_eq!(trx.events.len(), 3);
    assert!(matches!(trx.events[0], TrxRec::Delivered(_)));
    assert!(matches!(trx.events[1], TrxRec::Paused(10)));
    assert!(matches!(trx.events[2], TrxRec::Sent(_)));
}

#[test]
fn ack_zero_gets_no_reply() {
    let script = vec![TrxStep::Deliver(0, frame(84, Address::Unicast(42), Flags::Ack(0), &[]))];
    let mut stack = Stack::new(MockTransceiver::new(script), Address::Unicast(42));
    let p = stack.receive_packet().unwrap();
    assert!(p.is_ack());
    assert_eq!(stack.transceiver().sent.len(), 0);
}

#[test]
fn plain_unicast_gets_no_reply() {
    let script = vec![TrxStep::Deliver(0, frame(84, Address::Unicast(42), Flags::NoFlags, &[7]))];
    let mut stack = Stack::new(MockTransceiver::new(script), Address::Unicast(42));
    let p = stack.receive_packet().unwrap();
    assert_eq!(p.data_bytes(), &[7]);
    assert_eq!(stack.transceiver().sent.len(), 0);
}

#[test]
fn broadcast_is_returned_and_never_acknowledged() {
    let script = vec![TrxStep::Deliver(0, frame(84, Address::Broadcast, Flags::Ack(3), &[1, 2]))];
    let mut stack = Stack::new(MockTransceiver::new(script), Address::Unicast(42));
    let p = stack.receive_packet().unwrap();
    assert_eq!(p.dst, Address::Broadcast);
    assert_eq!(stack.transceiver().sent.len(), 0);
    assert_eq!(stack.transceiver().events.len(), 1);
}

#[test]
fn cross_talk_is_dropped() {
    let script = vec![
        TrxStep::Deliver(0, frame(84, Address::Unicast(7), Flags::NoFlags, &[0xEE])),
        TrxStep::Deliver(1, frame(84, Address::Unicast(9), Flags::NoFlags, &[0xEF])),
        TrxStep::Deliver(2, frame(84, Address::Unicast(42), Flags::NoFlags, &[1, 2, 3])),
    ];
    let mut stack = Stack::new(MockTransceiver::new(script), Address::Unicast(42));
    let p = stack.receive_packet().unwrap();
    assert_eq!(p.dst, Address::Unicast(42));
    assert_eq!(p.data_bytes(), &[1, 2, 3]);
    let trx = stack.transceiver();
    assert_eq!(trx.sent.len(), 0);
    assert_eq!(trx.events.len(), 3);
}

#[test]
fn receive_propagates_transceiver_errors() {
    let script = vec![TrxStep::Fail(TrxError::Spi)];
    let mut stack = Stack::new(MockTransceiver::new(script), Address::Unicast(42));
    assert!(matches!(stack.receive_packet(), Err(TrxError::Spi)));
}

#[test]
fn mac_runs_over_the_phy_transceiver() {
    let reads = vec![vec![0x80], vec![0x08]];
    let rfm = Rfm69::new(MockHal::new(reads, false));
    let mut stack = Stack::new(rfm, Address::Unicast(42));
    stack.send_packet(Address::Unicast(84), Flags::NoFlags, &[0x55]).unwrap();
    let fifo: &[u8] = &[0x80, 0x04, 0x2A, 0x54, 0x00, 0x55];
    let log = &stack.transceiver().port().log;
    assert!(log.iter().any(|r| matches!(r, HalRec::SpiWrite(v) if v.as_slice() == fifo)));
}

#[test]
fn mac_receives_over_the_phy_transceiver() {
    let reads = vec![
        vec![0x04],
        vec![0x06],
        vec![0x54, 0x2A, 0x00, 0x01, 0x02, 0x03],
        vec![130],
    ];
    let rfm = Rfm69::new(MockHal::new(reads, false));
    let mut stack = Stack::new(rfm, Address::Unicast(42));
    let p = stack.receive_packet().unwrap();
    assert_eq!(p.src, Address::Unicast(84));
    assert_eq!(p.dst, Address::Unicast(42));
    assert_eq!(p.data_bytes(), &[1, 2, 3]);
    assert_eq!(p.rssi, Some(-65));
}

#[test]
fn mac_acknowledged_send_over_the_phy_transceiver() {
    let reads = vec![
        vec![0x80],
        vec![0x08],
        vec![0x04],
        vec![0x03],
        vec![0x54, 0x2A, 0x01],
        vec![130],
    ];
    let rfm = Rfm69::new(MockHal::new(reads, false));
    let mut stack = Stack::new(rfm, Address::Unicast(42));
    stack.send_packet(Address::Unicast(84), Flags::Ack(3), &[0x11]).unwrap();
    let log = &stack.transceiver().port().log;
    let fifo: &[u8] = &[0x80, 0x04, 0x2A, 0x54, 0x03, 0x11];
    assert!(log.iter().any(|r| matches!(r, HalRec::SpiWrite(v) if v.as_slice() == fifo)));
}
