//! PHY driver tests over a scripted hardware port: register encoders,
//! setter bytes, the send/receive transaction shapes, reset and the
//! error paths.

use rfm69_link::hal::RadioHal;
use rfm69_link::mock::{HalRec, MockHal};
use rfm69_link::registers::{
    ContinuousDagc, DataMode, DccCutoff, FifoMode, InterPacketRxDelay, IrqFlags1, IrqFlags2,
    LnaConfig, LnaGain, LnaImpedance, Modulation, ModulationShaping, ModulationType, OpMode,
    PacketConfig, PacketDc, PacketFiltering, PacketFormat, Register, RxBw, RxBwFreq, RxBwFsk,
    RxBwOok,
};
use rfm69_link::{low_power_lab_defaults, my_defaults, Address, Error, Flags, Packet, Rfm69};

fn is_write(r: &HalRec, bytes: &[u8]) -> bool {
    matches!(r, HalRec::SpiWrite(v) if v.as_slice() == bytes)
}

fn is_read(r: &HalRec, addr: u8, bytes: &[u8]) -> bool {
    matches!(r, HalRec::SpiRead(a, v) if *a == addr && v.as_slice() == bytes)
}

fn fresh(reads: Vec<Vec<u8>>) -> Rfm69<MockHal> {
    Rfm69::new(MockHal::new(reads, false))
}

#[test]
fn register_addresses() {
    assert_eq!(Register::Fifo.addr(), 0x00);
    assert_eq!(Register::OpMode.addr(), 0x01);
    assert_eq!(Register::Version.addr(), 0x10);
    assert_eq!(Register::IrqFlags1.addr(), 0x27);
    assert_eq!(Register::IrqFlags2.addr(), 0x28);
    assert_eq!(Register::SyncConfig.addr(), 0x2E);
    assert_eq!(Register::TestDagc.addr(), 0x6F);
}

#[test]
fn register_encodings() {
    assert_eq!(OpMode::Sleep.value(), 0x00);
    assert_eq!(OpMode::Standby.value(), 0x04);
    assert_eq!(OpMode::FreqSyn.value(), 0x08);
    assert_eq!(OpMode::Tx.value(), 0x0C);
    assert_eq!(OpMode::Rx.value(), 0x10);
    assert_eq!(OpMode::ListenAbort.value(), 0x20);
    assert_eq!(OpMode::ListenOn.value(), 0x40);
    assert_eq!(OpMode::SequencerOff.value(), 0x80);
    assert_eq!(IrqFlags1::ModeReady.value(), 0x80);
    assert_eq!(IrqFlags1::Timeout.value(), 0x04);
    assert_eq!(IrqFlags2::PacketSent.value(), 0x08);
    assert_eq!(IrqFlags2::PayloadReady.value(), 0x04);
    assert_eq!(IrqFlags2::FifoOverrun.value(), 0x10);
    assert_eq!(RxBwFsk::Khz125dot0.value(), 0x02);
    assert_eq!(RxBwFsk::Khz500dot0.value(), 0x00);
    assert_eq!(RxBwFsk::Khz2dot6.value(), 0x17);
    assert_eq!(RxBwOok::Khz250dot0.value(), 0x00);
    assert_eq!(RxBwOok::Khz1dot3.value(), 0x17);
    let gfsk = Modulation {
        data_mode: DataMode::Packet,
        modulation_type: ModulationType::Fsk,
        shaping: ModulationShaping::Shaping10,
    };
    assert_eq!(gfsk.value(), 0x02);
    let ook = Modulation {
        data_mode: DataMode::Continuous,
        modulation_type: ModulationType::Ook,
        shaping: ModulationShaping::Shaping01,
    };
    assert_eq!(ook.value(), 0x49);
}

#[test]
fn bit_rate_register_math() {
    let mut rfm = fresh(vec![]);
    rfm.bit_rate(55_555).unwrap();
    rfm.bit_rate(100_000).unwrap();
    let log = &rfm.port().log;
    assert!(is_write(&log[0], &[0x83, 0x02, 0x40]));
    assert!(is_write(&log[1], &[0x83, 0x01, 0x40]));
}

#[test]
fn frequency_register_math() {
    let mut rfm = fresh(vec![]);
    rfm.frequency(433_000_000).unwrap();
    rfm.frequency(915_000_000).unwrap();
    let log = &rfm.port().log;
    assert!(is_write(&log[0], &[0x87, 0x6C, 0x40, 0x00]));
    assert!(is_write(&log[1], &[0x87, 0xE4, 0xC0, 0x00]));
}

#[test]
fn fdev_register_math() {
    let mut rfm = fresh(vec![]);
    rfm.fdev(50_000).unwrap();
    let log = &rfm.port().log;
    assert!(is_write(&log[0], &[0x85, 0x03, 0x33]));
}

#[test]
fn small_setters() {
    let mut rfm = fresh(vec![vec![0x0F], vec![0x0F], vec![0xFF]]);
    rfm.modulation(Modulation {
        data_mode: DataMode::Packet,
        modulation_type: ModulationType::Fsk,
        shaping: ModulationShaping::Shaping10,
    })
    .unwrap();
    rfm.rx_bw(RxBw { dcc_cutoff: DccCutoff::Percent4, rx_bw: RxBwFsk::Khz125dot0 }).unwrap();
    rfm.preamble_length(3).unwrap();
    rfm.rssi_threshold(220).unwrap();
    rfm.continuous_dagc(ContinuousDagc::ImprovedMarginAfcLowBetaOn0).unwrap();
    rfm.packet(PacketConfig {
        format: PacketFormat::Variable(66),
        dc: PacketDc::Off,
        crc: true,
        filtering: PacketFiltering::Off,
        interpacket_rx_delay: InterPacketRxDelay::Delay2Bits,
        auto_rx_restart: true,
    })
    .unwrap();
    rfm.fifo_mode(FifoMode::NotEmpty).unwrap();
    rfm.lna(LnaConfig { zin: LnaImpedance::Ohm200, gain_select: LnaGain::AgcLoop }).unwrap();
    let log = &rfm.port().log;
    assert!(is_write(&log[0], &[0x82, 0x02]));
    assert!(is_write(&log[1], &[0x99, 0x42]));
    assert!(is_write(&log[2], &[0xAC, 0x00, 0x03]));
    assert!(is_write(&log[3], &[0xA9, 0xDC]));
    assert!(is_write(&log[4], &[0xEF, 0x30]));
    assert!(is_write(&log[5], &[0xB7, 0x90, 0x42]));
    assert!(is_read(&log[6], 0x3D, &[0x0F]));
    assert!(is_write(&log[7], &[0xBD, 0x1F]));
    assert!(is_read(&log[8], 0x3C, &[0x0F]));
    assert!(is_write(&log[9], &[0xBC, 0x8F]));
    assert!(is_read(&log[10], 0x18, &[0xFF]));
    assert!(is_write(&log[11], &[0x98, 0xF8]));
    assert_eq!(log.len(), 12);
}

#[test]
fn sync_word_writes() {
    let mut rfm = fresh(vec![vec![0xC8]]);
    rfm.sync(&[0x2D, 0x42]).unwrap();
    rfm.sync(&[]).unwrap();
    assert!(matches!(rfm.sync(&[0u8; 9]), Err(Error::SyncSize)));
    let log = &rfm.port().log;
    assert!(is_write(&log[0], &[0xAE, 0x88]));
    assert!(is_write(&log[1], &[0xAF, 0x2D, 0x42]));
    assert!(is_read(&log[2], 0x2E, &[0xC8]));
    assert!(is_write(&log[3], &[0xAE, 0x48]));
    assert_eq!(log.len(), 4);
}

#[test]
fn reset_checks_version() {
    let mut rfm = fresh(vec![vec![0x24]]);
    rfm.reset().unwrap();
    assert!(matches!(rfm.mode, OpMode::Sleep));
    let log = &rfm.port().log;
    assert!(matches!(log[0], HalRec::ResetHigh));
    assert!(matches!(log[1], HalRec::DelayMs(10)));
    assert!(matches!(log[2], HalRec::ResetLow));
    assert!(matches!(log[3], HalRec::DelayMs(10)));
    assert!(is_read(&log[4], 0x10, &[0x24]));
    assert!(is_write(&log[5], &[0x81, 0x00]));
    assert_eq!(log.len(), 6);
}

#[test]
fn reset_rejects_strangers() {
    let mut rfm = fresh(vec![vec![0x99]]);
    assert!(matches!(rfm.reset(), Err(Error::VersionMismatch(0x99))));
}

#[test]
fn send_transaction_shape() {
    let mut rfm = fresh(vec![vec![0x80], vec![0x08]]);
    let p = Packet::new(
        Address::Unicast(42),
        Address::Unicast(84),
        Flags::NoFlags,
        &[0xAA, 0x01],
    )
    .unwrap();
    rfm.send(&p).unwrap();
    assert!(matches!(rfm.mode, OpMode::Standby));
    let log = &rfm.port().log;
    assert!(is_write(&log[0], &[0x81, 0x04]));
    assert!(matches!(log[1], HalRec::DelayMs(1)));
    assert!(is_read(&log[2], 0x27, &[0x80]));
    assert!(is_write(&log[3], &[0xA8, 0x10]));
    assert!(matches!(log[4], HalRec::DelayMs(1)));
    assert!(is_write(&log[5], &[0x80, 0x05, 0x2A, 0x54, 0x00, 0xAA, 0x01]));
    assert!(is_write(&log[6], &[0x81, 0x0C]));
    assert!(is_read(&log[7], 0x28, &[0x08]));
    assert!(is_write(&log[8], &[0x81, 0x04]));
    assert_eq!(log.len(), 9);
}

#[test]
fn send_polls_until_mode_ready() {
    let mut rfm = fresh(vec![vec![0x00], vec![0x80], vec![0x08]]);
    let p = Packet::new(Address::Unicast(1), Address::Unicast(2), Flags::NoFlags, &[]).unwrap();
    rfm.send(&p).unwrap();
    let log = &rfm.port().log;
    assert!(is_read(&log[2], 0x27, &[0x00]));
    assert!(matches!(log[3], HalRec::DelayMs(500)));
    assert!(is_read(&log[4], 0x27, &[0x80]));
    assert!(is_write(&log[7], &[0x80, 0x03, 0x01, 0x02, 0x00]));
}

#[test]
fn send_with_irq_line() {
    let mut rfm = Rfm69::new(MockHal::new(vec![vec![0x80]], true));
    let p = Packet::new(Address::Unicast(1), Address::Unicast(2), Flags::NoFlags, &[]).unwrap();
    rfm.send(&p).unwrap();
    let log = &rfm.port().log;
    assert!(is_write(&log[0], &[0xA5, 0x00]));
    assert!(is_write(&log[1], &[0x81, 0x04]));
    assert!(is_read(&log[3], 0x27, &[0x80]));
    assert!(is_write(&log[6], &[0x80, 0x03, 0x01, 0x02, 0x00]));
    assert!(is_write(&log[7], &[0x81, 0x0C]));
    assert!(matches!(log[8], HalRec::IrqWait));
    assert!(is_write(&log[9], &[0x81, 0x04]));
    assert_eq!(log.len(), 10);
}

#[test]
fn recv_transaction_shape() {
    let mut rfm = fresh(vec![
        vec![0x04],
        vec![0x06],
        vec![0x54, 0x2A, 0x00, 0x01, 0x02, 0x03],
        vec![130],
    ]);
    let p = rfm.recv().unwrap();
    assert_eq!(p.src, Address::Unicast(84));
    assert_eq!(p.dst, Address::Unicast(42));
    assert_eq!(p.flags, Flags::NoFlags);
    assert_eq!(p.data_bytes(), &[0x01, 0x02, 0x03]);
    assert_eq!(p.rssi, Some(-65));
    let log = &rfm.port().log;
    assert!(is_write(&log[0], &[0x81, 0x10]));
    assert!(is_read(&log[1], 0x28, &[0x04]));
    assert!(is_write(&log[2], &[0x81, 0x04]));
    assert!(is_read(&log[3], 0x00, &[0x06]));
    assert!(is_read(&log[4], 0x00, &[0x54, 0x2A, 0x00, 0x01, 0x02, 0x03]));
    assert!(is_read(&log[5], 0x24, &[130]));
    assert_eq!(log.len(), 6);
}

#[test]
fn recv_rejects_short_frames() {
    let mut rfm = fresh(vec![vec![0x04], vec![0x02], vec![0x54, 0x2A], vec![130]]);
    assert!(matches!(rfm.recv(), Err(Error::WrongPacketFormat)));
}

#[test]
fn recv_rejects_oversized_length() {
    let mut rfm = fresh(vec![vec![0x04], vec![65]]);
    assert!(matches!(rfm.recv(), Err(Error::WrongPacketFormat)));
}

#[test]
fn pin_and_bus_failures_surface() {
    let mut hal = MockHal::new(vec![], false);
    hal.fail_reset = true;
    let mut rfm = Rfm69::new(hal);
    assert!(matches!(rfm.reset(), Err(Error::Reset)));

    let mut hal = MockHal::new(vec![], false);
    hal.fail_spi = true;
    let mut rfm = Rfm69::new(hal);
    assert!(matches!(rfm.set_mode(OpMode::Standby), Err(Error::Spi)));

    let mut hal = MockHal::new(vec![vec![0x80]], true);
    hal.fail_irq = true;
    let mut rfm = Rfm69::new(hal);
    let p = Packet::new(Address::Unicast(1), Address::Unicast(2), Flags::NoFlags, &[]).unwrap();
    assert!(matches!(rfm.send(&p), Err(Error::Dio0)));
}

#[test]
fn status_helpers() {
    let mut rfm = fresh(vec![vec![0x80], vec![0x08], vec![0x04], vec![0x00]]);
    assert!(rfm.is_mode_ready().unwrap());
    assert!(rfm.is_packet_sent().unwrap());
    assert!(rfm.is_packet_ready().unwrap());
    assert!(!rfm.is_mode_ready().unwrap());
}

#[test]
fn read_all_regs_width() {
    let mut rfm = fresh(vec![vec![0x04, 0x02]]);
    let regs = rfm.read_all_regs().unwrap();
    assert_eq!(regs.len(), 0x4F);
    assert_eq!(regs[0], 0x04);
    assert_eq!(regs[1], 0x02);
    assert_eq!(regs[2], 0xFF);
}

fn preset_reads() -> Vec<Vec<u8>> {
    vec![vec![0x24], vec![0x0F], vec![0x0F], vec![0x0F]]
}

#[test]
fn my_defaults_register_script() {
    let rfm = Rfm69::new(MockHal::new(preset_reads(), false));
    let rfm = my_defaults(rfm, 0x2A, 433_000_000).unwrap();
    assert!(matches!(rfm.mode, OpMode::Sleep));
    let log = &rfm.port().log;
    assert!(matches!(log[0], HalRec::ResetHigh));
    assert!(matches!(log[1], HalRec::DelayMs(10)));
    assert!(matches!(log[2], HalRec::ResetLow));
    assert!(matches!(log[3], HalRec::DelayMs(10)));
    assert!(is_read(&log[4], 0x10, &[0x24]));
    assert!(is_write(&log[5], &[0x81, 0x00]));
    assert!(is_write(&log[6], &[0x81, 0x04]));
    assert!(is_write(&log[7], &[0x82, 0x02]));
    assert!(is_write(&log[8], &[0x83, 0x01, 0x40]));
    assert!(is_write(&log[9], &[0x85, 0x03, 0x33]));
    assert!(is_write(&log[10], &[0x99, 0x42]));
    assert!(is_write(&log[11], &[0xAC, 0x00, 0x03]));
    assert!(is_write(&log[12], &[0xAE, 0x88]));
    assert!(is_write(&log[13], &[0xAF, 0x2D, 0x2A]));
    assert!(is_write(&log[14], &[0xB7, 0x90, 0x42]));
    assert!(is_read(&log[15], 0x3D, &[0x0F]));
    assert!(is_write(&log[16], &[0xBD, 0x1F]));
    assert!(is_read(&log[17], 0x3C, &[0x0F]));
    assert!(is_write(&log[18], &[0xBC, 0x8F]));
    assert!(is_read(&log[19], 0x18, &[0x0F]));
    assert!(is_write(&log[20], &[0x98, 0x88]));
    assert!(is_write(&log[21], &[0xA9, 0xDC]));
    assert!(is_write(&log[22], &[0x87, 0x6C, 0x40, 0x00]));
    assert!(is_write(&log[23], &[0x81, 0x08]));
    assert!(is_write(&log[24], &[0xEF, 0x30]));
    assert!(is_write(&log[25], &[0x81, 0x00]));
    assert_eq!(log.len(), 26);
}

#[test]
fn low_power_lab_defaults_differ_only_in_rate_and_shaping() {
    let rfm = Rfm69::new(MockHal::new(preset_reads(), false));
    let rfm = low_power_lab_defaults(rfm, 0x64, 433_000_000).unwrap();
    let log = &rfm.port().log;
    assert!(is_write(&log[7], &[0x82, 0x00]));
    assert!(is_write(&log[8], &[0x83, 0x02, 0x40]));
    assert!(is_write(&log[13], &[0xAF, 0x2D, 0x64]));
    assert_eq!(log.len(), 26);
}
