//! Canonical register programmings for the RFM69.
//!
//! Both presets run the same script over the driver's setters: reset,
//! `Standby`, modulation, bitrate, deviation, bandwidth, a three-byte
//! preamble, the two-byte sync word `0x2D, network_id`, variable-length
//! packets of up to 66 bytes with CRC, FIFO transmission on not-empty,
//! a 200 Ohm LNA on its AGC loop, an RSSI threshold of 220, the carrier
//! frequency, and continuous DAGC — with a pass through `FreqSyn` after
//! the frequency registers, observed to be necessary for later PLL
//! locks, before the radio is put to sleep.

use vstd::prelude::*;

use crate::error::Error;
use crate::hal::{HalEvent, RadioHal};
use crate::registers::{
    ContinuousDagc, DataMode, DccCutoff, FifoMode, InterPacketRxDelay, LnaConfig, LnaGain,
    LnaImpedance, Modulation, ModulationShaping, ModulationType, OpMode, PacketConfig, PacketDc,
    PacketFiltering, PacketFormat, Register, RxBw, RxBwFreq, RxBwFsk,
};
use crate::rfm::{
    be16, be24, burst_write, reg_read, reg_write, spec_bitrate_reg, spec_fdev_reg, spec_frf_reg,
    spec_packet_config1, spec_packet_config2, spec_version_check, Rfm69,
};

verus! {

/// The packet-engine settings both presets program.
pub open spec fn preset_packet_config() -> PacketConfig {
    PacketConfig {
        format: PacketFormat::Variable(66),
        dc: PacketDc::Off,
        crc: true,
        filtering: PacketFiltering::Off,
        interpacket_rx_delay: InterPacketRxDelay::Delay2Bits,
        auto_rx_restart: true,
    }
}

/// The complete transaction trace of one preset run. The three read
/// bytes `c_pkt`, `c_fifo` and `c_lna` are what the read-modify-write
/// updates of `PacketConfig2`, `FifoThresh` and `Lna` found in those
/// registers.
pub open spec fn preset_trace(
    network_id: u8,
    frequency: u32,
    modul: Modulation,
    bit_rate: u32,
    c_pkt: u8,
    c_fifo: u8,
    c_lna: u8,
) -> Seq<HalEvent> {
    seq![
        HalEvent::ResetHigh,
        HalEvent::DelayMs(10),
        HalEvent::ResetLow,
        HalEvent::DelayMs(10),
        reg_read(Register::Version, spec_version_check()),
        reg_write(Register::OpMode, OpMode::Sleep.spec_value()),
        reg_write(Register::OpMode, OpMode::Standby.spec_value()),
        reg_write(Register::DataModul, modul.spec_value()),
        burst_write(Register::BitrateMsb, be16(spec_bitrate_reg(bit_rate))),
        burst_write(Register::FdevMsb, be16(spec_fdev_reg(50_000))),
        reg_write(
            Register::RxBw,
            DccCutoff::Percent4.spec_value() | RxBwFsk::Khz125dot0.spec_value(),
        ),
        burst_write(Register::PreambleMsb, be16(3)),
        reg_write(Register::SyncConfig, 0x80u8 | (1u8 << 3)),
        burst_write(Register::SyncValue1, seq![0x2du8, network_id]),
        burst_write(
            Register::PacketConfig1,
            seq![spec_packet_config1(preset_packet_config()), 66u8],
        ),
        reg_read(Register::PacketConfig2, c_pkt),
        reg_write(
            Register::PacketConfig2,
            (c_pkt & 0x0d) | spec_packet_config2(preset_packet_config()),
        ),
        reg_read(Register::FifoThresh, c_fifo),
        reg_write(Register::FifoThresh, c_fifo | 0x80),
        reg_read(Register::Lna, c_lna),
        reg_write(
            Register::Lna,
            (c_lna & 0x78) | (LnaImpedance::Ohm200.spec_value() | LnaGain::AgcLoop.spec_value()),
        ),
        reg_write(Register::RssiThresh, 220),
        burst_write(Register::FrfMsb, be24(spec_frf_reg(frequency))),
        reg_write(Register::OpMode, OpMode::FreqSyn.spec_value()),
        reg_write(Register::TestDagc, ContinuousDagc::ImprovedMarginAfcLowBetaOn0.spec_value()),
        reg_write(Register::OpMode, OpMode::Sleep.spec_value()),
    ]
}

/// Runs the shared preset script with the given modulation and bitrate.
fn preset_with<H: RadioHal>(
    rfm: Rfm69<H>,
    network_id: u8,
    frequency: u32,
    modul: Modulation,
    bit_rate: u32,
) -> (r: Result<Rfm69<H>, Error>)
    requires
        bit_rate >= 1,
    ensures
        r matches Ok(radio) ==> radio.cached_mode() == OpMode::Sleep && radio.hal_has_irq()
            == rfm.hal_has_irq() && radio.trx_hist() == rfm.trx_hist() && radio.hal_fuel()
            <= rfm.hal_fuel() && exists|c_pkt: u8, c_fifo: u8, c_lna: u8|
            radio.hal_hist() == rfm.hal_hist() + #[trigger] preset_trace(
                network_id,
                frequency,
                modul,
                bit_rate,
                c_pkt,
                c_fifo,
                c_lna,
            ),
        r matches Err(e) ==> (e is Reset || e is Spi || e is VersionMismatch),
{
    let mut rfm = rfm;
    let ghost h0 = rfm.hal_hist();
    match rfm.reset() {
        Ok(()) => (),
        Err(e) => {
            return Err(e);
        },
    }
    match rfm.set_mode(OpMode::Standby) {
        Ok(()) => (),
        Err(e) => {
            return Err(e);
        },
    }
    match rfm.modulation(modul) {
        Ok(()) => (),
        Err(e) => {
            return Err(e);
        },
    }
    match rfm.bit_rate(bit_rate) {
        Ok(()) => (),
        Err(e) => {
            return Err(e);
        },
    }
    match rfm.fdev(50_000) {
        Ok(()) => (),
        Err(e) => {
            return Err(e);
        },
    }
    match rfm.rx_bw(RxBw { dcc_cutoff: DccCutoff::Percent4, rx_bw: RxBwFsk::Khz125dot0 }) {
        Ok(()) => (),
        Err(e) => {
            return Err(e);
        },
    }
    match rfm.preamble_length(3) {
        Ok(()) => (),
        Err(e) => {
            return Err(e);
        },
    }
    let mut sync_word: Vec<u8> = Vec::new();
    sync_word.push(0x2d);
    sync_word.push(network_id);
    proof {
        assert(sync_word@ =~= seq![0x2du8, network_id]);
    }
    match rfm.sync(sync_word.as_slice()) {
        Ok(()) => (),
        Err(e) => {
            return Err(e);
        },
    }
    let ghost h_pkt = rfm.hal_hist();
    match rfm.packet(
        PacketConfig {
            format: PacketFormat::Variable(66),
            dc: PacketDc::Off,
            crc: true,
            filtering: PacketFiltering::Off,
            interpacket_rx_delay: InterPacketRxDelay::Delay2Bits,
            auto_rx_restart: true,
        },
    ) {
        Ok(()) => (),
        Err(e) => {
            return Err(e);
        },
    }
    let ghost c_pkt = choose|c: u8|
        rfm.hal_hist() == h_pkt.push(
            burst_write(
                Register::PacketConfig1,
                seq![spec_packet_config1(preset_packet_config()), 66u8],
            ),
        ).push(#[trigger] reg_read(Register::PacketConfig2, c)).push(
            reg_write(
                Register::PacketConfig2,
                (c & 0x0d) | spec_packet_config2(preset_packet_config()),
            ),
        );
    let ghost h_fifo = rfm.hal_hist();
    match rfm.fifo_mode(FifoMode::NotEmpty) {
        Ok(()) => (),
        Err(e) => {
            return Err(e);
        },
    }
    let ghost c_fifo = choose|c: u8|
        rfm.hal_hist() == h_fifo.push(#[trigger] reg_read(Register::FifoThresh, c)).push(
            reg_write(Register::FifoThresh, c | 0x80),
        );
    let ghost h_lna = rfm.hal_hist();
    match rfm.lna(LnaConfig { zin: LnaImpedance::Ohm200, gain_select: LnaGain::AgcLoop }) {
        Ok(()) => (),
        Err(e) => {
            return Err(e);
        },
    }
    let ghost c_lna = choose|c: u8|
        rfm.hal_hist() == h_lna.push(#[trigger] reg_read(Register::Lna, c)).push(
            reg_write(
                Register::Lna,
                (c & 0x78) | (LnaImpedance::Ohm200.spec_value() | LnaGain::AgcLoop.spec_value()),
            ),
        );
    match rfm.rssi_threshold(220) {
        Ok(()) => (),
        Err(e) => {
            return Err(e);
        },
    }
    match rfm.frequency(frequency) {
        Ok(()) => (),
        Err(e) => {
            return Err(e);
        },
    }
    match rfm.set_mode(OpMode::FreqSyn) {
        Ok(()) => (),
        Err(e) => {
            return Err(e);
        },
    }
    match rfm.continuous_dagc(ContinuousDagc::ImprovedMarginAfcLowBetaOn0) {
        Ok(()) => (),
        Err(e) => {
            return Err(e);
        },
    }
    match rfm.set_mode(OpMode::Sleep) {
        Ok(()) => (),
        Err(e) => {
            return Err(e);
        },
    }
    proof {
        assert(rfm.hal_hist() =~= h0 + preset_trace(
            network_id,
            frequency,
            modul,
            bit_rate,
            c_pkt,
            c_fifo,
            c_lna,
        ));
    }
    Ok(rfm)
}

/// Configuration compatible with the LowPowerLab radio protocol: FSK
/// without shaping at 55,555 bit/s with 50 kHz deviation.
pub fn low_power_lab_defaults<H: RadioHal>(rfm: Rfm69<H>, network_id: u8, frequency: u32) -> (r:
    Result<Rfm69<H>, Error>)
    ensures
        r matches Ok(radio) ==> radio.cached_mode() == OpMode::Sleep && radio.hal_has_irq()
            == rfm.hal_has_irq() && radio.trx_hist() == rfm.trx_hist() && radio.hal_fuel()
            <= rfm.hal_fuel() && exists|c_pkt: u8, c_fifo: u8, c_lna: u8|
            radio.hal_hist() == rfm.hal_hist() + #[trigger] preset_trace(
                network_id,
                frequency,
                (Modulation {
                    data_mode: DataMode::Packet,
                    modulation_type: ModulationType::Fsk,
                    shaping: ModulationShaping::Shaping00,
                }),
                55_555,
                c_pkt,
                c_fifo,
                c_lna,
            ),
        r matches Err(e) ==> (e is Reset || e is Spi || e is VersionMismatch),
{
    preset_with(
        rfm,
        network_id,
        frequency,
        Modulation {
            data_mode: DataMode::Packet,
            modulation_type: ModulationType::Fsk,
            shaping: ModulationShaping::Shaping00,
        },
        55_555,
    )
}

/// Custom configuration: GFSK (BT 0.5) at 100,000 bit/s with 50 kHz
/// deviation, to spend less bandwidth than the LowPowerLab settings.
pub fn my_defaults<H: RadioHal>(rfm: Rfm69<H>, network_id: u8, frequency: u32) -> (r: Result<
    Rfm69<H>,
    Error,
>)
    ensures
        r matches Ok(radio) ==> radio.cached_mode() == OpMode::Sleep && radio.hal_has_irq()
            == rfm.hal_has_irq() && radio.trx_hist() == rfm.trx_hist() && radio.hal_fuel()
            <= rfm.hal_fuel() && exists|c_pkt: u8, c_fifo: u8, c_lna: u8|
            radio.hal_hist() == rfm.hal_hist() + #[trigger] preset_trace(
                network_id,
                frequency,
                (Modulation {
                    data_mode: DataMode::Packet,
                    modulation_type: ModulationType::Fsk,
                    shaping: ModulationShaping::Shaping10,
                }),
                100_000,
                c_pkt,
                c_fifo,
                c_lna,
            ),
        r matches Err(e) ==> (e is Reset || e is Spi || e is VersionMismatch),
{
    preset_with(
        rfm,
        network_id,
        frequency,
        Modulation {
            data_mode: DataMode::Packet,
            modulation_type: ModulationType::Fsk,
            shaping: ModulationShaping::Shaping10,
        },
        100_000,
    )
}

} // verus!
