//! Register addresses and content encodings for the RFM69.
//!
//! The rest of the driver speaks exclusively in these symbolic names; each
//! carrier type encodes itself into its register byte through a `value`
//! (or `addr`) method whose result is pinned by a spec twin, so contracts
//! further up can state exactly which bytes reach the radio.

use vstd::prelude::*;

verus! {

/// RFM69 register addresses (the 7-bit address, before the SPI
/// read/write bit is applied).
#[derive(Debug, Clone, Copy, PartialEq, Eq, Structural)]
pub enum Register {
    Fifo,
    OpMode,
    DataModul,
    BitrateMsb,
    BitrateLsb,
    FdevMsb,
    FdevLsb,
    FrfMsb,
    FrfMid,
    FrfLsb,
    Version,
    Lna,
    RxBw,
    RssiValue,
    DioMapping1,
    DioMapping2,
    IrqFlags1,
    IrqFlags2,
    RssiThresh,
    PreambleMsb,
    PreambleLsb,
    SyncConfig,
    SyncValue1,
    PacketConfig1,
    FifoThresh,
    PacketConfig2,
    TestDagc,
}

impl Register {
    /// The 7-bit address of the register.
    pub open spec fn spec_addr(self) -> u8 {
        match self {
            Register::Fifo => 0x00,
            Register::OpMode => 0x01,
            Register::DataModul => 0x02,
            Register::BitrateMsb => 0x03,
            Register::BitrateLsb => 0x04,
            Register::FdevMsb => 0x05,
            Register::FdevLsb => 0x06,
            Register::FrfMsb => 0x07,
            Register::FrfMid => 0x08,
            Register::FrfLsb => 0x09,
            Register::Version => 0x10,
            Register::Lna => 0x18,
            Register::RxBw => 0x19,
            Register::RssiValue => 0x24,
            Register::DioMapping1 => 0x25,
            Register::DioMapping2 => 0x26,
            Register::IrqFlags1 => 0x27,
            Register::IrqFlags2 => 0x28,
            Register::RssiThresh => 0x29,
            Register::PreambleMsb => 0x2C,
            Register::PreambleLsb => 0x2D,
            Register::SyncConfig => 0x2E,
            Register::SyncValue1 => 0x2F,
            Register::PacketConfig1 => 0x37,
            Register::FifoThresh => 0x3C,
            Register::PacketConfig2 => 0x3D,
            Register::TestDagc => 0x6F,
        }
    }

    /// Returns the 7-bit address of the register.
    #[verifier::when_used_as_spec(spec_addr)]
    pub fn addr(self) -> (r: u8)
        ensures
            r == self.spec_addr(),
    {
        match self {
            Register::Fifo => 0x00,
            Register::OpMode => 0x01,
            Register::DataModul => 0x02,
            Register::BitrateMsb => 0x03,
            Register::BitrateLsb => 0x04,
            Register::FdevMsb => 0x05,
            Register::FdevLsb => 0x06,
            Register::FrfMsb => 0x07,
            Register::FrfMid => 0x08,
            Register::FrfLsb => 0x09,
            Register::Version => 0x10,
            Register::Lna => 0x18,
            Register::RxBw => 0x19,
            Register::RssiValue => 0x24,
            Register::DioMapping1 => 0x25,
            Register::DioMapping2 => 0x26,
            Register::IrqFlags1 => 0x27,
            Register::IrqFlags2 => 0x28,
            Register::RssiThresh => 0x29,
            Register::PreambleMsb => 0x2C,
            Register::PreambleLsb => 0x2D,
            Register::SyncConfig => 0x2E,
            Register::SyncValue1 => 0x2F,
            Register::PacketConfig1 => 0x37,
            Register::FifoThresh => 0x3C,
            Register::PacketConfig2 => 0x3D,
            Register::TestDagc => 0x6F,
        }
    }
}

/// Operating modes of the radio and their `OpMode` register encodings.
#[derive(Debug, Clone, Copy, PartialEq, Eq, Structural)]
pub enum OpMode {
    SequencerOff,
    ListenOn,
    ListenAbort,
    Rx,
    Tx,
    FreqSyn,
    Standby,
    Sleep,
}

impl OpMode {
    /// The `OpMode` register byte for this mode.
    pub open spec fn spec_value(self) -> u8 {
        match self {
            OpMode::SequencerOff => 0x80,
            OpMode::ListenOn => 0x40,
            OpMode::ListenAbort => 0x20,
            OpMode::Rx => 0x10,
            OpMode::Tx => 0x0c,
            OpMode::FreqSyn => 0x08,
            OpMode::Standby => 0x04,
            OpMode::Sleep => 0x00,
        }
    }

    /// Returns the `OpMode` register byte for this mode.
    #[verifier::when_used_as_spec(spec_value)]
    pub fn value(self) -> (r: u8)
        ensures
            r == self.spec_value(),
    {
        match self {
            OpMode::SequencerOff => 0x80,
            OpMode::ListenOn => 0x40,
            OpMode::ListenAbort => 0x20,
            OpMode::Rx => 0x10,
            OpMode::Tx => 0x0c,
            OpMode::FreqSyn => 0x08,
            OpMode::Standby => 0x04,
            OpMode::Sleep => 0x00,
        }
    }
}

/// Contents of the `DataModul` register: data mode, modulation type and
/// shaping, OR'd together.
#[derive(Debug, Clone, Copy)]
pub struct Modulation {
    pub data_mode: DataMode,
    pub modulation_type: ModulationType,
    pub shaping: ModulationShaping,
}

impl Modulation {
    /// The `DataModul` register byte for this modulation.
    pub open spec fn spec_value(self) -> u8 {
        self.data_mode.spec_value() | self.modulation_type.spec_value()
            | self.shaping.spec_value()
    }

    /// Returns the `DataModul` register byte for this modulation.
    #[verifier::when_used_as_spec(spec_value)]
    pub fn value(self) -> (r: u8)
        ensures
            r == self.spec_value(),
    {
        self.data_mode.value() | self.modulation_type.value() | self.shaping.value()
    }
}

/// Data-mode bits of `DataModul`.
#[derive(Debug, Clone, Copy)]
pub enum DataMode {
    Packet,
    Continuous,
    ContinuousBitSync,
}

impl DataMode {
    /// The bits this data mode contributes to `DataModul`.
    pub open spec fn spec_value(self) -> u8 {
        match self {
            DataMode::Packet => 0x00,
            DataMode::Continuous => 0x40,
            DataMode::ContinuousBitSync => 0x60,
        }
    }

    /// Returns the bits this data mode contributes to `DataModul`.
    #[verifier::when_used_as_spec(spec_value)]
    pub fn value(self) -> (r: u8)
        ensures
            r == self.spec_value(),
    {
        match self {
            DataMode::Packet => 0x00,
            DataMode::Continuous => 0x40,
            DataMode::ContinuousBitSync => 0x60,
        }
    }
}

/// Modulation-type bits of `DataModul`.
#[derive(Debug, Clone, Copy)]
pub enum ModulationType {
    Fsk,
    Ook,
}

impl ModulationType {
    /// The bits this modulation type contributes to `DataModul`.
    pub open spec fn spec_value(self) -> u8 {
        match self {
            ModulationType::Fsk => 0x00,
            ModulationType::Ook => 0x08,
        }
    }

    /// Returns the bits this modulation type contributes to `DataModul`.
    #[verifier::when_used_as_spec(spec_value)]
    pub fn value(self) -> (r: u8)
        ensures
            r == self.spec_value(),
    {
        match self {
            ModulationType::Fsk => 0x00,
            ModulationType::Ook => 0x08,
        }
    }
}

/// Shaping bits of `DataModul` (the low two bits).
#[derive(Debug, Clone, Copy)]
pub enum ModulationShaping {
    Shaping00,
    Shaping01,
    Shaping10,
    Shaping11,
}

impl ModulationShaping {
    /// The shaping bits this variant contributes to `DataModul`.
    pub open spec fn spec_value(self) -> u8 {
        match self {
            ModulationShaping::Shaping00 => 0x00,
            ModulationShaping::Shaping01 => 0x01,
            ModulationShaping::Shaping10 => 0x02,
            ModulationShaping::Shaping11 => 0x03,
        }
    }

    /// Returns the shaping bits this variant contributes to `DataModul`.
    #[verifier::when_used_as_spec(spec_value)]
    pub fn value(self) -> (r: u8)
        ensures
            r == self.spec_value(),
    {
        match self {
            ModulationShaping::Shaping00 => 0x00,
            ModulationShaping::Shaping01 => 0x01,
            ModulationShaping::Shaping10 => 0x02,
            ModulationShaping::Shaping11 => 0x03,
        }
    }
}

/// `FifoThresh` start-condition choice: transmission starts when the FIFO
/// is not empty, or when it reaches a given level.
#[derive(Debug, Clone, Copy)]
pub enum FifoMode {
    NotEmpty,
    Level(u8),
}

/// Inter-packet RX delay choices of `PacketConfig2` (high nibble).
#[derive(Debug, Clone, Copy)]
pub enum InterPacketRxDelay {
    Delay1Bit,
    Delay2Bits,
    Delay4Bits,
    Delay8Bits,
    Delay16Bits,
    Delay32Bits,
    Delay64Bits,
    Delay128Bits,
    Delay256Bits,
    Delay512Bits,
    Delay1024Bits,
    Delay2048Bits,
}

impl InterPacketRxDelay {
    /// The bits this delay contributes to `PacketConfig2`.
    pub open spec fn spec_value(self) -> u8 {
        match self {
            InterPacketRxDelay::Delay1Bit => 0x00,
            InterPacketRxDelay::Delay2Bits => 0x10,
            InterPacketRxDelay::Delay4Bits => 0x20,
            InterPacketRxDelay::Delay8Bits => 0x30,
            InterPacketRxDelay::Delay16Bits => 0x40,
            InterPacketRxDelay::Delay32Bits => 0x50,
            InterPacketRxDelay::Delay64Bits => 0x60,
            InterPacketRxDelay::Delay128Bits => 0x70,
            InterPacketRxDelay::Delay256Bits => 0x80,
            InterPacketRxDelay::Delay512Bits => 0x90,
            InterPacketRxDelay::Delay1024Bits => 0xA0,
            InterPacketRxDelay::Delay2048Bits => 0xB0,
        }
    }

    /// Returns the bits this delay contributes to `PacketConfig2`.
    #[verifier::when_used_as_spec(spec_value)]
    pub fn value(self) -> (r: u8)
        ensures
            r == self.spec_value(),
    {
        match self {
            InterPacketRxDelay::Delay1Bit => 0x00,
            InterPacketRxDelay::Delay2Bits => 0x10,
            InterPacketRxDelay::Delay4Bits => 0x20,
            InterPacketRxDelay::Delay8Bits => 0x30,
            InterPacketRxDelay::Delay16Bits => 0x40,
            InterPacketRxDelay::Delay32Bits => 0x50,
            InterPacketRxDelay::Delay64Bits => 0x60,
            InterPacketRxDelay::Delay128Bits => 0x70,
            InterPacketRxDelay::Delay256Bits => 0x80,
            InterPacketRxDelay::Delay512Bits => 0x90,
            InterPacketRxDelay::Delay1024Bits => 0xA0,
            InterPacketRxDelay::Delay2048Bits => 0xB0,
        }
    }
}

/// DC-free encoding bits of `PacketConfig1`.
#[derive(Debug, Clone, Copy)]
pub enum PacketDc {
    Off,
    Manchester,
    Whitening,
}

impl PacketDc {
    /// The bits this encoding contributes to `PacketConfig1`.
    pub open spec fn spec_value(self) -> u8 {
        match self {
            PacketDc::Off => 0x00,
            PacketDc::Manchester => 0x20,
            PacketDc::Whitening => 0x40,
        }
    }

    /// Returns the bits this encoding contributes to `PacketConfig1`.
    #[verifier::when_used_as_spec(spec_value)]
    pub fn value(self) -> (r: u8)
        ensures
            r == self.spec_value(),
    {
        match self {
            PacketDc::Off => 0x00,
            PacketDc::Manchester => 0x20,
            PacketDc::Whitening => 0x40,
        }
    }
}

/// Address-filtering bits of `PacketConfig1`.
#[derive(Debug, Clone, Copy)]
pub enum PacketFiltering {
    Off,
    Address,
    Broadcast,
}

impl PacketFiltering {
    /// The bits this filtering choice contributes to `PacketConfig1`.
    pub open spec fn spec_value(self) -> u8 {
        match self {
            PacketFiltering::Off => 0x00,
            PacketFiltering::Address => 0x02,
            PacketFiltering::Broadcast => 0x04,
        }
    }

    /// Returns the bits this filtering choice contributes to `PacketConfig1`.
    #[verifier::when_used_as_spec(spec_value)]
    pub fn value(self) -> (r: u8)
        ensures
            r == self.spec_value(),
    {
        match self {
            PacketFiltering::Off => 0x00,
            PacketFiltering::Address => 0x02,
            PacketFiltering::Broadcast => 0x04,
        }
    }
}

/// Packet length format: fixed or variable, with the length byte to
/// program into `PayloadLength`.
#[derive(Debug, Clone, Copy)]
pub enum PacketFormat {
    Variable(u8),
    Fixed(u8),
}

/// The packet-engine settings programmed into `PacketConfig1`,
/// `PayloadLength` and `PacketConfig2`.
#[derive(Debug, Clone, Copy)]
pub struct PacketConfig {
    pub format: PacketFormat,
    pub dc: PacketDc,
    pub crc: bool,
    pub filtering: PacketFiltering,
    pub interpacket_rx_delay: InterPacketRxDelay,
    pub auto_rx_restart: bool,
}

/// Contents of the `Lna` register: input impedance and gain selection.
#[derive(Debug, Clone, Copy)]
pub struct LnaConfig {
    pub zin: LnaImpedance,
    pub gain_select: LnaGain,
}

/// LNA input impedance bits.
#[derive(Debug, Clone, Copy)]
pub enum LnaImpedance {
    Ohm50,
    Ohm200,
}

impl LnaImpedance {
    /// The bits this impedance contributes to `Lna`.
    pub open spec fn spec_value(self) -> u8 {
        match self {
            LnaImpedance::Ohm50 => 0x00,
            LnaImpedance::Ohm200 => 0x80,
        }
    }

    /// Returns the bits this impedance contributes to `Lna`.
    #[verifier::when_used_as_spec(spec_value)]
    pub fn value(self) -> (r: u8)
        ensures
            r == self.spec_value(),
    {
        match self {
            LnaImpedance::Ohm50 => 0x00,
            LnaImpedance::Ohm200 => 0x80,
        }
    }
}

/// LNA gain-select bits.
#[derive(Debug, Clone, Copy)]
pub enum LnaGain {
    AgcLoop,
    G1,
    G2,
    G3,
    G4,
    G5,
    G6,
}

impl LnaGain {
    /// The bits this gain selection contributes to `Lna`.
    pub open spec fn spec_value(self) -> u8 {
        match self {
            LnaGain::AgcLoop => 0x00,
            LnaGain::G1 => 0x01,
            LnaGain::G2 => 0x02,
            LnaGain::G3 => 0x03,
            LnaGain::G4 => 0x04,
            LnaGain::G5 => 0x05,
            LnaGain::G6 => 0x06,
        }
    }

    /// Returns the bits this gain selection contributes to `Lna`.
    #[verifier::when_used_as_spec(spec_value)]
    pub fn value(self) -> (r: u8)
        ensures
            r == self.spec_value(),
    {
        match self {
            LnaGain::AgcLoop => 0x00,
            LnaGain::G1 => 0x01,
            LnaGain::G2 => 0x02,
            LnaGain::G3 => 0x03,
            LnaGain::G4 => 0x04,
            LnaGain::G5 => 0x05,
            LnaGain::G6 => 0x06,
        }
    }
}

/// Continuous-DAGC choices for the `TestDagc` register.
#[derive(Debug, Clone, Copy)]
pub enum ContinuousDagc {
    Normal,
    ImprovedMarginAfcLowBetaOn1,
    ImprovedMarginAfcLowBetaOn0,
}

impl ContinuousDagc {
    /// The `TestDagc` register byte for this choice.
    pub open spec fn spec_value(self) -> u8 {
        match self {
            ContinuousDagc::Normal => 0x00,
            ContinuousDagc::ImprovedMarginAfcLowBetaOn1 => 0x20,
            ContinuousDagc::ImprovedMarginAfcLowBetaOn0 => 0x30,
        }
    }

    /// Returns the `TestDagc` register byte for this choice.
    #[verifier::when_used_as_spec(spec_value)]
    pub fn value(self) -> (r: u8)
        ensures
            r == self.spec_value(),
    {
        match self {
            ContinuousDagc::Normal => 0x00,
            ContinuousDagc::ImprovedMarginAfcLowBetaOn1 => 0x20,
            ContinuousDagc::ImprovedMarginAfcLowBetaOn0 => 0x30,
        }
    }
}

/// Contents of the `RxBw` register: a DCC cutoff in the high bits OR'd
/// with a modulation-specific bandwidth code.
pub struct RxBw<T> where T: RxBwFreq {
    pub dcc_cutoff: DccCutoff,
    pub rx_bw: T,
}

/// DC-cancellation cutoff choices of `RxBw` (high three bits).
#[derive(Debug, Clone, Copy)]
pub enum DccCutoff {
    Percent16,
    Percent8,
    Percent4,
    Percent2,
    Percent1,
    Percent0dot5,
    Percent0dot25,
    Percent0dot125,
}

impl DccCutoff {
    /// The bits this cutoff contributes to `RxBw`.
    pub open spec fn spec_value(self) -> u8 {
        match self {
            DccCutoff::Percent16 => 0x00,
            DccCutoff::Percent8 => 0x20,
            DccCutoff::Percent4 => 0x40,
            DccCutoff::Percent2 => 0x60,
            DccCutoff::Percent1 => 0x80,
            DccCutoff::Percent0dot5 => 0xA0,
            DccCutoff::Percent0dot25 => 0xC0,
            DccCutoff::Percent0dot125 => 0xE0,
        }
    }

    /// Returns the bits this cutoff contributes to `RxBw`.
    #[verifier::when_used_as_spec(spec_value)]
    pub fn value(self) -> (r: u8)
        ensures
            r == self.spec_value(),
    {
        match self {
            DccCutoff::Percent16 => 0x00,
            DccCutoff::Percent8 => 0x20,
            DccCutoff::Percent4 => 0x40,
            DccCutoff::Percent2 => 0x60,
            DccCutoff::Percent1 => 0x80,
            DccCutoff::Percent0dot5 => 0xA0,
            DccCutoff::Percent0dot25 => 0xC0,
            DccCutoff::Percent0dot125 => 0xE0,
        }
    }
}

/// A bandwidth table usable in the low five bits of `RxBw`.
pub trait RxBwFreq: Sized {
    /// The 5-bit bandwidth code of this entry.
    spec fn spec_value(&self) -> u8;

    /// Returns the 5-bit bandwidth code of this entry.
    fn value(&self) -> (r: u8)
        ensures
            r == self.spec_value(),
    ;
}

/// Receiver bandwidths available with FSK modulation.
#[derive(Debug, Clone, Copy)]
pub enum RxBwFsk {
    Khz2dot6,
    Khz3dot1,
    Khz3dot9,
    Khz5dot2,
    Khz6dot3,
    Khz7dot8,
    Khz10dot4,
    Khz12dot5,
    Khz15dot6,
    Khz20dot8,
    Khz25dot0,
    Khz31dot3,
    Khz41dot7,
    Khz50dot0,
    Khz62dot5,
    Khz83dot3,
    Khz100dot0,
    Khz125dot0,
    Khz166dot7,
    Khz200dot0,
    Khz250dot0,
    Khz333dot3,
    Khz400dot0,
    Khz500dot0,
}

impl RxBwFreq for RxBwFsk {
    open spec fn spec_value(&self) -> u8 {
        match self {
            RxBwFsk::Khz2dot6 => 0x17,
            RxBwFsk::Khz3dot1 => 0x0f,
            RxBwFsk::Khz3dot9 => 0x07,
            RxBwFsk::Khz5dot2 => 0x16,
            RxBwFsk::Khz6dot3 => 0x0e,
            RxBwFsk::Khz7dot8 => 0x06,
            RxBwFsk::Khz10dot4 => 0x15,
            RxBwFsk::Khz12dot5 => 0x0d,
            RxBwFsk::Khz15dot6 => 0x05,
            RxBwFsk::Khz20dot8 => 0x14,
            RxBwFsk::Khz25dot0 => 0x0c,
            RxBwFsk::Khz31dot3 => 0x04,
            RxBwFsk::Khz41dot7 => 0x13,
            RxBwFsk::Khz50dot0 => 0x0b,
            RxBwFsk::Khz62dot5 => 0x03,
            RxBwFsk::Khz83dot3 => 0x12,
            RxBwFsk::Khz100dot0 => 0x0a,
            RxBwFsk::Khz125dot0 => 0x02,
            RxBwFsk::Khz166dot7 => 0x11,
            RxBwFsk::Khz200dot0 => 0x09,
            RxBwFsk::Khz250dot0 => 0x01,
            RxBwFsk::Khz333dot3 => 0x10,
            RxBwFsk::Khz400dot0 => 0x08,
            RxBwFsk::Khz500dot0 => 0x00,
        }
    }

    fn value(&self) -> (r: u8)
    {
        match self {
            RxBwFsk::Khz2dot6 => 0x17,
            RxBwFsk::Khz3dot1 => 0x0f,
            RxBwFsk::Khz3dot9 => 0x07,
            RxBwFsk::Khz5dot2 => 0x16,
            RxBwFsk::Khz6dot3 => 0x0e,
            RxBwFsk::Khz7dot8 => 0x06,
            RxBwFsk::Khz10dot4 => 0x15,
            RxBwFsk::Khz12dot5 => 0x0d,
            RxBwFsk::Khz15dot6 => 0x05,
            RxBwFsk::Khz20dot8 => 0x14,
            RxBwFsk::Khz25dot0 => 0x0c,
            RxBwFsk::Khz31dot3 => 0x04,
            RxBwFsk::Khz41dot7 => 0x13,
            RxBwFsk::Khz50dot0 => 0x0b,
            RxBwFsk::Khz62dot5 => 0x03,
            RxBwFsk::Khz83dot3 => 0x12,
            RxBwFsk::Khz100dot0 => 0x0a,
            RxBwFsk::Khz125dot0 => 0x02,
            RxBwFsk::Khz166dot7 => 0x11,
            RxBwFsk::Khz200dot0 => 0x09,
            RxBwFsk::Khz250dot0 => 0x01,
            RxBwFsk::Khz333dot3 => 0x10,
            RxBwFsk::Khz400dot0 => 0x08,
            RxBwFsk::Khz500dot0 => 0x00,
        }
    }
}

/// Receiver bandwidths available with OOK modulation.
#[derive(Debug, Clone, Copy)]
pub enum RxBwOok {
    Khz1dot3,
    Khz1dot6,
    Khz2dot0,
    Khz2dot6,
    Khz3dot1,
    Khz3dot9,
    Khz5dot2,
    Khz6dot3,
    Khz7dot8,
    Khz10dot4,
    Khz12dot5,
    Khz15dot6,
    Khz20dot8,
    Khz25dot0,
    Khz31dot3,
    Khz41dot7,
    Khz50dot0,
    Khz62dot5,
    Khz83dot3,
    Khz100dot0,
    Khz125dot0,
    Khz166dot7,
    Khz200dot0,
    Khz250dot0,
}

impl RxBwFreq for RxBwOok {
    open spec fn spec_value(&self) -> u8 {
        match self {
            RxBwOok::Khz1dot3 => 0x17,
            RxBwOok::Khz1dot6 => 0x0f,
            RxBwOok::Khz2dot0 => 0x07,
            RxBwOok::Khz2dot6 => 0x16,
            RxBwOok::Khz3dot1 => 0x0e,
            RxBwOok::Khz3dot9 => 0x06,
            RxBwOok::Khz5dot2 => 0x15,
            RxBwOok::Khz6dot3 => 0x0d,
            RxBwOok::Khz7dot8 => 0x05,
            RxBwOok::Khz10dot4 => 0x14,
            RxBwOok::Khz12dot5 => 0x0c,
            RxBwOok::Khz15dot6 => 0x04,
            RxBwOok::Khz20dot8 => 0x13,
            RxBwOok::Khz25dot0 => 0x0b,
            RxBwOok::Khz31dot3 => 0x03,
            RxBwOok::Khz41dot7 => 0x12,
            RxBwOok::Khz50dot0 => 0x0a,
            RxBwOok::Khz62dot5 => 0x02,
            RxBwOok::Khz83dot3 => 0x11,
            RxBwOok::Khz100dot0 => 0x09,
            RxBwOok::Khz125dot0 => 0x01,
            RxBwOok::Khz166dot7 => 0x10,
            RxBwOok::Khz200dot0 => 0x08,
            RxBwOok::Khz250dot0 => 0x00,
        }
    }

    fn value(&self) -> (r: u8)
    {
        match self {
            RxBwOok::Khz1dot3 => 0x17,
            RxBwOok::Khz1dot6 => 0x0f,
            RxBwOok::Khz2dot0 => 0x07,
            RxBwOok::Khz2dot6 => 0x16,
            RxBwOok::Khz3dot1 => 0x0e,
            RxBwOok::Khz3dot9 => 0x06,
            RxBwOok::Khz5dot2 => 0x15,
            RxBwOok::Khz6dot3 => 0x0d,
            RxBwOok::Khz7dot8 => 0x05,
            RxBwOok::Khz10dot4 => 0x14,
            RxBwOok::Khz12dot5 => 0x0c,
            RxBwOok::Khz15dot6 => 0x04,
            RxBwOok::Khz20dot8 => 0x13,
            RxBwOok::Khz25dot0 => 0x0b,
            RxBwOok::Khz31dot3 => 0x03,
            RxBwOok::Khz41dot7 => 0x12,
            RxBwOok::Khz50dot0 => 0x0a,
            RxBwOok::Khz62dot5 => 0x02,
            RxBwOok::Khz83dot3 => 0x11,
            RxBwOok::Khz100dot0 => 0x09,
            RxBwOok::Khz125dot0 => 0x01,
            RxBwOok::Khz166dot7 => 0x10,
            RxBwOok::Khz200dot0 => 0x08,
            RxBwOok::Khz250dot0 => 0x00,
        }
    }
}

/// Interrupt-status bits of the `IrqFlags1` register.
#[derive(Debug, Clone, Copy)]
pub enum IrqFlags1 {
    SyncAddressMatch,
    AutoMode,
    Timeout,
    Rssi,
    PllLock,
    TxReady,
    RxReady,
    ModeReady,
}

impl IrqFlags1 {
    /// The mask of this status bit within `IrqFlags1`.
    pub open spec fn spec_value(self) -> u8 {
        match self {
            IrqFlags1::SyncAddressMatch => 0x01,
            IrqFlags1::AutoMode => 0x02,
            IrqFlags1::Timeout => 0x04,
            IrqFlags1::Rssi => 0x08,
            IrqFlags1::PllLock => 0x10,
            IrqFlags1::TxReady => 0x20,
            IrqFlags1::RxReady => 0x40,
            IrqFlags1::ModeReady => 0x80,
        }
    }

    /// Returns the mask of this status bit within `IrqFlags1`.
    #[verifier::when_used_as_spec(spec_value)]
    pub fn value(self) -> (r: u8)
        ensures
            r == self.spec_value(),
    {
        match self {
            IrqFlags1::SyncAddressMatch => 0x01,
            IrqFlags1::AutoMode => 0x02,
            IrqFlags1::Timeout => 0x04,
            IrqFlags1::Rssi => 0x08,
            IrqFlags1::PllLock => 0x10,
            IrqFlags1::TxReady => 0x20,
            IrqFlags1::RxReady => 0x40,
            IrqFlags1::ModeReady => 0x80,
        }
    }
}

/// Interrupt-status bits of the `IrqFlags2` register.
#[derive(Debug, Clone, Copy)]
pub enum IrqFlags2 {
    CrcOk,
    PayloadReady,
    PacketSent,
    FifoOverrun,
    FifoLevel,
    FifoNotEmpty,
    FifoFull,
}

impl IrqFlags2 {
    /// The mask of this status bit within `IrqFlags2`.
    pub open spec fn spec_value(self) -> u8 {
        match self {
            IrqFlags2::CrcOk => 0x02,
            IrqFlags2::PayloadReady => 0x04,
            IrqFlags2::PacketSent => 0x08,
            IrqFlags2::FifoOverrun => 0x10,
            IrqFlags2::FifoLevel => 0x20,
            IrqFlags2::FifoNotEmpty => 0x40,
            IrqFlags2::FifoFull => 0x80,
        }
    }

    /// Returns the mask of this status bit within `IrqFlags2`.
    #[verifier::when_used_as_spec(spec_value)]
    pub fn value(self) -> (r: u8)
        ensures
            r == self.spec_value(),
    {
        match self {
            IrqFlags2::CrcOk => 0x02,
            IrqFlags2::PayloadReady => 0x04,
            IrqFlags2::PacketSent => 0x08,
            IrqFlags2::FifoOverrun => 0x10,
            IrqFlags2::FifoLevel => 0x20,
            IrqFlags2::FifoNotEmpty => 0x40,
            IrqFlags2::FifoFull => 0x80,
        }
    }
}

} // verus!
