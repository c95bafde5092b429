//! The RFM69 PHY driver: a register engine over a [`RadioHal`] port.
//!
//! Every operation's contract pins down the exact sequence of port
//! operations it performs, phrased over the port's ghost history, and
//! the register bytes it writes, phrased over the encoders in
//! [`crate::registers`].

use vstd::prelude::*;

use crate::error::Error;
use crate::hal::{HalEvent, RadioHal};
use crate::packet::{spec_from_rx_data, Packet, PacketView};
use crate::registers::{
    ContinuousDagc, FifoMode, IrqFlags1, IrqFlags2, LnaConfig, Modulation, OpMode, PacketConfig,
    PacketFormat, Register, RxBw, RxBwFreq,
};
use crate::traits::{Transceiver, TrxError, TrxEvent};

verus! {

/// Expected content of `Register::Version`.
pub open spec fn spec_version_check() -> u8 {
    0x24
}

/// The event of one single-register write: the address byte with the
/// write bit set, then the value.
pub open spec fn reg_write(reg: Register, byte: u8) -> HalEvent {
    HalEvent::SpiWrite(seq![reg.spec_addr() | 0x80, byte])
}

/// The event of one burst write: the address byte with the write bit
/// set, then the data, auto-incremented by the chip.
pub open spec fn burst_write(reg: Register, bytes: Seq<u8>) -> HalEvent {
    HalEvent::SpiWrite(seq![reg.spec_addr() | 0x80] + bytes)
}

/// The event of one single-register read returning `byte`.
pub open spec fn reg_read(reg: Register, byte: u8) -> HalEvent {
    HalEvent::SpiRead { addr: reg.spec_addr(), data: seq![byte] }
}

/// The register value the bitrate setter programs: `FOSC / bit_rate`,
/// rounded toward zero (`FOSC` is the 32 MHz crystal).
pub open spec fn spec_bitrate_reg(bit_rate: u32) -> int {
    32_000_000 as int / bit_rate as int
}

/// The register value the frequency setter programs:
/// `frequency * 2^19 / FOSC`, rounded toward zero.
pub open spec fn spec_frf_reg(frequency: u32) -> int {
    (frequency as int * 524288) / 32_000_000
}

/// The register value the deviation setter programs:
/// `fdev * 2^19 / FOSC`, rounded toward zero.
pub open spec fn spec_fdev_reg(fdev: u32) -> int {
    (fdev as int * 524288) / 32_000_000
}

/// The low 16 bits of `v`, big endian.
pub open spec fn be16(v: int) -> Seq<u8> {
    seq![((v / 256) % 256) as u8, (v % 256) as u8]
}

/// The low 24 bits of `v`, big endian.
pub open spec fn be24(v: int) -> Seq<u8> {
    seq![((v / 65536) % 256) as u8, ((v / 256) % 256) as u8, (v % 256) as u8]
}

/// The `PacketConfig1` byte programmed for a packet configuration.
pub open spec fn spec_packet_config1(c: PacketConfig) -> u8 {
    (match c.format {
        PacketFormat::Variable(_) => 0x80u8,
        PacketFormat::Fixed(_) => 0x00u8,
    }) | c.dc.spec_value() | c.filtering.spec_value() | (if c.crc {
        0x10u8
    } else {
        0x00u8
    })
}

/// The `PayloadLength` byte programmed for a packet configuration.
pub open spec fn spec_packet_len(c: PacketConfig) -> u8 {
    match c.format {
        PacketFormat::Variable(s) => s,
        PacketFormat::Fixed(s) => s,
    }
}

/// The bits of `PacketConfig2` a packet configuration owns; the rest
/// (mask `0x0d`) are preserved by read-modify-write.
pub open spec fn spec_packet_config2(c: PacketConfig) -> u8 {
    c.interpacket_rx_delay.spec_value() | (if c.auto_rx_restart {
        0x02u8
    } else {
        0x00u8
    })
}

/// The signed RSSI in dBm encoded by the `RssiValue` register byte:
/// minus half the raw value, rounded down.
pub open spec fn spec_rssi_dbm(b: u8) -> i16 {
    ((0 - b as int) / 2) as i16
}


/// The trace of a poll loop's not-ready reads: each polled byte as one
/// register read, followed by the inter-poll events `sep`.
pub open spec fn poll_steps(reg: Register, sep: Seq<HalEvent>, polls: Seq<u8>) -> Seq<HalEvent>
    decreases polls.len(),
{
    if polls.len() == 0 {
        Seq::empty()
    } else {
        seq![reg_read(reg, polls[0])] + sep + poll_steps(reg, sep, polls.skip(1))
    }
}

/// Every polled byte has the given mask bits clear.
pub open spec fn polls_clear(polls: Seq<u8>, mask: u8) -> bool {
    forall|i: int| 0 <= i < polls.len() ==> (#[trigger] polls[i]) & mask == 0
}

/// One more not-ready read extends a poll trace at its end.
proof fn lemma_poll_steps_snoc(reg: Register, sep: Seq<HalEvent>, polls: Seq<u8>, b: u8)
    ensures
        poll_steps(reg, sep, polls.push(b)) == poll_steps(reg, sep, polls) + seq![
            reg_read(reg, b),
        ] + sep,
    decreases polls.len(),
{
    if polls.len() == 0 {
        assert(polls =~= Seq::<u8>::empty());
        assert(polls.push(b).skip(1) =~= Seq::<u8>::empty());
        assert(polls.push(b)[0] == b);
        assert(poll_steps(reg, sep, Seq::<u8>::empty()) == Seq::<HalEvent>::empty());
        assert(poll_steps(reg, sep, polls.push(b)) == seq![reg_read(reg, b)] + sep
            + Seq::<HalEvent>::empty());
        assert(poll_steps(reg, sep, polls.push(b)) =~= poll_steps(reg, sep, polls) + seq![
            reg_read(reg, b),
        ] + sep);
    } else {
        assert(polls.push(b).skip(1) =~= polls.skip(1).push(b));
        lemma_poll_steps_snoc(reg, sep, polls.skip(1), b);
        assert(poll_steps(reg, sep, polls.push(b)) =~= poll_steps(reg, sep, polls) + seq![
            reg_read(reg, b),
        ] + sep);
    }
}

/// The transaction trace of one successful send: DIO0 routing when an
/// interrupt line is wired, `Standby` with its `ModeReady` poll, the
/// FIFO-overrun clear, the frame's FIFO burst, `Tx`, the completion
/// wait, and `Standby` again.
pub open spec fn send_trace(
    p: PacketView,
    irq: bool,
    polls1: Seq<u8>,
    ready1: u8,
    polls2: Seq<u8>,
    ready2: u8,
) -> Seq<HalEvent> {
    (if irq {
        seq![reg_write(Register::DioMapping1, 0x00)]
    } else {
        Seq::empty()
    }) + seq![reg_write(Register::OpMode, OpMode::Standby.spec_value()), HalEvent::DelayMs(1)]
        + poll_steps(Register::IrqFlags1, seq![HalEvent::DelayMs(500)], polls1) + seq![
        reg_read(Register::IrqFlags1, ready1),
        reg_write(Register::IrqFlags2, 0x10),
        HalEvent::DelayMs(1),
        burst_write(Register::Fifo, p.wire_bytes()),
        reg_write(Register::OpMode, OpMode::Tx.spec_value()),
    ] + (if irq {
        seq![HalEvent::IrqWait]
    } else {
        poll_steps(Register::IrqFlags2, Seq::empty(), polls2) + seq![
            reg_read(Register::IrqFlags2, ready2),
        ]
    }) + seq![reg_write(Register::OpMode, OpMode::Standby.spec_value())]
}

/// The transaction trace of a receive up to (and including) the wait
/// for `PayloadReady`: DIO0 routing when an interrupt line is wired,
/// `Rx`, then the edge wait or the poll loop ending with `last`.
pub open spec fn recv_wait_trace(irq: bool, polls: Seq<u8>, last: u8) -> Seq<HalEvent> {
    (if irq {
        seq![reg_write(Register::DioMapping1, 0x40)]
    } else {
        Seq::empty()
    }) + seq![reg_write(Register::OpMode, OpMode::Rx.spec_value())] + (if irq {
        seq![HalEvent::IrqWait]
    } else {
        poll_steps(Register::IrqFlags2, seq![HalEvent::DelayUs(500)], polls) + seq![
            reg_read(Register::IrqFlags2, last),
        ]
    })
}

/// The transaction trace of draining one received frame: `Standby`,
/// the length byte, the announced FIFO bytes, the RSSI byte.
pub open spec fn drain_trace(len_b: u8, body: Seq<u8>, rssi_b: u8) -> Seq<HalEvent> {
    seq![
        reg_write(Register::OpMode, OpMode::Standby.spec_value()),
        reg_read(Register::Fifo, len_b),
        HalEvent::SpiRead { addr: Register::Fifo.spec_addr(), data: body },
        reg_read(Register::RssiValue, rssi_b),
    ]
}

/// The transaction trace of one complete successful receive.
pub open spec fn recv_trace(
    irq: bool,
    polls: Seq<u8>,
    ready: u8,
    len_b: u8,
    body: Seq<u8>,
    rssi_b: u8,
) -> Seq<HalEvent> {
    recv_wait_trace(irq, polls, ready) + drain_trace(len_b, body, rssi_b)
}

/// The RFM69 transceiver, owning its hardware port and a cached copy of
/// the operating mode it last programmed.
pub struct Rfm69<H: RadioHal> {
    hal: H,
    /// Current cached active mode; updated exclusively by
    /// [`Rfm69::set_mode`], which keeps it equal to the mode the radio
    /// was last told to enter.
    pub mode: OpMode,
    trx_log: Ghost<Seq<TrxEvent>>,
}

impl<H: RadioHal> Rfm69<H> {
    /// Everything the hardware port has done, oldest first.
    pub closed spec fn hal_hist(&self) -> Seq<HalEvent> {
        self.hal.hist()
    }

    /// The port's remaining readiness budget.
    pub closed spec fn hal_fuel(&self) -> nat {
        self.hal.fuel()
    }

    /// Whether the port has an interrupt line wired up.
    pub closed spec fn hal_has_irq(&self) -> bool {
        self.hal.has_irq()
    }

    /// The driver's transceiver-level ghost history.
    pub closed spec fn trx_hist(&self) -> Seq<TrxEvent> {
        self.trx_log@
    }

    /// The operating mode the driver last programmed (the cached mode).
    pub closed spec fn cached_mode(&self) -> OpMode {
        self.mode
    }

    /// What every driver operation leaves untouched: the port's
    /// interrupt wiring, its readiness budget (never grown) and the
    /// transceiver-level history.
    pub open spec fn preserves(pre: Self, post: Self) -> bool {
        &&& post.hal_fuel() <= pre.hal_fuel()
        &&& post.hal_has_irq() == pre.hal_has_irq()
        &&& post.trx_hist() == pre.trx_hist()
    }

    /// Returns a driver over the given hardware port.
    ///
    /// The port owns the SPI connection, the reset pin, the optional
    /// DIO0 interrupt pin and the delay source. With an interrupt line
    /// wired, send and receive completions arrive as pin edges; without
    /// one, the interrupt registers are polled.
    pub fn new(hal: H) -> (r: Self)
        ensures
            r.cached_mode() == OpMode::Standby,
            r.hal_hist() == hal.hist(),
            r.hal_fuel() == hal.fuel(),
            r.hal_has_irq() == hal.has_irq(),
            r.trx_hist() == Seq::<TrxEvent>::empty(),
    {
        Rfm69 { hal, mode: OpMode::Standby, trx_log: Ghost(Seq::empty()) }
    }

    /// Lends out the hardware port (for inspection after a run).
    pub fn port(&self) -> (r: &H)
        ensures
            r.hist() == self.hal_hist(),
            r.fuel() == self.hal_fuel(),
            r.has_irq() == self.hal_has_irq(),
    {
        &self.hal
    }

    /// Reads one register byte.
    fn read_register(&mut self, reg: Register) -> (r: Result<u8, Error>)
        ensures
            Self::preserves(*old(self), *final(self)),
            final(self).cached_mode() == old(self).cached_mode(),
            r matches Ok(b) ==> final(self).hal_hist() == old(self).hal_hist().push(
                reg_read(reg, b),
            ),
            r matches Ok(b) ==> ((reg == Register::IrqFlags1 && b & 0x80 == 0)
                ==> final(self).hal_fuel() < old(self).hal_fuel()),
            r matches Ok(b) ==> ((reg == Register::IrqFlags2 && b & 0x0c != 0x0c)
                ==> final(self).hal_fuel() < old(self).hal_fuel()),
            r is Ok && reg == Register::Fifo ==> final(self).hal_fuel() < old(self).hal_fuel(),
            r is Err ==> r == Err::<u8, Error>(Error::Spi) && final(self).hal_hist() == old(self).hal_hist(),
    {
        match self.hal.spi_read(reg.addr(), 1) {
            Ok(v) => {
                let b = v[0];
                proof {
                    assert(v@ =~= seq![b]);
                }
                Ok(b)
            },
            Err(_) => Err(Error::Spi),
        }
    }

    /// Writes one register byte.
    fn write_register(&mut self, reg: Register, byte: u8) -> (r: Result<(), Error>)
        ensures
            Self::preserves(*old(self), *final(self)),
            final(self).cached_mode() == old(self).cached_mode(),
            r is Ok ==> final(self).hal_hist() == old(self).hal_hist().push(reg_write(reg, byte)),
            r is Err ==> r == Err::<(), Error>(Error::Spi) && final(self).hal_hist() == old(self).hal_hist(),
    {
        let mut buf: Vec<u8> = Vec::new();
        buf.push(reg.addr() | 0x80);
        buf.push(byte);
        proof {
            assert(buf@ =~= seq![reg.spec_addr() | 0x80, byte]);
        }
        match self.hal.spi_write(buf.as_slice()) {
            Ok(()) => Ok(()),
            Err(_) => Err(Error::Spi),
        }
    }

    /// Writes a run of registers in one burst, `data` starting at `reg`.
    fn write_registers(&mut self, reg: Register, data: &[u8]) -> (r: Result<(), Error>)
        ensures
            Self::preserves(*old(self), *final(self)),
            final(self).cached_mode() == old(self).cached_mode(),
            r is Ok ==> final(self).hal_hist() == old(self).hal_hist().push(
                burst_write(reg, data@),
            ),
            r is Err ==> r == Err::<(), Error>(Error::Spi) && final(self).hal_hist() == old(self).hal_hist(),
    {
        let mut buf: Vec<u8> = Vec::new();
        buf.push(reg.addr() | 0x80);
        let mut i: usize = 0;
        while i < data.len()
            invariant
                i <= data@.len(),
                buf@ == seq![reg.spec_addr() | 0x80] + data@.subrange(0, i as int),
            decreases data@.len() - i,
        {
            buf.push(*vstd::slice::slice_index_get(data, i));
            proof {
                assert(buf@ =~= seq![reg.spec_addr() | 0x80] + data@.subrange(0, i + 1));
            }
            i = i + 1;
        }
        proof {
            assert(data@.subrange(0, data@.len() as int) =~= data@);
        }
        match self.hal.spi_write(buf.as_slice()) {
            Ok(()) => Ok(()),
            Err(_) => Err(Error::Spi),
        }
    }

    /// Reads a register, masks it with `and_mask`, ORs in `or_mask` and
    /// writes it back.
    fn update_register(&mut self, reg: Register, and_mask: u8, or_mask: u8) -> (r: Result<
        (),
        Error,
    >)
        ensures
            Self::preserves(*old(self), *final(self)),
            final(self).cached_mode() == old(self).cached_mode(),
            r is Ok ==> exists|c: u8|
                final(self).hal_hist() == old(self).hal_hist().push(#[trigger] reg_read(reg, c)).push(
                    reg_write(reg, (c & and_mask) | or_mask),
                ),
            r is Err ==> r == Err::<(), Error>(Error::Spi),
    {
        let c = match self.read_register(reg) {
            Ok(c) => c,
            Err(e) => {
                return Err(e);
            },
        };
        match self.write_register(reg, (c & and_mask) | or_mask) {
            Ok(()) => Ok(()),
            Err(e) => Err(e),
        }
    }

    /// Programs the radio's operating mode and updates the cached mode.
    ///
    /// This does not wait for `ModeReady`; the chip clears that flag on
    /// every mode change and raises it once the transition completes.
    pub fn set_mode(&mut self, mode: OpMode) -> (r: Result<(), Error>)
        ensures
            Self::preserves(*old(self), *final(self)),
            r is Ok ==> final(self).cached_mode() == mode && final(self).hal_hist() == old(self).hal_hist().push(reg_write(Register::OpMode, mode.value())),
            r is Err ==> r == Err::<(), Error>(Error::Spi) && final(self).cached_mode() == old(self).cached_mode()
                && final(self).hal_hist() == old(self).hal_hist(),
    {
        match self.write_register(Register::OpMode, mode.value()) {
            Ok(()) => {
                self.mode = mode;
                Ok(())
            },
            Err(e) => Err(e),
        }
    }

    /// Programs the modulation into `DataModul`.
    pub fn modulation(&mut self, modulation: Modulation) -> (r: Result<(), Error>)
        ensures
            Self::preserves(*old(self), *final(self)),
            final(self).cached_mode() == old(self).cached_mode(),
            r is Ok ==> final(self).hal_hist() == old(self).hal_hist().push(
                reg_write(Register::DataModul, modulation.value()),
            ),
            r is Err ==> r == Err::<(), Error>(Error::Spi),
    {
        self.write_register(Register::DataModul, modulation.value())
    }

    /// Programs the data bitrate: `FOSC / bit_rate` rounded toward
    /// zero, truncated to 16 bits, big endian.
    pub fn bit_rate(&mut self, bit_rate: u32) -> (r: Result<(), Error>)
        requires
            bit_rate >= 1,
        ensures
            Self::preserves(*old(self), *final(self)),
            final(self).cached_mode() == old(self).cached_mode(),
            r is Ok ==> final(self).hal_hist() == old(self).hal_hist().push(
                burst_write(Register::BitrateMsb, be16(spec_bitrate_reg(bit_rate))),
            ),
            r is Err ==> r == Err::<(), Error>(Error::Spi),
    {
        let reg: u64 = 32_000_000u64 / (bit_rate as u64);
        let hi: u8 = ((reg / 256) % 256) as u8;
        let lo: u8 = (reg % 256) as u8;
        let mut bytes: Vec<u8> = Vec::new();
        bytes.push(hi);
        bytes.push(lo);
        proof {
            assert(bytes@ =~= be16(spec_bitrate_reg(bit_rate)));
        }
        self.write_registers(Register::BitrateMsb, bytes.as_slice())
    }

    /// Programs the carrier frequency: `frequency * 2^19 / FOSC`
    /// rounded toward zero, truncated to 24 bits, big endian.
    pub fn frequency(&mut self, frequency: u32) -> (r: Result<(), Error>)
        ensures
            Self::preserves(*old(self), *final(self)),
            final(self).cached_mode() == old(self).cached_mode(),
            r is Ok ==> final(self).hal_hist() == old(self).hal_hist().push(
                burst_write(Register::FrfMsb, be24(spec_frf_reg(frequency))),
            ),
            r is Err ==> r == Err::<(), Error>(Error::Spi),
    {
        let reg: u64 = ((frequency as u64) * 524288u64) / 32_000_000u64;
        let b0: u8 = ((reg / 65536) % 256) as u8;
        let b1: u8 = ((reg / 256) % 256) as u8;
        let b2: u8 = (reg % 256) as u8;
        let mut bytes: Vec<u8> = Vec::new();
        bytes.push(b0);
        bytes.push(b1);
        bytes.push(b2);
        proof {
            assert(bytes@ =~= be24(spec_frf_reg(frequency)));
        }
        self.write_registers(Register::FrfMsb, bytes.as_slice())
    }

    /// Programs the frequency deviation: `fdev * 2^19 / FOSC` rounded
    /// toward zero, truncated to 16 bits, big endian.
    pub fn fdev(&mut self, fdev: u32) -> (r: Result<(), Error>)
        ensures
            Self::preserves(*old(self), *final(self)),
            final(self).cached_mode() == old(self).cached_mode(),
            r is Ok ==> final(self).hal_hist() == old(self).hal_hist().push(
                burst_write(Register::FdevMsb, be16(spec_fdev_reg(fdev))),
            ),
            r is Err ==> r == Err::<(), Error>(Error::Spi),
    {
        let reg: u64 = ((fdev as u64) * 524288u64) / 32_000_000u64;
        let hi: u8 = ((reg / 256) % 256) as u8;
        let lo: u8 = (reg % 256) as u8;
        let mut bytes: Vec<u8> = Vec::new();
        bytes.push(hi);
        bytes.push(lo);
        proof {
            assert(bytes@ =~= be16(spec_fdev_reg(fdev)));
        }
        self.write_registers(Register::FdevMsb, bytes.as_slice())
    }

    /// Programs the receiver bandwidth: DCC cutoff OR'd with the
    /// bandwidth code.
    pub fn rx_bw<RxBwT: RxBwFreq>(&mut self, rx_bw: RxBw<RxBwT>) -> (r: Result<(), Error>)
        ensures
            Self::preserves(*old(self), *final(self)),
            final(self).cached_mode() == old(self).cached_mode(),
            r is Ok ==> final(self).hal_hist() == old(self).hal_hist().push(
                reg_write(
                    Register::RxBw,
                    rx_bw.dcc_cutoff.spec_value() | rx_bw.rx_bw.spec_value(),
                ),
            ),
            r is Err ==> r == Err::<(), Error>(Error::Spi),
    {
        self.write_register(Register::RxBw, rx_bw.dcc_cutoff.value() | rx_bw.rx_bw.value())
    }

    /// Programs the preamble length, big endian.
    pub fn preamble_length(&mut self, length: u16) -> (r: Result<(), Error>)
        ensures
            Self::preserves(*old(self), *final(self)),
            final(self).cached_mode() == old(self).cached_mode(),
            r is Ok ==> final(self).hal_hist() == old(self).hal_hist().push(
                burst_write(Register::PreambleMsb, be16(length as int)),
            ),
            r is Err ==> r == Err::<(), Error>(Error::Spi),
    {
        let hi: u8 = ((length / 256) % 256) as u8;
        let lo: u8 = (length % 256) as u8;
        let mut bytes: Vec<u8> = Vec::new();
        bytes.push(hi);
        bytes.push(lo);
        proof {
            assert(bytes@ =~= be16(length as int));
        }
        self.write_registers(Register::PreambleMsb, bytes.as_slice())
    }

    /// Programs the sync word. An empty word clears the sync flag; a
    /// word of up to eight bytes sets the flag, the length bits and the
    /// `SyncValue` block; a longer word fails with `SyncSize`.
    pub fn sync(&mut self, sync: &[u8]) -> (r: Result<(), Error>)
        ensures
            Self::preserves(*old(self), *final(self)),
            final(self).cached_mode() == old(self).cached_mode(),
            sync@.len() > 8 <==> r == Err::<(), Error>(Error::SyncSize),
            r == Err::<(), Error>(Error::SyncSize) ==> final(self).hal_hist() == old(self).hal_hist(),
            r is Ok && sync@.len() == 0 ==> exists|c: u8|
                final(self).hal_hist() == old(self).hal_hist().push(
                    #[trigger] reg_read(Register::SyncConfig, c),
                ).push(reg_write(Register::SyncConfig, c & 0x7f)),
            r is Ok && sync@.len() > 0 ==> final(self).hal_hist() == old(self).hal_hist().push(
                reg_write(Register::SyncConfig, 0x80u8 | (((sync@.len() - 1) as u8) << 3)),
            ).push(burst_write(Register::SyncValue1, sync@)),
            r is Err && sync@.len() <= 8 ==> r == Err::<(), Error>(Error::Spi),
    {
        let len = sync.len();
        if len == 0 {
            let r = self.update_register(Register::SyncConfig, 0x7f, 0x00);
            proof {
                if r is Ok {
                    let c = choose|c: u8|
                        self.hal_hist() == old(self).hal_hist().push(
                            #[trigger] reg_read(Register::SyncConfig, c),
                        ).push(reg_write(Register::SyncConfig, (c & 0x7f) | 0x00));
                    assert((c & 0x7f) | 0x00 == c & 0x7f) by (bit_vector);
                    assert(self.hal_hist() == old(self).hal_hist().push(
                        reg_read(Register::SyncConfig, c),
                    ).push(reg_write(Register::SyncConfig, c & 0x7f)));
                }
            }
            return r;
        } else if len > 8 {
            return Err(Error::SyncSize);
        }
        let reg: u8 = 0x80u8 | (((len - 1) as u8) << 3);
        match self.write_register(Register::SyncConfig, reg) {
            Ok(()) => (),
            Err(e) => {
                return Err(e);
            },
        }
        self.write_registers(Register::SyncValue1, sync)
    }

    /// Programs the packet engine: format, DC-free encoding, CRC and
    /// filtering into `PacketConfig1` and the length byte; RX delay and
    /// auto-restart into `PacketConfig2`, preserving its other bits.
    pub fn packet(&mut self, packet_config: PacketConfig) -> (r: Result<(), Error>)
        ensures
            Self::preserves(*old(self), *final(self)),
            final(self).cached_mode() == old(self).cached_mode(),
            r is Ok ==> exists|c: u8|
                final(self).hal_hist() == old(self).hal_hist().push(
                    burst_write(
                        Register::PacketConfig1,
                        seq![spec_packet_config1(packet_config), spec_packet_len(packet_config)],
                    ),
                ).push(#[trigger] reg_read(Register::PacketConfig2, c)).push(
                    reg_write(
                        Register::PacketConfig2,
                        (c & 0x0d) | spec_packet_config2(packet_config),
                    ),
                ),
            r is Err ==> r == Err::<(), Error>(Error::Spi),
    {
        let len: u8;
        let var_bit: u8;
        match packet_config.format {
            PacketFormat::Fixed(size) => {
                len = size;
                var_bit = 0x00;
            },
            PacketFormat::Variable(size) => {
                len = size;
                var_bit = 0x80;
            },
        }
        let crc_bit: u8 = if packet_config.crc {
            0x10
        } else {
            0x00
        };
        let reg1: u8 = var_bit | packet_config.dc.value() | packet_config.filtering.value()
            | crc_bit;
        let mut bytes: Vec<u8> = Vec::new();
        bytes.push(reg1);
        bytes.push(len);
        proof {
            assert(bytes@ =~= seq![
                spec_packet_config1(packet_config),
                spec_packet_len(packet_config),
            ]);
        }
        match self.write_registers(Register::PacketConfig1, bytes.as_slice()) {
            Ok(()) => (),
            Err(e) => {
                return Err(e);
            },
        }
        let auto_bit: u8 = if packet_config.auto_rx_restart {
            0x02
        } else {
            0x00
        };
        let reg2: u8 = packet_config.interpacket_rx_delay.value() | auto_bit;
        self.update_register(Register::PacketConfig2, 0x0d, reg2)
    }

    /// Programs the FIFO start condition into `FifoThresh`.
    pub fn fifo_mode(&mut self, mode: FifoMode) -> (r: Result<(), Error>)
        ensures
            Self::preserves(*old(self), *final(self)),
            final(self).cached_mode() == old(self).cached_mode(),
            r is Ok && mode is NotEmpty ==> exists|c: u8|
                final(self).hal_hist() == old(self).hal_hist().push(
                    #[trigger] reg_read(Register::FifoThresh, c),
                ).push(reg_write(Register::FifoThresh, c | 0x80)),
            mode matches FifoMode::Level(level) ==> (r is Ok ==> final(self).hal_hist()
                == old(self).hal_hist().push(reg_write(Register::FifoThresh, level & 0x7f))),
            r is Err ==> r == Err::<(), Error>(Error::Spi),
    {
        match mode {
            FifoMode::NotEmpty => {
                let r = self.update_register(Register::FifoThresh, 0xff, 0x80);
                proof {
                    if r is Ok {
                        let c = choose|c: u8|
                            self.hal_hist() == old(self).hal_hist().push(
                                #[trigger] reg_read(Register::FifoThresh, c),
                            ).push(reg_write(Register::FifoThresh, (c & 0xff) | 0x80));
                        assert((c & 0xff) | 0x80 == c | 0x80) by (bit_vector);
                        assert(self.hal_hist() == old(self).hal_hist().push(
                            reg_read(Register::FifoThresh, c),
                        ).push(reg_write(Register::FifoThresh, c | 0x80)));
                    }
                }
                r
            },
            FifoMode::Level(level) => self.write_register(Register::FifoThresh, level & 0x7f),
        }
    }

    /// Programs the LNA impedance and gain, preserving the register's
    /// other bits.
    pub fn lna(&mut self, lna: LnaConfig) -> (r: Result<(), Error>)
        ensures
            Self::preserves(*old(self), *final(self)),
            final(self).cached_mode() == old(self).cached_mode(),
            r is Ok ==> exists|c: u8|
                final(self).hal_hist() == old(self).hal_hist().push(
                    #[trigger] reg_read(Register::Lna, c),
                ).push(
                    reg_write(
                        Register::Lna,
                        (c & 0x78) | (lna.zin.spec_value() | lna.gain_select.spec_value()),
                    ),
                ),
            r is Err ==> r == Err::<(), Error>(Error::Spi),
    {
        let reg: u8 = lna.zin.value() | lna.gain_select.value();
        self.update_register(Register::Lna, 0x78, reg)
    }

    /// Programs the RSSI threshold.
    pub fn rssi_threshold(&mut self, threshold: u8) -> (r: Result<(), Error>)
        ensures
            Self::preserves(*old(self), *final(self)),
            final(self).cached_mode() == old(self).cached_mode(),
            r is Ok ==> final(self).hal_hist() == old(self).hal_hist().push(
                reg_write(Register::RssiThresh, threshold),
            ),
            r is Err ==> r == Err::<(), Error>(Error::Spi),
    {
        self.write_register(Register::RssiThresh, threshold)
    }

    /// Programs the continuous-DAGC setting into `TestDagc`.
    pub fn continuous_dagc(&mut self, cdagc: ContinuousDagc) -> (r: Result<(), Error>)
        ensures
            Self::preserves(*old(self), *final(self)),
            final(self).cached_mode() == old(self).cached_mode(),
            r is Ok ==> final(self).hal_hist() == old(self).hal_hist().push(
                reg_write(Register::TestDagc, cdagc.value()),
            ),
            r is Err ==> r == Err::<(), Error>(Error::Spi),
    {
        self.write_register(Register::TestDagc, cdagc.value())
    }

    /// Reads `IrqFlags1` and reports whether `ModeReady` is set.
    pub fn is_mode_ready(&mut self) -> (r: Result<bool, Error>)
        ensures
            Self::preserves(*old(self), *final(self)),
            final(self).cached_mode() == old(self).cached_mode(),
            r matches Ok(f) ==> exists|b: u8|
                final(self).hal_hist() == old(self).hal_hist().push(
                    #[trigger] reg_read(Register::IrqFlags1, b),
                ) && f == (b & 0x80 != 0),
            r is Err ==> r == Err::<bool, Error>(Error::Spi),
    {
        match self.read_register(Register::IrqFlags1) {
            Ok(reg) => Ok((reg & IrqFlags1::ModeReady.value()) != 0),
            Err(e) => Err(e),
        }
    }

    /// Reads `IrqFlags2` and reports whether `PacketSent` is set.
    pub fn is_packet_sent(&mut self) -> (r: Result<bool, Error>)
        ensures
            Self::preserves(*old(self), *final(self)),
            final(self).cached_mode() == old(self).cached_mode(),
            r matches Ok(f) ==> exists|b: u8|
                final(self).hal_hist() == old(self).hal_hist().push(
                    #[trigger] reg_read(Register::IrqFlags2, b),
                ) && f == (b & 0x08 != 0),
            r is Err ==> r == Err::<bool, Error>(Error::Spi),
    {
        match self.read_register(Register::IrqFlags2) {
            Ok(reg) => Ok((reg & IrqFlags2::PacketSent.value()) != 0),
            Err(e) => Err(e),
        }
    }

    /// Reads `IrqFlags2` and reports whether `PayloadReady` is set.
    pub fn is_packet_ready(&mut self) -> (r: Result<bool, Error>)
        ensures
            Self::preserves(*old(self), *final(self)),
            final(self).cached_mode() == old(self).cached_mode(),
            r matches Ok(f) ==> exists|b: u8|
                final(self).hal_hist() == old(self).hal_hist().push(
                    #[trigger] reg_read(Register::IrqFlags2, b),
                ) && f == (b & 0x04 != 0),
            r is Err ==> r == Err::<bool, Error>(Error::Spi),
    {
        match self.read_register(Register::IrqFlags2) {
            Ok(reg) => Ok((reg & IrqFlags2::PayloadReady.value()) != 0),
            Err(e) => Err(e),
        }
    }

    /// Clears a FIFO overrun by writing the `FifoOverrun` bit.
    fn reset_fifo(&mut self) -> (r: Result<(), Error>)
        ensures
            Self::preserves(*old(self), *final(self)),
            final(self).cached_mode() == old(self).cached_mode(),
            r is Ok ==> final(self).hal_hist() == old(self).hal_hist().push(
                reg_write(Register::IrqFlags2, 0x10),
            ),
            r is Err ==> r == Err::<(), Error>(Error::Spi) && final(self).hal_hist() == old(self).hal_hist(),
    {
        self.write_register(Register::IrqFlags2, IrqFlags2::FifoOverrun.value())
    }

    /// Reads `RssiValue` and converts it to dBm.
    fn read_rssi(&mut self) -> (r: Result<i16, Error>)
        ensures
            Self::preserves(*old(self), *final(self)),
            final(self).cached_mode() == old(self).cached_mode(),
            r matches Ok(v) ==> exists|b: u8|
                final(self).hal_hist() == old(self).hal_hist().push(
                    #[trigger] reg_read(Register::RssiValue, b),
                ) && v == spec_rssi_dbm(b),
            r is Err ==> r == Err::<i16, Error>(Error::Spi),
    {
        let b = match self.read_register(Register::RssiValue) {
            Ok(b) => b,
            Err(e) => {
                return Err(e);
            },
        };
        let q: u16 = ((b as u16) + 1) / 2;
        let v: i16 = -(q as i16);
        proof {
            let k = b as int;
            assert((0 - k) / 2 == 0 - ((k + 1) / 2)) by (nonlinear_arith)
                requires
                    0 <= k <= 255,
            ;
        }
        Ok(v)
    }

    /// Reads the whole register file that matters, starting at `OpMode`.
    pub fn read_all_regs(&mut self) -> (r: Result<Vec<u8>, Error>)
        ensures
            Self::preserves(*old(self), *final(self)),
            final(self).cached_mode() == old(self).cached_mode(),
            r matches Ok(v) ==> v@.len() == 0x4f && final(self).hal_hist() == old(self).hal_hist().push(HalEvent::SpiRead { addr: Register::OpMode.spec_addr(), data: v@ }),
            r is Err ==> r == Err::<Vec<u8>, Error>(Error::Spi),
    {
        match self.hal.spi_read(Register::OpMode.addr(), 0x4f) {
            Ok(v) => Ok(v),
            Err(_) => Err(Error::Spi),
        }
    }

    /// Resets the transceiver through its reset pin and checks that the
    /// chip identifies as an RFM69.
    ///
    /// The pin is driven high and low for 10 ms each; the `Version`
    /// register must then read `0x24`, upon which the radio is put to
    /// sleep. Any other version fails with `VersionMismatch`.
    pub fn reset(&mut self) -> (r: Result<(), Error>)
        ensures
            Self::preserves(*old(self), *final(self)),
            r is Ok ==> final(self).cached_mode() == OpMode::Sleep && final(self).hal_hist() == old(self).hal_hist() + seq![
                HalEvent::ResetHigh,
                HalEvent::DelayMs(10),
                HalEvent::ResetLow,
                HalEvent::DelayMs(10),
                reg_read(Register::Version, spec_version_check()),
                reg_write(Register::OpMode, OpMode::Sleep.value()),
            ],
            r matches Err(Error::VersionMismatch(v)) ==> v != spec_version_check()
                && final(self).hal_hist() == old(self).hal_hist() + seq![
                HalEvent::ResetHigh,
                HalEvent::DelayMs(10),
                HalEvent::ResetLow,
                HalEvent::DelayMs(10),
                reg_read(Register::Version, v),
            ],
            r matches Err(e) ==> (e is Reset || e is Spi || e is VersionMismatch),
    {
        match self.hal.reset_high() {
            Ok(()) => (),
            Err(_) => {
                return Err(Error::Reset);
            },
        }
        self.hal.delay_ms(10);
        match self.hal.reset_low() {
            Ok(()) => (),
            Err(_) => {
                return Err(Error::Reset);
            },
        }
        self.hal.delay_ms(10);
        let version = match self.read_register(Register::Version) {
            Ok(v) => v,
            Err(e) => {
                return Err(e);
            },
        };
        if version == 0x24 {
            match self.set_mode(OpMode::Sleep) {
                Ok(()) => {
                    proof {
                        assert(self.hal_hist() =~= old(self).hal_hist() + seq![
                            HalEvent::ResetHigh,
                            HalEvent::DelayMs(10),
                            HalEvent::ResetLow,
                            HalEvent::DelayMs(10),
                            reg_read(Register::Version, spec_version_check()),
                            reg_write(Register::OpMode, OpMode::Sleep.value()),
                        ]);
                    }
                    Ok(())
                },
                Err(e) => Err(e),
            }
        } else {
            proof {
                assert(self.hal_hist() =~= old(self).hal_hist() + seq![
                    HalEvent::ResetHigh,
                    HalEvent::DelayMs(10),
                    HalEvent::ResetLow,
                    HalEvent::DelayMs(10),
                    reg_read(Register::Version, version),
                ]);
            }
            Err(Error::VersionMismatch(version))
        }
    }

    /// Polls `IrqFlags1` until `ModeReady` is raised, delaying 500 ms
    /// between polls. The chip clears the flag on every mode change;
    /// this loop is the correctness guard before the FIFO is touched,
    /// and the inter-poll delay keeps a cooperative scheduler live.
    fn wait_mode_ready(&mut self) -> (r: Result<u8, Error>)
        ensures
            Self::preserves(*old(self), *final(self)),
            final(self).cached_mode() == old(self).cached_mode(),
            r matches Ok(rb) ==> rb & 0x80 != 0 && exists|polls: Seq<u8>|
                polls_clear(polls, 0x80) && final(self).hal_hist() == old(self).hal_hist()
                    + #[trigger] poll_steps(
                    Register::IrqFlags1,
                    seq![HalEvent::DelayMs(500)],
                    polls,
                ) + seq![reg_read(Register::IrqFlags1, rb)],
            r is Err ==> r == Err::<u8, Error>(Error::Spi),
    {
        let ghost sep = seq![HalEvent::DelayMs(500)];
        let ghost mut polls: Seq<u8> = Seq::empty();
        proof {
            assert(self.hal_hist() =~= old(self).hal_hist() + poll_steps(
                Register::IrqFlags1,
                sep,
                polls,
            ));
        }
        loop
            invariant
                polls_clear(polls, 0x80),
                self.hal_hist() == old(self).hal_hist() + poll_steps(
                    Register::IrqFlags1,
                    sep,
                    polls,
                ),
                sep == seq![HalEvent::DelayMs(500)],
                self.hal_fuel() <= old(self).hal_fuel(),
                self.hal_has_irq() == old(self).hal_has_irq(),
                self.trx_hist() == old(self).trx_hist(),
                self.cached_mode() == old(self).cached_mode(),
            decreases self.hal_fuel(),
        {
            let b = match self.read_register(Register::IrqFlags1) {
                Ok(b) => b,
                Err(e) => {
                    return Err(e);
                },
            };
            if b & 0x80 != 0 {
                proof {
                    assert(self.hal_hist() =~= old(self).hal_hist() + poll_steps(
                        Register::IrqFlags1,
                        sep,
                        polls,
                    ) + seq![reg_read(Register::IrqFlags1, b)]);
                }
                return Ok(b);
            }
            self.hal.delay_ms(500);
            proof {
                lemma_poll_steps_snoc(Register::IrqFlags1, sep, polls, b);
                polls = polls.push(b);
                assert(self.hal_hist() =~= old(self).hal_hist() + poll_steps(
                    Register::IrqFlags1,
                    sep,
                    polls,
                ));
            }
        }
    }

    /// Polls `IrqFlags2` until `PacketSent` is raised.
    fn wait_packet_sent(&mut self) -> (r: Result<u8, Error>)
        ensures
            Self::preserves(*old(self), *final(self)),
            final(self).cached_mode() == old(self).cached_mode(),
            r matches Ok(rb) ==> rb & 0x08 != 0 && exists|polls: Seq<u8>|
                polls_clear(polls, 0x08) && final(self).hal_hist() == old(self).hal_hist()
                    + #[trigger] poll_steps(Register::IrqFlags2, Seq::empty(), polls) + seq![
                    reg_read(Register::IrqFlags2, rb),
                ],
            r is Err ==> r == Err::<u8, Error>(Error::Spi),
    {
        let ghost sep = Seq::<HalEvent>::empty();
        let ghost mut polls: Seq<u8> = Seq::empty();
        proof {
            assert(self.hal_hist() =~= old(self).hal_hist() + poll_steps(
                Register::IrqFlags2,
                sep,
                polls,
            ));
        }
        loop
            invariant
                polls_clear(polls, 0x08),
                self.hal_hist() == old(self).hal_hist() + poll_steps(
                    Register::IrqFlags2,
                    sep,
                    polls,
                ),
                sep == Seq::<HalEvent>::empty(),
                self.hal_fuel() <= old(self).hal_fuel(),
                self.hal_has_irq() == old(self).hal_has_irq(),
                self.trx_hist() == old(self).trx_hist(),
                self.cached_mode() == old(self).cached_mode(),
            decreases self.hal_fuel(),
        {
            let b = match self.read_register(Register::IrqFlags2) {
                Ok(b) => b,
                Err(e) => {
                    return Err(e);
                },
            };
            if b & 0x08 != 0 {
                proof {
                    assert(self.hal_hist() =~= old(self).hal_hist() + poll_steps(
                        Register::IrqFlags2,
                        sep,
                        polls,
                    ) + seq![reg_read(Register::IrqFlags2, b)]);
                }
                return Ok(b);
            }
            proof {
                assert(b & 0x08 == 0 ==> b & 0x0c != 0x0c) by (bit_vector);
                lemma_poll_steps_snoc(Register::IrqFlags2, sep, polls, b);
                polls = polls.push(b);
                assert(self.hal_hist() =~= old(self).hal_hist() + poll_steps(
                    Register::IrqFlags2,
                    sep,
                    polls,
                ));
            }
        }
    }

    /// Polls `IrqFlags2` until `PayloadReady` is raised, delaying
    /// 500 us between polls.
    fn wait_payload_ready(&mut self) -> (r: Result<u8, Error>)
        ensures
            Self::preserves(*old(self), *final(self)),
            final(self).cached_mode() == old(self).cached_mode(),
            r matches Ok(rb) ==> rb & 0x04 != 0 && exists|polls: Seq<u8>|
                polls_clear(polls, 0x04) && final(self).hal_hist() == old(self).hal_hist()
                    + #[trigger] poll_steps(
                    Register::IrqFlags2,
                    seq![HalEvent::DelayUs(500)],
                    polls,
                ) + seq![reg_read(Register::IrqFlags2, rb)],
            r is Err ==> r == Err::<u8, Error>(Error::Spi),
    {
        let ghost sep = seq![HalEvent::DelayUs(500)];
        let ghost mut polls: Seq<u8> = Seq::empty();
        proof {
            assert(self.hal_hist() =~= old(self).hal_hist() + poll_steps(
                Register::IrqFlags2,
                sep,
                polls,
            ));
        }
        loop
            invariant
                polls_clear(polls, 0x04),
                self.hal_hist() == old(self).hal_hist() + poll_steps(
                    Register::IrqFlags2,
                    sep,
                    polls,
                ),
                sep == seq![HalEvent::DelayUs(500)],
                self.hal_fuel() <= old(self).hal_fuel(),
                self.hal_has_irq() == old(self).hal_has_irq(),
                self.trx_hist() == old(self).trx_hist(),
                self.cached_mode() == old(self).cached_mode(),
            decreases self.hal_fuel(),
        {
            let b = match self.read_register(Register::IrqFlags2) {
                Ok(b) => b,
                Err(e) => {
                    return Err(e);
                },
            };
            if b & 0x04 != 0 {
                proof {
                    assert(self.hal_hist() =~= old(self).hal_hist() + poll_steps(
                        Register::IrqFlags2,
                        sep,
                        polls,
                    ) + seq![reg_read(Register::IrqFlags2, b)]);
                }
                return Ok(b);
            }
            self.hal.delay_us(500);
            proof {
                assert(b & 0x04 == 0 ==> b & 0x0c != 0x0c) by (bit_vector);
                lemma_poll_steps_snoc(Register::IrqFlags2, sep, polls, b);
                polls = polls.push(b);
                assert(self.hal_hist() =~= old(self).hal_hist() + poll_steps(
                    Register::IrqFlags2,
                    sep,
                    polls,
                ));
            }
        }
    }

    /// Polls `IrqFlags2` for `PayloadReady` until the deadline passes;
    /// `Ok(None)` means the deadline won.
    fn wait_payload_ready_until(&mut self, deadline: u64) -> (r: Result<Option<u8>, Error>)
        ensures
            Self::preserves(*old(self), *final(self)),
            final(self).cached_mode() == old(self).cached_mode(),
            r matches Ok(Some(rb)) ==> rb & 0x04 != 0 && exists|polls: Seq<u8>|
                polls_clear(polls, 0x04) && final(self).hal_hist() == old(self).hal_hist()
                    + #[trigger] poll_steps(
                    Register::IrqFlags2,
                    seq![HalEvent::DelayUs(500)],
                    polls,
                ) + seq![reg_read(Register::IrqFlags2, rb)],
            r matches Ok(o) ==> (o is None ==> exists|polls: Seq<u8>, last: u8|
                polls_clear(polls, 0x04) && last & 0x04 == 0 && final(self).hal_hist() == old(self).hal_hist() + #[trigger] poll_steps(
                    Register::IrqFlags2,
                    seq![HalEvent::DelayUs(500)],
                    polls,
                ) + seq![#[trigger] reg_read(Register::IrqFlags2, last)]),
            r is Err ==> r == Err::<Option<u8>, Error>(Error::Spi),
    {
        let ghost sep = seq![HalEvent::DelayUs(500)];
        let ghost mut polls: Seq<u8> = Seq::empty();
        proof {
            assert(self.hal_hist() =~= old(self).hal_hist() + poll_steps(
                Register::IrqFlags2,
                sep,
                polls,
            ));
        }
        loop
            invariant
                polls_clear(polls, 0x04),
                self.hal_hist() == old(self).hal_hist() + poll_steps(
                    Register::IrqFlags2,
                    sep,
                    polls,
                ),
                sep == seq![HalEvent::DelayUs(500)],
                self.hal_fuel() <= old(self).hal_fuel(),
                self.hal_has_irq() == old(self).hal_has_irq(),
                self.trx_hist() == old(self).trx_hist(),
                self.cached_mode() == old(self).cached_mode(),
            decreases self.hal_fuel(),
        {
            let b = match self.read_register(Register::IrqFlags2) {
                Ok(b) => b,
                Err(e) => {
                    return Err(e);
                },
            };
            if b & 0x04 != 0 {
                proof {
                    assert(self.hal_hist() =~= old(self).hal_hist() + poll_steps(
                        Register::IrqFlags2,
                        sep,
                        polls,
                    ) + seq![reg_read(Register::IrqFlags2, b)]);
                }
                return Ok(Some(b));
            }
            if self.hal.deadline_passed(deadline) {
                proof {
                    assert(self.hal_hist() =~= old(self).hal_hist() + poll_steps(
                        Register::IrqFlags2,
                        sep,
                        polls,
                    ) + seq![reg_read(Register::IrqFlags2, b)]);
                }
                return Ok(None);
            }
            self.hal.delay_us(500);
            proof {
                assert(b & 0x04 == 0 ==> b & 0x0c != 0x0c) by (bit_vector);
                lemma_poll_steps_snoc(Register::IrqFlags2, sep, polls, b);
                polls = polls.push(b);
                assert(self.hal_hist() =~= old(self).hal_hist() + poll_steps(
                    Register::IrqFlags2,
                    sep,
                    polls,
                ));
            }
        }
    }

    /// Leaves `Rx`, drains one frame from the FIFO and parses it: the
    /// length byte, the announced bytes, and the reception RSSI.
    fn finish_recv(&mut self) -> (r: Result<Packet, Error>)
        ensures
            Self::preserves(*old(self), *final(self)),
            r matches Ok(p) ==> p@.wf() && final(self).cached_mode() == OpMode::Standby && final(self).hal_fuel() < old(self).hal_fuel() && exists|len_b: u8, body: Seq<u8>, rssi_b: u8|
                3 <= len_b <= 64 && body.len() == len_b && final(self).hal_hist() == old(self).hal_hist() + #[trigger] drain_trace(len_b, body, rssi_b) && p@
                    == spec_from_rx_data(len_b, body, spec_rssi_dbm(rssi_b)),
            r matches Err(e) ==> (e is Spi || e is WrongPacketFormat),
    {
        match self.set_mode(OpMode::Standby) {
            Ok(()) => (),
            Err(e) => {
                return Err(e);
            },
        }
        let len_b = match self.read_register(Register::Fifo) {
            Ok(b) => b,
            Err(e) => {
                return Err(e);
            },
        };
        if len_b > 64 {
            return Err(Error::WrongPacketFormat);
        }
        let body = match self.hal.spi_read(Register::Fifo.addr(), len_b as usize) {
            Ok(v) => v,
            Err(_) => {
                return Err(Error::Spi);
            },
        };
        let rssi = match self.read_rssi() {
            Ok(v) => v,
            Err(e) => {
                return Err(e);
            },
        };
        match Packet::from_rx_data(len_b, body.as_slice(), rssi) {
            Ok(p) => {
                proof {
                    let rssi_b = choose|b: u8|
                        self.hal_hist() == old(self).hal_hist().push(
                            reg_write(Register::OpMode, OpMode::Standby.value()),
                        ).push(reg_read(Register::Fifo, len_b)).push(
                            HalEvent::SpiRead { addr: Register::Fifo.spec_addr(), data: body@ },
                        ).push(#[trigger] reg_read(Register::RssiValue, b)) && rssi
                            == spec_rssi_dbm(b);
                    assert(self.hal_hist() =~= old(self).hal_hist() + drain_trace(
                        len_b,
                        body@,
                        rssi_b,
                    ));
                }
                Ok(p)
            },
            Err(_) => Err(Error::WrongPacketFormat),
        }
    }

    /// Sends one frame over the radio and returns when it is on the air.
    ///
    /// The transaction: route `PacketSent` to DIO0 if an interrupt line
    /// is wired; enter `Standby` and poll `IrqFlags1` until `ModeReady`;
    /// clear any FIFO overrun; burst-write the frame's FIFO image; enter
    /// `Tx`; wait for completion (DIO0 edge, or `PacketSent` polls);
    /// return to `Standby`.
    pub fn send(&mut self, packet: &Packet) -> (r: Result<(), Error>)
        requires
            packet@.wf(),
        ensures
            Self::preserves(*old(self), *final(self)),
            r is Ok ==> final(self).cached_mode() == OpMode::Standby && exists|
                polls1: Seq<u8>,
                ready1: u8,
                polls2: Seq<u8>,
                ready2: u8,
            |
                polls_clear(polls1, 0x80) && ready1 & 0x80 != 0 && (old(self).hal_has_irq() || (
                polls_clear(polls2, 0x08) && ready2 & 0x08 != 0)) && final(self).hal_hist() == old(self).hal_hist() + #[trigger] send_trace(
                    packet@,
                    old(self).hal_has_irq(),
                    polls1,
                    ready1,
                    polls2,
                    ready2,
                ),
            r matches Err(e) ==> (e is Spi || e is Dio0),
    {
        let irq = self.hal.irq_line();
        if irq {
            match self.write_register(Register::DioMapping1, 0x00) {
                Ok(()) => (),
                Err(e) => {
                    return Err(e);
                },
            }
        }
        match self.set_mode(OpMode::Standby) {
            Ok(()) => (),
            Err(e) => {
                return Err(e);
            },
        }
        self.hal.delay_ms(1);
        let ghost h_poll = self.hal_hist();
        let ready1 = match self.wait_mode_ready() {
            Ok(b) => b,
            Err(e) => {
                return Err(e);
            },
        };
        let ghost polls1 = choose|polls: Seq<u8>|
            polls_clear(polls, 0x80) && self.hal_hist() == h_poll + #[trigger] poll_steps(
                Register::IrqFlags1,
                seq![HalEvent::DelayMs(500)],
                polls,
            ) + seq![reg_read(Register::IrqFlags1, ready1)];
        match self.reset_fifo() {
            Ok(()) => (),
            Err(e) => {
                return Err(e);
            },
        }
        self.hal.delay_ms(1);
        let wire = packet.to_slice();
        match self.write_registers(Register::Fifo, wire.as_slice()) {
            Ok(()) => (),
            Err(e) => {
                return Err(e);
            },
        }
        match self.set_mode(OpMode::Tx) {
            Ok(()) => (),
            Err(e) => {
                return Err(e);
            },
        }
        let ghost h_wait = self.hal_hist();
        let ghost mut polls2: Seq<u8> = Seq::empty();
        let ghost mut ready2: u8 = 0;
        if irq {
            match self.hal.irq_wait_high() {
                Ok(()) => (),
                Err(_) => {
                    return Err(Error::Dio0);
                },
            }
        } else {
            let rb = match self.wait_packet_sent() {
                Ok(b) => b,
                Err(e) => {
                    return Err(e);
                },
            };
            proof {
                ready2 = rb;
                polls2 = choose|polls: Seq<u8>|
                    polls_clear(polls, 0x08) && self.hal_hist() == h_wait + #[trigger] poll_steps(
                        Register::IrqFlags2,
                        Seq::empty(),
                        polls,
                    ) + seq![reg_read(Register::IrqFlags2, rb)];
            }
        }
        match self.set_mode(OpMode::Standby) {
            Ok(()) => (),
            Err(e) => {
                return Err(e);
            },
        }
        proof {
            assert(self.hal_hist() =~= old(self).hal_hist() + send_trace(
                packet@,
                old(self).hal_has_irq(),
                polls1,
                ready1,
                polls2,
                ready2,
            ));
        }
        Ok(())
    }

    /// Receives one frame over the radio.
    ///
    /// The transaction: route `PayloadReady` to DIO0 if an interrupt
    /// line is wired; enter `Rx`; wait for a frame (DIO0 edge, or
    /// `PayloadReady` polls with 500 us pauses); return to `Standby`;
    /// read the length byte and the announced bytes from the FIFO; read
    /// the RSSI; parse. A length byte that does not fit a frame fails
    /// with `WrongPacketFormat`.
    pub fn recv(&mut self) -> (r: Result<Packet, Error>)
        ensures
            Self::preserves(*old(self), *final(self)),
            r matches Ok(p) ==> p@.wf() && final(self).cached_mode() == OpMode::Standby && final(self).hal_fuel() < old(self).hal_fuel() && exists|
                polls: Seq<u8>,
                ready: u8,
                len_b: u8,
                body: Seq<u8>,
                rssi_b: u8,
            |
                polls_clear(polls, 0x04) && (old(self).hal_has_irq() || ready & 0x04 != 0) && 3
                    <= len_b <= 64 && body.len() == len_b && final(self).hal_hist() == old(self).hal_hist() + #[trigger] recv_trace(
                    old(self).hal_has_irq(),
                    polls,
                    ready,
                    len_b,
                    body,
                    rssi_b,
                ) && p@ == spec_from_rx_data(len_b, body, spec_rssi_dbm(rssi_b)),
            r matches Err(e) ==> (e is Spi || e is Dio0 || e is WrongPacketFormat),
    {
        let irq = self.hal.irq_line();
        if irq {
            match self.write_register(Register::DioMapping1, 0x40) {
                Ok(()) => (),
                Err(e) => {
                    return Err(e);
                },
            }
        }
        match self.set_mode(OpMode::Rx) {
            Ok(()) => (),
            Err(e) => {
                return Err(e);
            },
        }
        let ghost h_wait = self.hal_hist();
        let ghost mut polls: Seq<u8> = Seq::empty();
        let ghost mut ready: u8 = 0;
        if irq {
            match self.hal.irq_wait_high() {
                Ok(()) => (),
                Err(_) => {
                    return Err(Error::Dio0);
                },
            }
        } else {
            let rb = match self.wait_payload_ready() {
                Ok(b) => b,
                Err(e) => {
                    return Err(e);
                },
            };
            proof {
                ready = rb;
                polls = choose|p: Seq<u8>|
                    polls_clear(p, 0x04) && self.hal_hist() == h_wait + #[trigger] poll_steps(
                        Register::IrqFlags2,
                        seq![HalEvent::DelayUs(500)],
                        p,
                    ) + seq![reg_read(Register::IrqFlags2, rb)];
            }
        }
        let ghost h_drain = self.hal_hist();
        let p = match self.finish_recv() {
            Ok(p) => p,
            Err(e) => {
                return Err(e);
            },
        };
        proof {
            let (len_b, body, rssi_b) = choose|len_b: u8, body: Seq<u8>, rssi_b: u8|
                3 <= len_b <= 64 && body.len() == len_b && self.hal_hist() == h_drain
                    + #[trigger] drain_trace(len_b, body, rssi_b) && p@ == spec_from_rx_data(
                    len_b,
                    body,
                    spec_rssi_dbm(rssi_b),
                );
            assert(self.hal_hist() =~= old(self).hal_hist() + recv_trace(
                old(self).hal_has_irq(),
                polls,
                ready,
                len_b,
                body,
                rssi_b,
            ));
        }
        Ok(p)
    }

    /// Receives one frame, giving up once the deadline passes;
    /// `Ok(None)` means nothing arrived in time, with the radio left in
    /// `Rx` exactly as an abandoned receive leaves it.
    fn recv_deadline(&mut self, deadline: u64) -> (r: Result<Option<Packet>, Error>)
        ensures
            Self::preserves(*old(self), *final(self)),
            r matches Ok(Some(p)) ==> p@.wf() && final(self).cached_mode() == OpMode::Standby
                && final(self).hal_fuel() < old(self).hal_fuel() && exists|
                polls: Seq<u8>,
                ready: u8,
                len_b: u8,
                body: Seq<u8>,
                rssi_b: u8,
            |
                polls_clear(polls, 0x04) && (old(self).hal_has_irq() || ready & 0x04 != 0) && 3
                    <= len_b <= 64 && body.len() == len_b && final(self).hal_hist() == old(self).hal_hist() + #[trigger] recv_trace(
                    old(self).hal_has_irq(),
                    polls,
                    ready,
                    len_b,
                    body,
                    rssi_b,
                ) && p@ == spec_from_rx_data(len_b, body, spec_rssi_dbm(rssi_b)),
            r matches Ok(o) ==> (o is None ==> exists|polls: Seq<u8>, last: u8|
                polls_clear(polls, 0x04) && (old(self).hal_has_irq() || last & 0x04 == 0) && final(self).hal_hist() == old(self).hal_hist() + #[trigger] recv_wait_trace(
                    old(self).hal_has_irq(),
                    polls,
                    last,
                )),
            r matches Err(e) ==> (e is Spi || e is Dio0 || e is WrongPacketFormat),
    {
        let irq = self.hal.irq_line();
        if irq {
            match self.write_register(Register::DioMapping1, 0x40) {
                Ok(()) => (),
                Err(e) => {
                    return Err(e);
                },
            }
        }
        match self.set_mode(OpMode::Rx) {
            Ok(()) => (),
            Err(e) => {
                return Err(e);
            },
        }
        let ghost h_wait = self.hal_hist();
        let ghost mut polls: Seq<u8> = Seq::empty();
        let ghost mut ready: u8 = 0;
        if irq {
            match self.hal.irq_wait_high_until(deadline) {
                Ok(true) => (),
                Ok(false) => {
                    proof {
                        assert(self.hal_hist() =~= old(self).hal_hist() + recv_wait_trace(
                            old(self).hal_has_irq(),
                            polls,
                            ready,
                        ));
                    }
                    return Ok(None);
                },
                Err(_) => {
                    return Err(Error::Dio0);
                },
            }
        } else {
            let rb = match self.wait_payload_ready_until(deadline) {
                Ok(Some(b)) => b,
                Ok(None) => {
                    proof {
                        let (ps, last) = choose|ps: Seq<u8>, last: u8|
                            polls_clear(ps, 0x04) && last & 0x04 == 0 && self.hal_hist() == h_wait
                                + #[trigger] poll_steps(
                                Register::IrqFlags2,
                                seq![HalEvent::DelayUs(500)],
                                ps,
                            ) + seq![#[trigger] reg_read(Register::IrqFlags2, last)];
                        assert(self.hal_hist() =~= old(self).hal_hist() + recv_wait_trace(
                            old(self).hal_has_irq(),
                            ps,
                            last,
                        ));
                    }
                    return Ok(None);
                },
                Err(e) => {
                    return Err(e);
                },
            };
            proof {
                ready = rb;
                polls = choose|p: Seq<u8>|
                    polls_clear(p, 0x04) && self.hal_hist() == h_wait + #[trigger] poll_steps(
                        Register::IrqFlags2,
                        seq![HalEvent::DelayUs(500)],
                        p,
                    ) + seq![reg_read(Register::IrqFlags2, rb)];
            }
        }
        let ghost h_drain = self.hal_hist();
        let p = match self.finish_recv() {
            Ok(p) => p,
            Err(e) => {
                return Err(e);
            },
        };
        proof {
            let (len_b, body, rssi_b) = choose|len_b: u8, body: Seq<u8>, rssi_b: u8|
                3 <= len_b <= 64 && body.len() == len_b && self.hal_hist() == h_drain
                    + #[trigger] drain_trace(len_b, body, rssi_b) && p@ == spec_from_rx_data(
                    len_b,
                    body,
                    spec_rssi_dbm(rssi_b),
                );
            assert(self.hal_hist() =~= old(self).hal_hist() + recv_trace(
                old(self).hal_has_irq(),
                polls,
                ready,
                len_b,
                body,
                rssi_b,
            ));
        }
        Ok(Some(p))
    }
}

impl<H: RadioHal> Transceiver for Rfm69<H> {
    closed spec fn hist(&self) -> Seq<TrxEvent> {
        self.trx_log@
    }

    closed spec fn fuel(&self) -> nat {
        self.hal.fuel()
    }

    fn send(&mut self, packet: &Packet) -> (r: Result<(), TrxError>) {
        match Rfm69::send(self, packet) {
            Ok(()) => {
                proof {
                    self.trx_log@ = self.trx_log@.push(TrxEvent::Sent(packet@));
                }
                Ok(())
            },
            Err(e) => Err(TrxError::from(e)),
        }
    }

    fn recv(&mut self) -> (r: Result<Packet, TrxError>) {
        match Rfm69::recv(self) {
            Ok(p) => {
                proof {
                    self.trx_log@ = self.trx_log@.push(TrxEvent::Delivered(p@));
                }
                Ok(p)
            },
            Err(e) => Err(TrxError::from(e)),
        }
    }

    fn deadline_from_now(&mut self, ms: u64) -> (d: u64) {
        self.hal.deadline_from_now(ms)
    }

    fn recv_until(&mut self, deadline: u64) -> (r: Result<Option<Packet>, TrxError>) {
        match self.recv_deadline(deadline) {
            Ok(Some(p)) => {
                proof {
                    self.trx_log@ = self.trx_log@.push(TrxEvent::Delivered(p@));
                }
                Ok(Some(p))
            },
            Ok(None) => {
                proof {
                    self.trx_log@ = self.trx_log@.push(TrxEvent::TimedOut);
                }
                Ok(None)
            },
            Err(e) => Err(TrxError::from(e)),
        }
    }

    fn pause_ms(&mut self, ms: u32) {
        self.hal.delay_ms(ms);
        proof {
            self.trx_log@ = self.trx_log@.push(TrxEvent::Paused(ms));
        }
    }
}

} // verus!
