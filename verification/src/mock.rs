//! Scripted in-memory ports for exercising the PHY and the MAC.
//!
//! [`MockHal`] answers the driver's SPI reads from a script and records
//! every port operation; [`MockTransceiver`] delivers scripted frames
//! on a simulated millisecond clock and records every transceiver
//! event. Both prove the contracts of their traits, so everything shown
//! of the driver and the MAC holds over them.

use vstd::prelude::*;

use crate::hal::{HalError, HalEvent, RadioHal};
use crate::packet::Packet;
use crate::traits::{Transceiver, TrxError, TrxEvent};

verus! {

/// One recorded port operation, kept as plain data for assertions.
#[derive(Debug)]
pub enum HalRec {
    SpiWrite(Vec<u8>),
    SpiRead(u8, Vec<u8>),
    ResetHigh,
    ResetLow,
    DelayMs(u32),
    DelayUs(u32),
    IrqWait,
}

/// Copies a byte vector.
fn copy_bytes(v: &[u8]) -> (r: Vec<u8>)
    ensures
        r@ == v@,
{
    let mut r: Vec<u8> = Vec::new();
    let mut i: usize = 0;
    while i < v.len()
        invariant
            i <= v@.len(),
            r@ == v@.subrange(0, i as int),
        decreases v@.len() - i,
    {
        r.push(*vstd::slice::slice_index_get(v, i));
        proof {
            assert(r@ =~= v@.subrange(0, i + 1));
        }
        i = i + 1;
    }
    proof {
        assert(r@ =~= v@);
    }
    r
}

/// A scripted hardware port.
///
/// SPI reads are answered from `reads`, one entry per read, padded or
/// cut to the requested width; a read beyond the script returns `0xFF`
/// bytes (every status bit set), except a FIFO read, which fails. The
/// remaining script entries are the port's readiness budget. All
/// operations are recorded in `log`; the `fail_*` switches make whole
/// operation classes fail for error-path tests.
pub struct MockHal {
    /// Scripted responses for SPI reads, consumed front to back.
    pub reads: Vec<Vec<u8>>,
    /// How many scripted responses are already consumed.
    pub reads_used: usize,
    /// Every port operation performed, oldest first.
    pub log: Vec<HalRec>,
    /// Whether the port pretends an interrupt line is wired.
    pub irq: bool,
    /// Make every SPI operation fail.
    pub fail_spi: bool,
    /// Make every reset-pin operation fail.
    pub fail_reset: bool,
    /// Make every interrupt wait fail.
    pub fail_irq: bool,
    /// The simulated clock, advanced by the delays, in milliseconds.
    pub now_ms: u64,
    hist_log: Ghost<Seq<HalEvent>>,
}

impl MockHal {
    /// Returns a port that answers reads from `reads`, with or without
    /// an interrupt line.
    pub fn new(reads: Vec<Vec<u8>>, irq: bool) -> (r: Self)
        ensures
            r.hist() == Seq::<HalEvent>::empty(),
            r.has_irq() == irq,
    {
        MockHal {
            reads,
            reads_used: 0,
            log: Vec::new(),
            irq,
            fail_spi: false,
            fail_reset: false,
            fail_irq: false,
            now_ms: 0,
            hist_log: Ghost(Seq::empty()),
        }
    }
}

impl RadioHal for MockHal {
    closed spec fn hist(&self) -> Seq<HalEvent> {
        self.hist_log@
    }

    closed spec fn fuel(&self) -> nat {
        if self.reads_used <= self.reads@.len() {
            (self.reads@.len() - self.reads_used) as nat
        } else {
            0
        }
    }

    closed spec fn has_irq(&self) -> bool {
        self.irq
    }

    fn irq_line(&self) -> (b: bool) {
        self.irq
    }

    fn spi_write(&mut self, data: &[u8]) -> (r: Result<(), HalError>) {
        if self.fail_spi {
            return Err(HalError);
        }
        self.log.push(HalRec::SpiWrite(copy_bytes(data)));
        proof {
            self.hist_log@ = self.hist_log@.push(HalEvent::SpiWrite(data@));
        }
        Ok(())
    }

    fn spi_read(&mut self, addr: u8, n: usize) -> (r: Result<Vec<u8>, HalError>) {
        if self.fail_spi {
            return Err(HalError);
        }
        let mut data: Vec<u8> = Vec::new();
        if self.reads_used < self.reads.len() {
            let mut i: usize = 0;
            while i < n
                invariant
                    i <= n,
                    data@.len() == i,
                    self.reads_used < self.reads@.len(),
                decreases n - i,
            {
                let entry = &self.reads[self.reads_used];
                if i < entry.len() {
                    data.push(entry[i]);
                } else {
                    data.push(0xFF);
                }
                i = i + 1;
            }
            self.reads_used = self.reads_used + 1;
        } else {
            if addr == 0x00 {
                return Err(HalError);
            }
            let mut i: usize = 0;
            while i < n
                invariant
                    i <= n,
                    data@.len() == i,
                    forall|j: int| 0 <= j < i ==> data@[j] == 0xFFu8,
                decreases n - i,
            {
                data.push(0xFF);
                i = i + 1;
            }
            proof {
                if n == 1 {
                    assert(data@[0] == 0xFFu8);
                    assert(0xFFu8 & 0x80 != 0) by (bit_vector);
                    assert(0xFFu8 & 0x0c == 0x0c) by (bit_vector);
                }
            }
        }
        self.log.push(HalRec::SpiRead(addr, copy_bytes(data.as_slice())));
        proof {
            self.hist_log@ = self.hist_log@.push(HalEvent::SpiRead { addr, data: data@ });
        }
        Ok(data)
    }

    fn reset_high(&mut self) -> (r: Result<(), HalError>) {
        if self.fail_reset {
            return Err(HalError);
        }
        self.log.push(HalRec::ResetHigh);
        proof {
            self.hist_log@ = self.hist_log@.push(HalEvent::ResetHigh);
        }
        Ok(())
    }

    fn reset_low(&mut self) -> (r: Result<(), HalError>) {
        if self.fail_reset {
            return Err(HalError);
        }
        self.log.push(HalRec::ResetLow);
        proof {
            self.hist_log@ = self.hist_log@.push(HalEvent::ResetLow);
        }
        Ok(())
    }

    fn delay_ms(&mut self, ms: u32) {
        let inc = ms as u64;
        self.now_ms = if self.now_ms <= u64::MAX - inc {
            self.now_ms + inc
        } else {
            u64::MAX
        };
        self.log.push(HalRec::DelayMs(ms));
        proof {
            self.hist_log@ = self.hist_log@.push(HalEvent::DelayMs(ms));
        }
    }

    fn delay_us(&mut self, us: u32) {
        self.log.push(HalRec::DelayUs(us));
        proof {
            self.hist_log@ = self.hist_log@.push(HalEvent::DelayUs(us));
        }
    }

    fn irq_wait_high(&mut self) -> (r: Result<(), HalError>) {
        if self.fail_irq {
            return Err(HalError);
        }
        self.log.push(HalRec::IrqWait);
        proof {
            self.hist_log@ = self.hist_log@.push(HalEvent::IrqWait);
        }
        Ok(())
    }

    fn irq_wait_high_until(&mut self, deadline: u64) -> (r: Result<bool, HalError>) {
        if self.fail_irq {
            return Err(HalError);
        }
        self.log.push(HalRec::IrqWait);
        proof {
            self.hist_log@ = self.hist_log@.push(HalEvent::IrqWait);
        }
        Ok(true)
    }

    fn deadline_from_now(&mut self, ms: u64) -> (d: u64) {
        if self.now_ms <= u64::MAX - ms {
            self.now_ms + ms
        } else {
            u64::MAX
        }
    }

    fn deadline_passed(&mut self, deadline: u64) -> (b: bool) {
        self.now_ms >= deadline
    }
}

/// One recorded transceiver event, kept as plain data for assertions.
#[derive(Debug)]
pub enum TrxRec {
    Sent(Packet),
    Delivered(Packet),
    TimedOut,
    Paused(u32),
}

/// One step of a transceiver script.
#[derive(Debug)]
pub enum TrxStep {
    /// A frame that comes off the air at the given simulated
    /// millisecond.
    Deliver(u64, Packet),
    /// The transceiver fails with the given error.
    Fail(TrxError),
}

/// A scripted transceiver over a simulated millisecond clock.
///
/// Frames arrive per `script`, in order; a bounded wait whose deadline
/// lies before the next arrival times out, and an exhausted script
/// times every bounded wait out (and fails unbounded receives).
/// Transmits succeed, take no simulated time and are collected in
/// `sent`; every event is recorded in `events`.
pub struct MockTransceiver {
    /// The scripted arrivals and failures, consumed front to back.
    pub script: Vec<TrxStep>,
    /// How many script steps are already consumed.
    pub steps_used: usize,
    /// The simulated clock, in milliseconds.
    pub now_ms: u64,
    /// Every frame transmitted, oldest first.
    pub sent: Vec<Packet>,
    /// Every transceiver event, oldest first.
    pub events: Vec<TrxRec>,
    /// Make every transmit fail.
    pub fail_send: bool,
    hist_log: Ghost<Seq<TrxEvent>>,
}

impl MockTransceiver {
    /// Returns a transceiver that plays back `script`.
    pub fn new(script: Vec<TrxStep>) -> (r: Self)
        ensures
            r.hist() == Seq::<TrxEvent>::empty(),
            r.fuel() == script@.len(),
    {
        MockTransceiver {
            script,
            steps_used: 0,
            now_ms: 0,
            sent: Vec::new(),
            events: Vec::new(),
            fail_send: false,
            hist_log: Ghost(Seq::empty()),
        }
    }
}

impl Transceiver for MockTransceiver {
    closed spec fn hist(&self) -> Seq<TrxEvent> {
        self.hist_log@
    }

    closed spec fn fuel(&self) -> nat {
        if self.steps_used <= self.script@.len() {
            (self.script@.len() - self.steps_used) as nat
        } else {
            0
        }
    }

    fn send(&mut self, packet: &Packet) -> (r: Result<(), TrxError>) {
        if self.fail_send {
            return Err(TrxError::Spi);
        }
        self.sent.push(packet.clone());
        self.events.push(TrxRec::Sent(packet.clone()));
        proof {
            self.hist_log@ = self.hist_log@.push(TrxEvent::Sent(packet@));
        }
        Ok(())
    }

    fn recv(&mut self) -> (r: Result<Packet, TrxError>) {
        if self.steps_used < self.script.len() {
            let used = self.steps_used;
            self.steps_used = used + 1;
            let step = &self.script[used];
            match step {
                TrxStep::Deliver(at_ms, packet) => {
                    let at = *at_ms;
                    if !packet.is_wf() {
                        return Err(TrxError::WrongPacketFormat);
                    }
                    if self.now_ms < at {
                        self.now_ms = at;
                    }
                    let out = packet.clone();
                    self.events.push(TrxRec::Delivered(out.clone()));
                    proof {
                        self.hist_log@ = self.hist_log@.push(TrxEvent::Delivered(out@));
                    }
                    Ok(out)
                },
                TrxStep::Fail(e) => Err(*e),
            }
        } else {
            Err(TrxError::Spi)
        }
    }

    fn deadline_from_now(&mut self, ms: u64) -> (d: u64) {
        if self.now_ms <= u64::MAX - ms {
            self.now_ms + ms
        } else {
            u64::MAX
        }
    }

    fn recv_until(&mut self, deadline: u64) -> (r: Result<Option<Packet>, TrxError>) {
        if self.steps_used < self.script.len() {
            let used = self.steps_used;
            let arrives_in_time: bool = match &self.script[used] {
                TrxStep::Deliver(at_ms, _) => *at_ms <= deadline,
                TrxStep::Fail(_) => true,
            };
            if arrives_in_time {
                self.steps_used = used + 1;
                let step = &self.script[used];
                match step {
                    TrxStep::Deliver(at_ms, packet) => {
                        let at = *at_ms;
                        if !packet.is_wf() {
                            return Err(TrxError::WrongPacketFormat);
                        }
                        if self.now_ms < at {
                            self.now_ms = at;
                        }
                        let out = packet.clone();
                        self.events.push(TrxRec::Delivered(out.clone()));
                        proof {
                            self.hist_log@ = self.hist_log@.push(TrxEvent::Delivered(out@));
                        }
                        return Ok(Some(out));
                    },
                    TrxStep::Fail(e) => {
                        return Err(*e);
                    },
                }
            }
        }
        if self.now_ms < deadline {
            self.now_ms = deadline;
        }
        self.events.push(TrxRec::TimedOut);
        proof {
            self.hist_log@ = self.hist_log@.push(TrxEvent::TimedOut);
        }
        Ok(None)
    }

    fn pause_ms(&mut self, ms: u32) {
        let inc = ms as u64;
        self.now_ms = if self.now_ms <= u64::MAX - inc {
            self.now_ms + inc
        } else {
            u64::MAX
        };
        self.events.push(TrxRec::Paused(ms));
        proof {
            self.hist_log@ = self.hist_log@.push(TrxEvent::Paused(ms));
        }
    }
}

} // verus!
