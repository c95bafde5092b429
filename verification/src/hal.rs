//! The hardware port beneath the PHY driver.
//!
//! The RFM69 hangs off an SPI bus, a reset output, an optional
//! interrupt input (DIO0) and a delay source. This trait gathers those
//! four capabilities into one port and keeps a ghost history of every
//! operation that crossed it, so the driver's contracts can state the
//! exact transaction sequence of each operation.
//!
//! The SPI register protocol: a read transmits the register address with
//! bit 7 clear and then reads `n` bytes under one chip select; a write
//! transmits all its bytes (the address with bit 7 set, then the data)
//! under one chip select. Multi-byte transfers rely on the chip's
//! register auto-increment.

use vstd::prelude::*;

verus! {

/// A port operation failed (pin drive, SPI transaction or edge wait).
#[derive(Debug, Clone, Copy, PartialEq, Eq, Structural)]
pub struct HalError;

/// One entry of a port's ghost history.
pub ghost enum HalEvent {
    /// One SPI write window: every byte sent, address byte first.
    SpiWrite(Seq<u8>),
    /// One SPI read window: the address byte sent, then the bytes read.
    SpiRead { addr: u8, data: Seq<u8> },
    /// The reset line was driven high.
    ResetHigh,
    /// The reset line was driven low.
    ResetLow,
    /// A cooperative delay of the given milliseconds.
    DelayMs(u32),
    /// A cooperative delay of the given microseconds.
    DelayUs(u32),
    /// A wait on the interrupt line ran (it may have ended on the edge
    /// or on a deadline; the call's result says which).
    IrqWait,
}

/// The hardware port of one RFM69: SPI, reset pin, optional interrupt
/// pin and delays.
///
/// `hist` is the ghost record of every operation performed, oldest
/// first. `fuel` bounds how often the radio may still answer a status
/// poll with "not ready" (and how many frames it may still hand over):
/// a finite readiness budget under which the driver's poll loops are
/// shown to terminate. A scripted test double counts its remaining
/// script; for hardware the bound expresses that a radio that never
/// becomes ready would otherwise hold its caller forever.
pub trait RadioHal: Sized {
    /// Everything this port has done, oldest first.
    spec fn hist(&self) -> Seq<HalEvent>;

    /// The remaining readiness budget.
    spec fn fuel(&self) -> nat;

    /// Whether an interrupt line (DIO0) is wired up.
    spec fn has_irq(&self) -> bool;

    /// Reports whether an interrupt line is wired up.
    fn irq_line(&self) -> (b: bool)
        ensures
            b == self.has_irq(),
    ;

    /// Performs one SPI write window transmitting exactly `data`.
    fn spi_write(&mut self, data: &[u8]) -> (r: Result<(), HalError>)
        ensures
            final(self).fuel() <= old(self).fuel(),
            final(self).has_irq() == old(self).has_irq(),
            r is Ok ==> final(self).hist() == old(self).hist().push(HalEvent::SpiWrite(data@)),
            r is Err ==> final(self).hist() == old(self).hist(),
    ;

    /// Performs one SPI read window: transmits the register address
    /// `addr` (bit 7 clear) and reads back `n` bytes.
    ///
    /// Reading the interrupt-status registers or the FIFO consumes
    /// readiness budget: an `IrqFlags1` byte without `ModeReady`
    /// (`0x80`), an `IrqFlags2` byte missing `PacketSent` (`0x08`) or
    /// `PayloadReady` (`0x04`), and every FIFO drain, each cost fuel.
    fn spi_read(&mut self, addr: u8, n: usize) -> (r: Result<Vec<u8>, HalError>)
        ensures
            final(self).fuel() <= old(self).fuel(),
            final(self).has_irq() == old(self).has_irq(),
            r matches Ok(v) ==> v@.len() == n && final(self).hist() == old(self).hist().push(
                HalEvent::SpiRead { addr, data: v@ },
            ),
            r matches Ok(v) ==> ((addr == 0x27 && n == 1 && v@[0] & 0x80 == 0)
                ==> final(self).fuel() < old(self).fuel()),
            r matches Ok(v) ==> ((addr == 0x28 && n == 1 && v@[0] & 0x0c != 0x0c)
                ==> final(self).fuel() < old(self).fuel()),
            r is Ok && addr == 0x00 ==> final(self).fuel() < old(self).fuel(),
            r is Err ==> final(self).hist() == old(self).hist(),
    ;

    /// Drives the reset line high.
    fn reset_high(&mut self) -> (r: Result<(), HalError>)
        ensures
            final(self).fuel() <= old(self).fuel(),
            final(self).has_irq() == old(self).has_irq(),
            r is Ok ==> final(self).hist() == old(self).hist().push(HalEvent::ResetHigh),
            r is Err ==> final(self).hist() == old(self).hist(),
    ;

    /// Drives the reset line low.
    fn reset_low(&mut self) -> (r: Result<(), HalError>)
        ensures
            final(self).fuel() <= old(self).fuel(),
            final(self).has_irq() == old(self).has_irq(),
            r is Ok ==> final(self).hist() == old(self).hist().push(HalEvent::ResetLow),
            r is Err ==> final(self).hist() == old(self).hist(),
    ;

    /// Delays cooperatively for `ms` milliseconds.
    fn delay_ms(&mut self, ms: u32)
        ensures
            final(self).fuel() <= old(self).fuel(),
            final(self).has_irq() == old(self).has_irq(),
            final(self).hist() == old(self).hist().push(HalEvent::DelayMs(ms)),
    ;

    /// Delays cooperatively for `us` microseconds.
    fn delay_us(&mut self, us: u32)
        ensures
            final(self).fuel() <= old(self).fuel(),
            final(self).has_irq() == old(self).has_irq(),
            final(self).hist() == old(self).hist().push(HalEvent::DelayUs(us)),
    ;

    /// Waits for a rising edge on the interrupt line.
    fn irq_wait_high(&mut self) -> (r: Result<(), HalError>)
        requires
            old(self).has_irq(),
        ensures
            final(self).fuel() <= old(self).fuel(),
            final(self).has_irq() == old(self).has_irq(),
            r is Ok ==> final(self).hist() == old(self).hist().push(HalEvent::IrqWait),
            r is Err ==> final(self).hist() == old(self).hist(),
    ;

    /// Waits for a rising edge on the interrupt line, but not beyond
    /// the deadline; `Ok(false)` means the deadline passed first.
    fn irq_wait_high_until(&mut self, deadline: u64) -> (r: Result<bool, HalError>)
        requires
            old(self).has_irq(),
        ensures
            final(self).fuel() <= old(self).fuel(),
            final(self).has_irq() == old(self).has_irq(),
            r is Ok ==> final(self).hist() == old(self).hist().push(HalEvent::IrqWait),
            r is Err ==> final(self).hist() == old(self).hist(),
    ;

    /// Turns a relative wait budget in milliseconds into an absolute
    /// deadline for [`RadioHal::deadline_passed`].
    fn deadline_from_now(&mut self, ms: u64) -> (d: u64)
        ensures
            final(self).fuel() == old(self).fuel(),
            final(self).has_irq() == old(self).has_irq(),
            final(self).hist() == old(self).hist(),
    ;

    /// Reports whether the deadline has passed.
    fn deadline_passed(&mut self, deadline: u64) -> (b: bool)
        ensures
            final(self).fuel() <= old(self).fuel(),
            final(self).has_irq() == old(self).has_irq(),
            final(self).hist() == old(self).hist(),
    ;
}

} // verus!
