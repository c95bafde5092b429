//! The transceiver seam between the MAC and any PHY.
//!
//! The MAC is verified against this trait alone. Every implementation
//! keeps a ghost history of the frames it transmitted and delivered, of
//! the waits that ran out and of the pauses it was asked for, so that
//! the MAC's contracts can pin down the exact sequence of radio actions
//! an operation performs.

use vstd::prelude::*;

use crate::packet::{Packet, PacketView};

verus! {

/// The flat, hardware-agnostic transceiver error the PHY's richer
/// errors collapse into.
#[derive(Debug, Clone, Copy, PartialEq, Eq, Structural)]
pub enum TrxError {
    TrxNotFound,
    Reset,
    Spi,
    Gpio,
    Config,
    WrongPacketFormat,
}

/// One entry of a transceiver's ghost history.
pub ghost enum TrxEvent {
    /// A frame was handed to the radio and fully transmitted.
    Sent(PacketView),
    /// A frame arrived and was handed to the caller.
    Delivered(PacketView),
    /// A bounded wait ended with nothing delivered.
    TimedOut,
    /// The given cooperative pause ran, in milliseconds.
    Paused(u32),
}

/// A device that can move link-layer frames over the air.
///
/// `hist` is the ghost record of everything the device did, oldest
/// first. `fuel` bounds the number of frames the device will still
/// deliver before it reports an error instead: a finite reception
/// budget under which the library's waiting loops are shown to
/// terminate. A scripted test double simply counts its remaining
/// script; for radio hardware the bound expresses that no caller waits
/// on an unbounded stream of traffic forever.
pub trait Transceiver: Sized {
    /// Everything this transceiver has done, oldest first.
    spec fn hist(&self) -> Seq<TrxEvent>;

    /// How many more frames this transceiver can deliver.
    spec fn fuel(&self) -> nat;

    /// Transmits one frame; on success it is appended to the history.
    fn send(&mut self, packet: &Packet) -> (r: Result<(), TrxError>)
        requires
            packet@.wf(),
        ensures
            final(self).fuel() <= old(self).fuel(),
            r is Ok ==> final(self).hist() == old(self).hist().push(TrxEvent::Sent(packet@)),
            r is Err ==> final(self).hist() == old(self).hist(),
    ;

    /// Waits for the next frame, however long that takes.
    fn recv(&mut self) -> (r: Result<Packet, TrxError>)
        ensures
            final(self).fuel() <= old(self).fuel(),
            r matches Ok(p) ==> final(self).hist() == old(self).hist().push(
                TrxEvent::Delivered(p@),
            ) && p@.wf() && final(self).fuel() < old(self).fuel(),
            r is Err ==> final(self).hist() == old(self).hist(),
    ;

    /// Turns a relative wait budget in milliseconds into an absolute
    /// deadline for [`Transceiver::recv_until`].
    fn deadline_from_now(&mut self, ms: u64) -> (d: u64)
        ensures
            final(self).hist() == old(self).hist(),
            final(self).fuel() == old(self).fuel(),
    ;

    /// Waits for the next frame, but not beyond the deadline; `None`
    /// means the deadline passed with nothing delivered.
    fn recv_until(&mut self, deadline: u64) -> (r: Result<Option<Packet>, TrxError>)
        ensures
            final(self).fuel() <= old(self).fuel(),
            r matches Ok(Some(p)) ==> final(self).hist()
                == old(self).hist().push(TrxEvent::Delivered(p@)) && p@.wf()
                && final(self).fuel() < old(self).fuel(),
            r matches Ok(o) ==> (o is None ==> final(self).hist() == old(self).hist().push(
                TrxEvent::TimedOut,
            )),
            r is Err ==> final(self).hist() == old(self).hist(),
    ;

    /// Pauses cooperatively for the given number of milliseconds.
    fn pause_ms(&mut self, ms: u32)
        ensures
            final(self).fuel() <= old(self).fuel(),
            final(self).hist() == old(self).hist().push(TrxEvent::Paused(ms)),
    ;
}

} // verus!
