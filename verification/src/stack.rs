//! The stop-and-wait MAC over any [`Transceiver`].
//!
//! The MAC owns the node's address. Transmits are unicast, broadcast or
//! acknowledged unicast with retry; receives filter on the destination
//! and generate MAC-level acknowledgement replies. Every contract pins
//! the exact sequence of transceiver events an operation performs.

use vstd::prelude::*;

use crate::address::Address;
use crate::flags::Flags;
use crate::packet::{Packet, PacketView};
use crate::traits::{Transceiver, TrxError, TrxEvent};

verus! {

/// How long a sender waits for an acknowledgement after each transmit,
/// in milliseconds.
pub const MAC_ACK_TIMEOUT_MS: u64 = 50;

/// How long a receiver holds its acknowledgement reply back so the
/// original sender can switch from transmit to receive, in
/// milliseconds.
pub const MAC_ACK_TX_DELAY_MS: u32 = 10;

/// How long a sender pauses after a lost acknowledgement before the
/// next attempt, in milliseconds.
pub const TX_RETRY_DELAY_MS: u32 = 200;

/// Errors of a MAC transmit.
#[derive(Debug, Clone, Copy, PartialEq, Eq, Structural)]
pub enum TxError {
    /// Every attempt of an acknowledged transmit ran out of its
    /// acknowledgement window.
    AckTimeout,
    /// The transceiver failed.
    TrxError(TrxError),
}

/// The frame a MAC at `own` builds for a transmit.
pub open spec fn mac_frame(own: Address, dst: Address, flags: Flags, data: Seq<u8>) -> PacketView {
    PacketView { src: own, dst, flags, data, rssi: None }
}

/// The acknowledgement frame a node at `own` replies to `peer` with:
/// `Ack(0)`, so that the reply itself asks for no acknowledgement.
pub open spec fn ack_frame(own: Address, peer: Address) -> PacketView {
    PacketView {
        src: own,
        dst: peer,
        flags: Flags::Ack(0),
        data: Seq::empty(),
        rssi: None::<i16>,
    }
}

/// Whether `p` is the acknowledgement a sender at `own` awaits from
/// `peer`: it comes from the peer, is addressed to the sender and
/// carries any acknowledgement flag.
pub open spec fn is_expected_ack(p: PacketView, own: Address, peer: Address) -> bool {
    p.src == peer && p.dst == own && p.is_ack()
}

/// Whether a node at `own` accepts a frame with destination `dst`:
/// broadcasts always, unicasts only to its own address.
pub open spec fn accepts(dst: Address, own: Address) -> bool {
    dst is Broadcast || (dst is Unicast && dst == own)
}

/// Whether receiving `p` at `own` obliges an acknowledgement reply: the
/// frame was unicast to this node and asks for an acknowledgement with
/// a positive retry count. Broadcasts are never acknowledged.
pub open spec fn ack_due(p: PacketView, own: Address) -> bool {
    p.dst is Unicast && p.dst == own && (match p.flags {
        Flags::Ack(n) => n > 0,
        Flags::NoFlags => false,
    })
}

/// The given frames, delivered in order.
pub open spec fn delivered(ps: Seq<PacketView>) -> Seq<TrxEvent> {
    ps.map_values(|p: PacketView| TrxEvent::Delivered(p))
}

/// One timed-out attempt of an acknowledged transmit: the frame went
/// out, only unrelated frames arrived, the window closed.
pub open spec fn failed_attempt(f: PacketView, junk: Seq<PacketView>) -> Seq<TrxEvent> {
    seq![TrxEvent::Sent(f)] + delivered(junk) + seq![TrxEvent::TimedOut]
}

/// Timed-out attempts each followed by the retry pause, in order.
pub open spec fn failed_attempts(f: PacketView, junks: Seq<Seq<PacketView>>) -> Seq<TrxEvent>
    decreases junks.len(),
{
    if junks.len() == 0 {
        Seq::empty()
    } else {
        failed_attempt(f, junks[0]) + seq![TrxEvent::Paused(TX_RETRY_DELAY_MS)]
            + failed_attempts(f, junks.skip(1))
    }
}

/// A full run of timed-out attempts: the retry pause follows every
/// attempt but the last, after which the transmit gives up.
pub open spec fn exhausted_attempts(f: PacketView, junks: Seq<Seq<PacketView>>) -> Seq<TrxEvent>
    recommends
        junks.len() >= 1,
{
    failed_attempts(f, junks.drop_last()) + failed_attempt(f, junks.last())
}

/// No frame of `ps` is the acknowledgement awaited from `peer`.
pub open spec fn junk_only(ps: Seq<PacketView>, own: Address, peer: Address) -> bool {
    forall|i: int| 0 <= i < ps.len() ==> !is_expected_ack(#[trigger] ps[i], own, peer)
}

/// No frame of any attempt is the awaited acknowledgement.
pub open spec fn all_junk(junks: Seq<Seq<PacketView>>, own: Address, peer: Address) -> bool {
    forall|i: int| 0 <= i < junks.len() ==> junk_only(#[trigger] junks[i], own, peer)
}

/// No frame of `ps` passes the destination filter of a node at `own`.
pub open spec fn dropped_only(ps: Seq<PacketView>, own: Address) -> bool {
    forall|i: int| 0 <= i < ps.len() ==> !accepts((#[trigger] ps[i]).dst, own)
}

/// Delivering one more frame extends the event run at its end.
proof fn lemma_delivered_snoc(ps: Seq<PacketView>, p: PacketView)
    ensures
        delivered(ps.push(p)) == delivered(ps) + seq![TrxEvent::Delivered(p)],
{
    assert(delivered(ps.push(p)) =~= delivered(ps) + seq![TrxEvent::Delivered(p)]);
}

/// One more timed-out attempt extends the attempt run at its end.
proof fn lemma_failed_attempts_snoc(f: PacketView, junks: Seq<Seq<PacketView>>, j: Seq<PacketView>)
    ensures
        failed_attempts(f, junks.push(j)) == failed_attempts(f, junks) + failed_attempt(f, j)
            + seq![TrxEvent::Paused(TX_RETRY_DELAY_MS)],
    decreases junks.len(),
{
    if junks.len() == 0 {
        assert(junks =~= Seq::<Seq<PacketView>>::empty());
        assert(junks.push(j).skip(1) =~= Seq::<Seq<PacketView>>::empty());
        assert(junks.push(j)[0] == j);
        assert(failed_attempts(f, Seq::<Seq<PacketView>>::empty())
            == Seq::<TrxEvent>::empty());
        assert(failed_attempts(f, junks.push(j)) =~= failed_attempts(f, junks) + failed_attempt(
            f,
            j,
        ) + seq![TrxEvent::Paused(TX_RETRY_DELAY_MS)]);
    } else {
        assert(junks.push(j).skip(1) =~= junks.skip(1).push(j));
        lemma_failed_attempts_snoc(f, junks.skip(1), j);
        assert(failed_attempts(f, junks.push(j)) =~= failed_attempts(f, junks) + failed_attempt(
            f,
            j,
        ) + seq![TrxEvent::Paused(TX_RETRY_DELAY_MS)]);
    }
}

/// How many frames a run of transceiver events puts on the air.
pub open spec fn sent_count(evs: Seq<TrxEvent>) -> nat
    decreases evs.len(),
{
    if evs.len() == 0 {
        0nat
    } else {
        (if evs[0] is Sent {
            1nat
        } else {
            0nat
        }) + sent_count(evs.skip(1))
    }
}

proof fn lemma_sent_count_concat(a: Seq<TrxEvent>, b: Seq<TrxEvent>)
    ensures
        sent_count(a + b) == sent_count(a) + sent_count(b),
    decreases a.len(),
{
    if a.len() == 0 {
        assert(a + b =~= b);
    } else {
        assert((a + b).skip(1) =~= a.skip(1) + b);
        lemma_sent_count_concat(a.skip(1), b);
        assert((a + b)[0] == a[0]);
    }
}

proof fn lemma_sent_count_delivered(ps: Seq<PacketView>)
    ensures
        sent_count(delivered(ps)) == 0,
    decreases ps.len(),
{
    if ps.len() == 0 {
    } else {
        assert(delivered(ps).skip(1) =~= delivered(ps.skip(1)));
        lemma_sent_count_delivered(ps.skip(1));
        assert(delivered(ps)[0] == TrxEvent::Delivered(ps[0]));
    }
}

proof fn lemma_sent_count_single(e: TrxEvent)
    ensures
        sent_count(seq![e]) == (if e is Sent {
            1nat
        } else {
            0nat
        }),
{
    assert(seq![e].skip(1) =~= Seq::<TrxEvent>::empty());
    assert(sent_count(Seq::<TrxEvent>::empty()) == 0);
    assert(seq![e][0] == e);
}

proof fn lemma_sent_count_failed_attempt(f: PacketView, junk: Seq<PacketView>)
    ensures
        sent_count(failed_attempt(f, junk)) == 1,
{
    lemma_sent_count_concat(seq![TrxEvent::Sent(f)] + delivered(junk), seq![TrxEvent::TimedOut]);
    lemma_sent_count_concat(seq![TrxEvent::Sent(f)], delivered(junk));
    lemma_sent_count_delivered(junk);
    lemma_sent_count_single(TrxEvent::Sent(f));
    lemma_sent_count_single(TrxEvent::TimedOut);
}

proof fn lemma_sent_count_failed_attempts(f: PacketView, junks: Seq<Seq<PacketView>>)
    ensures
        sent_count(failed_attempts(f, junks)) == junks.len(),
    decreases junks.len(),
{
    if junks.len() == 0 {
    } else {
        lemma_sent_count_concat(
            failed_attempt(f, junks[0]) + seq![TrxEvent::Paused(TX_RETRY_DELAY_MS)],
            failed_attempts(f, junks.skip(1)),
        );
        lemma_sent_count_concat(
            failed_attempt(f, junks[0]),
            seq![TrxEvent::Paused(TX_RETRY_DELAY_MS)],
        );
        lemma_sent_count_failed_attempt(f, junks[0]);
        lemma_sent_count_single(TrxEvent::Paused(TX_RETRY_DELAY_MS));
        lemma_sent_count_failed_attempts(f, junks.skip(1));
    }
}

/// An acknowledged transmit that succeeds after `junks.len()` lost
/// acknowledgement windows puts exactly `junks.len() + 1` frames on
/// the air: its event run — the shape [`Stack::send_packet`] ensures
/// on success — contains that many transmissions and no other.
pub proof fn lemma_ack_send_success_transmissions(
    f: PacketView,
    junks: Seq<Seq<PacketView>>,
    lastjunk: Seq<PacketView>,
    ack: PacketView,
)
    ensures
        sent_count(
            failed_attempts(f, junks) + seq![TrxEvent::Sent(f)] + delivered(lastjunk) + seq![
                TrxEvent::Delivered(ack),
            ],
        ) == junks.len() + 1,
{
    let a = failed_attempts(f, junks);
    let b = seq![TrxEvent::Sent(f)];
    let c = delivered(lastjunk);
    let d = seq![TrxEvent::Delivered(ack)];
    lemma_sent_count_concat(a + b + c, d);
    lemma_sent_count_concat(a + b, c);
    lemma_sent_count_concat(a, b);
    lemma_sent_count_failed_attempts(f, junks);
    lemma_sent_count_delivered(lastjunk);
    lemma_sent_count_single(TrxEvent::Sent(f));
    lemma_sent_count_single(TrxEvent::Delivered(ack));
}

/// An acknowledged transmit that runs out of attempts puts exactly one
/// frame on the air per attempt: the event run of `junks.len()`
/// exhausted attempts — the shape [`Stack::send_packet`] ensures on
/// `AckTimeout` — contains exactly `junks.len()` transmissions.
pub proof fn lemma_ack_send_exhausted_transmissions(f: PacketView, junks: Seq<Seq<PacketView>>)
    requires
        junks.len() >= 1,
    ensures
        sent_count(exhausted_attempts(f, junks)) == junks.len(),
{
    lemma_sent_count_concat(failed_attempts(f, junks.drop_last()), failed_attempt(f, junks.last()));
    lemma_sent_count_failed_attempts(f, junks.drop_last());
    lemma_sent_count_failed_attempt(f, junks.last());
}

/// The stop-and-wait MAC: a transceiver and this node's own address.
pub struct Stack<TRX> {
    trx: TRX,
    address: Address,
}

impl<TRX: Transceiver> Stack<TRX> {
    /// Everything the transceiver has done, oldest first.
    pub closed spec fn hist(&self) -> Seq<TrxEvent> {
        self.trx.hist()
    }

    /// The transceiver's remaining delivery budget.
    pub closed spec fn fuel(&self) -> nat {
        self.trx.fuel()
    }

    /// This node's own address.
    pub closed spec fn addr(&self) -> Address {
        self.address
    }

    /// Returns a MAC over the given transceiver, owning `address`.
    pub fn new(trx: TRX, address: Address) -> (r: Self)
        ensures
            r.hist() == trx.hist(),
            r.fuel() == trx.fuel(),
            r.addr() == address,
    {
        Stack { trx, address }
    }

    /// Lends out the transceiver (for inspection after a run).
    pub fn transceiver(&self) -> (r: &TRX)
        ensures
            r.hist() == self.hist(),
            r.fuel() == self.fuel(),
    {
        &self.trx
    }

    /// Receives frames until the acknowledgement awaited from `from`
    /// arrives (`Ok(true)`) or the deadline closes the window
    /// (`Ok(false)`); every other frame is discarded.
    fn wait_for_mac_ack(&mut self, from: Address, deadline: u64) -> (r: Result<bool, TrxError>)
        ensures
            final(self).fuel() <= old(self).fuel(),
            final(self).addr() == old(self).addr(),
            r == Ok::<bool, TrxError>(true) ==> exists|junk: Seq<PacketView>, ack: PacketView|
                #[trigger] junk_only(junk, old(self).addr(), from) && #[trigger] is_expected_ack(
                    ack,
                    old(self).addr(),
                    from,
                ) && final(self).hist() == old(self).hist() + delivered(junk) + seq![
                    TrxEvent::Delivered(ack),
                ],
            r == Ok::<bool, TrxError>(false) ==> exists|junk: Seq<PacketView>|
                #[trigger] junk_only(junk, old(self).addr(), from) && final(self).hist() == old(
                    self,
                ).hist() + delivered(junk) + seq![TrxEvent::TimedOut],
            r is Err ==> exists|junk: Seq<PacketView>|
                #[trigger] junk_only(junk, old(self).addr(), from) && final(self).hist() == old(
                    self,
                ).hist() + delivered(junk),
    {
        let ghost mut junk: Seq<PacketView> = Seq::empty();
        proof {
            assert(delivered(junk) =~= Seq::<TrxEvent>::empty());
            assert(self.hist() =~= old(self).hist() + delivered(junk));
        }
        loop
            invariant
                junk_only(junk, old(self).addr(), from),
                self.hist() == old(self).hist() + delivered(junk),
                self.fuel() <= old(self).fuel(),
                self.addr() == old(self).addr(),
            decreases self.fuel(),
        {
            let rx_packet = match self.trx.recv_until(deadline) {
                Ok(Some(p)) => p,
                Ok(None) => {
                    proof {
                        assert(self.hist() =~= old(self).hist() + delivered(junk) + seq![
                            TrxEvent::TimedOut,
                        ]);
                    }
                    return Ok(false);
                },
                Err(e) => {
                    return Err(e);
                },
            };
            if rx_packet.src == from && rx_packet.dst == self.address && rx_packet.is_ack() {
                proof {
                    assert(is_expected_ack(rx_packet@, old(self).addr(), from));
                    assert(self.hist() =~= old(self).hist() + delivered(junk) + seq![
                        TrxEvent::Delivered(rx_packet@),
                    ]);
                }
                return Ok(true);
            }
            proof {
                lemma_delivered_snoc(junk, rx_packet@);
                junk = junk.push(rx_packet@);
                assert(self.hist() =~= old(self).hist() + delivered(junk));
            }
        }
    }

    /// Transmits `data` to `dst`.
    ///
    /// With `NoFlags` or `Ack(0)` the frame goes out once, with no wait
    /// for an acknowledgement. With `Ack(r)` and `r >= 1` the MAC
    /// transmits and waits up to [`MAC_ACK_TIMEOUT_MS`] for the
    /// acknowledgement, retrying after a [`TX_RETRY_DELAY_MS`] pause,
    /// up to `r` transmissions in all; it succeeds on the first
    /// acknowledgement and otherwise fails with `AckTimeout`. A payload
    /// over 61 bytes is rejected without touching the radio.
    pub fn send_packet(&mut self, dst: Address, flags: Flags, data: &[u8]) -> (r: Result<
        (),
        TxError,
    >)
        ensures
            final(self).fuel() <= old(self).fuel(),
            final(self).addr() == old(self).addr(),
            data@.len() > 61 ==> r == Err::<(), TxError>(TxError::TrxError(
                TrxError::WrongPacketFormat,
            )) && final(self).hist() == old(self).hist(),
            (flags == Flags::NoFlags || flags == Flags::Ack(0)) && data@.len() <= 61 ==> ({
                let f = mac_frame(old(self).addr(), dst, flags, data@);
                &&& (r is Ok ==> final(self).hist() == old(self).hist() + seq![TrxEvent::Sent(f)])
                &&& (r is Err ==> (r matches Err(TxError::TrxError(_))) && final(self).hist()
                    == old(self).hist())
            }),
            flags matches Flags::Ack(retries) ==> ((retries >= 1 && data@.len() <= 61) ==> ({
                let f = mac_frame(old(self).addr(), dst, flags, data@);
                &&& (r is Ok ==> exists|
                    junks: Seq<Seq<PacketView>>,
                    lastjunk: Seq<PacketView>,
                    ack: PacketView,
                |
                    junks.len() < retries && #[trigger] all_junk(junks, old(self).addr(), dst)
                        && #[trigger] junk_only(lastjunk, old(self).addr(), dst)
                        && #[trigger] is_expected_ack(ack, old(self).addr(), dst)
                        && final(self).hist() == old(self).hist() + failed_attempts(f, junks)
                        + seq![TrxEvent::Sent(f)] + delivered(lastjunk) + seq![
                        TrxEvent::Delivered(ack),
                    ])
                &&& (r == Err::<(), TxError>(TxError::AckTimeout) ==> exists|
                    junks: Seq<Seq<PacketView>>,
                |
                    junks.len() == retries && #[trigger] all_junk(junks, old(self).addr(), dst)
                        && final(self).hist() == old(self).hist() + exhausted_attempts(f, junks))
                &&& (r matches Err(TxError::TrxError(_)) ==> exists|
                    junks: Seq<Seq<PacketView>>,
                    partial: Seq<PacketView>,
                |
                    #[trigger] all_junk(junks, old(self).addr(), dst) && #[trigger] junk_only(
                        partial,
                        old(self).addr(),
                        dst,
                    ) && (final(self).hist() == old(self).hist() + failed_attempts(f, junks)
                        || final(self).hist() == old(self).hist() + failed_attempts(f, junks)
                        + seq![TrxEvent::Sent(f)] + delivered(partial)))
            })),
    {
        let packet = match Packet::new(self.address, dst, flags, data) {
            Ok(p) => p,
            Err(_) => {
                return Err(TxError::TrxError(TrxError::WrongPacketFormat));
            },
        };
        match flags {
            Flags::NoFlags | Flags::Ack(0) => {
                match self.trx.send(&packet) {
                    Ok(()) => Ok(()),
                    Err(e) => Err(TxError::TrxError(e)),
                }
            },
            Flags::Ack(retries) => {
                let ghost own = self.address;
                let ghost f = packet@;
                let ghost mut junks: Seq<Seq<PacketView>> = Seq::empty();
                proof {
                    assert(failed_attempts(f, junks) == Seq::<TrxEvent>::empty());
                    assert(self.hist() =~= old(self).hist() + failed_attempts(f, junks));
                }
                let mut attempt: u8 = 1;
                loop
                    invariant
                        1 <= attempt <= retries,
                        retries >= 1,
                        junks.len() == attempt - 1,
                        all_junk(junks, own, dst),
                        self.hist() == old(self).hist() + failed_attempts(f, junks),
                        self.fuel() <= old(self).fuel(),
                        self.addr() == old(self).addr(),
                        own == old(self).addr(),
                        f == mac_frame(own, dst, flags, data@),
                        packet@ == f,
                        packet@.wf(),
                        flags == Flags::Ack(retries),
                        data@.len() <= 61,
                    decreases retries - attempt,
                {
                    match self.trx.send(&packet) {
                        Ok(()) => (),
                        Err(e) => {
                            proof {
                                assert(junk_only(Seq::<PacketView>::empty(), own, dst));
                                assert(self.hist() =~= old(self).hist() + failed_attempts(
                                    f,
                                    junks,
                                ));
                            }
                            return Err(TxError::TrxError(e));
                        },
                    }
                    let deadline = self.trx.deadline_from_now(MAC_ACK_TIMEOUT_MS);
                    let ghost h_wait = self.hist();
                    match self.wait_for_mac_ack(dst, deadline) {
                        Ok(true) => {
                            proof {
                                let (junk, ack) = choose|junk: Seq<PacketView>, ack: PacketView|
                                    #[trigger] junk_only(junk, own, dst)
                                        && #[trigger] is_expected_ack(ack, own, dst)
                                        && self.hist() == h_wait + delivered(junk)
                                        + seq![TrxEvent::Delivered(ack)];
                                assert(self.hist() =~= old(self).hist() + failed_attempts(f, junks)
                                    + seq![TrxEvent::Sent(f)] + delivered(junk) + seq![
                                    TrxEvent::Delivered(ack),
                                ]);
                            }
                            return Ok(());
                        },
                        Ok(false) => {
                            let ghost jn = choose|junk: Seq<PacketView>|
                                #[trigger] junk_only(junk, own, dst) && self.hist() == h_wait
                                    + delivered(junk) + seq![TrxEvent::TimedOut];
                            if attempt == retries {
                                proof {
                                    assert(junks.push(jn).drop_last() =~= junks);
                                    assert(junks.push(jn).last() == jn);
                                    assert(self.hist() =~= old(self).hist() + exhausted_attempts(
                                        f,
                                        junks.push(jn),
                                    ));
                                    assert(junks.push(jn).len() == retries);
                                    assert(all_junk(junks.push(jn), own, dst));
                                }
                                return Err(TxError::AckTimeout);
                            }
                            self.trx.pause_ms(TX_RETRY_DELAY_MS);
                            proof {
                                lemma_failed_attempts_snoc(f, junks, jn);
                                junks = junks.push(jn);
                                assert(self.hist() =~= old(self).hist() + failed_attempts(
                                    f,
                                    junks,
                                ));
                            }
                            attempt = attempt + 1;
                        },
                        Err(e) => {
                            proof {
                                let junk = choose|junk: Seq<PacketView>|
                                    #[trigger] junk_only(junk, own, dst) && self.hist() == h_wait
                                        + delivered(junk);
                                assert(self.hist() =~= old(self).hist() + failed_attempts(f, junks)
                                    + seq![TrxEvent::Sent(f)] + delivered(junk));
                            }
                            return Err(TxError::TrxError(e));
                        },
                    }
                }
            },
        }
    }

    /// Receives the next frame addressed to this node.
    ///
    /// Frames unicast to other nodes are dropped silently and the wait
    /// continues. A frame unicast to this node that asks for an
    /// acknowledgement is answered — after [`MAC_ACK_TX_DELAY_MS`] —
    /// with an `Ack(0)` reply to its sender; broadcasts are returned
    /// without ever being acknowledged.
    pub fn receive_packet(&mut self) -> (r: Result<Packet, TrxError>)
        ensures
            final(self).fuel() <= old(self).fuel(),
            final(self).addr() == old(self).addr(),
            r matches Ok(p) ==> p@.wf() && accepts(p@.dst, old(self).addr()) && exists|
                junk: Seq<PacketView>,
            |
                #[trigger] dropped_only(junk, old(self).addr()) && ((ack_due(p@, old(self).addr())
                    && final(self).hist() == old(self).hist() + delivered(junk) + seq![
                    TrxEvent::Delivered(p@),
                    TrxEvent::Paused(MAC_ACK_TX_DELAY_MS),
                    TrxEvent::Sent(ack_frame(old(self).addr(), p@.src)),
                ]) || (!ack_due(p@, old(self).addr()) && final(self).hist() == old(self).hist()
                    + delivered(junk) + seq![TrxEvent::Delivered(p@)])),
            r is Err ==> exists|junk: Seq<PacketView>|
                #[trigger] dropped_only(junk, old(self).addr()) && (final(self).hist() == old(
                    self,
                ).hist() + delivered(junk) || exists|p: PacketView|
                    #[trigger] ack_due(p, old(self).addr()) && final(self).hist() == old(
                        self,
                    ).hist() + delivered(junk) + seq![
                        TrxEvent::Delivered(p),
                        TrxEvent::Paused(MAC_ACK_TX_DELAY_MS),
                    ]),
    {
        let ghost own = self.address;
        let ghost mut junk: Seq<PacketView> = Seq::empty();
        proof {
            assert(delivered(junk) =~= Seq::<TrxEvent>::empty());
            assert(self.hist() =~= old(self).hist() + delivered(junk));
        }
        loop
            invariant
                dropped_only(junk, own),
                self.hist() == old(self).hist() + delivered(junk),
                self.fuel() <= old(self).fuel(),
                self.addr() == old(self).addr(),
                own == old(self).addr(),
            decreases self.fuel(),
        {
            let packet = match self.trx.recv() {
                Ok(p) => p,
                Err(e) => {
                    return Err(e);
                },
            };
            let dst = packet.dst;
            match dst {
                Address::Unicast(addr_b) => {
                    if Address::Unicast(addr_b) == self.address {
                        let reply_due = match packet.flags {
                            Flags::Ack(n) => n > 0,
                            Flags::NoFlags => false,
                        };
                        if reply_due {
                            let empty_data: Vec<u8> = Vec::new();
                            let ack = match Packet::new(
                                self.address,
                                packet.src,
                                Flags::Ack(0),
                                empty_data.as_slice(),
                            ) {
                                Ok(a) => a,
                                Err(_) => {
                                    proof {
                                        assert(false);
                                    }
                                    return Err(TrxError::WrongPacketFormat);
                                },
                            };
                            self.trx.pause_ms(MAC_ACK_TX_DELAY_MS);
                            proof {
                                assert(ack@ =~= ack_frame(own, packet@.src));
                            }
                            match self.trx.send(&ack) {
                                Ok(()) => (),
                                Err(e) => {
                                    proof {
                                        assert(ack_due(packet@, own));
                                        assert(self.hist() =~= old(self).hist() + delivered(junk)
                                            + seq![
                                            TrxEvent::Delivered(packet@),
                                            TrxEvent::Paused(MAC_ACK_TX_DELAY_MS),
                                        ]);
                                    }
                                    return Err(e);
                                },
                            }
                            proof {
                                assert(ack_due(packet@, own));
                                assert(self.hist() =~= old(self).hist() + delivered(junk) + seq![
                                    TrxEvent::Delivered(packet@),
                                    TrxEvent::Paused(MAC_ACK_TX_DELAY_MS),
                                    TrxEvent::Sent(ack_frame(own, packet@.src)),
                                ]);
                            }
                            return Ok(packet);
                        }
                        proof {
                            assert(!ack_due(packet@, own));
                            assert(self.hist() =~= old(self).hist() + delivered(junk) + seq![
                                TrxEvent::Delivered(packet@),
                            ]);
                        }
                        return Ok(packet);
                    }
                    proof {
                        assert(!accepts(packet@.dst, own));
                        lemma_delivered_snoc(junk, packet@);
                        junk = junk.push(packet@);
                        assert(self.hist() =~= old(self).hist() + delivered(junk));
                    }
                },
                Address::Broadcast => {
                    proof {
                        assert(accepts(packet@.dst, own));
                        assert(!ack_due(packet@, own));
                        assert(self.hist() =~= old(self).hist() + delivered(junk) + seq![
                            TrxEvent::Delivered(packet@),
                        ]);
                    }
                    return Ok(packet);
                },
            }
        }
    }
}

} // verus!
