//! The link-layer frame and its FIFO wire layout.
//!
//! A frame occupies the radio FIFO as a length byte `L = data.len() + 3`
//! followed by the three-byte header `src, dst, flags` and the payload.
//! The FIFO holds 66 bytes; length byte plus header leave at most 61
//! bytes of payload.

use vstd::prelude::*;
use vstd::slice::slice_subrange;

use crate::address::Address;
use crate::flags::Flags;

verus! {

/// Bounds violations while building or parsing a frame.
#[derive(Debug, Clone, Copy, PartialEq, Eq, Structural)]
pub enum PacketError {
    DataTooLong,
    DataTooShort,
}

/// The payload buffer: an inline, capacity-bounded byte vector.
#[verifier::external_type_specification]
#[verifier::external_body]
#[verifier::reject_recursive_types(T)]
pub struct ExHeaplessVec<T, const N: usize>(heapless::Vec<T, N>);

/// The bytes a payload buffer holds.
pub uninterp spec fn payload_seq(v: heapless::Vec<u8, 61>) -> Seq<u8>;

/// Relies on `heapless::Vec::from_slice`: it copies the slice into a new
/// vector when the bytes fit the capacity and fails otherwise, without
/// touching anything on failure.
#[verifier::external_body]
fn payload_from_slice(data: &[u8]) -> (r: Option<heapless::Vec<u8, 61>>)
    ensures
        r is Some <==> data@.len() <= 61,
        r matches Some(v) ==> payload_seq(v) == data@,
{
    match heapless::Vec::from_slice(data) {
        Ok(v) => Some(v),
        Err(()) => None,
    }
}

/// Relies on `heapless::Vec::as_slice`: the slice of exactly the bytes
/// the vector holds.
#[verifier::external_body]
fn payload_bytes<'a>(v: &'a heapless::Vec<u8, 61>) -> (r: &'a [u8])
    ensures
        r@ == payload_seq(*v),
{
    v.as_slice()
}

/// Relies on `heapless::Vec::clone`: an element-wise copy of the bytes.
#[verifier::external_body]
fn payload_duplicate(v: &heapless::Vec<u8, 61>) -> (r: heapless::Vec<u8, 61>)
    ensures
        payload_seq(r) == payload_seq(*v),
{
    v.clone()
}

/// The mathematical model of a frame: its header fields, payload bytes
/// and the signal strength recorded at reception, if any.
pub ghost struct PacketView {
    pub src: Address,
    pub dst: Address,
    pub flags: Flags,
    pub data: Seq<u8>,
    pub rssi: Option<i16>,
}

impl PacketView {
    /// A frame is well formed when its payload fits the FIFO budget.
    pub open spec fn wf(self) -> bool {
        self.data.len() <= 61
    }

    /// Two frames carry the same link-layer content; the reception-side
    /// signal strength is not part of the comparison.
    pub open spec fn same_frame(self, other: PacketView) -> bool {
        &&& self.src == other.src
        &&& self.dst == other.dst
        &&& self.flags == other.flags
        &&& self.data == other.data
    }

    /// The FIFO image of the frame: length byte, header, payload.
    pub open spec fn wire_bytes(self) -> Seq<u8> {
        seq![
            (self.data.len() + 3) as u8,
            self.src.spec_as_u8(),
            self.dst.spec_as_u8(),
            self.flags.spec_as_u8(),
        ] + self.data
    }

    /// Whether the frame requests or carries an acknowledgement.
    pub open spec fn is_ack(self) -> bool {
        self.flags is Ack
    }
}

/// The frame parsed out of a received FIFO image: `raw` holds the bytes
/// after the length byte `len`, of which the first three are the header
/// and the next `len - 3` the payload.
pub open spec fn spec_from_rx_data(len: u8, raw: Seq<u8>, rssi: i16) -> PacketView
    recommends
        3 <= len,
        len <= raw.len(),
{
    PacketView {
        src: Address::spec_from_u8(raw[0]),
        dst: Address::spec_from_u8(raw[1]),
        flags: Flags::spec_from_u8(raw[2]),
        data: raw.subrange(3, len as int),
        rssi: Some(rssi),
    }
}

/// A link-layer frame that can be sent and received.
#[derive(Debug)]
pub struct Packet {
    pub src: Address,
    pub dst: Address,
    pub flags: Flags,
    pub data: heapless::Vec<u8, 61>,
    pub rssi: Option<i16>,
}

impl View for Packet {
    type V = PacketView;

    open spec fn view(&self) -> PacketView {
        PacketView {
            src: self.src,
            dst: self.dst,
            flags: self.flags,
            data: payload_seq(self.data),
            rssi: self.rssi,
        }
    }
}

impl Clone for Packet {
    /// The copy carries the same frame, byte for byte.
    fn clone(&self) -> (r: Packet)
        ensures
            r@ == self@,
    {
        Packet {
            src: self.src,
            dst: self.dst,
            flags: self.flags,
            data: payload_duplicate(&self.data),
            rssi: self.rssi,
        }
    }
}

impl Packet {
    /// Builds a frame to transmit; fails if the payload exceeds the 61
    /// bytes the FIFO layout leaves for it.
    pub fn new(src: Address, dst: Address, flags: Flags, data: &[u8]) -> (r: Result<
        Packet,
        PacketError,
    >)
        ensures
            data@.len() <= 61 ==> (r matches Ok(p) && p@ == (PacketView {
                src,
                dst,
                flags,
                data: data@,
                rssi: None::<i16>,
            }) && p@.wf()),
            data@.len() > 61 ==> r == Err::<Packet, PacketError>(PacketError::DataTooLong),
    {
        if data.len() > 61 {
            return Err(PacketError::DataTooLong);
        }
        match payload_from_slice(data) {
            Some(payload) => Ok(Packet { src, dst, flags, data: payload, rssi: None }),
            None => {
                proof {
                    assert(false);
                }
                Err(PacketError::DataTooLong)
            },
        }
    }

    /// Parses a frame out of the bytes drained from the FIFO after the
    /// length byte `len`; fails if `len` announces less than a header.
    pub fn from_rx_data(len: u8, raw: &[u8], rssi: i16) -> (r: Result<Packet, PacketError>)
        requires
            len <= 64,
            len <= raw@.len(),
        ensures
            len < 3 ==> r == Err::<Packet, PacketError>(PacketError::DataTooShort),
            len >= 3 ==> (r matches Ok(p) && p@ == spec_from_rx_data(len, raw@, rssi) && p@.wf()),
    {
        if len < 3 {
            return Err(PacketError::DataTooShort);
        }
        let src = Address::from_u8(*vstd::slice::slice_index_get(raw, 0));
        let dst = Address::from_u8(*vstd::slice::slice_index_get(raw, 1));
        let flags = Flags::from_u8(*vstd::slice::slice_index_get(raw, 2));
        let body = slice_subrange(raw, 3, len as usize);
        match payload_from_slice(body) {
            Some(payload) => Ok(Packet { src, dst, flags, data: payload, rssi: Some(rssi) }),
            None => {
                proof {
                    assert(false);
                }
                Err(PacketError::DataTooShort)
            },
        }
    }

    /// Serializes the frame into its FIFO image, length byte first.
    pub fn to_slice(&self) -> (r: Vec<u8>)
        requires
            self@.wf(),
        ensures
            r@ == self@.wire_bytes(),
            r@.len() == self@.data.len() + 4,
    {
        let bytes = payload_bytes(&self.data);
        let mut r: Vec<u8> = Vec::new();
        r.push(bytes.len() as u8 + 3);
        r.push(self.src.as_u8());
        r.push(self.dst.as_u8());
        r.push(self.flags.as_u8());
        let mut i: usize = 0;
        while i < bytes.len()
            invariant
                i <= bytes.len(),
                bytes@ == payload_seq(self.data),
                bytes@.len() <= 61,
                r@ == self@.wire_bytes().subrange(0, 4 + i as int),
            decreases bytes@.len() - i,
        {
            proof {
                assert(self@.wire_bytes()[4 + i as int] == bytes@[i as int]);
            }
            r.push(*vstd::slice::slice_index_get(bytes, i));
            proof {
                assert(r@ =~= self@.wire_bytes().subrange(0, 4 + (i + 1) as int));
            }
            i = i + 1;
        }
        proof {
            assert(r@ =~= self@.wire_bytes());
        }
        r
    }

    /// The payload bytes of the frame.
    pub fn data_bytes(&self) -> (r: &[u8])
        ensures
            r@ == self@.data,
    {
        payload_bytes(&self.data)
    }

    /// Whether the frame's payload fits the FIFO budget.
    pub fn is_wf(&self) -> (r: bool)
        ensures
            r == self@.wf(),
    {
        payload_bytes(&self.data).len() <= 61
    }

    /// Whether the frame requests or carries an acknowledgement.
    pub fn is_ack(&self) -> (r: bool)
        ensures
            r == self@.is_ack(),
    {
        match self.flags {
            Flags::NoFlags => false,
            Flags::Ack(_) => true,
        }
    }
}

/// Every well-formed frame survives serialization and reparsing: parsing
/// the wire image after its length byte yields the same source, the same
/// destination, the same flags and the same payload.
pub proof fn lemma_frame_roundtrip(p: PacketView, rssi: i16)
    requires
        p.wf(),
        p.src.wf(),
        p.dst.wf(),
        p.flags.wf(),
    ensures
        spec_from_rx_data((p.data.len() + 3) as u8, p.wire_bytes().skip(1), rssi).same_frame(p),
{
    let w = p.wire_bytes().skip(1);
    let q = spec_from_rx_data((p.data.len() + 3) as u8, w, rssi);
    crate::address::lemma_address_roundtrip(p.src, 0);
    crate::address::lemma_address_roundtrip(p.dst, 0);
    crate::flags::lemma_flags_roundtrip(p.flags);
    assert(q.data =~= p.data);
}

} // verus!
