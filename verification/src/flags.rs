//! Link-layer frame flags and their one-byte wire form.

use vstd::prelude::*;

verus! {

/// Frame flags: either no flag, or an acknowledgement request `Ack(r)`.
///
/// On transmit, `Ack(r)` with `r >= 1` asks the MAC to retry up to `r`
/// times while waiting for an acknowledgement; `Ack(0)` marks the
/// acknowledgement frame itself. On the wire, `None` is `0` and `Ack(r)`
/// is `r` with `r` in `1..=3`; any other received byte decodes leniently
/// to `None` so that future flag values do not break old receivers.
#[derive(Debug, Clone, Copy, PartialEq, Eq, Structural)]
pub enum Flags {
    NoFlags,
    Ack(u8),
}

impl Flags {
    /// A well-formed flag value is representable on the wire: either no
    /// flag, or an `Ack` count in `1..=3`.
    pub open spec fn wf(self) -> bool {
        match self {
            Flags::NoFlags => true,
            Flags::Ack(r) => 1 <= r <= 3,
        }
    }

    /// The one-byte wire form of the flags.
    pub open spec fn spec_as_u8(self) -> u8 {
        match self {
            Flags::NoFlags => 0,
            Flags::Ack(r) => r,
        }
    }

    /// The flags a received wire byte decodes to: `1..=3` is an `Ack`
    /// count, everything else is `None`.
    pub open spec fn spec_from_u8(flags: u8) -> Flags {
        if 1 <= flags && flags <= 3 {
            Flags::Ack(flags)
        } else {
            Flags::NoFlags
        }
    }

    /// Decodes a wire byte into flags, mapping unknown values to `None`.
    pub fn from_u8(flags: u8) -> (r: Flags)
        ensures
            r == Flags::spec_from_u8(flags),
            r.wf(),
            flags == 0 ==> r == Flags::NoFlags,
            1 <= flags <= 3 ==> r == Flags::Ack(flags),
            flags > 3 ==> r == Flags::NoFlags,
    {
        match flags {
            0 => Flags::NoFlags,
            1..=3 => Flags::Ack(flags),
            _ => Flags::NoFlags,
        }
    }

    /// Encodes the flags as their wire byte.
    pub fn as_u8(&self) -> (r: u8)
        ensures
            r == self.spec_as_u8(),
    {
        match self {
            Flags::NoFlags => 0,
            Flags::Ack(retries) => *retries,
        }
    }
}

/// Well-formed flags survive the trip onto the wire and back.
pub proof fn lemma_flags_roundtrip(f: Flags)
    requires
        f.wf(),
    ensures
        Flags::spec_from_u8(f.spec_as_u8()) == f,
{
}

} // verus!
