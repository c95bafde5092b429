//! The PHY driver's error taxonomy and its collapse onto the flat
//! transceiver error.

use vstd::prelude::*;

use crate::traits::TrxError;

verus! {

/// Errors of the RFM69 PHY driver.
#[derive(Debug, Clone, Copy, PartialEq, Eq, Structural)]
pub enum Error {
    /// The chip responded, but its `Version` register did not read as an
    /// RFM69 (`0x24`); the payload is the byte that was read.
    VersionMismatch(u8),
    /// The reset pin could not be driven.
    Reset,
    /// An SPI transaction failed.
    Spi,
    /// Waiting on the interrupt pin failed.
    Dio0,
    /// A sync word longer than the radio's eight-byte block was requested.
    SyncSize,
    /// A frame violated the FIFO layout bounds.
    WrongPacketFormat,
}

impl Error {
    /// The flat transceiver error this PHY error collapses to.
    pub open spec fn spec_to_trx(self) -> TrxError {
        match self {
            Error::VersionMismatch(_) => TrxError::TrxNotFound,
            Error::Reset => TrxError::Reset,
            Error::Spi => TrxError::Spi,
            Error::Dio0 => TrxError::Gpio,
            Error::SyncSize => TrxError::Config,
            Error::WrongPacketFormat => TrxError::WrongPacketFormat,
        }
    }
}

impl From<Error> for TrxError {
    /// Collapses the PHY error onto the hardware-agnostic transceiver
    /// error, dropping the underlying cause.
    fn from(error: Error) -> (r: TrxError) {
        match error {
            Error::VersionMismatch(_) => TrxError::TrxNotFound,
            Error::Reset => TrxError::Reset,
            Error::Spi => TrxError::Spi,
            Error::Dio0 => TrxError::Gpio,
            Error::SyncSize => TrxError::Config,
            Error::WrongPacketFormat => TrxError::WrongPacketFormat,
        }
    }
}

impl vstd::std_specs::convert::FromSpecImpl<Error> for TrxError {
    open spec fn obeys_from_spec() -> bool {
        true
    }

    open spec fn from_spec(error: Error) -> TrxError {
        error.spec_to_trx()
    }
}

} // verus!
