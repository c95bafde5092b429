//! Driver and link layer for the RFM69(CW) sub-GHz transceiver.
//!
//! The crate is split along the radio's natural seams:
//!
//! * [`registers`] — symbolic register addresses and bit-field
//!   encodings;
//! * [`packet`] — the link-layer frame and its FIFO wire layout;
//! * [`hal`] — the hardware port beneath the driver, with a ghost
//!   history of every operation;
//! * [`rfm`] — the PHY driver, whose contracts pin down each
//!   operation's exact transaction trace;
//! * [`traits`] and [`stack`] — the transceiver seam and the
//!   stop-and-wait MAC over it;
//! * [`config`] — the two canonical register programmings;
//! * [`mock`] — scripted in-memory ports for exercising both layers.

pub mod address;
pub mod config;
pub mod error;
pub mod flags;
pub mod hal;
pub mod mock;
pub mod packet;
pub mod registers;
pub mod rfm;
pub mod stack;
pub mod traits;

pub use address::Address;
pub use config::{low_power_lab_defaults, my_defaults};
pub use error::Error;
pub use flags::Flags;
pub use packet::{Packet, PacketError, PacketView};
pub use rfm::Rfm69;
pub use stack::{Stack, TxError};
pub use traits::{Transceiver, TrxError, TrxEvent};
