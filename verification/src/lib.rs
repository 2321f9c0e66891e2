//! A verified KNX/EIB field-bus protocol stack core.
//!
//! The crate terminates three OSI-style layers — data-link, network,
//! transport — on top of a byte-oriented transceiver driver protocol, and
//! exposes a small application-layer surface for reading and writing group
//! objects.  Every executable function carries a contract; the frame codec,
//! the TPCI decoding tables and the transport connection state machine are
//! verified against the bit-level layout of standard and extended telegrams.

pub mod addr;
pub mod application;
pub mod bits;
pub mod data_link;
pub mod data_point;
pub mod driver;
pub mod frame;
pub mod network;
pub mod transport;
pub mod pool;
