//! The data-link facade: a thin reshaping of frames into tagged data-link
//! indications between the transceiver driver and the network layer.
//!
//! Only `Data` is produced by the current core; the other tags are reserved
//! for future bus-monitor and device-service modes.

use vstd::prelude::*;

use crate::driver::ConStatus;
use crate::frame::Frame;

verus! {

/// An inbound data-link indication.
pub enum DataServiceInd {
    Data(Frame),
    SystemBroadcast(Frame),
    Busmon(Frame),
    ServiceInformation(Frame),
}

/// A data-link confirmation: the outcome of one transmitted frame.
pub enum DataServiceCon {
    Data(ConStatus),
}

/// The data-link layer proper.  The bounded channels that carry frames to
/// and from the driver live with the I/O harness; this type holds the
/// layer's reshaping logic.
pub struct DataLinkLayer {}

impl DataLinkLayer {
    /// Creates the data-link layer.
    pub fn new() -> (r: Self) {
        DataLinkLayer {  }
    }

    /// Reshapes one frame received from the driver into a data-link
    /// indication.
    pub fn receive(&self, frame: Frame) -> (r: DataServiceInd)
        ensures
            r == DataServiceInd::Data(frame),
    {
        DataServiceInd::Data(frame)
    }

    /// Accepts one frame for transmission and hands it on to the driver
    /// unchanged; the confirmation signal is awaited by the I/O harness.
    pub fn send(&self, frame: Frame) -> (r: Frame)
        ensures
            r == frame,
    {
        frame
    }
}

} // verus!
