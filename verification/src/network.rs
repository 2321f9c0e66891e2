//! The network layer: classification of inbound frames by the kind of
//! their destination address, and pass-through of outbound requests.

use vstd::prelude::*;

use crate::addr::Address;
use crate::data_link::{DataLinkLayer, DataServiceInd};
use crate::frame::{spec_at_bit_of, spec_dst_of, Frame};

verus! {

/// An outbound network-layer request.
pub enum NetworkServiceReq {
    DataGroup(Frame),
    DataIndividual(Frame),
    DataSystemBroadcast(Frame),
}

/// An inbound network-layer indication, classified by destination kind.
pub enum NetworkServiceInd {
    DataIndividual(Frame),
    DataGroup(Frame),
    DataBroadcast(Frame),
    DataSystemBroadcast(Frame),
}

/// The network layer, stacked on the data-link facade.
pub struct NetworkLayer {
    pub data_link: DataLinkLayer,
}

/// The frame carried by a data-link indication.
pub open spec fn spec_link_ind_frame(ind: DataServiceInd) -> Frame {
    match ind {
        DataServiceInd::Data(f) => f,
        DataServiceInd::SystemBroadcast(f) => f,
        DataServiceInd::Busmon(f) => f,
        DataServiceInd::ServiceInformation(f) => f,
    }
}

impl NetworkLayer {
    /// Creates the network layer over a data-link facade.
    pub fn new(data_link: DataLinkLayer) -> (r: Self) {
        NetworkLayer { data_link }
    }

    /// Classifies one inbound data-link indication: a `Data` frame goes by
    /// its destination — individual, the all-zero broadcast group, or any
    /// other group; a `SystemBroadcast` passes through; bus-monitor and
    /// service-information indications are silently filtered.
    pub fn receive(&self, ind: DataServiceInd) -> (r: Option<NetworkServiceInd>)
        requires
            spec_link_ind_frame(ind).wf(),
        ensures
            ({
                let f = spec_link_ind_frame(ind);
                match ind {
                    DataServiceInd::Data(_) => {
                        if spec_at_bit_of(f.kind(), f@) != 1 {
                            r == Option::Some(NetworkServiceInd::DataIndividual(f))
                        } else if spec_dst_of(f.kind(), f@) == 0 {
                            r == Option::Some(NetworkServiceInd::DataBroadcast(f))
                        } else {
                            r == Option::Some(NetworkServiceInd::DataGroup(f))
                        }
                    },
                    DataServiceInd::SystemBroadcast(_) => r == Option::Some(
                        NetworkServiceInd::DataSystemBroadcast(f),
                    ),
                    _ => r is None,
                }
            }),
    {
        match ind {
            DataServiceInd::Data(frame) => {
                match frame.dst_addr() {
                    Address::Individual(_) => Option::Some(NetworkServiceInd::DataIndividual(frame)),
                    Address::Group(addr) => {
                        if addr.0 == 0 {
                            Option::Some(NetworkServiceInd::DataBroadcast(frame))
                        } else {
                            Option::Some(NetworkServiceInd::DataGroup(frame))
                        }
                    },
                }
            },
            DataServiceInd::SystemBroadcast(frame) => Option::Some(
                NetworkServiceInd::DataSystemBroadcast(frame),
            ),
            DataServiceInd::Busmon(_) => Option::None,
            DataServiceInd::ServiceInformation(_) => Option::None,
        }
    }

    /// Forwards one outbound request to the data-link transmit path with no
    /// field rewriting, whatever its kind.
    pub fn send(&self, req: NetworkServiceReq) -> (r: Frame)
        ensures
            r == match req {
                NetworkServiceReq::DataGroup(f) => f,
                NetworkServiceReq::DataIndividual(f) => f,
                NetworkServiceReq::DataSystemBroadcast(f) => f,
            },
    {
        match req {
            NetworkServiceReq::DataGroup(frame) => self.data_link.send(frame),
            NetworkServiceReq::DataIndividual(frame) => self.data_link.send(frame),
            NetworkServiceReq::DataSystemBroadcast(frame) => self.data_link.send(frame),
        }
    }
}

} // verus!
