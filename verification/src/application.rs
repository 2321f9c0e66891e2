//! The application facade: minimal APCI dispatch on inbound group data,
//! and the group-value read-response envelope that builds a reply frame
//! from a data-point value.

use vstd::prelude::*;

use crate::bits;
use crate::data_point::DataPoint;
use crate::frame::{
    spec_apci4_of, spec_apci_lo_off, spec_at_bit_of, spec_dp_kind, spec_dst_of, spec_hop_of,
    spec_lg_off, spec_priority_bits_of, spec_read_back, spec_src_of, spec_tpci6_of, Frame,
    FrameError, FrameType, Priority,
};
use crate::pool::FramePool;
use crate::transport::{DataGroupReq, TransportLayer, TransportServiceInd};
use crate::pool;

verus! {

/// An application-layer indication published on the upward channel.
#[derive(Clone, Copy, PartialEq, Eq, Structural, Debug)]
pub enum ApplicationServiceInd {
    /// A group-value read request, carrying the application-layer service
    /// access point it addresses.
    GroupValueRead(u8),
}

/// A reply to a group-value read: the data-point value to answer with,
/// the service access point, and the frame attributes to send under.
pub struct GroupReadResponse {
    pub data: DataPoint,
    pub asap: u8,
    pub hop_count: u8,
    pub priority: Priority,
}

impl GroupReadResponse {
    /// Builds a response envelope; the hop count defaults to 7.
    pub fn new(asap: u8, data: DataPoint, priority: Priority) -> (r: Self)
        ensures
            r.asap == asap,
            r.data == data,
            r.priority == priority,
            r.hop_count == 7,
    {
        GroupReadResponse { asap, data, hop_count: 7, priority }
    }

    /// Builds the reply frame: a frame around the data-point value with the
    /// short APCI set to GroupValueResponse, the envelope's priority and
    /// hop count — and wraps it as a transport group-data request.
    pub fn to_transport(self, tsap: u8, pool: &mut FramePool) -> (r: Result<
        DataGroupReq,
        FrameError,
    >)
        requires
            old(pool).wf(),
            self.hop_count == 7,
        ensures
            final(pool).wf(),
            final(pool).block_count() == old(pool).block_count(),
            old(pool).free_blocks() == 0 ==> r == Result::<DataGroupReq, FrameError>::Err(
                FrameError::OutOfMemory,
            ) && *final(pool) == *old(pool),
            old(pool).free_blocks() > 0 ==> r is Ok && final(pool).free_blocks() == old(
                pool,
            ).free_blocks() - 1,
            r is Ok ==> {
                let f = r->Ok_0.frame;
                &&& r->Ok_0.tsap == tsap
                &&& f.wf()
                &&& f.kind() == spec_dp_kind(self.data)
                &&& spec_apci4_of(f.kind(), f@) == 1
                &&& spec_priority_bits_of(f@) == self.priority.spec_bits()
                &&& spec_hop_of(f.kind(), f@) == 7
                &&& spec_at_bit_of(f.kind(), f@) == 0
                &&& spec_src_of(f.kind(), f@) == 0
                &&& spec_dst_of(f.kind(), f@) == 0
                &&& spec_tpci6_of(f.kind(), f@) == 0
                &&& (self.data.wf() ==> spec_read_back(f.kind(), f@, self.data) == self.data)
            },
    {
        let mut frame = match Frame::from_datapoint(pool, &self.data) {
            Result::Ok(f) => f,
            Result::Err(e) => {
                return Result::Err(e);
            },
        };
        let ghost k = frame.kind();
        let ghost s0 = frame@;
        frame.set_apci(crate::frame::ApciBits::Four, 0x1);
        proof {
            let lo0 = s0[spec_apci_lo_off(k)];
            bits::lemma_dp_bits_roundtrip(
                match self.data {
                    DataPoint::B1(b) => b.0,
                    DataPoint::B2(b) => b.0,
                    DataPoint::U8(_) => 0,
                },
                1,
            );
            bits::lemma_apci_read_zero_hi(lo0, 1);
            bits::lemma_apci4_set(0, lo0, 1);
            if self.data.wf() {
                crate::frame::lemma_apci_datapoint_roundtrip(self.data, 1);
            }
        }
        frame.set_priority(self.priority);
        frame.set_hop_count(self.hop_count);
        proof {
            let lgv = s0[spec_lg_off(k)];
            assert((0x90u8 >> 2) & 3 == 0 && (0x10u8 >> 2) & 3 == 0) by (bit_vector);
            assert(lgv >> 4 == 0 && (lgv >> 4) & 7 == 0 && lgv >> 7 == 0) by (bit_vector)
                requires
                    lgv < 16,
            ;
            assert((0u8 >> 4) & 7 == 0 && 0u8 >> 7 == 0) by (bit_vector);
            assert(0u8 | (7u8 & 7) == 7) by (bit_vector);
            assert((1u16 >> 2) as u8 == 0 && (0u8 | 0u8) == 0 && 0u8 >> 2 == 0) by (bit_vector);
            bits::lemma_or_into_zero(self.priority.spec_bits());
        }
        Result::Ok(DataGroupReq::new(tsap, frame))
    }
}

/// A reply handed down from the application on the inbound channel.
pub enum ApplicationServiceRes {
    GroupValueRead(GroupReadResponse),
}

/// The application layer, stacked on the transport layer.  The two bounded
/// service channels live with the I/O harness.
pub struct ApplicationLayer {
    pub transport: TransportLayer,
}

impl ApplicationLayer {
    /// Creates the application layer over a transport layer.
    pub fn new(transport: TransportLayer) -> (r: Self) {
        ApplicationLayer { transport }
    }

    /// Decodes the short APCI of one inbound transport indication: a
    /// group-value read on group data yields an upward indication;
    /// responses and writes are observed but not yet dispatched; anything
    /// else — other indications, reception errors, or a group frame too
    /// short to carry an APCI — yields nothing.
    pub fn receive(&self, frame: Result<TransportServiceInd, FrameError>) -> (r: Option<
        ApplicationServiceInd,
    >)
        requires
            match frame {
                Result::Ok(TransportServiceInd::DataGroup(f)) => f.wf(),
                _ => true,
            },
        ensures
            r == match frame {
                Result::Ok(TransportServiceInd::DataGroup(f)) => {
                    if f@.len() > spec_apci_lo_off(f.kind()) && spec_apci4_of(f.kind(), f@) == 0 {
                        Option::Some(ApplicationServiceInd::GroupValueRead(0))
                    } else {
                        Option::<ApplicationServiceInd>::None
                    }
                },
                _ => Option::<ApplicationServiceInd>::None,
            },
    {
        match frame {
            Result::Ok(TransportServiceInd::DataGroup(f)) => {
                let lo_off: usize = match f.frame_type() {
                    FrameType::Standard => 7,
                    FrameType::Extended => 8,
                };
                if f.data().len() <= lo_off {
                    return Option::None;
                }
                let apci = f.apci(crate::frame::ApciBits::Four);
                if apci == 0 {
                    Option::Some(ApplicationServiceInd::GroupValueRead(0))
                } else {
                    Option::None
                }
            },
            _ => Option::None,
        }
    }
}

/// The number of frame buffers the stack is provisioned with at startup.
pub fn default_pool() -> (r: FramePool)
    ensures
        r.wf(),
        r.free_blocks() == pool::FRAME_POOL_BLOCKS,
        r.block_count() == pool::FRAME_POOL_BLOCKS,
{
    FramePool::new(pool::FRAME_POOL_BLOCKS)
}

} // verus!
