//! The transport layer: TPCI decoding, the four-state connection machine,
//! and the outbound group send path.
//!
//! One transport instance holds exactly one connection.  Events are
//! classified against the recorded peer — the standard KNX event/action
//! vocabulary (events like "connect from the same address", actions A1 to
//! A10) names the arms — and every action's effect on the sequence
//! counters, the repetition counter and the state is pinned down by an
//! abstract step function that the handlers are proved to implement.

use vstd::prelude::*;

use crate::addr::{GroupAddress, IndividualAddress};
use crate::addr::Address;
use crate::frame::{
    spec_apci_lo_off, spec_at_bit_of, spec_dst_of, spec_hop_of, spec_priority_bits_of,
    spec_src_of, spec_tpci6_of, spec_tpci8_of, spec_tpci_seq_of, Frame, FrameError, FrameType,
    Priority, StandardFrame, TpciBits,
};
use crate::bits;
use crate::network::{NetworkLayer, NetworkServiceInd, NetworkServiceReq};
use crate::pool::FramePool;

verus! {

/// An inbound transport-layer indication.
pub enum TransportServiceInd {
    DataBroadcast(Frame),
    DataSystemBroadcast(Frame),
    DataGroup(Frame),
    DataTagGroup(Frame),
    DataIndividual(Frame),
    DataConnected(Frame),
    Connect(Frame),
    Disconnect(Frame),
    ACK(Frame),
    NAK(Frame),
}

/// An outbound group-data request: a frame bound for a group address,
/// tagged with the transport service access point that chose it.
pub struct DataGroupReq {
    pub tsap: u8,
    pub frame: Frame,
}

impl DataGroupReq {
    /// Wraps a frame as a group-data request.
    pub fn new(tsap: u8, frame: Frame) -> (r: Self)
        ensures
            r.tsap == tsap,
            r.frame == frame,
    {
        DataGroupReq { tsap, frame }
    }
}

/// An outbound transport-layer request.
pub enum TransportServiceReq {
    DataGroupReq(DataGroupReq),
}

/// The states of the connection machine.
#[derive(Clone, Copy, PartialEq, Eq, Structural, Debug)]
pub enum States {
    Closed,
    OpenIdle,
    OpenWait,
    Connecting,
}

/// A received transport event, classified against the recorded peer and
/// the sequence counters.
#[derive(Clone, Copy, PartialEq, Eq, Structural, Debug)]
pub enum Event {
    /// T_Connect from the recorded peer.
    ConnectSame,
    /// T_Connect from another (or a first) peer, carrying its address.
    ConnectNew(u16),
    /// T_Disconnect from the recorded peer.
    DisconnectSame,
    /// T_Disconnect from another peer.
    DisconnectNew,
    /// Connected data from the peer with the expected sequence number.
    DataMatch,
    /// Connected data from the peer repeating the previous sequence number.
    DataPrev,
    /// Connected data from the peer with any other sequence number.
    DataOther,
    /// Connected data from another peer.
    DataNew,
    /// T_Ack from the peer for the pending send sequence number.
    AckMatch,
    /// T_Ack from the peer for another sequence number.
    AckOther,
    /// T_Ack from another peer.
    AckNew,
    /// T_Nak from the peer for the pending send sequence number.
    NakMatch,
    /// T_Nak from the peer for another sequence number.
    NakOther,
    /// T_Nak from another peer.
    NakNew,
}

/// The abstract connection state: what the machine tracks, free of frames
/// and buffers.
pub struct ConnAbs {
    pub state: States,
    pub seq_send: u8,
    pub seq_recv: u8,
    pub rep_count: u8,
    pub peer: Option<u16>,
    pub timer: bool,
}

/// Well-formedness of the abstract state: sequence numbers are modulo 16,
/// the repetition counter never exceeds 3, and an open machine always has
/// a recorded peer.
pub open spec fn abs_wf(c: ConnAbs) -> bool {
    &&& c.seq_send < 16
    &&& c.seq_recv < 16
    &&& c.rep_count <= 3
    &&& c.state != States::Closed ==> c.peer is Some
}

/// Action A1: record the peer, reset both sequence counters, arm the
/// inactivity timer, open the connection.
pub open spec fn abs_a1(c: ConnAbs, peer: u16) -> ConnAbs {
    ConnAbs {
        state: States::OpenIdle,
        seq_send: 0,
        seq_recv: 0,
        peer: Option::Some(peer),
        timer: true,
        ..c
    }
}

/// Closing the machine: used by A5, A6 and the repetition cap.
pub open spec fn abs_close(c: ConnAbs) -> ConnAbs {
    ConnAbs { state: States::Closed, timer: false, ..c }
}

/// The abstract transition of the connection machine on one classified
/// event, following the transport state table.
pub open spec fn abs_step(c: ConnAbs, ev: Event) -> ConnAbs {
    match ev {
        Event::ConnectSame => if c.state == States::Closed {
            abs_a1(c, c.peer->0)
        } else {
            abs_close(c)
        },
        Event::ConnectNew(a) => if c.state == States::Closed {
            abs_a1(c, a)
        } else {
            c
        },
        Event::DisconnectSame => if c.state == States::Closed {
            c
        } else {
            abs_close(c)
        },
        Event::DisconnectNew => c,
        Event::DataMatch => if c.state == States::Closed {
            c
        } else {
            ConnAbs { seq_recv: ((c.seq_recv + 1) % 16) as u8, timer: true, ..c }
        },
        Event::DataPrev => if c.state == States::Closed {
            c
        } else {
            ConnAbs { timer: true, ..c }
        },
        Event::DataOther => c,
        Event::DataNew => c,
        Event::AckMatch => if c.state == States::OpenWait {
            ConnAbs {
                state: States::OpenIdle,
                seq_send: ((c.seq_send + 1) % 16) as u8,
                timer: true,
                ..c
            }
        } else {
            c
        },
        Event::AckOther => c,
        Event::AckNew => c,
        Event::NakMatch => if c.state == States::OpenWait {
            if c.rep_count < 3 {
                ConnAbs { rep_count: (c.rep_count + 1) as u8, timer: true, ..c }
            } else {
                abs_close(c)
            }
        } else {
            c
        },
        Event::NakOther => c,
        Event::NakNew => c,
    }
}

/// Whether an indication is one the connection machine consumes.
pub open spec fn spec_conn_ind(ind: TransportServiceInd) -> bool {
    match ind {
        TransportServiceInd::Connect(_) => true,
        TransportServiceInd::Disconnect(_) => true,
        TransportServiceInd::DataConnected(_) => true,
        TransportServiceInd::ACK(_) => true,
        TransportServiceInd::NAK(_) => true,
        _ => false,
    }
}

/// The frame carried by a transport indication.
pub open spec fn spec_ind_frame(ind: TransportServiceInd) -> Frame {
    match ind {
        TransportServiceInd::DataBroadcast(f) => f,
        TransportServiceInd::DataSystemBroadcast(f) => f,
        TransportServiceInd::DataGroup(f) => f,
        TransportServiceInd::DataTagGroup(f) => f,
        TransportServiceInd::DataIndividual(f) => f,
        TransportServiceInd::DataConnected(f) => f,
        TransportServiceInd::Connect(f) => f,
        TransportServiceInd::Disconnect(f) => f,
        TransportServiceInd::ACK(f) => f,
        TransportServiceInd::NAK(f) => f,
    }
}

/// Classification of a connection-bound indication against the recorded
/// peer and the sequence counters.  The duplicate check is modulo 16.
pub open spec fn spec_event_of(
    peer: Option<u16>,
    seq_recv: u8,
    seq_send: u8,
    ind: TransportServiceInd,
) -> Event {
    let f = spec_ind_frame(ind);
    let src = spec_src_of(f.kind(), f@);
    let same = peer == Option::Some(src);
    let sq = spec_tpci_seq_of(f.kind(), f@);
    match ind {
        TransportServiceInd::Connect(_) => if same {
            Event::ConnectSame
        } else {
            Event::ConnectNew(src)
        },
        TransportServiceInd::Disconnect(_) => if same {
            Event::DisconnectSame
        } else {
            Event::DisconnectNew
        },
        TransportServiceInd::DataConnected(_) => if !same {
            Event::DataNew
        } else if sq == seq_recv {
            Event::DataMatch
        } else if (sq + 1) % 16 == seq_recv {
            Event::DataPrev
        } else {
            Event::DataOther
        },
        TransportServiceInd::ACK(_) => if !same {
            Event::AckNew
        } else if sq == seq_send {
            Event::AckMatch
        } else {
            Event::AckOther
        },
        TransportServiceInd::NAK(_) => if !same {
            Event::NakNew
        } else if sq == seq_send {
            Event::NakMatch
        } else {
            Event::NakOther
        },
        _ => Event::DataOther,
    }
}

/// Whether handling this event in this state transmits a frame: an ACK for
/// in-sequence or duplicate connected data, a repetition of the stored
/// frame on a NAK, or a T_Disconnect toward the source on a reject or a
/// teardown.
pub open spec fn spec_needs_response(c: ConnAbs, ev: Event) -> bool {
    match ev {
        Event::ConnectSame => c.state != States::Closed,
        Event::ConnectNew(_) => c.state != States::Closed,
        Event::DisconnectSame => false,
        Event::DisconnectNew => false,
        Event::DataMatch => true,
        Event::DataPrev => true,
        Event::DataOther => false,
        Event::DataNew => true,
        Event::AckMatch => false,
        Event::AckOther => false,
        Event::AckNew => true,
        Event::NakMatch => c.state == States::OpenWait,
        Event::NakOther => false,
        Event::NakNew => true,
    }
}

/// Whether the response is the repetition of the stored frame (action A9)
/// rather than a fresh control frame.
pub open spec fn spec_repeats_stored(c: ConnAbs, ev: Event) -> bool {
    ev == Event::NakMatch && c.state == States::OpenWait && c.rep_count < 3
}

/// The TPCI byte of a fresh control-frame response: a T_Ack carrying the
/// expected sequence number for in-sequence data, a T_Ack carrying the
/// received sequence number for a duplicate, and a T_Disconnect otherwise.
pub open spec fn spec_response_tpci(c: ConnAbs, ev: Event, rx_seq: u8) -> u8 {
    match ev {
        Event::DataMatch => if c.state == States::Closed {
            0x81
        } else {
            (0xc2 | ((c.seq_recv & 0xf) << 2)) as u8
        },
        Event::DataPrev => if c.state == States::Closed {
            0x81
        } else {
            (0xc2 | ((rx_seq & 0xf) << 2)) as u8
        },
        _ => 0x81,
    }
}

/// The indication surfaced to the upper layer, if any: a new connection,
/// in-sequence connected data, or a disconnect notification.
pub open spec fn spec_surfaced(c: ConnAbs, ev: Event, f: Frame) -> Option<TransportServiceInd> {
    match ev {
        Event::ConnectSame => if c.state == States::Closed {
            Option::Some(TransportServiceInd::Connect(f))
        } else {
            Option::Some(TransportServiceInd::Disconnect(f))
        },
        Event::ConnectNew(_) => if c.state == States::Closed {
            Option::Some(TransportServiceInd::Connect(f))
        } else {
            Option::None
        },
        Event::DisconnectSame => if c.state == States::Closed {
            Option::None
        } else {
            Option::Some(TransportServiceInd::Disconnect(f))
        },
        Event::DataMatch => if c.state == States::Closed {
            Option::None
        } else {
            Option::Some(TransportServiceInd::DataConnected(f))
        },
        Event::NakMatch => if c.state == States::OpenWait && c.rep_count >= 3 {
            Option::Some(TransportServiceInd::Disconnect(f))
        } else {
            Option::None
        },
        _ => Option::None,
    }
}

/// A fresh control-frame response is a minimal standard frame from the
/// local address to `dst`, system priority, hop count 7, carrying `tpci`
/// as its TPCI byte.
pub open spec fn spec_is_control_frame(f: Frame, local: u16, dst: u16, tpci: u8) -> bool {
    &&& f.kind() == FrameType::Standard
    &&& f.wf()
    &&& f@.len() == 7
    &&& spec_src_of(FrameType::Standard, f@) == local
    &&& spec_dst_of(FrameType::Standard, f@) == dst
    &&& spec_at_bit_of(FrameType::Standard, f@) == 0
    &&& spec_hop_of(FrameType::Standard, f@) == 7
    &&& spec_priority_bits_of(f@) == 0
    &&& spec_tpci8_of(FrameType::Standard, f@) == tpci
}

/// Builds a fresh control frame (T_Ack, T_Nak or T_Disconnect) toward
/// `dst`: system priority, hop count 7, the given TPCI base with the
/// 4-bit sequence number ORed into its middle bits.
fn build_response_frame(
    pool: &mut FramePool,
    local: IndividualAddress,
    dst: IndividualAddress,
    seq: u8,
    tpci: u8,
) -> (r: Result<Frame, FrameError>)
    requires
        old(pool).wf(),
    ensures
        final(pool).wf(),
        final(pool).block_count() == old(pool).block_count(),
        old(pool).free_blocks() == 0 ==> r == Result::<Frame, FrameError>::Err(
            FrameError::OutOfMemory,
        ) && *final(pool) == *old(pool),
        old(pool).free_blocks() > 0 ==> r is Ok && final(pool).free_blocks() == old(
            pool,
        ).free_blocks() - 1,
        r is Ok ==> spec_is_control_frame(
            r->Ok_0,
            local.0,
            dst.0,
            (tpci | ((seq & 0xf) << 2)) as u8,
        ),
{
    let sf = match StandardFrame::new(pool, 8) {
        Result::Ok(f) => f,
        Result::Err(e) => {
            return Result::Err(e);
        },
    };
    let mut frame = Frame::Standard(sf);
    proof {
        bits::lemma_field_bounds(0x90);
        assert((0x90u8 >> 2) & 3 == 0 && (0x90u8 >> 7) == 1 && (0x90u8 >> 4) & 7 == 1 && (0x90u8
            >> 5) & 1 == 0) by (bit_vector);
        assert((0u8 >> 7) == 0 && (0u8 >> 4) & 7 == 0 && (0u8 >> 2) & 0xf == 0) by (bit_vector);
    }
    frame.set_priority(Priority::System);
    frame.set_dst_addr(&Address::Individual(dst));
    frame.set_src_addr(&local);
    frame.set_hop_count(7);
    frame.set_tpci(TpciBits::Eight, tpci);
    frame.set_tpci_seq(seq);
    proof {
        assert(0u8 | 0u8 == 0 && 0u8 | (7u8 & 7) == 7) by (bit_vector);
    }
    Result::Ok(frame)
}

/// What a successful connection-machine call guarantees: the abstract
/// state steps by `abs_step`, the stored frame is untouched, the surfaced
/// indication and the transmitted response follow the action table.
pub open spec fn spec_handle_post(
    pre_abs: ConnAbs,
    pre_stored: Option<Frame>,
    ind: TransportServiceInd,
    local: IndividualAddress,
    out_ind: Option<TransportServiceInd>,
    out_frame: Option<Frame>,
    post_abs: ConnAbs,
    post_stored: Option<Frame>,
) -> bool {
    let f = spec_ind_frame(ind);
    let ev = spec_event_of(pre_abs.peer, pre_abs.seq_recv, pre_abs.seq_send, ind);
    let rx_seq = spec_tpci_seq_of(f.kind(), f@);
    let src = spec_src_of(f.kind(), f@);
    &&& post_abs == abs_step(pre_abs, ev)
    &&& post_stored == pre_stored
    &&& out_ind == spec_surfaced(pre_abs, ev, f)
    &&& (out_frame is Some <==> spec_needs_response(pre_abs, ev))
    &&& (out_frame is Some && !spec_repeats_stored(pre_abs, ev) ==> spec_is_control_frame(
        out_frame->0,
        local.0,
        src,
        spec_response_tpci(pre_abs, ev, rx_seq),
    ))
    &&& (out_frame is Some && spec_repeats_stored(pre_abs, ev) ==> out_frame->0.kind()
        == pre_stored->0.kind() && out_frame->0@ == pre_stored->0@)
}

/// The full contract of one connection-machine call, success or failure:
/// the call fails exactly when a response frame is owed and the pool is
/// empty, failure leaves the machine untouched, and success satisfies
/// `spec_handle_post`.
pub open spec fn spec_conn_call(
    pre_abs: ConnAbs,
    pre_stored: Option<Frame>,
    free0: int,
    ind: TransportServiceInd,
    local: IndividualAddress,
    r: Result<(Option<TransportServiceInd>, Option<Frame>), FrameError>,
    post_abs: ConnAbs,
    post_stored: Option<Frame>,
) -> bool {
    let ev = spec_event_of(pre_abs.peer, pre_abs.seq_recv, pre_abs.seq_send, ind);
    &&& (r is Err <==> spec_needs_response(pre_abs, ev) && free0 == 0)
    &&& (r is Err ==> r->Err_0 == FrameError::OutOfMemory && post_abs == pre_abs && post_stored
        == pre_stored)
    &&& (r is Ok ==> spec_handle_post(
        pre_abs,
        pre_stored,
        ind,
        local,
        r->Ok_0.0,
        r->Ok_0.1,
        post_abs,
        post_stored,
    ))
}

/// The connection held by the one transport instance.
pub struct Connection {
    state: States,
    seq_no_send: u8,
    seq_no_recv: u8,
    rep_count: u8,
    src_addr: Option<IndividualAddress>,
    timer_armed: bool,
    stored_frame: Option<Frame>,
}

impl Connection {
    /// The abstract view of this connection.
    pub closed spec fn abs(self) -> ConnAbs {
        ConnAbs {
            state: self.state,
            seq_send: self.seq_no_send,
            seq_recv: self.seq_no_recv,
            rep_count: self.rep_count,
            peer: match self.src_addr {
                Option::Some(a) => Option::Some(a.0),
                Option::None => Option::None,
            },
            timer: self.timer_armed,
        }
    }

    /// The frame stashed for repetition, if a send is pending.
    pub closed spec fn stored(self) -> Option<Frame> {
        self.stored_frame
    }

    /// The abstract state is well-formed, and a pending send always has a
    /// stashed frame to repeat.
    pub open spec fn wf(self) -> bool {
        &&& abs_wf(self.abs())
        &&& self.abs().state == States::OpenWait ==> self.stored() is Some
    }

    /// A fresh connection: closed, counters at zero, no peer, no timer.
    pub fn new() -> (r: Self)
        ensures
            r.wf(),
            r.abs() == (ConnAbs {
                state: States::Closed,
                seq_send: 0,
                seq_recv: 0,
                rep_count: 0,
                peer: Option::None,
                timer: false,
            }),
            r.stored() is None,
    {
        Connection {
            state: States::Closed,
            seq_no_send: 0,
            seq_no_recv: 0,
            rep_count: 0,
            src_addr: Option::None,
            timer_armed: false,
            stored_frame: Option::None,
        }
    }

    /// Drives the connection machine with one classified indication.
    /// Response frames are drawn from the pool before any state changes,
    /// so an exhausted pool fails the call with the machine untouched.
    pub fn handle_ind(
        &mut self,
        ind: TransportServiceInd,
        pool: &mut FramePool,
        local: IndividualAddress,
    ) -> (r: Result<(Option<TransportServiceInd>, Option<Frame>), FrameError>)
        requires
            old(self).wf(),
            old(pool).wf(),
            spec_conn_ind(ind),
            spec_ind_frame(ind).wf(),
        ensures
            final(self).wf(),
            final(pool).wf(),
            final(pool).block_count() == old(pool).block_count(),
            r is Err ==> *final(pool) == *old(pool),
            r is Ok && r->Ok_0.1 is None ==> *final(pool) == *old(pool),
            r is Ok && r->Ok_0.1 is Some ==> final(pool).free_blocks() == old(pool).free_blocks()
                - 1,
            spec_conn_call(
                old(self).abs(),
                old(self).stored(),
                old(pool).free_blocks(),
                ind,
                local,
                r,
                final(self).abs(),
                final(self).stored(),
            ),
    {
        proof {
            assert((0x81u8 | ((0u8 & 0xf) << 2)) == 0x81) by (bit_vector);
        }
        match ind {
            TransportServiceInd::Connect(frame) => {
                let src = frame.src_addr();
                let same = match &self.src_addr {
                    Option::Some(a) => a.0 == src.0,
                    Option::None => false,
                };
                if self.state == States::Closed {
                    // A1: open the connection.
                    self.state = States::OpenIdle;
                    self.seq_no_send = 0;
                    self.seq_no_recv = 0;
                    self.src_addr = Option::Some(src);
                    self.timer_armed = true;
                    Result::Ok((Option::Some(TransportServiceInd::Connect(frame)), Option::None))
                } else if same {
                    // A6: tear the connection down toward the peer.
                    let resp = match build_response_frame(pool, local, src, 0, 0x81) {
                        Result::Ok(f) => f,
                        Result::Err(e) => {
                            return Result::Err(e);
                        },
                    };
                    self.state = States::Closed;
                    self.timer_armed = false;
                    Result::Ok(
                        (
                            Option::Some(TransportServiceInd::Disconnect(frame)),
                            Option::Some(resp),
                        ),
                    )
                } else {
                    // A10: reject the foreign connect, state unchanged.
                    let resp = match build_response_frame(pool, local, src, 0, 0x81) {
                        Result::Ok(f) => f,
                        Result::Err(e) => {
                            return Result::Err(e);
                        },
                    };
                    Result::Ok((Option::None, Option::Some(resp)))
                }
            },
            TransportServiceInd::Disconnect(frame) => {
                let src = frame.src_addr();
                let same = match &self.src_addr {
                    Option::Some(a) => a.0 == src.0,
                    Option::None => false,
                };
                if same && !(self.state == States::Closed) {
                    // A5: notify the upper layer, clear the timer.
                    self.state = States::Closed;
                    self.timer_armed = false;
                    Result::Ok(
                        (Option::Some(TransportServiceInd::Disconnect(frame)), Option::None),
                    )
                } else {
                    Result::Ok((Option::None, Option::None))
                }
            },
            TransportServiceInd::DataConnected(frame) => {
                let src = frame.src_addr();
                let same = match &self.src_addr {
                    Option::Some(a) => a.0 == src.0,
                    Option::None => false,
                };
                let sq = frame.tpci_seq();
                if !same {
                    // A10: reject data from a foreign peer.
                    let resp = match build_response_frame(pool, local, src, 0, 0x81) {
                        Result::Ok(f) => f,
                        Result::Err(e) => {
                            return Result::Err(e);
                        },
                    };
                    Result::Ok((Option::None, Option::Some(resp)))
                } else if sq == self.seq_no_recv {
                    if self.state == States::Closed {
                        // A10: no connection to receive on.
                        let resp = match build_response_frame(pool, local, src, 0, 0x81) {
                            Result::Ok(f) => f,
                            Result::Err(e) => {
                                return Result::Err(e);
                            },
                        };
                        Result::Ok((Option::None, Option::Some(resp)))
                    } else {
                        // A2: acknowledge, bump the receive counter, surface.
                        let resp = match build_response_frame(
                            pool,
                            local,
                            src,
                            self.seq_no_recv,
                            0xc2,
                        ) {
                            Result::Ok(f) => f,
                            Result::Err(e) => {
                                return Result::Err(e);
                            },
                        };
                        self.timer_armed = true;
                        self.seq_no_recv = (self.seq_no_recv + 1) % 16;
                        Result::Ok(
                            (
                                Option::Some(TransportServiceInd::DataConnected(frame)),
                                Option::Some(resp),
                            ),
                        )
                    }
                } else if (sq + 1) % 16 == self.seq_no_recv {
                    if self.state == States::Closed {
                        let resp = match build_response_frame(pool, local, src, 0, 0x81) {
                            Result::Ok(f) => f,
                            Result::Err(e) => {
                                return Result::Err(e);
                            },
                        };
                        Result::Ok((Option::None, Option::Some(resp)))
                    } else {
                        // A3: acknowledge the duplicate, do not surface.
                        let resp = match build_response_frame(pool, local, src, sq, 0xc2) {
                            Result::Ok(f) => f,
                            Result::Err(e) => {
                                return Result::Err(e);
                            },
                        };
                        self.timer_armed = true;
                        Result::Ok((Option::None, Option::Some(resp)))
                    }
                } else {
                    // Out-of-window sequence number: drop.
                    Result::Ok((Option::None, Option::None))
                }
            },
            TransportServiceInd::ACK(frame) => {
                let src = frame.src_addr();
                let same = match &self.src_addr {
                    Option::Some(a) => a.0 == src.0,
                    Option::None => false,
                };
                let sq = frame.tpci_seq();
                if !same {
                    // A10: reject the foreign acknowledgement.
                    let resp = match build_response_frame(pool, local, src, 0, 0x81) {
                        Result::Ok(f) => f,
                        Result::Err(e) => {
                            return Result::Err(e);
                        },
                    };
                    Result::Ok((Option::None, Option::Some(resp)))
                } else if sq == self.seq_no_send && self.state == States::OpenWait {
                    // A8: the pending send is confirmed.
                    self.seq_no_send = (self.seq_no_send + 1) % 16;
                    self.state = States::OpenIdle;
                    self.timer_armed = true;
                    Result::Ok((Option::None, Option::None))
                } else {
                    Result::Ok((Option::None, Option::None))
                }
            },
            TransportServiceInd::NAK(frame) => {
                let src = frame.src_addr();
                let same = match &self.src_addr {
                    Option::Some(a) => a.0 == src.0,
                    Option::None => false,
                };
                let sq = frame.tpci_seq();
                if !same {
                    let resp = match build_response_frame(pool, local, src, 0, 0x81) {
                        Result::Ok(f) => f,
                        Result::Err(e) => {
                            return Result::Err(e);
                        },
                    };
                    Result::Ok((Option::None, Option::Some(resp)))
                } else if sq == self.seq_no_send && self.state == States::OpenWait {
                    if self.rep_count < 3 {
                        // A9: repeat the stored frame.
                        let resp = match &self.stored_frame {
                            Option::Some(stored) => {
                                match stored.try_clone(pool) {
                                    Result::Ok(f) => f,
                                    Result::Err(e) => {
                                        return Result::Err(e);
                                    },
                                }
                            },
                            Option::None => {
                                proof {
                                    assert(false);
                                }
                                return Result::Err(FrameError::OutOfMemory);
                            },
                        };
                        self.rep_count = self.rep_count + 1;
                        self.timer_armed = true;
                        Result::Ok((Option::None, Option::Some(resp)))
                    } else {
                        // The repetition cap is reached: tear down.
                        let resp = match build_response_frame(pool, local, src, 0, 0x81) {
                            Result::Ok(f) => f,
                            Result::Err(e) => {
                                return Result::Err(e);
                            },
                        };
                        self.state = States::Closed;
                        self.timer_armed = false;
                        Result::Ok(
                            (
                                Option::Some(TransportServiceInd::Disconnect(frame)),
                                Option::Some(resp),
                            ),
                        )
                    }
                } else {
                    Result::Ok((Option::None, Option::None))
                }
            },
            _ => {
                proof {
                    assert(false);
                }
                Result::Ok((Option::None, Option::None))
            },
        }
    }
}

/// The frame carried by a network indication.
pub open spec fn spec_net_ind_frame(ind: NetworkServiceInd) -> Frame {
    match ind {
        NetworkServiceInd::DataIndividual(f) => f,
        NetworkServiceInd::DataGroup(f) => f,
        NetworkServiceInd::DataBroadcast(f) => f,
        NetworkServiceInd::DataSystemBroadcast(f) => f,
    }
}

/// The transport layer: the network layer below it and the one connection.
pub struct TransportLayer {
    pub network: NetworkLayer,
    connection: Connection,
}

impl TransportLayer {
    /// The abstract view of the held connection.
    pub closed spec fn conn_abs(self) -> ConnAbs {
        self.connection.abs()
    }

    /// The frame stashed for repetition, if a send is pending.
    pub closed spec fn conn_stored(self) -> Option<Frame> {
        self.connection.stored()
    }

    /// The held connection is well-formed.
    pub open spec fn wf(self) -> bool {
        &&& abs_wf(self.conn_abs())
        &&& self.conn_abs().state == States::OpenWait ==> self.conn_stored() is Some
    }

    /// Creates the transport layer with a fresh, closed connection.
    pub fn new(network: NetworkLayer) -> (r: Self)
        ensures
            r.wf(),
            r.conn_abs() == (ConnAbs {
                state: States::Closed,
                seq_send: 0,
                seq_recv: 0,
                rep_count: 0,
                peer: Option::None,
                timer: false,
            }),
            r.conn_stored() is None,
    {
        TransportLayer { network, connection: Connection::new() }
    }

    /// The current connection state, for observation.
    pub fn state(&self) -> (r: States)
        ensures
            r == self.conn_abs().state,
    {
        self.connection.state
    }

    /// The next send sequence number.
    pub fn seq_send(&self) -> (r: u8)
        ensures
            r == self.conn_abs().seq_send,
    {
        self.connection.seq_no_send
    }

    /// The next expected receive sequence number.
    pub fn seq_recv(&self) -> (r: u8)
        ensures
            r == self.conn_abs().seq_recv,
    {
        self.connection.seq_no_recv
    }

    /// The repetition counter of the pending send.
    pub fn rep_count(&self) -> (r: u8)
        ensures
            r == self.conn_abs().rep_count,
    {
        self.connection.rep_count
    }

    /// The recorded peer, if any.
    pub fn peer(&self) -> (r: Option<IndividualAddress>)
        ensures
            r is Some <==> self.conn_abs().peer is Some,
            r is Some ==> (r->0).0 == self.conn_abs().peer->0,
    {
        self.connection.src_addr
    }

    /// Whether the inactivity timer is armed.
    pub fn timer_armed(&self) -> (r: bool)
        ensures
            r == self.conn_abs().timer,
    {
        self.connection.timer_armed
    }

    /// Decodes the TPCI of one network indication and routes it: plain
    /// connectionless data passes through by destination class; connected
    /// traffic, connects, disconnects, acknowledgements and negative
    /// acknowledgements drive the connection machine; any other TPCI is an
    /// invalid TPDU.  The second result component is a frame the caller
    /// must transmit toward the bus, if the machine answered one.
    pub fn receive_ind(
        &mut self,
        ind: NetworkServiceInd,
        pool: &mut FramePool,
        local: IndividualAddress,
    ) -> (r: Result<(Option<TransportServiceInd>, Option<Frame>), FrameError>)
        requires
            old(self).wf(),
            old(pool).wf(),
            spec_net_ind_frame(ind).wf(),
        ensures
            final(self).wf(),
            final(pool).wf(),
            final(pool).block_count() == old(pool).block_count(),
            r is Err ==> *final(pool) == *old(pool),
            r is Ok && r->Ok_0.1 is None ==> *final(pool) == *old(pool),
            r is Ok && r->Ok_0.1 is Some ==> final(pool).free_blocks() == old(pool).free_blocks()
                - 1,
            ({
                let f = spec_net_ind_frame(ind);
                let t = spec_tpci8_of(f.kind(), f@);
                let t6 = spec_tpci6_of(f.kind(), f@);
                match ind {
                    NetworkServiceInd::DataIndividual(_) => {
                        if t >> 6 == 0 {
                            r == Result::<_, FrameError>::Ok(
                                (
                                    Option::Some(TransportServiceInd::DataIndividual(f)),
                                    Option::<Frame>::None,
                                ),
                            ) && *final(self) == *old(self)
                        } else if t >> 6 == 1 {
                            spec_conn_call(
                                old(self).conn_abs(),
                                old(self).conn_stored(),
                                old(pool).free_blocks(),
                                TransportServiceInd::DataConnected(f),
                                local,
                                r,
                                final(self).conn_abs(),
                                final(self).conn_stored(),
                            )
                        } else if t == 0x80 {
                            spec_conn_call(
                                old(self).conn_abs(),
                                old(self).conn_stored(),
                                old(pool).free_blocks(),
                                TransportServiceInd::Connect(f),
                                local,
                                r,
                                final(self).conn_abs(),
                                final(self).conn_stored(),
                            )
                        } else if t == 0x81 {
                            spec_conn_call(
                                old(self).conn_abs(),
                                old(self).conn_stored(),
                                old(pool).free_blocks(),
                                TransportServiceInd::Disconnect(f),
                                local,
                                r,
                                final(self).conn_abs(),
                                final(self).conn_stored(),
                            )
                        } else if t & 0xc3 == 0xc2 {
                            spec_conn_call(
                                old(self).conn_abs(),
                                old(self).conn_stored(),
                                old(pool).free_blocks(),
                                TransportServiceInd::ACK(f),
                                local,
                                r,
                                final(self).conn_abs(),
                                final(self).conn_stored(),
                            )
                        } else if t & 0xc3 == 0xc3 {
                            spec_conn_call(
                                old(self).conn_abs(),
                                old(self).conn_stored(),
                                old(pool).free_blocks(),
                                TransportServiceInd::NAK(f),
                                local,
                                r,
                                final(self).conn_abs(),
                                final(self).conn_stored(),
                            )
                        } else {
                            r == Result::<(Option<TransportServiceInd>, Option<Frame>),
                                FrameError,
                            >::Err(FrameError::InvalidTpdu(t)) && *final(self) == *old(self)
                        }
                    },
                    NetworkServiceInd::DataBroadcast(_) => if t6 == 0 {
                        r == Result::<_, FrameError>::Ok(
                            (
                                Option::Some(TransportServiceInd::DataBroadcast(f)),
                                Option::<Frame>::None,
                            ),
                        ) && *final(self) == *old(self)
                    } else {
                        r == Result::<(Option<TransportServiceInd>, Option<Frame>),
                            FrameError,
                        >::Err(FrameError::InvalidTpdu(t6)) && *final(self) == *old(self)
                    },
                    NetworkServiceInd::DataGroup(_) => if t6 == 0 {
                        r == Result::<_, FrameError>::Ok(
                            (
                                Option::Some(TransportServiceInd::DataGroup(f)),
                                Option::<Frame>::None,
                            ),
                        ) && *final(self) == *old(self)
                    } else if t6 == 1 {
                        r == Result::<_, FrameError>::Ok(
                            (
                                Option::Some(TransportServiceInd::DataTagGroup(f)),
                                Option::<Frame>::None,
                            ),
                        ) && *final(self) == *old(self)
                    } else {
                        r == Result::<(Option<TransportServiceInd>, Option<Frame>),
                            FrameError,
                        >::Err(FrameError::InvalidTpdu(t6)) && *final(self) == *old(self)
                    },
                    NetworkServiceInd::DataSystemBroadcast(_) => r == Result::<_,
                        FrameError,
                    >::Ok(
                        (
                            Option::Some(TransportServiceInd::DataSystemBroadcast(f)),
                            Option::<Frame>::None,
                        ),
                    ) && *final(self) == *old(self),
                }
            }),
    {
        match ind {
            NetworkServiceInd::DataIndividual(frame) => {
                let tpci = frame.tpci(TpciBits::Eight);
                if tpci >> 6 == 0 {
                    Result::Ok(
                        (Option::Some(TransportServiceInd::DataIndividual(frame)), Option::None),
                    )
                } else if tpci >> 6 == 1 {
                    self.connection.handle_ind(
                        TransportServiceInd::DataConnected(frame),
                        pool,
                        local,
                    )
                } else if tpci == 0x80 {
                    self.connection.handle_ind(TransportServiceInd::Connect(frame), pool, local)
                } else if tpci == 0x81 {
                    self.connection.handle_ind(TransportServiceInd::Disconnect(frame), pool, local)
                } else if tpci & 0xc3 == 0xc2 {
                    self.connection.handle_ind(TransportServiceInd::ACK(frame), pool, local)
                } else if tpci & 0xc3 == 0xc3 {
                    self.connection.handle_ind(TransportServiceInd::NAK(frame), pool, local)
                } else {
                    Result::Err(FrameError::InvalidTpdu(tpci))
                }
            },
            NetworkServiceInd::DataBroadcast(frame) => {
                let tpci = frame.tpci(TpciBits::Six);
                if tpci == 0 {
                    Result::Ok(
                        (Option::Some(TransportServiceInd::DataBroadcast(frame)), Option::None),
                    )
                } else {
                    Result::Err(FrameError::InvalidTpdu(tpci))
                }
            },
            NetworkServiceInd::DataGroup(frame) => {
                let tpci = frame.tpci(TpciBits::Six);
                if tpci == 0 {
                    Result::Ok(
                        (Option::Some(TransportServiceInd::DataGroup(frame)), Option::None),
                    )
                } else if tpci == 1 {
                    Result::Ok(
                        (Option::Some(TransportServiceInd::DataTagGroup(frame)), Option::None),
                    )
                } else {
                    Result::Err(FrameError::InvalidTpdu(tpci))
                }
            },
            NetworkServiceInd::DataSystemBroadcast(frame) => {
                Result::Ok(
                    (Option::Some(TransportServiceInd::DataSystemBroadcast(frame)), Option::None),
                )
            },
        }
    }

    /// Tears the connection down when the inactivity ticker fires with the
    /// machine open: a T_Disconnect is sent toward the peer and the upper
    /// layer is notified (first result component).  With the machine
    /// closed the tick is ignored.
    pub fn handle_timeout(&mut self, pool: &mut FramePool, local: IndividualAddress) -> (r: Result<
        (bool, Option<Frame>),
        FrameError,
    >)
        requires
            old(self).wf(),
            old(pool).wf(),
        ensures
            final(self).wf(),
            final(pool).wf(),
            final(pool).block_count() == old(pool).block_count(),
            old(self).conn_abs().state == States::Closed ==> r == Result::<
                (bool, Option<Frame>),
                FrameError,
            >::Ok((false, Option::None)) && *final(self) == *old(self) && *final(pool) == *old(
                pool,
            ),
            old(self).conn_abs().state != States::Closed ==> {
                &&& (r is Err <==> old(pool).free_blocks() == 0)
                &&& (r is Err ==> r == Result::<(bool, Option<Frame>), FrameError>::Err(
                    FrameError::OutOfMemory,
                ) && *final(self) == *old(self) && *final(pool) == *old(pool))
                &&& (r is Ok ==> r->Ok_0.0 == true && final(pool).free_blocks() == old(
                    pool,
                ).free_blocks() - 1 && final(self).conn_abs() == abs_close(
                    old(self).conn_abs(),
                ) && final(self).conn_stored() == old(self).conn_stored() && r->Ok_0.1 is Some
                    && spec_is_control_frame(
                    r->Ok_0.1->0,
                    local.0,
                    old(self).conn_abs().peer->0,
                    0x81,
                ))
            },
    {
        proof {
            assert((0x81u8 | ((0u8 & 0xf) << 2)) == 0x81) by (bit_vector);
        }
        if self.connection.state == States::Closed {
            return Result::Ok((false, Option::None));
        }
        let peer = match &self.connection.src_addr {
            Option::Some(a) => *a,
            Option::None => {
                proof {
                    assert(false);
                }
                return Result::Ok((false, Option::None));
            },
        };
        let resp = match build_response_frame(pool, local, peer, 0, 0x81) {
            Result::Ok(f) => f,
            Result::Err(e) => {
                return Result::Err(e);
            },
        };
        self.connection.state = States::Closed;
        self.connection.timer_armed = false;
        Result::Ok((true, Option::Some(resp)))
    }

    /// Action A7, on request from the upper layer: annotates a frame for
    /// the connected peer — destination, source, hop count 7, a numbered
    /// connected-data TPCI carrying the send sequence number — stashes a
    /// copy for repetition, resets the repetition counter, rearms the
    /// inactivity timer and enters the wait-for-acknowledgement state.
    /// The caller transmits the returned frame.
    pub fn send_data(
        &mut self,
        frame: Frame,
        pool: &mut FramePool,
        local: IndividualAddress,
    ) -> (r: Result<Frame, FrameError>)
        requires
            old(self).wf(),
            old(pool).wf(),
            frame.wf(),
            old(self).conn_abs().state == States::OpenIdle,
        ensures
            final(self).wf(),
            final(pool).wf(),
            final(pool).block_count() == old(pool).block_count(),
            r is Err <==> old(pool).free_blocks() == 0,
            r is Err ==> r == Result::<Frame, FrameError>::Err(FrameError::OutOfMemory)
                && *final(self) == *old(self) && *final(pool) == *old(pool),
            r is Ok ==> {
                let f = r->Ok_0;
                let c0 = old(self).conn_abs();
                &&& final(self).conn_abs() == (ConnAbs {
                    state: States::OpenWait,
                    rep_count: 0,
                    timer: true,
                    ..c0
                })
                &&& final(self).conn_stored() is Some
                &&& final(self).conn_stored()->0.kind() == f.kind()
                &&& final(self).conn_stored()->0@ == f@
                &&& f.wf()
                &&& f.kind() == frame.kind()
                &&& spec_dst_of(f.kind(), f@) == c0.peer->0
                &&& spec_src_of(f.kind(), f@) == local.0
                &&& spec_tpci6_of(f.kind(), f@) == (spec_tpci6_of(frame.kind(), frame@) | 0x10)
                    | (c0.seq_send & 0xf)
            },
    {
        let mut frame = frame;
        let peer = match &self.connection.src_addr {
            Option::Some(a) => *a,
            Option::None => {
                proof {
                    assert(false);
                }
                return Result::Err(FrameError::OutOfMemory);
            },
        };
        frame.set_dst_addr(&Address::Individual(peer));
        frame.set_src_addr(&local);
        frame.set_hop_count(7);
        frame.set_tpci(TpciBits::Six, 0x10);
        let ghost t_mid = spec_tpci8_of(frame.kind(), frame@);
        frame.set_tpci_seq(self.connection.seq_no_send);
        let stored = match frame.try_clone(pool) {
            Result::Ok(f) => f,
            Result::Err(e) => {
                return Result::Err(e);
            },
        };
        proof {
            assert(0x10u8 & 0x3f == 0x10) by (bit_vector);
            bits::lemma_tpci_seq_set(t_mid, old(self).conn_abs().seq_send);
        }
        self.connection.stored_frame = Option::Some(stored);
        self.connection.rep_count = 0;
        self.connection.timer_armed = true;
        self.connection.state = States::OpenWait;
        Result::Ok(frame)
    }

    /// The outbound group send path: rewrites the destination to the
    /// caller-supplied group address and the source to this node, clears
    /// the 6-bit TPCI, and hands the frame to the network layer as a
    /// group-data request.  Every byte from the APCI continuation byte on
    /// — where the payload sits — is untouched.
    pub fn send(
        &self,
        req: TransportServiceReq,
        dst_address: GroupAddress,
        local: IndividualAddress,
    ) -> (r: NetworkServiceReq)
        requires
            ({
                let TransportServiceReq::DataGroupReq(dg) = req;
                dg.frame.wf()
            }),
        ensures
            ({
                let TransportServiceReq::DataGroupReq(dg) = req;
                let f0 = dg.frame;
                match r {
                    NetworkServiceReq::DataGroup(f) => {
                        &&& f.wf()
                        &&& f.kind() == f0.kind()
                        &&& f@.len() == f0@.len()
                        &&& spec_dst_of(f.kind(), f@) == dst_address.0
                        &&& spec_at_bit_of(f.kind(), f@) == (spec_at_bit_of(f0.kind(), f0@) | 1)
                        &&& spec_src_of(f.kind(), f@) == local.0
                        &&& spec_tpci8_of(f.kind(), f@) == spec_tpci8_of(f0.kind(), f0@)
                        &&& f@[0] == f0@[0]
                        &&& forall|i: int|
                            spec_apci_lo_off(f0.kind()) <= i < f0@.len() ==> f@[i] == f0@[i]
                    },
                    _ => false,
                }
            }),
    {
        let TransportServiceReq::DataGroupReq(dg) = req;
        let mut frame = dg.frame;
        let ghost t0 = spec_tpci8_of(frame.kind(), frame@);
        frame.set_dst_addr(&Address::Group(dst_address));
        frame.set_src_addr(&local);
        frame.set_tpci(TpciBits::Six, 0x0);
        proof {
            assert(t0 | (0u8 << 2) == t0) by (bit_vector);
        }
        NetworkServiceReq::DataGroup(frame)
    }
}

/// Folding the abstract step over a sequence of classified events.
pub open spec fn abs_run(c: ConnAbs, evs: Seq<Event>) -> ConnAbs
    decreases evs.len(),
{
    if evs.len() == 0 {
        c
    } else {
        abs_run(abs_step(c, evs[0]), evs.drop_first())
    }
}

/// One step preserves well-formedness of the abstract state.
pub proof fn lemma_step_preserves_wf(c: ConnAbs, ev: Event)
    requires
        abs_wf(c),
    ensures
        abs_wf(abs_step(c, ev)),
{
}

/// How the sequence counters may move in one step: the receive counter
/// either stays or advances by one modulo 16 — it is reset to zero only by
/// an accepted connect (action A1) — and the send counter advances only on
/// a matching T_Ack in the wait state, or is reset by that same A1.
#[verifier::opaque]
pub open spec fn spec_seq_tracking(c: ConnAbs, ev: Event) -> bool {
    let n = abs_step(c, ev);
    let connect_reset = (ev == Event::ConnectSame || ev matches Event::ConnectNew(_)) && c.state
        == States::Closed;
    &&& (n.seq_recv == c.seq_recv || n.seq_recv == (c.seq_recv + 1) % 16 || (connect_reset
        && n.seq_recv == 0))
    &&& (n.seq_send == c.seq_send || (ev == Event::AckMatch && c.state == States::OpenWait
        && n.seq_send == (c.seq_send + 1) % 16) || (connect_reset && n.seq_send == 0))
}

/// One step obeys the sequence-counter tracking law.
pub proof fn lemma_seq_tracking_step(c: ConnAbs, ev: Event)
    requires
        abs_wf(c),
    ensures
        spec_seq_tracking(c, ev),
{
    reveal(spec_seq_tracking);
}

/// The tracking law holds at every step of a run: each consecutive pair
/// of states along the fold obeys `spec_seq_tracking`.
pub open spec fn spec_run_tracked(c: ConnAbs, evs: Seq<Event>) -> bool
    decreases evs.len(),
{
    evs.len() == 0 || (spec_seq_tracking(c, evs[0]) && spec_run_tracked(
        abs_step(c, evs[0]),
        evs.drop_first(),
    ))
}

/// Over any sequence of classified events from a well-formed start, every
/// state reached is well-formed, the receive counter is monotonically
/// non-decreasing modulo 16 — each step keeps it or advances it by one,
/// with a reset only at an accepted connect — and the send counter
/// advances only on a matching T_Ack in the wait state.
pub proof fn lemma_seq_tracking_run(c: ConnAbs, evs: Seq<Event>)
    requires
        abs_wf(c),
    ensures
        abs_wf(abs_run(c, evs)),
        spec_run_tracked(c, evs),
    decreases evs.len(),
{
    if evs.len() > 0 {
        lemma_seq_tracking_step(c, evs[0]);
        lemma_step_preserves_wf(c, evs[0]);
        lemma_seq_tracking_run(abs_step(c, evs[0]), evs.drop_first());
    }
}

/// The repetition counter never exceeds 3, and a matching T_Nak that
/// arrives with the counter already at 3 — the fourth — closes the
/// connection.
pub proof fn lemma_rep_count_capped(c: ConnAbs, ev: Event)
    requires
        abs_wf(c),
    ensures
        abs_step(c, ev).rep_count <= 3,
        ev == Event::NakMatch && c.state == States::OpenWait && c.rep_count == 3 ==> abs_step(
            c,
            ev,
        ).state == States::Closed,
{
}

/// While the machine is closed, no event but an accepted connect (action
/// A1) touches either sequence counter, and only a connect can leave the
/// closed state.
pub proof fn lemma_closed_counters_frozen(c: ConnAbs, ev: Event)
    requires
        abs_wf(c),
        c.state == States::Closed,
        !(ev == Event::ConnectSame || ev matches Event::ConnectNew(_)),
    ensures
        abs_step(c, ev).seq_send == c.seq_send,
        abs_step(c, ev).seq_recv == c.seq_recv,
        abs_step(c, ev).state == States::Closed,
{
}

} // verus!
