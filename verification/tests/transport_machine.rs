use knx_stack::addr::{Address, GroupAddress, IndividualAddress};
use knx_stack::data_link::DataLinkLayer;
use knx_stack::data_point::{DataPoint, B1};
use knx_stack::frame::{Frame, FrameError, StandardFrame, TpciBits};
use knx_stack::network::{NetworkLayer, NetworkServiceInd};
use knx_stack::pool::FramePool;
use knx_stack::transport::{States, TransportLayer, TransportServiceInd};

fn local() -> IndividualAddress {
    IndividualAddress::from_parts(1, 1, 99)
}

fn peer_p() -> IndividualAddress {
    IndividualAddress::from_parts(1, 1, 10)
}

fn peer_q() -> IndividualAddress {
    IndividualAddress::from_parts(2, 2, 2)
}

fn fresh_transport() -> TransportLayer {
    TransportLayer::new(NetworkLayer::new(DataLinkLayer::new()))
}

/// A minimal standard frame from `src` to the local node carrying `tpci`
/// as its full TPCI byte.
fn control_frame(pool: &mut FramePool, src: IndividualAddress, tpci: u8) -> Frame {
    let sf = StandardFrame::new(pool, 8).unwrap();
    let mut f = Frame::Standard(sf);
    f.set_src_addr(&src);
    f.set_dst_addr(&Address::Individual(local()));
    f.set_tpci(TpciBits::Eight, tpci);
    f
}

#[test]
fn s4_connect_data_data_disconnect() {
    let mut pool = FramePool::new(8);
    let mut tl = fresh_transport();

    // T_Connect from P: A1 opens the connection.
    let f = control_frame(&mut pool, peer_p(), 0x80);
    let (ind, resp) = tl
        .receive_ind(NetworkServiceInd::DataIndividual(f), &mut pool, local())
        .unwrap();
    assert!(matches!(ind, Some(TransportServiceInd::Connect(_))));
    assert!(resp.is_none());
    assert_eq!(tl.state(), States::OpenIdle);
    assert_eq!(tl.seq_send(), 0);
    assert_eq!(tl.seq_recv(), 0);
    assert!(tl.timer_armed());

    // Connected data, sequence 0: A2 acknowledges and surfaces.
    let f = control_frame(&mut pool, peer_p(), 0x40);
    let (ind, resp) = tl
        .receive_ind(NetworkServiceInd::DataIndividual(f), &mut pool, local())
        .unwrap();
    assert!(matches!(ind, Some(TransportServiceInd::DataConnected(_))));
    let ack = resp.unwrap();
    assert_eq!(ack.tpci(TpciBits::Eight), 0xc2);
    assert_eq!(ack.dst_addr(), Address::Individual(peer_p()));
    assert_eq!(ack.src_addr(), local());
    assert_eq!(tl.seq_recv(), 1);
    ack.release(&mut pool);

    // Connected data, sequence 1: the ACK carries sequence 1.
    let f = control_frame(&mut pool, peer_p(), 0x44);
    let (ind, resp) = tl
        .receive_ind(NetworkServiceInd::DataIndividual(f), &mut pool, local())
        .unwrap();
    assert!(matches!(ind, Some(TransportServiceInd::DataConnected(_))));
    let ack = resp.unwrap();
    assert_eq!(ack.tpci(TpciBits::Eight), 0xc6);
    assert_eq!(tl.seq_recv(), 2);
    ack.release(&mut pool);

    // T_Disconnect from P: A5 notifies and closes.
    let f = control_frame(&mut pool, peer_p(), 0x81);
    let (ind, resp) = tl
        .receive_ind(NetworkServiceInd::DataIndividual(f), &mut pool, local())
        .unwrap();
    assert!(matches!(ind, Some(TransportServiceInd::Disconnect(_))));
    assert!(resp.is_none());
    assert_eq!(tl.state(), States::Closed);
}

#[test]
fn s5_duplicate_acked_but_not_surfaced() {
    let mut pool = FramePool::new(8);
    let mut tl = fresh_transport();
    let f = control_frame(&mut pool, peer_p(), 0x80);
    tl.receive_ind(NetworkServiceInd::DataIndividual(f), &mut pool, local())
        .unwrap();
    let f = control_frame(&mut pool, peer_p(), 0x40);
    tl.receive_ind(NetworkServiceInd::DataIndividual(f), &mut pool, local())
        .unwrap();
    assert_eq!(tl.seq_recv(), 1);

    // The same sequence number again: A3 acknowledges it, surfaces
    // nothing, and the receive counter stays put.
    let f = control_frame(&mut pool, peer_p(), 0x40);
    let (ind, resp) = tl
        .receive_ind(NetworkServiceInd::DataIndividual(f), &mut pool, local())
        .unwrap();
    assert!(ind.is_none());
    let ack = resp.unwrap();
    assert_eq!(ack.tpci(TpciBits::Eight), 0xc2);
    assert_eq!(tl.seq_recv(), 1);
}

#[test]
fn s6_foreign_connect_rejected() {
    let mut pool = FramePool::new(8);
    let mut tl = fresh_transport();
    let f = control_frame(&mut pool, peer_p(), 0x80);
    tl.receive_ind(NetworkServiceInd::DataIndividual(f), &mut pool, local())
        .unwrap();
    assert_eq!(tl.state(), States::OpenIdle);

    // A10: Q's connect is answered with a disconnect toward Q; P's
    // connection is intact.
    let f = control_frame(&mut pool, peer_q(), 0x80);
    let (ind, resp) = tl
        .receive_ind(NetworkServiceInd::DataIndividual(f), &mut pool, local())
        .unwrap();
    assert!(ind.is_none());
    let reject = resp.unwrap();
    assert_eq!(reject.tpci(TpciBits::Eight), 0x81);
    assert_eq!(reject.dst_addr(), Address::Individual(peer_q()));
    assert_eq!(tl.state(), States::OpenIdle);
    assert_eq!(tl.peer(), Some(peer_p()));
}

#[test]
fn data_while_closed_rejected() {
    let mut pool = FramePool::new(8);
    let mut tl = fresh_transport();
    let f = control_frame(&mut pool, peer_p(), 0x40);
    let (ind, resp) = tl
        .receive_ind(NetworkServiceInd::DataIndividual(f), &mut pool, local())
        .unwrap();
    assert!(ind.is_none());
    assert_eq!(resp.unwrap().tpci(TpciBits::Eight), 0x81);
    assert_eq!(tl.state(), States::Closed);
    assert_eq!(tl.seq_recv(), 0);
}

#[test]
fn send_path_ack_and_nak_repetition_cap() {
    let mut pool = FramePool::new(8);
    let mut tl = fresh_transport();
    let f = control_frame(&mut pool, peer_p(), 0x80);
    tl.receive_ind(NetworkServiceInd::DataIndividual(f), &mut pool, local())
        .unwrap();

    // A7: send connected data; the frame is annotated for the peer.
    let payload = Frame::from_datapoint(&mut pool, &DataPoint::B1(B1::new(true))).unwrap();
    let sent = tl.send_data(payload, &mut pool, local()).unwrap();
    assert_eq!(tl.state(), States::OpenWait);
    assert_eq!(tl.rep_count(), 0);
    assert_eq!(sent.dst_addr(), Address::Individual(peer_p()));
    assert_eq!(sent.src_addr(), local());
    assert_eq!(sent.tpci(TpciBits::Eight), 0x40);
    let sent_bytes = sent.data().clone();

    // Three matching T_Naks: A9 repeats the stored frame each time.
    for expected_rep in 1u8..4 {
        let f = control_frame(&mut pool, peer_p(), 0xc3);
        let (ind, resp) = tl
            .receive_ind(NetworkServiceInd::DataIndividual(f), &mut pool, local())
            .unwrap();
        assert!(ind.is_none());
        let repeat = resp.unwrap();
        assert_eq!(repeat.data(), &sent_bytes);
        assert_eq!(tl.rep_count(), expected_rep);
        assert_eq!(tl.state(), States::OpenWait);
        repeat.release(&mut pool);
    }

    // The fourth T_Nak closes the connection.
    let f = control_frame(&mut pool, peer_p(), 0xc3);
    let (ind, resp) = tl
        .receive_ind(NetworkServiceInd::DataIndividual(f), &mut pool, local())
        .unwrap();
    assert!(matches!(ind, Some(TransportServiceInd::Disconnect(_))));
    assert_eq!(resp.unwrap().tpci(TpciBits::Eight), 0x81);
    assert_eq!(tl.state(), States::Closed);
    assert_eq!(tl.rep_count(), 3);
}

#[test]
fn matching_ack_confirms_send() {
    let mut pool = FramePool::new(8);
    let mut tl = fresh_transport();
    let f = control_frame(&mut pool, peer_p(), 0x80);
    tl.receive_ind(NetworkServiceInd::DataIndividual(f), &mut pool, local())
        .unwrap();
    let payload = Frame::from_datapoint(&mut pool, &DataPoint::B1(B1::new(false))).unwrap();
    let sent = tl.send_data(payload, &mut pool, local()).unwrap();
    sent.release(&mut pool);

    // A8: the matching T_Ack bumps the send counter and reopens idle.
    let f = control_frame(&mut pool, peer_p(), 0xc2);
    let (ind, resp) = tl
        .receive_ind(NetworkServiceInd::DataIndividual(f), &mut pool, local())
        .unwrap();
    assert!(ind.is_none());
    assert!(resp.is_none());
    assert_eq!(tl.state(), States::OpenIdle);
    assert_eq!(tl.seq_send(), 1);
}

#[test]
fn s3_broadcast_tpci_enforced() {
    let mut pool = FramePool::new(8);
    let mut tl = fresh_transport();

    // A broadcast frame with a zero 6-bit TPCI passes through.
    let sf = StandardFrame::new(&mut pool, 8).unwrap();
    let mut f = Frame::Standard(sf);
    f.set_src_addr(&peer_p());
    f.set_dst_addr(&Address::Group(GroupAddress::new(0)));
    let (ind, resp) = tl
        .receive_ind(NetworkServiceInd::DataBroadcast(f), &mut pool, local())
        .unwrap();
    assert!(matches!(ind, Some(TransportServiceInd::DataBroadcast(_))));
    assert!(resp.is_none());

    // A nonzero TPCI in this context is an invalid TPDU.
    let sf = StandardFrame::new(&mut pool, 8).unwrap();
    let mut f = Frame::Standard(sf);
    f.set_src_addr(&peer_p());
    f.set_dst_addr(&Address::Group(GroupAddress::new(0)));
    f.set_tpci(TpciBits::Six, 1);
    let r = tl.receive_ind(NetworkServiceInd::DataBroadcast(f), &mut pool, local());
    assert!(matches!(r, Err(FrameError::InvalidTpdu(1))));
}

#[test]
fn group_tpci_decoding() {
    let mut pool = FramePool::new(8);
    let mut tl = fresh_transport();
    let sf = StandardFrame::new(&mut pool, 8).unwrap();
    let mut f = Frame::Standard(sf);
    f.set_dst_addr(&Address::Group(GroupAddress::from_parts(1, 1, 98)));
    f.set_tpci(TpciBits::Six, 1);
    let (ind, _) = tl
        .receive_ind(NetworkServiceInd::DataGroup(f), &mut pool, local())
        .unwrap();
    assert!(matches!(ind, Some(TransportServiceInd::DataTagGroup(_))));

    let sf = StandardFrame::new(&mut pool, 8).unwrap();
    let mut f = Frame::Standard(sf);
    f.set_dst_addr(&Address::Group(GroupAddress::from_parts(1, 1, 98)));
    f.set_tpci(TpciBits::Six, 2);
    let r = tl.receive_ind(NetworkServiceInd::DataGroup(f), &mut pool, local());
    assert!(matches!(r, Err(FrameError::InvalidTpdu(2))));
}

#[test]
fn invalid_individual_tpdu() {
    let mut pool = FramePool::new(8);
    let mut tl = fresh_transport();
    let f = control_frame(&mut pool, peer_p(), 0x84);
    let r = tl.receive_ind(NetworkServiceInd::DataIndividual(f), &mut pool, local());
    assert!(matches!(r, Err(FrameError::InvalidTpdu(0x84))));
}

#[test]
fn connectionless_individual_passes_through() {
    let mut pool = FramePool::new(8);
    let mut tl = fresh_transport();
    let f = control_frame(&mut pool, peer_p(), 0x00);
    let (ind, resp) = tl
        .receive_ind(NetworkServiceInd::DataIndividual(f), &mut pool, local())
        .unwrap();
    assert!(matches!(ind, Some(TransportServiceInd::DataIndividual(_))));
    assert!(resp.is_none());
    assert_eq!(tl.state(), States::Closed);
}

#[test]
fn inactivity_timeout_tears_down() {
    let mut pool = FramePool::new(8);
    let mut tl = fresh_transport();

    // A tick with the machine closed is ignored.
    let (notified, resp) = tl.handle_timeout(&mut pool, local()).unwrap();
    assert!(!notified);
    assert!(resp.is_none());

    let f = control_frame(&mut pool, peer_p(), 0x80);
    tl.receive_ind(NetworkServiceInd::DataIndividual(f), &mut pool, local())
        .unwrap();
    let (notified, resp) = tl.handle_timeout(&mut pool, local()).unwrap();
    assert!(notified);
    let disc = resp.unwrap();
    assert_eq!(disc.tpci(TpciBits::Eight), 0x81);
    assert_eq!(disc.dst_addr(), Address::Individual(peer_p()));
    assert_eq!(tl.state(), States::Closed);
    assert!(!tl.timer_armed());
}

#[test]
fn reject_fails_cleanly_without_buffers() {
    let mut pool = FramePool::new(1);
    let mut tl = fresh_transport();
    let f = control_frame(&mut pool, peer_p(), 0x40);
    // The pool is now empty: the reject cannot allocate its response and
    // the machine stays untouched.
    let r = tl.receive_ind(NetworkServiceInd::DataIndividual(f), &mut pool, local());
    assert!(matches!(r, Err(FrameError::OutOfMemory)));
    assert_eq!(tl.state(), States::Closed);
    assert_eq!(tl.seq_recv(), 0);
}
