use knx_stack::addr::{Address, GroupAddress, IndividualAddress};
use knx_stack::application::{
    ApplicationLayer, ApplicationServiceInd, GroupReadResponse,
};
use knx_stack::data_link::{DataLinkLayer, DataServiceInd};
use knx_stack::data_point::{DataPoint, B1, U8};
use knx_stack::frame::{ApciBits, Frame, FrameError, Priority, TpciBits};
use knx_stack::network::{NetworkLayer, NetworkServiceInd, NetworkServiceReq};
use knx_stack::pool::FramePool;
use knx_stack::transport::{
    TransportLayer, TransportServiceInd, TransportServiceReq,
};

fn local() -> IndividualAddress {
    IndividualAddress::from_parts(1, 1, 99)
}

fn app() -> ApplicationLayer {
    ApplicationLayer::new(TransportLayer::new(NetworkLayer::new(DataLinkLayer::new())))
}

fn s1_wire() -> Vec<u8> {
    vec![0xbc, 0x11, 0x0a, 0x09, 0x62, 0xe1, 0x00, 0x00, 0xd2]
}

#[test]
fn s1_group_value_read_surfaces() {
    let mut pool = FramePool::new(8);
    let frame = Frame::parse(&mut pool, &s1_wire()).unwrap();

    // Network classification: a nonzero group destination.
    let network = NetworkLayer::new(DataLinkLayer::new());
    let ind = network.receive(DataServiceInd::Data(frame)).unwrap();
    let frame = match ind {
        NetworkServiceInd::DataGroup(f) => f,
        _ => panic!("expected a group classification"),
    };

    // Transport: 6-bit TPCI zero passes the frame through as group data.
    let mut tl = TransportLayer::new(NetworkLayer::new(DataLinkLayer::new()));
    let (t_ind, resp) = tl
        .receive_ind(NetworkServiceInd::DataGroup(frame), &mut pool, local())
        .unwrap();
    assert!(resp.is_none());
    let t_ind = t_ind.unwrap();

    // Application: APCI 0 is a group-value read.
    let a = app();
    let r = a.receive(Ok(t_ind));
    assert_eq!(r, Some(ApplicationServiceInd::GroupValueRead(0)));
}

#[test]
fn other_apci_values_not_dispatched() {
    let mut pool = FramePool::new(8);
    for v in [1u16, 2, 9] {
        let mut frame = Frame::from_datapoint(&mut pool, &DataPoint::B1(B1::new(false))).unwrap();
        frame.set_apci(ApciBits::Four, v);
        let a = app();
        assert_eq!(a.receive(Ok(TransportServiceInd::DataGroup(frame))), None);
    }
}

#[test]
fn non_group_indications_ignored() {
    let mut pool = FramePool::new(8);
    let frame = Frame::parse(&mut pool, &s1_wire()).unwrap();
    let a = app();
    assert_eq!(a.receive(Ok(TransportServiceInd::DataBroadcast(frame))), None);
    assert_eq!(a.receive(Err(FrameError::Checksum)), None);
}

#[test]
fn group_read_response_builds_reply() {
    let mut pool = FramePool::new(8);
    let resp = GroupReadResponse::new(0, DataPoint::B1(B1::new(true)), Priority::Normal);
    let req = resp.to_transport(0, &mut pool).unwrap();
    assert_eq!(req.tsap, 0);
    let frame = &req.frame;
    assert_eq!(frame.apci(ApciBits::Four), 1);
    assert_eq!(frame.priority(), Priority::Normal);
    assert_eq!(frame.hop_count(), 7);
    assert_eq!(frame.data()[7] & 0x1, 1);

    // The outbound group path stamps destination, source and TPCI.
    let tl = TransportLayer::new(NetworkLayer::new(DataLinkLayer::new()));
    let out = tl.send(
        TransportServiceReq::DataGroupReq(req),
        GroupAddress::from_parts(1, 1, 98),
        local(),
    );
    let frame = match out {
        NetworkServiceReq::DataGroup(f) => f,
        _ => panic!("expected a group request"),
    };
    assert_eq!(frame.dst_addr(), Address::Group(GroupAddress::new(0x0962)));
    assert_eq!(frame.src_addr(), local());
    assert_eq!(frame.tpci(TpciBits::Six), 0);
    assert_eq!(frame.apci(ApciBits::Four), 1);

    // The wire image it would be sent as carries a sound checksum.
    let wire = frame.encode();
    let mut x = 0u8;
    for b in wire[..wire.len() - 1].iter() {
        x ^= *b;
    }
    assert_eq!(*wire.last().unwrap(), !x);
}

#[test]
fn group_read_response_byte_payload() {
    let mut pool = FramePool::new(8);
    let resp = GroupReadResponse::new(3, DataPoint::U8(U8::new(0x42)), Priority::Urgent);
    let req = resp.to_transport(7, &mut pool).unwrap();
    assert_eq!(req.tsap, 7);
    assert_eq!(req.frame.data()[8], 0x42);
    assert_eq!(req.frame.apci(ApciBits::Four), 1);

    let mut empty = FramePool::new(0);
    let resp = GroupReadResponse::new(0, DataPoint::U8(U8::new(1)), Priority::Low);
    assert!(matches!(
        resp.to_transport(0, &mut empty),
        Err(FrameError::OutOfMemory)
    ));
}

#[test]
fn network_classification() {
    let mut pool = FramePool::new(8);
    let network = NetworkLayer::new(DataLinkLayer::new());

    let mut f = Frame::from_datapoint(&mut pool, &DataPoint::B1(B1::new(false))).unwrap();
    f.set_dst_addr(&Address::Individual(local()));
    assert!(matches!(
        network.receive(DataServiceInd::Data(f)),
        Some(NetworkServiceInd::DataIndividual(_))
    ));

    let mut f = Frame::from_datapoint(&mut pool, &DataPoint::B1(B1::new(false))).unwrap();
    f.set_dst_addr(&Address::Group(GroupAddress::new(0)));
    assert!(matches!(
        network.receive(DataServiceInd::Data(f)),
        Some(NetworkServiceInd::DataBroadcast(_))
    ));

    let f = Frame::from_datapoint(&mut pool, &DataPoint::B1(B1::new(false))).unwrap();
    assert!(matches!(
        network.receive(DataServiceInd::SystemBroadcast(f)),
        Some(NetworkServiceInd::DataSystemBroadcast(_))
    ));

    let f = Frame::from_datapoint(&mut pool, &DataPoint::B1(B1::new(false))).unwrap();
    assert!(network.receive(DataServiceInd::Busmon(f)).is_none());
}
