use knx_stack::addr::{Address, GroupAddress, IndividualAddress};
use knx_stack::data_point::{DataPoint, DataPointLength, B1, B2, U8};
use knx_stack::frame::{ApciBits, Frame, FrameError, FrameType, Priority, Repeated, StandardFrame, ExtendedFrame, TpciBits};
use knx_stack::pool::FramePool;

fn s1_wire() -> Vec<u8> {
    vec![0xbc, 0x11, 0x0a, 0x09, 0x62, 0xe1, 0x00, 0x00, 0xd2]
}

#[test]
fn s1_parse_standard_group_read() {
    let mut pool = FramePool::new(8);
    let wire = s1_wire();
    let frame = Frame::parse(&mut pool, &wire).unwrap();
    assert_eq!(frame.frame_type(), FrameType::Standard);
    assert_eq!(frame.length(), 9);
    assert_eq!(frame.src_addr(), IndividualAddress::new(0x110a));
    assert_eq!(frame.dst_addr(), Address::Group(GroupAddress::new(0x0962)));
    assert_eq!(frame.hop_count(), 6);
    assert_eq!(frame.priority(), Priority::Low);
    assert!(matches!(frame.repeated(), Repeated::NotRepeated));
    assert_eq!(frame.tpci(TpciBits::Eight), 0x00);
    assert_eq!(frame.tpci(TpciBits::Six), 0x00);
    assert_eq!(frame.apci(ApciBits::Four), 0);
    assert_eq!(frame.apci(ApciBits::Ten), 0);
    assert_eq!(frame.checksum(), 0xd2);
}

#[test]
fn s2_checksum_failure_rejected() {
    let mut pool = FramePool::new(8);
    let mut wire = s1_wire();
    let last = wire.len() - 1;
    wire[last] ^= 0xff;
    let r = Frame::parse(&mut pool, &wire);
    assert!(matches!(r, Err(FrameError::Checksum)));
    // A rejected image allocates nothing: the next parse still succeeds
    // with a one-block pool.
    let mut small = FramePool::new(1);
    assert!(matches!(Frame::parse(&mut small, &wire), Err(FrameError::Checksum)));
    assert!(Frame::parse(&mut small, &s1_wire()).is_ok());
}

#[test]
fn parse_rejects_bad_lengths() {
    let mut pool = FramePool::new(8);
    assert!(matches!(
        Frame::parse(&mut pool, &Vec::new()),
        Err(FrameError::InvalidLength)
    ));
    // A lead byte that opens no frame.
    assert!(matches!(
        Frame::parse(&mut pool, &vec![0x55, 0, 0, 0, 0, 0, 0, 0, 0]),
        Err(FrameError::InvalidLength)
    ));
    // Declared length disagrees with the image length.
    let mut wire = s1_wire();
    wire.push(0x00);
    assert!(matches!(
        Frame::parse(&mut pool, &wire),
        Err(FrameError::InvalidLength)
    ));
    // Too short for a standard frame.
    assert!(matches!(
        Frame::parse(&mut pool, &vec![0xbc, 0x11, 0x0a, 0x09]),
        Err(FrameError::InvalidLength)
    ));
}

#[test]
fn parse_out_of_memory_on_empty_pool() {
    let mut pool = FramePool::new(0);
    let r = Frame::parse(&mut pool, &s1_wire());
    assert!(matches!(r, Err(FrameError::OutOfMemory)));
}

#[test]
fn encode_parse_round_trip() {
    let mut pool = FramePool::new(8);
    let frame = Frame::parse(&mut pool, &s1_wire()).unwrap();
    let wire = frame.encode();
    assert_eq!(wire, s1_wire());
    let again = Frame::parse(&mut pool, &wire).unwrap();
    assert_eq!(again.frame_type(), frame.frame_type());
    assert_eq!(again.data(), frame.data());
}

#[test]
fn builder_round_trip_through_wire() {
    let mut pool = FramePool::new(8);
    let dp = DataPoint::U8(U8::new(0x5a));
    let mut frame = Frame::from_datapoint(&mut pool, &dp).unwrap();
    frame.set_apci(ApciBits::Four, 0x2);
    frame.set_priority(Priority::Normal);
    frame.set_hop_count(6);
    frame.set_src_addr(&IndividualAddress::from_parts(1, 1, 10));
    frame.set_dst_addr(&Address::Group(GroupAddress::from_parts(1, 1, 98)));
    let wire = frame.encode();
    let parsed = Frame::parse(&mut pool, &wire).unwrap();
    assert_eq!(parsed.frame_type(), FrameType::Standard);
    assert_eq!(parsed.data(), frame.data());
    assert_eq!(parsed.apci(ApciBits::Four), 0x2);
    assert_eq!(parsed.priority(), Priority::Normal);
    assert_eq!(parsed.hop_count(), 6);
    assert_eq!(parsed.src_addr(), IndividualAddress::new(0x110a));
    assert_eq!(parsed.dst_addr(), Address::Group(GroupAddress::new(0x0962)));
}

#[test]
fn builder_checksum_and_length_consistent() {
    // For a spread of data points and priorities, the encoded image ends
    // in the bitwise NOT of the XOR of everything before it, and the
    // declared length counts the image exactly.
    let points = [
        DataPoint::B1(B1::new(false)),
        DataPoint::B1(B1::new(true)),
        DataPoint::B2(B2::new(2)),
        DataPoint::U8(U8::new(0xff)),
    ];
    let prios = [Priority::System, Priority::Normal, Priority::Urgent, Priority::Low];
    for dp in points.iter() {
        for p in prios.iter() {
            let mut pool = FramePool::new(2);
            let mut frame = Frame::from_datapoint(&mut pool, dp).unwrap();
            frame.set_priority(*p);
            let wire = frame.encode();
            let mut x: u8 = 0;
            for b in wire[..wire.len() - 1].iter() {
                x ^= *b;
            }
            assert_eq!(*wire.last().unwrap(), !x);
            assert_eq!(frame.length() as usize, wire.len());
        }
    }
}

#[test]
fn apci_and_datapoint_round_trip() {
    // Writing the short APCI over a freshly built data-point frame leaves
    // the payload intact, and both decode back to what was written.
    for v in 0u16..3 {
        let mut pool = FramePool::new(8);
        let dp = DataPoint::B2(B2::new(3));
        let mut frame = Frame::from_datapoint(&mut pool, &dp).unwrap();
        frame.set_apci(ApciBits::Four, v);
        assert_eq!(frame.apci(ApciBits::Four), v);
        assert_eq!(frame.data()[7] & 0x3, 3);

        let mut frame2 = Frame::from_datapoint(&mut pool, &DataPoint::U8(U8::new(0x7e))).unwrap();
        frame2.set_apci(ApciBits::Four, v);
        assert_eq!(frame2.apci(ApciBits::Four), v);
        assert_eq!(frame2.data()[8], 0x7e);

        let mut frame3 = Frame::from_datapoint(&mut pool, &DataPoint::B1(B1::new(true))).unwrap();
        frame3.set_apci(ApciBits::Four, v);
        assert_eq!(frame3.apci(ApciBits::Four), v);
        assert_eq!(frame3.data()[7] & 0x1, 1);
    }
}

#[test]
fn apci_ten_bits() {
    let mut pool = FramePool::new(8);
    let mut frame = Frame::from_datapoint(&mut pool, &DataPoint::B1(B1::new(false))).unwrap();
    frame.set_apci(ApciBits::Ten, 0x2c1);
    assert_eq!(frame.apci(ApciBits::Ten), 0x2c1);
}

#[test]
fn standard_frame_size_bounds() {
    let mut pool = FramePool::new(8);
    assert!(matches!(
        StandardFrame::new(&mut pool, 7),
        Err(FrameError::InvalidLength)
    ));
    assert!(matches!(
        StandardFrame::new(&mut pool, 24),
        Err(FrameError::InvalidLength)
    ));
    assert!(StandardFrame::new(&mut pool, 8).is_ok());
    assert!(StandardFrame::new(&mut pool, 23).is_ok());
    let mut empty = FramePool::new(0);
    assert!(matches!(
        StandardFrame::new(&mut empty, 8),
        Err(FrameError::OutOfMemory)
    ));
}

#[test]
fn extended_frame_size_bounds() {
    let mut pool = FramePool::new(8);
    assert!(matches!(
        ExtendedFrame::new(&mut pool, 8),
        Err(FrameError::InvalidLength)
    ));
    assert!(matches!(
        ExtendedFrame::new(&mut pool, 264),
        Err(FrameError::InvalidLength)
    ));
    assert!(ExtendedFrame::new(&mut pool, 9).is_ok());
    assert!(ExtendedFrame::new(&mut pool, 263).is_ok());
}

#[test]
fn extended_frame_parses_back() {
    let mut pool = FramePool::new(8);
    let ext = ExtendedFrame::new(&mut pool, 12).unwrap();
    let frame = Frame::Extended(ext);
    let wire = frame.encode();
    assert_eq!(wire.len(), 12);
    assert_eq!(wire[0], 0x10);
    assert_eq!(wire[6], 3);
    let parsed = Frame::parse(&mut pool, &wire).unwrap();
    assert_eq!(parsed.frame_type(), FrameType::Extended);
    assert_eq!(parsed.data(), frame.data());
}

#[test]
fn try_clone_copies_bytes() {
    let mut pool = FramePool::new(8);
    let frame = Frame::parse(&mut pool, &s1_wire()).unwrap();
    let copy = frame.try_clone(&mut pool).unwrap();
    assert_eq!(copy.data(), frame.data());
    assert_eq!(copy.frame_type(), frame.frame_type());
    let mut empty = FramePool::new(0);
    assert!(matches!(
        frame.try_clone(&mut empty),
        Err(FrameError::OutOfMemory)
    ));
}

#[test]
fn datapoint_lengths() {
    assert!(matches!(DataPoint::B1(B1::new(true)).length(), DataPointLength::Bit(1)));
    assert!(matches!(DataPoint::B2(B2::new(1)).length(), DataPointLength::Bit(2)));
    assert!(matches!(DataPoint::U8(U8::new(9)).length(), DataPointLength::Byte(1)));
    assert_eq!(DataPoint::B1(B1::new(true)).byte_length(), 0);
    assert_eq!(DataPoint::B2(B2::new(1)).byte_length(), 0);
    assert_eq!(DataPoint::U8(U8::new(9)).byte_length(), 1);
}

#[test]
fn datapoint_write_masks_and_ors() {
    let mut buf = vec![0x40u8, 0x00];
    DataPoint::B2(B2::new(0x0f)).write(&mut buf, 0);
    assert_eq!(buf[0], 0x43);
    DataPoint::U8(U8::new(0xaa)).write(&mut buf, 1);
    assert_eq!(buf[1], 0xaa);
}

#[test]
fn address_parts() {
    assert_eq!(IndividualAddress::from_parts(1, 1, 10).0, 0x110a);
    assert_eq!(GroupAddress::from_parts(1, 1, 98).0, 0x0962);
    assert_eq!(GroupAddress::from_parts(0, 0, 0).0, 0);
    let mut buf = vec![0u8, 0u8];
    IndividualAddress::new(0xabcd).write(&mut buf, 0);
    assert_eq!(buf, vec![0xab, 0xcd]);
}

#[test]
fn priority_and_repeated_round_trip() {
    for p in [Priority::System, Priority::Normal, Priority::Urgent, Priority::Low] {
        let mut pool = FramePool::new(1);
        let mut frame = Frame::Standard(StandardFrame::new(&mut pool, 8).unwrap());
        frame.set_priority(p);
        assert_eq!(frame.priority(), p);
        assert!(matches!(frame.repeated(), Repeated::Repeated));
        frame.set_repeated(Repeated::NotRepeated);
        assert!(matches!(frame.repeated(), Repeated::NotRepeated));
        assert_eq!(frame.priority(), p);
    }
}

#[test]
fn pool_counts_blocks() {
    let mut pool = FramePool::new(2);
    let a = StandardFrame::new(&mut pool, 8).unwrap();
    let _b = StandardFrame::new(&mut pool, 8).unwrap();
    assert!(matches!(
        StandardFrame::new(&mut pool, 8),
        Err(FrameError::OutOfMemory)
    ));
    Frame::Standard(a).release(&mut pool);
    assert!(StandardFrame::new(&mut pool, 8).is_ok());
}
