use knx_stack::addr::{Address, GroupAddress, IndividualAddress};
use knx_stack::driver::{
    ack_request_byte, encode_tx_stream, is_frame_start, parse_con, receive_frame, ConStatus,
    TransferError,
};
use knx_stack::frame::{Frame, FrameError};
use knx_stack::pool::FramePool;

fn s1_wire() -> Vec<u8> {
    vec![0xbc, 0x11, 0x0a, 0x09, 0x62, 0xe1, 0x00, 0x00, 0xd2]
}

#[test]
fn frame_start_detection() {
    assert!(is_frame_start(0xbc));
    assert!(is_frame_start(0x90));
    assert!(is_frame_start(0x10));
    assert!(is_frame_start(0x3c));
    assert!(!is_frame_start(0x55));
    assert!(!is_frame_start(0x00));
    assert!(!is_frame_start(0xd0));
}

#[test]
fn ack_policy() {
    let local = IndividualAddress::from_parts(1, 1, 99);
    assert!(knx_stack::driver::should_ack(
        &Address::Group(GroupAddress::from_parts(1, 1, 98)),
        local
    ));
    assert!(knx_stack::driver::should_ack(
        &Address::Individual(IndividualAddress::from_parts(1, 1, 99)),
        local
    ));
    assert!(!knx_stack::driver::should_ack(
        &Address::Individual(IndividualAddress::from_parts(1, 1, 10)),
        local
    ));
    assert_eq!(ack_request_byte(), 0x11);
}

#[test]
fn local_confirmation_byte() {
    assert_eq!(parse_con(0x8b), Ok(ConStatus::Okay));
    assert_eq!(parse_con(0x0b), Ok(ConStatus::NotOk));
    assert_eq!(parse_con(0x0c), Err(TransferError::InvalidData(0x0c)));
    assert_eq!(parse_con(0x90), Err(TransferError::InvalidData(0x90)));
}

#[test]
fn tx_stream_command_framing() {
    let mut pool = FramePool::new(8);
    let frame = Frame::parse(&mut pool, &s1_wire()).unwrap();
    let stream = encode_tx_stream(&frame);
    let expected: Vec<u8> = vec![
        0x80, 0xbc, 0x81, 0x11, 0x82, 0x0a, 0x83, 0x09, 0x84, 0x62, 0x85, 0xe1, 0x86, 0x00, 0x87,
        0x00, 0x48, 0xd2,
    ];
    assert_eq!(stream, expected);
}

#[test]
fn header_helpers() {
    assert_eq!(knx_stack::driver::header_length(0xbc), Some(7));
    assert_eq!(knx_stack::driver::header_length(0x10), Some(8));
    assert_eq!(knx_stack::driver::header_length(0x55), None);

    let header: Vec<u8> = s1_wire()[..7].to_vec();
    assert_eq!(
        knx_stack::driver::header_dst(&header),
        Some(Address::Group(GroupAddress::new(0x0962)))
    );
    assert_eq!(knx_stack::driver::declared_total(&header), Some(9));

    let short: Vec<u8> = s1_wire()[..5].to_vec();
    assert_eq!(knx_stack::driver::header_dst(&short), None);
    assert_eq!(knx_stack::driver::declared_total(&short), None);
    assert_eq!(knx_stack::driver::header_dst(&Vec::new()), None);
}

#[test]
fn receive_frame_validates() {
    let mut pool = FramePool::new(8);
    let frame = receive_frame(&mut pool, &s1_wire()).unwrap();
    assert_eq!(frame.length(), 9);
    let mut bad = s1_wire();
    bad[8] = 0x00;
    assert!(matches!(
        receive_frame(&mut pool, &bad),
        Err(TransferError::FrameError(FrameError::Checksum))
    ));
    assert!(matches!(
        receive_frame(&mut pool, &vec![0x55]),
        Err(TransferError::FrameError(FrameError::InvalidLength))
    ));
}
