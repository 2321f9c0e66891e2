//! The transceiver driver's protocol logic: frame-start detection, the
//! link-layer acknowledgement policy, the per-byte command framing of a
//! transmitted frame, and the local-confirmation byte.
//!
//! The driver talks to the line-coupler front end over a UART, one byte at
//! a time.  The byte I/O itself — reads, writes, the inter-byte silence
//! timeout — lives with the I/O harness; everything the driver decides or
//! computes from bytes stands here, verified.

use vstd::prelude::*;

use crate::addr::{Address, GroupAddress, IndividualAddress};
use crate::frame::{
    spec_checksum, spec_dst_addr_of, spec_kind_of_ctrl, spec_min_content, spec_parse,
    spec_total_len, Frame, FrameError,
};
use crate::pool::FramePool;

verus! {

/// Link-layer acknowledgement request command.
pub const U_ACKN_REQ: u8 = 0x10;

/// The ACK variant bit of `U_ACKN_REQ`.
pub const ACKN_ACK: u8 = 0x1;

/// Begin-transmit command: precedes the first frame byte.
pub const U_L_DATA_START_REQ: u8 = 0x80;

/// Continue-transmit command base: ORed with the byte index.
pub const U_L_DATA_CONT_REQ: u8 = 0x80;

/// End-transmit command base: ORed with the last wire index, it precedes
/// the checksum byte.
pub const U_L_DATA_END_REQ: u8 = 0x40;

/// The outcome of one transmitted frame, read back from the local
/// `L_Data.con` byte.
#[derive(Clone, Copy, PartialEq, Eq, Structural, Debug)]
pub enum ConStatus {
    Okay,
    NotOk,
}

/// Errors of the transfer path between the UART and the frame codec.
#[derive(Clone, Copy, PartialEq, Eq, Structural, Debug)]
pub enum TransferError {
    /// The inter-byte silence timeout fired after this many bytes.
    TimeoutError(usize),
    /// The UART reported a receive error.
    ReadError,
    /// The received bytes did not form a valid frame.
    FrameError(FrameError),
    /// An unexpected byte arrived where a confirmation was due.
    InvalidData(u8),
}

/// A lead byte opens a frame when, under the frame-type mask, it shows the
/// standard or the extended pattern.
pub fn is_frame_start(ctrl: u8) -> (r: bool)
    ensures
        r <==> spec_kind_of_ctrl(ctrl) is Some,
{
    ctrl & 0xd3 == 0x90 || ctrl & 0xd3 == 0x10
}

/// The driver acknowledges a frame whose destination is this node's own
/// individual address, or any group address.
pub fn should_ack(dst_addr: &Address, local: IndividualAddress) -> (r: bool)
    ensures
        r <==> match *dst_addr {
            Address::Individual(a) => a.0 == local.0,
            Address::Group(_) => true,
        },
{
    match dst_addr {
        Address::Individual(a) => a.0 == local.0,
        Address::Group(_) => true,
    }
}

/// The byte that requests a link-layer ACK from the transceiver.
pub fn ack_request_byte() -> (r: u8)
    ensures
        r == 0x11,
{
    proof {
        assert(0x10u8 | 0x1 == 0x11) by (bit_vector);
    }
    U_ACKN_REQ | ACKN_ACK
}

/// Decodes the local `L_Data.con` byte: its low seven bits must equal
/// `0x0b`; bit 7 then carries success (1) against failure (0).  Anything
/// else is an invalid-data error carrying the offending byte.
pub fn parse_con(byte: u8) -> (r: Result<ConStatus, TransferError>)
    ensures
        byte & 0x7f == 0x0b ==> r == Result::<ConStatus, TransferError>::Ok(
            if byte >> 7 != 0 {
                ConStatus::Okay
            } else {
                ConStatus::NotOk
            },
        ),
        byte & 0x7f != 0x0b ==> r == Result::<ConStatus, TransferError>::Err(
            TransferError::InvalidData(byte),
        ),
{
    if byte & 0x7f != 0x0b {
        return Result::Err(TransferError::InvalidData(byte));
    }
    if byte >> 7 != 0 {
        Result::Ok(ConStatus::Okay)
    } else {
        Result::Ok(ConStatus::NotOk)
    }
}

/// How many bytes make up the header of the frame this lead byte opens —
/// everything through the TPCI byte, which is as far as the driver reads
/// with the per-byte timeout before deciding whether to acknowledge.
pub fn header_length(ctrl: u8) -> (r: Option<usize>)
    ensures
        r == match spec_kind_of_ctrl(ctrl) {
            Option::Some(k) => Option::Some(spec_min_content(k) as usize),
            Option::None => Option::<usize>::None,
        },
{
    if ctrl & 0xd3 == 0x90 {
        Option::Some(7)
    } else if ctrl & 0xd3 == 0x10 {
        Option::Some(8)
    } else {
        Option::None
    }
}

/// Reads the destination address out of a collected header, so the
/// acknowledgement decision can be made before the payload is consumed.
pub fn header_dst(header: &Vec<u8>) -> (r: Option<Address>)
    ensures
        r == ({
            if header@.len() == 0 {
                Option::<Address>::None
            } else {
                match spec_kind_of_ctrl(header@[0]) {
                    Option::Some(k) => if header@.len() >= spec_min_content(k) {
                        Option::Some(spec_dst_addr_of(k, header@))
                    } else {
                        Option::<Address>::None
                    },
                    Option::None => Option::<Address>::None,
                }
            }
        }),
{
    if header.len() == 0 {
        return Option::None;
    }
    let ctrl = header[0];
    let (min, at_off, dst_off): (usize, usize, usize) = if ctrl & 0xd3 == 0x90 {
        (7, 5, 3)
    } else if ctrl & 0xd3 == 0x10 {
        (8, 1, 4)
    } else {
        return Option::None;
    };
    if header.len() < min {
        return Option::None;
    }
    let raw = (header[dst_off] as u16) * 256 + (header[dst_off + 1] as u16);
    if header[at_off] >> 7 == 1 {
        Option::Some(Address::Group(GroupAddress(raw)))
    } else {
        Option::Some(Address::Individual(IndividualAddress(raw)))
    }
}

/// Reads the declared total length — wire bytes including the checksum —
/// out of a collected header, so the receive loop knows how many more
/// bytes the telegram announces.
pub fn declared_total(header: &Vec<u8>) -> (r: Option<u16>)
    ensures
        r == ({
            if header@.len() == 0 {
                Option::<u16>::None
            } else {
                match spec_kind_of_ctrl(header@[0]) {
                    Option::Some(k) => if header@.len() >= spec_min_content(k) {
                        Option::Some(spec_total_len(k, header@) as u16)
                    } else {
                        Option::<u16>::None
                    },
                    Option::None => Option::<u16>::None,
                }
            }
        }),
{
    if header.len() == 0 {
        return Option::None;
    }
    let ctrl = header[0];
    if ctrl & 0xd3 == 0x90 {
        if header.len() < 7 {
            return Option::None;
        }
        Option::Some((header[5] & 0xf) as u16 + 8)
    } else if ctrl & 0xd3 == 0x10 {
        if header.len() < 8 {
            return Option::None;
        }
        Option::Some(header[6] as u16 + 9)
    } else {
        Option::None
    }
}

/// The command/byte pairs that carry content bytes `i..` of a frame: each
/// content byte is preceded by its transmit command.
pub open spec fn spec_tx_pairs(s: Seq<u8>, i: int) -> Seq<u8>
    decreases s.len() - i,
{
    if i < 0 || i >= s.len() {
        Seq::empty()
    } else {
        seq![(0x80 + i) as u8, s[i]] + spec_tx_pairs(s, i + 1)
    }
}

/// The full transmit byte stream of a frame with content bytes `s`: the
/// begin/continue command before each content byte, then the end command
/// carrying the last wire index, then the checksum byte.
pub open spec fn spec_tx_stream(s: Seq<u8>) -> Seq<u8> {
    spec_tx_pairs(s, 0) + seq![(0x40 | (s.len() as u8)) as u8, spec_checksum(s)]
}

/// Serializes a frame into the byte stream the driver writes to the
/// transceiver, using the transmit command vocabulary.
pub fn encode_tx_stream(frame: &Frame) -> (r: Vec<u8>)
    requires
        frame.wf(),
    ensures
        r@ == spec_tx_stream(frame@),
{
    let buf = frame.data();
    let n = buf.len();
    let mut out: Vec<u8> = Vec::new();
    let mut i: usize = 0;
    while i < n
        invariant
            i <= n,
            n == buf.len(),
            buf@ == frame@,
            n <= 262,
            out@ + spec_tx_pairs(frame@, i as int) == spec_tx_pairs(frame@, 0),
        decreases n - i,
    {
        let cmd: u8 = #[verifier::truncate] ((0x80u16 + (i as u16)) as u8);
        let b = buf[i];
        proof {
            assert(spec_tx_pairs(frame@, i as int) == seq![(0x80 + i) as u8, frame@[i as int]]
                + spec_tx_pairs(frame@, i + 1));
            assert((out@ + seq![cmd, b]) + spec_tx_pairs(frame@, i + 1) == out@ + (seq![cmd, b]
                + spec_tx_pairs(frame@, i + 1)));
        }
        out.push(cmd);
        out.push(b);
        i = i + 1;
    }
    proof {
        assert(spec_tx_pairs(frame@, n as int) == Seq::<u8>::empty());
        assert(out@ + Seq::<u8>::empty() == out@);
    }
    let end: u8 = 0x40u8 | (#[verifier::truncate] (n as u8));
    out.push(end);
    let chk = frame.checksum();
    out.push(chk);
    proof {
        assert(out@ =~= spec_tx_stream(frame@));
    }
    out
}

/// Validates a completed receive attempt: the collected wire bytes must
/// parse as a frame — length bounds, declared-length consistency and the
/// trailing checksum — before anything reaches the link layer.  A rejected
/// image never becomes a frame.
pub fn receive_frame(pool: &mut FramePool, wire: &Vec<u8>) -> (r: Result<Frame, TransferError>)
    requires
        old(pool).wf(),
    ensures
        final(pool).wf(),
        final(pool).block_count() == old(pool).block_count(),
        spec_parse(wire@) is Err ==> r == Result::<Frame, TransferError>::Err(
            TransferError::FrameError(spec_parse(wire@)->Err_0),
        ) && *final(pool) == *old(pool),
        spec_parse(wire@) is Ok && old(pool).free_blocks() == 0 ==> r == Result::<
            Frame,
            TransferError,
        >::Err(TransferError::FrameError(FrameError::OutOfMemory)) && *final(pool) == *old(pool),
        spec_parse(wire@) is Ok && old(pool).free_blocks() > 0 ==> r is Ok
            && final(pool).free_blocks() == old(pool).free_blocks() - 1,
        r is Ok ==> {
            let f = r->Ok_0;
            &&& f.kind() == spec_parse(wire@)->Ok_0.0
            &&& f@ == spec_parse(wire@)->Ok_0.1
            &&& f.wf()
        },
{
    match Frame::parse(pool, wire) {
        Result::Ok(f) => Result::Ok(f),
        Result::Err(e) => Result::Err(TransferError::FrameError(e)),
    }
}

} // verus!
