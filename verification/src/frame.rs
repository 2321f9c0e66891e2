//! The bit-level frame codec for standard and extended telegrams.
//!
//! A frame is a tagged union over the two variants, each backed by a byte
//! buffer holding the on-wire bytes of the telegram without its trailing
//! checksum byte; every field accessor is computed from variant-specific
//! offsets.  The declared length field of a telegram counts the whole wire
//! image including the checksum byte, so a well-formed buffer holds exactly
//! `declared length - 1` bytes.
//!
//! Writers set bits without clearing: callers start from a zero-initialized
//! buffer and assemble fields in any order; the contract is "OR-in", not
//! "replace".

use vstd::prelude::*;

use crate::addr::{spec_addr16, Address, AddressType, GroupAddress, IndividualAddress};
use crate::bits;
use crate::data_point::{DataPoint, B1, B2, U8};
use crate::pool::FramePool;

verus! {

/// The frame variant, carried in the top bits of control byte 1.
#[derive(Clone, Copy, PartialEq, Eq, Structural, Debug)]
pub enum FrameType {
    Standard,
    Extended,
}

/// Errors of the frame codec and of the layers that consume frames.
#[derive(Clone, Copy, PartialEq, Eq, Structural, Debug)]
pub enum FrameError {
    InvalidLength,
    OutOfMemory,
    Checksum,
    InvalidTpdu(u8),
}

/// Frame priority, bits 3..2 of control byte 1.
#[derive(Clone, Copy, PartialEq, Eq, Structural, Debug)]
pub enum Priority {
    System,
    Normal,
    Urgent,
    Low,
}

impl Priority {
    /// The two on-wire bits of this priority.
    pub open spec fn spec_bits(self) -> u8 {
        match self {
            Priority::System => 0,
            Priority::Normal => 1,
            Priority::Urgent => 2,
            Priority::Low => 3,
        }
    }

    /// Returns the two on-wire bits of this priority.
    pub fn bits(self) -> (r: u8)
        ensures
            r == self.spec_bits(),
    {
        match self {
            Priority::System => 0,
            Priority::Normal => 1,
            Priority::Urgent => 2,
            Priority::Low => 3,
        }
    }

    /// Decodes two bits into a priority.
    pub fn from_bits(bits: u8) -> (r: Priority)
        requires
            bits < 4,
        ensures
            r.spec_bits() == bits,
    {
        if bits == 0 {
            Priority::System
        } else if bits == 1 {
            Priority::Normal
        } else if bits == 2 {
            Priority::Urgent
        } else {
            Priority::Low
        }
    }
}

/// The repeated flag, bit 5 of control byte 1: 0 means repeated,
/// 1 means not repeated.
#[derive(Clone, Copy, PartialEq, Eq, Structural, Debug)]
pub enum Repeated {
    Repeated,
    NotRepeated,
}

impl Repeated {
    /// The on-wire bit of this flag.
    pub open spec fn spec_bit(self) -> u8 {
        match self {
            Repeated::Repeated => 0,
            Repeated::NotRepeated => 1,
        }
    }

    /// Returns the on-wire bit of this flag.
    pub fn bit(self) -> (r: u8)
        ensures
            r == self.spec_bit(),
    {
        match self {
            Repeated::Repeated => 0,
            Repeated::NotRepeated => 1,
        }
    }
}

/// Selects the 6-bit or the 8-bit view of the TPCI field.
#[derive(Clone, Copy, PartialEq, Eq, Structural, Debug)]
pub enum TpciBits {
    Six,
    Eight,
}

/// Selects the short (4-bit) or the full (10-bit) view of the APCI field.
#[derive(Clone, Copy, PartialEq, Eq, Structural, Debug)]
pub enum ApciBits {
    Four,
    Ten,
}

/// Offset of the AT / hop-count byte (which for standard frames also holds
/// the length nibble).
pub open spec fn spec_ctrl2_off(k: FrameType) -> int {
    match k {
        FrameType::Standard => 5,
        FrameType::Extended => 1,
    }
}

/// Offset of the source address.
pub open spec fn spec_src_off(k: FrameType) -> int {
    match k {
        FrameType::Standard => 1,
        FrameType::Extended => 2,
    }
}

/// Offset of the destination address.
pub open spec fn spec_dst_off(k: FrameType) -> int {
    match k {
        FrameType::Standard => 3,
        FrameType::Extended => 4,
    }
}

/// Offset of the TPCI byte, which also holds the top two APCI bits.
pub open spec fn spec_tpci_off(k: FrameType) -> int {
    match k {
        FrameType::Standard => 6,
        FrameType::Extended => 7,
    }
}

/// Offset of the APCI continuation byte.
pub open spec fn spec_apci_lo_off(k: FrameType) -> int {
    spec_tpci_off(k) + 1
}

/// The fewest content bytes a frame of this variant can hold: everything up
/// to and including the TPCI byte.
pub open spec fn spec_min_content(k: FrameType) -> int {
    match k {
        FrameType::Standard => 7,
        FrameType::Extended => 8,
    }
}

/// The most content bytes a frame of this variant can hold.
pub open spec fn spec_max_content(k: FrameType) -> int {
    match k {
        FrameType::Standard => 22,
        FrameType::Extended => 262,
    }
}

/// The declared total length of the telegram — wire bytes including the
/// trailing checksum byte — as read from the length field.
pub open spec fn spec_total_len(k: FrameType, s: Seq<u8>) -> int {
    match k {
        FrameType::Standard => (s[5] & 0xf) + 8,
        FrameType::Extended => s[6] + 9,
    }
}

/// The frame-type pattern of this variant under the frame-type mask `0xd3`.
pub open spec fn spec_type_pattern(k: FrameType) -> u8 {
    match k {
        FrameType::Standard => 0x90,
        FrameType::Extended => 0x10,
    }
}

/// Control byte 1 carries the frame-type bits of the variant.
pub open spec fn spec_type_bits_ok(k: FrameType, s: Seq<u8>) -> bool {
    s[0] & 0xd3 == spec_type_pattern(k)
}

/// A well-formed content buffer: length within the variant's bounds,
/// consistent with the declared length field, and frame-type bits set.
pub open spec fn spec_wf_bytes(k: FrameType, s: Seq<u8>) -> bool {
    &&& spec_min_content(k) <= s.len() <= spec_max_content(k)
    &&& s.len() + 1 == spec_total_len(k, s)
    &&& spec_type_bits_ok(k, s)
}

/// XOR of all bytes of a sequence.
pub open spec fn xor_fold(s: Seq<u8>) -> u8
    decreases s.len(),
{
    if s.len() == 0 {
        0
    } else {
        xor_fold(s.drop_last()) ^ s.last()
    }
}

/// The trailing checksum byte: bitwise NOT of the XOR of all content bytes.
pub open spec fn spec_checksum(s: Seq<u8>) -> u8 {
    !xor_fold(s)
}

/// Priority bits of a content buffer.
pub open spec fn spec_priority_bits_of(s: Seq<u8>) -> u8 {
    (s[0] >> 2) & 3
}

/// Repeated bit of a content buffer.
pub open spec fn spec_repeated_bit_of(s: Seq<u8>) -> u8 {
    (s[0] >> 5) & 1
}

/// Address-type bit of a content buffer.
pub open spec fn spec_at_bit_of(k: FrameType, s: Seq<u8>) -> u8 {
    s[spec_ctrl2_off(k)] >> 7
}

/// Hop count of a content buffer.
pub open spec fn spec_hop_of(k: FrameType, s: Seq<u8>) -> u8 {
    (s[spec_ctrl2_off(k)] >> 4) & 7
}

/// Source address of a content buffer.
pub open spec fn spec_src_of(k: FrameType, s: Seq<u8>) -> u16 {
    spec_addr16(s[spec_src_off(k)], s[spec_src_off(k) + 1])
}

/// Raw destination address of a content buffer.
pub open spec fn spec_dst_of(k: FrameType, s: Seq<u8>) -> u16 {
    spec_addr16(s[spec_dst_off(k)], s[spec_dst_off(k) + 1])
}

/// Typed destination address of a content buffer, resolved by the AT bit.
pub open spec fn spec_dst_addr_of(k: FrameType, s: Seq<u8>) -> Address {
    if spec_at_bit_of(k, s) == 1 {
        Address::Group(GroupAddress(spec_dst_of(k, s)))
    } else {
        Address::Individual(IndividualAddress(spec_dst_of(k, s)))
    }
}

/// Full 8-bit TPCI of a content buffer.
pub open spec fn spec_tpci8_of(k: FrameType, s: Seq<u8>) -> u8 {
    s[spec_tpci_off(k)]
}

/// 6-bit TPCI of a content buffer.
pub open spec fn spec_tpci6_of(k: FrameType, s: Seq<u8>) -> u8 {
    s[spec_tpci_off(k)] >> 2
}

/// 4-bit TPCI sequence number of a content buffer.
pub open spec fn spec_tpci_seq_of(k: FrameType, s: Seq<u8>) -> u8 {
    (s[spec_tpci_off(k)] >> 2) & 0xf
}

/// Full 10-bit APCI of a content buffer.
pub open spec fn spec_apci10_of(k: FrameType, s: Seq<u8>) -> u16 {
    ((((s[spec_tpci_off(k)] & 3) as u16) * 256) + (s[spec_apci_lo_off(k)] as u16)) as u16
}

/// Short 4-bit APCI of a content buffer: the top four bits of the 10-bit
/// field.
pub open spec fn spec_apci4_of(k: FrameType, s: Seq<u8>) -> u16 {
    spec_apci10_of(k, s) >> 6
}

/// Offset of the length field: the nibble byte for standard frames, the
/// extended length byte for extended frames.
pub open spec fn spec_lg_off(k: FrameType) -> int {
    match k {
        FrameType::Standard => 5,
        FrameType::Extended => 6,
    }
}

/// Content bytes of a freshly allocated frame with declared total length
/// `total`: all zero but for the frame-type bits and the length field.
pub open spec fn spec_blank(k: FrameType, total: int) -> Seq<u8> {
    Seq::new(
        (total - 1) as nat,
        |i: int|
            if i == 0 {
                spec_type_pattern(k)
            } else if i == spec_lg_off(k) {
                match k {
                    FrameType::Standard => (total - 8) as u8,
                    FrameType::Extended => (total - 9) as u8,
                }
            } else {
                0u8
            },
    )
}

/// The variant `from_datapoint` selects for a data point: standard unless
/// the payload is too long for a standard telegram.
pub open spec fn spec_dp_kind(d: DataPoint) -> FrameType {
    if d.spec_byte_length() <= 14 {
        FrameType::Standard
    } else {
        FrameType::Extended
    }
}

/// Content bytes of the frame `from_datapoint` builds: a blank frame of
/// the right size with the data-point value written after the TPCI byte —
/// small bit shapes into the low bits of the APCI continuation byte, byte
/// shapes into the bytes after it.
pub open spec fn spec_dp_frame(k: FrameType, d: DataPoint) -> Seq<u8> {
    let size = d.spec_byte_length();
    let content = spec_apci_lo_off(k) + 1 + size;
    Seq::new(
        content as nat,
        |i: int|
            if i == 0 {
                spec_type_pattern(k)
            } else if i == spec_lg_off(k) {
                match k {
                    FrameType::Standard => (content - 7) as u8,
                    FrameType::Extended => (content - 8) as u8,
                }
            } else if i == spec_apci_lo_off(k) && size == 0 {
                d.spec_bits()
            } else if i > spec_apci_lo_off(k) {
                d.spec_byte()
            } else {
                0u8
            },
    )
}

/// The variant a wire image's control byte announces, if any: under the
/// frame-type mask, standard and extended frames each show a fixed pattern.
pub open spec fn spec_kind_of_ctrl(c: u8) -> Option<FrameType> {
    if c & 0xd3 == 0x90 {
        Option::Some(FrameType::Standard)
    } else if c & 0xd3 == 0x10 {
        Option::Some(FrameType::Extended)
    } else {
        Option::None
    }
}

/// Parsing a raw wire image (content bytes plus trailing checksum byte):
/// the control byte must announce a variant, the image length must match
/// the declared length field within the variant's bounds, and the trailing
/// byte must equal the checksum of everything before it.
pub open spec fn spec_parse(w: Seq<u8>) -> Result<(FrameType, Seq<u8>), FrameError> {
    if w.len() == 0 || spec_kind_of_ctrl(w[0]) is None {
        Result::Err(FrameError::InvalidLength)
    } else {
        let k = spec_kind_of_ctrl(w[0])->Some_0;
        if w.len() < spec_min_content(k) + 1 || w.len() > spec_max_content(k) + 1 || w.len()
            != spec_total_len(k, w) {
            Result::Err(FrameError::InvalidLength)
        } else if w.last() != spec_checksum(w.drop_last()) {
            Result::Err(FrameError::Checksum)
        } else {
            Result::Ok((k, w.drop_last()))
        }
    }
}

/// A parsed wire image is well-formed: its content satisfies the variant's
/// layout invariant.
pub proof fn lemma_parse_wf(w: Seq<u8>)
    requires
        spec_parse(w) is Ok,
    ensures
        spec_wf_bytes(spec_parse(w)->Ok_0.0, spec_parse(w)->Ok_0.1),
{
    let k = spec_parse(w)->Ok_0.0;
    let s = spec_parse(w)->Ok_0.1;
    assert(s[0] == w[0]);
    assert(s[spec_lg_off(k)] == w[spec_lg_off(k)]);
}

/// A standard telegram: content bytes without the trailing checksum.
pub struct StandardFrame {
    buf: Vec<u8>,
}

/// An extended telegram: content bytes without the trailing checksum.
pub struct ExtendedFrame {
    buf: Vec<u8>,
}

impl View for StandardFrame {
    type V = Seq<u8>;

    closed spec fn view(&self) -> Seq<u8> {
        self.buf@
    }
}

impl View for ExtendedFrame {
    type V = Seq<u8>;

    closed spec fn view(&self) -> Seq<u8> {
        self.buf@
    }
}

/// Builds a vector of `n` zero bytes.
fn zero_vec(n: usize) -> (r: Vec<u8>)
    ensures
        r@ == Seq::new(n as nat, |i: int| 0u8),
{
    let mut v: Vec<u8> = Vec::new();
    while v.len() < n
        invariant
            v@ == Seq::new(v.len() as nat, |i: int| 0u8),
            v.len() <= n,
        decreases n - v.len(),
    {
        v.push(0);
        proof {
            assert(v@ =~= Seq::new(v.len() as nat, |i: int| 0u8));
        }
    }
    v
}

/// XOR of the first `n` bytes of `buf`.
fn xor_prefix(buf: &Vec<u8>, n: usize) -> (r: u8)
    requires
        n <= buf.len(),
    ensures
        r == xor_fold(buf@.take(n as int)),
{
    let mut acc: u8 = 0;
    let mut i: usize = 0;
    while i < n
        invariant
            i <= n <= buf.len(),
            acc == xor_fold(buf@.take(i as int)),
        decreases n - i,
    {
        acc = acc ^ buf[i];
        proof {
            assert(buf@.take(i + 1).drop_last() == buf@.take(i as int));
            assert(buf@.take(i + 1).last() == buf@[i as int]);
        }
        i = i + 1;
    }
    acc
}

/// Copies the first `n` bytes of `buf` into a fresh vector.
fn copy_prefix(buf: &Vec<u8>, n: usize) -> (r: Vec<u8>)
    requires
        n <= buf.len(),
    ensures
        r@ == buf@.take(n as int),
{
    let mut out: Vec<u8> = Vec::new();
    let mut i: usize = 0;
    while i < n
        invariant
            i <= n <= buf.len(),
            out@ == buf@.take(i as int),
        decreases n - i,
    {
        let b = buf[i];
        out.push(b);
        proof {
            assert(buf@.take(i + 1) == buf@.take(i as int).push(buf@[i as int]));
        }
        i = i + 1;
    }
    out
}

impl StandardFrame {
    /// The content buffer is well-formed for the standard layout.
    pub open spec fn wf(self) -> bool {
        spec_wf_bytes(FrameType::Standard, self@)
    }

    /// Allocates a blank standard frame of declared total length `size`
    /// (wire bytes, checksum included) from the pool.
    pub fn new(pool: &mut FramePool, size: usize) -> (r: Result<StandardFrame, FrameError>)
        requires
            old(pool).wf(),
        ensures
            final(pool).wf(),
            final(pool).block_count() == old(pool).block_count(),
            !(8 <= size <= 23) ==> r == Result::<StandardFrame, FrameError>::Err(
                FrameError::InvalidLength,
            ) && *final(pool) == *old(pool),
            8 <= size <= 23 && old(pool).free_blocks() == 0 ==> r == Result::<
                StandardFrame,
                FrameError,
            >::Err(FrameError::OutOfMemory) && *final(pool) == *old(pool),
            8 <= size <= 23 && old(pool).free_blocks() > 0 ==> r is Ok && final(pool).free_blocks() == old(pool).free_blocks() - 1,
            r is Ok ==> r->Ok_0@ == spec_blank(FrameType::Standard, size as int)
                && r->Ok_0.wf(),
    {
        if size < 8 || size > 23 {
            return Result::Err(FrameError::InvalidLength);
        }
        if !pool.try_alloc() {
            return Result::Err(FrameError::OutOfMemory);
        }
        let mut buf = zero_vec(size - 1);
        buf.set(0, 0x90);
        buf.set(5, (size - 8) as u8);
        proof {
            bits::lemma_small_nibble((size - 8) as u8);
            bits::lemma_type_bit_consts();
            assert(buf@ =~= spec_blank(FrameType::Standard, size as int));
        }
        Result::Ok(StandardFrame { buf })
    }
}

impl ExtendedFrame {
    /// The content buffer is well-formed for the extended layout.
    pub open spec fn wf(self) -> bool {
        spec_wf_bytes(FrameType::Extended, self@)
    }

    /// Allocates a blank extended frame of declared total length `size`
    /// (wire bytes, checksum included) from the pool.
    pub fn new(pool: &mut FramePool, size: usize) -> (r: Result<ExtendedFrame, FrameError>)
        requires
            old(pool).wf(),
        ensures
            final(pool).wf(),
            final(pool).block_count() == old(pool).block_count(),
            !(9 <= size <= 263) ==> r == Result::<ExtendedFrame, FrameError>::Err(
                FrameError::InvalidLength,
            ) && *final(pool) == *old(pool),
            9 <= size <= 263 && old(pool).free_blocks() == 0 ==> r == Result::<
                ExtendedFrame,
                FrameError,
            >::Err(FrameError::OutOfMemory) && *final(pool) == *old(pool),
            9 <= size <= 263 && old(pool).free_blocks() > 0 ==> r is Ok && final(pool).free_blocks() == old(pool).free_blocks() - 1,
            r is Ok ==> r->Ok_0@ == spec_blank(FrameType::Extended, size as int)
                && r->Ok_0.wf(),
    {
        if size < 9 || size > 263 {
            return Result::Err(FrameError::InvalidLength);
        }
        if !pool.try_alloc() {
            return Result::Err(FrameError::OutOfMemory);
        }
        let mut buf = zero_vec(size - 1);
        buf.set(0, 0x10);
        buf.set(6, (size - 9) as u8);
        proof {
            bits::lemma_type_bit_consts();
            assert(buf@ =~= spec_blank(FrameType::Extended, size as int));
        }
        Result::Ok(ExtendedFrame { buf })
    }
}

/// A telegram of either variant.
pub enum Frame {
    Standard(StandardFrame),
    Extended(ExtendedFrame),
}

impl View for Frame {
    type V = Seq<u8>;

    open spec fn view(&self) -> Seq<u8> {
        match self {
            Frame::Standard(f) => f@,
            Frame::Extended(f) => f@,
        }
    }
}

impl Frame {
    /// The variant of this frame.
    pub open spec fn kind(self) -> FrameType {
        match self {
            Frame::Standard(_) => FrameType::Standard,
            Frame::Extended(_) => FrameType::Extended,
        }
    }

    /// The content buffer is well-formed for this frame's layout.
    pub open spec fn wf(self) -> bool {
        spec_wf_bytes(self.kind(), self@)
    }

    /// Returns a reference to the content bytes.
    pub fn data(&self) -> (r: &Vec<u8>)
        ensures
            r@ == self@,
    {
        match self {
            Frame::Standard(f) => &f.buf,
            Frame::Extended(f) => &f.buf,
        }
    }

    /// Returns the variant of this frame.
    pub fn frame_type(&self) -> (r: FrameType)
        ensures
            r == self.kind(),
    {
        match self {
            Frame::Standard(_) => FrameType::Standard,
            Frame::Extended(_) => FrameType::Extended,
        }
    }

    /// Returns the declared total length of the telegram, checksum byte
    /// included.  An extended telegram can announce up to 263 wire bytes,
    /// so the result is 16 bits wide.
    pub fn length(&self) -> (r: u16)
        requires
            self.wf(),
        ensures
            r == spec_total_len(self.kind(), self@),
            r == self@.len() + 1,
    {
        match self {
            Frame::Standard(f) => (f.buf[5] & 0xf) as u16 + 8,
            Frame::Extended(f) => f.buf[6] as u16 + 9,
        }
    }

    /// Returns the address-type tag of the destination.
    pub fn addr_type(&self) -> (r: AddressType)
        requires
            self.wf(),
        ensures
            r == spec_dst_addr_of(self.kind(), self@).spec_addr_type(),
    {
        let b = match self {
            Frame::Standard(f) => f.buf[5],
            Frame::Extended(f) => f.buf[1],
        };
        proof {
            bits::lemma_field_bounds(b);
        }
        if b >> 7 == 1 {
            AddressType::Group
        } else {
            AddressType::Individual
        }
    }

    /// Returns the source address.
    pub fn src_addr(&self) -> (r: IndividualAddress)
        requires
            self.wf(),
        ensures
            r.0 == spec_src_of(self.kind(), self@),
    {
        let (hi, lo) = match self {
            Frame::Standard(f) => (f.buf[1], f.buf[2]),
            Frame::Extended(f) => (f.buf[2], f.buf[3]),
        };
        IndividualAddress((hi as u16) * 256 + (lo as u16))
    }

    /// Returns the typed destination address.
    pub fn dst_addr(&self) -> (r: Address)
        requires
            self.wf(),
        ensures
            r == spec_dst_addr_of(self.kind(), self@),
    {
        let (hi, lo) = match self {
            Frame::Standard(f) => (f.buf[3], f.buf[4]),
            Frame::Extended(f) => (f.buf[4], f.buf[5]),
        };
        let raw = (hi as u16) * 256 + (lo as u16);
        match self.addr_type() {
            AddressType::Group => Address::Group(GroupAddress(raw)),
            AddressType::Individual => Address::Individual(IndividualAddress(raw)),
        }
    }

    /// Returns the hop count.
    pub fn hop_count(&self) -> (r: u8)
        requires
            self.wf(),
        ensures
            r == spec_hop_of(self.kind(), self@),
    {
        let b = match self {
            Frame::Standard(f) => f.buf[5],
            Frame::Extended(f) => f.buf[1],
        };
        (b >> 4) & 7
    }

    /// Returns the priority.
    pub fn priority(&self) -> (r: Priority)
        requires
            self.wf(),
        ensures
            r.spec_bits() == spec_priority_bits_of(self@),
    {
        let b = self.data()[0];
        proof {
            bits::lemma_field_bounds(b);
        }
        Priority::from_bits((b >> 2) & 3)
    }

    /// Returns the repeated flag.
    pub fn repeated(&self) -> (r: Repeated)
        requires
            self.wf(),
        ensures
            r.spec_bit() == spec_repeated_bit_of(self@),
    {
        let b = self.data()[0];
        proof {
            bits::lemma_field_bounds(b);
        }
        if (b >> 5) & 1 == 0 {
            Repeated::Repeated
        } else {
            Repeated::NotRepeated
        }
    }

    /// Returns the 6-bit or the full 8-bit TPCI field.
    pub fn tpci(&self, bits_sel: TpciBits) -> (r: u8)
        requires
            self.wf(),
        ensures
            r == match bits_sel {
                TpciBits::Six => spec_tpci6_of(self.kind(), self@),
                TpciBits::Eight => spec_tpci8_of(self.kind(), self@),
            },
    {
        let b = match self {
            Frame::Standard(f) => f.buf[6],
            Frame::Extended(f) => f.buf[7],
        };
        match bits_sel {
            TpciBits::Six => b >> 2,
            TpciBits::Eight => b,
        }
    }

    /// Returns the 4-bit TPCI sequence number.
    pub fn tpci_seq(&self) -> (r: u8)
        requires
            self.wf(),
        ensures
            r == spec_tpci_seq_of(self.kind(), self@),
            r < 16,
    {
        let b = match self {
            Frame::Standard(f) => f.buf[6],
            Frame::Extended(f) => f.buf[7],
        };
        proof {
            bits::lemma_field_bounds(b);
        }
        (b >> 2) & 0xf
    }

    /// Returns the short or the full APCI field.  The frame must be long
    /// enough to carry the APCI continuation byte.
    pub fn apci(&self, bits_sel: ApciBits) -> (r: u16)
        requires
            self.wf(),
            self@.len() > spec_apci_lo_off(self.kind()),
        ensures
            r == match bits_sel {
                ApciBits::Four => spec_apci4_of(self.kind(), self@),
                ApciBits::Ten => spec_apci10_of(self.kind(), self@),
            },
    {
        let (hi, lo) = match self {
            Frame::Standard(f) => (f.buf[6], f.buf[7]),
            Frame::Extended(f) => (f.buf[7], f.buf[8]),
        };
        let apci: u16 = ((hi & 3) as u16) * 256 + (lo as u16);
        match bits_sel {
            ApciBits::Four => apci >> 6,
            ApciBits::Ten => apci,
        }
    }

    /// Returns a copy of the APDU payload: the bytes after the TPCI byte.
    pub fn apdu_data(&self) -> (r: Vec<u8>)
        requires
            self.wf(),
        ensures
            r@ == self@.subrange(spec_apci_lo_off(self.kind()), self@.len() as int),
    {
        let buf = self.data();
        let start: usize = match self {
            Frame::Standard(_) => 7,
            Frame::Extended(_) => 8,
        };
        let mut out: Vec<u8> = Vec::new();
        let mut i: usize = start;
        while i < buf.len()
            invariant
                start <= i <= buf.len(),
                buf@ == self@,
                start == spec_apci_lo_off(self.kind()),
                out@ == self@.subrange(start as int, i as int),
            decreases buf.len() - i,
        {
            let b = buf[i];
            out.push(b);
            proof {
                assert(self@.subrange(start as int, i + 1) == self@.subrange(
                    start as int,
                    i as int,
                ).push(self@[i as int]));
            }
            i = i + 1;
        }
        out
    }

    /// ORs `v` into the content byte at `i`.
    fn or_at(&mut self, i: usize, v: u8)
        requires
            i < old(self)@.len(),
        ensures
            final(self).kind() == old(self).kind(),
            final(self)@ == old(self)@.update(i as int, (old(self)@[i as int] | v) as u8),
    {
        match self {
            Frame::Standard(f) => {
                let b = f.buf[i] | v;
                f.buf.set(i, b);
            },
            Frame::Extended(f) => {
                let b = f.buf[i] | v;
                f.buf.set(i, b);
            },
        }
    }

    /// Replaces the content byte at `i` with `v`.
    fn put_at(&mut self, i: usize, v: u8)
        requires
            i < old(self)@.len(),
        ensures
            final(self).kind() == old(self).kind(),
            final(self)@ == old(self)@.update(i as int, v),
    {
        match self {
            Frame::Standard(f) => f.buf.set(i, v),
            Frame::Extended(f) => f.buf.set(i, v),
        }
    }

    /// ORs the repeated flag into control byte 1.
    pub fn set_repeated(&mut self, repeated: Repeated)
        requires
            old(self).wf(),
        ensures
            final(self).kind() == old(self).kind(),
            final(self)@ == old(self)@.update(
                0,
                (old(self)@[0] | (repeated.spec_bit() << 5)) as u8,
            ),
            final(self).wf(),
            spec_repeated_bit_of(final(self)@) == spec_repeated_bit_of(old(self)@)
                | repeated.spec_bit(),
            spec_priority_bits_of(final(self)@) == spec_priority_bits_of(old(self)@),
    {
        let r = repeated.bit();
        let ghost b0 = self@[0];
        self.or_at(0, r << 5);
        proof {
            bits::lemma_repeated_set(b0, r);
            bits::lemma_or_zero_mask(b0, (r << 5) as u8, 0xd3);
        }
    }

    /// ORs the priority bits into control byte 1.
    pub fn set_priority(&mut self, priority: Priority)
        requires
            old(self).wf(),
        ensures
            final(self).kind() == old(self).kind(),
            final(self)@ == old(self)@.update(
                0,
                (old(self)@[0] | (priority.spec_bits() << 2)) as u8,
            ),
            final(self).wf(),
            spec_priority_bits_of(final(self)@) == spec_priority_bits_of(old(self)@)
                | priority.spec_bits(),
            spec_repeated_bit_of(final(self)@) == spec_repeated_bit_of(old(self)@),
    {
        let p = priority.bits();
        let ghost b0 = self@[0];
        self.or_at(0, p << 2);
        proof {
            bits::lemma_priority_set(b0, p);
            bits::lemma_or_zero_mask(b0, (p << 2) as u8, 0xd3);
        }
    }

    /// ORs the hop count (clamped to 3 bits) into the AT / hop-count byte.
    pub fn set_hop_count(&mut self, hop_count: u8)
        requires
            old(self).wf(),
        ensures
            final(self).kind() == old(self).kind(),
            final(self)@ == old(self)@.update(
                spec_ctrl2_off(old(self).kind()),
                (old(self)@[spec_ctrl2_off(old(self).kind())] | ((hop_count & 7) << 4)) as u8,
            ),
            final(self).wf(),
            spec_hop_of(final(self).kind(), final(self)@) == spec_hop_of(
                old(self).kind(),
                old(self)@,
            ) | (hop_count & 7),
            spec_at_bit_of(final(self).kind(), final(self)@) == spec_at_bit_of(
                old(self).kind(),
                old(self)@,
            ),
    {
        let off: usize = match self {
            Frame::Standard(_) => 5,
            Frame::Extended(_) => 1,
        };
        let ghost b0 = self@[off as int];
        self.or_at(off, (hop_count & 7) << 4);
        proof {
            bits::lemma_hop_set(b0, hop_count);
        }
    }

    /// Writes the source address over its two bytes.
    pub fn set_src_addr(&mut self, src_addr: &IndividualAddress)
        requires
            old(self).wf(),
        ensures
            final(self).kind() == old(self).kind(),
            final(self)@ == old(self)@.update(
                spec_src_off(old(self).kind()),
                (src_addr.0 >> 8) as u8,
            ).update(spec_src_off(old(self).kind()) + 1, (src_addr.0 & 0xff) as u8),
            final(self).wf(),
            spec_src_of(final(self).kind(), final(self)@) == src_addr.0,
    {
        let off: usize = match self {
            Frame::Standard(_) => 1,
            Frame::Extended(_) => 2,
        };
        self.put_at(off, (src_addr.0 >> 8) as u8);
        self.put_at(off + 1, (src_addr.0 & 0xff) as u8);
        proof {
            bits::lemma_addr_split(src_addr.0);
        }
    }

    /// ORs the address-type tag of `dst_addr` into the AT byte and writes
    /// the destination address over its two bytes.
    pub fn set_dst_addr(&mut self, dst_addr: &Address)
        requires
            old(self).wf(),
        ensures
            final(self).kind() == old(self).kind(),
            final(self)@ == old(self)@.update(
                spec_ctrl2_off(old(self).kind()),
                (old(self)@[spec_ctrl2_off(old(self).kind())] | (
                dst_addr.spec_addr_type().spec_bit() << 7)) as u8,
            ).update(spec_dst_off(old(self).kind()), (dst_addr.spec_raw() >> 8) as u8).update(
                spec_dst_off(old(self).kind()) + 1,
                (dst_addr.spec_raw() & 0xff) as u8,
            ),
            final(self).wf(),
            spec_dst_of(final(self).kind(), final(self)@) == dst_addr.spec_raw(),
            spec_at_bit_of(final(self).kind(), final(self)@) == spec_at_bit_of(
                old(self).kind(),
                old(self)@,
            ) | dst_addr.spec_addr_type().spec_bit(),
            spec_hop_of(final(self).kind(), final(self)@) == spec_hop_of(
                old(self).kind(),
                old(self)@,
            ),
    {
        let at_off: usize = match self {
            Frame::Standard(_) => 5,
            Frame::Extended(_) => 1,
        };
        let dst_off: usize = match self {
            Frame::Standard(_) => 3,
            Frame::Extended(_) => 4,
        };
        let (tag, raw) = match dst_addr {
            Address::Individual(a) => (0u8, a.0),
            Address::Group(a) => (1u8, a.0),
        };
        let ghost b0 = self@[at_off as int];
        self.or_at(at_off, tag << 7);
        self.put_at(dst_off, (raw >> 8) as u8);
        self.put_at(dst_off + 1, (raw & 0xff) as u8);
        proof {
            bits::lemma_at_set(b0, tag);
            bits::lemma_addr_split(raw);
        }
    }

    /// Writes the TPCI field: the 6-bit form is ORed into the top six bits,
    /// the 8-bit form replaces the whole byte.
    pub fn set_tpci(&mut self, bits_sel: TpciBits, val: u8)
        requires
            old(self).wf(),
        ensures
            final(self).kind() == old(self).kind(),
            final(self)@ == match bits_sel {
                TpciBits::Six => old(self)@.update(
                    spec_tpci_off(old(self).kind()),
                    (old(self)@[spec_tpci_off(old(self).kind())] | (val << 2)) as u8,
                ),
                TpciBits::Eight => old(self)@.update(spec_tpci_off(old(self).kind()), val),
            },
            final(self).wf(),
            spec_tpci6_of(final(self).kind(), final(self)@) == match bits_sel {
                TpciBits::Six => spec_tpci6_of(old(self).kind(), old(self)@) | (val & 0x3f),
                TpciBits::Eight => val >> 2,
            },
            spec_tpci8_of(final(self).kind(), final(self)@) == match bits_sel {
                TpciBits::Six => (old(self)@[spec_tpci_off(old(self).kind())] | (val << 2)) as u8,
                TpciBits::Eight => val,
            },
    {
        let off: usize = match self {
            Frame::Standard(_) => 6,
            Frame::Extended(_) => 7,
        };
        let ghost b0 = self@[off as int];
        match bits_sel {
            TpciBits::Six => {
                self.or_at(off, val << 2);
                proof {
                    bits::lemma_tpci6_set(b0, val);
                }
            },
            TpciBits::Eight => {
                self.put_at(off, val);
            },
        }
    }

    /// ORs the 4-bit sequence number into the TPCI byte.
    pub fn set_tpci_seq(&mut self, val: u8)
        requires
            old(self).wf(),
        ensures
            final(self).kind() == old(self).kind(),
            final(self)@ == old(self)@.update(
                spec_tpci_off(old(self).kind()),
                (old(self)@[spec_tpci_off(old(self).kind())] | ((val & 0xf) << 2)) as u8,
            ),
            final(self).wf(),
            spec_tpci_seq_of(final(self).kind(), final(self)@) == spec_tpci_seq_of(
                old(self).kind(),
                old(self)@,
            ) | (val & 0xf),
    {
        let off: usize = match self {
            Frame::Standard(_) => 6,
            Frame::Extended(_) => 7,
        };
        let ghost b0 = self@[off as int];
        self.or_at(off, (val & 0xf) << 2);
        proof {
            bits::lemma_tpci_seq_set(b0, val);
        }
    }

    /// ORs an APCI value into the two APCI bytes.  The short form keeps the
    /// low six bits of the continuation byte — where a small data-point
    /// payload may already sit — untouched.
    pub fn set_apci(&mut self, bits_sel: ApciBits, val: u16)
        requires
            old(self).wf(),
            old(self)@.len() > spec_apci_lo_off(old(self).kind()),
            match bits_sel {
                ApciBits::Four => val < 16,
                ApciBits::Ten => val < 1024,
            },
        ensures
            final(self).kind() == old(self).kind(),
            final(self)@ == match bits_sel {
                ApciBits::Four => old(self)@.update(
                    spec_tpci_off(old(self).kind()),
                    (old(self)@[spec_tpci_off(old(self).kind())] | ((val >> 2) as u8)) as u8,
                ).update(
                    spec_apci_lo_off(old(self).kind()),
                    (old(self)@[spec_apci_lo_off(old(self).kind())] | ((
                    (val & 3) as u8) << 6)) as u8,
                ),
                ApciBits::Ten => old(self)@.update(
                    spec_tpci_off(old(self).kind()),
                    (old(self)@[spec_tpci_off(old(self).kind())] | ((val >> 8) as u8)) as u8,
                ).update(
                    spec_apci_lo_off(old(self).kind()),
                    (old(self)@[spec_apci_lo_off(old(self).kind())] | ((val & 0xff) as u8)) as u8,
                ),
            },
            final(self).wf(),
            bits_sel == ApciBits::Four ==> spec_apci4_of(final(self).kind(), final(self)@)
                == spec_apci4_of(old(self).kind(), old(self)@) | val,
            bits_sel == ApciBits::Four ==> (final(self)@[spec_apci_lo_off(final(self).kind())]
                & 0x3f) == (old(self)@[spec_apci_lo_off(old(self).kind())] & 0x3f),
            bits_sel == ApciBits::Ten && old(self)@[spec_tpci_off(old(self).kind())] & 3 == 0
                && old(self)@[spec_apci_lo_off(old(self).kind())] == 0 ==> spec_apci10_of(
                final(self).kind(),
                final(self)@,
            ) == val,
    {
        let hi_off: usize = match self {
            Frame::Standard(_) => 6,
            Frame::Extended(_) => 7,
        };
        let ghost hi0 = self@[hi_off as int];
        let ghost lo0 = self@[hi_off + 1];
        match bits_sel {
            ApciBits::Four => {
                self.or_at(hi_off, (val >> 2) as u8);
                self.or_at(hi_off + 1, ((val & 3) as u8) << 6);
                proof {
                    bits::lemma_apci4_set(hi0, lo0, val);
                }
            },
            ApciBits::Ten => {
                self.or_at(hi_off, (val >> 8) as u8);
                self.or_at(hi_off + 1, (val & 0xff) as u8);
                proof {
                    if hi0 & 3 == 0 && lo0 == 0 {
                        bits::lemma_apci10_set(hi0, lo0, val);
                    }
                }
            },
        }
    }

    /// Computes the trailing checksum byte over the content bytes.
    pub fn checksum(&self) -> (r: u8)
        ensures
            r == spec_checksum(self@),
    {
        let buf = self.data();
        let mut acc: u8 = 0;
        let mut i: usize = 0;
        while i < buf.len()
            invariant
                i <= buf.len(),
                buf@ == self@,
                acc == xor_fold(self@.take(i as int)),
            decreases buf.len() - i,
        {
            acc = acc ^ buf[i];
            proof {
                assert(self@.take(i + 1).drop_last() == self@.take(i as int));
                assert(self@.take(i + 1).last() == self@[i as int]);
            }
            i = i + 1;
        }
        proof {
            assert(self@.take(buf.len() as int) == self@);
        }
        !acc
    }

    /// Builds a frame around a data-point value: standard if the value's
    /// byte length fits a standard telegram (at most 14 bytes), extended
    /// otherwise; the buffer is drawn from the pool and holds the value
    /// after the TPCI byte, with every other assemblable field still zero.
    pub fn from_datapoint(pool: &mut FramePool, datapoint: &DataPoint) -> (r: Result<
        Frame,
        FrameError,
    >)
        requires
            old(pool).wf(),
        ensures
            final(pool).wf(),
            final(pool).block_count() == old(pool).block_count(),
            old(pool).free_blocks() == 0 ==> r == Result::<Frame, FrameError>::Err(
                FrameError::OutOfMemory,
            ) && *final(pool) == *old(pool),
            old(pool).free_blocks() > 0 ==> r is Ok && final(pool).free_blocks() == old(pool).free_blocks() - 1,
            r is Ok ==> {
                let f = r->Ok_0;
                &&& f.kind() == spec_dp_kind(*datapoint)
                &&& f@ == spec_dp_frame(f.kind(), *datapoint)
                &&& f.wf()
            },
    {
        let size = datapoint.byte_length();
        if size <= 14 {
            let mut f = match StandardFrame::new(pool, 9 + size) {
                Result::Ok(f) => f,
                Result::Err(e) => {
                    return Result::Err(e);
                },
            };
            if size == 0 {
                datapoint.write(&mut f.buf, 7);
            } else {
                datapoint.write(&mut f.buf, 8);
            }
            proof {
                bits::lemma_or_into_zero(datapoint.spec_bits());
                assert(f@ =~= spec_dp_frame(FrameType::Standard, *datapoint));
            }
            Result::Ok(Frame::Standard(f))
        } else {
            let mut f = match ExtendedFrame::new(pool, 10 + size) {
                Result::Ok(f) => f,
                Result::Err(e) => {
                    return Result::Err(e);
                },
            };
            datapoint.write(&mut f.buf, 9);
            proof {
                bits::lemma_or_into_zero(datapoint.spec_bits());
                assert(f@ =~= spec_dp_frame(FrameType::Extended, *datapoint));
            }
            Result::Ok(Frame::Extended(f))
        }
    }

    /// Serializes the frame to its wire image: the content bytes followed
    /// by the checksum byte.
    pub fn encode(&self) -> (r: Vec<u8>)
        ensures
            r@ == self@.push(spec_checksum(self@)),
    {
        let buf = self.data();
        let mut out = copy_prefix(buf, buf.len());
        let chk = self.checksum();
        out.push(chk);
        proof {
            assert(self@.take(self@.len() as int) == self@);
        }
        out
    }

    /// Parses a raw wire image into a typed frame over a pooled buffer,
    /// validating the frame-type bits, the declared length and the trailing
    /// checksum.
    pub fn parse(pool: &mut FramePool, wire: &Vec<u8>) -> (r: Result<Frame, FrameError>)
        requires
            old(pool).wf(),
        ensures
            final(pool).wf(),
            final(pool).block_count() == old(pool).block_count(),
            spec_parse(wire@) is Err ==> r == Result::<Frame, FrameError>::Err(
                spec_parse(wire@)->Err_0,
            ) && *final(pool) == *old(pool),
            spec_parse(wire@) is Ok && old(pool).free_blocks() == 0 ==> r == Result::<
                Frame,
                FrameError,
            >::Err(FrameError::OutOfMemory) && *final(pool) == *old(pool),
            spec_parse(wire@) is Ok && old(pool).free_blocks() > 0 ==> r is Ok && final(pool).free_blocks() == old(pool).free_blocks() - 1,
            r is Ok ==> {
                let f = r->Ok_0;
                &&& f.kind() == spec_parse(wire@)->Ok_0.0
                &&& f@ == spec_parse(wire@)->Ok_0.1
                &&& f.wf()
            },
    {
        if wire.len() == 0 {
            return Result::Err(FrameError::InvalidLength);
        }
        let ctrl = wire[0];
        let is_std = ctrl & 0xd3 == 0x90;
        let is_ext = ctrl & 0xd3 == 0x10;
        if !is_std && !is_ext {
            return Result::Err(FrameError::InvalidLength);
        }
        if is_std {
            if wire.len() < 8 || wire.len() > 23 {
                return Result::Err(FrameError::InvalidLength);
            }
            let declared = (wire[5] & 0xf) as usize + 8;
            if wire.len() != declared {
                return Result::Err(FrameError::InvalidLength);
            }
        } else {
            if wire.len() < 9 || wire.len() > 263 {
                return Result::Err(FrameError::InvalidLength);
            }
            let declared = wire[6] as usize + 9;
            if wire.len() != declared {
                return Result::Err(FrameError::InvalidLength);
            }
        }
        let n = wire.len() - 1;
        let chk = !xor_prefix(wire, n);
        proof {
            assert(wire@.take(n as int) == wire@.drop_last());
        }
        if wire[n] != chk {
            return Result::Err(FrameError::Checksum);
        }
        if !pool.try_alloc() {
            return Result::Err(FrameError::OutOfMemory);
        }
        let buf = copy_prefix(wire, n);
        proof {
            assert(buf@ == wire@.drop_last());
            lemma_parse_wf(wire@);
        }
        if is_std {
            Result::Ok(Frame::Standard(StandardFrame { buf }))
        } else {
            Result::Ok(Frame::Extended(ExtendedFrame { buf }))
        }
    }

    /// Copies this frame into a fresh pooled buffer.
    pub fn try_clone(&self, pool: &mut FramePool) -> (r: Result<Frame, FrameError>)
        requires
            old(pool).wf(),
        ensures
            final(pool).wf(),
            final(pool).block_count() == old(pool).block_count(),
            old(pool).free_blocks() == 0 ==> r == Result::<Frame, FrameError>::Err(
                FrameError::OutOfMemory,
            ) && *final(pool) == *old(pool),
            old(pool).free_blocks() > 0 ==> r is Ok && final(pool).free_blocks() == old(pool).free_blocks() - 1,
            r is Ok ==> r->Ok_0.kind() == self.kind() && r->Ok_0@ == self@,
    {
        if !pool.try_alloc() {
            return Result::Err(FrameError::OutOfMemory);
        }
        let src = self.data();
        let buf = copy_prefix(src, src.len());
        proof {
            assert(self@.take(self@.len() as int) == self@);
        }
        match self {
            Frame::Standard(_) => Result::Ok(Frame::Standard(StandardFrame { buf })),
            Frame::Extended(_) => Result::Ok(Frame::Extended(ExtendedFrame { buf })),
        }
    }

    /// Consumes the frame and returns its buffer to the pool.
    pub fn release(self, pool: &mut FramePool)
        requires
            old(pool).wf(),
        ensures
            final(pool).wf(),
            final(pool).block_count() == old(pool).block_count(),
            final(pool).free_blocks() == if old(pool).free_blocks() < old(pool).block_count() {
                old(pool).free_blocks() + 1
            } else {
                old(pool).free_blocks()
            },
    {
        pool.release();
    }
}

/// Reads a data-point value of the same shape as `shape` back out of a
/// content buffer: small bit shapes from the low bits of the APCI
/// continuation byte, byte shapes from the byte after it.
pub open spec fn spec_read_back(k: FrameType, s: Seq<u8>, shape: DataPoint) -> DataPoint {
    match shape {
        DataPoint::B1(_) => DataPoint::B1(B1(s[spec_apci_lo_off(k)] & 1)),
        DataPoint::B2(_) => DataPoint::B2(B2(s[spec_apci_lo_off(k)] & 3)),
        DataPoint::U8(_) => DataPoint::U8(U8(s[spec_apci_lo_off(k) + 1])),
    }
}

/// The frame built around a data-point value is well-formed, and its
/// declared length field counts exactly the bytes that are there plus the
/// trailing checksum byte.
pub proof fn lemma_dp_frame_wf(d: DataPoint)
    ensures
        spec_wf_bytes(spec_dp_kind(d), spec_dp_frame(spec_dp_kind(d), d)),
        spec_dp_frame(spec_dp_kind(d), d).len() + 1 == spec_total_len(
            spec_dp_kind(d),
            spec_dp_frame(spec_dp_kind(d), d),
        ),
{
    let k = spec_dp_kind(d);
    let s = spec_dp_frame(k, d);
    bits::lemma_small_nibble(s[spec_lg_off(k)]);
    bits::lemma_type_bit_consts();
}

/// The wire image of a well-formed frame carries a correct trailing
/// checksum byte — bitwise NOT of the XOR of all bytes before it — and is
/// exactly as long as the frame's declared length field says.
pub proof fn lemma_wire_image_consistent(f: Frame)
    requires
        f.wf(),
    ensures
        ({
            let w = f@.push(spec_checksum(f@));
            &&& w.len() == spec_total_len(f.kind(), f@)
            &&& w.last() == spec_checksum(w.drop_last())
        }),
{
    let w = f@.push(spec_checksum(f@));
    assert(w.drop_last() =~= f@);
}

/// A wire image the parser accepts satisfies the checksum law, and its
/// content is a well-formed frame; an image that fails any check is
/// rejected with the corresponding error and never becomes a frame.
pub proof fn lemma_accepted_wire_checksum(w: Seq<u8>)
    requires
        spec_parse(w) is Ok,
    ensures
        w.last() == spec_checksum(w.drop_last()),
        w.len() == spec_total_len(spec_parse(w)->Ok_0.0, w),
        spec_wf_bytes(spec_parse(w)->Ok_0.0, spec_parse(w)->Ok_0.1),
{
    lemma_parse_wf(w);
}

/// Parsing the wire image of a well-formed frame gives back exactly that
/// frame: its variant and its content bytes.
pub proof fn lemma_parse_encode_roundtrip(k: FrameType, s: Seq<u8>)
    requires
        spec_wf_bytes(k, s),
    ensures
        spec_parse(s.push(spec_checksum(s))) == Result::<(FrameType, Seq<u8>), FrameError>::Ok(
            (k, s),
        ),
{
    let w = s.push(spec_checksum(s));
    assert(w.drop_last() =~= s);
    bits::lemma_type_bit_consts();
    assert(w[0] == s[0]);
    match k {
        FrameType::Standard => {
            assert(w[5] == s[5]);
        },
        FrameType::Extended => {
            assert(w[6] == s[6]);
        },
    }
}

/// Writing a short APCI value over the frame built around a data-point
/// value, then decoding the APCI and reading the payload back, yields the
/// value pair that was written: the two writes share bytes but touch
/// disjoint bits.
pub proof fn lemma_apci_datapoint_roundtrip(d: DataPoint, v: u16)
    requires
        d.wf(),
        v == 0 || v == 1 || v == 2,
    ensures
        ({
            let k = spec_dp_kind(d);
            let s0 = spec_dp_frame(k, d);
            let s1 = s0.update(
                spec_tpci_off(k),
                (s0[spec_tpci_off(k)] | ((v >> 2) as u8)) as u8,
            ).update(
                spec_apci_lo_off(k),
                (s0[spec_apci_lo_off(k)] | (((v & 3) as u8) << 6)) as u8,
            );
            &&& spec_apci4_of(k, s1) == v
            &&& spec_read_back(k, s1, d) == d
        }),
{
    let k = spec_dp_kind(d);
    let s0 = spec_dp_frame(k, d);
    let hi0 = s0[spec_tpci_off(k)];
    let lo0 = s0[spec_apci_lo_off(k)];
    assert(hi0 == 0);
    bits::lemma_dp_bits_roundtrip(match d {
        DataPoint::B1(b) => b.0,
        DataPoint::B2(b) => b.0,
        DataPoint::U8(_) => 0,
    }, v);
    bits::lemma_apci_read_zero_hi(lo0, v);
    bits::lemma_apci4_set(hi0, lo0, v);
    bits::lemma_or_into_zero((v >> 2) as u8);
    match d {
        DataPoint::B1(b) => {
            bits::lemma_small_nibble(b.0);
        },
        DataPoint::B2(b) => {
            bits::lemma_small_nibble(b.0);
        },
        DataPoint::U8(_) => {
        },
    }
}

} // verus!
