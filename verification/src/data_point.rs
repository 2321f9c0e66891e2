//! Data-point value shapes.
//!
//! A data point answers its length as either `Bit(n)` — n bits, packed into
//! the low bits of the APCI continuation byte when n < 6 — or `Byte(n)` —
//! n bytes placed after the APCI bytes.  The byte length of a data point is
//! 0 for the small bit shapes and n otherwise.

use vstd::prelude::*;

verus! {

/// The wire length of a data-point value: a bit count or a byte count.
#[derive(Clone, Copy, PartialEq, Eq, Structural, Debug)]
pub enum DataPointLength {
    Bit(usize),
    Byte(usize),
}

/// A 1-bit boolean value.
#[derive(Clone, Copy, PartialEq, Eq, Structural, Debug)]
pub struct B1(pub u8);

impl B1 {
    /// Wraps a boolean as a 1-bit data point.
    pub fn new(data: bool) -> (r: Self)
        ensures
            r.0 == if data {
                1u8
            } else {
                0u8
            },
    {
        if data {
            B1(1)
        } else {
            B1(0)
        }
    }
}

/// A 2-bit control value.
#[derive(Clone, Copy, PartialEq, Eq, Structural, Debug)]
pub struct B2(pub u8);

impl B2 {
    /// Wraps a raw value as a 2-bit data point; only the low two bits reach
    /// the wire.
    pub fn new(data: u8) -> (r: Self)
        ensures
            r.0 == data,
    {
        B2(data)
    }
}

/// A 1-byte unsigned value.
#[derive(Clone, Copy, PartialEq, Eq, Structural, Debug)]
pub struct U8(pub u8);

impl U8 {
    /// Wraps a raw byte as a 1-byte data point.
    pub fn new(data: u8) -> (r: Self)
        ensures
            r.0 == data,
    {
        U8(data)
    }
}

/// A data-point value: a tagged union of the supported value shapes.
#[derive(Clone, Copy, PartialEq, Eq, Structural, Debug)]
pub enum DataPoint {
    B1(B1),
    B2(B2),
    U8(U8),
}

impl DataPoint {
    /// The declared wire length of this shape.
    pub open spec fn spec_length(self) -> DataPointLength {
        match self {
            DataPoint::B1(_) => DataPointLength::Bit(1),
            DataPoint::B2(_) => DataPointLength::Bit(2),
            DataPoint::U8(_) => DataPointLength::Byte(1),
        }
    }

    /// The number of payload bytes this shape occupies after the APCI bytes.
    pub open spec fn spec_byte_length(self) -> int {
        match self {
            DataPoint::B1(_) => 0,
            DataPoint::B2(_) => 0,
            DataPoint::U8(_) => 1,
        }
    }

    /// The bits a small bit shape ORs into the APCI continuation byte.
    pub open spec fn spec_bits(self) -> u8 {
        match self {
            DataPoint::B1(b) => b.0 & 1,
            DataPoint::B2(b) => b.0 & 3,
            DataPoint::U8(_) => 0,
        }
    }

    /// The payload byte a byte shape places after the APCI bytes.
    pub open spec fn spec_byte(self) -> u8 {
        match self {
            DataPoint::B1(_) => 0,
            DataPoint::B2(_) => 0,
            DataPoint::U8(b) => b.0,
        }
    }

    /// The stored value does not exceed the shape's declared bit width.
    pub open spec fn wf(self) -> bool {
        match self {
            DataPoint::B1(b) => b.0 <= 1,
            DataPoint::B2(b) => b.0 <= 3,
            DataPoint::U8(_) => true,
        }
    }

    /// Returns the declared wire length of this shape.
    pub fn length(&self) -> (r: DataPointLength)
        ensures
            r == self.spec_length(),
    {
        match self {
            DataPoint::B1(_) => DataPointLength::Bit(1),
            DataPoint::B2(_) => DataPointLength::Bit(2),
            DataPoint::U8(_) => DataPointLength::Byte(1),
        }
    }

    /// Returns the number of payload bytes this shape occupies.
    pub fn byte_length(&self) -> (r: usize)
        ensures
            r == self.spec_byte_length(),
    {
        match self {
            DataPoint::B1(_) => 0,
            DataPoint::B2(_) => 0,
            DataPoint::U8(_) => 1,
        }
    }

    /// Writes the value into `buf` at `off`: bit shapes OR their bits into
    /// the byte that is already there, byte shapes replace it.
    pub fn write(&self, buf: &mut Vec<u8>, off: usize)
        requires
            off < old(buf).len(),
        ensures
            final(buf)@ == old(buf)@.update(
                off as int,
                match self {
                    DataPoint::U8(_) => self.spec_byte(),
                    _ => (old(buf)@[off as int] | self.spec_bits()) as u8,
                },
            ),
    {
        match self {
            DataPoint::B1(b) => {
                let v = buf[off] | (b.0 & 1);
                buf.set(off, v);
            },
            DataPoint::B2(b) => {
                let v = buf[off] | (b.0 & 3);
                buf.set(off, v);
            },
            DataPoint::U8(b) => {
                buf.set(off, b.0);
            },
        }
    }
}

} // verus!
