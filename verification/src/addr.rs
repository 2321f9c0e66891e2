//! KNX addresses: 16-bit individual and group addresses, and the tagged
//! union over the two.  An individual address splits logically into
//! area (4 bits) / line (4 bits) / device (8 bits); a group address into
//! 5 / 3 / 8 bits.  The all-zero group address is the broadcast address.

use vstd::prelude::*;

verus! {

/// The address-type tag carried in bit 7 of a frame's AT/NPCI byte:
/// 0 selects an individual destination, 1 a group destination.
#[derive(Clone, Copy, PartialEq, Eq, Structural, Debug)]
pub enum AddressType {
    Individual,
    Group,
}

impl AddressType {
    /// The on-wire bit for this tag.
    pub open spec fn spec_bit(self) -> u8 {
        match self {
            AddressType::Individual => 0,
            AddressType::Group => 1,
        }
    }

    /// Returns the on-wire bit for this tag.
    pub fn bit(self) -> (r: u8)
        ensures
            r == self.spec_bit(),
    {
        match self {
            AddressType::Individual => 0,
            AddressType::Group => 1,
        }
    }
}

/// A 16-bit individual (physical) device address.
#[derive(Clone, Copy, PartialEq, Eq, Structural, Debug)]
pub struct IndividualAddress(pub u16);

impl IndividualAddress {
    /// Assembles an address from its area / line / device parts.
    pub fn from_parts(n1: u8, n2: u8, n3: u8) -> (r: Self)
        requires
            n1 < 16,
            n2 < 16,
        ensures
            r.0 == (n1 as u16) * 4096 + (n2 as u16) * 256 + (n3 as u16),
    {
        IndividualAddress((n1 as u16) * 4096 + (n2 as u16) * 256 + (n3 as u16))
    }

    /// Wraps a raw 16-bit address.
    pub fn new(addr: u16) -> (r: Self)
        ensures
            r.0 == addr,
    {
        IndividualAddress(addr)
    }

    /// Writes the address big-endian into two bytes of `buf` at `off`.
    pub fn write(&self, buf: &mut Vec<u8>, off: usize)
        requires
            off + 2 <= old(buf).len(),
        ensures
            final(buf)@ == old(buf)@.update(off as int, (self.0 >> 8) as u8).update(
                off + 1,
                (self.0 & 0xff) as u8,
            ),
    {
        buf.set(off, (self.0 >> 8) as u8);
        buf.set(off + 1, (self.0 & 0xff) as u8);
    }
}

/// A 16-bit group address.
#[derive(Clone, Copy, PartialEq, Eq, Structural, Debug)]
pub struct GroupAddress(pub u16);

impl GroupAddress {
    /// Assembles an address from its 5 / 3 / 8 bit parts.
    pub fn from_parts(n1: u8, n2: u8, n3: u8) -> (r: Self)
        requires
            n1 < 32,
            n2 < 8,
        ensures
            r.0 == (n1 as u16) * 2048 + (n2 as u16) * 256 + (n3 as u16),
    {
        GroupAddress((n1 as u16) * 2048 + (n2 as u16) * 256 + (n3 as u16))
    }

    /// Wraps a raw 16-bit address.
    pub fn new(addr: u16) -> (r: Self)
        ensures
            r.0 == addr,
    {
        GroupAddress(addr)
    }

    /// Writes the address big-endian into two bytes of `buf` at `off`.
    pub fn write(&self, buf: &mut Vec<u8>, off: usize)
        requires
            off + 2 <= old(buf).len(),
        ensures
            final(buf)@ == old(buf)@.update(off as int, (self.0 >> 8) as u8).update(
                off + 1,
                (self.0 & 0xff) as u8,
            ),
    {
        buf.set(off, (self.0 >> 8) as u8);
        buf.set(off + 1, (self.0 & 0xff) as u8);
    }
}

/// A destination address: either an individual device or a group.
#[derive(Clone, Copy, PartialEq, Eq, Structural, Debug)]
pub enum Address {
    Individual(IndividualAddress),
    Group(GroupAddress),
}

impl Address {
    /// The raw 16-bit value, whichever kind this is.
    pub open spec fn spec_raw(self) -> u16 {
        match self {
            Address::Individual(a) => a.0,
            Address::Group(a) => a.0,
        }
    }

    /// The address-type tag of this address.
    pub open spec fn spec_addr_type(self) -> AddressType {
        match self {
            Address::Individual(_) => AddressType::Individual,
            Address::Group(_) => AddressType::Group,
        }
    }

    /// Writes the 16-bit value big-endian into two bytes of `buf` at `off`.
    pub fn write(&self, buf: &mut Vec<u8>, off: usize)
        requires
            off + 2 <= old(buf).len(),
        ensures
            final(buf)@ == old(buf)@.update(off as int, (self.spec_raw() >> 8) as u8).update(
                off + 1,
                (self.spec_raw() & 0xff) as u8,
            ),
    {
        match self {
            Address::Individual(a) => a.write(buf, off),
            Address::Group(a) => a.write(buf, off),
        }
    }
}

/// Reads a big-endian 16-bit value out of two bytes.
pub open spec fn spec_addr16(hi: u8, lo: u8) -> u16 {
    (hi as int * 256 + lo as int) as u16
}

} // verus!
