//! Sets of flags that travel as the bits of one byte.

use vstd::prelude::*;

verus! {

/// What is special about an item.
#[derive(Debug, Clone, Copy, PartialEq, Eq, Structural)]
pub struct NetworkItemFlags {
    bits: u8,
}

impl NetworkItemFlags {
    /// The byte that holds the flags.
    pub closed spec fn spec_bits(self) -> u8 {
        self.bits
    }

    /// The set that holds exactly the bits of `bits`, known or not.
    pub fn from_bits_retain(bits: u8) -> (flags: NetworkItemFlags)
        ensures
            flags.spec_bits() == bits,
    {
        NetworkItemFlags { bits }
    }

    /// Returns the byte that holds the flags.
    pub fn bits(self) -> (bits: u8)
        ensures
            bits == self.spec_bits(),
    {
        self.bits
    }

    /// The item can unlock logical advancement.
    pub fn progression() -> (flags: NetworkItemFlags)
        ensures
            flags.spec_bits() == 0b001,
    {
        NetworkItemFlags { bits: 0b001 }
    }

    /// The item is especially useful.
    pub fn useful() -> (flags: NetworkItemFlags)
        ensures
            flags.spec_bits() == 0b010,
    {
        NetworkItemFlags { bits: 0b010 }
    }

    /// The item is a trap.
    pub fn trap() -> (flags: NetworkItemFlags)
        ensures
            flags.spec_bits() == 0b100,
    {
        NetworkItemFlags { bits: 0b100 }
    }

    /// Tells whether every flag of `other` is set in `self`.
    pub fn contains(self, other: NetworkItemFlags) -> (held: bool)
        ensures
            held == (self.spec_bits() & other.spec_bits() == other.spec_bits()),
    {
        self.bits & other.bits == other.bits
    }

    /// The flags of `self` together with those of `other`.
    pub fn union(self, other: NetworkItemFlags) -> (flags: NetworkItemFlags)
        ensures
            flags.spec_bits() == self.spec_bits() | other.spec_bits(),
    {
        NetworkItemFlags { bits: self.bits | other.bits }
    }
}

/// Which items the server is to send to the client.
///
/// The bit for other worlds goes with the two others: a set that holds the
/// bit for the own world or for the starting inventory is only complete
/// with it. [`ItemsHandlingFlags::normalized`] completes a set.
#[derive(Debug, Clone, Copy, PartialEq, Eq, Structural)]
pub struct ItemsHandlingFlags {
    bits: u8,
}

impl ItemsHandlingFlags {
    /// The byte that holds the flags.
    pub closed spec fn spec_bits(self) -> u8 {
        self.bits
    }

    /// Every flag of `other` is set in `self`.
    pub open spec fn spec_contains(self, other: ItemsHandlingFlags) -> bool {
        self.spec_bits() & other.spec_bits() == other.spec_bits()
    }

    /// The byte of a set once it is complete: with the bit for other worlds
    /// where the bit for the own world or for the starting inventory is set.
    pub open spec fn spec_normalized_bits(bits: u8) -> u8 {
        if bits & 0b110 != 0 {
            bits | 0b001
        } else {
            bits
        }
    }

    /// The set that holds exactly the bits of `bits`, known or not.
    pub fn from_bits_retain(bits: u8) -> (flags: ItemsHandlingFlags)
        ensures
            flags.spec_bits() == bits,
    {
        ItemsHandlingFlags { bits }
    }

    /// Returns the byte that holds the flags.
    pub fn bits(self) -> (bits: u8)
        ensures
            bits == self.spec_bits(),
    {
        self.bits
    }

    /// No items are sent.
    pub fn empty() -> (flags: ItemsHandlingFlags)
        ensures
            flags.spec_bits() == 0,
    {
        ItemsHandlingFlags { bits: 0 }
    }

    /// Items are sent from other worlds.
    pub fn other_worlds() -> (flags: ItemsHandlingFlags)
        ensures
            flags.spec_bits() == 0b001,
    {
        ItemsHandlingFlags { bits: 0b001 }
    }

    /// Items are sent from the own world, and with that from other worlds.
    pub fn own_world() -> (flags: ItemsHandlingFlags)
        ensures
            flags.spec_bits() == 0b011,
    {
        ItemsHandlingFlags { bits: 0b011 }
    }

    /// Items are sent from the starting inventory, and with that from other
    /// worlds.
    pub fn starting_inventory() -> (flags: ItemsHandlingFlags)
        ensures
            flags.spec_bits() == 0b101,
    {
        ItemsHandlingFlags { bits: 0b101 }
    }

    /// Items are sent from everywhere.
    pub fn all() -> (flags: ItemsHandlingFlags)
        ensures
            flags.spec_bits() == 0b111,
    {
        ItemsHandlingFlags { bits: 0b111 }
    }

    /// Tells whether every flag of `other` is set in `self`.
    pub fn contains(self, other: ItemsHandlingFlags) -> (held: bool)
        ensures
            held == self.spec_contains(other),
    {
        self.bits & other.bits == other.bits
    }

    /// The flags of `self` together with those of `other`.
    pub fn union(self, other: ItemsHandlingFlags) -> (flags: ItemsHandlingFlags)
        ensures
            flags.spec_bits() == self.spec_bits() | other.spec_bits(),
    {
        ItemsHandlingFlags { bits: self.bits | other.bits }
    }

    /// Completes the set: where the bit for the own world or for the
    /// starting inventory is set, the bit for other worlds is set too. No
    /// other bit changes.
    pub fn normalized(self) -> (flags: ItemsHandlingFlags)
        ensures
            flags.spec_bits() == Self::spec_normalized_bits(self.spec_bits()),
    {
        if self.bits & 0b110 != 0 {
            ItemsHandlingFlags { bits: self.bits | 0b001 }
        } else {
            self
        }
    }

    /// In a complete set, the bit for the own world and the bit for the
    /// starting inventory never stand without the bit for other worlds; the
    /// bit for other worlds alone brings neither of them; completing changes
    /// no bit but the one for other worlds, and a complete set stays as it
    /// is.
    pub proof fn lemma_normalized(bits: u8)
        ensures
            Self::spec_normalized_bits(bits) & 0b110 != 0 ==> Self::spec_normalized_bits(bits)
                & 0b001 == 0b001,
            Self::spec_normalized_bits(bits) & 0b110 == bits & 0b110,
            Self::spec_normalized_bits(bits) | 0b001 == bits | 0b001,
            Self::spec_normalized_bits(Self::spec_normalized_bits(bits))
                == Self::spec_normalized_bits(bits),
    {
        assert((bits | 0b001) & 0b001 == 0b001) by (bit_vector);
        assert((bits | 0b001) & 0b110 == bits & 0b110) by (bit_vector);
        assert((bits | 0b001) | 0b001 == bits | 0b001) by (bit_vector);
    }
}

} // verus!
