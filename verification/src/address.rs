//! The 7-bit bus address of the switch, as wired by its address pins.

use vstd::prelude::*;

verus! {

/// Address of the switch when all three address pins are tied low.
pub const DEVICE_BASE_ADDRESS: u8 = 0b111_0000;

/// Possible slave addresses
#[derive(Debug, Clone)]
pub enum SlaveAddr {
    /// Default slave address
    Default,
    /// Alternative slave address providing bit values for A2, A1 and A0
    Alternative(bool, bool, bool),
}

/// The number that the pin levels A2, A1 and A0 spell, A2 being the most
/// significant bit.
pub open spec fn strap_bits(a2: bool, a1: bool, a0: bool) -> u8 {
    ((if a2 {
        4int
    } else {
        0int
    }) + (if a1 {
        2int
    } else {
        0int
    }) + (if a0 {
        1int
    } else {
        0int
    })) as u8
}

impl SlaveAddr {
    /// The address selected on a chip whose address is `default` with all
    /// pins low.
    pub open spec fn spec_addr(self, default: u8) -> u8 {
        match self {
            SlaveAddr::Default => default,
            SlaveAddr::Alternative(a2, a1, a0) => default | strap_bits(a2, a1, a0),
        }
    }

    /// Computes the bus address from the address of the chip with all pins
    /// low.
    pub fn addr(self, default: u8) -> (address: u8)
        ensures
            address == self.spec_addr(default),
    {
        match self {
            SlaveAddr::Default => default,
            SlaveAddr::Alternative(a2, a1, a0) => {
                let b2: u8 = if a2 { 1 } else { 0 };
                let b1: u8 = if a1 { 1 } else { 0 };
                let b0: u8 = if a0 { 1 } else { 0 };
                assert(default | (b2 << 2) | (b1 << 1) | b0 == default | ((4 * b2 + 2 * b1
                    + b0) as u8)) by (bit_vector)
                    requires
                        b2 <= 1,
                        b1 <= 1,
                        b0 <= 1,
                ;
                default | (b2 << 2) | (b1 << 1) | b0
            },
        }
    }
}

impl Default for SlaveAddr {
    /// Default slave address
    fn default() -> (address: Self)
        ensures
            address == SlaveAddr::Default,
    {
        SlaveAddr::Default
    }
}

/// The pins decide the low three bits of the address and nothing else:
/// what `default` holds above them stays, and below them the pins' number
/// is added to what `default` holds there.
pub proof fn lemma_pins_change_low_bits_only(address: SlaveAddr, default: u8)
    ensures
        address.spec_addr(default) & 0b1111_1000 == default & 0b1111_1000,
        address matches SlaveAddr::Alternative(a2, a1, a0) ==> address.spec_addr(default) & 0b111
            == (default & 0b111) | strap_bits(a2, a1, a0),
{
    if let SlaveAddr::Alternative(a2, a1, a0) = address {
        let bits = strap_bits(a2, a1, a0);
        assert((default | bits) & 0b1111_1000 == default & 0b1111_1000) by (bit_vector)
            requires
                bits <= 7,
        ;
        assert((default | bits) & 0b111 == (default & 0b111) | bits) by (bit_vector)
            requires
                bits <= 7,
        ;
    }
}

/// With all three pins low the address is `default`, whether the pins are
/// left unnamed or named as low.
pub proof fn lemma_pins_low_is_default(default: u8)
    ensures
        SlaveAddr::Default.spec_addr(default) == default,
        SlaveAddr::Alternative(false, false, false).spec_addr(default) == default,
{
    assert(default | 0 == default) by (bit_vector);
}

/// Strapped from the base address, the switch answers at one of the eight
/// addresses from `0b111_0000` to `0b111_0111`: the base address plus the
/// number that the pins spell.
pub proof fn lemma_base_address_range(address: SlaveAddr)
    ensures
        DEVICE_BASE_ADDRESS <= address.spec_addr(DEVICE_BASE_ADDRESS) <= DEVICE_BASE_ADDRESS + 7,
        address matches SlaveAddr::Alternative(a2, a1, a0) ==> address.spec_addr(
            DEVICE_BASE_ADDRESS,
        ) == DEVICE_BASE_ADDRESS + strap_bits(a2, a1, a0),
{
    if let SlaveAddr::Alternative(a2, a1, a0) = address {
        let bits = strap_bits(a2, a1, a0);
        assert(0b111_0000u8 | bits == 0b111_0000u8 + bits) by (bit_vector)
            requires
                bits <= 7,
        ;
    }
}

} // verus!
