//! Bluetooth's short identifiers, expanded to their 128-bit form.

use vstd::prelude::*;

verus! {

/// The Bluetooth base identifier, into which short identifiers are set.
pub const BLUETOOTH_BASE_UUID: u128 = 0x00000000_0000_1000_8000_00805f9b34fb;

/// The 128-bit identifier of the characteristic that takes the
/// controller's commands: the short identifier 0xFFF3 on the Bluetooth base.
pub const LIGHT_CHARACTERISTIC_UUID: u128 = 0x0000fff3_0000_1000_8000_00805f9b34fb;

/// A 16-bit short identifier set into the top 32 bits of the base.
pub open spec fn expanded(short: u16) -> u128 {
    BLUETOOTH_BASE_UUID | ((short as u128) << 96)
}

/// Expands a 16-bit short identifier to its full 128-bit form.
pub fn uuid_from_u16(short: u16) -> (id: u128)
    ensures
        id == expanded(short),
{
    BLUETOOTH_BASE_UUID | ((short as u128) << 96)
}

/// The light characteristic is the short identifier 0xFFF3, expanded.
pub proof fn lemma_light_characteristic_is_fff3()
    ensures
        LIGHT_CHARACTERISTIC_UUID == expanded(0xfff3),
{
    assert(0x0000fff3_0000_1000_8000_00805f9b34fbu128 == 0x00000000_0000_1000_8000_00805f9b34fbu128
        | ((0xfff3u16 as u128) << 96)) by (bit_vector);
}

} // verus!
