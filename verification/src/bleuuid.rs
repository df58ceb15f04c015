//! The 128-bit form of the short identifiers that the Bluetooth SIG assigns.

use vstd::prelude::*;

verus! {

/// The Bluetooth Base UUID, `00000000-0000-1000-8000-00805F9B34FB`.
pub const BLUETOOTH_BASE_UUID: u128 = 0x00000000_0000_1000_8000_00805f9b34fb;

/// The Heart Rate Service, short form `0x180D`.
pub const HRS_UUID: u128 = 0x0000180d_0000_1000_8000_00805f9b34fb;

/// The Heart Rate Measurement characteristic, short form `0x2A37`.
pub const HRM_UUID: u128 = 0x00002a37_0000_1000_8000_00805f9b34fb;

/// The full UUID of a 32-bit short form: the base UUID with the short form
/// in its upper 32 bits.
pub open spec fn spec_uuid_from_u32(short: u32) -> u128 {
    BLUETOOTH_BASE_UUID | ((short as u128) << 96)
}

/// The full UUID of a 16-bit short form.
pub open spec fn spec_uuid_from_u16(short: u16) -> u128 {
    spec_uuid_from_u32(short as u32)
}

/// Expands a 32-bit short form to the full 128 bits.
pub fn uuid_from_u32(short: u32) -> (uuid: u128)
    ensures
        uuid == spec_uuid_from_u32(short),
{
    BLUETOOTH_BASE_UUID | ((short as u128) << 96)
}

/// Expands a 16-bit short form to the full 128 bits.
pub fn uuid_from_u16(short: u16) -> (uuid: u128)
    ensures
        uuid == spec_uuid_from_u16(short),
{
    uuid_from_u32(short as u32)
}

/// The short form fills the upper 32 bits of the base UUID, which are zero:
/// the expansion adds `short * 2^96` to the base.
pub proof fn lemma_uuid_from_u32(short: u32)
    ensures
        spec_uuid_from_u32(short) == BLUETOOTH_BASE_UUID + short * 0x1_0000_0000_0000_0000_0000_0000,
{
    assert((0x00000000_0000_1000_8000_00805f9b34fbu128 | ((short as u128) << 96))
        == 0x00000000_0000_1000_8000_00805f9b34fbu128 + (short as u128)
        * 0x1_0000_0000_0000_0000_0000_0000u128) by (bit_vector);
}

/// The two identifiers of this library are the expansions of `0x180D` and
/// `0x2A37`.
pub proof fn lemma_heart_rate_uuids()
    ensures
        HRS_UUID == spec_uuid_from_u16(0x180D),
        HRM_UUID == spec_uuid_from_u16(0x2A37),
        HRS_UUID != HRM_UUID,
{
    lemma_uuid_from_u32(0x180D);
    lemma_uuid_from_u32(0x2A37);
}

} // verus!
