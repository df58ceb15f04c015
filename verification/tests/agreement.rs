use btleplug::api::bleuuid;
use hr_view::bdaddr::BDAddr;
use hr_view::bleuuid::uuid_from_u16;
use hr_view::bleuuid::uuid_from_u32;
use hr_view::bleuuid::HRM_UUID;
use hr_view::bleuuid::HRS_UUID;

#[test]
fn short_uuids_expand_as_in_btleplug() {
    for short in 0..=u16::MAX {
        assert_eq!(uuid_from_u16(short), bleuuid::uuid_from_u16(short).as_u128());
    }
    for short in [0u32, 1, 0x180D, 0x0001_0000, 0x1122_3344, 0x8000_0000, u32::MAX] {
        assert_eq!(uuid_from_u32(short), bleuuid::uuid_from_u32(short).as_u128());
    }
    assert_eq!(uuid::Uuid::from_u128(HRS_UUID), bleuuid::uuid_from_u16(0x180D));
    assert_eq!(uuid::Uuid::from_u128(HRM_UUID), bleuuid::uuid_from_u16(0x2A37));
}

#[test]
fn addresses_read_as_in_btleplug() {
    let mut bytes = [0u8; 6];
    for round in 0..=255u8 {
        for (i, byte) in bytes.iter_mut().enumerate() {
            *byte = round.wrapping_mul(37).wrapping_add((i as u8).wrapping_mul(51));
        }
        bytes[5] = round;
        let theirs = btleplug::api::BDAddr::from(bytes);
        let ours = BDAddr::new(bytes);
        assert_eq!(ours.to_string(), theirs.to_string());
        assert_eq!(ours.into_inner(), theirs.into_inner());
    }
}
