use hr_view::bdaddr::BDAddr;
use hr_view::bleuuid::uuid_from_u16;
use hr_view::bleuuid::uuid_from_u32;
use hr_view::bleuuid::BLUETOOTH_BASE_UUID;
use hr_view::bleuuid::HRM_UUID;
use hr_view::bleuuid::HRS_UUID;
use hr_view::controller::outcome::FailureKind;
use hr_view::hrs_device::AddressType;
use hr_view::hrs_device::Characteristic;
use hr_view::hrs_device::HrsDevice;
use hr_view::text::decimal_string;

const SOME_OTHER_SERVICE: u128 = 0x0000180f_0000_1000_8000_00805f9b34fb;

fn address(last: u8) -> BDAddr {
    BDAddr::new([0x2A, 0xCC, 0x00, 0x34, 0xFA, last])
}

#[test]
fn expands_short_uuids() {
    assert_eq!(uuid_from_u16(0x1122), 0x00001122_0000_1000_8000_00805f9b34fb);
    assert_eq!(uuid_from_u32(0x11223344), 0x11223344_0000_1000_8000_00805f9b34fb);
    assert_eq!(uuid_from_u16(0), BLUETOOTH_BASE_UUID);
    assert_eq!(uuid_from_u32(0xFFFF_FFFF), 0xffffffff_0000_1000_8000_00805f9b34fb);
}

#[test]
fn the_heart_rate_uuids() {
    assert_eq!(HRS_UUID, uuid_from_u16(0x180D));
    assert_eq!(HRM_UUID, uuid_from_u16(0x2A37));
}

#[test]
fn an_address_keeps_its_bytes() {
    let bytes = [0x00, 0xDE, 0xAD, 0xBE, 0xEF, 0x01];
    assert_eq!(BDAddr::new(bytes).into_inner(), bytes);
    assert_eq!(BDAddr::new(bytes), BDAddr::new(bytes));
    assert_ne!(address(0), address(1));
}

#[test]
fn an_address_as_text() {
    assert_eq!(address(0).to_string(), "2A:CC:00:34:FA:00");
    assert_eq!(
        BDAddr::new([0x00, 0xDE, 0xAD, 0xBE, 0xEF, 0x09]).to_string(),
        "00:DE:AD:BE:EF:09"
    );
    assert_eq!(BDAddr::new([0xFF; 6]).to_string(), "FF:FF:FF:FF:FF:FF");
    assert_eq!(
        BDAddr::new([0x01, 0x23, 0x45, 0x67, 0x89, 0xAB]).to_string(),
        "01:23:45:67:89:AB"
    );
}

#[test]
fn numbers_as_text() {
    assert_eq!(decimal_string(0), "0");
    assert_eq!(decimal_string(7), "7");
    assert_eq!(decimal_string(10), "10");
    assert_eq!(decimal_string(300), "300");
    assert_eq!(decimal_string(65535), "65535");
    assert_eq!(decimal_string(4294967295), "4294967295");
}

#[test]
fn a_record_needs_the_heart_rate_service() {
    let with = HrsDevice::from_properties(
        address(1),
        Some(String::from("Strap")),
        Some(AddressType::Random),
        &[SOME_OTHER_SERVICE, HRS_UUID],
    );
    let device = with.unwrap();
    assert_eq!(device.address(), address(1));
    assert_eq!(device.name(), Some("Strap"));
    assert_eq!(device.address_type(), Some(AddressType::Random));

    assert!(HrsDevice::from_properties(address(1), None, None, &[SOME_OTHER_SERVICE]).is_none());
    assert!(HrsDevice::from_properties(address(1), None, None, &[]).is_none());
    assert!(HrsDevice::from_properties(address(1), None, None, &[HRM_UUID]).is_none());
}

#[test]
fn records_are_equal_by_address() {
    let named = HrsDevice::from_properties(address(1), Some(String::from("Strap")), None, &[HRS_UUID])
        .unwrap();
    let unnamed =
        HrsDevice::from_properties(address(1), None, Some(AddressType::Public), &[HRS_UUID]).unwrap();
    let other = HrsDevice::from_properties(address(2), Some(String::from("Strap")), None, &[HRS_UUID])
        .unwrap();
    assert!(named == unnamed);
    assert!(named != other);
    let copy = named.clone();
    assert_eq!(copy.name(), Some("Strap"));
    assert_eq!(copy.address(), address(1));
}

#[test]
fn a_record_as_text() {
    let named = HrsDevice::from_properties(address(1), Some(String::from("Strap")), None, &[HRS_UUID])
        .unwrap();
    let unnamed = HrsDevice::from_properties(address(1), None, None, &[HRS_UUID]).unwrap();
    assert_eq!(named.to_string(), "Strap");
    assert_eq!(unnamed.to_string(), "2A:CC:00:34:FA:01");
}

#[test]
fn finds_the_measurement_characteristic() {
    let location = Characteristic { uuid: uuid_from_u16(0x2A38), service_uuid: HRS_UUID };
    let measurement = Characteristic { uuid: HRM_UUID, service_uuid: HRS_UUID };
    let elsewhere = Characteristic { uuid: HRM_UUID, service_uuid: SOME_OTHER_SERVICE };
    assert_eq!(HrsDevice::measurement_characteristic(&[]), None);
    assert_eq!(HrsDevice::measurement_characteristic(&[location]), None);
    assert_eq!(HrsDevice::measurement_characteristic(&[elsewhere, location]), None);
    assert_eq!(
        HrsDevice::measurement_characteristic(&[elsewhere, location, measurement, measurement]),
        Some(2)
    );
    assert_eq!(HrsDevice::measurement_characteristic(&[measurement]), Some(0));
}

#[test]
fn a_device_without_the_measurement_cannot_be_subscribed_to() {
    let location = Characteristic { uuid: uuid_from_u16(0x2A38), service_uuid: HRS_UUID };
    let measurement = Characteristic { uuid: HRM_UUID, service_uuid: HRS_UUID };
    let elsewhere = Characteristic { uuid: HRM_UUID, service_uuid: SOME_OTHER_SERVICE };
    assert_eq!(HrsDevice::measurement_target(&[]), Err(FailureKind::SubscribeFailed));
    assert_eq!(
        HrsDevice::measurement_target(&[elsewhere, location]),
        Err(FailureKind::SubscribeFailed)
    );
    assert_eq!(HrsDevice::measurement_target(&[location, measurement]), Ok(1));
    assert_eq!(HrsDevice::measurement_target(&[measurement, measurement]), Ok(0));
}

#[test]
fn a_notification_of_another_characteristic_is_no_reading() {
    assert!(HrsDevice::notification(uuid_from_u16(0x2A38), &[0x00, 60]).is_none());
}

#[test]
fn a_notification_of_the_measurement_is_decoded() {
    let reading = HrsDevice::notification(HRM_UUID, &[0x00, 60]).unwrap().unwrap();
    assert_eq!(reading.heart_rate, 60);
    let rejected = HrsDevice::notification(HRM_UUID, &[]).unwrap();
    assert!(rejected.is_none());
}
