use hr_view::hrm::HeartRateMeasurement;
use hr_view::hrm::RrInterval;

fn interval(reading: &HeartRateMeasurement) -> Option<u16> {
    reading.rr_interval.map(|r| r.get())
}

#[test]
fn decodes_the_minimal_payload() {
    let reading = HeartRateMeasurement::parse(&[0x00, 60]).unwrap();
    assert_eq!(reading.heart_rate, 60);
    assert_eq!(reading.sensor_contact, None);
    assert_eq!(reading.energy_expended, None);
    assert_eq!(interval(&reading), None);
}

#[test]
fn decodes_a_16_bit_heart_rate() {
    let reading = HeartRateMeasurement::parse(&[0x01, 0x2C, 0x01]).unwrap();
    assert_eq!(reading.heart_rate, 300);
    assert_eq!(reading.sensor_contact, None);
    assert_eq!(reading.energy_expended, None);
    assert_eq!(interval(&reading), None);
}

#[test]
fn decodes_contact_supported_and_detected() {
    let reading = HeartRateMeasurement::parse(&[0x06, 75]).unwrap();
    assert_eq!(reading.heart_rate, 75);
    assert_eq!(reading.sensor_contact, Some(true));
}

#[test]
fn decodes_contact_supported_and_not_detected() {
    let reading = HeartRateMeasurement::parse(&[0x04, 75]).unwrap();
    assert_eq!(reading.heart_rate, 75);
    assert_eq!(reading.sensor_contact, Some(false));
}

#[test]
fn contact_status_without_support_means_nothing() {
    let reading = HeartRateMeasurement::parse(&[0x02, 75]).unwrap();
    assert_eq!(reading.sensor_contact, None);
}

#[test]
fn rejects_truncated_energy_and_rr_interval() {
    assert!(HeartRateMeasurement::parse(&[0x18, 75]).is_none());
}

#[test]
fn rejects_a_half_field() {
    assert!(HeartRateMeasurement::parse(&[0x08, 75, 0x10]).is_none());
    assert!(HeartRateMeasurement::parse(&[0x10, 75, 0x10]).is_none());
    assert!(HeartRateMeasurement::parse(&[0x18, 75, 0x10, 0x00]).is_none());
    assert!(HeartRateMeasurement::parse(&[0x18, 75, 0x10, 0x00, 0x01]).is_none());
    assert!(HeartRateMeasurement::parse(&[0x01, 0x2C]).is_none());
}

#[test]
fn rejects_a_payload_without_heart_rate() {
    assert!(HeartRateMeasurement::parse(&[0x00]).is_none());
    assert!(HeartRateMeasurement::parse(&[0x01]).is_none());
}

#[test]
fn an_rr_interval_of_zero_is_absent() {
    let reading = HeartRateMeasurement::parse(&[0x10, 75, 0x00, 0x00]).unwrap();
    assert_eq!(reading.heart_rate, 75);
    assert_eq!(interval(&reading), None);
}

#[test]
fn rejects_the_empty_payload() {
    assert!(HeartRateMeasurement::parse(&[]).is_none());
}

#[test]
fn decodes_every_field_in_order() {
    let payload = [0x1F, 0x2C, 0x01, 0x34, 0x12, 0x00, 0x04];
    let reading = HeartRateMeasurement::parse(&payload).unwrap();
    assert_eq!(reading.heart_rate, 300);
    assert_eq!(reading.sensor_contact, Some(true));
    assert_eq!(reading.energy_expended, Some(0x1234));
    assert_eq!(interval(&reading), Some(0x0400));
}

#[test]
fn the_rr_interval_follows_the_heart_rate_without_energy() {
    let reading = HeartRateMeasurement::parse(&[0x10, 75, 0x01, 0x02]).unwrap();
    assert_eq!(reading.energy_expended, None);
    assert_eq!(interval(&reading), Some(0x0201));
}

#[test]
fn reads_one_rr_interval_and_ignores_the_rest() {
    let reading = HeartRateMeasurement::parse(&[0x10, 75, 0x01, 0x02, 0x03, 0x04, 0x05]).unwrap();
    assert_eq!(interval(&reading), Some(0x0201));
    let short = HeartRateMeasurement::parse(&[0x00, 60, 0xFF, 0xFF]).unwrap();
    assert_eq!(short.heart_rate, 60);
    assert_eq!(short.energy_expended, None);
    assert_eq!(interval(&short), None);
}

#[test]
fn the_high_flag_bits_are_ignored() {
    let reading = HeartRateMeasurement::parse(&[0xE0, 60]).unwrap();
    assert_eq!(reading.heart_rate, 60);
    assert_eq!(reading.sensor_contact, None);
    assert_eq!(reading.energy_expended, None);
    assert_eq!(interval(&reading), None);
}

#[test]
fn an_interval_is_never_zero() {
    assert!(RrInterval::new(0).is_none());
    assert_eq!(RrInterval::new(1).unwrap().get(), 1);
    assert_eq!(RrInterval::new(65535).unwrap().get(), 65535);
}

#[test]
fn an_interval_in_milliseconds() {
    assert_eq!(RrInterval::new(1024).unwrap().millis(), 1000);
    assert_eq!(RrInterval::new(1).unwrap().millis(), 0);
    assert_eq!(RrInterval::new(2).unwrap().millis(), 1);
    assert_eq!(RrInterval::new(820).unwrap().millis(), 800);
    assert_eq!(RrInterval::new(65535).unwrap().millis(), 63999);
}

#[test]
fn a_measurement_as_text() {
    let minimal = HeartRateMeasurement::parse(&[0x00, 60]).unwrap();
    assert_eq!(
        minimal.to_string(),
        "Heart rate: 60 bpm\nSensor contact: N/A\nEnergy expended: N/A\nRR-Interval: N/A\n"
    );
    let full = HeartRateMeasurement::parse(&[0x1F, 0x2C, 0x01, 0x34, 0x12, 0x00, 0x04]).unwrap();
    assert_eq!(
        full.to_string(),
        "Heart rate: 300 bpm\nSensor contact: true\nEnergy expended: 4660 kJ\nRR-Interval: 1000 ms\n"
    );
    let slow = HeartRateMeasurement::parse(&[0x1E, 75, 10, 0, 64, 0]).unwrap();
    assert_eq!(
        slow.to_string(),
        "Heart rate: 75 bpm\nSensor contact: true\nEnergy expended: 10 kJ\nRR-Interval: 62 ms\n"
    );
    let no_contact = HeartRateMeasurement::parse(&[0x04, 0]).unwrap();
    assert_eq!(
        no_contact.to_string(),
        "Heart rate: 0 bpm\nSensor contact: false\nEnergy expended: N/A\nRR-Interval: N/A\n"
    );
}
