//! The Heart Rate Measurement characteristic and its decoder.
//!
//! A notification payload starts with a flags byte; the fields that follow
//! depend on it, each little-endian and in a fixed order: the heart rate (one
//! or two bytes), the energy expended (two bytes, optional) and one
//! RR-interval (two bytes, optional).

use vstd::prelude::*;
use vstd::string::StringExecFns;
use crate::text::decimal;
use crate::text::decimal_string;

verus! {

/// Flag bit 0: the heart rate is a 16-bit value.
pub const HEART_RATE_16BIT: u8 = 0x01;

/// Flag bit 1: the sensor has skin contact. Meaningful only with bit 2.
pub const SENSOR_CONTACT_STATUS: u8 = 0x02;

/// Flag bit 2: the sensor can report skin contact.
pub const SENSOR_CONTACT_SUPPORT: u8 = 0x04;

/// Flag bit 3: the energy expended field is present.
pub const ENERGY_EXPENDED_SUPPORT: u8 = 0x08;

/// Flag bit 4: an RR-interval field is present.
pub const RR_INTERVAL_SUPPORT: u8 = 0x10;

/// An RR-interval in units of 1/1024 second. The value is never zero.
#[derive(Clone, Copy, Debug)]
pub struct RrInterval {
    ticks: u16,
}

impl RrInterval {
    #[verifier::type_invariant]
    spec fn nonzero(self) -> bool {
        self.ticks != 0
    }

    /// The interval of `ticks` units; zero is no interval.
    pub closed spec fn spec_new(ticks: u16) -> Option<RrInterval> {
        if ticks == 0 {
            None
        } else {
            Some(RrInterval { ticks })
        }
    }

    /// The number of 1/1024 second units.
    pub closed spec fn spec_get(self) -> u16 {
        self.ticks
    }

    /// The interval in whole milliseconds, rounded down.
    pub open spec fn spec_millis(self) -> int {
        self.spec_get() * 1000 / 1024
    }

    /// `spec_new` gives no interval for zero and, for any other number, the
    /// one interval that holds it.
    pub proof fn lemma_spec_new(ticks: u16)
        ensures
            Self::spec_new(ticks) is None <==> ticks == 0,
            Self::spec_new(ticks) matches Some(t) ==> t.spec_get() == ticks,
    {
    }

    /// Two intervals of the same number of units are the same interval.
    pub proof fn lemma_spec_get_injective(a: RrInterval, b: RrInterval)
        requires
            a.spec_get() == b.spec_get(),
        ensures
            a == b,
    {
    }

    /// `None` for zero; otherwise the interval of `ticks` units.
    pub fn new(ticks: u16) -> (r: Option<RrInterval>)
        ensures
            r == Self::spec_new(ticks),
            r is None <==> ticks == 0,
            r matches Some(t) ==> t.spec_get() == ticks,
    {
        if ticks == 0 {
            None
        } else {
            Some(RrInterval { ticks })
        }
    }

    /// The number of 1/1024 second units, never zero.
    pub fn get(self) -> (ticks: u16)
        ensures
            ticks == self.spec_get(),
            ticks != 0,
    {
        proof {
            use_type_invariant(&self);
        }
        self.ticks
    }

    /// The interval in whole milliseconds, rounded down.
    pub fn millis(self) -> (ms: u32)
        ensures
            ms == self.spec_millis(),
            ms < 64000,
    {
        let ticks: u32 = self.ticks as u32;
        ticks * 1000 / 1024
    }
}

/// One decoded Heart Rate Measurement notification.
#[derive(Clone, Copy, Debug)]
pub struct HeartRateMeasurement {
    /// Unit: beats per minute.
    pub heart_rate: u16,
    /// Whether the sensor has skin contact, where the sensor can tell.
    pub sensor_contact: Option<bool>,
    /// Unit: kilojoules.
    pub energy_expended: Option<u16>,
    /// Unit: 1/1024 second.
    pub rr_interval: Option<RrInterval>,
}

/// Whether every bit of `flag` is set in `flags`.
pub open spec fn flag_set(flags: u8, flag: u8) -> bool {
    flags & flag == flag
}

/// The 16-bit value whose little-endian representation is `lo`, `hi`.
pub open spec fn le_u16(lo: u8, hi: u8) -> u16 {
    (lo as int + 256 * (hi as int)) as u16
}

/// The number of bytes of the heart rate field.
pub open spec fn heart_rate_width(flags: u8) -> int {
    if flag_set(flags, HEART_RATE_16BIT) {
        2
    } else {
        1
    }
}

/// The number of bytes of the energy expended field.
pub open spec fn energy_width(flags: u8) -> int {
    if flag_set(flags, ENERGY_EXPENDED_SUPPORT) {
        2
    } else {
        0
    }
}

/// The number of bytes of the RR-interval field.
pub open spec fn rr_width(flags: u8) -> int {
    if flag_set(flags, RR_INTERVAL_SUPPORT) {
        2
    } else {
        0
    }
}

/// The number of bytes that a payload with these flags must at least have:
/// the flags byte and every field that the flags announce.
pub open spec fn required_len(flags: u8) -> int {
    1 + heart_rate_width(flags) + energy_width(flags) + rr_width(flags)
}

/// What a payload decodes to. `None` is a rejection: the payload is empty or
/// ends before a field that its flags announce. Bytes after the announced
/// fields are ignored.
pub open spec fn decode(raw: Seq<u8>) -> Option<HeartRateMeasurement> {
    if raw.len() == 0 || raw.len() < required_len(raw[0]) {
        None
    } else {
        let flags = raw[0];
        let energy_at = 1 + heart_rate_width(flags);
        let rr_at = energy_at + energy_width(flags);
        Some(
            HeartRateMeasurement {
                heart_rate: if flag_set(flags, HEART_RATE_16BIT) {
                    le_u16(raw[1], raw[2])
                } else {
                    raw[1] as u16
                },
                sensor_contact: if flag_set(flags, SENSOR_CONTACT_SUPPORT) {
                    Some(flag_set(flags, SENSOR_CONTACT_STATUS))
                } else {
                    None
                },
                energy_expended: if flag_set(flags, ENERGY_EXPENDED_SUPPORT) {
                    Some(le_u16(raw[energy_at], raw[energy_at + 1]))
                } else {
                    None
                },
                rr_interval: if flag_set(flags, RR_INTERVAL_SUPPORT) {
                    RrInterval::spec_new(le_u16(raw[rr_at], raw[rr_at + 1]))
                } else {
                    None
                },
            },
        )
    }
}

/// A number with its unit, or `N/A` where there is no number.
pub open spec fn quantity_text(value: Option<nat>, unit: Seq<char>) -> Seq<char> {
    match value {
        Some(n) => decimal(n) + unit,
        None => "N/A"@,
    }
}

/// The text of a sensor contact.
pub open spec fn contact_text(contact: Option<bool>) -> Seq<char> {
    match contact {
        Some(true) => "true"@,
        Some(false) => "false"@,
        None => "N/A"@,
    }
}

/// The whole milliseconds of an interval, if there is one.
pub open spec fn interval_millis(interval: Option<RrInterval>) -> Option<nat> {
    match interval {
        Some(r) => Some(r.spec_millis() as nat),
        None => None,
    }
}

/// An optional 16-bit number as an optional natural number.
pub open spec fn some_nat(value: Option<u16>) -> Option<nat> {
    match value {
        Some(v) => Some(v as nat),
        None => None,
    }
}

/// A measurement as text of four lines, each ended by a newline: the heart
/// rate, the sensor contact, the energy expended and the RR-interval in
/// milliseconds.
pub open spec fn measurement_text(m: HeartRateMeasurement) -> Seq<char> {
    "Heart rate: "@ + quantity_text(Some(m.heart_rate as nat), " bpm"@) + "\n"@
        + "Sensor contact: "@ + contact_text(m.sensor_contact) + "\n"@ + "Energy expended: "@
        + quantity_text(some_nat(m.energy_expended), " kJ"@) + "\n"@ + "RR-Interval: "@
        + quantity_text(interval_millis(m.rr_interval), " ms"@) + "\n"@
}

fn display_or_na(value: Option<u32>, unit: &str) -> (s: String)
    ensures
        s@ == quantity_text(
            match value {
                Some(v) => Some(v as nat),
                None => None,
            },
            unit@,
        ),
{
    match value {
        Some(v) => decimal_string(v).concat(unit),
        None => String::from_str("N/A"),
    }
}

/// A payload holds as many bytes as its flags announce exactly where it is
/// decoded, and the decoder reads no byte after them: what follows the
/// announced fields does not change the reading.
pub proof fn lemma_decode_ignores_tail(raw: Seq<u8>, tail: Seq<u8>)
    ensures
        decode(raw) is Some <==> raw.len() > 0 && raw.len() >= required_len(raw[0]),
        decode(raw) is Some ==> decode(raw + tail) == decode(raw),
{
    if decode(raw) is Some {
        let longer = raw + tail;
        assert(forall|i: int| 0 <= i < raw.len() ==> longer[i] == raw[i]);
        assert(longer[0] == raw[0]);
    }
}

/// An RR-interval field of zero is decoded as no interval, and every other
/// as the interval of that value.
pub proof fn lemma_decode_rr_interval(raw: Seq<u8>)
    requires
        decode(raw) is Some,
    ensures
        ({
            let at = 1 + heart_rate_width(raw[0]) + energy_width(raw[0]);
            let value = le_u16(raw[at], raw[at + 1]);
            let interval = decode(raw)->0.rr_interval;
            &&& interval is Some <==> flag_set(raw[0], RR_INTERVAL_SUPPORT) && value != 0
            &&& interval matches Some(r) ==> r.spec_get() == value
        }),
{
    let at = 1 + heart_rate_width(raw[0]) + energy_width(raw[0]);
    RrInterval::lemma_spec_new(le_u16(raw[at], raw[at + 1]));
}

fn check_flag(flags: u8, flag: u8) -> (b: bool)
    ensures
        b == flag_set(flags, flag),
{
    flags & flag == flag
}

/// The little-endian 16-bit value at `at`, if the payload has two bytes there.
fn next_u16(raw: &[u8], at: usize) -> (r: Option<u16>)
    requires
        at <= raw@.len(),
    ensures
        r is Some <==> at + 2 <= raw@.len(),
        r matches Some(v) ==> v == le_u16(raw@[at as int], raw@[at + 1]),
{
    if raw.len() - at < 2 {
        None
    } else {
        let lo: u16 = raw[at] as u16;
        let hi: u16 = raw[at + 1] as u16;
        Some(lo + 256 * hi)
    }
}

impl HeartRateMeasurement {
    /// Decodes a notification payload. A payload that is empty, or that ends
    /// before a field announced by its flags, is rejected with `None`; nothing
    /// is returned in part.
    pub fn parse(raw: &[u8]) -> (r: Option<HeartRateMeasurement>)
        ensures
            r == decode(raw@),
    {
        if raw.len() == 0 {
            return None;
        }
        let flags = raw[0];
        let mut at: usize = 1;
        let heart_rate: u16 = if check_flag(flags, HEART_RATE_16BIT) {
            match next_u16(raw, at) {
                Some(v) => {
                    at = at + 2;
                    v
                },
                None => {
                    return None;
                },
            }
        } else {
            if raw.len() < 2 {
                return None;
            }
            at = at + 1;
            raw[1] as u16
        };
        let sensor_contact = if check_flag(flags, SENSOR_CONTACT_SUPPORT) {
            Some(check_flag(flags, SENSOR_CONTACT_STATUS))
        } else {
            None
        };
        let energy_expended = if check_flag(flags, ENERGY_EXPENDED_SUPPORT) {
            match next_u16(raw, at) {
                Some(v) => {
                    at = at + 2;
                    Some(v)
                },
                None => {
                    return None;
                },
            }
        } else {
            None
        };
        let rr_interval = if check_flag(flags, RR_INTERVAL_SUPPORT) {
            match next_u16(raw, at) {
                Some(v) => RrInterval::new(v),
                None => {
                    return None;
                },
            }
        } else {
            None
        };
        Some(HeartRateMeasurement { heart_rate, sensor_contact, energy_expended, rr_interval })
    }

    /// The measurement as text of four lines, each ended by a newline.
    pub fn to_string(&self) -> (s: String)
        ensures
            s@ == measurement_text(*self),
    {
        let energy: Option<u32> = match self.energy_expended {
            Some(e) => Some(e as u32),
            None => None,
        };
        let interval: Option<u32> = match self.rr_interval {
            Some(r) => Some(r.millis()),
            None => None,
        };
        let contact = match self.sensor_contact {
            Some(true) => "true",
            Some(false) => "false",
            None => "N/A",
        };
        let mut s = String::from_str("Heart rate: ");
        s.append(display_or_na(Some(self.heart_rate as u32), " bpm").as_str());
        s.append("\n");
        s.append("Sensor contact: ");
        s.append(contact);
        s.append("\n");
        s.append("Energy expended: ");
        s.append(display_or_na(energy, " kJ").as_str());
        s.append("\n");
        s.append("RR-Interval: ");
        s.append(display_or_na(interval, " ms").as_str());
        s.append("\n");
        s
    }
}

} // verus!
