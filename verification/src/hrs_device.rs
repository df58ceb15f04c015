//! The record of a discovered peripheral that offers the Heart Rate Service.

use vstd::prelude::*;
use vstd::std_specs::cmp::PartialEqSpecImpl;
use crate::bdaddr::address_text;
use crate::bdaddr::BDAddr;
use crate::bleuuid::HRM_UUID;
use crate::bleuuid::HRS_UUID;
use crate::controller::outcome::FailureKind;
use crate::hrm::decode;
use crate::hrm::HeartRateMeasurement;

verus! {

/// How a device address was assigned.
#[derive(Clone, Copy, Debug, PartialEq, Eq, Structural)]
pub enum AddressType {
    Random,
    Public,
}

/// What a device record holds.
pub struct DeviceView {
    pub address: BDAddr,
    pub name: Option<Seq<char>>,
    pub address_type: Option<AddressType>,
}

/// A Bluetooth device that offers the Heart Rate Service. Two records with
/// the same address are the same device.
#[derive(Debug)]
pub struct HrsDevice {
    name: Option<String>,
    address_type: Option<AddressType>,
    address: BDAddr,
}

/// The characters of an optional text.
pub open spec fn text_view(text: Option<String>) -> Option<Seq<char>> {
    match text {
        Some(s) => Some(s@),
        None => None,
    }
}

/// A characteristic of a connected device: its own UUID and that of the
/// service it belongs to.
#[derive(Clone, Copy, Debug, PartialEq, Eq, Structural)]
pub struct Characteristic {
    pub uuid: u128,
    pub service_uuid: u128,
}

/// Whether a characteristic is the Heart Rate Measurement of the Heart Rate
/// Service.
pub open spec fn is_measurement(characteristic: Characteristic) -> bool {
    characteristic.service_uuid == HRS_UUID && characteristic.uuid == HRM_UUID
}

/// Whether `at` is the position of the first Heart Rate Measurement in
/// `list`, or `None` where the list holds none.
pub open spec fn is_first_measurement(list: Seq<Characteristic>, at: Option<usize>) -> bool {
    match at {
        Some(i) => {
            &&& i < list.len()
            &&& is_measurement(list[i as int])
            &&& forall|j: int| 0 <= j < i ==> !is_measurement(#[trigger] list[j])
        },
        None => forall|j: int| 0 <= j < list.len() ==> !is_measurement(#[trigger] list[j]),
    }
}

/// What a notification means for the heart rate stream: nothing (`None`)
/// where it comes from another characteristic, else the decoded payload,
/// which is `Some(None)` for a payload that the decoder rejects.
pub open spec fn notification_reading(uuid: u128, value: Seq<u8>) -> Option<
    Option<HeartRateMeasurement>,
> {
    if uuid == HRM_UUID {
        Some(decode(value))
    } else {
        None
    }
}

/// The text that stands for a device: its name, or its address where it has
/// no name.
pub open spec fn device_text(device: DeviceView) -> Seq<char> {
    match device.name {
        Some(name) => name,
        None => address_text(device.address@),
    }
}

fn contains(list: &[u128], uuid: u128) -> (found: bool)
    ensures
        found == list@.contains(uuid),
{
    let mut i: usize = 0;
    while i < list.len()
        invariant
            i <= list@.len(),
            forall|j: int| 0 <= j < i ==> list@[j] != uuid,
        decreases list@.len() - i,
    {
        if list[i] == uuid {
            return true;
        }
        i = i + 1;
    }
    false
}

impl View for HrsDevice {
    type V = DeviceView;

    closed spec fn view(&self) -> DeviceView {
        DeviceView {
            address: self.address,
            name: text_view(self.name),
            address_type: self.address_type,
        }
    }
}

impl HrsDevice {
    /// The record of a peripheral with these properties: there is one
    /// exactly where the peripheral advertises the Heart Rate Service.
    pub fn from_properties(
        address: BDAddr,
        local_name: Option<String>,
        address_type: Option<AddressType>,
        services: &[u128],
    ) -> (r: Option<HrsDevice>)
        ensures
            r is Some <==> services@.contains(HRS_UUID),
            r matches Some(device) ==> device@ == (DeviceView {
                address,
                name: text_view(local_name),
                address_type,
            }),
    {
        if contains(services, HRS_UUID) {
            Some(HrsDevice { name: local_name, address_type, address })
        } else {
            None
        }
    }

    pub fn address(&self) -> (r: BDAddr)
        ensures
            r == self@.address,
    {
        self.address
    }

    pub fn address_type(&self) -> (r: Option<AddressType>)
        ensures
            r == self@.address_type,
    {
        self.address_type
    }

    pub fn name(&self) -> (r: Option<&str>)
        ensures
            r is Some <==> self@.name is Some,
            r matches Some(s) ==> self@.name == Some(s@),
    {
        match &self.name {
            Some(s) => Some(s.as_str()),
            None => None,
        }
    }

    /// The text that stands for the device: its name, or its address where
    /// it has no name.
    pub fn to_string(&self) -> (s: String)
        ensures
            s@ == device_text(self@),
    {
        match &self.name {
            Some(name) => name.clone(),
            None => self.address.to_string(),
        }
    }

    /// Among the characteristics of a connected device, in the order in
    /// which the device lists them, the first that is the Heart Rate
    /// Measurement of the Heart Rate Service: the one to subscribe to.
    pub fn measurement_characteristic(characteristics: &[Characteristic]) -> (at: Option<usize>)
        ensures
            is_first_measurement(characteristics@, at),
    {
        let mut i: usize = 0;
        while i < characteristics.len()
            invariant
                i <= characteristics@.len(),
                forall|j: int| 0 <= j < i ==> !is_measurement(#[trigger] characteristics@[j]),
            decreases characteristics@.len() - i,
        {
            if characteristics[i].service_uuid == HRS_UUID && characteristics[i].uuid == HRM_UUID {
                return Some(i);
            }
            i = i + 1;
        }
        None
    }

    /// The characteristic to subscribe to, as `measurement_characteristic`
    /// finds it. A device that lists no Heart Rate Measurement cannot be
    /// subscribed to: that is a failed subscription.
    pub fn measurement_target(characteristics: &[Characteristic]) -> (r: Result<
        usize,
        FailureKind,
    >)
        ensures
            match r {
                Ok(i) => is_first_measurement(characteristics@, Some(i)),
                Err(kind) => kind == FailureKind::SubscribeFailed && is_first_measurement(
                    characteristics@,
                    None,
                ),
            },
    {
        match HrsDevice::measurement_characteristic(characteristics) {
            Some(i) => Ok(i),
            None => Err(FailureKind::SubscribeFailed),
        }
    }

    /// What the notification of characteristic `uuid` with payload `value`
    /// adds to the stream of readings.
    pub fn notification(uuid: u128, value: &[u8]) -> (r: Option<Option<HeartRateMeasurement>>)
        ensures
            r == notification_reading(uuid, value@),
    {
        if uuid == HRM_UUID {
            Some(HeartRateMeasurement::parse(value))
        } else {
            None
        }
    }
}

impl Clone for HrsDevice {
    /// A record that holds the same as this one.
    fn clone(&self) -> (r: HrsDevice)
        ensures
            r@ == self@,
    {
        let name = match &self.name {
            Some(text) => Some(text.clone()),
            None => None,
        };
        HrsDevice { name, address_type: self.address_type, address: self.address }
    }
}

impl PartialEqSpecImpl for HrsDevice {
    open spec fn obeys_eq_spec() -> bool {
        true
    }

    open spec fn eq_spec(&self, other: &HrsDevice) -> bool {
        self@.address == other@.address
    }
}

impl PartialEq for HrsDevice {
    /// Two records are equal where their addresses are.
    fn eq(&self, other: &HrsDevice) -> (r: bool) {
        self.address == other.address
    }
}

impl Eq for HrsDevice {

}

} // verus!
