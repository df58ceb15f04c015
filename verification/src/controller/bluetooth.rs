//! The targets of the Bluetooth operations: which device an operation is
//! for, decided from the state of the controller.

use vstd::prelude::*;
use crate::bdaddr::BDAddr;
use crate::bleuuid::HRS_UUID;
use crate::controller::connect_violation;
use crate::controller::contains_address;
use crate::controller::App;
use crate::controller::ConnectionState;
use crate::hrs_device::HrsDevice;

verus! {

impl App {
    /// Where the record of `address` stands in the registry.
    pub(super) fn position(&self, address: BDAddr) -> (at: Option<usize>)
        ensures
            match at {
                Some(i) => i < self@.discovered_devices.len() && self@.discovered_devices[i as int].address
                    == address && self.discovered_devices@[i as int]@
                    == self@.discovered_devices[i as int],
                None => !contains_address(self@.discovered_devices, address),
            },
    {
        let mut i: usize = 0;
        while i < self.discovered_devices.len()
            invariant
                i <= self.discovered_devices@.len(),
                self@.discovered_devices.len() == self.discovered_devices@.len(),
                forall|j: int|
                    0 <= j < self.discovered_devices@.len() ==> self@.discovered_devices[j]
                        == (#[trigger] self.discovered_devices@[j])@,
                forall|j: int| 0 <= j < i ==> (#[trigger] self@.discovered_devices[j]).address != address,
            decreases self.discovered_devices@.len() - i,
        {
            if self.discovered_devices[i].address() == address {
                return Some(i);
            }
            i = i + 1;
        }
        None
    }

    /// The device to connect: the selected one. A connect operation may be
    /// issued only while no device is connected or being connected, and
    /// for a selected device that is in the registry.
    pub fn connect(&self) -> (target: BDAddr)
        requires
            connect_violation(self@) is None,
        ensures
            self@.selected_device == Some(target),
    {
        self.selected_device.unwrap()
    }

    /// The device to disconnect: the connected one. Where none is
    /// connected there is nothing to do.
    pub fn disconnect(&self) -> (target: Option<BDAddr>)
        ensures
            match self@.connection_state {
                ConnectionState::Connected(address) => target == Some(address),
                _ => target is None,
            },
    {
        match self.connection_state {
            ConnectionState::Connected(address) => Some(address),
            _ => None,
        }
    }

    /// The device whose Heart Rate Measurement is subscribed to: the
    /// connected one. The subscribe step is valid only while a device is
    /// connected.
    pub fn subscribe(&self) -> (target: BDAddr)
        requires
            self@.connection_state is Connected,
        ensures
            self@.connection_state == ConnectionState::Connected(target),
    {
        match self.connection_state {
            ConnectionState::Connected(address) => address,
            _ => vstd::pervasive::unreached(),
        }
    }

    /// The service that a scan is filtered by: the Heart Rate Service.
    pub fn start_scan(&self) -> (service: u128)
        ensures
            service == HRS_UUID,
    {
        HRS_UUID
    }

    /// The record of the connected device, where the registry holds it.
    pub fn connected_device(&self) -> (r: Option<&HrsDevice>)
        ensures
            match self@.connection_state {
                ConnectionState::Connected(address) => {
                    &&& r is Some <==> contains_address(self@.discovered_devices, address)
                    &&& r matches Some(device) ==> device@.address == address
                        && self@.discovered_devices.contains(device@)
                },
                _ => r is None,
            },
    {
        match self.connection_state {
            ConnectionState::Connected(address) => match self.position(address) {
                Some(i) => Some(&self.discovered_devices[i]),
                None => None,
            },
            _ => None,
        }
    }
}

} // verus!
