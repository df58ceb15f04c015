//! The one entry through which the state of the controller changes.

use vstd::prelude::*;
use crate::bleuuid::HRS_UUID;
use crate::controller::connect_violation;
use crate::controller::contains_address;
use crate::controller::disconnected;
use crate::controller::distinct_addresses;
use crate::controller::laws::lemma_push_keeps_distinct;
use crate::controller::scan_begun;
use crate::controller::step;
use crate::controller::Action;
use crate::controller::AdapterState;
use crate::controller::App;
use crate::controller::ConnectionState;
use crate::controller::ContractViolation;
use crate::controller::Message;
use crate::hrs_device::HrsDevice;

verus! {

impl App {
    /// Why a connect command must be rejected now, if it must.
    fn check_connect(&self) -> (r: Option<ContractViolation>)
        ensures
            r == connect_violation(self@),
    {
        match self.connection_state {
            ConnectionState::NotConnected => match self.selected_device {
                None => Some(ContractViolation::NoDeviceSelected),
                Some(address) => match self.position(address) {
                    Some(_) => None,
                    None => Some(ContractViolation::DeviceNotDiscovered),
                },
            },
            _ => Some(ContractViolation::NotIdle),
        }
    }

    /// Begins a new scan session: empties the registry and the selection.
    fn begin_scan(&mut self, actions: &mut Vec<Action>)
        ensures
            final(self)@ == scan_begun(old(self)@),
            final(actions)@ == old(actions)@.push(Action::StartScan(HRS_UUID)),
    {
        proof {
            use_type_invariant(&*self);
        }
        let service = self.start_scan();
        self.selected_device = None;
        self.discovered_devices = Vec::new();
        actions.push(Action::StartScan(service));
        assert(self@.discovered_devices =~= Seq::empty());
    }

    /// Makes the disconnect transition.
    fn drop_connection(&mut self, actions: &mut Vec<Action>)
        ensures
            final(self)@ == disconnected(old(self)@).0,
            final(actions)@ == old(actions)@ + disconnected(old(self)@).1,
    {
        proof {
            use_type_invariant(&*self);
        }
        self.connection_state = ConnectionState::NotConnected;
        self.heart_rate = None;
        if self.adapter_state == AdapterState::PoweredOn {
            self.begin_scan(actions);
        }
        assert(actions@ =~= old(actions)@ + disconnected(old(self)@).1);
    }

    /// Adds a record to the registry unless one of its address is there.
    fn register(&mut self, device: HrsDevice)
        ensures
            final(self)@ == (if contains_address(old(self)@.discovered_devices, device@.address) {
                old(self)@
            } else {
                crate::controller::AppView {
                    discovered_devices: old(self)@.discovered_devices.push(device@),
                    ..old(self)@
                }
            }),
    {
        proof {
            use_type_invariant(&*self);
        }
        if self.position(device.address()).is_none() {
            let ghost before = self@.discovered_devices;
            let ghost record = device@;
            // The registry is taken out, extended and put back: it is never
            // borrowed while it could hold an address twice.
            let mut devices: Vec<HrsDevice> = Vec::new();
            assert(devices@.map_values(|d: HrsDevice| d@) =~= Seq::empty());
            core::mem::swap(&mut self.discovered_devices, &mut devices);
            devices.push(device);
            proof {
                assert(devices@.map_values(|d: HrsDevice| d@) =~= before.push(record));
                lemma_push_keeps_distinct(before, record);
            }
            core::mem::swap(&mut self.discovered_devices, &mut devices);
        }
    }

    /// Processes one message: the state becomes the one that `step` gives,
    /// and the operations that `step` gives are returned for the caller to
    /// perform, in their order. A connect command that violates its contract
    /// is rejected with the reason, and changes nothing.
    pub fn update(&mut self, message: Message) -> (r: Result<Vec<Action>, ContractViolation>)
        ensures
            match step(old(self)@, message@) {
                Ok((next, actions)) => final(self)@ == next && r is Ok && r->Ok_0@ == actions,
                Err(violation) => final(self)@ == old(self)@ && r == Err::<
                    Vec<Action>,
                    ContractViolation,
                >(violation),
            },
            distinct_addresses(final(self)@.discovered_devices),
    {
        proof {
            use_type_invariant(&*self);
        }
        let mut actions: Vec<Action> = Vec::new();
        match message {
            Message::Exit => {
                if let Some(address) = self.disconnect() {
                    actions.push(Action::Disconnect(address));
                }
                actions.push(Action::Exit);
            },
            Message::SelectDevice(address) => {
                self.selected_device = Some(address);
            },
            Message::ConnectDevice => {
                if let Some(violation) = self.check_connect() {
                    return Err(violation);
                }
                let target = self.connect();
                self.connection_state = ConnectionState::Connecting;
                actions.push(Action::Connect(target));
            },
            Message::DisconnectDevice => {
                if let Some(address) = self.disconnect() {
                    actions.push(Action::Disconnect(address));
                    self.drop_connection(&mut actions);
                }
            },
            Message::ScanDevice(start) => {
                if start {
                    self.begin_scan(&mut actions);
                } else {
                    actions.push(Action::StopScan);
                }
            },
            Message::AdapterStateUpdated(state) => {
                self.adapter_state = state;
                if state == AdapterState::PoweredOn {
                    self.begin_scan(&mut actions);
                } else if self.disconnect().is_some() {
                    self.connection_state = ConnectionState::NotConnected;
                    self.heart_rate = None;
                }
            },
            Message::ConnectionStateUpdated(state) => {
                self.connection_state = state;
                if let ConnectionState::Connected(_) = state {
                    let target = self.subscribe();
                    actions.push(Action::StopScan);
                    actions.push(Action::Subscribe(target));
                }
            },
            Message::DiscoveredDevice(device) => {
                self.register(device);
            },
            Message::DeviceDisconnected => {
                self.drop_connection(&mut actions);
            },
            Message::HeartRateUpdated(reading) => {
                self.heart_rate = Some(reading);
            },
            Message::ErrorOccurred(text) => {
                self.last_error = Some(text);
                actions.push(Action::RequestAttention);
            },
        }
        proof {
            use_type_invariant(&*self);
            assert(actions@ =~= step(old(self)@, message@)->Ok_0.1);
        }
        Ok(actions)
    }
}

} // verus!
