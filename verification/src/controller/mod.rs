//! The connection controller: the one owner of the connection state, the
//! device registry, the selected device and the current reading.
//!
//! Every change goes through [`App::update`], one message at a time. What
//! `update` does is the transition function [`step`]: from a state and a
//! message to the next state and the operations to perform. The caller
//! performs them and reports what came of them with the messages of
//! [`outcome`].

pub mod bluetooth;
pub mod laws;
pub mod outcome;
pub mod update;

use vstd::prelude::*;
use crate::bdaddr::BDAddr;
use crate::bleuuid::HRS_UUID;
use crate::hrm::HeartRateMeasurement;
use crate::hrs_device::DeviceView;
use crate::hrs_device::HrsDevice;

verus! {

/// The power state of the Bluetooth adapter.
#[derive(Clone, Copy, Debug, PartialEq, Eq, Structural)]
pub enum AdapterState {
    Unknown,
    PoweredOn,
    PoweredOff,
}

/// Whether a device is connected, and which.
#[derive(Clone, Copy, Debug, PartialEq, Eq, Structural)]
pub enum ConnectionState {
    NotConnected,
    Connecting,
    Connected(BDAddr),
}

impl Default for ConnectionState {
    fn default() -> (r: ConnectionState)
        ensures
            r == ConnectionState::NotConnected,
    {
        ConnectionState::NotConnected
    }
}

/// A command of the user or an event of the adapter, of a device or of an
/// operation that has ended.
#[derive(Debug)]
pub enum Message {
    /// The program shuts down.
    Exit,
    /// The user has chosen a device of the registry.
    SelectDevice(BDAddr),
    /// The user asks to connect the selected device.
    ConnectDevice,
    /// The user asks to disconnect; also sent after a failed subscription.
    DisconnectDevice,
    /// Start (`true`) or stop (`false`) scanning.
    ScanDevice(bool),
    /// The adapter reports its power state.
    AdapterStateUpdated(AdapterState),
    /// A connect operation has begun or ended.
    ConnectionStateUpdated(ConnectionState),
    /// The scan has found a device that offers the Heart Rate Service.
    DiscoveredDevice(HrsDevice),
    /// The adapter reports that a device has disconnected, or the stream of
    /// notifications has ended.
    DeviceDisconnected,
    /// A notification has been decoded.
    HeartRateUpdated(HeartRateMeasurement),
    /// An operation has failed, or a notification was rejected.
    ErrorOccurred(String),
}

/// What a message holds.
pub enum MessageView {
    Exit,
    SelectDevice(BDAddr),
    ConnectDevice,
    DisconnectDevice,
    ScanDevice(bool),
    AdapterStateUpdated(AdapterState),
    ConnectionStateUpdated(ConnectionState),
    DiscoveredDevice(DeviceView),
    DeviceDisconnected,
    HeartRateUpdated(HeartRateMeasurement),
    ErrorOccurred(Seq<char>),
}

impl View for Message {
    type V = MessageView;

    open spec fn view(&self) -> MessageView {
        match *self {
            Message::Exit => MessageView::Exit,
            Message::SelectDevice(address) => MessageView::SelectDevice(address),
            Message::ConnectDevice => MessageView::ConnectDevice,
            Message::DisconnectDevice => MessageView::DisconnectDevice,
            Message::ScanDevice(start) => MessageView::ScanDevice(start),
            Message::AdapterStateUpdated(state) => MessageView::AdapterStateUpdated(state),
            Message::ConnectionStateUpdated(state) => MessageView::ConnectionStateUpdated(state),
            Message::DiscoveredDevice(device) => MessageView::DiscoveredDevice(device@),
            Message::DeviceDisconnected => MessageView::DeviceDisconnected,
            Message::HeartRateUpdated(reading) => MessageView::HeartRateUpdated(reading),
            Message::ErrorOccurred(text) => MessageView::ErrorOccurred(text@),
        }
    }
}

impl Clone for Message {
    /// A message that holds the same as this one.
    fn clone(&self) -> (r: Message)
        ensures
            r@ == self@,
    {
        match self {
            Message::Exit => Message::Exit,
            Message::SelectDevice(address) => Message::SelectDevice(*address),
            Message::ConnectDevice => Message::ConnectDevice,
            Message::DisconnectDevice => Message::DisconnectDevice,
            Message::ScanDevice(start) => Message::ScanDevice(*start),
            Message::AdapterStateUpdated(state) => Message::AdapterStateUpdated(*state),
            Message::ConnectionStateUpdated(state) => Message::ConnectionStateUpdated(*state),
            Message::DiscoveredDevice(device) => Message::DiscoveredDevice(device.clone()),
            Message::DeviceDisconnected => Message::DeviceDisconnected,
            Message::HeartRateUpdated(reading) => Message::HeartRateUpdated(*reading),
            Message::ErrorOccurred(text) => Message::ErrorOccurred(text.clone()),
        }
    }
}

/// What a sequence of messages holds, message by message.
pub open spec fn message_views(messages: Seq<Message>) -> Seq<MessageView> {
    messages.map_values(|m: Message| m@)
}

/// An operation that `update` asks its caller to perform.
#[derive(Clone, Copy, Debug, PartialEq, Eq, Structural)]
pub enum Action {
    /// Connect the device of this address, and report the end of the
    /// operation with `outcome::connect_finished`.
    Connect(BDAddr),
    /// Disconnect the device of this address, and report the end of the
    /// operation with `outcome::disconnect_finished`.
    Disconnect(BDAddr),
    /// Enable the notifications of the Heart Rate Measurement of the device
    /// of this address; report the end of the operation with
    /// `outcome::subscribe_finished` and then each item of the stream with
    /// `outcome::stream_item`.
    Subscribe(BDAddr),
    /// Scan for the peripherals that advertise the service of this UUID, and
    /// report the end of the operation with `outcome::scan_finished`.
    StartScan(u128),
    /// Stop scanning, and report the end of the operation with
    /// `outcome::scan_finished`.
    StopScan,
    /// Draw the user's attention to the error message.
    RequestAttention,
    /// Terminate the program. Nothing is reported after it.
    Exit,
}

/// A command that its sender had no right to send. It is rejected, and
/// changes nothing.
#[derive(Clone, Copy, Debug, PartialEq, Eq, Structural)]
pub enum ContractViolation {
    /// A connect command while a device is connected or being connected.
    NotIdle,
    /// A connect command while no device is selected.
    NoDeviceSelected,
    /// A connect command while the selected device is not in the registry.
    DeviceNotDiscovered,
}

/// The state of the controller.
pub struct AppView {
    pub adapter_state: AdapterState,
    pub connection_state: ConnectionState,
    /// The registry, in the order of discovery.
    pub discovered_devices: Seq<DeviceView>,
    pub selected_device: Option<BDAddr>,
    /// The most recent reading.
    pub heart_rate: Option<HeartRateMeasurement>,
    /// The text of the most recent error.
    pub last_error: Option<Seq<char>>,
}

/// Whether a record of this address is in the registry.
pub open spec fn contains_address(devices: Seq<DeviceView>, address: BDAddr) -> bool {
    exists|i: int| 0 <= i < devices.len() && (#[trigger] devices[i]).address == address
}

/// Whether no two records of the registry have the same address.
pub open spec fn distinct_addresses(devices: Seq<DeviceView>) -> bool {
    forall|i: int, j: int|
        0 <= i < j < devices.len() ==> (#[trigger] devices[i]).address != (
        #[trigger] devices[j]).address
}

/// The state in which the controller starts.
pub open spec fn initial(adapter_state: AdapterState) -> AppView {
    AppView {
        adapter_state,
        connection_state: ConnectionState::NotConnected,
        discovered_devices: Seq::empty(),
        selected_device: None,
        heart_rate: None,
        last_error: None,
    }
}

/// Why a connect command must be rejected in state `s`, if it must.
pub open spec fn connect_violation(s: AppView) -> Option<ContractViolation> {
    if s.connection_state != ConnectionState::NotConnected {
        Some(ContractViolation::NotIdle)
    } else {
        match s.selected_device {
            None => Some(ContractViolation::NoDeviceSelected),
            Some(address) => if contains_address(s.discovered_devices, address) {
                None
            } else {
                Some(ContractViolation::DeviceNotDiscovered)
            },
        }
    }
}

/// The state after a new scan session has begun: the registry and the
/// selection are empty.
pub open spec fn scan_begun(s: AppView) -> AppView {
    AppView { discovered_devices: Seq::empty(), selected_device: None, ..s }
}

/// The state after the connection has gone: no device is connected and
/// there is no current reading.
pub open spec fn connection_dropped(s: AppView) -> AppView {
    AppView { connection_state: ConnectionState::NotConnected, heart_rate: None, ..s }
}

/// The disconnect transition: the connection has gone, and scanning starts
/// again where the adapter is powered on.
pub open spec fn disconnected(s: AppView) -> (AppView, Seq<Action>) {
    if s.adapter_state == AdapterState::PoweredOn {
        (scan_begun(connection_dropped(s)), seq![Action::StartScan(HRS_UUID)])
    } else {
        (connection_dropped(s), Seq::empty())
    }
}

/// The transition function: the state that follows `s` on message `m` and
/// the operations to perform, in their order; or the reason for which `m` is
/// rejected in `s`.
pub open spec fn step(s: AppView, m: MessageView) -> Result<
    (AppView, Seq<Action>),
    ContractViolation,
> {
    match m {
        MessageView::Exit => Ok(
            (
                s,
                match s.connection_state {
                    ConnectionState::Connected(address) => seq![
                        Action::Disconnect(address),
                        Action::Exit,
                    ],
                    _ => seq![Action::Exit],
                },
            ),
        ),
        MessageView::SelectDevice(address) => Ok(
            (AppView { selected_device: Some(address), ..s }, Seq::empty()),
        ),
        MessageView::ConnectDevice => match connect_violation(s) {
            Some(violation) => Err(violation),
            None => Ok(
                (
                    AppView { connection_state: ConnectionState::Connecting, ..s },
                    seq![Action::Connect(s.selected_device->0)],
                ),
            ),
        },
        MessageView::DisconnectDevice => match s.connection_state {
            ConnectionState::Connected(address) => Ok(
                (disconnected(s).0, seq![Action::Disconnect(address)] + disconnected(s).1),
            ),
            _ => Ok((s, Seq::empty())),
        },
        MessageView::ScanDevice(start) => if start {
            Ok((scan_begun(s), seq![Action::StartScan(HRS_UUID)]))
        } else {
            Ok((s, seq![Action::StopScan]))
        },
        MessageView::AdapterStateUpdated(state) => {
            let t = AppView { adapter_state: state, ..s };
            if state == AdapterState::PoweredOn {
                Ok((scan_begun(t), seq![Action::StartScan(HRS_UUID)]))
            } else if s.connection_state is Connected {
                Ok((connection_dropped(t), Seq::empty()))
            } else {
                Ok((t, Seq::empty()))
            }
        },
        MessageView::ConnectionStateUpdated(state) => Ok(
            (
                AppView { connection_state: state, ..s },
                match state {
                    ConnectionState::Connected(address) => seq![
                        Action::StopScan,
                        Action::Subscribe(address),
                    ],
                    _ => Seq::empty(),
                },
            ),
        ),
        MessageView::DiscoveredDevice(device) => Ok(
            (
                if contains_address(s.discovered_devices, device.address) {
                    s
                } else {
                    AppView { discovered_devices: s.discovered_devices.push(device), ..s }
                },
                Seq::empty(),
            ),
        ),
        MessageView::DeviceDisconnected => Ok(disconnected(s)),
        MessageView::HeartRateUpdated(reading) => Ok(
            (AppView { heart_rate: Some(reading), ..s }, Seq::empty()),
        ),
        MessageView::ErrorOccurred(text) => Ok(
            (AppView { last_error: Some(text), ..s }, seq![Action::RequestAttention]),
        ),
    }
}

/// What processing the messages `ms` in their order leads to from `s`: the
/// last state and all the operations, or the reason for which one of the
/// messages is rejected.
pub open spec fn run(s: AppView, ms: Seq<MessageView>) -> Result<
    (AppView, Seq<Action>),
    ContractViolation,
>
    decreases ms.len(),
{
    if ms.len() == 0 {
        Ok((s, Seq::empty()))
    } else {
        match step(s, ms.first()) {
            Err(violation) => Err(violation),
            Ok((next, actions)) => match run(next, ms.drop_first()) {
                Err(violation) => Err(violation),
                Ok((last, more)) => Ok((last, actions + more)),
            },
        }
    }
}

/// The connection controller.
#[derive(Debug)]
pub struct App {
    adapter_state: AdapterState,
    connection_state: ConnectionState,
    discovered_devices: Vec<HrsDevice>,
    selected_device: Option<BDAddr>,
    heart_rate: Option<HeartRateMeasurement>,
    last_error: Option<String>,
}

impl View for App {
    type V = AppView;

    closed spec fn view(&self) -> AppView {
        AppView {
            adapter_state: self.adapter_state,
            connection_state: self.connection_state,
            discovered_devices: self.discovered_devices@.map_values(|d: HrsDevice| d@),
            selected_device: self.selected_device,
            heart_rate: self.heart_rate,
            last_error: crate::hrs_device::text_view(self.last_error),
        }
    }
}

impl App {
    /// No address occurs twice in the registry.
    #[verifier::type_invariant]
    spec fn registry_is_distinct(self) -> bool {
        distinct_addresses(self@.discovered_devices)
    }

    /// The controller in its first state, and the message to start with: the
    /// power state that the adapter had when it was found.
    pub fn boot(adapter_state: AdapterState) -> (r: (App, Vec<Message>))
        ensures
            r.0@ == initial(adapter_state),
            message_views(r.1@) == seq![MessageView::AdapterStateUpdated(adapter_state)],
    {
        let app = App {
            adapter_state,
            connection_state: ConnectionState::NotConnected,
            discovered_devices: Vec::new(),
            selected_device: None,
            heart_rate: None,
            last_error: None,
        };
        let mut first: Vec<Message> = Vec::new();
        first.push(Message::AdapterStateUpdated(adapter_state));
        assert(app@.discovered_devices =~= Seq::empty());
        assert(message_views(first@) =~= seq![MessageView::AdapterStateUpdated(adapter_state)]);
        (app, first)
    }

    pub fn adapter_state(&self) -> (r: AdapterState)
        ensures
            r == self@.adapter_state,
    {
        self.adapter_state
    }

    pub fn connection_state(&self) -> (r: ConnectionState)
        ensures
            r == self@.connection_state,
    {
        self.connection_state
    }

    /// The registry, in the order of discovery. No address occurs twice.
    pub fn discovered_devices(&self) -> (r: &Vec<HrsDevice>)
        ensures
            r@.map_values(|d: HrsDevice| d@) == self@.discovered_devices,
            distinct_addresses(self@.discovered_devices),
    {
        proof {
            use_type_invariant(self);
        }
        &self.discovered_devices
    }

    pub fn selected_device(&self) -> (r: Option<BDAddr>)
        ensures
            r == self@.selected_device,
    {
        self.selected_device
    }

    /// The most recent reading of the connected device.
    pub fn heart_rate(&self) -> (r: Option<HeartRateMeasurement>)
        ensures
            r == self@.heart_rate,
    {
        self.heart_rate
    }

    /// The text of the most recent error, as long as it is less than five
    /// seconds old. `elapsed_millis` is the time since it occurred.
    pub fn error_message(&self, elapsed_millis: u64) -> (r: Option<&str>)
        ensures
            r is Some <==> self@.last_error is Some && elapsed_millis < 5000,
            r matches Some(text) ==> self@.last_error == Some(text@),
    {
        if elapsed_millis < 5000 {
            match &self.last_error {
                Some(text) => Some(text.as_str()),
                None => None,
            }
        } else {
            None
        }
    }
}

} // verus!
