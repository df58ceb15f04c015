//! What holds of the transition function in every state.

use vstd::prelude::*;
use crate::bdaddr::BDAddr;
use crate::bleuuid::HRS_UUID;
use crate::controller::connect_violation;
use crate::controller::disconnected;
use crate::controller::contains_address;
use crate::controller::distinct_addresses;
use crate::controller::outcome::after_connect;
use crate::controller::outcome::after_disconnect;
use crate::controller::outcome::after_scan;
use crate::controller::outcome::after_subscribe;
use crate::controller::outcome::failure_text;
use crate::controller::outcome::of_stream_item;
use crate::controller::outcome::FailureKind;
use crate::controller::run;
use crate::controller::step;
use crate::controller::Action;
use crate::controller::AdapterState;
use crate::controller::AppView;
use crate::controller::ConnectionState;
use crate::controller::MessageView;
use crate::hrm::HeartRateMeasurement;
use crate::hrs_device::DeviceView;

verus! {

/// Processing one message is one step.
pub proof fn lemma_run_one(s: AppView, m: MessageView)
    ensures
        run(s, seq![m]) == step(s, m),
{
    reveal_with_fuel(run, 2);
    let ms = seq![m];
    assert(ms.first() == m);
    assert(ms.drop_first() =~= Seq::<MessageView>::empty());
    match step(s, m) {
        Ok((next, actions)) => {
            assert(actions + Seq::<Action>::empty() =~= actions);
        },
        Err(_) => {},
    }
}

/// Processing two messages is one step after the other.
pub proof fn lemma_run_two(s: AppView, m1: MessageView, m2: MessageView)
    ensures
        run(s, seq![m1, m2]) == (match step(s, m1) {
            Err(violation) => Err(violation),
            Ok((next, actions)) => match step(next, m2) {
                Err(violation) => Err(violation),
                Ok((last, more)) => Ok((last, actions + more)),
            },
        }),
{
    let ms = seq![m1, m2];
    assert(ms.first() == m1);
    assert(ms.drop_first() =~= seq![m2]);
    match step(s, m1) {
        Ok((next, actions)) => {
            lemma_run_one(next, m2);
        },
        Err(_) => {},
    }
}

/// A record whose address the registry does not hold can be appended: no
/// address occurs twice afterwards.
pub proof fn lemma_push_keeps_distinct(devices: Seq<DeviceView>, record: DeviceView)
    requires
        distinct_addresses(devices),
        !contains_address(devices, record.address),
    ensures
        distinct_addresses(devices.push(record)),
{
    let after = devices.push(record);
    assert forall|i: int, j: int| 0 <= i < j < after.len() implies (#[trigger] after[i]).address
        != (#[trigger] after[j]).address by {
        if j < devices.len() {
            assert(devices[i].address != devices[j].address);
        } else {
            assert(devices[i].address != record.address);
        }
    }
}

/// No step makes the registry hold an address twice.
pub proof fn lemma_registry_stays_distinct(s: AppView, m: MessageView)
    requires
        distinct_addresses(s.discovered_devices),
    ensures
        step(s, m) matches Ok((next, _)) ==> distinct_addresses(next.discovered_devices),
{
    if let MessageView::DiscoveredDevice(device) = m {
        if !contains_address(s.discovered_devices, device.address) {
            lemma_push_keeps_distinct(s.discovered_devices, device);
        }
    }
}

/// A step changes the registry in one of two ways only: a message that
/// starts a scan session empties it, and a discovery appends one record.
pub proof fn lemma_registry_changes(s: AppView, m: MessageView)
    ensures
        step(s, m) matches Ok((next, _)) ==> {
            ||| next.discovered_devices == s.discovered_devices
            ||| next.discovered_devices == Seq::<DeviceView>::empty()
            ||| (m matches MessageView::DiscoveredDevice(device) && next.discovered_devices
                == s.discovered_devices.push(device))
        },
{
}

/// A connect command is accepted exactly where no device is connected or
/// being connected and the selected device is in the registry. Then the
/// device is being connected, and the one operation is to connect the
/// selected device. Otherwise the command is rejected.
pub proof fn lemma_connect_command(s: AppView)
    ensures
        step(s, MessageView::ConnectDevice) is Ok <==> s.connection_state
            == ConnectionState::NotConnected && s.selected_device is Some && contains_address(
            s.discovered_devices,
            s.selected_device->0,
        ),
        step(s, MessageView::ConnectDevice) matches Ok((next, actions)) ==> next == (AppView {
            connection_state: ConnectionState::Connecting,
            ..s
        }) && actions == seq![Action::Connect(s.selected_device->0)],
{
}

/// Where a step asks for an operation to connect, the message is a connect
/// command, no device was connected or being connected before it, and the
/// device of the operation is the selected one, which is being connected
/// after it. Where a step asks for an operation to subscribe, the device of
/// the operation is the connected one after it.
pub proof fn lemma_one_connection(s: AppView, m: MessageView, address: BDAddr)
    ensures
        step(s, m) matches Ok((next, actions)) ==> {
            &&& actions.contains(Action::Connect(address)) ==> m == MessageView::ConnectDevice
                && s.connection_state == ConnectionState::NotConnected && next.connection_state
                == ConnectionState::Connecting && s.selected_device == Some(address)
            &&& actions.contains(Action::Subscribe(address)) ==> next.connection_state
                == ConnectionState::Connected(address)
        },
{
    match step(s, m) {
        Ok((next, actions)) => {
            if actions.contains(Action::Connect(address)) {
                let i = choose|i: int| 0 <= i < actions.len() && actions[i] == Action::Connect(address);
                assert(actions[i] == Action::Connect(address));
            }
            if actions.contains(Action::Subscribe(address)) {
                let i = choose|i: int|
                    0 <= i < actions.len() && actions[i] == Action::Subscribe(address);
                assert(actions[i] == Action::Subscribe(address));
            }
        },
        Err(_) => {},
    }
}

/// While a device is being connected, the success of the connect operation
/// leads to the connected state; scanning stops and the subscription
/// begins.
pub proof fn lemma_connect_success(s: AppView, address: BDAddr)
    requires
        s.connection_state == ConnectionState::Connecting,
    ensures
        run(s, after_connect(Ok(address))) == Ok::<_, crate::controller::ContractViolation>(
            (
                AppView { connection_state: ConnectionState::Connected(address), ..s },
                seq![Action::StopScan, Action::Subscribe(address)],
            ),
        ),
{
    lemma_run_one(
        s,
        MessageView::ConnectionStateUpdated(ConnectionState::Connected(address)),
    );
}

/// While a device is being connected, the failure of the connect operation
/// leads back to the state in which none is connected. Exactly one error is
/// surfaced, and the current reading is as it was: none is set.
pub proof fn lemma_connect_failure(s: AppView, detail: Seq<char>)
    requires
        s.connection_state == ConnectionState::Connecting,
    ensures
        after_connect(Err(detail)).filter(|m: MessageView| m is ErrorOccurred).len() == 1,
        run(s, after_connect(Err(detail))) == Ok::<_, crate::controller::ContractViolation>(
            (
                AppView {
                    connection_state: ConnectionState::NotConnected,
                    last_error: Some(failure_text(FailureKind::ConnectFailed, detail)),
                    ..s
                },
                seq![Action::RequestAttention],
            ),
        ),
{
    let m1 = MessageView::ConnectionStateUpdated(ConnectionState::NotConnected);
    let m2 = MessageView::ErrorOccurred(failure_text(FailureKind::ConnectFailed, detail));
    let ms = after_connect(Err(detail));
    assert(ms =~= seq![m1, m2]);
    lemma_run_two(s, m1, m2);
    assert(Seq::<Action>::empty() + seq![Action::RequestAttention] =~= seq![
        Action::RequestAttention,
    ]);
    let is_error = |m: MessageView| m is ErrorOccurred;
    reveal_with_fuel(Seq::filter, 3);
    assert(ms.drop_last() =~= seq![m1]);
    assert(seq![m1].drop_last() =~= Seq::<MessageView>::empty());
    assert(ms.filter(is_error) =~= seq![m2]);
}

/// The disconnect transition. From the connected state, a disconnect
/// command, a disconnect event of the adapter and the end of the stream of
/// readings all lead to the state in which no device is connected, and the
/// current reading is cleared. Where the adapter is powered on, scanning
/// starts again, with an empty registry and selection. The command asks for
/// the operation to disconnect first.
pub proof fn lemma_disconnect(s: AppView, address: BDAddr)
    requires
        s.connection_state == ConnectionState::Connected(address),
    ensures
        ({
            let scan = if s.adapter_state == AdapterState::PoweredOn {
                seq![Action::StartScan(HRS_UUID)]
            } else {
                Seq::<Action>::empty()
            };
            &&& step(s, MessageView::DeviceDisconnected) matches Ok((next, actions))
                && next.connection_state == ConnectionState::NotConnected && next.heart_rate is None
                && actions == scan
            &&& step(s, MessageView::DisconnectDevice) matches Ok((next, actions))
                && next.connection_state == ConnectionState::NotConnected && next.heart_rate is None
                && actions == seq![Action::Disconnect(address)] + scan
            &&& step(s, MessageView::DisconnectDevice) matches Ok((next, _)) && step(
                s,
                MessageView::DeviceDisconnected,
            ) matches Ok((same, _)) && next == same
            &&& s.adapter_state == AdapterState::PoweredOn ==> (step(
                s,
                MessageView::DeviceDisconnected,
            ) matches Ok((next, _)) && next.discovered_devices.len() == 0
                && next.selected_device is None)
        }),
{
}

/// Where the adapter stops being powered on while a device is connected,
/// the connection has gone: no device is connected, the current reading is
/// cleared, and no scan is started.
pub proof fn lemma_adapter_powers_off(s: AppView, state: AdapterState)
    requires
        s.connection_state is Connected,
        state != AdapterState::PoweredOn,
    ensures
        step(s, MessageView::AdapterStateUpdated(state)) == Ok::<
            _,
            crate::controller::ContractViolation,
        >(
            (
                AppView {
                    adapter_state: state,
                    connection_state: ConnectionState::NotConnected,
                    heart_rate: None,
                    ..s
                },
                Seq::<Action>::empty(),
            ),
        ),
{
}

/// Where the adapter becomes powered on, a scan session starts, whatever
/// the state.
pub proof fn lemma_adapter_powers_on(s: AppView)
    ensures
        step(s, MessageView::AdapterStateUpdated(AdapterState::PoweredOn)) == Ok::<
            _,
            crate::controller::ContractViolation,
        >(
            (
                AppView {
                    adapter_state: AdapterState::PoweredOn,
                    discovered_devices: Seq::empty(),
                    selected_device: None,
                    ..s
                },
                seq![Action::StartScan(HRS_UUID)],
            ),
        ),
{
}

/// A disconnect command while no device is connected changes nothing and
/// asks for nothing: no error is surfaced.
pub proof fn lemma_disconnect_is_idempotent(s: AppView)
    requires
        !(s.connection_state is Connected),
    ensures
        step(s, MessageView::DisconnectDevice) == Ok::<_, crate::controller::ContractViolation>(
            (s, Seq::<Action>::empty()),
        ),
{
}

/// After a disconnect command no device is connected, so a second one
/// changes nothing.
pub proof fn lemma_disconnect_twice(s: AppView)
    ensures
        step(s, MessageView::DisconnectDevice) matches Ok((next, _)) && step(
            next,
            MessageView::DisconnectDevice,
        ) == Ok::<_, crate::controller::ContractViolation>((next, Seq::<Action>::empty())),
{
}

/// While a device is connected, the failure of the subscribe operation
/// surfaces one error and then disconnects the device: no device is
/// connected afterwards.
pub proof fn lemma_subscribe_failure(s: AppView, address: BDAddr, detail: Seq<char>)
    requires
        s.connection_state == ConnectionState::Connected(address),
    ensures
        run(s, after_subscribe(Err(detail))) matches Ok((last, actions))
            && last.connection_state == ConnectionState::NotConnected && last.heart_rate is None
            && last.last_error == Some(failure_text(FailureKind::SubscribeFailed, detail))
            && actions.len() >= 2 && actions[0] == Action::RequestAttention && actions[1]
            == Action::Disconnect(address),
{
    let m1 = MessageView::ErrorOccurred(failure_text(FailureKind::SubscribeFailed, detail));
    let m2 = MessageView::DisconnectDevice;
    assert(after_subscribe(Err(detail)) =~= seq![m1, m2]);
    lemma_run_two(s, m1, m2);
}

/// A message that starts a scan session empties the registry and the
/// selection, and asks for a scan that is filtered by the Heart Rate
/// Service.
pub proof fn lemma_scan_start_clears(s: AppView)
    ensures
        step(s, MessageView::ScanDevice(true)) == Ok::<_, crate::controller::ContractViolation>(
            (
                AppView { discovered_devices: Seq::empty(), selected_device: None, ..s },
                seq![Action::StartScan(HRS_UUID)],
            ),
        ),
{
}

/// The discovery of a device whose address the registry holds changes
/// nothing: two discoveries of one address leave one record, the first.
pub proof fn lemma_discovery_is_idempotent(s: AppView, first: DeviceView, second: DeviceView)
    requires
        first.address == second.address,
    ensures
        step(s, MessageView::DiscoveredDevice(first)) matches Ok((next, _)) && step(
            next,
            MessageView::DiscoveredDevice(second),
        ) == Ok::<_, crate::controller::ContractViolation>((next, Seq::<Action>::empty())),
        contains_address(s.discovered_devices, first.address) ==> step(
            s,
            MessageView::DiscoveredDevice(first),
        ) == Ok::<_, crate::controller::ContractViolation>((s, Seq::<Action>::empty())),
        !contains_address(s.discovered_devices, first.address) ==> run(
            s,
            seq![MessageView::DiscoveredDevice(first), MessageView::DiscoveredDevice(second)],
        ) == Ok::<_, crate::controller::ContractViolation>(
            (
                AppView { discovered_devices: s.discovered_devices.push(first), ..s },
                Seq::<Action>::empty(),
            ),
        ),
{
    let m1 = MessageView::DiscoveredDevice(first);
    let m2 = MessageView::DiscoveredDevice(second);
    lemma_run_two(s, m1, m2);
    if !contains_address(s.discovered_devices, first.address) {
        let after = s.discovered_devices.push(first);
        assert(after[after.len() - 1].address == second.address);
        assert(contains_address(after, second.address));
        assert(Seq::<Action>::empty() + Seq::<Action>::empty() =~= Seq::<Action>::empty());
    }
}

/// The failure of an operation to disconnect, to start or to stop scanning
/// is surfaced once, as the error message, and changes nothing else: no
/// operation is asked for again. Success changes nothing at all.
pub proof fn lemma_failure_is_surfaced_once(s: AppView, start: bool, detail: Seq<char>)
    ensures
        run(s, after_disconnect(Err(detail))) == Ok::<_, crate::controller::ContractViolation>(
            (
                AppView {
                    last_error: Some(failure_text(FailureKind::DisconnectFailed, detail)),
                    ..s
                },
                seq![Action::RequestAttention],
            ),
        ),
        run(s, after_scan(start, Err(detail))) == Ok::<_, crate::controller::ContractViolation>(
            (
                AppView {
                    last_error: Some(
                        failure_text(
                            if start {
                                FailureKind::ScanStartFailed
                            } else {
                                FailureKind::ScanStopFailed
                            },
                            detail,
                        ),
                    ),
                    ..s
                },
                seq![Action::RequestAttention],
            ),
        ),
        run(s, after_disconnect(Ok(()))) == Ok::<_, crate::controller::ContractViolation>(
            (s, Seq::<Action>::empty()),
        ),
        run(s, after_scan(start, Ok(()))) == Ok::<_, crate::controller::ContractViolation>(
            (s, Seq::<Action>::empty()),
        ),
{
    lemma_run_one(
        s,
        MessageView::ErrorOccurred(failure_text(FailureKind::DisconnectFailed, detail)),
    );
    let kind = if start {
        FailureKind::ScanStartFailed
    } else {
        FailureKind::ScanStopFailed
    };
    lemma_run_one(s, MessageView::ErrorOccurred(failure_text(kind, detail)));
    assert(after_disconnect(Ok(())).len() == 0);
    assert(after_scan(start, Ok(())).len() == 0);
}

/// Starting a scan session while one is running is no error: a second
/// start leaves the state as the first did and asks for the same scan.
/// Stopping changes no state at all.
pub proof fn lemma_scan_is_idempotent(s: AppView)
    ensures
        step(s, MessageView::ScanDevice(true)) matches Ok((next, actions)) && step(
            next,
            MessageView::ScanDevice(true),
        ) == Ok::<_, crate::controller::ContractViolation>((next, actions)),
        step(s, MessageView::ScanDevice(false)) == Ok::<_, crate::controller::ContractViolation>(
            (s, seq![Action::StopScan]),
        ),
{
}

/// What the stream of readings does to the state. A reading becomes the
/// current one and nothing else changes. A rejected notification is
/// surfaced as an error and leaves the connection and the current reading
/// as they are. The end of the stream is the disconnect transition.
pub proof fn lemma_stream(s: AppView, reading: HeartRateMeasurement)
    ensures
        step(s, of_stream_item(Some(Some(reading)))) == Ok::<
            _,
            crate::controller::ContractViolation,
        >((AppView { heart_rate: Some(reading), ..s }, Seq::<Action>::empty())),
        step(s, of_stream_item(Some(None))) == Ok::<_, crate::controller::ContractViolation>(
            (
                AppView {
                    last_error: Some(failure_text(FailureKind::InvalidReading, Seq::empty())),
                    ..s
                },
                seq![Action::RequestAttention],
            ),
        ),
        step(s, of_stream_item(None)) == Ok::<_, crate::controller::ContractViolation>(
            disconnected(s),
        ),
{
}

/// On shutdown the connected device is disconnected, if there is one, and
/// then the program terminates. The state is left as it is.
pub proof fn lemma_exit(s: AppView)
    ensures
        step(s, MessageView::Exit) matches Ok((next, actions)) && next == s && actions.last()
            == Action::Exit && (match s.connection_state {
            ConnectionState::Connected(address) => actions == seq![
                Action::Disconnect(address),
                Action::Exit,
            ],
            _ => actions == seq![Action::Exit],
        }),
{
}

/// A rejected command is a connect command, and only a connect command can
/// be rejected: every other message is processed in every state.
pub proof fn lemma_only_connect_is_rejected(s: AppView, m: MessageView)
    ensures
        step(s, m) is Err <==> m == MessageView::ConnectDevice && connect_violation(s) is Some,
        step(s, m) matches Err(violation) ==> connect_violation(s) == Some(violation),
{
}

/// From the selection of a discovered device to its disconnection: the
/// connect command, the success of the connect operation and the disconnect
/// command lead through the connecting and the connected state back to the
/// state in which no device is connected, with no current reading.
pub proof fn lemma_connect_then_disconnect(s: AppView, address: BDAddr)
    requires
        s.connection_state == ConnectionState::NotConnected,
        s.selected_device == Some(address),
        contains_address(s.discovered_devices, address),
    ensures
        ({
            &&& step(s, MessageView::ConnectDevice) matches Ok((connecting, first))
            &&& connecting.connection_state == ConnectionState::Connecting
            &&& first == seq![Action::Connect(address)]
            &&& run(connecting, after_connect(Ok(address))) matches Ok((connected, second))
            &&& connected.connection_state == ConnectionState::Connected(address)
            &&& second == seq![Action::StopScan, Action::Subscribe(address)]
            &&& step(connected, MessageView::DisconnectDevice) matches Ok((last, third))
            &&& last.connection_state == ConnectionState::NotConnected
            &&& last.heart_rate is None
            &&& third[0] == Action::Disconnect(address)
        }),
{
    lemma_connect_command(s);
    let connecting = step(s, MessageView::ConnectDevice)->Ok_0.0;
    lemma_connect_success(connecting, address);
    let connected = run(connecting, after_connect(Ok(address)))->Ok_0.0;
    lemma_disconnect(connected, address);
}

} // verus!
