//! What the end of an operation means to the controller: the messages to
//! process next, in their order.
//!
//! A failure is surfaced once, as one `ErrorOccurred` message, and nothing is
//! tried again.

use vstd::prelude::*;
use vstd::string::StringExecFns;
use crate::bdaddr::BDAddr;
use crate::controller::message_views;
use crate::controller::ConnectionState;
use crate::controller::Message;
use crate::controller::MessageView;
use crate::hrm::HeartRateMeasurement;

verus! {

/// The kinds of failure that are surfaced as an error message.
#[derive(Clone, Copy, Debug, PartialEq, Eq, Structural)]
pub enum FailureKind {
    /// No Bluetooth adapter was found when the program started.
    AdapterUnavailable,
    ConnectFailed,
    DisconnectFailed,
    SubscribeFailed,
    ScanStartFailed,
    ScanStopFailed,
    /// A notification that the decoder rejected.
    InvalidReading,
}

/// The text of a failure of this kind; `detail` is what the failed operation
/// said of it. A missing adapter and an invalid reading have no detail.
pub open spec fn failure_text(kind: FailureKind, detail: Seq<char>) -> Seq<char> {
    match kind {
        FailureKind::AdapterUnavailable => "Bluetooth adapter not found."@,
        FailureKind::ConnectFailed => "Failed to connect device: "@ + detail,
        FailureKind::DisconnectFailed => "Failed to disconnect device: "@ + detail,
        FailureKind::SubscribeFailed => "Failed to get heart rate data: "@ + detail,
        FailureKind::ScanStartFailed => "Failed to start scan: "@ + detail,
        FailureKind::ScanStopFailed => "Failed to stop scan: "@ + detail,
        FailureKind::InvalidReading => "Invalid heart rate data"@,
    }
}

/// The messages that follow the end of a connect operation.
pub open spec fn after_connect(result: Result<BDAddr, Seq<char>>) -> Seq<MessageView> {
    match result {
        Ok(address) => seq![
            MessageView::ConnectionStateUpdated(ConnectionState::Connected(address)),
        ],
        Err(detail) => seq![
            MessageView::ConnectionStateUpdated(ConnectionState::NotConnected),
            MessageView::ErrorOccurred(failure_text(FailureKind::ConnectFailed, detail)),
        ],
    }
}

/// The messages that follow the end of a disconnect operation.
pub open spec fn after_disconnect(result: Result<(), Seq<char>>) -> Seq<MessageView> {
    match result {
        Ok(_) => Seq::empty(),
        Err(detail) => seq![
            MessageView::ErrorOccurred(failure_text(FailureKind::DisconnectFailed, detail)),
        ],
    }
}

/// The messages that follow the end of a subscribe operation.
pub open spec fn after_subscribe(result: Result<(), Seq<char>>) -> Seq<MessageView> {
    match result {
        Ok(_) => Seq::empty(),
        Err(detail) => seq![
            MessageView::ErrorOccurred(failure_text(FailureKind::SubscribeFailed, detail)),
            MessageView::DisconnectDevice,
        ],
    }
}

/// The messages that follow the end of an operation that starts (`start`) or
/// stops scanning.
pub open spec fn after_scan(start: bool, result: Result<(), Seq<char>>) -> Seq<MessageView> {
    match result {
        Ok(_) => Seq::empty(),
        Err(detail) => seq![
            MessageView::ErrorOccurred(
                failure_text(
                    if start {
                        FailureKind::ScanStartFailed
                    } else {
                        FailureKind::ScanStopFailed
                    },
                    detail,
                ),
            ),
        ],
    }
}

/// The message of one item of the stream of readings: `None` is the end of
/// the stream, `Some(None)` a notification that the decoder rejected.
pub open spec fn of_stream_item(item: Option<Option<HeartRateMeasurement>>) -> MessageView {
    match item {
        None => MessageView::DeviceDisconnected,
        Some(None) => MessageView::ErrorOccurred(
            failure_text(FailureKind::InvalidReading, Seq::empty()),
        ),
        Some(Some(reading)) => MessageView::HeartRateUpdated(reading),
    }
}

/// What the result of an operation holds: the details of a failure as
/// characters.
pub open spec fn result_view<T>(result: Result<T, String>) -> Result<T, Seq<char>> {
    match result {
        Ok(value) => Ok(value),
        Err(detail) => Err(detail@),
    }
}

impl FailureKind {
    /// The text of a failure of this kind.
    pub fn message(self, detail: &str) -> (text: String)
        ensures
            text@ == failure_text(self, detail@),
    {
        match self {
            FailureKind::AdapterUnavailable => String::from_str("Bluetooth adapter not found."),
            FailureKind::ConnectFailed => String::from_str("Failed to connect device: ").concat(
                detail,
            ),
            FailureKind::DisconnectFailed => String::from_str(
                "Failed to disconnect device: ",
            ).concat(detail),
            FailureKind::SubscribeFailed => String::from_str(
                "Failed to get heart rate data: ",
            ).concat(detail),
            FailureKind::ScanStartFailed => String::from_str("Failed to start scan: ").concat(
                detail,
            ),
            FailureKind::ScanStopFailed => String::from_str("Failed to stop scan: ").concat(detail),
            FailureKind::InvalidReading => String::from_str("Invalid heart rate data"),
        }
    }
}

/// The error message of a failure.
fn error(kind: FailureKind, detail: &str) -> (message: Message)
    ensures
        message@ == MessageView::ErrorOccurred(failure_text(kind, detail@)),
{
    Message::ErrorOccurred(kind.message(detail))
}

/// A connect operation has ended. On success the device of `address` is
/// connected; on failure no device is connected and the error is surfaced.
pub fn connect_finished(result: Result<BDAddr, String>) -> (messages: Vec<Message>)
    ensures
        message_views(messages@) == after_connect(result_view(result)),
{
    let mut messages: Vec<Message> = Vec::new();
    match result {
        Ok(address) => {
            messages.push(Message::ConnectionStateUpdated(ConnectionState::Connected(address)));
        },
        Err(detail) => {
            messages.push(Message::ConnectionStateUpdated(ConnectionState::NotConnected));
            messages.push(error(FailureKind::ConnectFailed, detail.as_str()));
        },
    }
    assert(message_views(messages@) =~= after_connect(result_view(result)));
    messages
}

/// A disconnect operation has ended. A failure is surfaced.
pub fn disconnect_finished(result: Result<(), String>) -> (messages: Vec<Message>)
    ensures
        message_views(messages@) == after_disconnect(result_view(result)),
{
    let mut messages: Vec<Message> = Vec::new();
    if let Err(detail) = result {
        messages.push(error(FailureKind::DisconnectFailed, detail.as_str()));
    }
    assert(message_views(messages@) =~= after_disconnect(result_view(result)));
    messages
}

/// A subscribe operation has ended. On success the readings begin to
/// stream; on failure the error is surfaced and the device is disconnected.
pub fn subscribe_finished(result: Result<(), String>) -> (messages: Vec<Message>)
    ensures
        message_views(messages@) == after_subscribe(result_view(result)),
{
    let mut messages: Vec<Message> = Vec::new();
    if let Err(detail) = result {
        messages.push(error(FailureKind::SubscribeFailed, detail.as_str()));
        messages.push(Message::DisconnectDevice);
    }
    assert(message_views(messages@) =~= after_subscribe(result_view(result)));
    messages
}

/// An operation that starts (`start`) or stops scanning has ended. A
/// failure is surfaced.
pub fn scan_finished(start: bool, result: Result<(), String>) -> (messages: Vec<Message>)
    ensures
        message_views(messages@) == after_scan(start, result_view(result)),
{
    let mut messages: Vec<Message> = Vec::new();
    if let Err(detail) = result {
        let kind = if start {
            FailureKind::ScanStartFailed
        } else {
            FailureKind::ScanStopFailed
        };
        messages.push(error(kind, detail.as_str()));
    }
    assert(message_views(messages@) =~= after_scan(start, result_view(result)));
    messages
}

/// The stream of readings has given an item, or has ended (`None`). A
/// reading becomes the current one; a rejected notification is surfaced as
/// an error; the end of the stream is the disconnection of the device.
pub fn stream_item(item: Option<Option<HeartRateMeasurement>>) -> (message: Message)
    ensures
        message@ == of_stream_item(item),
{
    match item {
        None => Message::DeviceDisconnected,
        Some(None) => error(FailureKind::InvalidReading, ""),
        Some(Some(reading)) => Message::HeartRateUpdated(reading),
    }
}

} // verus!
