//! The library's error type.

use std::time::Duration;
use vstd::prelude::*;

verus! {

/// Every way a request to KiCad, or its preparation, can fail.
#[derive(Debug)]
pub enum KiCadError {
    /// The caller's configuration cannot be used.
    Config { reason: String },
    /// No IPC socket exists at the resolved address.
    SocketUnavailable { socket_uri: String },
    /// Dialling the socket failed.
    Connection { socket_uri: String, reason: String },
    /// Sending the request failed.
    TransportSend { reason: String },
    /// Receiving the response failed.
    TransportReceive { reason: String },
    /// The transport is gone.
    TransportClosed,
    /// The request took longer than the configured timeout.
    Timeout { timeout: Duration },
    /// KiCad answered with a status other than OK.
    ApiStatus { code: String, message: String },
    /// An item request came back with a status other than OK.
    ItemStatus { code: String },
    /// The response carried no payload.
    MissingPayload { expected_type_url: String },
    /// The response carried a payload of another type.
    UnexpectedPayloadType { expected_type_url: String, actual_type_url: String },
    /// Encoding a protobuf message failed.
    ProtobufEncode(String),
    /// Decoding a protobuf message failed.
    ProtobufDecode(String),
    /// A runtime task could not be joined.
    RuntimeJoin(String),
    /// A lock was poisoned.
    InternalPoisoned,
    /// No PCB document is open.
    BoardNotOpen,
    /// The open PCB documents belong to several projects.
    AmbiguousProjectPath { paths: Vec<String> },
    /// Several PCB documents are open.
    AmbiguousBoardSelection { boards: Vec<String> },
}

} // verus!
