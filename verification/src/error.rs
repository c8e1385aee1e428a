//! Errors of the bridge.

use crate::text::{decimal, decimal_text, joined};
use vstd::prelude::*;

verus! {

/// What went wrong.
#[derive(Clone, Debug, PartialEq, Eq)]
pub enum SapientError {
    /// An input or output operation failed.
    Io(String),
    /// A payload is not a well-formed message.
    Decode(String),
    /// A message could not be encoded.
    Encode(String),
    ConnectionFailed(String),
    NodeNotFound(String),
    MappingError { kind: &'static str, detail: String },
    UnsupportedCoordinateSystem(String),
    TaskRejected { node_id: String, reason: String },
    FrameTooLarge { size: usize, max: usize },
}

/// What a [`SapientError`] says.
#[verifier::ext_equal]
pub enum ErrorModel {
    Io(Seq<char>),
    Decode(Seq<char>),
    Encode(Seq<char>),
    ConnectionFailed(Seq<char>),
    NodeNotFound(Seq<char>),
    MappingError { kind: Seq<char>, detail: Seq<char> },
    UnsupportedCoordinateSystem(Seq<char>),
    TaskRejected { node_id: Seq<char>, reason: Seq<char> },
    FrameTooLarge { size: nat, max: nat },
}

impl View for SapientError {
    type V = ErrorModel;

    open spec fn view(&self) -> ErrorModel {
        match *self {
            SapientError::Io(text) => ErrorModel::Io(text@),
            SapientError::Decode(text) => ErrorModel::Decode(text@),
            SapientError::Encode(text) => ErrorModel::Encode(text@),
            SapientError::ConnectionFailed(text) => ErrorModel::ConnectionFailed(text@),
            SapientError::NodeNotFound(node_id) => ErrorModel::NodeNotFound(node_id@),
            SapientError::MappingError { kind, detail } => ErrorModel::MappingError {
                kind: kind@,
                detail: detail@,
            },
            SapientError::UnsupportedCoordinateSystem(text) => {
                ErrorModel::UnsupportedCoordinateSystem(text@)
            },
            SapientError::TaskRejected { node_id, reason } => ErrorModel::TaskRejected {
                node_id: node_id@,
                reason: reason@,
            },
            SapientError::FrameTooLarge { size, max } => ErrorModel::FrameTooLarge {
                size: size as nat,
                max: max as nat,
            },
        }
    }
}

/// The sentence that describes an error.
pub open spec fn error_text(error: ErrorModel) -> Seq<char> {
    match error {
        ErrorModel::Io(text) => "I/O error: "@ + text,
        ErrorModel::Decode(text) => "Protobuf decode error: "@ + text,
        ErrorModel::Encode(text) => "Protobuf encode error: "@ + text,
        ErrorModel::ConnectionFailed(text) => "Connection failed: "@ + text,
        ErrorModel::NodeNotFound(node_id) => "Node "@ + node_id + " not registered"@,
        ErrorModel::MappingError { kind, detail } => "Message mapping error ("@ + kind + "): "@
            + detail,
        ErrorModel::UnsupportedCoordinateSystem(text) => "Unsupported coordinate system: "@ + text,
        ErrorModel::TaskRejected { node_id, reason } => "Task rejected by node "@ + node_id + ": "@
            + reason,
        ErrorModel::FrameTooLarge { size, max } => "Frame too large: "@ + decimal(size)
            + " bytes exceeds maximum "@ + decimal(max),
    }
}

impl SapientError {
    /// Describes the error in a sentence.
    pub fn message(&self) -> (text: String)
        ensures
            text@ == error_text(self@),
    {
        match self {
            SapientError::Io(text) => joined("I/O error: ", text.as_str()),
            SapientError::Decode(text) => joined("Protobuf decode error: ", text.as_str()),
            SapientError::Encode(text) => joined("Protobuf encode error: ", text.as_str()),
            SapientError::ConnectionFailed(text) => joined("Connection failed: ", text.as_str()),
            SapientError::NodeNotFound(node_id) => {
                let mut text = joined("Node ", node_id.as_str());
                text.append(" not registered");
                text
            },
            SapientError::MappingError { kind, detail } => {
                let mut text = joined("Message mapping error (", kind);
                text.append("): ");
                text.append(detail.as_str());
                text
            },
            SapientError::UnsupportedCoordinateSystem(text) => {
                joined("Unsupported coordinate system: ", text.as_str())
            },
            SapientError::TaskRejected { node_id, reason } => {
                let mut text = joined("Task rejected by node ", node_id.as_str());
                text.append(": ");
                text.append(reason.as_str());
                text
            },
            SapientError::FrameTooLarge { size, max } => {
                let size_text = decimal_text(*size as u64);
                let max_text = decimal_text(*max as u64);
                let mut text = joined("Frame too large: ", size_text.as_str());
                text.append(" bytes exceeds maximum ");
                text.append(max_text.as_str());
                text
            },
        }
    }
}

/// Every error is described by what went wrong and what it was about.
pub proof fn law_errors_say_what_went_wrong(a: Seq<char>, b: Seq<char>, m: nat, n: nat)
    ensures
        error_text(ErrorModel::Io(a)) == "I/O error: "@ + a,
        error_text(ErrorModel::Decode(a)) == "Protobuf decode error: "@ + a,
        error_text(ErrorModel::Encode(a)) == "Protobuf encode error: "@ + a,
        error_text(ErrorModel::ConnectionFailed(a)) == "Connection failed: "@ + a,
        error_text(ErrorModel::NodeNotFound(a)) == "Node "@ + a + " not registered"@,
        error_text(ErrorModel::MappingError { kind: a, detail: b }) == "Message mapping error ("@
            + a + "): "@ + b,
        error_text(ErrorModel::UnsupportedCoordinateSystem(a))
            == "Unsupported coordinate system: "@ + a,
        error_text(ErrorModel::TaskRejected { node_id: a, reason: b })
            == "Task rejected by node "@ + a + ": "@ + b,
        error_text(ErrorModel::FrameTooLarge { size: m, max: n }) == "Frame too large: "@
            + decimal(m) + " bytes exceeds maximum "@ + decimal(n),
{
}

} // verus!
