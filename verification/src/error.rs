//! Why the capture source refuses a configuration, a message or a connection.

use crate::text::{decimal, decimal_text};
use vstd::prelude::*;
use vstd::string::*;

verus! {

/// What is wrong with a text that is not base64.
#[derive(Debug, Clone, Copy, PartialEq, Eq, Structural)]
pub enum Base64Error {
    /// A byte is not in the alphabet, or a padding byte is out of place.
    InvalidByte { offset: usize, byte: u8 },
    /// The number of symbols is not one that any bytes encode to.
    InvalidLength { length: usize },
    /// The last symbol has bits that belong to no byte.
    InvalidLastSymbol { offset: usize, byte: u8 },
    /// The padding is missing or wrong.
    InvalidPadding,
}

/// Why the source refuses something.
#[derive(Debug, Clone, Copy, PartialEq, Eq, Structural)]
pub enum CaptureError {
    /// The configuration switches the source off.
    Disabled,
    /// The configured token is empty once trimmed.
    BlankAuthToken,
    /// The frames of the selected platform cannot be captured.
    UnsupportedPlatform,
    /// The listener could not accept a connection.
    AcceptFailed,
    /// The connection could not be upgraded to a WebSocket, or was not authorized.
    UpgradeFailed,
    /// The socket could not be read.
    ReadFailed,
    /// A text message is not JSON of a known shape.
    InvalidJson,
    /// A message arrived as binary data.
    BinaryMessage,
    /// A message arrived as a raw frame.
    RawFrame,
    /// A message speaks another version of the protocol.
    UnsupportedVersion { version: u8 },
    /// A session id is empty or too long.
    SessionIdLength,
    /// A session id holds a character that it may not hold.
    SessionIdCharacters,
    /// The URI of a frame is too long.
    UriTooLong,
    /// A frame would open one session too many.
    SessionLimit,
    /// The payload of a frame is not base64.
    PayloadNotBase64 { cause: Base64Error },
    /// The decoded payload of a frame is too large.
    PayloadTooLarge,
}

impl CaptureError {
    /// The text of the error.
    pub open spec fn text(self) -> Seq<char> {
        match self {
            CaptureError::Disabled =>
                "external capture is selected but capture.external.enabled is false"@,
            CaptureError::BlankAuthToken => "external capture requires a non-empty auth token"@,
            CaptureError::UnsupportedPlatform =>
                "external capture currently accepts Majsoul frames only"@,
            CaptureError::AcceptFailed => "accepting external capture connection"@,
            CaptureError::UpgradeFailed => "external capture WebSocket upgrade failed"@,
            CaptureError::ReadFailed => "reading external capture WebSocket message"@,
            CaptureError::InvalidJson => "invalid external capture JSON message"@,
            CaptureError::BinaryMessage =>
                "external capture protocol v1 requires JSON text messages"@,
            CaptureError::RawFrame => "unexpected raw WebSocket frame"@,
            CaptureError::UnsupportedVersion { version } =>
                "unsupported external capture protocol version "@ + decimal(version as nat),
            CaptureError::SessionIdLength => "external capture session id length is invalid"@,
            CaptureError::SessionIdCharacters =>
                "external capture session id contains invalid characters"@,
            CaptureError::UriTooLong => "external capture URI is too long"@,
            CaptureError::SessionLimit => "external capture session limit exceeded"@,
            CaptureError::PayloadNotBase64 { .. } => "external capture payload is not valid base64"@,
            CaptureError::PayloadTooLarge =>
                "external capture decoded payload exceeds configured limit"@,
        }
    }

    /// Writes the error for an operator.
    pub fn message(&self) -> (message: String)
        ensures
            message@ == self.text(),
    {
        match self {
            CaptureError::Disabled =>
                "external capture is selected but capture.external.enabled is false".to_string(),
            CaptureError::BlankAuthToken =>
                "external capture requires a non-empty auth token".to_string(),
            CaptureError::UnsupportedPlatform =>
                "external capture currently accepts Majsoul frames only".to_string(),
            CaptureError::AcceptFailed => "accepting external capture connection".to_string(),
            CaptureError::UpgradeFailed =>
                "external capture WebSocket upgrade failed".to_string(),
            CaptureError::ReadFailed => "reading external capture WebSocket message".to_string(),
            CaptureError::InvalidJson => "invalid external capture JSON message".to_string(),
            CaptureError::BinaryMessage =>
                "external capture protocol v1 requires JSON text messages".to_string(),
            CaptureError::RawFrame => "unexpected raw WebSocket frame".to_string(),
            CaptureError::UnsupportedVersion { version } => {
                let mut message = "unsupported external capture protocol version ".to_string();
                message.append(decimal_text(*version).as_str());
                message
            },
            CaptureError::SessionIdLength =>
                "external capture session id length is invalid".to_string(),
            CaptureError::SessionIdCharacters =>
                "external capture session id contains invalid characters".to_string(),
            CaptureError::UriTooLong => "external capture URI is too long".to_string(),
            CaptureError::SessionLimit => "external capture session limit exceeded".to_string(),
            CaptureError::PayloadNotBase64 { .. } =>
                "external capture payload is not valid base64".to_string(),
            CaptureError::PayloadTooLarge =>
                "external capture decoded payload exceeds configured limit".to_string(),
        }
    }
}

} // verus!
