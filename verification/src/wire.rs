//! The messages of the capture protocol and the rules on their fields.

use crate::error::CaptureError;
use crate::text::{lemma_ascii_bytes, utf8_len};
use vstd::prelude::*;
use vstd::string::*;
use vstd::utf8::*;

verus! {

/// The one version of the protocol that is spoken.
pub const PROTOCOL_VERSION: u8 = 1;

/// The longest session id, in bytes.
pub const MAX_SESSION_ID_BYTES: usize = 128;

/// The longest URI of a frame, in bytes.
pub const MAX_URI_BYTES: usize = 2048;

/// The way a frame travels, seen from the client.
#[derive(Debug, Clone, Copy, PartialEq, Eq, Structural)]
pub enum Direction {
    Up,
    Down,
}

/// The way a frame travels, as a message names it.
#[derive(Debug, Clone, Copy, PartialEq, Eq, Structural)]
pub enum WireDirection {
    ClientToServer,
    ServerToClient,
}

impl WireDirection {
    /// What the client sends goes up, what the server sends comes down.
    pub open spec fn direction(self) -> Direction {
        match self {
            WireDirection::ClientToServer => Direction::Up,
            WireDirection::ServerToClient => Direction::Down,
        }
    }
}

impl From<WireDirection> for Direction {
    fn from(value: WireDirection) -> (direction: Self) {
        match value {
            WireDirection::ClientToServer => Direction::Up,
            WireDirection::ServerToClient => Direction::Down,
        }
    }
}

impl vstd::std_specs::convert::FromSpecImpl<WireDirection> for Direction {
    open spec fn obeys_from_spec() -> bool {
        true
    }

    open spec fn from_spec(value: WireDirection) -> Self {
        value.direction()
    }
}

/// One message of a capture client.
#[derive(Debug)]
pub enum WireMessage {
    /// One captured frame.
    Frame {
        version: u8,
        session_id: String,
        sequence: u64,
        timestamp_ms: i64,
        direction: WireDirection,
        uri: String,
        payload_base64: String,
    },
    /// The end of a captured session.
    SessionClose { version: u8, session_id: String },
}

/// The contents of a message.
#[verifier::ext_equal]
pub enum MessageView {
    Frame {
        version: u8,
        session_id: Seq<char>,
        sequence: u64,
        timestamp_ms: i64,
        direction: WireDirection,
        uri: Seq<char>,
        payload_base64: Seq<char>,
    },
    SessionClose { version: u8, session_id: Seq<char> },
}

impl MessageView {
    pub open spec fn session_id(self) -> Seq<char> {
        match self {
            MessageView::Frame { session_id, .. } => session_id,
            MessageView::SessionClose { session_id, .. } => session_id,
        }
    }
}

impl View for WireMessage {
    type V = MessageView;

    open spec fn view(&self) -> MessageView {
        match *self {
            WireMessage::Frame {
                version,
                session_id,
                sequence,
                timestamp_ms,
                direction,
                uri,
                payload_base64,
            } => MessageView::Frame {
                version,
                session_id: session_id@,
                sequence,
                timestamp_ms,
                direction,
                uri: uri@,
                payload_base64: payload_base64@,
            },
            WireMessage::SessionClose { version, session_id } => MessageView::SessionClose {
                version,
                session_id: session_id@,
            },
        }
    }
}

/// The rule that a version breaks.
pub open spec fn version_refusal(version: u8) -> Option<CaptureError> {
    if version == PROTOCOL_VERSION {
        None
    } else {
        Some(CaptureError::UnsupportedVersion { version })
    }
}

/// Checks the version of a message.
pub fn validate_version(version: u8) -> (valid: Result<(), CaptureError>)
    ensures
        valid is Ok <==> version == 1,
        match version_refusal(version) {
            None => valid == Ok::<(), CaptureError>(()),
            Some(error) => valid == Err::<(), CaptureError>(error),
        },
{
    if version != PROTOCOL_VERSION {
        return Err(CaptureError::UnsupportedVersion { version });
    }
    Ok(())
}

/// The characters of a session id: ASCII letters and digits, and `-`, `_`, `.`, `/`.
pub open spec fn session_id_char(c: char) -> bool {
    ||| 'a' <= c <= 'z'
    ||| 'A' <= c <= 'Z'
    ||| '0' <= c <= '9'
    ||| c == '-'
    ||| c == '_'
    ||| c == '.'
    ||| c == '/'
}

/// The rule that a session id breaks: its length is looked at first.
pub open spec fn session_id_refusal(session_id: Seq<char>) -> Option<CaptureError> {
    if session_id.len() == 0 || utf8_len(session_id) > MAX_SESSION_ID_BYTES {
        Some(CaptureError::SessionIdLength)
    } else if exists|i: int| 0 <= i < session_id.len() && !session_id_char(#[trigger] session_id[i]) {
        Some(CaptureError::SessionIdCharacters)
    } else {
        None
    }
}

fn is_session_id_char(c: char) -> (r: bool)
    ensures
        r == session_id_char(c),
{
    ('a' <= c && c <= 'z') || ('A' <= c && c <= 'Z') || ('0' <= c && c <= '9') || c == '-' || c
        == '_' || c == '.' || c == '/'
}

/// Checks a session id: 1 to 128 bytes that are safe in a file name.
pub fn validate_session_id(session_id: &str) -> (valid: Result<(), CaptureError>)
    ensures
        match session_id_refusal(session_id@) {
            None => valid == Ok::<(), CaptureError>(()),
            Some(error) => valid == Err::<(), CaptureError>(error),
        },
{
    let bytes = session_id.as_bytes();
    if session_id.is_empty() || bytes.len() > MAX_SESSION_ID_BYTES {
        return Err(CaptureError::SessionIdLength);
    }
    let mut i: usize = 0;
    while i < bytes.len()
        invariant
            i <= bytes@.len(),
            bytes@ == encode_utf8(session_id@),
            0 < session_id@.len(),
            utf8_len(session_id@) <= MAX_SESSION_ID_BYTES,
            forall|j: int|
                0 <= j < i ==> session_id_char(#[trigger] bytes@[j] as char),
        decreases bytes@.len() - i,
    {
        if !is_session_id_char(bytes[i] as char) {
            proof {
                if is_ascii_chars(session_id@) {
                    is_ascii_chars_encode_utf8(session_id@);
                    assert(!session_id_char(session_id@[i as int]));
                } else {
                    let k = choose|k: int|
                        0 <= k < session_id@.len() && !('\0' <= #[trigger] session_id@[k]
                            <= '\u{7f}');
                    assert(!session_id_char(session_id@[k]));
                }
            }
            return Err(CaptureError::SessionIdCharacters);
        }
        i += 1;
    }
    proof {
        lemma_ascii_bytes(session_id@);
        is_ascii_chars_encode_utf8(session_id@);
        assert forall|k: int| 0 <= k < session_id@.len() implies session_id_char(
            #[trigger] session_id@[k],
        ) by {
            assert(session_id@[k] as u8 == bytes@[k]);
            assert(bytes@[k] as char == session_id@[k]);
        }
    }
    Ok(())
}

} // verus!
