//! The open capture sessions, and what becomes of each message.

use crate::error::{Base64Error, CaptureError};
use crate::payload::{base64_standard_decode, decode_payload, payload_of, payload_view};
use crate::sequence::{SequenceDecision, SessionSequence};
use crate::text::utf8_len;
use crate::wire::{
    session_id_refusal, validate_session_id, validate_version, version_refusal, Direction,
    MessageView, WireDirection, WireMessage, MAX_URI_BYTES, PROTOCOL_VERSION,
};
use vstd::hash_map::StringHashMap;
use vstd::prelude::*;
use vstd::string::*;
use vstd::utf8::*;

verus! {

/// How many sessions may be open at once.
pub const MAX_SESSIONS: usize = 64;

/// What the bridge of a live session is labelled with, before the URI.
pub const FRAME_LABEL: &'static str = "external ws ";

/// What the bridge of a closed session is labelled with.
pub const CLOSE_LABEL: &'static str = "session-close";

/// The bridge of a session is to be acquired under this label and given up.
#[derive(Debug)]
pub struct RetireBridge {
    pub session_id: String,
    pub label: String,
}

/// The contents of a [`RetireBridge`].
#[verifier::ext_equal]
pub struct RetireView {
    pub session_id: Seq<char>,
    pub label: Seq<char>,
}

impl View for RetireBridge {
    type V = RetireView;

    open spec fn view(&self) -> RetireView {
        RetireView { session_id: self.session_id@, label: self.label@ }
    }
}

/// What is to be done about a message.
#[derive(Debug)]
pub enum CaptureAction {
    /// Nothing: the frame was accepted before.
    Duplicate,
    /// Nothing: the session is poisoned.
    Poisoned,
    /// Frames are missing: the bridge of the session is to be retired.
    Gap { expected: u64, got: u64, retire: RetireBridge },
    /// The payload is to be fed to the bridge of the session.
    Feed { session_id: String, label: String, direction: Direction, payload: Vec<u8> },
    /// The session is over: its bridge is to be retired.
    Closed { retire: RetireBridge },
}

/// The contents of a [`CaptureAction`].
#[verifier::ext_equal]
pub enum ActionView {
    Duplicate,
    Poisoned,
    Gap { expected: u64, got: u64, retire: RetireView },
    Feed { session_id: Seq<char>, label: Seq<char>, direction: Direction, payload: Seq<u8> },
    Closed { retire: RetireView },
}

impl View for CaptureAction {
    type V = ActionView;

    open spec fn view(&self) -> ActionView {
        match *self {
            CaptureAction::Duplicate => ActionView::Duplicate,
            CaptureAction::Poisoned => ActionView::Poisoned,
            CaptureAction::Gap { expected, got, retire } => ActionView::Gap {
                expected,
                got,
                retire: retire@,
            },
            CaptureAction::Feed { session_id, label, direction, payload } => ActionView::Feed {
                session_id: session_id@,
                label: label@,
                direction,
                payload: payload@,
            },
            CaptureAction::Closed { retire } => ActionView::Closed { retire: retire@ },
        }
    }
}

/// The contents of what a message comes to.
pub open spec fn outcome_view(outcome: Result<CaptureAction, CaptureError>) -> Result<
    ActionView,
    CaptureError,
> {
    match outcome {
        Ok(action) => Ok(action@),
        Err(error) => Err(error),
    }
}

/// The contents of an [`ExternalState`].
#[verifier::ext_equal]
pub struct StateView {
    /// The open sessions, by their ids.
    pub sequences: Map<Seq<char>, SessionSequence>,
    /// The largest payload that is taken.
    pub max_message_bytes: usize,
}

impl StateView {
    /// No session is open.
    pub open spec fn empty(max_message_bytes: usize) -> Self {
        StateView { sequences: Map::empty(), max_message_bytes }
    }

    /// Every open session has a valid id and a sound numbering, and there are not too
    /// many of them.
    pub open spec fn well_formed(self) -> bool {
        &&& self.sequences.dom().finite()
        &&& self.sequences.len() <= MAX_SESSIONS
        &&& forall|id: Seq<char>| #[trigger]
            self.sequences.contains_key(id) ==> session_id_refusal(id) is None
                && self.sequences[id].well_formed()
    }

    /// The numbering of a session; one that is not open has seen no frame.
    pub open spec fn session(self, id: Seq<char>) -> SessionSequence {
        if self.sequences.contains_key(id) {
            self.sequences[id]
        } else {
            SessionSequence::fresh()
        }
    }

    /// The rule that a frame breaks before its payload is looked at.
    pub open spec fn frame_refusal(
        self,
        version: u8,
        session_id: Seq<char>,
        uri: Seq<char>,
    ) -> Option<CaptureError> {
        if version_refusal(version) is Some {
            version_refusal(version)
        } else if session_id_refusal(session_id) is Some {
            session_id_refusal(session_id)
        } else if utf8_len(uri) > MAX_URI_BYTES {
            Some(CaptureError::UriTooLong)
        } else if !self.sequences.contains_key(session_id) && self.sequences.len()
            >= MAX_SESSIONS {
            Some(CaptureError::SessionLimit)
        } else {
            None
        }
    }

    /// The rule that a decoded payload breaks.
    pub open spec fn payload_refusal(self, decoded: Result<Seq<u8>, CaptureError>) -> Option<
        CaptureError,
    > {
        match decoded {
            Ok(payload) => if payload.len() > self.max_message_bytes {
                Some(CaptureError::PayloadTooLarge)
            } else {
                None
            },
            Err(error) => Some(error),
        }
    }

    /// The state once a session has observed a frame numbered `sequence`.
    pub open spec fn observed(self, session_id: Seq<char>, sequence: u64) -> Self {
        StateView {
            sequences: self.sequences.insert(
                session_id,
                self.session(session_id).after(sequence),
            ),
            ..self
        }
    }

    /// What a frame with a sound payload comes to: the numbering of its session decides.
    pub open spec fn frame_action(
        self,
        session_id: Seq<char>,
        sequence: u64,
        direction: WireDirection,
        uri: Seq<char>,
        payload: Seq<u8>,
    ) -> ActionView {
        match self.session(session_id).decision(sequence) {
            SequenceDecision::Duplicate => ActionView::Duplicate,
            SequenceDecision::Poisoned => ActionView::Poisoned,
            SequenceDecision::Gap { expected, got } => ActionView::Gap {
                expected,
                got,
                retire: RetireView { session_id, label: uri },
            },
            SequenceDecision::Accept => ActionView::Feed {
                session_id,
                label: FRAME_LABEL@ + uri,
                direction: direction.direction(),
                payload,
            },
        }
    }

    /// The rule that a message breaks, given what its payload decodes to.
    pub open spec fn refusal(
        self,
        message: MessageView,
        decoded: Result<Seq<u8>, CaptureError>,
    ) -> Option<CaptureError> {
        match message {
            MessageView::Frame { version, session_id, uri, .. } => if self.frame_refusal(
                version,
                session_id,
                uri,
            ) is Some {
                self.frame_refusal(version, session_id, uri)
            } else {
                self.payload_refusal(decoded)
            },
            MessageView::SessionClose { version, session_id } => if version_refusal(
                version,
            ) is Some {
                version_refusal(version)
            } else {
                session_id_refusal(session_id)
            },
        }
    }

    /// The state after a message, given what its payload decodes to. A refused message
    /// changes nothing.
    pub open spec fn next(
        self,
        message: MessageView,
        decoded: Result<Seq<u8>, CaptureError>,
    ) -> Self {
        if self.refusal(message, decoded) is Some {
            self
        } else {
            match message {
                MessageView::Frame { session_id, sequence, .. } => self.observed(
                    session_id,
                    sequence,
                ),
                MessageView::SessionClose { session_id, .. } => StateView {
                    sequences: self.sequences.remove(session_id),
                    ..self
                },
            }
        }
    }

    /// What a message comes to, given what its payload decodes to.
    pub open spec fn outcome(
        self,
        message: MessageView,
        decoded: Result<Seq<u8>, CaptureError>,
    ) -> Result<ActionView, CaptureError> {
        match self.refusal(message, decoded) {
            Some(error) => Err(error),
            None => Ok(
                match message {
                    MessageView::Frame {
                        session_id,
                        sequence,
                        direction,
                        uri,
                        ..
                    } => self.frame_action(session_id, sequence, direction, uri, decoded->Ok_0),
                    MessageView::SessionClose { session_id, .. } => ActionView::Closed {
                        retire: RetireView { session_id, label: CLOSE_LABEL@ },
                    },
                },
            ),
        }
    }
}

/// What the payload of a message decodes to; a message without one counts as empty.
pub open spec fn message_payload(message: MessageView) -> Result<Seq<u8>, CaptureError> {
    match message {
        MessageView::Frame { payload_base64, .. } => payload_of(encode_utf8(payload_base64)),
        MessageView::SessionClose { .. } => Ok(Seq::empty()),
    }
}

/// A well-formed state stays well-formed, whatever message comes.
pub proof fn lemma_next_well_formed(
    state: StateView,
    message: MessageView,
    decoded: Result<Seq<u8>, CaptureError>,
)
    requires
        state.well_formed(),
    ensures
        state.next(message, decoded).well_formed(),
{
    let id = message.session_id();
    let next = state.next(message, decoded);
    assert forall|other: Seq<char>| #[trigger] next.sequences.contains_key(other) implies
        session_id_refusal(other) is None && next.sequences[other].well_formed() by {
        if other != id {
            assert(state.sequences.contains_key(other));
        } else {
            assert(state.session(id).well_formed());
        }
    }
}

/// The state of the capture source.
pub struct ExternalState {
    sequences: StringHashMap<SessionSequence>,
    max_message_bytes: usize,
}

impl View for ExternalState {
    type V = StateView;

    closed spec fn view(&self) -> StateView {
        StateView { sequences: self.sequences@, max_message_bytes: self.max_message_bytes }
    }
}

impl ExternalState {
    /// A state without sessions that takes payloads of up to `max_message_bytes`.
    pub fn new(max_message_bytes: usize) -> (state: Self)
        ensures
            state@ == StateView::empty(max_message_bytes),
            state@.well_formed(),
            state@.sequences == Map::<Seq<char>, SessionSequence>::empty(),
            state@.max_message_bytes == max_message_bytes,
    {
        ExternalState { sequences: StringHashMap::new(), max_message_bytes }
    }

    /// Checks a frame against the rules that do not concern its payload.
    pub fn check_frame(&self, version: u8, session_id: &str, uri: &str) -> (checked: Result<
        (),
        CaptureError,
    >)
        ensures
            match self@.frame_refusal(version, session_id@, uri@) {
                None => checked == Ok::<(), CaptureError>(()),
                Some(error) => checked == Err::<(), CaptureError>(error),
            },
    {
        if let Err(error) = validate_version(version) {
            return Err(error);
        }
        if let Err(error) = validate_session_id(session_id) {
            return Err(error);
        }
        if uri.as_bytes().len() > MAX_URI_BYTES {
            return Err(CaptureError::UriTooLong);
        }
        if !self.sequences.contains_key(session_id) && self.sequences.len() >= MAX_SESSIONS {
            return Err(CaptureError::SessionLimit);
        }
        Ok(())
    }

    /// Takes the payload of a frame that has passed [`ExternalState::check_frame`].
    pub fn take_payload(
        &mut self,
        session_id: String,
        sequence: u64,
        direction: WireDirection,
        uri: String,
        decoded: Result<Vec<u8>, CaptureError>,
    ) -> (outcome: Result<CaptureAction, CaptureError>)
        ensures
            match old(self)@.payload_refusal(payload_view(decoded)) {
                Some(error) => outcome_view(outcome) == Err::<ActionView, CaptureError>(error)
                    && final(self)@ == old(self)@,
                None => outcome_view(outcome) == Ok::<ActionView, CaptureError>(
                    old(self)@.frame_action(
                        session_id@,
                        sequence,
                        direction,
                        uri@,
                        payload_view(decoded)->Ok_0,
                    ),
                ) && final(self)@ == old(self)@.observed(session_id@, sequence),
            },
            outcome matches Ok(CaptureAction::Feed {
                session_id: fed_id,
                label,
                direction: fed_direction,
                payload,
            }) ==> {
                &&& fed_id@ == session_id@
                &&& label@ == "external ws "@ + uri@
                &&& fed_direction == Direction::Up <==> direction == WireDirection::ClientToServer
                &&& fed_direction == Direction::Down <==> direction
                    == WireDirection::ServerToClient
                &&& decoded matches Ok(bytes) && payload@ == bytes@
            },
            outcome matches Ok(CaptureAction::Gap { expected, got, retire }) ==> {
                &&& got == sequence
                &&& got != expected
                &&& retire.session_id@ == session_id@
                &&& retire.label@ == uri@
            },
            outcome is Ok <==> (decoded matches Ok(bytes) && bytes@.len()
                <= old(self)@.max_message_bytes),
            old(self)@.well_formed() && old(self)@.frame_refusal(
                PROTOCOL_VERSION,
                session_id@,
                uri@,
            ) is None ==> final(self)@.well_formed(),
    {
        proof {
            if self@.well_formed() && self@.frame_refusal(
                PROTOCOL_VERSION,
                session_id@,
                uri@,
            ) is None {
                lemma_next_well_formed(
                    self@,
                    MessageView::Frame {
                        version: PROTOCOL_VERSION,
                        session_id: session_id@,
                        sequence,
                        timestamp_ms: 0,
                        direction,
                        uri: uri@,
                        payload_base64: Seq::empty(),
                    },
                    payload_view(decoded),
                );
            }
        }
        let payload = match decoded {
            Ok(payload) => payload,
            Err(error) => {
                return Err(error);
            },
        };
        if payload.len() > self.max_message_bytes {
            return Err(CaptureError::PayloadTooLarge);
        }
        let mut session = match self.sequences.get(session_id.as_str()) {
            Some(session) => *session,
            None => SessionSequence::default(),
        };
        let decision = session.observe(sequence);
        self.sequences.insert(session_id.clone(), session);
        match decision {
            SequenceDecision::Duplicate => Ok(CaptureAction::Duplicate),
            SequenceDecision::Poisoned => Ok(CaptureAction::Poisoned),
            SequenceDecision::Gap { expected, got } => Ok(
                CaptureAction::Gap {
                    expected,
                    got,
                    retire: self.retire_bridge(session_id.as_str(), uri.as_str()),
                },
            ),
            SequenceDecision::Accept => {
                let mut label = FRAME_LABEL.to_string();
                label.append(uri.as_str());
                Ok(
                    CaptureAction::Feed {
                        session_id,
                        label,
                        direction: Direction::from(direction),
                        payload,
                    },
                )
            },
        }
    }

    /// Processes one message of the client.
    pub fn process(&mut self, message: WireMessage) -> (outcome: Result<
        CaptureAction,
        CaptureError,
    >)
        ensures
            outcome_view(outcome) == old(self)@.outcome(message@, message_payload(message@)),
            final(self)@ == old(self)@.next(message@, message_payload(message@)),
            outcome matches Ok(CaptureAction::Feed {
                session_id: fed_id,
                label,
                direction: fed_direction,
                payload,
            }) ==> {
                &&& message matches WireMessage::Frame {
                    session_id,
                    direction,
                    uri,
                    payload_base64,
                    ..
                }
                &&& fed_id@ == session_id@
                &&& label@ == "external ws "@ + uri@
                &&& fed_direction == Direction::Up <==> direction == WireDirection::ClientToServer
                &&& fed_direction == Direction::Down <==> direction
                    == WireDirection::ServerToClient
                &&& base64_standard_decode(encode_utf8(payload_base64@)) == Ok::<
                    Seq<u8>,
                    Base64Error,
                >(payload@)
            },
            outcome matches Ok(CaptureAction::Gap { expected, got, retire }) ==> {
                &&& message matches WireMessage::Frame { session_id, sequence, uri, .. }
                &&& got == sequence
                &&& got != expected
                &&& retire.session_id@ == session_id@
                &&& retire.label@ == uri@
            },
            outcome matches Ok(CaptureAction::Closed { retire }) ==> {
                &&& message matches WireMessage::SessionClose { session_id, .. }
                &&& retire.session_id@ == session_id@
                &&& retire.label@ == "session-close"@
            },
            outcome is Err ==> final(self)@ == old(self)@,
            old(self)@.well_formed() ==> final(self)@.well_formed(),
    {
        proof {
            if self@.well_formed() {
                lemma_next_well_formed(self@, message@, message_payload(message@));
            }
        }
        match message {
            WireMessage::Frame {
                version,
                session_id,
                sequence,
                timestamp_ms: _,
                direction,
                uri,
                payload_base64,
            } => {
                if let Err(error) = self.check_frame(version, session_id.as_str(), uri.as_str()) {
                    return Err(error);
                }
                let decoded = decode_payload(payload_base64.as_str().as_bytes());
                self.take_payload(session_id, sequence, direction, uri, decoded)
            },
            WireMessage::SessionClose { version, session_id } => {
                if let Err(error) = validate_version(version) {
                    return Err(error);
                }
                if let Err(error) = validate_session_id(session_id.as_str()) {
                    return Err(error);
                }
                self.sequences.remove(session_id.as_str());
                Ok(
                    CaptureAction::Closed {
                        retire: self.retire_bridge(session_id.as_str(), CLOSE_LABEL),
                    },
                )
            },
        }
    }

    /// The bridge to retire for a session, under the given label.
    pub fn retire_bridge(&self, session_id: &str, label: &str) -> (retire: RetireBridge)
        ensures
            retire@ == (RetireView { session_id: session_id@, label: label@ }),
            retire.session_id@ == session_id@,
            retire.label@ == label@,
    {
        RetireBridge { session_id: session_id.to_string(), label: label.to_string() }
    }
}

} // verus!
