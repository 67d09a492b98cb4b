//! What each operation does, said of its inputs and its results alone.

use crate::auth::{
    answer, answers, byte_or_zero, difference, difference_upto, first_value, header_text, Answer,
    Rejection,
};
use crate::backend::{
    listener_reaction, message_limit, start_refusal, ExternalCaptureConfig, ListenerEvent,
    ListenerStep, Platform,
};
use crate::connection::{reaction, state_after, ConnectionStep, EventView, SocketEvent, StepView};
use crate::error::{Base64Error, CaptureError};
use crate::laws::{
    arrives, fed, feeds, law_sessions_stay_bounded, one_to, run, yields,
};
use crate::payload::{base64_standard_decode, payload_of, payload_view};
use crate::sequence::{SequenceDecision, SessionSequence};
use crate::state::{
    outcome_view, ActionView, CaptureAction, RetireBridge, RetireView, StateView,
};
use crate::text::{blank, decimal, white_space, without_prefix};
use crate::wire::{
    session_id_refusal, version_refusal, Direction, MessageView, WireDirection, WireMessage,
};
use vstd::prelude::*;
use vstd::utf8::*;

verus! {

/// The number that is due after the last one; the first number is 1.
pub open spec fn due(last: Option<u64>) -> int {
    match last {
        Some(last) => last + 1,
        None => 1,
    }
}

/// Nothing but ASCII letters and digits, `-`, `_`, `.` and `/` stands in `id`.
pub open spec fn plain(id: Seq<char>) -> bool {
    forall|i: int|
        0 <= i < id.len() ==> ('a' <= #[trigger] id[i] <= 'z' || 'A' <= id[i] <= 'Z' || '0'
            <= id[i] <= '9' || id[i] == '-' || id[i] == '_' || id[i] == '.' || id[i] == '/')
}

/// The last number that session `id` accepted.
pub open spec fn last_of(state: StateView, id: Seq<char>) -> Option<u64> {
    if state.sequences.contains_key(id) {
        state.sequences[id].last
    } else {
        None
    }
}

/// Session `id` is open and poisoned.
pub open spec fn poisoned_in(state: StateView, id: Seq<char>) -> bool {
    state.sequences.contains_key(id) && state.sequences[id].poisoned
}

/// What is trimmed off a text.
pub open spec fn trimmed(c: char) -> bool {
    let code = c as u32;
    ||| 9 <= code <= 13
    ||| code == 0x20
    ||| code == 0x85
    ||| code == 0xa0
    ||| code == 0x1680
    ||| 0x2000 <= code <= 0x200a
    ||| code == 0x2028
    ||| code == 0x2029
    ||| code == 0x202f
    ||| code == 0x205f
    ||| code == 0x3000
}

/// A fresh session has accepted nothing and is not poisoned.
pub proof fn law_fresh_session_is_empty()
    ensures
        SessionSequence::fresh().last is None,
        !SessionSequence::fresh().poisoned,
{
}

/// In a session that is not poisoned the frame that is due is always accepted, and becomes
/// the last one.
pub proof fn law_due_frame_is_accepted(session: SessionSequence, sequence: u64)
    requires
        !session.poisoned,
        sequence == due(session.last),
    ensures
        session.decision(sequence) == SequenceDecision::Accept,
        session.after(sequence).last == Some(sequence),
        !session.after(sequence).poisoned,
{
}

/// In a session that is not poisoned a frame up to the last one is a duplicate, and changes
/// nothing.
pub proof fn law_seen_frame_is_a_duplicate(session: SessionSequence, sequence: u64)
    requires
        !session.poisoned,
        session.last is Some,
        sequence <= session.last->0,
    ensures
        session.decision(sequence) == SequenceDecision::Duplicate,
        session.after(sequence) == session,
{
}

/// Any other frame of such a session is a gap, which says what was due and what came, and
/// poisons the session. What came is never what was due.
pub proof fn law_other_frame_is_a_gap(session: SessionSequence, sequence: u64)
    requires
        !session.poisoned,
        sequence != due(session.last),
        session.last is Some ==> sequence > session.last->0,
    ensures
        session.decision(sequence) matches SequenceDecision::Gap { expected, got } && expected
            == due(session.last) && got == sequence && got != expected,
        session.after(sequence).last == session.last,
        session.after(sequence).poisoned,
{
}

/// A poisoned session drops every frame and stays as it is.
pub proof fn law_poisoned_session_drops_everything(session: SessionSequence, sequence: u64)
    requires
        session.poisoned,
    ensures
        session.decision(sequence) == SequenceDecision::Poisoned,
        session.after(sequence) == session,
{
}

/// The session after a series of frames.
pub open spec fn after_all(session: SessionSequence, numbers: Seq<u64>) -> SessionSequence
    decreases numbers.len(),
{
    if numbers.len() == 0 {
        session
    } else {
        after_all(session, numbers.drop_last()).after(numbers.last())
    }
}

/// A session that sees 1, 2, 3 and so on, each once, accepts all of them.
pub proof fn law_numbers_in_order_are_all_accepted(count: u64)
    ensures
        after_all(SessionSequence::fresh(), one_to(count as nat)) == (SessionSequence {
            last: if count == 0 {
                None
            } else {
                Some(count)
            },
            poisoned: false,
        }),
        count < u64::MAX ==> after_all(SessionSequence::fresh(), one_to(count as nat)).decision(
            (count + 1) as u64,
        ) == SequenceDecision::Accept,
    decreases count,
{
    if count > 0 {
        law_numbers_in_order_are_all_accepted((count - 1) as u64);
        assert(one_to(count as nat).drop_last() =~= one_to((count - 1) as nat));
        assert(one_to(count as nat).last() == count);
    }
}

/// What the client sent goes up and what the server sent comes down, and nothing else does.
pub proof fn law_directions_follow_the_sender(direction: WireDirection)
    ensures
        direction.direction() == Direction::Up <==> direction == WireDirection::ClientToServer,
        direction.direction() == Direction::Down <==> direction == WireDirection::ServerToClient,
{
}

/// The version rule: 1 and no other.
pub proof fn law_only_version_one(version: u8)
    ensures
        version_refusal(version) is None <==> version == 1,
        version != 1 ==> version_refusal(version) == Some(
            CaptureError::UnsupportedVersion { version },
        ),
{
}

/// The session id rule: 1 to 128 bytes, all of them plain. A wrong length is reported
/// first.
pub proof fn law_session_id_rule(id: Seq<char>)
    ensures
        session_id_refusal(id) is None <==> 1 <= encode_utf8(id).len() <= 128 && plain(id),
        id.len() == 0 || encode_utf8(id).len() > 128 ==> session_id_refusal(id) == Some(
            CaptureError::SessionIdLength,
        ),
        id.len() > 0 && encode_utf8(id).len() <= 128 && !plain(id) ==> session_id_refusal(id)
            == Some(CaptureError::SessionIdCharacters),
{
    if id.len() > 0 {
        let head = encode_scalar(id[0] as u32);
        assert(encode_utf8(id) == head + encode_utf8(id.drop_first()));
        assert(head.len() > 0);
    }
    assert(plain(id) <==> forall|i: int|
        0 <= i < id.len() ==> crate::wire::session_id_char(#[trigger] id[i]));
}

/// The rules on a frame before its payload is decoded, in the order in which they are
/// looked at.
pub proof fn law_frame_rules(state: StateView, version: u8, id: Seq<char>, uri: Seq<char>)
    ensures
        ({
            let refusal = state.frame_refusal(version, id, uri);
            let id_length = 1 <= encode_utf8(id).len() <= 128;
            let room = state.sequences.contains_key(id) || state.sequences.len() < 64;
            &&& refusal is None <==> version == 1 && id_length && plain(id) && encode_utf8(
                uri,
            ).len() <= 2048 && room
            &&& version != 1 ==> refusal == Some(CaptureError::UnsupportedVersion { version })
            &&& version == 1 && !id_length ==> refusal == Some(CaptureError::SessionIdLength)
            &&& version == 1 && id_length && !plain(id) ==> refusal == Some(
                CaptureError::SessionIdCharacters,
            )
            &&& version == 1 && id_length && plain(id) && encode_utf8(uri).len() > 2048
                ==> refusal == Some(CaptureError::UriTooLong)
            &&& version == 1 && id_length && plain(id) && encode_utf8(uri).len() <= 2048 && !room
                ==> refusal == Some(CaptureError::SessionLimit)
        }),
{
    law_only_version_one(version);
    law_session_id_rule(id);
    assert(encode_utf8(Seq::<char>::empty()).len() == 0);
    if id.len() == 0 {
        assert(id =~= Seq::<char>::empty());
    }
}

/// A payload is all that the decoder returns, or else the decoder's complaint.
pub proof fn law_payload_is_all_that_decodes(encoded: Seq<u8>)
    ensures
        forall|bytes: Seq<u8>|
            base64_standard_decode(encoded) == Ok::<Seq<u8>, Base64Error>(bytes) <==> payload_of(
                encoded,
            ) == Ok::<Seq<u8>, CaptureError>(bytes),
        forall|cause: Base64Error|
            base64_standard_decode(encoded) == Err::<Seq<u8>, Base64Error>(cause) <==> payload_of(
                encoded,
            ) == Err::<Seq<u8>, CaptureError>(CaptureError::PayloadNotBase64 { cause }),
{
}

/// The rules on a decoded payload: it has to be there, and within the limit, whatever
/// else it holds.
pub proof fn law_payload_rules(state: StateView, decoded: Result<Seq<u8>, CaptureError>)
    ensures
        state.payload_refusal(decoded) is None <==> decoded is Ok && decoded->Ok_0.len()
            <= state.max_message_bytes,
        decoded is Ok && decoded->Ok_0.len() > state.max_message_bytes ==> state.payload_refusal(
            decoded,
        ) == Some(CaptureError::PayloadTooLarge),
        decoded is Err ==> state.payload_refusal(decoded) == Some(decoded->Err_0),
{
}

/// A new state has no session and the limit that it was given.
pub proof fn law_new_state_is_empty(max_message_bytes: usize)
    ensures
        StateView::empty(max_message_bytes).max_message_bytes == max_message_bytes,
        forall|id: Seq<char>|
            !(#[trigger] StateView::empty(max_message_bytes).sequences.contains_key(id)),
{
}

/// What a frame with a sound payload comes to, whatever its session: it is fed if it is
/// due, dropped if it was seen or the session is poisoned, and a gap otherwise.
pub proof fn law_number_decides(
    state: StateView,
    id: Seq<char>,
    sequence: u64,
    direction: WireDirection,
    uri: Seq<char>,
    payload: Seq<u8>,
)
    ensures
        ({
            let action = state.frame_action(id, sequence, direction, uri, payload);
            let last = last_of(state, id);
            let seen = last is Some && sequence <= last->0;
            let poisoned = poisoned_in(state, id);
            &&& action == ActionView::Poisoned <==> poisoned
            &&& action == ActionView::Duplicate <==> !poisoned && seen
            &&& action is Feed <==> !poisoned && sequence == due(last)
            &&& action is Feed ==> action->session_id == id && action->label == "external ws "@
                + uri && action->payload == payload && (action->direction == Direction::Up <==> (
            direction == WireDirection::ClientToServer))
            &&& action is Gap <==> !poisoned && !seen && sequence != due(last)
            &&& action is Gap ==> action->expected == due(last) && action->got == sequence
                && action->Gap_retire.session_id == id && action->Gap_retire.label == uri
        }),
{
}

/// What a frame with a sound payload leaves, whatever its session: only its own session
/// changes, to the new last number if the frame was due, and to poisoned on a gap.
pub proof fn law_number_is_recorded(
    state: StateView,
    id: Seq<char>,
    sequence: u64,
    other: Seq<char>,
)
    ensures
        ({
            let after = state.observed(id, sequence);
            let last = last_of(state, id);
            let seen = last is Some && sequence <= last->0;
            let poisoned = poisoned_in(state, id);
            &&& after.max_message_bytes == state.max_message_bytes
            &&& after.sequences.contains_key(id)
            &&& after.sequences[id].last == (if !poisoned && sequence == due(last) {
                Some(sequence)
            } else {
                last
            })
            &&& after.sequences[id].poisoned == (poisoned || !seen && sequence != due(last))
            &&& other != id ==> after.sequences.contains_key(other)
                == state.sequences.contains_key(other)
            &&& other != id && state.sequences.contains_key(other) ==> after.sequences[other]
                == state.sequences[other]
        }),
{
}

/// Which frames are taken and which are refused, and with what: the rules on its fields
/// come first, then the payload, which is what its text decodes to.
pub proof fn law_frame_is_taken_or_refused(state: StateView, message: MessageView)
    requires
        message is Frame,
    ensures
        ({
            let id = message->Frame_session_id;
            let bytes = encode_utf8(message->payload_base64);
            let early = state.frame_refusal(message->Frame_version, id, message->uri);
            let decoded = base64_standard_decode(bytes);
            &&& early is Some ==> yields(state, message) == Err::<ActionView, CaptureError>(
                early->0,
            )
            &&& early is None && decoded is Err ==> yields(state, message) == Err::<
                ActionView,
                CaptureError,
            >(CaptureError::PayloadNotBase64 { cause: decoded->Err_0 })
            &&& early is None && decoded is Ok && decoded->Ok_0.len() > state.max_message_bytes
                ==> yields(state, message) == Err::<ActionView, CaptureError>(
                CaptureError::PayloadTooLarge,
            )
            &&& yields(state, message) is Ok <==> early is None && decoded is Ok
                && decoded->Ok_0.len() <= state.max_message_bytes
        }),
{
}

/// A taken frame that is due in its session is fed to the bridge of that session: under
/// the session's id, labelled with its URI, in the direction of its sender, and with all
/// that its text decodes to.
pub proof fn law_due_frame_is_fed(state: StateView, message: MessageView)
    requires
        message is Frame,
        yields(state, message) is Ok,
        !poisoned_in(state, message->Frame_session_id),
        message->sequence == due(last_of(state, message->Frame_session_id)),
    ensures
        yields(state, message)->Ok_0 is Feed,
        yields(state, message)->Ok_0->session_id == message->Frame_session_id,
        yields(state, message)->Ok_0->label == "external ws "@ + message->uri,
        base64_standard_decode(encode_utf8(message->payload_base64)) == Ok::<
            Seq<u8>,
            Base64Error,
        >(yields(state, message)->Ok_0->payload),
        yields(state, message)->Ok_0->direction == Direction::Up <==> message->direction
            == WireDirection::ClientToServer,
        yields(state, message)->Ok_0->direction == Direction::Down <==> message->direction
            == WireDirection::ServerToClient,
        arrives(state, message).sequences == state.sequences.insert(
            message->Frame_session_id,
            SessionSequence { last: Some(message->sequence), poisoned: false },
        ),
        arrives(state, message).max_message_bytes == state.max_message_bytes,
{
}

/// Whatever is fed is a due frame of its own session: nothing else reaches a bridge.
pub proof fn law_only_due_frames_are_fed(state: StateView, message: MessageView)
    requires
        yields(state, message) is Ok,
        yields(state, message)->Ok_0 is Feed,
    ensures
        message is Frame,
        !poisoned_in(state, message->Frame_session_id),
        message->sequence == due(last_of(state, message->Frame_session_id)),
{
}

/// Of one frame in two states, what is fed is the same: it depends on the frame alone.
pub proof fn law_what_is_fed_depends_on_the_frame(
    state: StateView,
    other: StateView,
    message: MessageView,
)
    requires
        feeds(state, message, message.session_id()),
        feeds(other, message, message.session_id()),
    ensures
        yields(state, message) == yields(other, message),
{
}

/// A taken frame up to the last one of its session is dropped as a duplicate.
pub proof fn law_seen_frame_is_dropped(state: StateView, message: MessageView)
    requires
        message is Frame,
        yields(state, message) is Ok,
        !poisoned_in(state, message->Frame_session_id),
        last_of(state, message->Frame_session_id) is Some,
        message->sequence <= last_of(state, message->Frame_session_id)->0,
    ensures
        yields(state, message) == Ok::<ActionView, CaptureError>(ActionView::Duplicate),
        arrives(state, message) == state,
{
    let id = message->Frame_session_id;
    assert(state.sequences.insert(id, state.sequences[id]) =~= state.sequences);
}

/// A taken frame of a poisoned session is dropped as such.
pub proof fn law_frame_of_poisoned_session_is_dropped(state: StateView, message: MessageView)
    requires
        message is Frame,
        yields(state, message) is Ok,
        poisoned_in(state, message->Frame_session_id),
    ensures
        yields(state, message) == Ok::<ActionView, CaptureError>(ActionView::Poisoned),
        arrives(state, message) == state,
{
    let id = message->Frame_session_id;
    assert(state.sequences.insert(id, state.sequences[id]) =~= state.sequences);
}

/// Any other taken frame retires the bridge of its session, under the URI of the frame,
/// and poisons the session.
pub proof fn law_other_frame_retires_the_bridge(state: StateView, message: MessageView)
    requires
        message is Frame,
        yields(state, message) is Ok,
        !poisoned_in(state, message->Frame_session_id),
        message->sequence != due(last_of(state, message->Frame_session_id)),
        last_of(state, message->Frame_session_id) is Some ==> message->sequence > last_of(
            state,
            message->Frame_session_id,
        )->0,
    ensures
        yields(state, message)->Ok_0 matches ActionView::Gap { expected, got, retire } && expected
            == due(last_of(state, message->Frame_session_id)) && got == message->sequence
            && retire.session_id == message->Frame_session_id && retire.label == message->uri,
        arrives(state, message).sequences == state.sequences.insert(
            message->Frame_session_id,
            SessionSequence {
                last: last_of(state, message->Frame_session_id),
                poisoned: true,
            },
        ),
        arrives(state, message).max_message_bytes == state.max_message_bytes,
{
}

/// A close is carried out whenever its version and its session id are sound, and refused
/// otherwise. It retires the bridge under the label of a close and forgets the session.
pub proof fn law_close_is_carried_out_or_refused(state: StateView, message: MessageView)
    requires
        message is SessionClose,
    ensures
        ({
            let version = message->SessionClose_version;
            let id = message->SessionClose_session_id;
            let id_length = 1 <= encode_utf8(id).len() <= 128;
            &&& version == 1 && id_length && plain(id) ==> yields(state, message) == Ok::<
                ActionView,
                CaptureError,
            >(
                ActionView::Closed {
                    retire: RetireView { session_id: id, label: "session-close"@ },
                },
            )
            &&& version == 1 && id_length && plain(id) ==> arrives(state, message)
                == (StateView {
                sequences: state.sequences.remove(id),
                max_message_bytes: state.max_message_bytes,
            })
            &&& version != 1 ==> yields(state, message) == Err::<ActionView, CaptureError>(
                CaptureError::UnsupportedVersion { version },
            )
            &&& version == 1 && !id_length ==> yields(state, message) == Err::<
                ActionView,
                CaptureError,
            >(CaptureError::SessionIdLength)
            &&& version == 1 && id_length && !plain(id) ==> yields(state, message) == Err::<
                ActionView,
                CaptureError,
            >(CaptureError::SessionIdCharacters)
        }),
{
    law_only_version_one(message->SessionClose_version);
    law_session_id_rule(message->SessionClose_session_id);
    if message->SessionClose_session_id.len() == 0 {
        assert(message->SessionClose_session_id =~= Seq::<char>::empty());
    }
}

/// A session that is sent 1, 2, 3 and so on in taken frames, starting while it is not
/// open, is fed all of them.
pub proof fn law_frames_in_order_are_all_fed(
    state: StateView,
    messages: Seq<MessageView>,
    id: Seq<char>,
)
    requires
        !state.sequences.contains_key(id),
        forall|i: int|
            0 <= i < messages.len() ==> {
                &&& (#[trigger] messages[i]) is Frame
                &&& messages[i]->Frame_session_id == id
                &&& messages[i]->sequence == i + 1
                &&& yields(run(state, messages.take(i)), messages[i]) is Ok
            },
    ensures
        fed(state, messages, id) == one_to(messages.len()),
        messages.len() > 0 ==> {
            &&& run(state, messages).sequences.contains_key(id)
            &&& run(state, messages).sequences[id].last == Some(messages.last()->sequence)
            &&& !run(state, messages).sequences[id].poisoned
        },
    decreases messages.len(),
{
    if messages.len() == 0 {
        assert(fed(state, messages, id) =~= one_to(0));
    } else {
        let front = messages.drop_last();
        let last = messages.len() - 1;
        assert forall|i: int| 0 <= i < front.len() implies {
            &&& (#[trigger] front[i]) is Frame
            &&& front[i]->Frame_session_id == id
            &&& front[i]->sequence == i + 1
            &&& yields(run(state, front.take(i)), front[i]) is Ok
        } by {
            assert(front[i] == messages[i]);
            assert(front.take(i) =~= messages.take(i));
        }
        law_frames_in_order_are_all_fed(state, front, id);
        assert(front =~= messages.take(last));
        assert(messages[last] == messages.last());
        if front.len() > 0 {
            assert(front.last() == messages[last - 1]);
        }
        let before = run(state, front);
        assert(due(last_of(before, id)) == messages.last()->sequence);
        law_due_frame_is_fed(before, messages.last());
        assert(fed(state, messages, id) =~= one_to(messages.len()));
    }
}

/// Whatever messages come, at most 64 sessions are open, and each of them under an id of 1
/// to 128 plain bytes.
pub proof fn law_open_sessions_are_bounded(
    max_message_bytes: usize,
    messages: Seq<MessageView>,
    id: Seq<char>,
)
    ensures
        ({
            let state = run(
                StateView { sequences: Map::empty(), max_message_bytes },
                messages,
            );
            &&& state.sequences.len() <= 64
            &&& state.sequences.contains_key(id) ==> 1 <= encode_utf8(id).len() <= 128 && plain(
                id,
            )
        }),
{
    law_sessions_stay_bounded(max_message_bytes, messages);
    law_session_id_rule(id);
}

/// A connection does exactly what a message comes to: it performs the action, or ends with
/// the error; and the sessions are left as the message leaves them.
pub proof fn law_connection_performs_the_action(state: StateView, message: MessageView)
    ensures
        forall|action: ActionView|
            yields(state, message) == Ok::<ActionView, CaptureError>(action) <==> reaction(
                state,
                EventView::Message(message),
            ) == StepView::Perform(action),
        forall|error: CaptureError|
            yields(state, message) == Err::<ActionView, CaptureError>(error) <==> reaction(
                state,
                EventView::Message(message),
            ) == StepView::Finish(Err(error)),
        state_after(state, EventView::Message(message)) == arrives(state, message),
{
}

/// A sound close that comes over a connection has the bridge of its session retired.
pub proof fn law_connection_retires_closed_sessions(state: StateView, id: Seq<char>)
    requires
        1 <= encode_utf8(id).len() <= 128,
        plain(id),
    ensures
        reaction(
            state,
            EventView::Message(MessageView::SessionClose { version: 1, session_id: id }),
        ) == StepView::Perform(
            ActionView::Closed {
                retire: RetireView { session_id: id, label: "session-close"@ },
            },
        ),
{
    let message = MessageView::SessionClose { version: 1, session_id: id };
    law_close_is_carried_out_or_refused(state, message);
    law_connection_performs_the_action(state, message);
}

/// What every other event on a connection leads to; none of them touches a session.
pub proof fn law_other_events(state: StateView, event: EventView)
    requires
        !(event is Message),
    ensures
        state_after(state, event) == state,
        reaction(state, event) == StepView::Read <==> event is Ping || event is Pong,
        reaction(state, event) == StepView::Finish(Ok(())) <==> event is ShutdownRequested
            || event is Ended || event is Close,
        event is UpgradeFailed <==> reaction(state, event) == StepView::Finish(
            Err(CaptureError::UpgradeFailed),
        ),
        event is ReadFailed <==> reaction(state, event) == StepView::Finish(
            Err(CaptureError::ReadFailed),
        ),
        event is InvalidText <==> reaction(state, event) == StepView::Finish(
            Err(CaptureError::InvalidJson),
        ),
        event is Binary <==> reaction(state, event) == StepView::Finish(
            Err(CaptureError::BinaryMessage),
        ),
        event is RawFrame <==> reaction(state, event) == StepView::Finish(
            Err(CaptureError::RawFrame),
        ),
{
}

/// The listener serves whoever connects, goes on after every connection, and stops on a
/// shutdown or a failed accept alone.
pub proof fn law_listener(event: ListenerEvent)
    ensures
        listener_reaction(event) == ListenerStep::Serve <==> event is Accepted,
        listener_reaction(event) == ListenerStep::Listen <==> event is ConnectionEnded,
        listener_reaction(event) == ListenerStep::Stop(Ok(())) <==> event is ShutdownRequested,
        listener_reaction(event) == ListenerStep::Stop(Err(CaptureError::AcceptFailed)) <==> event
            is AcceptFailed,
{
}

/// The source starts exactly when it is switched on, its token holds something that is not
/// white space, and the platform is Majsoul. Otherwise the first of these that fails is
/// reported.
pub proof fn law_source_starts_when_it_should(cfg: ExternalCaptureConfig, platform: Platform)
    ensures
        ({
            let token = cfg.auth_token@;
            let held = exists|i: int| 0 <= i < token.len() && !trimmed(#[trigger] token[i]);
            let refusal = start_refusal(cfg, platform);
            &&& refusal is None <==> cfg.enabled && held && platform == Platform::Majsoul
            &&& refusal == Some(CaptureError::Disabled) <==> !cfg.enabled
            &&& refusal == Some(CaptureError::BlankAuthToken) <==> cfg.enabled && !held
            &&& refusal == Some(CaptureError::UnsupportedPlatform) <==> cfg.enabled && held
                && platform != Platform::Majsoul
        }),
{
    let token = cfg.auth_token@;
    assert forall|i: int| 0 <= i < token.len() implies white_space(
        #[trigger] token[i],
    ) == trimmed(token[i]) by {
        lemma_trimmed(token[i]);
    }
}

proof fn lemma_trimmed(c: char)
    ensures
        white_space(c) == trimmed(c),
{
}

/// A text is blank exactly when all of it is trimmed off.
pub proof fn law_blank_text_is_trimmed_away(text: Seq<char>)
    ensures
        blank(text) <==> forall|i: int| 0 <= i < text.len() ==> trimmed(#[trigger] text[i]),
{
    assert forall|i: int| 0 <= i < text.len() implies white_space(#[trigger] text[i]) == trimmed(
        text[i],
    ) by {
        lemma_trimmed(text[i]);
    }
}

/// The number that a text of decimal digits stands for.
pub open spec fn read_decimal(text: Seq<char>) -> int
    decreases text.len(),
{
    if text.len() == 0 {
        0
    } else {
        10 * read_decimal(text.drop_last()) + (text.last() as int - '0' as int)
    }
}

/// A number in decimal notation is made of digits, has no leading zero but for 0 itself,
/// and reads back as that number.
pub proof fn law_decimal_reads_back(n: nat)
    ensures
        read_decimal(decimal(n)) == n,
        decimal(n).len() > 0,
        forall|i: int| 0 <= i < decimal(n).len() ==> '0' <= #[trigger] decimal(n)[i] <= '9',
        n > 0 ==> decimal(n)[0] != '0',
        n == 0 ==> decimal(n).len() == 1,
    decreases n,
{
    if n < 10 {
        assert(decimal(n).drop_last() =~= Seq::empty());
        assert(read_decimal(decimal(n).drop_last()) == 0);
    } else {
        let front = decimal(n / 10);
        law_decimal_reads_back(n / 10);
        assert(decimal(n).drop_last() =~= front);
        assert forall|i: int| 0 <= i < decimal(n).len() implies '0' <= #[trigger] decimal(n)[i]
            <= '9' by {
            if i < front.len() {
                assert(decimal(n)[i] == front[i]);
            }
        }
    }
}

/// A refused version is named in the error, and an undecodable payload reads the same
/// whatever its cause.
pub proof fn law_error_texts(version: u8, cause: Base64Error)
    ensures
        (CaptureError::UnsupportedVersion { version }).text()
            == "unsupported external capture protocol version "@ + decimal(version as nat),
        (CaptureError::PayloadNotBase64 { cause }).text()
            == "external capture payload is not valid base64"@,
{
}

/// Every byte goes into the difference of two byte strings, and so do their lengths: the
/// bits in which they differ are all in it, wherever they stand.
pub proof fn law_difference_covers_every_byte(left: Seq<u8>, right: Seq<u8>, i: int)
    requires
        0 <= i,
        i < left.len() || i < right.len(),
    ensures
        ({
            let a = if i < left.len() {
                left[i]
            } else {
                0u8
            };
            let b = if i < right.len() {
                right[i]
            } else {
                0u8
            };
            difference(left, right) | ((a ^ b) as usize) == difference(left, right)
        }),
        difference(left, right) | ((left.len() as usize) ^ (right.len() as usize)) == difference(
            left,
            right,
        ),
{
    let count = if left.len() < right.len() {
        right.len()
    } else {
        left.len()
    };
    lemma_difference_covers(left, right, count, i);
}

proof fn lemma_difference_covers(left: Seq<u8>, right: Seq<u8>, count: nat, i: int)
    ensures
        0 <= i < count ==> difference_upto(left, right, count) | ((byte_or_zero(left, i)
            ^ byte_or_zero(right, i)) as usize) == difference_upto(left, right, count),
        difference_upto(left, right, count) | ((left.len() as usize) ^ (right.len() as usize))
            == difference_upto(left, right, count),
    decreases count,
{
    if count == 0 {
        let bits = (left.len() as usize) ^ (right.len() as usize);
        assert(bits | bits == bits) by (bit_vector);
    } else {
        lemma_difference_covers(left, right, (count - 1) as nat, i);
        let before = difference_upto(left, right, (count - 1) as nat);
        let lengths = (left.len() as usize) ^ (right.len() as usize);
        let bits = (byte_or_zero(left, i) ^ byte_or_zero(right, i)) as usize;
        let new = (byte_or_zero(left, count - 1) ^ byte_or_zero(right, count - 1)) as usize;
        assert((before | new) | new == before | new) by (bit_vector);
        assert(before | bits == before ==> (before | new) | bits == before | new) by (bit_vector);
        assert(before | lengths == before ==> (before | new) | lengths == before | new)
            by (bit_vector);
    }
}

/// The limit on a message is the configured one where that lies between 4 KiB and 16 MiB,
/// and the nearer of these two otherwise. It keeps the order of what is configured.
pub proof fn law_message_limit_is_the_nearest(configured: usize, other: usize)
    ensures
        4096 <= configured <= 16777216 ==> message_limit(configured) == configured,
        configured < 4096 ==> message_limit(configured) == 4096,
        configured > 16777216 ==> message_limit(configured) == 16777216,
        configured <= other ==> message_limit(configured) <= message_limit(other),
{
}

/// The text of a header value is its bytes, one character each, and it has one exactly
/// when each byte is printable ASCII, the space and the tab included.
pub proof fn law_header_text_is_its_bytes(value: Seq<u8>)
    ensures
        header_text(value) is Some <==> forall|i: int|
            0 <= i < value.len() ==> (32 <= #[trigger] value[i] <= 126 || value[i] == 9),
        header_text(value) is Some ==> header_text(value)->0.len() == value.len() && forall|i: int|
            0 <= i < value.len() ==> #[trigger] header_text(value)->0[i] == value[i] as char,
{
    assert forall|i: int| 0 <= i < value.len() implies crate::auth::visible_ascii(
        #[trigger] value[i],
    ) == (32 <= value[i] <= 126 || value[i] == 9) by {}
}

/// A request is let in exactly when it asks for the capture path and its authorization
/// header is printable and reads `Bearer ` and the token, nothing less and nothing more. For
/// another path it is told that there is nothing, and in every other case that it is not
/// authorized.
pub proof fn law_who_is_let_in(
    path: Seq<char>,
    authorization: Option<Seq<u8>>,
    token: Seq<char>,
)
    ensures
        ({
            let wanted = "Bearer "@ + token;
            let fits = authorization is Some && authorization->0.len() == wanted.len() && forall|
                i: int,
            |
                0 <= i < wanted.len() ==> (#[trigger] authorization->0[i]) as char == wanted[i] && (
                32 <= authorization->0[i] <= 126 || authorization->0[i] == 9);
            &&& answer(path, authorization, token) == Answer::Granted <==> path == "/capture"@
                && fits
            &&& answer(path, authorization, token) == Answer::NotFound <==> path != "/capture"@
            &&& answer(path, authorization, token) == Answer::Unauthorized <==> path
                == "/capture"@ && !fits
        }),
{
    if let Some(value) = authorization {
        let wanted = "Bearer "@ + token;
        law_header_text_is_its_bytes(value);
        if header_text(value) == Some(wanted) {
            assert forall|i: int| 0 <= i < wanted.len() implies (#[trigger] value[i]) as char
                == wanted[i] by {
                assert(header_text(value)->0[i] == value[i] as char);
            }
        }
        if value.len() == wanted.len() && forall|i: int|
            0 <= i < wanted.len() ==> (#[trigger] value[i]) as char == wanted[i] && (32
                <= value[i] <= 126 || value[i] == 9) {
            assert forall|i: int| 0 <= i < wanted.len() implies header_text(value)->0[i]
                == wanted[i] by {
                assert(value[i] as char == wanted[i]);
            }
            assert(header_text(value)->0 =~= wanted);
        }
    }
}

/// The responses: who is let in gets no rejection, a wrong path is 404 "not found", and
/// everything else is 401 "unauthorized".
pub proof fn law_responses(expected: Answer, response: Result<(), Rejection>)
    ensures
        answers(expected, response) && expected is Granted ==> response is Ok,
        answers(expected, response) && expected is NotFound ==> response is Err
            && response->Err_0.status == 404 && response->Err_0.body@ == "not found"@,
        answers(expected, response) && expected is Unauthorized ==> response is Err
            && response->Err_0.status == 401 && response->Err_0.body@ == "unauthorized"@,
{
}

/// Of several values under one name the first one counts, and of none, none.
pub proof fn law_first_header_counts(values: Map<Seq<char>, Seq<Seq<u8>>>, name: Seq<char>)
    ensures
        values.contains_key(name) && values[name].len() > 0 ==> first_value(values, name) == Some(
            values[name][0],
        ),
        !values.contains_key(name) || values[name].len() == 0 ==> first_value(values, name)
            is None,
{
}

/// Taking a prefix off undoes putting it on, and fails exactly where it was never put on.
pub proof fn law_prefix_comes_off(text: Seq<char>, prefix: Seq<char>, rest: Seq<char>)
    ensures
        without_prefix(prefix + rest, prefix) == Some(rest),
        without_prefix(text, prefix) == Some(rest) ==> text == prefix + rest,
{
    assert((prefix + rest).subrange(0, prefix.len() as int) =~= prefix);
    assert((prefix + rest).skip(prefix.len() as int) =~= rest);
    if without_prefix(text, prefix) == Some(rest) {
        assert(text =~= text.subrange(0, prefix.len() as int) + text.skip(prefix.len() as int));
    }
}

/// The view of a message keeps every field.
pub proof fn law_message_view_keeps_every_field(message: WireMessage)
    ensures
        message is Frame <==> message@ is Frame,
        message is Frame ==> message@.session_id() == message->Frame_session_id@,
        message is SessionClose ==> message@.session_id() == message->SessionClose_session_id@,
        message is Frame ==> {
            &&& message@->Frame_version == message->Frame_version
            &&& message@->Frame_session_id == message->Frame_session_id@
            &&& message@->sequence == message->sequence
            &&& message@->timestamp_ms == message->timestamp_ms
            &&& message@->direction == message->direction
            &&& message@->uri == message->uri@
            &&& message@->payload_base64 == message->payload_base64@
        },
        message is SessionClose ==> {
            &&& message@->SessionClose_version == message->SessionClose_version
            &&& message@->SessionClose_session_id == message->SessionClose_session_id@
        },
{
}

/// The view of an action keeps every field, and so does that of an outcome.
pub proof fn law_action_view_keeps_every_field(
    action: CaptureAction,
    retire: RetireBridge,
    error: CaptureError,
)
    ensures
        retire@.session_id == retire.session_id@,
        retire@.label == retire.label@,
        action is Duplicate <==> action@ is Duplicate,
        action is Poisoned <==> action@ is Poisoned,
        action is Gap <==> action@ is Gap,
        action is Feed <==> action@ is Feed,
        action is Closed <==> action@ is Closed,
        action is Gap ==> {
            &&& action@->expected == action->expected
            &&& action@->got == action->got
            &&& action@->Gap_retire.session_id == action->Gap_retire.session_id@
            &&& action@->Gap_retire.label == action->Gap_retire.label@
        },
        action is Feed ==> {
            &&& action@->session_id == action->session_id@
            &&& action@->label == action->label@
            &&& action@->direction == action->direction
            &&& action@->payload == action->payload@
        },
        action is Closed ==> {
            &&& action@->Closed_retire.session_id == action->Closed_retire.session_id@
            &&& action@->Closed_retire.label == action->Closed_retire.label@
        },
        outcome_view(Ok(action)) == Ok::<ActionView, CaptureError>(action@),
        outcome_view(Err(error)) == Err::<ActionView, CaptureError>(error),
{
}

/// The views of what happens on a connection, and of what is done about it, keep
/// everything.
pub proof fn law_connection_views_keep_everything(
    event: SocketEvent,
    step: ConnectionStep,
    payload: Vec<u8>,
    error: CaptureError,
)
    ensures
        event is UpgradeFailed <==> event@ is UpgradeFailed,
        event is ShutdownRequested <==> event@ is ShutdownRequested,
        event is Ended <==> event@ is Ended,
        event is ReadFailed <==> event@ is ReadFailed,
        event is InvalidText <==> event@ is InvalidText,
        event is Close <==> event@ is Close,
        event is Ping <==> event@ is Ping,
        event is Pong <==> event@ is Pong,
        event is Binary <==> event@ is Binary,
        event is RawFrame <==> event@ is RawFrame,
        event is Message ==> event@ == EventView::Message(event->Message_0@),
        step is Read <==> step@ is Read,
        step is Perform ==> step@ == StepView::Perform(step->Perform_0@),
        step is Finish ==> step@ == StepView::Finish(step->Finish_0),
        payload_view(Ok(payload)) == Ok::<Seq<u8>, CaptureError>(payload@),
        payload_view(Err(error)) == Err::<Seq<u8>, CaptureError>(error),
{
}

} // verus!
