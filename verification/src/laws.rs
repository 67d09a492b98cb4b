//! What holds of the capture source as a whole.

use crate::auth::{
    answer, bears_token, header_text, visible_ascii, Answer, BEARER, CAPTURE_PATH,
};
use crate::backend::{
    message_limit, start_refusal, ExternalCaptureConfig, Platform, MAX_MESSAGE_BYTES,
    MIN_MESSAGE_BYTES,
};
use crate::connection::{reaction, state_after, EventView, StepView};
use crate::error::{Base64Error, CaptureError};
use crate::payload::base64_standard_decode;
use crate::sequence::SessionSequence;
use crate::state::{
    lemma_next_well_formed, message_payload, ActionView, RetireView, StateView, CLOSE_LABEL,
};
use crate::text::{blank, utf8_len};
use crate::wire::{session_id_char, session_id_refusal, MessageView, MAX_SESSION_ID_BYTES};
use vstd::prelude::*;
use vstd::utf8::*;

verus! {

/// The state after a message.
pub open spec fn arrives(state: StateView, message: MessageView) -> StateView {
    state.next(message, message_payload(message))
}

/// What a message comes to.
pub open spec fn yields(state: StateView, message: MessageView) -> Result<
    ActionView,
    CaptureError,
> {
    state.outcome(message, message_payload(message))
}

/// The state after a series of messages.
pub open spec fn run(state: StateView, messages: Seq<MessageView>) -> StateView
    decreases messages.len(),
{
    if messages.len() == 0 {
        state
    } else {
        arrives(run(state, messages.drop_last()), messages.last())
    }
}

/// The message is a frame of session `id` that the bridge of the session is fed.
pub open spec fn feeds(state: StateView, message: MessageView, id: Seq<char>) -> bool {
    yields(state, message) matches Ok(action) && action is Feed && message.session_id() == id
}

/// The message closes session `id`.
pub open spec fn closes(state: StateView, message: MessageView, id: Seq<char>) -> bool {
    yields(state, message) matches Ok(action) && action is Closed && message.session_id() == id
}

/// The numbers of the frames of session `id` that its bridge was fed, in order, since
/// the session was last closed.
pub open spec fn fed(state: StateView, messages: Seq<MessageView>, id: Seq<char>) -> Seq<u64>
    decreases messages.len(),
{
    if messages.len() == 0 {
        Seq::empty()
    } else {
        let before = run(state, messages.drop_last());
        let numbers = fed(state, messages.drop_last(), id);
        if closes(before, messages.last(), id) {
            Seq::empty()
        } else if feeds(before, messages.last(), id) {
            numbers.push(messages.last()->sequence)
        } else {
            numbers
        }
    }
}

/// The numbers from 1 to `count`.
pub open spec fn one_to(count: nat) -> Seq<u64> {
    Seq::new(count, |i: int| (i + 1) as u64)
}

/// Whatever messages come, the state stays well-formed: at most the allowed number of
/// sessions is open, each under a valid id.
pub proof fn law_sessions_stay_bounded(max_message_bytes: usize, messages: Seq<MessageView>)
    ensures
        run(StateView::empty(max_message_bytes), messages).well_formed(),
    decreases messages.len(),
{
    if messages.len() > 0 {
        law_sessions_stay_bounded(max_message_bytes, messages.drop_last());
        lemma_next_well_formed(
            run(StateView::empty(max_message_bytes), messages.drop_last()),
            messages.last(),
            message_payload(messages.last()),
        );
    }
}

/// The bridge of a session is fed the frames 1, 2, 3 and so on: none is left out, none
/// comes twice, and none comes out of order.
pub proof fn law_bridge_is_fed_in_order(
    max_message_bytes: usize,
    messages: Seq<MessageView>,
    id: Seq<char>,
)
    ensures
        fed(StateView::empty(max_message_bytes), messages, id) == one_to(
            run(StateView::empty(max_message_bytes), messages).session(id).accepted(),
        ),
    decreases messages.len(),
{
    let start = StateView::empty(max_message_bytes);
    if messages.len() == 0 {
        assert(fed(start, messages, id) =~= one_to(0));
    } else {
        let front = messages.drop_last();
        let message = messages.last();
        let before = run(start, front);
        let after = run(start, messages);
        law_bridge_is_fed_in_order(max_message_bytes, front, id);
        law_sessions_stay_bounded(max_message_bytes, front);
        if message.session_id() != id {
            law_sessions_are_independent(before, message, id);
        }
        assert(fed(start, messages, id) =~= one_to(after.session(id).accepted()));
    }
}

proof fn lemma_series_join(
    state: StateView,
    first: Seq<MessageView>,
    second: Seq<MessageView>,
)
    ensures
        run(run(state, first), second) == run(state, first + second),
    decreases second.len(),
{
    if second.len() == 0 {
        assert(first + second =~= first);
    } else {
        lemma_series_join(state, first, second.drop_last());
        assert((first + second).drop_last() =~= first + second.drop_last());
    }
}

/// The state after a connection on which the given events happen: the first one that ends
/// the connection is the last one that counts.
pub open spec fn serve(state: StateView, events: Seq<EventView>) -> StateView
    decreases events.len(),
{
    if events.len() == 0 {
        state
    } else if reaction(state, events.first()) is Finish {
        state_after(state, events.first())
    } else {
        serve(state_after(state, events.first()), events.drop_first())
    }
}

/// The messages that a connection takes, in order.
pub open spec fn taken(state: StateView, events: Seq<EventView>) -> Seq<MessageView>
    decreases events.len(),
{
    if events.len() == 0 || reaction(state, events.first()) is Finish {
        Seq::empty()
    } else {
        let rest = taken(state_after(state, events.first()), events.drop_first());
        match events.first() {
            EventView::Message(message) => seq![message] + rest,
            _ => rest,
        }
    }
}

/// The state after a series of connections.
pub open spec fn serve_all(state: StateView, connections: Seq<Seq<EventView>>) -> StateView
    decreases connections.len(),
{
    if connections.len() == 0 {
        state
    } else {
        serve(serve_all(state, connections.drop_last()), connections.last())
    }
}

/// The messages that a series of connections takes, in order.
pub open spec fn all_taken(state: StateView, connections: Seq<Seq<EventView>>) -> Seq<MessageView>
    decreases connections.len(),
{
    if connections.len() == 0 {
        Seq::empty()
    } else {
        all_taken(state, connections.drop_last()) + taken(
            serve_all(state, connections.drop_last()),
            connections.last(),
        )
    }
}

/// A connection leaves the state that the messages it takes leave; nothing else that
/// happens on it matters, the way it ends included.
pub proof fn law_connection_comes_to_its_messages(state: StateView, events: Seq<EventView>)
    ensures
        serve(state, events) == run(state, taken(state, events)),
    decreases events.len(),
{
    if events.len() > 0 {
        let event = events.first();
        law_only_messages_act(state, event);
        if !(reaction(state, event) is Finish) {
            let after = state_after(state, event);
            let rest = taken(after, events.drop_first());
            law_connection_comes_to_its_messages(after, events.drop_first());
            if let EventView::Message(message) = event {
                let single = seq![message];
                assert(single.drop_last() =~= Seq::empty());
                assert(run(state, single.drop_last()) == state);
                assert(run(state, single) == after);
                lemma_series_join(state, single, rest);
            }
        }
    }
}

/// A client that is not let in changes no session, whatever else it sends.
pub proof fn law_refused_client_changes_nothing(state: StateView, rest: Seq<EventView>)
    ensures
        serve(state, seq![EventView::UpgradeFailed] + rest) == state,
        taken(state, seq![EventView::UpgradeFailed] + rest) == Seq::<MessageView>::empty(),
{
    assert((seq![EventView::UpgradeFailed] + rest).first() == EventView::UpgradeFailed);
}

/// Sessions outlive connections: what is left after a series of connections, however each
/// of them ended, is what the messages that they took would leave as one series.
pub proof fn law_sessions_outlive_connections(
    state: StateView,
    connections: Seq<Seq<EventView>>,
)
    ensures
        serve_all(state, connections) == run(state, all_taken(state, connections)),
    decreases connections.len(),
{
    if connections.len() > 0 {
        let front = connections.drop_last();
        let before = serve_all(state, front);
        law_sessions_outlive_connections(state, front);
        law_connection_comes_to_its_messages(before, connections.last());
        lemma_series_join(state, all_taken(state, front), taken(before, connections.last()));
    }
}

/// An event that ends a connection costs no session anything: the next connection finds
/// every session as the events before the end left it.
pub proof fn law_next_connection_goes_on(
    state: StateView,
    events: Seq<EventView>,
    end: EventView,
    next: Seq<EventView>,
)
    requires
        reaction(serve(state, events), end) is Finish,
    ensures
        serve_all(state, seq![events.push(end), next]) == serve_all(state, seq![events, next]),
{
    lemma_end_changes_nothing(state, events, end);
    let ended = seq![events.push(end), next];
    let open = seq![events, next];
    assert(ended.drop_last() =~= seq![events.push(end)]);
    assert(open.drop_last() =~= seq![events]);
    assert(ended.drop_last().drop_last() =~= Seq::empty());
    assert(open.drop_last().drop_last() =~= Seq::empty());
    reveal_with_fuel(serve_all, 3);
}

proof fn lemma_end_changes_nothing(state: StateView, events: Seq<EventView>, end: EventView)
    requires
        reaction(serve(state, events), end) is Finish,
    ensures
        serve(state, events.push(end)) == serve(state, events),
    decreases events.len(),
{
    let all = events.push(end);
    if events.len() == 0 {
        law_only_messages_act(state, end);
        assert(all.first() == end);
    } else {
        assert(all.first() == events.first());
        assert(all.drop_first() =~= events.drop_first().push(end));
        if !(reaction(state, events.first()) is Finish) {
            lemma_end_changes_nothing(
                state_after(state, events.first()),
                events.drop_first(),
                end,
            );
        }
    }
}

/// Over any series of connections too, the bridge of a session is fed the frames 1, 2, 3
/// and so on, each once and in order.
pub proof fn law_bridge_is_fed_in_order_across_connections(
    max_message_bytes: usize,
    connections: Seq<Seq<EventView>>,
    id: Seq<char>,
)
    ensures
        fed(
            StateView::empty(max_message_bytes),
            all_taken(StateView::empty(max_message_bytes), connections),
            id,
        ) == one_to(
            serve_all(StateView::empty(max_message_bytes), connections).session(id).accepted(),
        ),
{
    let start = StateView::empty(max_message_bytes);
    law_sessions_outlive_connections(start, connections);
    law_bridge_is_fed_in_order(max_message_bytes, all_taken(start, connections), id);
}

/// A refused message changes nothing.
pub proof fn law_refused_message_changes_nothing(state: StateView, message: MessageView)
    requires
        yields(state, message) is Err,
    ensures
        arrives(state, message) == state,
{
}

/// A message leaves every session but its own as it is.
pub proof fn law_sessions_are_independent(
    state: StateView,
    message: MessageView,
    other: Seq<char>,
)
    requires
        other != message.session_id(),
    ensures
        arrives(state, message).sequences.contains_key(other) == state.sequences.contains_key(
            other,
        ),
        arrives(state, message).session(other) == state.session(other),
        arrives(state, message).max_message_bytes == state.max_message_bytes,
{
}

/// A session that is opened in the middle is not taken up: unless the first frame is
/// numbered 1, the session is poisoned and its bridge retired.
pub proof fn law_sessions_start_at_one(state: StateView, message: MessageView)
    requires
        message is Frame,
        !state.sequences.contains_key(message.session_id()),
        yields(state, message) is Ok,
    ensures
        message->sequence == 1 <==> yields(state, message)->Ok_0 is Feed,
        message->sequence != 1 ==> {
            &&& arrives(state, message).session(message.session_id()).poisoned
            &&& yields(state, message) == Ok::<ActionView, CaptureError>(
                ActionView::Gap {
                    expected: 1,
                    got: message->sequence,
                    retire: RetireView {
                        session_id: message.session_id(),
                        label: message->uri,
                    },
                },
            )
        },
{
}

/// A frame whose number is beyond the next one poisons its session.
pub proof fn law_gap_poisons(state: StateView, message: MessageView)
    requires
        message is Frame,
        yields(state, message) is Ok,
        message->sequence > state.session(message.session_id()).accepted() + 1,
    ensures
        arrives(state, message).session(message.session_id()).poisoned,
        !(yields(state, message)->Ok_0 is Feed),
{
}

/// Until it is closed, a poisoned session stays as it is and its bridge is fed nothing.
pub proof fn law_poisoned_until_closed(
    state: StateView,
    messages: Seq<MessageView>,
    id: Seq<char>,
)
    requires
        state.session(id).poisoned,
        forall|i: int|
            0 <= i < messages.len() ==> !closes(
                run(state, messages.take(i)),
                #[trigger] messages[i],
                id,
            ),
    ensures
        run(state, messages).session(id) == state.session(id),
        fed(state, messages, id) == Seq::<u64>::empty(),
    decreases messages.len(),
{
    if messages.len() > 0 {
        let front = messages.drop_last();
        let message = messages.last();
        assert forall|i: int| 0 <= i < front.len() implies !closes(
            run(state, front.take(i)),
            #[trigger] front[i],
            id,
        ) by {
            assert(front.take(i) =~= messages.take(i));
            assert(front[i] == messages[i]);
        }
        law_poisoned_until_closed(state, front, id);
        let before = run(state, front);
        assert(front =~= messages.take(messages.len() - 1));
        assert(!closes(before, messages[messages.len() - 1], id));
        if message.session_id() != id {
            law_sessions_are_independent(before, message, id);
        }
    }
}

/// A frame that was fed is dropped when it comes again, and changes nothing.
pub proof fn law_repeated_frame_is_dropped(state: StateView, message: MessageView)
    requires
        feeds(state, message, message.session_id()),
    ensures
        yields(arrives(state, message), message) == Ok::<ActionView, CaptureError>(
            ActionView::Duplicate,
        ),
        arrives(arrives(state, message), message) == arrives(state, message),
{
    let after = arrives(state, message);
    let id = message.session_id();
    assert(after.sequences.insert(id, after.session(id)) =~= after.sequences);
}

/// Closing a session forgets it and nothing else; closing it again does nothing more.
pub proof fn law_closing_forgets_the_session(state: StateView, message: MessageView)
    requires
        message is SessionClose,
        yields(state, message) is Ok,
    ensures
        arrives(state, message).sequences == state.sequences.remove(message.session_id()),
        arrives(state, message).session(message.session_id()) == SessionSequence::fresh(),
        yields(state, message) == Ok::<ActionView, CaptureError>(
            ActionView::Closed {
                retire: RetireView { session_id: message.session_id(), label: CLOSE_LABEL@ },
            },
        ),
        yields(arrives(state, message), message) == yields(state, message),
        arrives(arrives(state, message), message) == arrives(state, message),
{
    let id = message.session_id();
    assert(state.sequences.remove(id).remove(id) =~= state.sequences.remove(id));
}

/// Once an open session is closed there is room for a session, whichever it is.
pub proof fn law_closing_makes_room(
    state: StateView,
    close: MessageView,
    version: u8,
    id: Seq<char>,
    uri: Seq<char>,
)
    requires
        state.well_formed(),
        close is SessionClose,
        yields(state, close) is Ok,
        state.sequences.contains_key(close.session_id()),
    ensures
        arrives(state, close).sequences.len() == state.sequences.len() - 1,
        arrives(state, close).frame_refusal(version, id, uri) != Some(CaptureError::SessionLimit),
{
}

/// A bridge is fed exactly what the payload of the frame decodes to, and never more than
/// the limit.
pub proof fn law_fed_payload_is_bounded(state: StateView, message: MessageView)
    requires
        feeds(state, message, message.session_id()),
    ensures
        message is Frame,
        message_payload(message) == Ok::<Seq<u8>, CaptureError>(
            yields(state, message)->Ok_0->payload,
        ),
        base64_standard_decode(encode_utf8(message->payload_base64)) == Ok::<
            Seq<u8>,
            Base64Error,
        >(yields(state, message)->Ok_0->payload),
        yields(state, message)->Ok_0->payload.len() <= state.max_message_bytes,
{
}

/// A valid session id is ASCII, so that its bytes are its characters.
pub proof fn law_session_id_is_bounded_and_safe(id: Seq<char>)
    requires
        session_id_refusal(id) is None,
    ensures
        1 <= id.len() <= MAX_SESSION_ID_BYTES,
        utf8_len(id) == id.len(),
        is_ascii_chars(id),
        forall|i: int| 0 <= i < id.len() ==> session_id_char(#[trigger] id[i]),
{
    is_ascii_chars_encode_utf8(id);
}

/// The limit on a message is always within the bounds, and a configured limit within the
/// bounds is kept.
pub proof fn law_message_limit_is_bounded(configured: usize)
    ensures
        MIN_MESSAGE_BYTES <= message_limit(configured) <= MAX_MESSAGE_BYTES,
        MIN_MESSAGE_BYTES <= configured <= MAX_MESSAGE_BYTES ==> message_limit(configured)
            == configured,
{
}

/// A request for another path is answered the same whatever credentials it brings.
pub proof fn law_other_paths_are_not_found(
    path: Seq<char>,
    authorization: Option<Seq<u8>>,
    token: Seq<char>,
)
    requires
        path != CAPTURE_PATH@,
    ensures
        answer(path, authorization, token) == Answer::NotFound,
{
}

/// The same credentials open the source for one token only.
pub proof fn law_credentials_fit_one_token(
    path: Seq<char>,
    authorization: Option<Seq<u8>>,
    token: Seq<char>,
    other: Seq<char>,
)
    requires
        answer(path, authorization, token) == Answer::Granted,
        answer(path, authorization, other) == Answer::Granted,
    ensures
        token == other,
{
    let text = BEARER@ + token;
    assert(text.skip(BEARER@.len() as int) =~= token);
    assert((BEARER@ + other).skip(BEARER@.len() as int) =~= other);
}

/// The characters that a header value can carry as text.
pub open spec fn visible_char(c: char) -> bool {
    ' ' <= c <= '~' || c == '\t'
}

proof fn lemma_visible_char(c: char)
    ensures
        visible_char(c) ==> visible_ascii(c as u8) && c as u8 as char == c,
{
}

/// Who sends `Bearer ` and the token is let in, where the token is visible ASCII.
pub proof fn law_token_holder_is_let_in(token: Seq<char>)
    requires
        forall|i: int| 0 <= i < token.len() ==> visible_char(#[trigger] token[i]),
    ensures
        answer(
            CAPTURE_PATH@,
            Some((BEARER@ + token).map_values(|c: char| c as u8)),
            token,
        ) == Answer::Granted,
{
    reveal_strlit("Bearer ");
    let text = BEARER@ + token;
    let value = text.map_values(|c: char| c as u8);
    assert forall|i: int| 0 <= i < value.len() implies visible_ascii(#[trigger] value[i])
        && value[i] as char == text[i] by {
        assert(visible_char(text[i])) by {
            if i >= BEARER@.len() {
                assert(text[i] == token[i - BEARER@.len()]);
            }
        }
        lemma_visible_char(text[i]);
    }
    assert(header_text(value)->Some_0 =~= text);
}

/// A token with any other character in it lets nobody in.
pub proof fn law_unprintable_token_lets_nobody_in(
    path: Seq<char>,
    authorization: Option<Seq<u8>>,
    token: Seq<char>,
    i: int,
)
    requires
        0 <= i < token.len(),
        !visible_char(token[i]),
    ensures
        answer(path, authorization, token) != Answer::Granted,
{
    if answer(path, authorization, token) == Answer::Granted {
        let value = authorization->Some_0;
        let k = BEARER@.len() + i;
        let text = header_text(value)->Some_0;
        assert(text == BEARER@ + token);
        assert(text[k] == token[i]);
        assert(text.len() == value.len());
        assert(visible_ascii(value[k]));
        assert(text[k] == value[k] as char);
    }
}

/// A source that starts lets nobody in with a blank token, or with no credentials at all.
pub proof fn law_blank_credentials_are_refused(
    cfg: ExternalCaptureConfig,
    platform: Platform,
    authorization: Option<Seq<u8>>,
    supplied: Seq<char>,
)
    requires
        start_refusal(cfg, platform) is None,
        authorization is None || bears_token(authorization, supplied) && blank(supplied),
    ensures
        answer(CAPTURE_PATH@, authorization, cfg.auth_token@) == Answer::Unauthorized,
{
    if answer(CAPTURE_PATH@, authorization, cfg.auth_token@) == Answer::Granted {
        law_credentials_fit_one_token(
            CAPTURE_PATH@,
            authorization,
            cfg.auth_token@,
            supplied,
        );
    }
}

/// Only a message of the protocol leads to an action, and an event that ends the
/// connection leaves every session as it is.
pub proof fn law_only_messages_act(state: StateView, event: EventView)
    ensures
        reaction(state, event) is Perform ==> event is Message,
        reaction(state, event) is Finish ==> state_after(state, event) == state,
        reaction(state, event) is Read ==> state_after(state, event) == state,
{
}

} // verus!
