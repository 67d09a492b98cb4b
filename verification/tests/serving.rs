use external_capture::auth::{authorize_credentials, CAPTURE_PATH};
use external_capture::backend::{
    listener_step, CaptureKind, ExternalBackend, ExternalCaptureConfig, ListenerEvent,
    ListenerStep, Platform, MAX_MESSAGE_BYTES, MIN_MESSAGE_BYTES,
};
use external_capture::connection::{
    connection_step, websocket_limits, ConnectionStep, SocketEvent,
};
use external_capture::error::{Base64Error, CaptureError};
use external_capture::state::{CaptureAction, ExternalState};
use external_capture::text::{decimal_text, is_blank, is_white_space, same_text, strip_prefix};
use external_capture::wire::{WireDirection, WireMessage};

fn config(auth_token: &str, max_message_bytes: usize) -> ExternalCaptureConfig {
    ExternalCaptureConfig {
        enabled: true,
        bind_addr: "0.0.0.0:7878".to_string(),
        auth_token: auth_token.to_string(),
        max_message_bytes,
    }
}

fn frame(sequence: u64) -> SocketEvent {
    SocketEvent::Message(WireMessage::Frame {
        version: 1,
        session_id: "boot/ws-1".to_string(),
        sequence,
        timestamp_ms: 0,
        direction: WireDirection::ClientToServer,
        uri: "u".to_string(),
        payload_base64: "AQID".to_string(),
    })
}

#[test]
fn a_sound_configuration_is_listened_with() {
    let backend = ExternalBackend::new(config(" token ", 65536));
    let plan = backend.prepare(Platform::Majsoul).unwrap();
    assert_eq!(plan.bind_addr, "0.0.0.0:7878");
    assert_eq!(plan.auth_token, " token ");
    assert_eq!(plan.max_message_bytes, 65536);
    let descriptor = backend.descriptor();
    assert_eq!(descriptor.kind, CaptureKind::External);
    assert_eq!(descriptor.label, "0.0.0.0:7878");
}

#[test]
fn a_source_that_starts_refuses_blank_credentials() {
    let plan = ExternalBackend::new(config("token", 0))
        .prepare(Platform::Majsoul)
        .unwrap();
    for credentials in ["Bearer ", "Bearer   ", "Bearer \t"] {
        let refused = authorize_credentials(
            CAPTURE_PATH,
            Some(credentials.as_bytes().to_vec()),
            &plan.auth_token,
        )
        .unwrap_err();
        assert_eq!(refused.status, 401);
    }
    assert!(authorize_credentials(CAPTURE_PATH, None, &plan.auth_token).is_err());
}

#[test]
fn the_message_limit_is_clamped() {
    assert_eq!((MIN_MESSAGE_BYTES, MAX_MESSAGE_BYTES), (4 * 1024, 16 * 1024 * 1024));
    for limit in [0usize, 1, 4095, 4096, 4097, 16777215, 16777216, 16777217, usize::MAX] {
        let plan = ExternalBackend::new(config("token", limit))
            .prepare(Platform::Majsoul)
            .unwrap();
        assert_eq!(
            plan.max_message_bytes,
            limit.clamp(MIN_MESSAGE_BYTES, MAX_MESSAGE_BYTES)
        );
    }
}

#[test]
fn an_unsound_configuration_is_refused() {
    let mut disabled = config("", 0);
    disabled.enabled = false;
    assert_eq!(
        ExternalBackend::new(disabled).prepare(Platform::Other).unwrap_err(),
        CaptureError::Disabled
    );
    for token in ["", " ", "\t\r\n", "\u{3000}\u{a0}"] {
        assert_eq!(
            ExternalBackend::new(config(token, 0)).prepare(Platform::Other).unwrap_err(),
            CaptureError::BlankAuthToken
        );
    }
    assert_eq!(
        ExternalBackend::new(config("token", 0)).prepare(Platform::Other).unwrap_err(),
        CaptureError::UnsupportedPlatform
    );
}

#[test]
fn a_failed_connection_does_not_stop_the_listener() {
    assert_eq!(listener_step(ListenerEvent::Accepted), ListenerStep::Serve);
    for failed in [false, true] {
        assert_eq!(
            listener_step(ListenerEvent::ConnectionEnded { failed }),
            ListenerStep::Listen
        );
    }
    assert_eq!(
        listener_step(ListenerEvent::ShutdownRequested),
        ListenerStep::Stop(Ok(()))
    );
    assert_eq!(
        listener_step(ListenerEvent::AcceptFailed),
        ListenerStep::Stop(Err(CaptureError::AcceptFailed))
    );
}

#[test]
fn a_connection_acts_on_messages_only() {
    let mut state = ExternalState::new(4096);
    for event in [SocketEvent::Ping, SocketEvent::Pong] {
        assert!(matches!(connection_step(&mut state, event), ConnectionStep::Read));
    }
    for event in [SocketEvent::ShutdownRequested, SocketEvent::Ended, SocketEvent::Close] {
        assert!(matches!(
            connection_step(&mut state, event),
            ConnectionStep::Finish(Ok(()))
        ));
    }
    assert!(matches!(
        connection_step(&mut state, SocketEvent::ReadFailed),
        ConnectionStep::Finish(Err(CaptureError::ReadFailed))
    ));
    assert!(matches!(
        connection_step(&mut state, SocketEvent::InvalidText),
        ConnectionStep::Finish(Err(CaptureError::InvalidJson))
    ));
    assert!(matches!(
        connection_step(&mut state, SocketEvent::Binary),
        ConnectionStep::Finish(Err(CaptureError::BinaryMessage))
    ));
    assert!(matches!(
        connection_step(&mut state, SocketEvent::RawFrame),
        ConnectionStep::Finish(Err(CaptureError::RawFrame))
    ));
    assert!(matches!(
        connection_step(&mut state, frame(1)),
        ConnectionStep::Perform(CaptureAction::Feed { .. })
    ));
}

#[test]
fn sessions_outlive_the_connection_that_opened_them() {
    let mut state = ExternalState::new(4096);
    assert!(matches!(
        connection_step(&mut state, frame(1)),
        ConnectionStep::Perform(CaptureAction::Feed { .. })
    ));
    for end in [SocketEvent::Ended, SocketEvent::ReadFailed, SocketEvent::Binary] {
        assert!(matches!(
            connection_step(&mut state, end),
            ConnectionStep::Finish(_)
        ));
    }
    assert!(matches!(
        connection_step(&mut state, frame(1)),
        ConnectionStep::Perform(CaptureAction::Duplicate)
    ));
    assert!(matches!(
        connection_step(&mut state, frame(2)),
        ConnectionStep::Perform(CaptureAction::Feed { .. })
    ));
}

#[test]
fn a_client_that_is_not_let_in_changes_no_session() {
    let mut state = ExternalState::new(4096);
    assert!(matches!(
        connection_step(&mut state, frame(1)),
        ConnectionStep::Perform(CaptureAction::Feed { .. })
    ));
    assert!(matches!(
        connection_step(&mut state, SocketEvent::UpgradeFailed),
        ConnectionStep::Finish(Err(CaptureError::UpgradeFailed))
    ));
    assert!(matches!(
        connection_step(&mut state, frame(2)),
        ConnectionStep::Perform(CaptureAction::Feed { .. })
    ));
}

#[test]
fn a_refused_message_ends_the_connection() {
    let mut state = ExternalState::new(4096);
    let refused = SocketEvent::Message(WireMessage::SessionClose {
        version: 3,
        session_id: "s".to_string(),
    });
    assert!(matches!(
        connection_step(&mut state, refused),
        ConnectionStep::Finish(Err(CaptureError::UnsupportedVersion { version: 3 }))
    ));
}

#[test]
fn both_websocket_limits_are_the_message_limit() {
    let limits = websocket_limits(4096);
    assert_eq!(limits.max_message_size, Some(4096));
    assert_eq!(limits.max_frame_size, Some(4096));
}

#[test]
fn white_space_is_that_of_unicode() {
    for code in 0u32..=0x10ffff {
        if let Some(c) = char::from_u32(code) {
            assert_eq!(is_white_space(c), c.is_whitespace());
        }
    }
}

#[test]
fn texts_are_handled_as_characters() {
    for text in ["", " ", "a", " a ", "\u{2003}", "\u{200b}", "\u{2003}x"] {
        assert_eq!(is_blank(text), text.trim().is_empty());
    }
    assert_eq!(strip_prefix("Bearer x", "Bearer "), Some("x"));
    assert_eq!(strip_prefix("Bearer", "Bearer "), None);
    assert_eq!(strip_prefix("\u{e4}\u{f6}\u{fc}", "\u{e4}\u{f6}"), Some("\u{fc}"));
    assert_eq!(strip_prefix("\u{e4}", "\u{e5}"), None);
    assert_eq!(strip_prefix("x", ""), Some("x"));
    assert!(same_text("\u{e4}", "\u{e4}"));
    assert!(!same_text("\u{e4}", "\u{e5}"));
    assert!(!same_text("a", "aa"));
    for n in 0u8..=255 {
        assert_eq!(decimal_text(n), n.to_string());
    }
}

#[test]
fn errors_are_written_for_an_operator() {
    for (error, message) in [
        (
            CaptureError::Disabled,
            "external capture is selected but capture.external.enabled is false",
        ),
        (
            CaptureError::BlankAuthToken,
            "external capture requires a non-empty auth token",
        ),
        (
            CaptureError::UnsupportedPlatform,
            "external capture currently accepts Majsoul frames only",
        ),
        (CaptureError::AcceptFailed, "accepting external capture connection"),
        (
            CaptureError::UpgradeFailed,
            "external capture WebSocket upgrade failed",
        ),
        (CaptureError::ReadFailed, "reading external capture WebSocket message"),
        (CaptureError::InvalidJson, "invalid external capture JSON message"),
        (
            CaptureError::BinaryMessage,
            "external capture protocol v1 requires JSON text messages",
        ),
        (CaptureError::RawFrame, "unexpected raw WebSocket frame"),
        (
            CaptureError::UnsupportedVersion { version: 42 },
            "unsupported external capture protocol version 42",
        ),
        (
            CaptureError::SessionIdLength,
            "external capture session id length is invalid",
        ),
        (
            CaptureError::SessionIdCharacters,
            "external capture session id contains invalid characters",
        ),
        (CaptureError::UriTooLong, "external capture URI is too long"),
        (CaptureError::SessionLimit, "external capture session limit exceeded"),
        (
            CaptureError::PayloadNotBase64 {
                cause: Base64Error::InvalidPadding,
            },
            "external capture payload is not valid base64",
        ),
        (
            CaptureError::PayloadTooLarge,
            "external capture decoded payload exceeds configured limit",
        ),
    ] {
        assert_eq!(error.message(), message);
    }
}
