use external_capture::error::{Base64Error, CaptureError};
use external_capture::payload::decode_payload;
use external_capture::state::{CaptureAction, ExternalState, MAX_SESSIONS};
use external_capture::wire::{
    validate_session_id, validate_version, Direction, WireDirection, WireMessage,
};

/// What "!" is refused with as a payload.
const NOT_BASE64: CaptureError = CaptureError::PayloadNotBase64 {
    cause: Base64Error::InvalidByte {
        offset: 0,
        byte: b'!',
    },
};

fn encoded(payload: &[u8]) -> String {
    base64::Engine::encode(&base64::engine::general_purpose::STANDARD, payload)
}

fn frame(session_id: &str, sequence: u64, payload_base64: &str) -> WireMessage {
    WireMessage::Frame {
        version: 1,
        session_id: session_id.to_string(),
        sequence,
        timestamp_ms: 1_700_000_000_000,
        direction: WireDirection::ServerToClient,
        uri: "wss://example.invalid/gateway".to_string(),
        payload_base64: payload_base64.to_string(),
    }
}

fn close(session_id: &str) -> WireMessage {
    WireMessage::SessionClose {
        version: 1,
        session_id: session_id.to_string(),
    }
}

fn feeds(outcome: Result<CaptureAction, CaptureError>) -> bool {
    matches!(outcome, Ok(CaptureAction::Feed { .. }))
}

fn poisoned(outcome: Result<CaptureAction, CaptureError>) -> bool {
    matches!(outcome, Ok(CaptureAction::Poisoned))
}

fn duplicate(outcome: Result<CaptureAction, CaptureError>) -> bool {
    matches!(outcome, Ok(CaptureAction::Duplicate))
}

#[test]
fn the_payload_of_a_frame_written_as_json_decodes() {
    let json = r#"{
            "type":"frame","version":1,"session_id":"boot/ws-1",
            "sequence":1,"timestamp_ms":1700000000000,
            "direction":"server_to_client","uri":"wss://example.invalid/gateway",
            "payload_base64":"AQID"
        }"#;
    let fields: serde_json::Value = serde_json::from_str(json).unwrap();
    assert_eq!(fields["type"].as_str(), Some("frame"));
    let direction = match fields["direction"].as_str() {
        Some("client_to_server") => WireDirection::ClientToServer,
        Some("server_to_client") => WireDirection::ServerToClient,
        other => panic!("{other:?}"),
    };
    let message = WireMessage::Frame {
        version: fields["version"].as_u64().unwrap() as u8,
        session_id: fields["session_id"].as_str().unwrap().to_string(),
        sequence: fields["sequence"].as_u64().unwrap(),
        timestamp_ms: fields["timestamp_ms"].as_i64().unwrap(),
        direction,
        uri: fields["uri"].as_str().unwrap().to_string(),
        payload_base64: fields["payload_base64"].as_str().unwrap().to_string(),
    };
    match message {
        WireMessage::Frame {
            session_id,
            sequence,
            payload_base64,
            ..
        } => {
            assert_eq!(session_id, "boot/ws-1");
            assert_eq!(sequence, 1);
            assert_eq!(decode_payload(payload_base64.as_bytes()).unwrap(), [1, 2, 3]);
        }
        _ => panic!("expected frame"),
    }
}

#[test]
fn session_id_is_bounded_and_filename_safe() {
    assert!(validate_session_id("boot-id/ws_1.2").is_ok());
    assert!(validate_session_id("").is_err());
    assert!(validate_session_id("../bad:session").is_err());
    assert!(validate_session_id(&"x".repeat(129)).is_err());
}

#[test]
fn session_id_errors_name_the_broken_rule() {
    assert_eq!(validate_session_id(""), Err(CaptureError::SessionIdLength));
    assert_eq!(validate_session_id(&"x".repeat(128)), Ok(()));
    assert_eq!(
        validate_session_id(&":".repeat(129)),
        Err(CaptureError::SessionIdLength)
    );
    assert_eq!(
        validate_session_id(&"\u{e4}".repeat(65)),
        Err(CaptureError::SessionIdLength)
    );
    assert_eq!(
        validate_session_id(&"\u{e4}".repeat(64)),
        Err(CaptureError::SessionIdCharacters)
    );
    for code in 0u8..128 {
        let id = (code as char).to_string();
        let allowed = code.is_ascii_alphanumeric() || matches!(code, b'-' | b'_' | b'.' | b'/');
        assert_eq!(validate_session_id(&id).is_ok(), allowed);
    }
}

#[test]
fn only_version_one_is_spoken() {
    assert_eq!(validate_version(1), Ok(()));
    for version in [0u8, 2, 255] {
        assert_eq!(
            validate_version(version),
            Err(CaptureError::UnsupportedVersion { version })
        );
    }
}

#[test]
fn directions_are_seen_from_the_client() {
    assert_eq!(Direction::from(WireDirection::ClientToServer), Direction::Up);
    assert_eq!(Direction::from(WireDirection::ServerToClient), Direction::Down);
}

#[test]
fn payloads_are_standard_base64_with_padding() {
    assert_eq!(decode_payload(b"").unwrap(), Vec::<u8>::new());
    assert_eq!(decode_payload(b"aGVsbG8=").unwrap(), b"hello");
    assert_eq!(decode_payload(b"+/8=").unwrap(), [0xfb, 0xff]);
    for (bad, cause) in [
        ("aGVsbG8", Base64Error::InvalidPadding),
        ("-_8=", Base64Error::InvalidByte { offset: 0, byte: b'-' }),
        ("aGVsbG9=", Base64Error::InvalidLastSymbol { offset: 6, byte: b'9' }),
        ("a", Base64Error::InvalidLength { length: 1 }),
        ("AQ ID", Base64Error::InvalidByte { offset: 2, byte: b' ' }),
    ] {
        assert_eq!(
            decode_payload(bad.as_bytes()),
            Err(CaptureError::PayloadNotBase64 { cause })
        );
    }
    for bad in ["AQID\n", "===="] {
        assert!(matches!(
            decode_payload(bad.as_bytes()),
            Err(CaptureError::PayloadNotBase64 { .. })
        ));
    }
}

#[test]
fn an_accepted_frame_is_fed_to_the_bridge_of_its_session() {
    let mut state = ExternalState::new(4096);
    let payload = [2u8, 7, 0, 255];
    match state.process(frame("boot/ws-1", 1, &encoded(&payload))) {
        Ok(CaptureAction::Feed {
            session_id,
            label,
            direction,
            payload: fed,
        }) => {
            assert_eq!(session_id, "boot/ws-1");
            assert_eq!(label, "external ws wss://example.invalid/gateway");
            assert_eq!(direction, Direction::Down);
            assert_eq!(fed, payload);
        }
        other => panic!("{other:?}"),
    }
}

#[test]
fn frames_are_fed_in_order_and_once() {
    let mut state = ExternalState::new(4096);
    let mut fed: Vec<u64> = Vec::new();
    for sequence in [1u64, 2, 2, 1, 3, 4, 4, 6, 5, 6] {
        if feeds(state.process(frame("s", sequence, "AQID"))) {
            fed.push(sequence);
        }
    }
    assert_eq!(fed, [1, 2, 3, 4]);
}

#[test]
fn a_gap_retires_the_bridge_and_silences_the_session_until_it_is_closed() {
    let mut state = ExternalState::new(4096);
    assert!(feeds(state.process(frame("s", 1, "AQID"))));
    match state.process(frame("s", 3, "AQID")) {
        Ok(CaptureAction::Gap {
            expected,
            got,
            retire,
        }) => {
            assert_eq!((expected, got), (2, 3));
            assert_eq!(retire.session_id, "s");
            assert_eq!(retire.label, "wss://example.invalid/gateway");
        }
        other => panic!("{other:?}"),
    }
    for sequence in [1u64, 2, 3, 4] {
        assert!(poisoned(state.process(frame("s", sequence, "AQID"))));
    }
    match state.process(close("s")) {
        Ok(CaptureAction::Closed { retire }) => {
            assert_eq!(retire.session_id, "s");
            assert_eq!(retire.label, "session-close");
        }
        other => panic!("{other:?}"),
    }
    assert!(feeds(state.process(frame("s", 1, "AQID"))));
}

#[test]
fn a_session_taken_up_in_the_middle_is_poisoned() {
    let mut state = ExternalState::new(4096);
    assert!(matches!(
        state.process(frame("s", 42, "AQID")),
        Ok(CaptureAction::Gap {
            expected: 1,
            got: 42,
            ..
        })
    ));
    assert!(poisoned(state.process(frame("s", 1, "AQID"))));
}

#[test]
fn sessions_do_not_disturb_each_other() {
    let mut state = ExternalState::new(4096);
    assert!(feeds(state.process(frame("a", 1, "AQID"))));
    assert!(feeds(state.process(frame("b", 1, "AQID"))));
    assert!(matches!(
        state.process(frame("b", 9, "AQID")),
        Ok(CaptureAction::Gap { .. })
    ));
    assert!(feeds(state.process(frame("a", 2, "AQID"))));
    assert!(matches!(
        state.process(close("b")),
        Ok(CaptureAction::Closed { .. })
    ));
    assert!(duplicate(state.process(frame("a", 2, "AQID"))));
    assert!(feeds(state.process(frame("a", 3, "AQID"))));
}

#[test]
fn closing_a_session_that_is_not_open_is_answered_the_same() {
    let mut state = ExternalState::new(4096);
    for _ in 0..2 {
        assert!(matches!(
            state.process(close("unknown")),
            Ok(CaptureAction::Closed { .. })
        ));
    }
}

#[test]
fn refused_frames_leave_the_session_where_it_was() {
    let mut state = ExternalState::new(2);
    assert!(feeds(state.process(frame("s", 1, "AQI="))));
    assert_eq!(
        state.process(frame("s", 2, "AQID")).unwrap_err(),
        CaptureError::PayloadTooLarge
    );
    assert_eq!(
        state.process(frame("s", 2, "!")).unwrap_err(),
        NOT_BASE64
    );
    assert_eq!(
        state.process(frame("s:", 2, "AQI=")).unwrap_err(),
        CaptureError::SessionIdCharacters
    );
    assert!(feeds(state.process(frame("s", 2, "AQI="))));
}

#[test]
fn the_first_broken_rule_is_reported() {
    let mut state = ExternalState::new(2);
    let broken = |version: u8, session_id: &str, uri: String| WireMessage::Frame {
        version,
        session_id: session_id.to_string(),
        sequence: 1,
        timestamp_ms: 0,
        direction: WireDirection::ClientToServer,
        uri,
        payload_base64: "!".to_string(),
    };
    assert_eq!(
        state.process(broken(2, "", "x".repeat(2049))).unwrap_err(),
        CaptureError::UnsupportedVersion { version: 2 }
    );
    assert_eq!(
        state.process(broken(1, "", "x".repeat(2049))).unwrap_err(),
        CaptureError::SessionIdLength
    );
    assert_eq!(
        state.process(broken(1, "s", "x".repeat(2049))).unwrap_err(),
        CaptureError::UriTooLong
    );
    assert_eq!(
        state.process(broken(1, "s", "\u{e4}".repeat(1025))).unwrap_err(),
        CaptureError::UriTooLong
    );
    assert_eq!(
        state.process(broken(1, "s", "x".repeat(2048))).unwrap_err(),
        NOT_BASE64
    );
    assert_eq!(
        state
            .process(WireMessage::SessionClose {
                version: 0,
                session_id: String::new()
            })
            .unwrap_err(),
        CaptureError::UnsupportedVersion { version: 0 }
    );
    assert_eq!(
        state
            .process(WireMessage::SessionClose {
                version: 1,
                session_id: "a b".to_string()
            })
            .unwrap_err(),
        CaptureError::SessionIdCharacters
    );
}

#[test]
fn the_number_of_sessions_is_bounded_and_closing_makes_room() {
    let mut state = ExternalState::new(4096);
    for n in 0..MAX_SESSIONS {
        assert!(feeds(state.process(frame(&format!("s{n}"), 1, "AQID"))));
    }
    assert_eq!(
        state.process(frame("late", 1, "AQID")).unwrap_err(),
        CaptureError::SessionLimit
    );
    assert!(feeds(state.process(frame("s0", 2, "AQID"))));
    assert!(matches!(
        state.process(close("s7")),
        Ok(CaptureAction::Closed { .. })
    ));
    assert!(feeds(state.process(frame("late", 1, "AQID"))));
    assert_eq!(MAX_SESSIONS, 64);
}

#[test]
fn a_refused_payload_opens_no_session() {
    let mut state = ExternalState::new(1);
    for n in 0..MAX_SESSIONS {
        assert_eq!(
            state.process(frame(&format!("s{n}"), 1, "AQID")).unwrap_err(),
            CaptureError::PayloadTooLarge
        );
    }
    assert!(feeds(state.process(frame("late", 1, "AQ=="))));
}

#[test]
fn a_decoded_payload_is_taken_as_it_is() {
    let mut state = ExternalState::new(3);
    assert_eq!(state.check_frame(1, "s", "u"), Ok(()));
    assert_eq!(
        state
            .take_payload(
                "s".to_string(),
                1,
                WireDirection::ClientToServer,
                "u".to_string(),
                Err(CaptureError::PayloadNotBase64 {
                    cause: Base64Error::InvalidPadding
                })
            )
            .unwrap_err(),
        CaptureError::PayloadNotBase64 {
            cause: Base64Error::InvalidPadding
        }
    );
    match state.take_payload(
        "s".to_string(),
        1,
        WireDirection::ClientToServer,
        "u".to_string(),
        Ok(vec![1, 2, 3]),
    ) {
        Ok(CaptureAction::Feed {
            label,
            direction,
            payload,
            ..
        }) => {
            assert_eq!(label, "external ws u");
            assert_eq!(direction, Direction::Up);
            assert_eq!(payload, [1, 2, 3]);
        }
        other => panic!("{other:?}"),
    }
    let retire = state.retire_bridge("s", "why");
    assert_eq!((retire.session_id.as_str(), retire.label.as_str()), ("s", "why"));
}
