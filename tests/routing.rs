use mykisah::api::{ChatCompletionChoice, ChatCompletionResponse, ChatMessage, MessageRole};
use mykisah::bridge::{dispatch, BridgeAction, BridgeEvent};
use mykisah::client::{check_status, ApiError, OpenRouterClient};
use mykisah::pairing::{pairing_display, pairing_display_from, PairingDisplay};
use mykisah::router::{
    after_completion, after_shell, decode_shell_output, message_text, route, route_normalized, shell_reply, Action,
    InboundText, ShellResult,
};

fn client_with(fragments: Vec<Option<String>>) -> OpenRouterClient {
    OpenRouterClient::new("key".to_string(), "model".to_string(), Some("/work".to_string()), fragments)
}

fn plain(t: &str) -> InboundText {
    InboundText { conversation: Some(t.to_string()), extended_text: None }
}

fn response(choices: Vec<&str>) -> ChatCompletionResponse {
    ChatCompletionResponse {
        id: "r".to_string(),
        model: "model".to_string(),
        choices: choices
            .iter()
            .enumerate()
            .map(|(i, t)| ChatCompletionChoice {
                index: i as u32,
                message: ChatMessage::new(MessageRole::Assistant, t.to_string()),
                finish_reason: "stop".to_string(),
            })
            .collect(),
        created: 1,
    }
}

fn sent(a: &Action) -> Option<&str> {
    match a {
        Action::Send(s) => Some(s.as_str()),
        _ => None,
    }
}

#[test]
fn message_text_prefers_conversation() {
    let m = InboundText { conversation: Some("a".to_string()), extended_text: Some("b".to_string()) };
    assert_eq!(message_text(&m), Some("a".to_string()));
}

#[test]
fn message_text_falls_back_to_extended_text() {
    let m = InboundText { conversation: None, extended_text: Some("b".to_string()) };
    assert_eq!(message_text(&m), Some("b".to_string()));
    let m = InboundText { conversation: Some(String::new()), extended_text: Some("b".to_string()) };
    assert_eq!(message_text(&m), Some("b".to_string()));
}

#[test]
fn message_without_text_is_ignored() {
    let c = client_with(vec![]);
    let m = InboundText { conversation: None, extended_text: None };
    assert_eq!(message_text(&m), None);
    assert!(matches!(route(&c, &m), Action::Ignore));
    let m = InboundText { conversation: Some(String::new()), extended_text: Some(String::new()) };
    assert!(matches!(route(&c, &m), Action::Ignore));
}

#[test]
fn ping_in_any_case_and_spacing_gets_pong() {
    let c = client_with(vec![Some("persona".to_string())]);
    for t in ["PING", "ping", " Ping ", "pInG\n"] {
        let a = route(&c, &plain(t));
        assert_eq!(sent(&a), Some("pong"), "for {:?}", t);
    }
}

#[test]
fn near_pings_go_to_the_model() {
    let c = client_with(vec![]);
    for t in ["pingg", "p ing", "ping pong"] {
        assert!(matches!(route(&c, &plain(t)), Action::Complete(_)), "for {:?}", t);
    }
}

#[test]
fn route_normalized_uses_the_given_normal_form() {
    let c = client_with(vec![]);
    assert_eq!(sent(&route_normalized(&c, "whatever".to_string(), "ping")), Some("pong"));
    assert!(matches!(route_normalized(&c, "PING".to_string(), "PING"), Action::Complete(_)));
}

#[test]
fn escaped_text_runs_a_shell_command() {
    let c = client_with(vec![]);
    match route(&c, &plain("!echo hi")) {
        Action::RunShell { command, working_dir } => {
            assert_eq!(command, "echo hi");
            assert_eq!(working_dir, "/work");
        }
        other => panic!("unexpected {:?}", other),
    }
    match route(&c, &plain("!ping")) {
        Action::RunShell { command, .. } => assert_eq!(command, "ping"),
        other => panic!("unexpected {:?}", other),
    }
}

#[test]
fn escaped_text_without_directory_replies_an_error() {
    let c = OpenRouterClient::new("key".to_string(), "model".to_string(), None, vec![]);
    let a = route(&c, &plain("!echo hi"));
    assert_eq!(sent(&a), Some("Failed to execute command: no working directory is configured"));
    assert!(matches!(route(&c, &plain("ping")), Action::Send(_)));
}

#[test]
fn echo_hi_replies_its_output() {
    let c = client_with(vec![]);
    assert!(matches!(route(&c, &plain("!echo hi")), Action::RunShell { .. }));
    let out = decode_shell_output(true, &b"hi\n".to_vec(), &b"".to_vec());
    let a = after_shell(&out);
    assert_eq!(sent(&a), Some("hi\n"));
}

#[test]
fn failed_command_replies_its_errors() {
    let out = decode_shell_output(false, &b"ignored".to_vec(), &b"no such file\n".to_vec());
    assert_eq!(shell_reply(&out), "Error: no such file\n");
    let spawn = ShellResult::SpawnFailed("not found".to_string());
    assert_eq!(sent(&after_shell(&spawn)), Some("Failed to execute command: not found"));
}

#[test]
fn shell_output_is_decoded_lossily() {
    match decode_shell_output(true, &vec![b'a', 0xff, b'b'], &vec![]) {
        ShellResult::Succeeded(s) => assert_eq!(s, "a\u{FFFD}b"),
        other => panic!("unexpected {:?}", other),
    }
}

#[test]
fn terse_soul_and_hello_make_two_turns() {
    let c = client_with(vec![Some("You are terse.".to_string()), None, None, None, None]);
    match route(&c, &plain("hello")) {
        Action::Complete(req) => {
            let turns: Vec<(MessageRole, &str)> = req.messages.iter().map(|m| (m.role, m.content.as_str())).collect();
            assert_eq!(turns, vec![(MessageRole::System, "You are terse."), (MessageRole::User, "hello")]);
            assert_eq!(req.model, "model");
        }
        other => panic!("unexpected {:?}", other),
    }
}

#[test]
fn conversation_keeps_bundle_order() {
    let c = client_with(vec![
        Some("s".to_string()),
        Some("i".to_string()),
        None,
        Some("a".to_string()),
        Some("u".to_string()),
    ]);
    match route(&c, &plain("Tell me")) {
        Action::Complete(req) => {
            let texts: Vec<&str> = req.messages.iter().map(|m| m.content.as_str()).collect();
            assert_eq!(texts, vec!["s", "i", "a", "u", "Tell me"]);
            assert_eq!(req.messages[4].role, MessageRole::User);
        }
        other => panic!("unexpected {:?}", other),
    }
}

#[test]
fn first_choice_is_relayed() {
    let a = after_completion(&Ok(response(vec!["first", "second"])));
    assert_eq!(sent(&a), Some("first"));
}

#[test]
fn zero_choices_send_nothing() {
    assert!(matches!(after_completion(&Ok(response(vec![]))), Action::Ignore));
}

#[test]
fn failed_status_sends_nothing_and_next_message_is_served() {
    let c = client_with(vec![]);
    let err = check_status(500, "boom".to_string()).unwrap_err();
    assert!(matches!(after_completion(&Err(err)), Action::Ignore));
    assert!(matches!(after_completion(&Err(ApiError::Transport("down".to_string()))), Action::Ignore));
    assert!(matches!(after_completion(&Err(ApiError::Parse("bad json".to_string()))), Action::Ignore));
    assert_eq!(sent(&route(&c, &plain("ping"))), Some("pong"));
}

#[test]
fn pairing_code_is_drawn_with_instructions() {
    match pairing_display("2@abc,def,ghi") {
        PairingDisplay::Scan(lines) => {
            assert_eq!(lines.len(), 5);
            assert_eq!(lines[1], "║     Scan this QR code with WhatsApp       ║");
            assert!(lines[3].contains('█') || lines[3].contains('▀') || lines[3].contains('▄'));
            assert_eq!(lines[4], "\nOpen WhatsApp → Settings → Linked Devices → Link a Device\n");
        }
        other => panic!("unexpected {:?}", other),
    }
}

#[test]
fn oversized_pairing_code_fails_with_reason() {
    let code = "x".repeat(5000);
    match pairing_display(&code) {
        PairingDisplay::Failed { reason, raw } => {
            assert_eq!(reason, "data too long");
            assert!(!raw.is_empty());
            assert_eq!(raw, code);
        }
        other => panic!("unexpected {:?}", other),
    }
}

#[test]
fn pairing_display_from_places_drawing() {
    match pairing_display_from("c", Ok("QR".to_string())) {
        PairingDisplay::Scan(lines) => assert_eq!(lines[3], "QR"),
        other => panic!("unexpected {:?}", other),
    }
    match pairing_display_from("c", Err("why".to_string())) {
        PairingDisplay::Failed { reason, raw } => {
            assert_eq!(reason, "why");
            assert_eq!(raw, "c");
        }
        other => panic!("unexpected {:?}", other),
    }
}

#[test]
fn dispatch_tells_events_apart() {
    let c = client_with(vec![]);
    assert!(matches!(dispatch(&c, &BridgeEvent::Connected), BridgeAction::AnnounceConnected));
    assert!(matches!(dispatch(&c, &BridgeEvent::Other), BridgeAction::Ignore));
    assert!(matches!(
        dispatch(&c, &BridgeEvent::PairingCode("code".to_string())),
        BridgeAction::ShowPairing(PairingDisplay::Scan(_))
    ));
    match dispatch(&c, &BridgeEvent::Message(plain(" PING"))) {
        BridgeAction::Handle(a) => assert_eq!(sent(&a), Some("pong")),
        other => panic!("unexpected {:?}", other),
    }
}
