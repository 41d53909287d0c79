use mykisah::api::{ChatCompletionChoice, ChatCompletionResponse, ChatMessage, MessageRole};
use mykisah::console::{classify_input, classify_trimmed, ConsoleCommand, ConsoleSession, Speaker};
use mykisah::router::ShellResult;
use mykisah::text::same_text;

#[test]
fn exit_in_any_case_leaves() {
    for t in ["exit", "EXIT", "  Exit \n"] {
        assert!(matches!(classify_input(t), ConsoleCommand::Exit), "for {:?}", t);
    }
}

#[test]
fn escaped_line_is_a_command() {
    match classify_input("  !ls -la\n") {
        ConsoleCommand::Shell(c) => assert_eq!(c, "ls -la"),
        other => panic!("unexpected {:?}", other),
    }
}

#[test]
fn other_lines_are_questions_trimmed() {
    match classify_input("  What now?\n") {
        ConsoleCommand::Ask(q) => assert_eq!(q, "What now?"),
        other => panic!("unexpected {:?}", other),
    }
    assert!(matches!(classify_trimmed("exit!".to_string(), "exit!"), ConsoleCommand::Ask(_)));
}

#[test]
fn speaker_tags() {
    assert_eq!(Speaker::You.tag(), "You");
    assert_eq!(Speaker::Ai.tag(), "AI");
    assert_eq!(Speaker::Shell.tag(), "SHELL");
    assert_eq!(Speaker::ShellError.tag(), "SHELL_ERROR");
}

#[test]
fn session_records_in_order() {
    let mut s = ConsoleSession::new();
    assert!(s.history().is_empty());
    s.record_user("hi".to_string());
    s.record_shell(&ShellResult::Succeeded("out\n".to_string()));
    s.record_shell(&ShellResult::Failed("err\n".to_string()));
    s.record_shell(&ShellResult::SpawnFailed("nope".to_string()));
    s.record_reply(&ChatCompletionResponse {
        id: "i".to_string(),
        model: "m".to_string(),
        choices: vec![ChatCompletionChoice {
            index: 0,
            message: ChatMessage::new(MessageRole::Assistant, "hello".to_string()),
            finish_reason: "stop".to_string(),
        }],
        created: 0,
    });
    s.record_reply(&ChatCompletionResponse { id: "i".to_string(), model: "m".to_string(), choices: vec![], created: 0 });
    s.record_failure("timeout");
    let h: Vec<(Speaker, &str)> = s.history().iter().map(|e| (e.speaker, e.text.as_str())).collect();
    assert_eq!(
        h,
        vec![
            (Speaker::You, "hi"),
            (Speaker::Shell, "out\n"),
            (Speaker::ShellError, "err\n"),
            (Speaker::ShellError, "Failed to execute command: nope"),
            (Speaker::Ai, "hello"),
            (Speaker::Ai, "OpenRouter returned no choices."),
            (Speaker::Ai, "Error getting OpenRouter completion: timeout"),
        ]
    );
}

#[test]
fn unicode_case_and_whitespace_are_normalised() {
    assert!(matches!(classify_input("\u{2003}EXİT\t"), ConsoleCommand::Ask(_)));
    assert!(matches!(classify_input("\u{2003}ÉXIT\t"), ConsoleCommand::Ask(_)));
    assert!(matches!(classify_input("\u{2003}EXIT\u{3000}"), ConsoleCommand::Exit));
}

#[test]
fn same_text_compares_characters() {
    assert!(same_text("abc", "abc"));
    assert!(!same_text("abc", "abd"));
    assert!(!same_text("abc", "ab"));
}

#[test]
fn shell_command_needs_a_working_directory() {
    let mut s = ConsoleSession::new();
    assert_eq!(
        s.prepare_shell("ls".to_string(), &Some("/work".to_string())),
        Some(("ls".to_string(), "/work".to_string()))
    );
    assert!(s.history().is_empty());
    assert_eq!(s.prepare_shell("ls".to_string(), &None), None);
    let h: Vec<(Speaker, &str)> = s.history().iter().map(|e| (e.speaker, e.text.as_str())).collect();
    assert_eq!(h, vec![(Speaker::ShellError, "Failed to execute command: no working directory is configured")]);
}
