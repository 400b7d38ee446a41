use gitcoach::client::{
    ReplyOutcome, add_new_skills, apply_reply, message_class, send_message, should_send, wrapper_class,
};
use gitcoach::errors::{is_error_message, parse_gemini_error};
use gitcoach::model::{ChatResponse, DomainGoal, Message, Persona, Role};

#[test]
fn blank_or_busy_input_is_not_sent() {
    assert!(!should_send("   \n\t", false));
    assert!(!should_send("hello", true));
    assert!(should_send("  hello ", false));
    assert!(!should_send("", false));
}

#[test]
fn sending_adds_the_user_message() {
    let mut messages = vec![Message { role: Role::Assistant, content: "Hi".to_string() }];
    let skills = vec!["Git".to_string()];
    let req = send_message(&mut messages, "Help".to_string(), Persona::TechLead, DomainGoal::BackendAPIs, &skills);
    assert_eq!(messages.len(), 2);
    assert_eq!(messages[1].role, Role::User);
    assert_eq!(messages[1].content, "Help");
    assert_eq!(req.messages.len(), 2);
    assert_eq!(req.messages[1].content, "Help");
    assert_eq!(req.persona, Persona::TechLead);
    assert_eq!(req.domain, DomainGoal::BackendAPIs);
    assert_eq!(req.skill_tree, skills);
}

#[test]
fn skills_are_merged_without_duplicates() {
    let mut tree = vec!["Git".to_string(), "Rust".to_string()];
    add_new_skills(&mut tree, vec!["Rust".to_string(), "Lifetimes".to_string(), "Lifetimes".to_string()]);
    assert_eq!(tree, vec!["Git".to_string(), "Rust".to_string(), "Lifetimes".to_string()]);
}

#[test]
fn replies_update_the_conversation() {
    let mut messages: Vec<Message> = Vec::new();
    let mut tree = vec!["Git".to_string()];
    let mut suggestions = vec!["old".to_string()];

    apply_reply(&mut messages, &mut tree, &mut suggestions, ReplyOutcome::Unreadable);
    assert!(messages.is_empty());

    apply_reply(&mut messages, &mut tree, &mut suggestions, ReplyOutcome::Unreachable);
    assert_eq!(messages[0].content, "Error: Could not connect to the backend server.");
    assert!(is_error_message(&messages[0].content));

    let failed = ChatResponse::failure(parse_gemini_error("429"));
    apply_reply(&mut messages, &mut tree, &mut suggestions, ReplyOutcome::Received(failed));
    assert!(messages[1].content.starts_with("Error: Woops!"));
    assert_eq!(suggestions, vec!["old".to_string()]);

    let answer = ChatResponse {
        content: "Well done".to_string(),
        error: None,
        suggestions: vec!["Next?".to_string()],
        new_skills: Some(vec!["Git".to_string(), "Testing".to_string()]),
    };
    apply_reply(&mut messages, &mut tree, &mut suggestions, ReplyOutcome::Received(answer));
    assert_eq!(messages.len(), 3);
    assert_eq!(messages[2].role, Role::Assistant);
    assert_eq!(messages[2].content, "Well done");
    assert_eq!(tree, vec!["Git".to_string(), "Testing".to_string()]);
    assert_eq!(suggestions, vec!["Next?".to_string()]);
}

#[test]
fn message_styles() {
    assert_eq!(message_class(Role::User, "Error: x"), "message user");
    assert_eq!(message_class(Role::Assistant, "Error: x"), "message assistant error");
    assert_eq!(message_class(Role::Assistant, "Fine"), "message assistant");
    assert_eq!(wrapper_class(Role::User), "message-wrapper user");
    assert_eq!(wrapper_class(Role::Assistant), "message-wrapper assistant");
}

#[test]
fn gemini_notices_are_shown_as_errors() {
    for raw in ["429", "Quota", "RESOURCE_EXHAUSTED", "503", "UNAVAILABLE", "boom", ""] {
        assert!(is_error_message(&parse_gemini_error(raw)));
    }
}
