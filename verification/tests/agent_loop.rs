use gitcoach::agent::{
    AiReply, Agent, AgentAction, AgentEvent, Candidate, HistoryEntry, ModelReply, ReplyPart,
    Speaker, clean_model_reply, json_block_is_in_order,
};
use gitcoach::context::DocSource;

fn text_reply(t: &str) -> ModelReply {
    ModelReply { candidates: vec![Candidate { parts: Some(vec![ReplyPart::Text(t.to_string())]) }] }
}

fn expect_prompt(action: AgentAction) -> Vec<HistoryEntry> {
    match action {
        AgentAction::AskModel(p) => p,
        other => panic!("expected a model call, got {:?}", other),
    }
}

#[test]
fn prompt_puts_instruction_and_acknowledgement_first() {
    let history = vec![HistoryEntry::user("hi".to_string())];
    let (_, action) = Agent::start("be nice".to_string(), &history);
    let prompt = expect_prompt(action);
    assert_eq!(prompt.len(), 3);
    assert_eq!(prompt[0].speaker, Speaker::User);
    assert_eq!(prompt[0].text, "be nice");
    assert_eq!(prompt[1].speaker, Speaker::Model);
    assert!(prompt[1].text.starts_with("{\n  \"content\": \"Understood."));
    assert_eq!(prompt[2].text, "hi");
}

#[test]
fn reply_text_stand_ins() {
    assert_eq!(ModelReply { candidates: vec![] }.text(), "No candidates returned");
    assert_eq!(ModelReply { candidates: vec![Candidate { parts: None }] }.text(), "Empty response parts");
    assert_eq!(ModelReply { candidates: vec![Candidate { parts: Some(vec![]) }] }.text(), "Empty response parts");
    assert_eq!(
        ModelReply { candidates: vec![Candidate { parts: Some(vec![ReplyPart::Other]) }] }.text(),
        "Received non-text response"
    );
    assert_eq!(text_reply("abc").text(), "abc");
}

#[test]
fn cleaning_keeps_the_json_block_without_fences() {
    assert_eq!(clean_model_reply("Sure!\n```json\n{\"a\": 1}\n```\nBye"), "{\"a\": 1}");
    assert_eq!(clean_model_reply("```json\n{\n\"a\": 1\n}\n```"), "{\n\"a\": 1\n}");
    assert_eq!(clean_model_reply("no json here"), "no json here");
    assert_eq!(clean_model_reply("{\r\n\"a\": 1\r\n}"), "{\n\"a\": 1\n}");
    assert_eq!(clean_model_reply("x\n```\ny\n"), "x\ny");
    assert!(json_block_is_in_order("{}"));
    assert!(json_block_is_in_order("}{"));
    assert!(!json_block_is_in_order("} x {"));
}

#[test]
fn model_failure_is_reported() {
    let mut history = vec![HistoryEntry::user("hi".to_string())];
    let (mut agent, _) = Agent::start("ctx".to_string(), &history);
    match agent.step(&mut history, AgentEvent::ModelFailed("code 503 UNAVAILABLE".to_string())) {
        AgentAction::Respond(r) => {
            assert!(r.content.is_empty());
            assert_eq!(
                r.error.unwrap(),
                "The Gemini API is currently experiencing extremely high demand. Please wait a few moments and try sending your message again!"
            );
        }
        other => panic!("expected a response, got {:?}", other),
    }
    assert_eq!(history.len(), 1);
}

#[test]
fn retrieval_round_trip() {
    let mut history = vec![HistoryEntry::user("How do I start on owner/repo?".to_string())];
    let (mut agent, first) = Agent::start("ctx".to_string(), &history);
    assert_eq!(expect_prompt(first).len(), 3);

    // The model asks for the repository's guide.
    let answer = "```json\n{\"content\": \"Let me look\", \"fetch_repo_rag\": \"owner/repo\"}\n```";
    let cleaned = match agent.step(&mut history, AgentEvent::ModelAnswered(text_reply(answer))) {
        AgentAction::ParseReply(c) => c,
        other => panic!("expected a parse, got {:?}", other),
    };
    assert_eq!(cleaned, "{\"content\": \"Let me look\", \"fetch_repo_rag\": \"owner/repo\"}");
    let parsed = AiReply {
        content: "Let me look".to_string(),
        suggestions: None,
        new_skills_detected: None,
        fetch_repo_rag: Some("owner/repo".to_string()),
    };
    match agent.step(&mut history, AgentEvent::Parsed(Some(parsed))) {
        AgentAction::FetchDoc { source, url } => {
            assert_eq!(source, DocSource::Contributing);
            assert_eq!(url, "https://raw.githubusercontent.com/owner/repo/HEAD/CONTRIBUTING.md");
        }
        other => panic!("expected a fetch, got {:?}", other),
    }
    // No CONTRIBUTING.md: the README is tried next.
    match agent.step(&mut history, AgentEvent::Fetched(None)) {
        AgentAction::FetchDoc { source, url } => {
            assert_eq!(source, DocSource::Readme);
            assert_eq!(url, "https://api.github.com/repos/owner/repo/readme");
        }
        other => panic!("expected a fetch, got {:?}", other),
    }
    let prompt = expect_prompt(agent.step(&mut history, AgentEvent::Fetched(Some("# Readme".to_string()))));
    assert_eq!(history.len(), 3);
    assert_eq!(history[1].speaker, Speaker::Model);
    assert_eq!(history[1].text, cleaned);
    assert_eq!(history[2].speaker, Speaker::User);
    assert_eq!(
        history[2].text,
        "SYSTEM TOOL FETCH RESULT for owner/repo:\nNo contributing.md found. README found:\n# Readme"
    );
    assert_eq!(prompt.len(), 5);
    assert_eq!(agent.depth, 1);
}

#[test]
fn broken_json_is_salvaged() {
    let mut history = vec![HistoryEntry::user("hi".to_string())];
    let (mut agent, _) = Agent::start("ctx".to_string(), &history);
    let answer = "{\"content\": \"Hello\\nthere\", \"suggestions\": [\"A\", \"B\"]";
    let _ = agent.step(&mut history, AgentEvent::ModelAnswered(text_reply(answer)));
    match agent.step(&mut history, AgentEvent::Parsed(None)) {
        AgentAction::Respond(r) => {
            assert_eq!(r.content, "Hello\nthere");
            assert_eq!(r.suggestions, vec!["A".to_string(), "B".to_string()]);
            assert!(r.new_skills.is_none());
            assert!(r.error.is_none());
        }
        other => panic!("expected a response, got {:?}", other),
    }
    assert_eq!(history.len(), 2);
    assert_eq!(history[1].text, "Hello\nthere");
}

#[test]
fn null_repository_is_not_looked_up() {
    let mut history = vec![HistoryEntry::user("hi".to_string())];
    let (mut agent, _) = Agent::start("ctx".to_string(), &history);
    let _ = agent.step(&mut history, AgentEvent::ModelAnswered(text_reply("{}")));
    let parsed = AiReply {
        content: "Hi".to_string(),
        suggestions: Some(vec!["Next?".to_string()]),
        new_skills_detected: None,
        fetch_repo_rag: Some("null".to_string()),
    };
    match agent.step(&mut history, AgentEvent::Parsed(Some(parsed))) {
        AgentAction::Respond(r) => assert_eq!(r.content, "Hi"),
        other => panic!("expected a response, got {:?}", other),
    }
}

#[test]
fn rounds_are_limited() {
    let mut history = vec![HistoryEntry::user("go".to_string())];
    let (mut agent, _) = Agent::start("ctx".to_string(), &history);
    let mut model_calls = 1;
    loop {
        let _ = agent.step(&mut history, AgentEvent::ModelAnswered(text_reply("{}")));
        let parsed = AiReply {
            content: String::new(),
            suggestions: None,
            new_skills_detected: None,
            fetch_repo_rag: Some("a/b".to_string()),
        };
        let _ = agent.step(&mut history, AgentEvent::Parsed(Some(parsed)));
        match agent.step(&mut history, AgentEvent::Fetched(Some("doc".to_string()))) {
            AgentAction::AskModel(_) => model_calls += 1,
            AgentAction::Respond(r) => {
                assert_eq!(r.error.unwrap(), "Agent exceeded maximum iterations");
                break;
            }
            other => panic!("unexpected {:?}", other),
        }
    }
    assert_eq!(model_calls, 4);
    assert_eq!(history.len(), 1 + 2 * 4);
}

#[test]
fn long_documents_are_capped() {
    let mut history = vec![HistoryEntry::user("go".to_string())];
    let (mut agent, _) = Agent::start("ctx".to_string(), &history);
    let _ = agent.step(&mut history, AgentEvent::ModelAnswered(text_reply("{}")));
    let _ = agent.step(&mut history, AgentEvent::Parsed(None));
    // "{}" salvages nothing: the turn ends with the raw text as content.
    assert_eq!(history.last().unwrap().text, "{}");

    let mut history = vec![HistoryEntry::user("go".to_string())];
    let (mut agent, _) = Agent::start("ctx".to_string(), &history);
    let _ = agent.step(&mut history, AgentEvent::ModelAnswered(text_reply("{\"fetch_repo_rag\": \"x/y\"}")));
    let _ = agent.step(&mut history, AgentEvent::Parsed(None));
    let doc: String = std::iter::repeat('é').take(3100).collect();
    let _ = agent.step(&mut history, AgentEvent::Fetched(Some(doc)));
    let tool = &history[2].text;
    let expected_prefix = "SYSTEM TOOL FETCH RESULT for x/y:\nCONTRIBUTING.md found:\n";
    assert!(tool.starts_with(expected_prefix));
    assert_eq!(tool.chars().count(), expected_prefix.chars().count() + 3000);
}
