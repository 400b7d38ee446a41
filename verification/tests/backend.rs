use gitcoach::agent::{AiReply, Agent, AgentAction, AgentEvent, HistoryEntry, Speaker};
use gitcoach::context::generate_system_context;
use gitcoach::errors::parse_gemini_error;
use gitcoach::fallback::fallback_parse_json;
use gitcoach::model::{ChatRequest, DomainGoal, Persona};
use gitcoach::service::open_turn;

#[test]
fn test_chat_empty_message() {
    let request = ChatRequest {
        messages: vec![],
        persona: Persona::Cheerleader,
        domain: DomainGoal::SystemProgramming,
        skill_tree: vec![],
    };
    let mut history: Vec<HistoryEntry> = Vec::new();
    let chat_response = match open_turn(&request, &mut history) {
        Err(response) => response,
        Ok(_) => panic!("a request without a user message must be refused"),
    };
    assert!(chat_response.error.is_some());
    assert_eq!(chat_response.error.unwrap(), "No user message provided");
    assert!(history.is_empty());
}

#[test]
fn test_generate_system_context_cheerleader_rust() {
    let skill_tree = vec!["Borrow Checking".to_string()];
    let context = generate_system_context(
        &Persona::Cheerleader,
        &DomainGoal::SystemProgramming,
        &skill_tree,
        "Test issue: fix typo in README"
    );
    assert!(context.contains("encouraging open-source mentor"));
    assert!(context.contains("SystemProgramming"));
    assert!(context.contains("fix typo in README"));
    assert!(context.contains("Borrow Checking"));
    assert!(context.contains("valid JSON object"));
}

#[test]
fn test_generate_system_context_techlead_no_issues() {
    let context = generate_system_context(
        &Persona::TechLead,
        &DomainGoal::BackendAPIs,
        &[],
        ""
    );
    assert!(context.contains("strict, highly professional Tech Lead"));
    assert!(context.contains("BackendAPIs"));
    assert!(!context.contains("Live GitHub issues"));
    assert!(context.contains("JSON"));
}

/// Reads the structured answer out of a JSON value, field by field.
fn reply_from_json(v: &serde_json::Value) -> AiReply {
    let strings = |key: &str| {
        v.get(key).and_then(|a| a.as_array()).map(|a| {
            a.iter().filter_map(|s| s.as_str().map(|s| s.to_string())).collect::<Vec<String>>()
        })
    };
    AiReply {
        content: v["content"].as_str().unwrap().to_string(),
        suggestions: strings("suggestions"),
        new_skills_detected: strings("new_skills_detected"),
        fetch_repo_rag: v.get("fetch_repo_rag").and_then(|r| r.as_str()).map(|r| r.to_string()),
    }
}

#[test]
fn test_ai_json_response_deserialization() {
    let json_str = r#"{
            "content": "You just mastered lifetimes!",
            "suggestions": ["What about closures?"],
            "new_skills_detected": ["Rust Lifetimes"],
            "fetch_repo_rag": null
        }"#;

    let value: serde_json::Value = serde_json::from_str(json_str).unwrap();
    let parsed = reply_from_json(&value);
    assert_eq!(parsed.content, "You just mastered lifetimes!");
    assert_eq!(parsed.suggestions.clone().unwrap()[0], "What about closures?");
    assert_eq!(parsed.new_skills_detected.clone().unwrap()[0], "Rust Lifetimes");
    assert!(parsed.fetch_repo_rag.is_none());

    // The parsed answer, handed to the agent, is the reply to the user.
    let mut history: Vec<HistoryEntry> = Vec::new();
    let (mut agent, _) = Agent::start("context".to_string(), &history);
    let action = agent.step(&mut history, AgentEvent::ModelAnswered(gitcoach::agent::ModelReply {
        candidates: vec![gitcoach::agent::Candidate {
            parts: Some(vec![gitcoach::agent::ReplyPart::Text(json_str.to_string())]),
        }],
    }));
    assert!(matches!(action, AgentAction::ParseReply(_)));
    match agent.step(&mut history, AgentEvent::Parsed(Some(parsed))) {
        AgentAction::Respond(r) => {
            assert_eq!(r.content, "You just mastered lifetimes!");
            assert_eq!(r.suggestions, vec!["What about closures?".to_string()]);
            assert_eq!(r.new_skills, Some(vec!["Rust Lifetimes".to_string()]));
            assert!(r.error.is_none());
        }
        other => panic!("expected a response, got {:?}", other),
    }
    assert_eq!(history.len(), 1);
    assert_eq!(history[0].speaker, Speaker::Model);
}

#[test]
fn test_parse_gemini_error_rate_limit() {
    let raw_429_error = r#"bad response from server; code 429; description: { "error": { "code": 429, "message": "You exceeded your current quota..." } }"#;
    let parsed_error = parse_gemini_error(raw_429_error);
    assert_eq!(parsed_error, "Woops! It looks like we've hit the free tier quota limit for the Google Gemini API. Please wait a minute and try again!");

    let raw_quota_error = "RESOURCE_EXHAUSTED";
    let parsed_error2 = parse_gemini_error(raw_quota_error);
    assert_eq!(parsed_error2, "Woops! It looks like we've hit the free tier quota limit for the Google Gemini API. Please wait a minute and try again!");

    let raw_503_error = r#"bad response from server; code 503; description: "UNAVAILABLE""#;
    let parsed_error3 = parse_gemini_error(raw_503_error);
    assert_eq!(parsed_error3, "The Gemini API is currently experiencing extremely high demand. Please wait a few moments and try sending your message again!");

    let generic_error = "500 Internal Server Error";
    let parsed_error4 = parse_gemini_error(generic_error);
    assert_eq!(parsed_error4, "Failed to communicate with AI: 500 Internal Server Error");
}

#[test]
    fn test_fallback_parse_json() {
        let raw = r#""YES! 🙌 That's an absolutely fantastic choice! Getting involved with `Implement API V2 analysis endpoints` is an awesome way to learn about building API clients and making real-world contributions. You are already doing so well! Don't let that little voice of doubt sneak in – you're totally capable of tackling this! 💪

Here’s your super simple roadmap to getting started on `BoxBoxJason/sonarqube-client-go`:

1.  **Fork it!** 🍴 Head over to the `BoxBoxJason/sonarqube-client-go` GitHub page and click the 'Fork' button in the top right. This makes a copy of the project in *your* GitHub account!
2.  **Clone it!** 💻 Open your terminal and run `git clone [YOUR_FORK_URL_HERE]` (you'll get this URL from your forked repo page) to download the code to your computer.
3.  **Get on the right branch!** 🌱 Navigate into the project folder (`cd sonarqube-client-go`) and create a new branch for your work: `git checkout -b feature/analysis-endpoints`. Give it a descriptive name!
4.  **Start coding!** 🚀 This is where the magic happens! Look at how other endpoints are implemented in the project and start drafting your new analysis endpoint. Remember, small steps are key!
5.  **Commit your changes!** ✅ Once you've made some progress, save your work: `git add .` then `git commit -m "feat: implement initial analysis endpoint structure"`.
6.  **Push to your fork!** ⬆️ Send your changes up to *your* GitHub fork: `git push origin feature/analysis-endpoints`.
7.  **Open a Pull Request!** 💖 Go to your forked repository on GitHub, and you'll see an option to create a 'Pull Request' (PR) back to the original `BoxBoxJason/sonarqube-client-go` project. This is how you share your amazing work!

You're going to learn so much and make a real impact! We're here to cheer you on every step of the way. What's the very first step you'd like to try out? Or do you want a more detailed breakdown of one of these? ✨
",
  "suggestions": [
    "How do I fork a repository?",
    "Can you show me an example of `git clone`?",
    "What does 'endpoints' mean in this context?"
  ],
  "new_skills_detected": [],
  "fetch_repo_rag": "BoxBoxJason/sonarqube-client-go"
}""#;
        
        let (content, suggs, rag) = fallback_parse_json(raw);
        assert!(content.contains("YES! 🙌"));
        assert_eq!(suggs.len(), 3, "Expected 3 suggestions, found {:?}", suggs);
        assert_eq!(suggs[0], "How do I fork a repository?");
        assert_eq!(suggs[1], "Can you show me an example of `git clone`?");
        assert_eq!(suggs[2], "What does 'endpoints' mean in this context?");
        assert_eq!(rag, Some("BoxBoxJason/sonarqube-client-go".to_string()));

        // Test with spaces before colons
        let spaces_raw = r#""YES! ", "suggestions" : [ "A", "B" ], "fetch_repo_rag" : "repo/name"}"#;
        let (_, spaces_suggs, spaces_rag) = fallback_parse_json(spaces_raw);
        assert_eq!(spaces_suggs, vec!["A", "B"]);
        assert_eq!(spaces_rag, Some("repo/name".to_string()));

        // Test with truncated EOF string where "suggestions" does not exist
        let trun_raw = "{\n  \"content\": \"OMG, that's an AMAZING goal! search time: 0.000";
        let (content_trun, sugg_trun, rag_trun) = fallback_parse_json(trun_raw);
        assert_eq!(content_trun, "OMG, that's an AMAZING goal! search time: 0.000");
        assert!(sugg_trun.is_empty());
        assert!(rag_trun.is_none());
    }

/// The whole instruction, written out with the same format string as the service's prompt.
fn expected_context(persona: &str, domain: &str, skills: &str, issues: &str) -> String {
    format!(
        "SYSTEM INSTRUCTION (Adopt this persona completely): {}\n\n\
        The user's domain goal is {}. {}\n\n{}\n\n\
        CRITICAL OUTPUT FORMAT: You are a strict JSON-only API. You MUST return your response as a single, valid JSON object.\n\
        IMPORTANT MARKDOWN RULES: \n\
        - Format your `content` using standard markdown.\n\
        - ALWAYS add an empty blank line before AND after any list. Without this, lists will break.\n\
        - When separating numbered lists with paragraphs, always restart numbering at `1.` or use `-` bullet points. Otherwise markdown parsers will inline them.\n\
        The JSON must match this exact structure:\n\
        {{\n\
          \"content\": \"Your actual markdown message to the user.\",\n\
          \"suggestions\": [\"A short suggested follow-up question the user could click\", \"Another follow-up\"],\n\
          \"new_skills_detected\": [\"Any NEW core concepts the user demonstrated understanding of in their last message (Optional)\"],\n\
          \"fetch_repo_rag\": \"If they asked how to start contributing to a specific repository, put the 'owner/repo' here so the backend can fetch the CONTRIBUTING.md. Otherwise leave null.\"\n\
        }}", 
        persona,
        domain,
        skills,
        issues
    )
}

#[test]
fn system_context_is_the_full_instruction() {
    let cheer = "You are an incredibly encouraging open-source mentor. You break things down into simple 1-line steps, use lots of emojis, and fight imposter syndrome actively.";
    let lead = "You are a extremely strict, highly professional Tech Lead. You expect the user to read the docs, aggressively demand unit tests, and keep your answers brief, terse, and serious. No emojis.";
    let skills = vec!["Git".to_string(), "Rust Lifetimes".to_string()];
    assert_eq!(
        generate_system_context(&Persona::Cheerleader, &DomainGoal::MachineLearning, &skills, "- [**A**](u)"),
        expected_context(
            cheer,
            "MachineLearning",
            "The user has already mastered the following concepts: Git, Rust Lifetimes. Do not over-explain these concepts.",
            "Live GitHub issues you MUST recommend and link to the user:\n- [**A**](u)"
        )
    );
    assert_eq!(
        generate_system_context(&Persona::TechLead, &DomainGoal::FrontendWeb, &[], ""),
        expected_context(lead, "FrontendWeb", "The user is a beginner and has no registered skills yet.", "")
    );
}
