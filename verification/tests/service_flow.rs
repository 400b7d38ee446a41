use gitcoach::agent::{HistoryEntry, Speaker};
use gitcoach::context::{
    DocLookup, DocSource, IssueFetch, IssueItem, get_github_language_query, github_issues_url,
    next_doc_lookup, start_doc_lookup, summarize_github_issues,
};
use gitcoach::model::{ChatRequest, DomainGoal, Message, Persona, Role};
use gitcoach::service::{abandon_turn, mentions_issue_keywords, needs_recommendations, open_turn};

fn request(messages: Vec<Message>) -> ChatRequest {
    ChatRequest { messages, persona: Persona::TechLead, domain: DomainGoal::MachineLearning, skill_tree: vec![] }
}

#[test]
fn turn_opens_with_the_latest_user_message() {
    let mut history: Vec<HistoryEntry> = Vec::new();
    let r = open_turn(&request(vec![Message { role: Role::User, content: "Hello".to_string() }]), &mut history);
    // The first message of a conversation always looks up issues.
    assert_eq!(r.unwrap(), true);
    assert_eq!(history.len(), 1);
    assert_eq!(history[0].speaker, Speaker::User);
    assert_eq!(history[0].text, "Hello");

    let r = open_turn(&request(vec![Message { role: Role::User, content: "Thanks".to_string() }]), &mut history);
    assert_eq!(r.unwrap(), false);
    let r = open_turn(&request(vec![Message { role: Role::User, content: "Can you FIND me something?".to_string() }]), &mut history);
    assert_eq!(r.unwrap(), true);
    assert_eq!(history.len(), 3);
}

#[test]
fn assistant_last_is_refused() {
    let mut history: Vec<HistoryEntry> = Vec::new();
    let r = open_turn(
        &request(vec![
            Message { role: Role::User, content: "a".to_string() },
            Message { role: Role::Assistant, content: "b".to_string() },
        ]),
        &mut history,
    );
    assert_eq!(r.unwrap_err().error.unwrap(), "No user message provided");
    assert!(history.is_empty());
}

#[test]
fn keywords_and_lowercasing() {
    assert!(mentions_issue_keywords("please recommend"));
    assert!(mentions_issue_keywords("an issue"));
    assert!(!mentions_issue_keywords("RECOMMEND"));
    assert!(needs_recommendations(5, "RECOMMEND something"));
    assert!(needs_recommendations(5, "Any ISSUES?"));
    assert!(!needs_recommendations(5, "hello"));
    assert!(needs_recommendations(1, "hello"));
}

#[test]
fn timed_out_turn_drops_the_last_entry() {
    let mut history = vec![HistoryEntry::user("a".to_string()), HistoryEntry::user("b".to_string())];
    let r = abandon_turn(&mut history);
    assert_eq!(history.len(), 1);
    assert_eq!(history[0].text, "a");
    assert_eq!(r.error.unwrap(), "The request timed out. The AI took too long to respond. Please try again.");
    assert!(r.content.is_empty());
}

#[test]
fn issue_search_and_summary() {
    assert_eq!(get_github_language_query(&DomainGoal::FrontendWeb), "javascript");
    assert_eq!(get_github_language_query(&DomainGoal::BackendAPIs), "go");
    assert_eq!(get_github_language_query(&DomainGoal::SystemProgramming), "rust");
    assert_eq!(get_github_language_query(&DomainGoal::MachineLearning), "python");
    assert_eq!(
        github_issues_url(&DomainGoal::SystemProgramming),
        "https://api.github.com/search/issues?q=is:issue+is:open+label:\"good first issue\"+language:rust&per_page=3"
    );
    assert_eq!(summarize_github_issues(&DomainGoal::BackendAPIs, &IssueFetch::Failed), "Failed to fetch issues from GitHub.");
    assert_eq!(summarize_github_issues(&DomainGoal::BackendAPIs, &IssueFetch::NoItems), "No open issues found right now.");
    assert_eq!(summarize_github_issues(&DomainGoal::BackendAPIs, &IssueFetch::Items(vec![])), "No open issues found right now.");
    let item = |t: Option<&str>, u: Option<&str>| IssueItem {
        title: t.map(|s| s.to_string()),
        html_url: u.map(|s| s.to_string()),
    };
    let items = vec![
        item(Some("Fix typo"), Some("https://x/1")),
        item(None, Some("https://x/2")),
        item(Some("No link"), None),
        item(Some("Fourth"), Some("https://x/4")),
    ];
    assert_eq!(
        summarize_github_issues(&DomainGoal::BackendAPIs, &IssueFetch::Items(items)),
        "Here are some live open 'good first issues' for BackendAPIs (Language: go):\n- [**Fix typo**](https://x/1)\n- [**Unknown Title**](https://x/2)\n- [**No link**]()"
    );
}

#[test]
fn documentation_lookup() {
    match start_doc_lookup("a/b") {
        DocLookup::Fetch { source, url } => {
            assert_eq!(source, DocSource::Contributing);
            assert_eq!(url, "https://raw.githubusercontent.com/a/b/HEAD/CONTRIBUTING.md");
        }
        other => panic!("unexpected {:?}", other),
    }
    match next_doc_lookup("a/b", DocSource::Contributing, Some("Guide")) {
        DocLookup::Done(t) => assert_eq!(t, "CONTRIBUTING.md found:\nGuide"),
        other => panic!("unexpected {:?}", other),
    }
    match next_doc_lookup("a/b", DocSource::Readme, None) {
        DocLookup::Done(t) => assert_eq!(t, "Failed to fetch repository documentation."),
        other => panic!("unexpected {:?}", other),
    }
}
