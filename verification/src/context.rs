//! The instructions handed to the language model, and the GitHub material
//! that goes into them: open issues for the user's domain and a repository's
//! contribution guide.
use vstd::prelude::*;
use crate::model::{DomainGoal, Persona, opt_view};
use crate::text::{
    chars_of, contains, join, lemma_contains_middle, push_all, push_joined, push_str, string_from,
    take_chars, views,
};

verus! {

// ---------------------------------------------------------------------------
// The system instruction
// ---------------------------------------------------------------------------

pub const CONTEXT_OPENING: &'static str = "SYSTEM INSTRUCTION (Adopt this persona completely): ";

pub const CONTEXT_DOMAIN: &'static str = "\n\nThe user's domain goal is ";

pub const CHEERLEADER_INSTRUCTION: &'static str = "You are an incredibly encouraging open-source mentor. You break things down into simple 1-line steps, use lots of emojis, and fight imposter syndrome actively.";

pub const TECH_LEAD_INSTRUCTION: &'static str = "You are a extremely strict, highly professional Tech Lead. You expect the user to read the docs, aggressively demand unit tests, and keep your answers brief, terse, and serious. No emojis.";

pub const BEGINNER_SKILLS: &'static str = "The user is a beginner and has no registered skills yet.";

pub const MASTERED_OPENING: &'static str = "The user has already mastered the following concepts: ";

pub const MASTERED_CLOSING: &'static str = ". Do not over-explain these concepts.";

pub const ISSUES_OPENING: &'static str = "Live GitHub issues you MUST recommend and link to the user:\n";

pub const OUTPUT_RULES: &'static str = "\n\nCRITICAL OUTPUT FORMAT: You are a strict JSON-only API. You MUST return your response as a single, valid JSON object.\n\
    IMPORTANT MARKDOWN RULES: \n\
    - Format your `content` using standard markdown.\n\
    - ALWAYS add an empty blank line before AND after any list. Without this, lists will break.\n\
    - When separating numbered lists with paragraphs, always restart numbering at `1.` or use `-` bullet points. Otherwise markdown parsers will inline them.\n\
    The JSON must match this exact structure:\n\
    {\n\
    \"content\": \"Your actual markdown message to the user.\",\n\
    \"suggestions\": [\"A short suggested follow-up question the user could click\", \"Another follow-up\"],\n\
    \"new_skills_detected\": [\"Any NEW core concepts the user demonstrated understanding of in their last message (Optional)\"],\n\
    \"fetch_repo_rag\": \"If they asked how to start contributing to a specific repository, put the 'owner/repo' here so the backend can fetch the CONTRIBUTING.md. Otherwise leave null.\"\n\
    }";

/// How the persona is described to the model.
pub open spec fn persona_instruction(p: Persona) -> Seq<char> {
    match p {
        Persona::Cheerleader => CHEERLEADER_INSTRUCTION@,
        Persona::TechLead => TECH_LEAD_INSTRUCTION@,
    }
}

/// What the model is told of the user's skills.
pub open spec fn skills_sentence(skills: Seq<Seq<char>>) -> Seq<char> {
    if skills.len() == 0 {
        BEGINNER_SKILLS@
    } else {
        MASTERED_OPENING@ + join(skills, ", "@) + MASTERED_CLOSING@
    }
}

/// The paragraph of live issues, empty when there are none.
pub open spec fn issues_section(issues: Seq<char>) -> Seq<char> {
    if issues.len() == 0 {
        Seq::empty()
    } else {
        ISSUES_OPENING@ + issues
    }
}

/// The whole system instruction.
pub open spec fn system_context(
    p: Persona,
    d: DomainGoal,
    skills: Seq<Seq<char>>,
    issues: Seq<char>,
) -> Seq<char> {
    CONTEXT_OPENING@ + persona_instruction(p) + CONTEXT_DOMAIN@ + d.name() + ". "@
        + skills_sentence(skills) + "\n\n"@ + issues_section(issues) + OUTPUT_RULES@
}

/// Builds the instruction that sets the model's persona, the user's goal and
/// skills, the live issues to recommend, and the JSON shape of every answer.
pub fn generate_system_context(
    persona: &Persona,
    domain: &DomainGoal,
    skill_tree: &[String],
    issues_context: &str,
) -> (r: String)
    ensures
        r@ == system_context(*persona, *domain, views(skill_tree@), issues_context@),
{
    let mut out: Vec<char> = Vec::new();
    push_str(&mut out, CONTEXT_OPENING);
    match persona {
        Persona::Cheerleader => push_str(&mut out, CHEERLEADER_INSTRUCTION),
        Persona::TechLead => push_str(&mut out, TECH_LEAD_INSTRUCTION),
    }
    push_str(&mut out, CONTEXT_DOMAIN);
    let name = domain.to_string();
    push_str(&mut out, name.as_str());
    push_str(&mut out, ". ");
    if skill_tree.len() == 0 {
        push_str(&mut out, BEGINNER_SKILLS);
    } else {
        push_str(&mut out, MASTERED_OPENING);
        push_joined(&mut out, skill_tree, ", ");
        push_str(&mut out, MASTERED_CLOSING);
    }
    push_str(&mut out, "\n\n");
    let issues = chars_of(issues_context);
    if issues.len() > 0 {
        push_str(&mut out, ISSUES_OPENING);
        push_all(&mut out, &issues);
    }
    push_str(&mut out, OUTPUT_RULES);
    let r = string_from(&out);
    assert(r@ =~= system_context(*persona, *domain, views(skill_tree@), issues_context@));
    r
}

// ---------------------------------------------------------------------------
// Open issues for a domain
// ---------------------------------------------------------------------------

/// The GitHub search language for a domain.
pub open spec fn language_query(d: DomainGoal) -> Seq<char> {
    match d {
        DomainGoal::FrontendWeb => "javascript"@,
        DomainGoal::BackendAPIs => "go"@,
        DomainGoal::SystemProgramming => "rust"@,
        DomainGoal::MachineLearning => "python"@,
    }
}

/// The GitHub search language for a domain.
pub fn get_github_language_query(domain: &DomainGoal) -> (r: &'static str)
    ensures
        r@ == language_query(*domain),
{
    match domain {
        DomainGoal::FrontendWeb => "javascript",
        DomainGoal::BackendAPIs => "go",
        DomainGoal::SystemProgramming => "rust",
        DomainGoal::MachineLearning => "python",
    }
}

pub const ISSUES_SEARCH_URL: &'static str = "https://api.github.com/search/issues?q=is:issue+is:open+label:\"good first issue\"+language:";

pub const ISSUES_SEARCH_LIMIT: &'static str = "&per_page=3";

/// The search for open "good first issue" issues in the domain's language.
pub open spec fn issues_url(d: DomainGoal) -> Seq<char> {
    ISSUES_SEARCH_URL@ + language_query(d) + ISSUES_SEARCH_LIMIT@
}

/// The search for open "good first issue" issues in the domain's language.
pub fn github_issues_url(domain: &DomainGoal) -> (r: String)
    ensures
        r@ == issues_url(*domain),
{
    let mut out: Vec<char> = Vec::new();
    push_str(&mut out, ISSUES_SEARCH_URL);
    push_str(&mut out, get_github_language_query(domain));
    push_str(&mut out, ISSUES_SEARCH_LIMIT);
    string_from(&out)
}

/// One issue of a search result: its title and page, where present as text.
#[derive(Debug, Clone)]
pub struct IssueItem {
    pub title: Option<String>,
    pub html_url: Option<String>,
}

/// What came of the issue search.
#[derive(Debug, Clone)]
pub enum IssueFetch {
    /// The request failed or was answered with an error status.
    Failed,
    /// The answer held no list of items.
    NoItems,
    /// The items of the answer, in order.
    Items(Vec<IssueItem>),
}

/// The client name sent with the issue search.
pub const ISSUES_USER_AGENT: &'static str = "GitCoach-AI-Mentor-v1.0";

/// The client name sent with the README request.
pub const README_USER_AGENT: &'static str = "GitCoach";

/// The media type asked for the README: its raw text.
pub const README_ACCEPT: &'static str = "application/vnd.github.v3.raw";

pub const ISSUES_FAILED: &'static str = "Failed to fetch issues from GitHub.";

pub const NO_ISSUES: &'static str = "No open issues found right now.";

pub const UNKNOWN_TITLE: &'static str = "Unknown Title";

/// The markdown line for one issue.
pub open spec fn issue_line(item: IssueItem) -> Seq<char> {
    let title = match opt_view(item.title) {
        Some(t) => t,
        None => UNKNOWN_TITLE@,
    };
    let url = match opt_view(item.html_url) {
        Some(u) => u,
        None => Seq::empty(),
    };
    "- [**"@ + title + "**]("@ + url + ")"@
}

/// The lines for at most the first three issues.
pub open spec fn issue_lines(items: Seq<IssueItem>) -> Seq<Seq<char>> {
    let shown = if items.len() <= 3 {
        items
    } else {
        items.take(3)
    };
    shown.map_values(|i: IssueItem| issue_line(i))
}

/// The heading of the issue list for a domain.
pub open spec fn issues_heading(d: DomainGoal) -> Seq<char> {
    "Here are some live open 'good first issues' for "@ + d.name() + " (Language: "@
        + language_query(d) + "):\n"@
}

/// What the model is told of the issue search.
pub open spec fn issues_summary(d: DomainGoal, fetched: IssueFetch) -> Seq<char> {
    match fetched {
        IssueFetch::Failed => ISSUES_FAILED@,
        IssueFetch::NoItems => NO_ISSUES@,
        IssueFetch::Items(v) => if v@.len() == 0 {
            NO_ISSUES@
        } else {
            issues_heading(d) + join(issue_lines(v@), "\n"@)
        },
    }
}

/// The markdown line for one issue.
fn issue_line_text(item: &IssueItem) -> (r: String)
    ensures
        r@ == issue_line(*item),
{
    let mut out: Vec<char> = Vec::new();
    push_str(&mut out, "- [**");
    match &item.title {
        Some(t) => push_str(&mut out, t.as_str()),
        None => push_str(&mut out, UNKNOWN_TITLE),
    }
    push_str(&mut out, "**](");
    match &item.html_url {
        Some(u) => push_str(&mut out, u.as_str()),
        None => {},
    }
    push_str(&mut out, ")");
    let r = string_from(&out);
    assert(r@ =~= issue_line(*item));
    r
}

/// Tells the model which open issues to recommend, or why there are none.
pub fn summarize_github_issues(domain: &DomainGoal, fetched: &IssueFetch) -> (r: String)
    ensures
        r@ == issues_summary(*domain, *fetched),
{
    match fetched {
        IssueFetch::Failed => ISSUES_FAILED.to_owned(),
        IssueFetch::NoItems => NO_ISSUES.to_owned(),
        IssueFetch::Items(items) => {
            if items.len() == 0 {
                return NO_ISSUES.to_owned();
            }
            let n = if items.len() <= 3 {
                items.len()
            } else {
                3
            };
            let ghost want = issue_lines(items@);
            let mut lines: Vec<String> = Vec::new();
            let mut i: usize = 0;
            while i < n
                invariant
                    0 <= i <= n,
                    n <= items.len(),
                    n == want.len(),
                    want == issue_lines(items@),
                    views(lines@) == want.take(i as int),
                decreases n - i,
            {
                let line = issue_line_text(&items[i]);
                assert(want[i as int] == issue_line(items@[i as int]));
                let ghost before = lines@;
                assert(views(before).len() == before.len());
                assert(want.take(i as int).len() == i);
                lines.push(line);
                assert(lines@ == before.push(line));
                assert(views(lines@).len() == i + 1);
                assert forall|k: int| 0 <= k < i + 1 implies views(lines@)[k] == want.take(i + 1)[k] by {
                    if k < i {
                        assert(views(before)[k] == want.take(i as int)[k]);
                    }
                }
                assert(views(lines@) =~= want.take(i + 1));
                i += 1;
            }
            assert(want.take(n as int) =~= want);
            let mut out: Vec<char> = Vec::new();
            push_str(&mut out, "Here are some live open 'good first issues' for ");
            let name = domain.to_string();
            push_str(&mut out, name.as_str());
            push_str(&mut out, " (Language: ");
            push_str(&mut out, get_github_language_query(domain));
            push_str(&mut out, "):\n");
            push_joined(&mut out, lines.as_slice(), "\n");
            let r = string_from(&out);
            assert(r@ =~= issues_summary(*domain, *fetched));
            r
        },
    }
}

// ---------------------------------------------------------------------------
// A repository's contribution guide
// ---------------------------------------------------------------------------

/// Where a repository's documentation is looked for.
#[derive(Debug, Clone, Copy, PartialEq, Eq, Structural)]
pub enum DocSource {
    /// The raw `CONTRIBUTING.md` of the default branch.
    Contributing,
    /// The README, through the GitHub API, as raw text.
    Readme,
}

/// The next step of looking up a repository's documentation.
#[derive(Debug, Clone)]
pub enum DocLookup {
    /// Fetch `url` from `source` and report the text, if any.
    Fetch { source: DocSource, url: String },
    /// The lookup is over: what the model is told.
    Done(String),
}

/// The next step as values.
pub enum DocLookupView {
    Fetch { source: DocSource, url: Seq<char> },
    Done(Seq<char>),
}

impl View for DocLookup {
    type V = DocLookupView;

    open spec fn view(&self) -> DocLookupView {
        match self {
            DocLookup::Fetch { source, url } => DocLookupView::Fetch { source: *source, url: url@ },
            DocLookup::Done(t) => DocLookupView::Done(t@),
        }
    }
}

/// The most characters of a document that are handed on.
pub const DOC_CHAR_LIMIT: usize = 3000;

pub const CONTRIBUTING_FOUND: &'static str = "CONTRIBUTING.md found:\n";

pub const README_FOUND: &'static str = "No contributing.md found. README found:\n";

pub const DOCS_FAILED: &'static str = "Failed to fetch repository documentation.";

/// Where a repository's document is fetched from.
pub open spec fn doc_url(source: DocSource, repo: Seq<char>) -> Seq<char> {
    match source {
        DocSource::Contributing => "https://raw.githubusercontent.com/"@ + repo
            + "/HEAD/CONTRIBUTING.md"@,
        DocSource::Readme => "https://api.github.com/repos/"@ + repo + "/readme"@,
    }
}

/// The first step of a lookup: the contribution guide.
pub open spec fn doc_lookup_start(repo: Seq<char>) -> DocLookupView {
    DocLookupView::Fetch {
        source: DocSource::Contributing,
        url: doc_url(DocSource::Contributing, repo),
    }
}

/// The step after fetching from `source` gave `text` (`None` on failure).
pub open spec fn doc_lookup_next(
    repo: Seq<char>,
    source: DocSource,
    text: Option<Seq<char>>,
) -> DocLookupView {
    match (source, text) {
        (DocSource::Contributing, Some(t)) => DocLookupView::Done(
            CONTRIBUTING_FOUND@ + take_chars(t, DOC_CHAR_LIMIT as nat),
        ),
        (DocSource::Contributing, None) => DocLookupView::Fetch {
            source: DocSource::Readme,
            url: doc_url(DocSource::Readme, repo),
        },
        (DocSource::Readme, Some(t)) => DocLookupView::Done(
            README_FOUND@ + take_chars(t, DOC_CHAR_LIMIT as nat),
        ),
        (DocSource::Readme, None) => DocLookupView::Done(DOCS_FAILED@),
    }
}

/// Where a repository's document is fetched from.
pub fn repo_doc_url(source: DocSource, repo: &str) -> (r: String)
    ensures
        r@ == doc_url(source, repo@),
{
    let mut out: Vec<char> = Vec::new();
    match source {
        DocSource::Contributing => {
            push_str(&mut out, "https://raw.githubusercontent.com/");
            push_str(&mut out, repo);
            push_str(&mut out, "/HEAD/CONTRIBUTING.md");
        },
        DocSource::Readme => {
            push_str(&mut out, "https://api.github.com/repos/");
            push_str(&mut out, repo);
            push_str(&mut out, "/readme");
        },
    }
    string_from(&out)
}

/// Starts looking up a repository's documentation.
pub fn start_doc_lookup(repo: &str) -> (r: DocLookup)
    ensures
        r@ == doc_lookup_start(repo@),
{
    DocLookup::Fetch {
        source: DocSource::Contributing,
        url: repo_doc_url(DocSource::Contributing, repo),
    }
}

/// `heading` followed by at most the first `DOC_CHAR_LIMIT` characters of `text`.
fn capped_doc(heading: &str, text: &str) -> (r: String)
    ensures
        r@ == heading@ + take_chars(text@, DOC_CHAR_LIMIT as nat),
{
    let t = chars_of(text);
    let n = if t.len() <= DOC_CHAR_LIMIT {
        t.len()
    } else {
        DOC_CHAR_LIMIT
    };
    let mut out: Vec<char> = Vec::new();
    push_str(&mut out, heading);
    crate::text::push_range(&mut out, &t, 0, n);
    assert(t@.subrange(0, n as int) =~= take_chars(t@, DOC_CHAR_LIMIT as nat));
    string_from(&out)
}

/// The step after fetching from `source` gave `text` (`None` when the
/// request failed, was answered with an error status, or had no text).
pub fn next_doc_lookup(repo: &str, source: DocSource, text: Option<&str>) -> (r: DocLookup)
    ensures
        r@ == doc_lookup_next(
            repo@,
            source,
            match text {
                Some(t) => Some(t@),
                None => None,
            },
        ),
{
    match (source, text) {
        (DocSource::Contributing, Some(t)) => DocLookup::Done(capped_doc(CONTRIBUTING_FOUND, t)),
        (DocSource::Contributing, None) => DocLookup::Fetch {
            source: DocSource::Readme,
            url: repo_doc_url(DocSource::Readme, repo),
        },
        (DocSource::Readme, Some(t)) => DocLookup::Done(capped_doc(README_FOUND, t)),
        (DocSource::Readme, None) => DocLookup::Done(DOCS_FAILED.to_owned()),
    }
}


/// Live issues always reach the model: whenever there are any, the
/// instruction holds the issues paragraph with them, whatever the persona,
/// the domain and the skill tree (the empty one included).
pub proof fn issues_are_always_shown(p: Persona, d: DomainGoal, skills: Seq<Seq<char>>, issues: Seq<char>)
    requires
        issues.len() > 0,
    ensures
        contains(system_context(p, d, skills, issues), ISSUES_OPENING@ + issues),
{
    let before = CONTEXT_OPENING@ + persona_instruction(p) + CONTEXT_DOMAIN@ + d.name() + ". "@
        + skills_sentence(skills) + "\n\n"@;
    assert(system_context(p, d, skills, issues) =~= before + (ISSUES_OPENING@ + issues) + OUTPUT_RULES@);
    lemma_contains_middle(before, ISSUES_OPENING@ + issues, OUTPUT_RULES@);
}

} // verus!
