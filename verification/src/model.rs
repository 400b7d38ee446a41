//! The data exchanged between the chat client and the mentor service.
use vstd::prelude::*;
use crate::text::{chars_of, equals_str, views};

verus! {

/// Who wrote a chat message.
#[derive(Debug, Clone, Copy, PartialEq, Eq, Structural)]
pub enum Role {
    User,
    Assistant,
}

/// One chat message.
#[derive(Debug, Clone)]
pub struct Message {
    pub role: Role,
    pub content: String,
}

/// A chat message as values.
pub struct MessageView {
    pub role: Role,
    pub content: Seq<char>,
}

impl View for Message {
    type V = MessageView;

    open spec fn view(&self) -> MessageView {
        MessageView { role: self.role, content: self.content@ }
    }
}

/// The mentor's tone of voice.
#[derive(Debug, Clone, Copy, PartialEq, Eq, Structural)]
pub enum Persona {
    Cheerleader,
    TechLead,
}

/// The area the user wants to contribute to.
#[derive(Debug, Clone, Copy, PartialEq, Eq, Structural)]
pub enum DomainGoal {
    FrontendWeb,
    BackendAPIs,
    SystemProgramming,
    MachineLearning,
}

/// The error of parsing a name that names no variant.
#[derive(Debug, Clone, Copy, PartialEq, Eq, Structural)]
pub struct UnknownName;

impl Persona {
    /// The variant's name, as it is displayed and parsed.
    pub open spec fn name(self) -> Seq<char> {
        match self {
            Persona::Cheerleader => "Cheerleader"@,
            Persona::TechLead => "TechLead"@,
        }
    }

    /// The variant that `s` names exactly, if any.
    pub open spec fn named(s: Seq<char>) -> Option<Persona> {
        if s == "Cheerleader"@ {
            Some(Persona::Cheerleader)
        } else if s == "TechLead"@ {
            Some(Persona::TechLead)
        } else {
            None
        }
    }

    /// The variant's name.
    pub fn to_string(&self) -> (s: String)
        ensures
            s@ == self.name(),
    {
        match self {
            Persona::Cheerleader => "Cheerleader".to_owned(),
            Persona::TechLead => "TechLead".to_owned(),
        }
    }

    /// The variant that `s` names exactly, if any.
    pub fn from_name(s: &str) -> (r: Option<Persona>)
        ensures
            r == Persona::named(s@),
    {
        let v = chars_of(s);
        if equals_str(&v, "Cheerleader") {
            Some(Persona::Cheerleader)
        } else if equals_str(&v, "TechLead") {
            Some(Persona::TechLead)
        } else {
            None
        }
    }
}

impl DomainGoal {
    /// The variant's name, as it is displayed and parsed.
    pub open spec fn name(self) -> Seq<char> {
        match self {
            DomainGoal::FrontendWeb => "FrontendWeb"@,
            DomainGoal::BackendAPIs => "BackendAPIs"@,
            DomainGoal::SystemProgramming => "SystemProgramming"@,
            DomainGoal::MachineLearning => "MachineLearning"@,
        }
    }

    /// The variant that `s` names exactly, if any.
    pub open spec fn named(s: Seq<char>) -> Option<DomainGoal> {
        if s == "FrontendWeb"@ {
            Some(DomainGoal::FrontendWeb)
        } else if s == "BackendAPIs"@ {
            Some(DomainGoal::BackendAPIs)
        } else if s == "SystemProgramming"@ {
            Some(DomainGoal::SystemProgramming)
        } else if s == "MachineLearning"@ {
            Some(DomainGoal::MachineLearning)
        } else {
            None
        }
    }

    /// The variant's name.
    pub fn to_string(&self) -> (s: String)
        ensures
            s@ == self.name(),
    {
        match self {
            DomainGoal::FrontendWeb => "FrontendWeb".to_owned(),
            DomainGoal::BackendAPIs => "BackendAPIs".to_owned(),
            DomainGoal::SystemProgramming => "SystemProgramming".to_owned(),
            DomainGoal::MachineLearning => "MachineLearning".to_owned(),
        }
    }

    /// The variant that `s` names exactly, if any.
    pub fn from_name(s: &str) -> (r: Option<DomainGoal>)
        ensures
            r == DomainGoal::named(s@),
    {
        let v = chars_of(s);
        if equals_str(&v, "FrontendWeb") {
            Some(DomainGoal::FrontendWeb)
        } else if equals_str(&v, "BackendAPIs") {
            Some(DomainGoal::BackendAPIs)
        } else if equals_str(&v, "SystemProgramming") {
            Some(DomainGoal::SystemProgramming)
        } else if equals_str(&v, "MachineLearning") {
            Some(DomainGoal::MachineLearning)
        } else {
            None
        }
    }
}

impl Default for Persona {
    fn default() -> (p: Persona)
        ensures
            p == Persona::Cheerleader,
    {
        Persona::Cheerleader
    }
}

impl Default for DomainGoal {
    fn default() -> (d: DomainGoal)
        ensures
            d == DomainGoal::FrontendWeb,
    {
        DomainGoal::FrontendWeb
    }
}

impl std::str::FromStr for Persona {
    type Err = UnknownName;

    fn from_str(s: &str) -> (r: Result<Persona, UnknownName>)
        ensures
            r == match Persona::named(s@) {
                Some(p) => Ok(p),
                None => Err(UnknownName),
            },
    {
        match Persona::from_name(s) {
            Some(p) => Ok(p),
            None => Err(UnknownName),
        }
    }
}

impl std::str::FromStr for DomainGoal {
    type Err = UnknownName;

    fn from_str(s: &str) -> (r: Result<DomainGoal, UnknownName>)
        ensures
            r == match DomainGoal::named(s@) {
                Some(d) => Ok(d),
                None => Err(UnknownName),
            },
    {
        match DomainGoal::from_name(s) {
            Some(d) => Ok(d),
            None => Err(UnknownName),
        }
    }
}

/// Parsing a persona's name gives that persona back, and only its name parses to it.
pub proof fn persona_name_round_trip(p: Persona, s: Seq<char>)
    ensures
        Persona::named(p.name()) == Some(p),
        Persona::named(s) == Some(p) ==> s == p.name(),
{
    reveal_strlit("Cheerleader");
    reveal_strlit("TechLead");
    assert("Cheerleader"@.len() != "TechLead"@.len());
}

/// Parsing a domain's name gives that domain back, and only its name parses to it.
pub proof fn domain_name_round_trip(d: DomainGoal, s: Seq<char>)
    ensures
        DomainGoal::named(d.name()) == Some(d),
        DomainGoal::named(s) == Some(d) ==> s == d.name(),
{
    reveal_strlit("FrontendWeb");
    reveal_strlit("BackendAPIs");
    reveal_strlit("SystemProgramming");
    reveal_strlit("MachineLearning");
    assert("FrontendWeb"@[0] != "BackendAPIs"@[0]);
    assert("FrontendWeb"@ != "BackendAPIs"@);
    assert("FrontendWeb"@.len() != "SystemProgramming"@.len());
    assert("FrontendWeb"@.len() != "MachineLearning"@.len());
    assert("BackendAPIs"@.len() != "SystemProgramming"@.len());
    assert("BackendAPIs"@.len() != "MachineLearning"@.len());
    assert("SystemProgramming"@.len() != "MachineLearning"@.len());
}

/// A chat turn sent by the client: the conversation so far and the user's settings.
#[derive(Debug, Clone)]
pub struct ChatRequest {
    pub messages: Vec<Message>,
    pub persona: Persona,
    pub domain: DomainGoal,
    pub skill_tree: Vec<String>,
}

/// The mentor's answer to a chat turn.
#[derive(Debug, Clone)]
pub struct ChatResponse {
    pub content: String,
    pub error: Option<String>,
    pub suggestions: Vec<String>,
    pub new_skills: Option<Vec<String>>,
}

/// A chat response as values.
pub struct ReplyView {
    pub content: Seq<char>,
    pub error: Option<Seq<char>>,
    pub suggestions: Seq<Seq<char>>,
    pub new_skills: Option<Seq<Seq<char>>>,
}

/// The view of an optional string.
pub open spec fn opt_view(o: Option<String>) -> Option<Seq<char>> {
    match o {
        Some(s) => Some(s@),
        None => None,
    }
}

/// The views of an optional list of strings.
pub open spec fn opt_views(o: Option<Vec<String>>) -> Option<Seq<Seq<char>>> {
    match o {
        Some(v) => Some(views(v@)),
        None => None,
    }
}

impl View for ChatResponse {
    type V = ReplyView;

    open spec fn view(&self) -> ReplyView {
        ReplyView {
            content: self.content@,
            error: opt_view(self.error),
            suggestions: views(self.suggestions@),
            new_skills: opt_views(self.new_skills),
        }
    }
}

/// The response that reports `message` as an error and carries nothing else.
pub open spec fn failure_view(message: Seq<char>) -> ReplyView {
    ReplyView {
        content: Seq::empty(),
        error: Some(message),
        suggestions: Seq::empty(),
        new_skills: None,
    }
}

/// A response is well formed when an error comes with no content, suggestions or skills.
pub open spec fn reply_well_formed(r: ReplyView) -> bool {
    r.error is Some ==> (r.content.len() == 0 && r.suggestions.len() == 0 && r.new_skills is None)
}

impl ChatResponse {
    /// A response that reports `message` as an error.
    pub fn failure(message: String) -> (r: ChatResponse)
        ensures
            r@ == failure_view(message@),
    {
        let r = ChatResponse {
            content: String::new(),
            error: Some(message),
            suggestions: Vec::new(),
            new_skills: None,
        };
        assert(views(r.suggestions@) =~= Seq::<Seq<char>>::empty());
        r
    }
}

impl Default for ChatResponse {
    fn default() -> (r: ChatResponse)
        ensures
            r@.content.len() == 0,
            r@.error is None,
            r@.suggestions.len() == 0,
            r@.new_skills is None,
    {
        ChatResponse { content: String::new(), error: None, suggestions: Vec::new(), new_skills: None }
    }
}

} // verus!
