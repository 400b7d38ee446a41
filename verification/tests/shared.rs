use std::str::FromStr;

use gitcoach::model::{DomainGoal, Message, Persona, Role};

#[test]
fn test_persona_serialization() {
    let persona = Persona::Cheerleader;
    let json = serde_json::to_string(persona.to_string().as_str()).unwrap();
    assert_eq!(json, "\"Cheerleader\"");
}

#[test]
fn test_domain_serialization() {
    let org = DomainGoal::BackendAPIs;
    let json = serde_json::to_string(org.to_string().as_str()).unwrap();
    assert_eq!(json, "\"BackendAPIs\"");
}

#[test]
fn test_persona_display() {
    assert_eq!(Persona::TechLead.to_string(), "TechLead");
}

#[test]
fn test_message_struct_creation() {
    let msg = Message {
        role: Role::User,
        content: "Test message from the frontend logic".to_string(),
    };

    assert_eq!(msg.content, "Test message from the frontend logic");
    assert_eq!(msg.role, Role::User);
}

#[test]
fn test_settings_parsing() {
    assert_eq!(Persona::from_str("TechLead").unwrap(), Persona::TechLead);
    assert_eq!(Persona::from_str("Cheerleader").unwrap(), Persona::Cheerleader);

    assert_eq!(DomainGoal::from_str("SystemProgramming").unwrap(), DomainGoal::SystemProgramming);
    assert_eq!(DomainGoal::from_str("FrontendWeb").unwrap(), DomainGoal::FrontendWeb);

    assert!(Persona::from_str("InvalidPersona").is_err());
    assert!(DomainGoal::from_str("InvalidDomain").is_err());
}

#[test]
fn names_parse_back_to_their_variant() {
    for p in [Persona::Cheerleader, Persona::TechLead] {
        assert_eq!(Persona::from_name(p.to_string().as_str()), Some(p));
    }
    for d in [
        DomainGoal::FrontendWeb,
        DomainGoal::BackendAPIs,
        DomainGoal::SystemProgramming,
        DomainGoal::MachineLearning,
    ] {
        assert_eq!(DomainGoal::from_name(d.to_string().as_str()), Some(d));
    }
    assert_eq!(DomainGoal::from_name("MachineLearning"), Some(DomainGoal::MachineLearning));
    assert_eq!(DomainGoal::from_name("machinelearning"), None);
    assert_eq!(Persona::from_name("TechLead "), None);
    assert_eq!(Persona::from_name(""), None);
}

#[test]
fn defaults_are_the_first_variants() {
    assert_eq!(Persona::default(), Persona::Cheerleader);
    assert_eq!(DomainGoal::default(), DomainGoal::FrontendWeb);
    let r = gitcoach::model::ChatResponse::default();
    assert!(r.content.is_empty());
    assert!(r.error.is_none());
    assert!(r.suggestions.is_empty());
    assert!(r.new_skills.is_none());
}
