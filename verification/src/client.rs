//! The chat client's state changes: sending a message, taking in the
//! mentor's answer, growing the skill tree, and how a message is shown.
use vstd::prelude::*;
use crate::errors::{is_error_message, is_error_text};
use crate::model::{ChatRequest, ChatResponse, DomainGoal, Message, MessageView, Persona, Role};
use crate::text::{Strip, chars_of, push_str, string_from, trim, trim_at, views};

verus! {

pub const UNREACHABLE_BACKEND: &'static str = "Error: Could not connect to the backend server.";

pub const ERROR_PREFIX: &'static str = "Error: ";

/// The messages as values.
pub open spec fn messages_view(ms: Seq<Message>) -> Seq<MessageView> {
    ms.map_values(|m: Message| m@)
}

/// Whether the input is sent: it is not blank and no answer is awaited.
pub open spec fn sendable(input: Seq<char>, is_loading: bool) -> bool {
    trim(input).len() > 0 && !is_loading
}

/// Whether the input is sent: it is not blank and no answer is awaited.
pub fn should_send(input: &str, is_loading: bool) -> (b: bool)
    ensures
        b == sendable(input@, is_loading),
{
    if is_loading {
        return false;
    }
    let v = chars_of(input);
    let (a, b) = trim_at(&v, 0, v.len(), Strip::Whitespace);
    assert(v@.subrange(0, v@.len() as int) =~= v@);
    a < b
}

/// A copy of a message.
fn copy_message(m: &Message) -> (r: Message)
    ensures
        r@ == m@,
{
    Message { role: m.role, content: m.content.clone() }
}

/// Sends the input: it joins the conversation as the user's message, and the
/// request carries the whole conversation with the user's settings.
pub fn send_message(
    messages: &mut Vec<Message>,
    input: String,
    persona: Persona,
    domain: DomainGoal,
    skills: &Vec<String>,
) -> (r: ChatRequest)
    ensures
        messages_view(final(messages)@) == messages_view(old(messages)@).push(
            MessageView { role: Role::User, content: input@ },
        ),
        messages_view(r.messages@) == messages_view(final(messages)@),
        r.persona == persona,
        r.domain == domain,
        views(r.skill_tree@) == views(skills@),
{
    let ghost before = messages@;
    messages.push(Message { role: Role::User, content: input });
    assert(messages_view(messages@) =~= messages_view(before).push(messages@.last()@));
    let mut copied: Vec<Message> = Vec::new();
    let n = messages.len();
    let mut i: usize = 0;
    while i < n
        invariant
            0 <= i <= n,
            n == messages.len(),
            messages_view(copied@) == messages_view(messages@).take(i as int),
        decreases n - i,
    {
        let ghost prev = copied@;
        copied.push(copy_message(&messages[i]));
        assert(messages_view(copied@) =~= messages_view(prev).push(messages@[i as int]@));
        assert(messages_view(messages@).take(i + 1) =~= messages_view(messages@).take(
            i as int,
        ).push(messages@[i as int]@));
        i += 1;
    }
    assert(messages_view(messages@).take(n as int) =~= messages_view(messages@));
    let mut skill_copy: Vec<String> = Vec::new();
    let m = skills.len();
    let mut j: usize = 0;
    while j < m
        invariant
            0 <= j <= m,
            m == skills.len(),
            views(skill_copy@) == views(skills@).take(j as int),
        decreases m - j,
    {
        let ghost prev = skill_copy@;
        skill_copy.push(skills[j].clone());
        assert(views(skill_copy@) =~= views(prev).push(skills@[j as int]@));
        assert(views(skills@).take(j + 1) =~= views(skills@).take(j as int).push(
            skills@[j as int]@,
        ));
        j += 1;
    }
    assert(views(skills@).take(m as int) =~= views(skills@));
    ChatRequest { messages: copied, persona, domain, skill_tree: skill_copy }
}

/// The skill tree after taking in `new` in order: each skill not yet in it is added at the end.
pub open spec fn merge_skills(tree: Seq<Seq<char>>, new: Seq<Seq<char>>) -> Seq<Seq<char>>
    decreases new.len(),
{
    if new.len() == 0 {
        tree
    } else {
        let grown = if tree.contains(new[0]) {
            tree
        } else {
            tree.push(new[0])
        };
        merge_skills(grown, new.drop_first())
    }
}

/// Whether `s` is in the skill tree.
fn has_skill(tree: &Vec<String>, s: &String) -> (b: bool)
    ensures
        b == views(tree@).contains(s@),
{
    let n = tree.len();
    let mut i: usize = 0;
    while i < n
        invariant
            0 <= i <= n,
            n == tree.len(),
            forall|k: int| 0 <= k < i ==> views(tree@)[k] != s@,
        decreases n - i,
    {
        if tree[i] == *s {
            assert(views(tree@)[i as int] == s@);
            return true;
        }
        i += 1;
    }
    false
}

/// Adds each detected skill that the tree does not hold yet, in order.
pub fn add_new_skills(tree: &mut Vec<String>, new: Vec<String>)
    ensures
        views(final(tree)@) == merge_skills(views(old(tree)@), views(new@)),
{
    let ghost want = merge_skills(views(old(tree)@), views(new@));
    let n = new.len();
    let mut i: usize = 0;
    assert(views(new@).skip(0) =~= views(new@));
    while i < n
        invariant
            0 <= i <= n,
            n == new.len(),
            want == merge_skills(views(tree@), views(new@).skip(i as int)),
        decreases n - i,
    {
        let ghost rest = views(new@).skip(i as int);
        assert(rest[0] == new@[i as int]@);
        assert(rest.drop_first() =~= views(new@).skip(i + 1));
        if !has_skill(tree, &new[i]) {
            let ghost before = tree@;
            tree.push(new[i].clone());
            assert(views(tree@) =~= views(before).push(new@[i as int]@));
        }
        i += 1;
    }
    assert(views(new@).skip(n as int) =~= Seq::<Seq<char>>::empty());
}

/// What came of sending a chat request.
#[derive(Debug, Clone)]
pub enum ReplyOutcome {
    /// The service could not be reached.
    Unreachable,
    /// The service answered with something that is not a chat response.
    Unreadable,
    /// The service's chat response.
    Received(ChatResponse),
}

/// The client's state after taking in a reply.
pub open spec fn after_reply(
    messages: Seq<MessageView>,
    tree: Seq<Seq<char>>,
    suggestions: Seq<Seq<char>>,
    outcome: ReplyOutcome,
) -> (Seq<MessageView>, Seq<Seq<char>>, Seq<Seq<char>>) {
    match outcome {
        ReplyOutcome::Unreachable => (
            messages.push(MessageView { role: Role::Assistant, content: UNREACHABLE_BACKEND@ }),
            tree,
            suggestions,
        ),
        ReplyOutcome::Unreadable => (messages, tree, suggestions),
        ReplyOutcome::Received(r) => match r@.error {
            Some(e) => (
                messages.push(MessageView { role: Role::Assistant, content: ERROR_PREFIX@ + e }),
                tree,
                suggestions,
            ),
            None => (
                messages.push(MessageView { role: Role::Assistant, content: r@.content }),
                match r@.new_skills {
                    Some(n) => merge_skills(tree, n),
                    None => tree,
                },
                r@.suggestions,
            ),
        },
    }
}

/// Takes in the reply to a chat request: an error is shown as a message, and
/// an answer is shown, grows the skill tree and replaces the suggestions.
pub fn apply_reply(
    messages: &mut Vec<Message>,
    tree: &mut Vec<String>,
    suggestions: &mut Vec<String>,
    outcome: ReplyOutcome,
)
    ensures
        (messages_view(final(messages)@), views(final(tree)@), views(final(suggestions)@))
            == after_reply(
            messages_view(old(messages)@),
            views(old(tree)@),
            views(old(suggestions)@),
            outcome,
        ),
{
    let ghost before = messages@;
    match outcome {
        ReplyOutcome::Unreachable => {
            messages.push(Message { role: Role::Assistant, content: UNREACHABLE_BACKEND.to_owned() });
            assert(messages_view(messages@) =~= messages_view(before).push(messages@.last()@));
        },
        ReplyOutcome::Unreadable => {},
        ReplyOutcome::Received(r) => {
            match r.error {
                Some(e) => {
                    let mut text: Vec<char> = Vec::new();
                    push_str(&mut text, ERROR_PREFIX);
                    push_str(&mut text, e.as_str());
                    messages.push(Message { role: Role::Assistant, content: string_from(&text) });
                    assert(messages_view(messages@) =~= messages_view(before).push(
                        messages@.last()@,
                    ));
                },
                None => {
                    match r.new_skills {
                        Some(n) => add_new_skills(tree, n),
                        None => {},
                    }
                    *suggestions = r.suggestions;
                    messages.push(Message { role: Role::Assistant, content: r.content });
                    assert(messages_view(messages@) =~= messages_view(before).push(
                        messages@.last()@,
                    ));
                },
            }
        },
    }
}

/// How a message is styled: the user's, an error notice, or the mentor's.
pub open spec fn message_class_of(role: Role, content: Seq<char>) -> Seq<char> {
    if role == Role::User {
        "message user"@
    } else if is_error_text(content) {
        "message assistant error"@
    } else {
        "message assistant"@
    }
}

/// How a message is styled: the user's, an error notice, or the mentor's.
pub fn message_class(role: Role, content: &str) -> (r: &'static str)
    ensures
        r@ == message_class_of(role, content@),
{
    if role == Role::User {
        "message user"
    } else if is_error_message(content) {
        "message assistant error"
    } else {
        "message assistant"
    }
}

/// How the row of a message is placed: the user's on one side, the mentor's on the other.
pub fn wrapper_class(role: Role) -> (r: &'static str)
    ensures
        r@ == (if role == Role::User {
            "message-wrapper user"@
        } else {
            "message-wrapper assistant"@
        }),
{
    if role == Role::User {
        "message-wrapper user"
    } else {
        "message-wrapper assistant"
    }
}

// ---------------------------------------------------------------------------
// Laws of the skill tree
// ---------------------------------------------------------------------------

/// Whether no skill occurs twice.
pub open spec fn distinct(s: Seq<Seq<char>>) -> bool {
    forall|i: int, j: int| 0 <= i < j < s.len() ==> s[i] != s[j]
}

/// Taking in skills keeps the tree as it was at its front, holds every old
/// and every new skill, and never makes a skill occur twice.
pub proof fn merging_skills_keeps_the_tree_a_set(tree: Seq<Seq<char>>, new: Seq<Seq<char>>)
    ensures
        merge_skills(tree, new).len() >= tree.len(),
        merge_skills(tree, new).take(tree.len() as int) == tree,
        forall|x: Seq<char>| tree.contains(x) ==> merge_skills(tree, new).contains(x),
        forall|i: int| 0 <= i < new.len() ==> merge_skills(tree, new).contains(#[trigger] new[i]),
        distinct(tree) ==> distinct(merge_skills(tree, new)),
    decreases new.len(),
{
    if new.len() > 0 {
        let grown = if tree.contains(new[0]) {
            tree
        } else {
            tree.push(new[0])
        };
        merging_skills_keeps_the_tree_a_set(grown, new.drop_first());
        let m = merge_skills(grown, new.drop_first());
        assert(m == merge_skills(tree, new));
        assert(grown.take(tree.len() as int) =~= tree);
        assert(m.take(tree.len() as int) =~= m.take(grown.len() as int).take(tree.len() as int));
        assert forall|x: Seq<char>| tree.contains(x) implies m.contains(x) by {
            let k = choose|k: int| 0 <= k < tree.len() && tree[k] == x;
            assert(grown[k] == x);
        }
        assert(grown.contains(new[0])) by {
            if !tree.contains(new[0]) {
                assert(grown[tree.len() as int] == new[0]);
            }
        }
        assert forall|i: int| 0 <= i < new.len() implies m.contains(#[trigger] new[i]) by {
            if i > 0 {
                assert(new.drop_first()[i - 1] == new[i]);
            }
        }
        if distinct(tree) && !tree.contains(new[0]) {
            assert forall|i: int, j: int| 0 <= i < j < grown.len() implies grown[i] != grown[j] by {
                if j == tree.len() {
                    assert(tree.contains(grown[i]));
                }
            }
        }
    }
}


/// A received answer always replaces the suggestion chips with its own,
/// whether or not it detected new skills and whatever chips were shown before;
/// an error leaves the chips as they were.
pub proof fn answers_replace_the_suggestions(
    m: Seq<MessageView>,
    t: Seq<Seq<char>>,
    s1: Seq<Seq<char>>,
    s2: Seq<Seq<char>>,
    r: ChatResponse,
)
    ensures
        r@.error is None ==> after_reply(m, t, s1, ReplyOutcome::Received(r)).2 == r@.suggestions,
        r@.error is None ==> after_reply(m, t, s1, ReplyOutcome::Received(r)).2 == after_reply(
            m,
            t,
            s2,
            ReplyOutcome::Received(r),
        ).2,
        r@.error is Some ==> after_reply(m, t, s1, ReplyOutcome::Received(r)).2 == s1,
{
}

} // verus!
