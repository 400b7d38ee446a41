//! The mentor service's decisions around one chat turn: which message is
//! answered, whether live issues are looked up, and what a timed-out turn
//! leaves behind.
use vstd::prelude::*;
use crate::agent::{HistoryEntry, Speaker, history_view};
use crate::model::{ChatRequest, ChatResponse, Message, Role, failure_view};
use crate::text::{chars_of, contains, contains_str};

verus! {

/// How long a chat turn may take, in seconds.
pub const TURN_TIMEOUT_SECS: u64 = 300;

pub const NO_USER_MESSAGE: &'static str = "No user message provided";

pub const TIMED_OUT: &'static str = "The request timed out. The AI took too long to respond. Please try again.";

/// The text of the last message, when the user wrote it.
pub open spec fn latest_user_text(ms: Seq<Message>) -> Option<Seq<char>> {
    if ms.len() > 0 && ms.last().role == Role::User {
        Some(ms.last().content@)
    } else {
        None
    }
}

/// The lower-case form of `s` that `str::to_lowercase` gives.
pub uninterp spec fn lowercase(s: Seq<char>) -> Seq<char>;

/// `str::to_lowercase`: the Unicode lower-case mapping of each character.
/// Claimed: the result is a function of `s` alone, named `lowercase`.
#[verifier::external_body]
fn to_lowercase(s: &str) -> (r: String)
    ensures
        r@ == lowercase(s@),
{
    s.to_lowercase()
}

/// Whether a lower-cased message asks for something to work on.
pub open spec fn asks_for_issues(lowered: Seq<char>) -> bool {
    contains(lowered, "recommend"@) || contains(lowered, "issue"@) || contains(lowered, "find"@)
}

/// Whether a lower-cased message asks for something to work on.
pub fn mentions_issue_keywords(lowered: &str) -> (b: bool)
    ensures
        b == asks_for_issues(lowered@),
{
    let v = chars_of(lowered);
    contains_str(&v, "recommend") || contains_str(&v, "issue") || contains_str(&v, "find")
}

/// Whether live issues are looked up: on the first message of the
/// conversation, or when the message asks for something to work on.
pub open spec fn wants_issues(history_len: nat, message: Seq<char>) -> bool {
    history_len == 1 || asks_for_issues(lowercase(message))
}

/// Whether live issues are looked up for `message`, the conversation holding
/// `history_len` entries with it.
pub fn needs_recommendations(history_len: usize, message: &str) -> (b: bool)
    ensures
        b == wants_issues(history_len as nat, message@),
{
    if history_len == 1 {
        return true;
    }
    let lowered = to_lowercase(message);
    mentions_issue_keywords(lowered.as_str())
}

/// Opens a chat turn: the user's latest message joins the conversation, and
/// the result says whether live issues are looked up. A request whose last
/// message is not the user's is answered at once with an error.
pub fn open_turn(request: &ChatRequest, history: &mut Vec<HistoryEntry>) -> (r: Result<bool, ChatResponse>)
    ensures
        match latest_user_text(request.messages@) {
            None => {
                &&& r matches Err(resp) && resp@ == failure_view(NO_USER_MESSAGE@)
                &&& final(history)@ == old(history)@
            },
            Some(t) => {
                &&& history_view(final(history)@) == history_view(old(history)@).push((Speaker::User, t))
                &&& r matches Ok(b) && b == wants_issues(final(history)@.len(), t)
            },
        },
{
    let n = request.messages.len();
    if n == 0 || request.messages[n - 1].role != Role::User {
        return Err(ChatResponse::failure(NO_USER_MESSAGE.to_owned()));
    }
    let text = request.messages[n - 1].content.clone();
    let ghost before = history@;
    history.push(HistoryEntry::user(text.clone()));
    assert(history_view(history@) =~= history_view(before).push((Speaker::User, text@)));
    Ok(needs_recommendations(history.len(), text.as_str()))
}

/// Closes a turn that took too long: the unanswered last entry leaves the
/// conversation, and the user is told to try again.
pub fn abandon_turn(history: &mut Vec<HistoryEntry>) -> (r: ChatResponse)
    ensures
        final(history)@ == if old(history)@.len() > 0 {
            old(history)@.drop_last()
        } else {
            old(history)@
        },
        r@ == failure_view(TIMED_OUT@),
{
    let _ = history.pop();
    ChatResponse::failure(TIMED_OUT.to_owned())
}


/// The message answered is the one the user sent last: appending a user
/// message to any conversation makes it the answered one, whatever came
/// before, and a conversation that ends with the mentor's message has none.
pub proof fn latest_message_is_answered(ms: Seq<Message>, m: Message)
    ensures
        m.role == Role::User ==> latest_user_text(ms.push(m)) == Some(m.content@),
        m.role == Role::Assistant ==> latest_user_text(ms.push(m)) is None,
        latest_user_text(Seq::<Message>::empty()) is None,
{
}

} // verus!
