//! What the user is told when the language model cannot be reached, and how
//! the client recognises such a notice.
use vstd::prelude::*;
use crate::text::{chars_of, contains, contains_str, push_all, push_str, starts_with, starts_with_str, string_from};

verus! {

/// The notice for an exhausted quota.
pub const QUOTA_NOTICE: &'static str = "Woops! It looks like we've hit the free tier quota limit for the Google Gemini API. Please wait a minute and try again!";

/// The notice for an overloaded service.
pub const DEMAND_NOTICE: &'static str = "The Gemini API is currently experiencing extremely high demand. Please wait a few moments and try sending your message again!";

/// The text put before any other error.
pub const GENERIC_ERROR_PREFIX: &'static str = "Failed to communicate with AI: ";

/// The user-facing text for the raw error text `m` of a failed model call.
pub open spec fn gemini_error_text(m: Seq<char>) -> Seq<char> {
    if contains(m, "429"@) || contains(m, "RESOURCE_EXHAUSTED"@) || contains(m, "Quota"@) {
        QUOTA_NOTICE@
    } else if contains(m, "503"@) || contains(m, "UNAVAILABLE"@) {
        DEMAND_NOTICE@
    } else {
        GENERIC_ERROR_PREFIX@ + m
    }
}

/// Turns the raw text of a failed model call into a message for the user.
pub fn parse_gemini_error(error_msg: &str) -> (r: String)
    ensures
        r@ == gemini_error_text(error_msg@),
{
    let m = chars_of(error_msg);
    if contains_str(&m, "429") || contains_str(&m, "RESOURCE_EXHAUSTED") || contains_str(&m, "Quota") {
        QUOTA_NOTICE.to_owned()
    } else if contains_str(&m, "503") || contains_str(&m, "UNAVAILABLE") {
        DEMAND_NOTICE.to_owned()
    } else {
        let mut out: Vec<char> = Vec::new();
        push_str(&mut out, GENERIC_ERROR_PREFIX);
        push_all(&mut out, &m);
        string_from(&out)
    }
}

/// Whether a chat message reads as an error notice.
pub open spec fn is_error_text(c: Seq<char>) -> bool {
    ||| starts_with(c, "Error:"@)
    ||| starts_with(c, "Woops!"@)
    ||| starts_with(c, "The Gemini API is currently experiencing"@)
    ||| starts_with(c, "Failed to communicate"@)
}

/// Whether a chat message reads as an error notice.
pub fn is_error_message(content: &str) -> (b: bool)
    ensures
        b == is_error_text(content@),
{
    let c = chars_of(content);
    starts_with_str(&c, "Error:") || starts_with_str(&c, "Woops!") || starts_with_str(
        &c,
        "The Gemini API is currently experiencing",
    ) || starts_with_str(&c, "Failed to communicate")
}

/// Every notice made from a failed model call reads as an error notice.
pub proof fn gemini_notices_read_as_errors(m: Seq<char>)
    ensures
        is_error_text(gemini_error_text(m)),
{
    reveal_strlit("Woops! It looks like we've hit the free tier quota limit for the Google Gemini API. Please wait a minute and try again!");
    reveal_strlit("The Gemini API is currently experiencing extremely high demand. Please wait a few moments and try sending your message again!");
    reveal_strlit("Failed to communicate with AI: ");
    reveal_strlit("Woops!");
    reveal_strlit("The Gemini API is currently experiencing");
    reveal_strlit("Failed to communicate");
    assert(QUOTA_NOTICE@.take(6) =~= "Woops!"@);
    assert(DEMAND_NOTICE@.take(40) =~= "The Gemini API is currently experiencing"@);
    assert((GENERIC_ERROR_PREFIX@ + m).take(21) =~= "Failed to communicate"@);
}

/// A message that the client writes as `Error: ` and a text reads as an error notice.
pub proof fn client_errors_read_as_errors(e: Seq<char>)
    ensures
        is_error_text("Error: "@ + e),
{
    reveal_strlit("Error: ");
    reveal_strlit("Error:");
    assert(("Error: "@ + e).take(6) =~= "Error:"@);
}

} // verus!
