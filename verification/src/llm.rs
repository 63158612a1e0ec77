//! Plain values exchanged with the language-model service.  The HTTP client
//! itself lives outside the library; the library sees only role/content pairs
//! going out and reply text coming back.

use vstd::prelude::*;

verus! {

/// A role-tagged unit of conversation content.
pub struct ChatMessage {
    pub role: String,
    pub content: String,
}

/// Token accounting reported by the model service.
pub struct GroqUsage {
    pub prompt_tokens: u32,
    pub completion_tokens: u32,
    pub total_tokens: u32,
}

/// A model reply: its text and, when reported, its token usage.
pub struct LlmResponse {
    pub text: String,
    pub usage: Option<GroqUsage>,
}

/// One token stands for about four characters; a remainder counts as one
/// more, and the estimate saturates at `i32::MAX`.
pub open spec fn spec_estimate_tokens(text: Seq<char>) -> int {
    let est = (text.len() + 3) / 4;
    if est > i32::MAX {
        i32::MAX as int
    } else {
        est as int
    }
}

/// Estimate the token count of a text: roughly one token per four
/// characters, rounded up.
pub fn estimate_tokens(text: &str) -> (r: i32)
    ensures
        r == spec_estimate_tokens(text@),
{
    let n = text.unicode_len();
    let est: usize = n / 4 + if n % 4 == 0 {
        0
    } else {
        1
    };
    if est > i32::MAX as usize {
        i32::MAX
    } else {
        est as i32
    }
}

} // verus!
