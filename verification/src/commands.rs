//! Display logic behind the command menu: response-mode labels and the
//! labels under which past conversations are listed.

use vstd::prelude::*;

use crate::text::{str_eq, take_at_most, take_prefix};

verus! {

/// Human-readable label for a response mode; anything unknown reads as the
/// automatic mode.
pub fn response_mode_label(mode: &str) -> (r: &'static str)
    ensures
        r@ == (if mode@ == "text"@ {
            "Text Only"@
        } else if mode@ == "voice"@ {
            "Voice Only"@
        } else {
            "Auto (match input)"@
        }),
{
    if str_eq(mode, "text") {
        "Text Only"
    } else if str_eq(mode, "voice") {
        "Voice Only"
    } else {
        "Auto (match input)"
    }
}

/// The label a conversation is listed under: its title when one was set, else
/// its summary, else the formatted creation time; titles and summaries are
/// cut at forty characters.
pub open spec fn spec_conversation_label(
    title: Seq<char>,
    summary: Seq<char>,
    created_label: Seq<char>,
) -> Seq<char> {
    if title == "New Chat"@ {
        if summary.len() == 0 {
            created_label
        } else {
            take_at_most(summary, 40)
        }
    } else {
        take_at_most(title, 40)
    }
}

/// Build the label a conversation is listed under.
pub fn conversation_label(title: &str, summary: &str, created_label: &str) -> (r: String)
    ensures
        r@ == spec_conversation_label(title@, summary@, created_label@),
{
    if str_eq(title, "New Chat") {
        if summary.is_empty() {
            created_label.to_owned()
        } else {
            take_prefix(summary, 40).to_owned()
        }
    } else {
        take_prefix(title, 40).to_owned()
    }
}

} // verus!
